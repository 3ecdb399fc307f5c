use musicbot::commands::{connect, info, refresh, skip, status};
use musicbot::link::id_from_url;
use musicbot::error::CommandError;
use musicbot::schema::OptionValue;
use musicbot::service::{
    AlbumDetails, Artist, Context, ContextKind, Device, PlayableItem, Playback,
    PlaylistDetails, RepeatState, Request, Response, SearchType, Step,
};
use musicbot::spotify::{check_id, id_of_context_uri, IdFault};

fn laptop() -> Device {
    Device {
        id: Some("5fbb3ba6".to_string()),
        name: "My laptop".to_string(),
        kind: "Computer".to_string(),
        is_active: true,
        volume_percent: Some(65),
    }
}

fn playback() -> Playback {
    Playback {
        device: laptop(),
        repeat: RepeatState::Off,
        shuffle: false,
        context: None,
        progress_secs: Some(75),
        is_playing: true,
        item: Some(PlayableItem::Track {
            name: "Snowman".to_string(),
            artists: vec!["WYS".to_string()],
            duration_secs: 185,
        }),
    }
}

#[test]
fn status_first_asks_for_playback() {
    assert_eq!(status::run(&vec![], &vec![]), Step::Call(Request::CurrentPlayback));
    assert_eq!(
        status::run(&vec![], &vec![Response::Playback(None)]),
        Step::Fail(CommandError::NotFound("playback".to_string()))
    );
}

#[test]
fn status_of_a_short_track() {
    let step = status::run(&vec![], &vec![Response::Playback(Some(playback()))]);
    assert_eq!(
        step,
        Step::Reply(
            "> Playing\n> Snowman \u{2014} WYS\n> 1:15 / 3:05\n> Volume: 65%\n> Shuffle: Off\n> Repeat: Off"
                .to_string()
        )
    );
}

#[test]
fn status_of_a_long_episode_shows_hours() {
    let mut p = playback();
    p.is_playing = false;
    p.shuffle = true;
    p.repeat = RepeatState::Track;
    p.device.volume_percent = None;
    p.progress_secs = Some(3723);
    p.item = Some(PlayableItem::Episode { name: "Episode 12".to_string(), duration_secs: 7384 });
    let step = status::run(&vec![], &vec![Response::Playback(Some(p))]);
    assert_eq!(
        step,
        Step::Reply(
            "> Paused\n> Episode 12\n> 1:02:03 / 2:03:04\n> Shuffle: On\n> Repeat: On".to_string()
        )
    );
}

#[test]
fn status_without_item_or_progress() {
    let mut p = playback();
    p.item = None;
    p.repeat = RepeatState::Context;
    let step = status::run(&vec![], &vec![Response::Playback(Some(p))]);
    assert_eq!(
        step,
        Step::Reply("> Playing\n> Volume: 65%\n> Shuffle: Off\n> Repeat: On".to_string())
    );
    let mut p = playback();
    p.progress_secs = None;
    let step = status::run(&vec![], &vec![Response::Playback(Some(p))]);
    assert_eq!(
        step,
        Step::Reply(
            "> Playing\n> Snowman \u{2014} WYS\n> Volume: 65%\n> Shuffle: Off\n> Repeat: Off"
                .to_string()
        )
    );
}

#[test]
fn status_looks_up_the_name_of_the_context() {
    let mut p = playback();
    p.context = Some(Context {
        kind: Some(ContextKind::Artist),
        uri: "spotify:artist:2QI8e2Vwgg9KXOz2zjcrkI".to_string(),
    });
    let first = vec![Response::Playback(Some(p))];
    assert_eq!(
        status::run(&vec![], &first),
        Step::Call(Request::Artist { id: "2QI8e2Vwgg9KXOz2zjcrkI".to_string() })
    );
    let mut replies = first;
    replies.push(Response::Artist(Artist {
        id: "2QI8e2Vwgg9KXOz2zjcrkI".to_string(),
        name: "WYS".to_string(),
    }));
    assert_eq!(
        status::run(&vec![], &replies),
        Step::Reply(
            "> Playing\n> Artist WYS\n> Snowman \u{2014} WYS\n> 1:15 / 3:05\n> Volume: 65%\n> Shuffle: Off\n> Repeat: Off"
                .to_string()
        )
    );
}

#[test]
fn status_names_albums_and_playlists() {
    let mut p = playback();
    p.context = Some(Context {
        kind: Some(ContextKind::Album),
        uri: "spotify:album:6IcGNaXFRf5Y1jc7QsE9O2".to_string(),
    });
    let mut replies = vec![Response::Playback(Some(p))];
    assert_eq!(
        status::run(&vec![], &replies),
        Step::Call(Request::Album { id: "6IcGNaXFRf5Y1jc7QsE9O2".to_string() })
    );
    replies.push(Response::Album(AlbumDetails { name: "Winter".to_string(), tracks: vec![] }));
    match status::run(&vec![], &replies) {
        Step::Reply(text) => assert!(text.starts_with("> Playing\n> Album Winter\n> Snowman")),
        other => panic!("{:?}", other),
    }
    let mut p = playback();
    p.context = Some(Context {
        kind: Some(ContextKind::Playlist),
        uri: "spotify/playlist/37i9dQZF1DX".to_string(),
    });
    let mut replies = vec![Response::Playback(Some(p))];
    assert_eq!(
        status::run(&vec![], &replies),
        Step::Call(Request::Playlist { id: "37i9dQZF1DX".to_string() })
    );
    replies.push(Response::Playlist(PlaylistDetails { name: "Chill".to_string(), items: vec![] }));
    match status::run(&vec![], &replies) {
        Step::Reply(text) => assert!(text.starts_with("> Playing\n> Playlist Chill\n> Snowman")),
        other => panic!("{:?}", other),
    }
    replies.pop();
    replies.push(Response::Album(AlbumDetails { name: "Winter".to_string(), tracks: vec![] }));
    assert_eq!(
        status::run(&vec![], &replies),
        Step::Fail(CommandError::RemoteFailure("unexpected response".to_string()))
    );
}

#[test]
fn status_refuses_a_context_uri_of_another_kind() {
    let mut p = playback();
    p.context = Some(Context {
        kind: Some(ContextKind::Artist),
        uri: "spotify:album:6IcGNaXFRf5Y1jc7QsE9O2".to_string(),
    });
    assert_eq!(
        status::run(&vec![], &vec![Response::Playback(Some(p))]),
        Step::Fail(CommandError::InvalidArgument("URI is of another type".to_string()))
    );
    let mut p = playback();
    p.context = Some(Context { kind: None, uri: "spotify:show:abc".to_string() });
    match status::run(&vec![], &vec![Response::Playback(Some(p))]) {
        Step::Reply(text) => assert!(text.starts_with("> Playing\n> Snowman")),
        other => panic!("{:?}", other),
    }
}

#[test]
fn status_of_a_track_without_artist_is_not_found() {
    let mut p = playback();
    p.item = Some(PlayableItem::Track {
        name: "Nameless".to_string(),
        artists: vec![],
        duration_secs: 10,
    });
    assert_eq!(
        status::run(&vec![], &vec![Response::Playback(Some(p))]),
        Step::Fail(CommandError::NotFound("artist".to_string()))
    );
}

#[test]
fn info_shows_the_card_of_the_device() {
    assert_eq!(info::run(&vec![], &vec![]), Step::Call(Request::CurrentPlayback));
    assert_eq!(
        info::run(&vec![], &vec![Response::Playback(Some(playback()))]),
        Step::Reply(
            "\n        > Device: My laptop\n        > Id: 5fbb3ba6\n        > Active: true\n        > Type: Computer\n    "
                .to_string()
        )
    );
    let mut p = playback();
    p.device.id = None;
    p.device.is_active = false;
    assert_eq!(
        info::run(&vec![], &vec![Response::Playback(Some(p))]),
        Step::Reply(
            "\n        > Device: My laptop\n        > Id: N/A\n        > Active: false\n        > Type: Computer\n    "
                .to_string()
        )
    );
    assert_eq!(
        info::run(&vec![], &vec![Response::Playback(None)]),
        Step::Fail(CommandError::NotFound("playback".to_string()))
    );
}

#[test]
fn reconnect_transfers_to_the_speaker() {
    assert_eq!(
        refresh::run(&vec![], &vec![]),
        Step::Call(Request::TransferPlayback {
            device_id: "01d8e617c3382c198f44d9418eb65fdef0cc368a".to_string(),
            play: Some(false),
        })
    );
    assert_eq!(
        refresh::run(&vec![], &vec![Response::Done]),
        Step::Reply("Playback transfered to speaker".to_string())
    );
    assert_eq!(refresh::register().name, "reconnect");
}

#[test]
fn identifiers_are_letters_and_digits() {
    for category in [SearchType::Track, SearchType::Album, SearchType::Playlist, SearchType::Artist] {
        assert_eq!(check_id(category, "4y4VO05kYgUTo2bzbox1an"), Ok("4y4VO05kYgUTo2bzbox1an".to_string()));
        assert_eq!(check_id(category, ""), Ok(String::new()));
        assert_eq!(check_id(category, "4y4V-5kY"), Err(IdFault::Id));
        assert_eq!(check_id(category, "spotify:track:4y4VO05kYgUTo2bzbox1an"), Err(IdFault::Id));
        assert_eq!(check_id(category, "caf\u{e9}"), Err(IdFault::Id));
    }
}

#[test]
fn context_uris_are_parsed_by_kind() {
    assert_eq!(
        id_of_context_uri(ContextKind::Artist, "spotify:artist:2QI8e2Vwgg9KXOz2zjcrkI"),
        Ok("2QI8e2Vwgg9KXOz2zjcrkI".to_string())
    );
    assert_eq!(
        id_of_context_uri(ContextKind::Album, "spotify/album/6IcGNaXFRf5Y1jc7QsE9O2"),
        Ok("6IcGNaXFRf5Y1jc7QsE9O2".to_string())
    );
    assert_eq!(
        id_of_context_uri(ContextKind::Playlist, "spotify:artist:2QI8e2Vwgg9KXOz2zjcrkI"),
        Err(IdFault::Type)
    );
    assert_eq!(id_of_context_uri(ContextKind::Album, "album:6IcGNaXF"), Err(IdFault::Prefix));
    assert_eq!(id_of_context_uri(ContextKind::Album, "spotify:album"), Err(IdFault::Format));
    assert_eq!(id_of_context_uri(ContextKind::Album, "spotify:album:a-b"), Err(IdFault::Id));
    assert_eq!(
        IdFault::Prefix.into_error(),
        CommandError::InvalidArgument("URI does not start with spotify".to_string())
    );
    assert_eq!(
        IdFault::Format.into_error(),
        CommandError::InvalidArgument("URI has no type and identifier".to_string())
    );
}

#[test]
fn link_names_its_last_segment() {
    assert_eq!(
        id_from_url("https://open.spotify.com/track/4y4VO05kYgUTo2bzbox1an?si=abc"),
        Ok("4y4VO05kYgUTo2bzbox1an")
    );
    assert_eq!(id_from_url("https://open.spotify.com/track/4y4VO05k"), Ok("4y4VO05k"));
    assert_eq!(id_from_url("4y4VO05k"), Ok("4y4VO05k"));
    assert_eq!(id_from_url("a/b?c/d"), Ok("b"));
    assert_eq!(id_from_url("a/b?c?d"), Ok("b"));
    assert_eq!(id_from_url("?a/b"), Err(CommandError::InvalidArgument(
        "link holds no identifier".to_string()
    )));
    assert_eq!(id_from_url("a/b?c"), Ok("b"));
    assert_eq!(id_from_url("caf\u{e9}/\u{e9}t\u{e9}?x"), Ok("\u{e9}t\u{e9}"));
    assert_eq!(
        id_from_url("https://open.spotify.com/track/"),
        Err(CommandError::InvalidArgument("link holds no identifier".to_string()))
    );
    assert_eq!(
        id_from_url(""),
        Err(CommandError::InvalidArgument("link holds no identifier".to_string()))
    );
    assert_eq!(
        id_from_url("x/?y"),
        Err(CommandError::InvalidArgument("link holds no identifier".to_string()))
    );
}

#[test]
fn skipping_no_track_makes_no_call() {
    assert_eq!(
        skip::run(&vec![Some(OptionValue::Integer(0))], &vec![]),
        Step::Reply("Skipped tracks".to_string())
    );
    assert_eq!(
        skip::run(&vec![Some(OptionValue::Integer(-3))], &vec![]),
        Step::Reply("Skipped tracks".to_string())
    );
    assert_eq!(skip::run(&vec![None], &vec![]), Step::Call(Request::NextTrack));
    assert_eq!(
        skip::run(&vec![None], &vec![Response::Done]),
        Step::Reply("Skipped tracks".to_string())
    );
    assert_eq!(
        skip::run(&vec![Some(OptionValue::Boolean(true))], &vec![]),
        Step::Fail(CommandError::InvalidArgument("type mismatch at position 0".to_string()))
    );
    assert_eq!(
        skip::skip_tracks(i64::MAX, &vec![Response::Done, Response::Done]),
        Step::Call(Request::NextTrack)
    );
}

#[test]
fn volume_is_set_at_both_ends() {
    let run = |level: i64, replies: &Vec<Response>| {
        musicbot::commands::set::run("volume", &vec![Some(OptionValue::Integer(level))], replies)
    };
    assert_eq!(run(0, &vec![]), Step::Call(Request::Volume { percent: 0 }));
    assert_eq!(run(100, &vec![]), Step::Call(Request::Volume { percent: 100 }));
    assert_eq!(run(100, &vec![Response::Done]), Step::Reply("Set volume to 100".to_string()));
    assert_eq!(
        run(101, &vec![]),
        Step::Fail(CommandError::InvalidArgument("value out of range".to_string()))
    );
    assert_eq!(
        run(-1, &vec![Response::Done]),
        Step::Fail(CommandError::InvalidArgument("value out of range".to_string()))
    );
    assert_eq!(
        run(300, &vec![]),
        Step::Fail(CommandError::InvalidArgument("value out of range".to_string()))
    );
}

#[test]
fn connect_refuses_a_name_of_the_wrong_type() {
    let kitchen = || {
        vec![Device {
            id: Some("d1".to_string()),
            name: "Kitchen".to_string(),
            kind: "Speaker".to_string(),
            is_active: true,
            volume_percent: None,
        }]
    };
    let mismatch =
        Step::Fail(CommandError::InvalidArgument("type mismatch at position 0".to_string()));
    let wrong = vec![Some(OptionValue::Integer(5))];
    assert_eq!(connect::run(&wrong, &vec![]), mismatch);
    assert_eq!(connect::run(&wrong, &vec![Response::Devices(kitchen())]), mismatch);
    assert_eq!(
        connect::run(&wrong, &vec![Response::Devices(kitchen()), Response::Done]),
        mismatch
    );
    assert_eq!(connect::run(&vec![Some(OptionValue::Boolean(true))], &vec![]), mismatch);

    let absent: Vec<Option<OptionValue>> = vec![None];
    assert_eq!(connect::run(&absent, &vec![]), Step::Call(Request::Devices));
    assert_eq!(
        connect::run(&absent, &vec![Response::Devices(kitchen())]),
        Step::Call(Request::TransferPlayback { device_id: "d1".to_string(), play: None })
    );
    assert_eq!(
        connect::run(&vec![], &vec![Response::Devices(kitchen()), Response::Done]),
        Step::Reply("Playback transfered to Kitchen".to_string())
    );
    let named = vec![Some(OptionValue::text("Kitchen"))];
    assert_eq!(
        connect::run(&named, &vec![Response::Devices(kitchen())]),
        Step::Call(Request::TransferPlayback { device_id: "d1".to_string(), play: None })
    );
    assert_eq!(
        connect::run(&vec![Some(OptionValue::text("Den"))], &vec![Response::Devices(kitchen())]),
        Step::Fail(CommandError::NotFound("device".to_string()))
    );
    assert_eq!(connect::pick(None, &kitchen()), Some(0));
    assert_eq!(connect::pick(None, &vec![]), None);
    assert_eq!(connect::pick(Some("Kitchen"), &kitchen()), Some(0));
    assert_eq!(connect::pick(Some("kitchen"), &kitchen()), None);
}
