use musicbot::dispatch::{dispatch, Invocation, Turn};
use musicbot::options::RawOption;
use musicbot::registry::{Handler, Registry, RegistryError};
use musicbot::schema::{CommandSchema, OptionValue};
use musicbot::service::{
    Album, AlbumDetails, Artist, ContextKind, Device, PlayableId, PlayableItem, Playlist,
    PlaylistDetails, PlaylistItem, Queue, RepeatState, Request, Response, SearchResult,
    SearchType, Track,
};

fn invocation(name: &str, options: Vec<RawOption>) -> Invocation {
    Invocation { name: name.to_string(), subcommand: None, options }
}

fn setting(sub: &str, options: Vec<RawOption>) -> Invocation {
    Invocation { name: "set".to_string(), subcommand: Some(sub.to_string()), options }
}

/// Plays the part of the transport: makes no call itself but answers each
/// call with the next answer of `script`, and gives back the calls that were
/// asked for and the text that was said at the end.
fn drive(invocation: &Invocation, script: Vec<Response>) -> (Vec<Request>, String) {
    let registry = Registry::standard();
    let mut answers = script.into_iter();
    let mut replies: Vec<Response> = Vec::new();
    let mut calls: Vec<Request> = Vec::new();
    loop {
        match dispatch(&registry, invocation, &replies) {
            Turn::Say(text) => return (calls, text),
            Turn::Call(request) => {
                calls.push(request);
                match answers.next() {
                    Some(answer) => replies.push(answer),
                    None => panic!("more calls than answers: {:?}", calls),
                }
            }
        }
    }
}

fn speaker(name: &str, id: Option<&str>) -> Device {
    Device {
        id: id.map(|s| s.to_string()),
        name: name.to_string(),
        kind: "Speaker".to_string(),
        is_active: true,
        volume_percent: Some(40),
    }
}

fn track(name: &str, artist: &str, id: Option<&str>) -> Track {
    Track { id: id.map(|s| s.to_string()), name: name.to_string(), artists: vec![artist.to_string()] }
}

#[test]
fn unknown_command_is_unsupported_and_makes_no_call() {
    let (calls, text) = drive(&invocation("dance", vec![]), vec![]);
    assert!(calls.is_empty());
    assert_eq!(text, "Error: command 'dance' is not implemented");
    let with_options =
        invocation("dance", vec![RawOption::new("term", OptionValue::text("lofi"))]);
    let (calls, text) = drive(&with_options, vec![]);
    assert!(calls.is_empty());
    assert_eq!(text, "Error: command 'dance' is not implemented");
    let registry = Registry::standard();
    let stale = vec![Response::Done, Response::Failed("late".to_string())];
    assert_eq!(
        dispatch(&registry, &invocation("dance", vec![]), &stale),
        Turn::Say("Error: command 'dance' is not implemented".to_string())
    );
}

#[test]
fn reconnect_is_not_among_the_offered_commands() {
    let (calls, text) = drive(&invocation("reconnect", vec![]), vec![]);
    assert!(calls.is_empty());
    assert_eq!(text, "Error: command 'reconnect' is not implemented");
}

#[test]
fn connect_without_name_takes_the_first_device() {
    let devices = vec![speaker("Kitchen", Some("abc123"))];
    let (calls, text) =
        drive(&invocation("connect", vec![]), vec![Response::Devices(devices), Response::Done]);
    assert_eq!(
        calls,
        vec![
            Request::Devices,
            Request::TransferPlayback { device_id: "abc123".to_string(), play: None },
        ]
    );
    assert_eq!(text, "Playback transfered to Kitchen");
}

#[test]
fn connect_without_devices_is_not_found() {
    let (calls, text) = drive(&invocation("connect", vec![]), vec![Response::Devices(vec![])]);
    assert_eq!(calls, vec![Request::Devices]);
    assert_eq!(text, "Error: device not found");
}

#[test]
fn connect_by_name_takes_the_first_of_that_name() {
    let devices = vec![
        speaker("Kitchen", Some("k1")),
        speaker("Den", Some("d1")),
        speaker("Den", Some("d2")),
    ];
    let by_name = invocation("connect", vec![RawOption::new("name", OptionValue::text("Den"))]);
    let (calls, text) = drive(&by_name, vec![Response::Devices(devices), Response::Done]);
    assert_eq!(
        calls[1],
        Request::TransferPlayback { device_id: "d1".to_string(), play: None }
    );
    assert_eq!(text, "Playback transfered to Den");
    let devices = vec![speaker("Kitchen", Some("k1"))];
    let (calls, text) = drive(&by_name, vec![Response::Devices(devices)]);
    assert_eq!(calls.len(), 1);
    assert_eq!(text, "Error: device not found");
}

#[test]
fn connect_to_device_without_id_is_not_found() {
    let devices = vec![speaker("Kitchen", None)];
    let (calls, text) = drive(&invocation("connect", vec![]), vec![Response::Devices(devices)]);
    assert_eq!(calls, vec![Request::Devices]);
    assert_eq!(text, "Error: device id not found");
}

#[test]
fn remote_failure_is_passed_through_once() {
    let (calls, text) =
        drive(&invocation("pause", vec![]), vec![Response::Failed("http 502".to_string())]);
    assert_eq!(calls, vec![Request::Pause]);
    assert_eq!(text, "Error: http 502");
    let devices = vec![speaker("Kitchen", Some("abc123"))];
    let (calls, text) = drive(
        &invocation("connect", vec![]),
        vec![Response::Devices(devices), Response::Failed("no such device".to_string())],
    );
    assert_eq!(calls.len(), 2);
    assert_eq!(text, "Error: no such device");
}

#[test]
fn answer_of_another_shape_is_a_remote_failure() {
    let (_, text) = drive(&invocation("devices", vec![]), vec![Response::Done]);
    assert_eq!(text, "Error: unexpected response");
    let (_, text) = drive(&invocation("pause", vec![]), vec![Response::Devices(vec![])]);
    assert_eq!(text, "Error: unexpected response");
}

#[test]
fn pause_resume_are_one_call_each() {
    assert_eq!(
        drive(&invocation("pause", vec![]), vec![Response::Done]),
        (vec![Request::Pause], "Playback paused".to_string())
    );
    assert_eq!(
        drive(&invocation("resume", vec![]), vec![Response::Done]),
        (vec![Request::Resume], "Playback resumed".to_string())
    );
}

#[test]
fn undecodable_options_make_no_call() {
    let (calls, text) = drive(&invocation("search", vec![]), vec![]);
    assert!(calls.is_empty());
    assert_eq!(text, "Error: missing required argument 0");
    let wrong = invocation("search", vec![RawOption::new("term", OptionValue::Integer(1))]);
    let (calls, text) = drive(&wrong, vec![]);
    assert!(calls.is_empty());
    assert_eq!(text, "Error: invalid argument \u{2014} type mismatch at position 0");
    let surplus = invocation("pause", vec![RawOption::new("x", OptionValue::Integer(1))]);
    let (calls, text) = drive(&surplus, vec![]);
    assert!(calls.is_empty());
    assert_eq!(text, "Error: invalid argument \u{2014} too many arguments");
    let choice = invocation(
        "queue",
        vec![
            RawOption::new("name", OptionValue::text("x")),
            RawOption::new("type", OptionValue::text("artist")),
        ],
    );
    let (calls, text) = drive(&choice, vec![]);
    assert!(calls.is_empty());
    assert_eq!(text, "Error: invalid argument \u{2014} value not in allowed set");
}

#[test]
fn search_lists_the_hits_of_the_default_category() {
    let hits = SearchResult::Tracks(vec![
        track("Snowman", "WYS", Some("t1")),
        track("Affection", "Jinsang", Some("t2")),
    ]);
    let (calls, text) = drive(
        &invocation("search", vec![RawOption::new("term", OptionValue::text("lofi"))]),
        vec![Response::Found(hits)],
    );
    assert_eq!(
        calls,
        vec![Request::Search { term: "lofi".to_string(), category: SearchType::Track, limit: 5 }]
    );
    assert_eq!(
        text,
        "Search results for 'lofi'\nWYS \u{2014} Snowman \nJinsang \u{2014} Affection \n"
    );
}

#[test]
fn search_in_other_categories() {
    let options = |category: &str| {
        vec![
            RawOption::new("term", OptionValue::text("jazz")),
            RawOption::new("category", OptionValue::text(category)),
        ]
    };
    let playlists = SearchResult::Playlists(vec![Playlist {
        id: "p1".to_string(),
        name: "Jazz Vibes".to_string(),
    }]);
    let (calls, text) = drive(&invocation("search", options("playlist")), vec![Response::Found(playlists)]);
    assert_eq!(
        calls,
        vec![Request::Search { term: "jazz".to_string(), category: SearchType::Playlist, limit: 5 }]
    );
    assert_eq!(text, "Search results for 'jazz'\nJazz Vibes \n");
    let artists = SearchResult::Artists(vec![
        Artist { id: "a1".to_string(), name: "Miles Davis".to_string() },
        Artist { id: "a2".to_string(), name: "Chet Baker".to_string() },
    ]);
    let (_, text) = drive(&invocation("search", options("artist")), vec![Response::Found(artists)]);
    assert_eq!(text, "Search results for 'jazz'\nMiles Davis \nChet Baker \n");
    let albums = SearchResult::Albums(vec![Album {
        id: Some("al1".to_string()),
        name: "Kind of Blue".to_string(),
        artists: vec!["Miles Davis".to_string(), "John Coltrane".to_string()],
    }]);
    let (_, text) = drive(&invocation("search", options("album")), vec![Response::Found(albums)]);
    assert_eq!(text, "Search results for 'jazz'\nMiles Davis \u{2014} Kind of Blue \n");
    let (_, text) =
        drive(&invocation("search", options("album")), vec![Response::Found(SearchResult::Other)]);
    assert_eq!(text, "Error: Unexpected search result type");
    let (_, text) = drive(
        &invocation("search", options("track")),
        vec![Response::Found(SearchResult::Tracks(vec![]))],
    );
    assert_eq!(text, "Search results for 'jazz'\n");
}

#[test]
fn hit_without_artist_is_not_found() {
    let hits = SearchResult::Tracks(vec![
        track("Snowman", "WYS", Some("t1")),
        Track { id: Some("t2".to_string()), name: "Nameless".to_string(), artists: vec![] },
    ]);
    let (_, text) = drive(
        &invocation("search", vec![RawOption::new("term", OptionValue::text("lofi"))]),
        vec![Response::Found(hits)],
    );
    assert_eq!(text, "Error: artist not found");
}

#[test]
fn play_starts_the_first_hit() {
    let hits = SearchResult::Tracks(vec![
        track("Snowman", "WYS", Some("t1")),
        track("Affection", "Jinsang", Some("t2")),
    ]);
    let (calls, text) = drive(
        &invocation("play", vec![RawOption::new("name", OptionValue::text("lofi"))]),
        vec![Response::Found(hits), Response::Done],
    );
    assert_eq!(
        calls,
        vec![
            Request::Search { term: "lofi".to_string(), category: SearchType::Track, limit: 1 },
            Request::StartTrack { id: "t1".to_string() },
        ]
    );
    assert_eq!(text, "Now playing Snowman by WYS");
}

#[test]
fn play_starts_contexts_for_other_categories() {
    let options = |category: &str| {
        vec![
            RawOption::new("name", OptionValue::text("jazz")),
            RawOption::new("type", OptionValue::text(category)),
        ]
    };
    let albums = SearchResult::Albums(vec![Album {
        id: Some("al1".to_string()),
        name: "Kind of Blue".to_string(),
        artists: vec!["Miles Davis".to_string()],
    }]);
    let (calls, text) =
        drive(&invocation("play", options("album")), vec![Response::Found(albums), Response::Done]);
    assert_eq!(calls[1], Request::StartContext { kind: ContextKind::Album, id: "al1".to_string() });
    assert_eq!(text, "Now playing Kind of Blue by Miles Davis");
    let playlists = SearchResult::Playlists(vec![Playlist {
        id: "p1".to_string(),
        name: "Jazz Vibes".to_string(),
    }]);
    let (calls, text) = drive(
        &invocation("play", options("playlist")),
        vec![Response::Found(playlists), Response::Done],
    );
    assert_eq!(calls[1], Request::StartContext { kind: ContextKind::Playlist, id: "p1".to_string() });
    assert_eq!(text, "Now playing Jazz Vibes");
    let artists = SearchResult::Artists(vec![Artist {
        id: "a1".to_string(),
        name: "Miles Davis".to_string(),
    }]);
    let (calls, text) = drive(
        &invocation("play", options("artist")),
        vec![Response::Found(artists), Response::Done],
    );
    assert_eq!(calls[1], Request::StartContext { kind: ContextKind::Artist, id: "a1".to_string() });
    assert_eq!(text, "Now playing from Miles Davis");
}

#[test]
fn play_without_hit_or_id_is_not_found() {
    let options = vec![RawOption::new("name", OptionValue::text("lofi"))];
    let (calls, text) = drive(
        &invocation("play", options),
        vec![Response::Found(SearchResult::Tracks(vec![]))],
    );
    assert_eq!(calls.len(), 1);
    assert_eq!(text, "Error: track not found");
    let options = vec![RawOption::new("name", OptionValue::text("lofi"))];
    let (calls, text) = drive(
        &invocation("play", options),
        vec![Response::Found(SearchResult::Tracks(vec![track("Local", "Me", None)]))],
    );
    assert_eq!(calls.len(), 1);
    assert_eq!(text, "Error: track id not found");
}

#[test]
fn play_by_link_starts_what_the_link_names() {
    let link = |url: &str, category: Option<&str>| {
        let mut options = vec![RawOption::new("name", OptionValue::text(url))];
        match category {
            Some(c) => options.push(RawOption::new("type", OptionValue::text(c))),
            None => options.push(RawOption::new("type", OptionValue::text("track"))),
        }
        options.push(RawOption::new("link", OptionValue::Boolean(true)));
        invocation("play", options)
    };
    let (calls, text) = drive(
        &link("https://open.spotify.com/track/4y4VO05kYgUTo2bzbox1an?si=abc", None),
        vec![Response::Done],
    );
    assert_eq!(calls, vec![Request::StartTrack { id: "4y4VO05kYgUTo2bzbox1an".to_string() }]);
    assert_eq!(text, "Now playing");
    let (calls, _) = drive(
        &link("https://open.spotify.com/album/6IcGNaXFRf5Y1jc7QsE9O2", Some("album")),
        vec![Response::Done],
    );
    assert_eq!(
        calls,
        vec![Request::StartContext {
            kind: ContextKind::Album,
            id: "6IcGNaXFRf5Y1jc7QsE9O2".to_string()
        }]
    );
    let (calls, text) = drive(&link("https://open.spotify.com/track/not-an-id", None), vec![]);
    assert!(calls.is_empty());
    assert_eq!(
        text,
        "Error: invalid argument \u{2014} identifier holds a character that is no letter or digit"
    );
    let (calls, text) = drive(&link("https://open.spotify.com/track/", None), vec![]);
    assert!(calls.is_empty());
    assert_eq!(text, "Error: invalid argument \u{2014} link holds no identifier");
}

#[test]
fn queue_a_track() {
    let hits = SearchResult::Tracks(vec![track("Snowman", "WYS", Some("t1"))]);
    let (calls, text) = drive(
        &invocation("queue", vec![RawOption::new("name", OptionValue::text("lofi"))]),
        vec![Response::Found(hits), Response::Done],
    );
    assert_eq!(
        calls,
        vec![
            Request::Search { term: "lofi".to_string(), category: SearchType::Track, limit: 1 },
            Request::AddToQueue { item: PlayableId::Track("t1".to_string()) },
        ]
    );
    assert_eq!(text, "Successfully queued track Snowman");
}

#[test]
fn queue_an_album_track_by_track() {
    let options = vec![
        RawOption::new("name", OptionValue::text("blue")),
        RawOption::new("type", OptionValue::text("album")),
    ];
    let albums = SearchResult::Albums(vec![Album {
        id: Some("al1".to_string()),
        name: "Kind of Blue".to_string(),
        artists: vec!["Miles Davis".to_string()],
    }]);
    let details = AlbumDetails {
        name: "Kind of Blue".to_string(),
        tracks: vec![Some("t1".to_string()), Some("t2".to_string()), Some("t3".to_string())],
    };
    let (calls, text) = drive(
        &invocation("queue", options),
        vec![
            Response::Found(albums),
            Response::Album(details),
            Response::Done,
            Response::Done,
            Response::Done,
        ],
    );
    assert_eq!(
        calls,
        vec![
            Request::Search { term: "blue".to_string(), category: SearchType::Album, limit: 1 },
            Request::Album { id: "al1".to_string() },
            Request::AddToQueue { item: PlayableId::Track("t1".to_string()) },
            Request::AddToQueue { item: PlayableId::Track("t2".to_string()) },
            Request::AddToQueue { item: PlayableId::Track("t3".to_string()) },
        ]
    );
    assert_eq!(text, "Successfully queued album Kind of Blue");
}

#[test]
fn queue_stops_at_the_first_setback() {
    let options = || {
        vec![
            RawOption::new("name", OptionValue::text("blue")),
            RawOption::new("type", OptionValue::text("album")),
        ]
    };
    let albums = || {
        SearchResult::Albums(vec![Album {
            id: Some("al1".to_string()),
            name: "Kind of Blue".to_string(),
            artists: vec![],
        }])
    };
    let details = AlbumDetails {
        name: "Kind of Blue".to_string(),
        tracks: vec![Some("t1".to_string()), None, Some("t3".to_string())],
    };
    let (calls, text) = drive(
        &invocation("queue", options()),
        vec![Response::Found(albums()), Response::Album(details), Response::Done],
    );
    assert_eq!(calls.len(), 3);
    assert_eq!(text, "Error: track id not found");
    let details = AlbumDetails {
        name: "Kind of Blue".to_string(),
        tracks: vec![Some("t1".to_string()), Some("t2".to_string())],
    };
    let (calls, text) = drive(
        &invocation("queue", options()),
        vec![
            Response::Found(albums()),
            Response::Album(details),
            Response::Failed("queue is full".to_string()),
        ],
    );
    assert_eq!(calls.len(), 3);
    assert_eq!(text, "Error: queue is full");
    let details = AlbumDetails { name: "Kind of Blue".to_string(), tracks: vec![] };
    let (calls, text) = drive(
        &invocation("queue", options()),
        vec![Response::Found(albums()), Response::Album(details)],
    );
    assert_eq!(calls.len(), 2);
    assert_eq!(text, "Successfully queued album Kind of Blue");
}

#[test]
fn queue_a_playlist_item_by_item() {
    let options = vec![
        RawOption::new("name", OptionValue::text("vibes")),
        RawOption::new("type", OptionValue::text("playlist")),
    ];
    let playlists = SearchResult::Playlists(vec![Playlist {
        id: "p1".to_string(),
        name: "Jazz Vibes".to_string(),
    }]);
    let details = PlaylistDetails {
        name: "Jazz Vibes".to_string(),
        items: vec![
            PlaylistItem::Playable(PlayableId::Track("t1".to_string())),
            PlaylistItem::Playable(PlayableId::Episode("e1".to_string())),
            PlaylistItem::Unavailable,
        ],
    };
    let (calls, text) = drive(
        &invocation("queue", options),
        vec![
            Response::Found(playlists),
            Response::Playlist(details),
            Response::Done,
            Response::Done,
        ],
    );
    assert_eq!(
        calls[1..],
        [
            Request::Playlist { id: "p1".to_string() },
            Request::AddToQueue { item: PlayableId::Track("t1".to_string()) },
            Request::AddToQueue { item: PlayableId::Episode("e1".to_string()) },
        ]
    );
    assert_eq!(text, "Error: track not found");
}

#[test]
fn queue_a_whole_playlist() {
    let options = vec![
        RawOption::new("name", OptionValue::text("vibes")),
        RawOption::new("type", OptionValue::text("playlist")),
    ];
    let playlists = SearchResult::Playlists(vec![
        Playlist { id: "p1".to_string(), name: "Jazz Vibes".to_string() },
        Playlist { id: "p2".to_string(), name: "Other".to_string() },
    ]);
    let details = PlaylistDetails {
        name: "Jazz Vibes".to_string(),
        items: vec![
            PlaylistItem::Playable(PlayableId::Episode("e1".to_string())),
            PlaylistItem::Playable(PlayableId::Track("t1".to_string())),
        ],
    };
    let (calls, text) = drive(
        &invocation("queue", options),
        vec![
            Response::Found(playlists),
            Response::Playlist(details),
            Response::Done,
            Response::Done,
        ],
    );
    assert_eq!(calls.len(), 4);
    assert_eq!(calls[1], Request::Playlist { id: "p1".to_string() });
    assert_eq!(calls[3], Request::AddToQueue { item: PlayableId::Track("t1".to_string()) });
    assert_eq!(text, "Successfully queued playlist Jazz Vibes");
}

#[test]
fn set_changes_one_setting() {
    let flag = |value: bool| vec![RawOption::new("bool", OptionValue::Boolean(value))];
    assert_eq!(
        drive(&setting("repeat", flag(true)), vec![Response::Done]),
        (vec![Request::Repeat { state: RepeatState::Context }], "Set repeat to on".to_string())
    );
    assert_eq!(
        drive(&setting("repeat", flag(false)), vec![Response::Done]),
        (vec![Request::Repeat { state: RepeatState::Off }], "Set repeat to off".to_string())
    );
    assert_eq!(
        drive(&setting("shuffle", flag(true)), vec![Response::Done]),
        (vec![Request::Shuffle { on: true }], "Set shuffle to true".to_string())
    );
    assert_eq!(
        drive(&setting("shuffle", flag(false)), vec![Response::Done]),
        (vec![Request::Shuffle { on: false }], "Set shuffle to false".to_string())
    );
    let level = |value: i64| vec![RawOption::new("level", OptionValue::Integer(value))];
    assert_eq!(
        drive(&setting("volume", level(35)), vec![Response::Done]),
        (vec![Request::Volume { percent: 35 }], "Set volume to 35".to_string())
    );
    assert_eq!(
        drive(&setting("volume", level(150)), vec![]),
        (vec![], "Error: invalid argument \u{2014} value out of range".to_string())
    );
    assert_eq!(
        drive(&setting("volume", flag(true)), vec![]),
        (vec![], "Error: invalid argument \u{2014} type mismatch at position 0".to_string())
    );
    assert_eq!(
        drive(&setting("volume", vec![]), vec![]),
        (vec![], "Error: missing required argument 0".to_string())
    );
    assert_eq!(
        drive(&setting("bass", level(3)), vec![]),
        (vec![], "Error: invalid argument \u{2014} Unknown subcommand".to_string())
    );
    assert_eq!(
        drive(&invocation("set", vec![]), vec![]),
        (vec![], "Error: missing required argument 0".to_string())
    );
    let stray = Invocation {
        name: "pause".to_string(),
        subcommand: Some("now".to_string()),
        options: vec![],
    };
    assert_eq!(
        drive(&stray, vec![]),
        (vec![], "Error: invalid argument \u{2014} Unknown subcommand".to_string())
    );
}

#[test]
fn skip_goes_on_as_often_as_asked() {
    assert_eq!(
        drive(&invocation("skip", vec![]), vec![Response::Done]),
        (vec![Request::NextTrack], "Skipped tracks".to_string())
    );
    let three = invocation("skip", vec![RawOption::new("count", OptionValue::Integer(3))]);
    assert_eq!(
        drive(&three, vec![Response::Done, Response::Done, Response::Done]),
        (
            vec![Request::NextTrack, Request::NextTrack, Request::NextTrack],
            "Skipped tracks".to_string()
        )
    );
    assert_eq!(
        drive(&three, vec![Response::Done, Response::Failed("nothing left".to_string())]),
        (vec![Request::NextTrack, Request::NextTrack], "Error: nothing left".to_string())
    );
    let eleven = invocation("skip", vec![RawOption::new("count", OptionValue::Integer(11))]);
    assert_eq!(
        drive(&eleven, vec![]),
        (vec![], "Error: invalid argument \u{2014} value out of range".to_string())
    );
}

#[test]
fn list_shows_what_plays_and_what_waits() {
    let queue = Queue {
        currently_playing: Some(PlayableItem::Track {
            name: "Snowman".to_string(),
            artists: vec!["WYS".to_string()],
            duration_secs: 180,
        }),
        queue: vec![
            PlayableItem::Track {
                name: "Affection".to_string(),
                artists: vec!["Jinsang".to_string(), "Other".to_string()],
                duration_secs: 100,
            },
            PlayableItem::Episode { name: "Episode 12".to_string(), duration_secs: 3000 },
        ],
    };
    let (calls, text) = drive(&invocation("list", vec![]), vec![Response::Queue(queue)]);
    assert_eq!(calls, vec![Request::CurrentQueue]);
    assert_eq!(
        text,
        "> Currently playing Snowman by WYS \n> Queue: \n> Jinsang \u{2014} Affection\n> Episode 12\n"
    );
    let idle = Queue { currently_playing: None, queue: vec![] };
    let (_, text) = drive(&invocation("list", vec![]), vec![Response::Queue(idle)]);
    assert_eq!(text, "> Queue: \n");
    let talk = Queue {
        currently_playing: Some(PlayableItem::Episode {
            name: "Episode 12".to_string(),
            duration_secs: 3000,
        }),
        queue: vec![],
    };
    let (_, text) = drive(&invocation("list", vec![]), vec![Response::Queue(talk)]);
    assert_eq!(text, "> Currently playing Episode 12 \n> Queue: \n");
}

#[test]
fn devices_are_listed_with_kind_name_and_id() {
    let devices = vec![
        speaker("Kitchen", Some("abc123")),
        Device {
            id: None,
            name: "Laptop".to_string(),
            kind: "Computer".to_string(),
            is_active: false,
            volume_percent: None,
        },
    ];
    let (calls, text) = drive(&invocation("devices", vec![]), vec![Response::Devices(devices)]);
    assert_eq!(calls, vec![Request::Devices]);
    assert_eq!(text, "> Speaker Kitchen\n> Id: abc123\n> Computer Laptop\n> Id: NA\n");
    let (_, text) = drive(&invocation("devices", vec![]), vec![Response::Devices(vec![])]);
    assert_eq!(text, "Error: device not found");
}

#[test]
fn registry_refuses_a_name_that_is_taken() {
    let mut registry = Registry::new();
    assert_eq!(registry.len(), 0);
    assert_eq!(registry.register(CommandSchema::new("pause", "first"), Handler::Pause), Ok(()));
    assert_eq!(
        registry.register(CommandSchema::new("pause", "second"), Handler::Resume),
        Err(RegistryError::Duplicate("pause".to_string()))
    );
    assert_eq!(registry.len(), 1);
    let entry = registry.lookup("pause").unwrap();
    assert_eq!(entry.handler, Handler::Pause);
    assert_eq!(entry.schema.description, "first");
    assert!(registry.lookup("resume").is_none());
    assert!(registry.lookup("Pause").is_none());
}

#[test]
fn standard_registry_holds_the_twelve_commands_in_order() {
    let registry = Registry::standard();
    let names: Vec<String> = (0..registry.len())
        .map(|i| registry.get(i).unwrap().schema.name.clone())
        .collect();
    assert_eq!(
        names,
        vec![
            "search", "play", "queue", "set", "skip", "list", "pause", "resume", "connect",
            "status", "info", "devices"
        ]
    );
    assert!(registry.get(12).is_none());
    assert_eq!(registry.lookup("set").unwrap().schema.subcommands.len(), 3);
    assert_eq!(registry.lookup("skip").unwrap().schema.options[0].allowed_range, Some((1, 10)));
    assert_eq!(registry.lookup("status").unwrap().handler, Handler::Status);
}

#[test]
fn reconnect_can_be_registered_beside_the_others() {
    let mut registry = Registry::standard();
    assert_eq!(
        registry.register(musicbot::commands::refresh::register(), Handler::Refresh),
        Ok(())
    );
    assert_eq!(registry.len(), 13);
    assert_eq!(
        registry.register(musicbot::commands::refresh::register(), Handler::Refresh),
        Err(RegistryError::Duplicate("reconnect".to_string()))
    );
    let reconnect = invocation("reconnect", vec![]);
    assert_eq!(
        dispatch(&registry, &reconnect, &vec![]),
        Turn::Call(Request::TransferPlayback {
            device_id: "01d8e617c3382c198f44d9418eb65fdef0cc368a".to_string(),
            play: Some(false),
        })
    );
    assert_eq!(
        dispatch(&registry, &reconnect, &vec![Response::Done]),
        Turn::Say("Playback transfered to speaker".to_string())
    );
}
