//! The remote music service as the handlers see it: the requests they may
//! ask for, the answers that come back, and plain records of what those
//! answers hold. Nothing here talks to the service; a handler names the call
//! it wants made and is handed the answer.

use crate::error::{outcome, CommandError, ErrorView};
use crate::options::not_allowed_error;
use crate::text::same_text;
use vstd::prelude::*;

verus! {

/// The category a search is made in.
#[derive(Debug, Clone, Copy, PartialEq, Eq, Structural)]
pub enum SearchType {
    Track,
    Album,
    Playlist,
    Artist,
}

/// The category that `text` names, if it names one.
pub open spec fn parsed_search_type(text: Seq<char>) -> Option<SearchType> {
    if text == "track"@ {
        Some(SearchType::Track)
    } else if text == "album"@ {
        Some(SearchType::Album)
    } else if text == "playlist"@ {
        Some(SearchType::Playlist)
    } else if text == "artist"@ {
        Some(SearchType::Artist)
    } else {
        None
    }
}

impl SearchType {
    /// The word a category goes by.
    pub open spec fn label(self) -> Seq<char> {
        match self {
            SearchType::Track => "track"@,
            SearchType::Album => "album"@,
            SearchType::Playlist => "playlist"@,
            SearchType::Artist => "artist"@,
        }
    }

    /// Reads a category from its word: `track`, `album`, `playlist` or
    /// `artist`. Any other text lies outside the allowed set and is refused
    /// with the `InvalidArgument` for that.
    pub fn parse(text: &str) -> (r: Result<SearchType, CommandError>)
        ensures
            r matches Ok(t) ==> parsed_search_type(text@) == Some(t),
            r matches Err(e) ==> parsed_search_type(text@) is None && e@ == not_allowed_error(),
    {
        if same_text(text, "track") {
            Ok(SearchType::Track)
        } else if same_text(text, "album") {
            Ok(SearchType::Album)
        } else if same_text(text, "playlist") {
            Ok(SearchType::Playlist)
        } else if same_text(text, "artist") {
            Ok(SearchType::Artist)
        } else {
            Err(CommandError::invalid("value not in allowed set"))
        }
    }
}

/// Reading a category's own word gives the category back.
pub proof fn label_parses_back(t: SearchType)
    ensures
        parsed_search_type(t.label()) == Some(t),
{
    reveal_strlit("track");
    reveal_strlit("album");
    reveal_strlit("playlist");
    reveal_strlit("artist");
    assert("album"@[0] != "track"@[0]);
    assert("playlist"@[0] != "track"@[0]);
    assert("artist"@[0] != "track"@[0]);
    assert("playlist"@[0] != "album"@[0]);
    assert("artist"@[1] != "album"@[1]);
    assert("artist"@[0] != "playlist"@[0]);
}

/// What playback can run in, as far as the handlers tell kinds apart.
#[derive(Debug, Clone, Copy, PartialEq, Eq, Structural)]
pub enum ContextKind {
    Artist,
    Album,
    Playlist,
}

impl ContextKind {
    /// The word a kind is shown as.
    pub open spec fn label(self) -> Seq<char> {
        match self {
            ContextKind::Artist => "Artist"@,
            ContextKind::Album => "Album"@,
            ContextKind::Playlist => "Playlist"@,
        }
    }

}

/// How playback repeats.
#[derive(Debug, Clone, Copy, PartialEq, Eq, Structural)]
pub enum RepeatState {
    Off,
    Track,
    Context,
}

/// The identifier of something that can be queued.
#[derive(Debug, PartialEq, Eq)]
pub enum PlayableId {
    Track(String),
    Episode(String),
}

/// The mathematical content of a [`PlayableId`].
pub enum PlayableIdView {
    Track(Seq<char>),
    Episode(Seq<char>),
}

impl View for PlayableId {
    type V = PlayableIdView;

    open spec fn view(&self) -> PlayableIdView {
        match *self {
            PlayableId::Track(id) => PlayableIdView::Track(id@),
            PlayableId::Episode(id) => PlayableIdView::Episode(id@),
        }
    }
}

impl DeepView for PlayableId {
    type V = PlayableIdView;

    open spec fn deep_view(&self) -> PlayableIdView {
        self@
    }
}

impl PlayableId {
    /// A copy with the same content.
    pub fn duplicate(&self) -> (id: PlayableId)
        ensures
            id@ == self@,
    {
        match self {
            PlayableId::Track(id) => PlayableId::Track(id.clone()),
            PlayableId::Episode(id) => PlayableId::Episode(id.clone()),
        }
    }
}

/// A device that can play.
#[derive(Debug, PartialEq, Eq)]
pub struct Device {
    pub id: Option<String>,
    pub name: String,
    /// The kind of device, as the word it is shown as.
    pub kind: String,
    pub is_active: bool,
    pub volume_percent: Option<u32>,
}

/// The mathematical content of a [`Device`].
pub struct DeviceView {
    pub id: Option<Seq<char>>,
    pub name: Seq<char>,
    pub kind: Seq<char>,
    pub is_active: bool,
    pub volume_percent: Option<u32>,
}

impl View for Device {
    type V = DeviceView;

    open spec fn view(&self) -> DeviceView {
        DeviceView {
            id: self.id.deep_view(),
            name: self.name@,
            kind: self.kind@,
            is_active: self.is_active,
            volume_percent: self.volume_percent,
        }
    }
}

impl DeepView for Device {
    type V = DeviceView;

    open spec fn deep_view(&self) -> DeviceView {
        self@
    }
}

/// A track found by a search.
#[derive(Debug, PartialEq, Eq)]
pub struct Track {
    pub id: Option<String>,
    pub name: String,
    /// The names of the track's artists, the first one first.
    pub artists: Vec<String>,
}

/// The mathematical content of a [`Track`] or an [`Album`]: a work with its
/// identifier, its name and the names of its artists.
pub struct WorkView {
    pub id: Option<Seq<char>>,
    pub name: Seq<char>,
    pub artists: Seq<Seq<char>>,
}

impl View for Track {
    type V = WorkView;

    open spec fn view(&self) -> WorkView {
        WorkView { id: self.id.deep_view(), name: self.name@, artists: self.artists.deep_view() }
    }
}

impl DeepView for Track {
    type V = WorkView;

    open spec fn deep_view(&self) -> WorkView {
        self@
    }
}

/// An album found by a search.
#[derive(Debug, PartialEq, Eq)]
pub struct Album {
    pub id: Option<String>,
    pub name: String,
    /// The names of the album's artists, the first one first.
    pub artists: Vec<String>,
}

impl View for Album {
    type V = WorkView;

    open spec fn view(&self) -> WorkView {
        WorkView { id: self.id.deep_view(), name: self.name@, artists: self.artists.deep_view() }
    }
}

impl DeepView for Album {
    type V = WorkView;

    open spec fn deep_view(&self) -> WorkView {
        self@
    }
}

/// A playlist found by a search.
#[derive(Debug, PartialEq, Eq)]
pub struct Playlist {
    pub id: String,
    pub name: String,
}

/// The mathematical content of a [`Playlist`] or an [`Artist`]: a thing
/// with its identifier and its name.
pub struct NamedView {
    pub id: Seq<char>,
    pub name: Seq<char>,
}

impl View for Playlist {
    type V = NamedView;

    open spec fn view(&self) -> NamedView {
        NamedView { id: self.id@, name: self.name@ }
    }
}

impl DeepView for Playlist {
    type V = NamedView;

    open spec fn deep_view(&self) -> NamedView {
        self@
    }
}

/// An artist, found by a search or looked up.
#[derive(Debug, PartialEq, Eq)]
pub struct Artist {
    pub id: String,
    pub name: String,
}

impl View for Artist {
    type V = NamedView;

    open spec fn view(&self) -> NamedView {
        NamedView { id: self.id@, name: self.name@ }
    }
}

impl DeepView for Artist {
    type V = NamedView;

    open spec fn deep_view(&self) -> NamedView {
        self@
    }
}

/// What a search found, by category.
#[derive(Debug, PartialEq, Eq)]
pub enum SearchResult {
    Tracks(Vec<Track>),
    Albums(Vec<Album>),
    Playlists(Vec<Playlist>),
    Artists(Vec<Artist>),
    /// Results of a category the handlers do not deal with.
    Other,
}

/// The mathematical content of a [`SearchResult`].
pub enum SearchResultView {
    Tracks(Seq<WorkView>),
    Albums(Seq<WorkView>),
    Playlists(Seq<NamedView>),
    Artists(Seq<NamedView>),
    Other,
}

impl View for SearchResult {
    type V = SearchResultView;

    open spec fn view(&self) -> SearchResultView {
        match *self {
            SearchResult::Tracks(tracks) => SearchResultView::Tracks(tracks.deep_view()),
            SearchResult::Albums(albums) => SearchResultView::Albums(albums.deep_view()),
            SearchResult::Playlists(playlists) => SearchResultView::Playlists(
                playlists.deep_view(),
            ),
            SearchResult::Artists(artists) => SearchResultView::Artists(artists.deep_view()),
            SearchResult::Other => SearchResultView::Other,
        }
    }
}

impl DeepView for SearchResult {
    type V = SearchResultView;

    open spec fn deep_view(&self) -> SearchResultView {
        self@
    }
}

/// An album looked up in full: its name and the identifiers of its tracks,
/// absent where a track has none.
#[derive(Debug, PartialEq, Eq)]
pub struct AlbumDetails {
    pub name: String,
    pub tracks: Vec<Option<String>>,
}

/// The mathematical content of an [`AlbumDetails`].
pub struct AlbumDetailsView {
    pub name: Seq<char>,
    pub tracks: Seq<Option<Seq<char>>>,
}

impl View for AlbumDetails {
    type V = AlbumDetailsView;

    open spec fn view(&self) -> AlbumDetailsView {
        AlbumDetailsView { name: self.name@, tracks: self.tracks.deep_view() }
    }
}

impl DeepView for AlbumDetails {
    type V = AlbumDetailsView;

    open spec fn deep_view(&self) -> AlbumDetailsView {
        self@
    }
}

/// One entry of a playlist.
#[derive(Debug, PartialEq, Eq)]
pub enum PlaylistItem {
    /// The entry holds nothing that can be played.
    Unavailable,
    /// The entry can be played but has no identifier.
    Unidentified,
    /// The entry can be played and this is its identifier.
    Playable(PlayableId),
}

/// The mathematical content of a [`PlaylistItem`].
pub enum PlaylistItemView {
    Unavailable,
    Unidentified,
    Playable(PlayableIdView),
}

impl View for PlaylistItem {
    type V = PlaylistItemView;

    open spec fn view(&self) -> PlaylistItemView {
        match *self {
            PlaylistItem::Unavailable => PlaylistItemView::Unavailable,
            PlaylistItem::Unidentified => PlaylistItemView::Unidentified,
            PlaylistItem::Playable(id) => PlaylistItemView::Playable(id@),
        }
    }
}

impl DeepView for PlaylistItem {
    type V = PlaylistItemView;

    open spec fn deep_view(&self) -> PlaylistItemView {
        self@
    }
}

/// A playlist looked up in full.
#[derive(Debug, PartialEq, Eq)]
pub struct PlaylistDetails {
    pub name: String,
    pub items: Vec<PlaylistItem>,
}

/// The mathematical content of a [`PlaylistDetails`].
pub struct PlaylistDetailsView {
    pub name: Seq<char>,
    pub items: Seq<PlaylistItemView>,
}

impl View for PlaylistDetails {
    type V = PlaylistDetailsView;

    open spec fn view(&self) -> PlaylistDetailsView {
        PlaylistDetailsView { name: self.name@, items: self.items.deep_view() }
    }
}

impl DeepView for PlaylistDetails {
    type V = PlaylistDetailsView;

    open spec fn deep_view(&self) -> PlaylistDetailsView {
        self@
    }
}

/// Something that is playing or waits in the queue.
#[derive(Debug, PartialEq, Eq)]
pub enum PlayableItem {
    Track { name: String, artists: Vec<String>, duration_secs: u64 },
    Episode { name: String, duration_secs: u64 },
}

/// The mathematical content of a [`PlayableItem`].
pub enum PlayableItemView {
    Track { name: Seq<char>, artists: Seq<Seq<char>>, duration_secs: u64 },
    Episode { name: Seq<char>, duration_secs: u64 },
}

impl View for PlayableItem {
    type V = PlayableItemView;

    open spec fn view(&self) -> PlayableItemView {
        match *self {
            PlayableItem::Track { name, artists, duration_secs } => PlayableItemView::Track {
                name: name@,
                artists: artists.deep_view(),
                duration_secs,
            },
            PlayableItem::Episode { name, duration_secs } => PlayableItemView::Episode {
                name: name@,
                duration_secs,
            },
        }
    }
}

impl DeepView for PlayableItem {
    type V = PlayableItemView;

    open spec fn deep_view(&self) -> PlayableItemView {
        self@
    }
}

/// What playback currently runs in.
#[derive(Debug, PartialEq, Eq)]
pub struct Context {
    /// The kind, where it is one the handlers tell apart.
    pub kind: Option<ContextKind>,
    pub uri: String,
}

/// The mathematical content of a [`Context`].
pub struct ContextView {
    pub kind: Option<ContextKind>,
    pub uri: Seq<char>,
}

impl View for Context {
    type V = ContextView;

    open spec fn view(&self) -> ContextView {
        ContextView { kind: self.kind, uri: self.uri@ }
    }
}

impl DeepView for Context {
    type V = ContextView;

    open spec fn deep_view(&self) -> ContextView {
        self@
    }
}

/// The state of playback.
#[derive(Debug, PartialEq, Eq)]
pub struct Playback {
    pub device: Device,
    pub repeat: RepeatState,
    pub shuffle: bool,
    pub context: Option<Context>,
    pub progress_secs: Option<u64>,
    pub is_playing: bool,
    pub item: Option<PlayableItem>,
}

/// The mathematical content of a [`Playback`].
pub struct PlaybackView {
    pub device: DeviceView,
    pub repeat: RepeatState,
    pub shuffle: bool,
    pub context: Option<ContextView>,
    pub progress_secs: Option<u64>,
    pub is_playing: bool,
    pub item: Option<PlayableItemView>,
}

impl View for Playback {
    type V = PlaybackView;

    open spec fn view(&self) -> PlaybackView {
        PlaybackView {
            device: self.device@,
            repeat: self.repeat,
            shuffle: self.shuffle,
            context: self.context.deep_view(),
            progress_secs: self.progress_secs,
            is_playing: self.is_playing,
            item: self.item.deep_view(),
        }
    }
}

impl DeepView for Playback {
    type V = PlaybackView;

    open spec fn deep_view(&self) -> PlaybackView {
        self@
    }
}

/// What is playing and what waits behind it.
#[derive(Debug, PartialEq, Eq)]
pub struct Queue {
    pub currently_playing: Option<PlayableItem>,
    pub queue: Vec<PlayableItem>,
}

/// The mathematical content of a [`Queue`].
pub struct QueueView {
    pub currently_playing: Option<PlayableItemView>,
    pub queue: Seq<PlayableItemView>,
}

impl View for Queue {
    type V = QueueView;

    open spec fn view(&self) -> QueueView {
        QueueView {
            currently_playing: self.currently_playing.deep_view(),
            queue: self.queue.deep_view(),
        }
    }
}

impl DeepView for Queue {
    type V = QueueView;

    open spec fn deep_view(&self) -> QueueView {
        self@
    }
}

/// A call a handler asks to have made on the remote service.
#[derive(Debug, PartialEq, Eq)]
pub enum Request {
    Search { term: String, category: SearchType, limit: u32 },
    Devices,
    TransferPlayback { device_id: String, play: Option<bool> },
    StartTrack { id: String },
    StartContext { kind: ContextKind, id: String },
    AddToQueue { item: PlayableId },
    Album { id: String },
    Playlist { id: String },
    Artist { id: String },
    CurrentPlayback,
    CurrentQueue,
    Pause,
    Resume,
    NextTrack,
    Repeat { state: RepeatState },
    Shuffle { on: bool },
    Volume { percent: u8 },
}

/// The mathematical content of a [`Request`].
pub enum RequestView {
    Search { term: Seq<char>, category: SearchType, limit: u32 },
    Devices,
    TransferPlayback { device_id: Seq<char>, play: Option<bool> },
    StartTrack { id: Seq<char> },
    StartContext { kind: ContextKind, id: Seq<char> },
    AddToQueue { item: PlayableIdView },
    Album { id: Seq<char> },
    Playlist { id: Seq<char> },
    Artist { id: Seq<char> },
    CurrentPlayback,
    CurrentQueue,
    Pause,
    Resume,
    NextTrack,
    Repeat { state: RepeatState },
    Shuffle { on: bool },
    Volume { percent: u8 },
}

impl View for Request {
    type V = RequestView;

    open spec fn view(&self) -> RequestView {
        match *self {
            Request::Search { term, category, limit } => RequestView::Search {
                term: term@,
                category,
                limit,
            },
            Request::Devices => RequestView::Devices,
            Request::TransferPlayback { device_id, play } => RequestView::TransferPlayback {
                device_id: device_id@,
                play,
            },
            Request::StartTrack { id } => RequestView::StartTrack { id: id@ },
            Request::StartContext { kind, id } => RequestView::StartContext { kind, id: id@ },
            Request::AddToQueue { item } => RequestView::AddToQueue { item: item@ },
            Request::Album { id } => RequestView::Album { id: id@ },
            Request::Playlist { id } => RequestView::Playlist { id: id@ },
            Request::Artist { id } => RequestView::Artist { id: id@ },
            Request::CurrentPlayback => RequestView::CurrentPlayback,
            Request::CurrentQueue => RequestView::CurrentQueue,
            Request::Pause => RequestView::Pause,
            Request::Resume => RequestView::Resume,
            Request::NextTrack => RequestView::NextTrack,
            Request::Repeat { state } => RequestView::Repeat { state },
            Request::Shuffle { on } => RequestView::Shuffle { on },
            Request::Volume { percent } => RequestView::Volume { percent },
        }
    }
}

/// What came back from one call on the remote service.
#[derive(Debug, PartialEq, Eq)]
pub enum Response {
    /// The call succeeded and has nothing to report.
    Done,
    /// The call failed; the payload is the remote client's own message.
    Failed(String),
    Devices(Vec<Device>),
    Found(SearchResult),
    Album(AlbumDetails),
    Playlist(PlaylistDetails),
    Artist(Artist),
    /// The state of playback, absent where nothing plays.
    Playback(Option<Playback>),
    Queue(Queue),
}

/// The mathematical content of a [`Response`].
pub enum ResponseView {
    Done,
    Failed(Seq<char>),
    Devices(Seq<DeviceView>),
    Found(SearchResultView),
    Album(AlbumDetailsView),
    Playlist(PlaylistDetailsView),
    Artist(NamedView),
    Playback(Option<PlaybackView>),
    Queue(QueueView),
}

impl View for Response {
    type V = ResponseView;

    open spec fn view(&self) -> ResponseView {
        match *self {
            Response::Done => ResponseView::Done,
            Response::Failed(message) => ResponseView::Failed(message@),
            Response::Devices(devices) => ResponseView::Devices(devices.deep_view()),
            Response::Found(result) => ResponseView::Found(result@),
            Response::Album(details) => ResponseView::Album(details@),
            Response::Playlist(details) => ResponseView::Playlist(details@),
            Response::Artist(artist) => ResponseView::Artist(artist@),
            Response::Playback(playback) => ResponseView::Playback(playback.deep_view()),
            Response::Queue(queue) => ResponseView::Queue(queue@),
        }
    }
}

impl DeepView for Response {
    type V = ResponseView;

    open spec fn deep_view(&self) -> ResponseView {
        self@
    }
}

/// What a handler wants next: a call made on the remote service, or the
/// invocation ended with a reply or with an error.
#[derive(Debug, PartialEq, Eq)]
pub enum Step {
    Call(Request),
    Reply(String),
    Fail(CommandError),
}

/// The mathematical content of a [`Step`].
pub enum StepView {
    Call(RequestView),
    Reply(Seq<char>),
    Fail(ErrorView),
}

impl View for Step {
    type V = StepView;

    open spec fn view(&self) -> StepView {
        match *self {
            Step::Call(request) => StepView::Call(request@),
            Step::Reply(text) => StepView::Reply(text@),
            Step::Fail(error) => StepView::Fail(error@),
        }
    }
}

/// The name of the first artist, or the error where there is no artist.
pub open spec fn lead_artist(artists: Seq<Seq<char>>) -> Result<Seq<char>, ErrorView> {
    if artists.len() == 0 {
        Err(ErrorView::NotFound("artist"@))
    } else {
        Ok(artists[0])
    }
}

/// The name of the first artist. A list without artists is a `NotFound`.
pub fn first_artist(artists: &Vec<String>) -> (r: Result<&str, CommandError>)
    ensures
        outcome(r) == lead_artist(artists.deep_view()),
{
    if artists.len() == 0 {
        Err(CommandError::not_found("artist"))
    } else {
        Ok(artists[0].as_str())
    }
}

/// The error for an answer of another shape than the call asks for.
pub open spec fn unexpected_response() -> ErrorView {
    ErrorView::RemoteFailure("unexpected response"@)
}

/// The error an answer stands for where a handler expected another one: the
/// remote failure it reports, or that its shape is not the expected one.
pub open spec fn setback(answer: ResponseView) -> ErrorView {
    match answer {
        ResponseView::Failed(message) => ErrorView::RemoteFailure(message),
        _ => unexpected_response(),
    }
}

/// The error `answer` stands for where a handler expected another answer.
pub fn setback_of(answer: &Response) -> (e: CommandError)
    ensures
        e@ == setback(answer@),
{
    match answer {
        Response::Failed(message) => CommandError::remote(message.as_str()),
        _ => CommandError::remote("unexpected response"),
    }
}

/// What follows the answer to a call that reports nothing: the reply
/// `message` where the call succeeded, the error otherwise.
pub open spec fn acknowledged(answer: ResponseView, message: Seq<char>) -> StepView {
    match answer {
        ResponseView::Done => StepView::Reply(message),
        _ => StepView::Fail(setback(answer)),
    }
}

/// What follows the answer to a call that reports nothing.
pub fn acknowledge(answer: &Response, message: &str) -> (step: Step)
    ensures
        step@ == acknowledged(answer@, message@),
{
    match answer {
        Response::Done => Step::Reply(String::from_str(message)),
        _ => Step::Fail(setback_of(answer)),
    }
}

/// A command that is one call and one reply: the call where it has not been
/// made yet, then what follows its answer.
pub open spec fn one_call(request: RequestView, replies: Seq<ResponseView>, message: Seq<char>)
    -> StepView {
    if replies.len() == 0 {
        StepView::Call(request)
    } else {
        acknowledged(replies[0], message)
    }
}

/// The next step of a command that is one call and one reply.
pub fn call_once(request: Request, replies: &Vec<Response>, message: &str) -> (step: Step)
    ensures
        step@ == one_call(request@, replies.deep_view(), message@),
{
    if replies.len() == 0 {
        Step::Call(request)
    } else {
        acknowledge(&replies[0], message)
    }
}

} // verus!
