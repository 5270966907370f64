use vstd::prelude::*;

pub mod differ;
pub mod listener;
pub mod poller;
pub mod ws;

verus! {

/// Playback state of what is currently playing.
///
/// The derived order exists for serialization and sorting only; it carries
/// no meaning for arbitration.
#[derive(Debug, Clone, Copy, PartialEq, Eq, Structural, PartialOrd, Ord, Hash)]
pub enum MediaState {
    Playing,
    Paused,
    Stopped,
}

impl Default for MediaState {
    fn default() -> (r: MediaState)
        ensures
            r == MediaState::Stopped,
    {
        MediaState::Stopped
    }
}

/// Image format, derived from a MIME type. Unknown MIME types are kept
/// verbatim in `Other`.
#[derive(Debug, PartialEq, Eq, PartialOrd, Ord, Hash)]
pub enum ImageFormat {
    PNG,
    JPEG,
    WEBP,
    Other(String),
}

/// Mathematical model of an [`ImageFormat`].
pub enum ImageFormatModel {
    PNG,
    JPEG,
    WEBP,
    Other(Seq<char>),
}

impl View for ImageFormat {
    type V = ImageFormatModel;

    open spec fn view(&self) -> ImageFormatModel {
        match self {
            ImageFormat::PNG => ImageFormatModel::PNG,
            ImageFormat::JPEG => ImageFormatModel::JPEG,
            ImageFormat::WEBP => ImageFormatModel::WEBP,
            ImageFormat::Other(s) => ImageFormatModel::Other(s@),
        }
    }
}

/// The canonical MIME type of a format.
pub open spec fn mime_of_format(f: ImageFormatModel) -> Seq<char> {
    match f {
        ImageFormatModel::PNG => "image/png"@,
        ImageFormatModel::JPEG => "image/jpeg"@,
        ImageFormatModel::WEBP => "image/webp"@,
        ImageFormatModel::Other(m) => m,
    }
}

fn literal(s: &str) -> (r: String)
    ensures
        r@ == s@,
{
    s.to_owned()
}

impl ImageFormat {
    /// The MIME type of this format (`image/png`, `image/jpeg`, `image/webp`,
    /// or the text held by `Other`).
    pub fn to_string(&self) -> (r: String)
        ensures
            r@ == mime_of_format(self@),
    {
        match self {
            ImageFormat::PNG => literal("image/png"),
            ImageFormat::JPEG => literal("image/jpeg"),
            ImageFormat::WEBP => literal("image/webp"),
            ImageFormat::Other(m) => m.clone(),
        }
    }
}

impl Clone for ImageFormat {
    fn clone(&self) -> (r: ImageFormat)
        ensures
            r == *self,
    {
        match self {
            ImageFormat::PNG => ImageFormat::PNG,
            ImageFormat::JPEG => ImageFormat::JPEG,
            ImageFormat::WEBP => ImageFormat::WEBP,
            ImageFormat::Other(m) => ImageFormat::Other(m.clone()),
        }
    }
}

impl From<String> for ImageFormat {
    fn from(value: String) -> (r: ImageFormat) {
        if value == literal("image/png") {
            ImageFormat::PNG
        } else if value == literal("image/jpeg") || value == literal("image/jpg") {
            ImageFormat::JPEG
        } else if value == literal("image/webp") {
            ImageFormat::WEBP
        } else {
            ImageFormat::Other(value)
        }
    }
}

impl vstd::std_specs::convert::FromSpecImpl<String> for ImageFormat {
    open spec fn obeys_from_spec() -> bool {
        true
    }

    open spec fn from_spec(v: String) -> ImageFormat {
        if v@ == "image/png"@ {
            ImageFormat::PNG
        } else if v@ == "image/jpeg"@ || v@ == "image/jpg"@ {
            ImageFormat::JPEG
        } else if v@ == "image/webp"@ {
            ImageFormat::WEBP
        } else {
            ImageFormat::Other(v)
        }
    }
}


/// Image data together with its format.
#[derive(Debug, PartialEq, Eq, PartialOrd, Ord, Hash)]
pub struct MediaImage {
    pub format: ImageFormat,
    pub data: Vec<u8>,
}

/// Mathematical model of a [`MediaImage`].
pub struct MediaImageModel {
    pub format: ImageFormatModel,
    pub data: Seq<u8>,
}

impl View for MediaImage {
    type V = MediaImageModel;

    open spec fn view(&self) -> MediaImageModel {
        MediaImageModel { format: self.format@, data: self.data@ }
    }
}

impl Clone for MediaImage {
    fn clone(&self) -> (r: MediaImage)
        ensures
            r@ == self@,
    {
        let data = self.data.clone();
        assert(data@ =~= self.data@);
        MediaImage { format: self.format.clone(), data }
    }
}


/// Model of an optional image.
pub open spec fn image_model(o: Option<MediaImage>) -> Option<MediaImageModel> {
    match o {
        Some(i) => Some(i@),
        None => None,
    }
}

fn clone_text(o: &Option<String>) -> (r: Option<String>)
    ensures
        r == *o,
{
    match o {
        Some(s) => Some(s.clone()),
        None => None,
    }
}

fn clone_image(o: &Option<MediaImage>) -> (r: Option<MediaImage>)
    ensures
        image_model(r) == image_model(*o),
{
    match o {
        Some(i) => Some(i.clone()),
        None => None,
    }
}

/// Metadata of what is currently playing.
///
/// `duration` and `elapsed` are in milliseconds. `elapsed` may exceed
/// `duration`: sources disagree transiently.
#[derive(Debug, PartialEq, Eq, PartialOrd, Ord)]
pub struct MediaMetadata {
    /// Identifier of the track, if the source has one
    pub uid: Option<String>,
    /// Location of the track, if the source has one
    pub uri: Option<String>,
    /// Playback state
    pub state: MediaState,
    /// Length of the track in milliseconds
    pub duration: u64,
    /// Playback position in milliseconds
    pub elapsed: u64,
    /// Title of the track
    pub title: String,
    /// Album of the track, if known
    pub album: Option<String>,
    /// Artists of the track, in order
    pub artists: Vec<String>,
    /// URL of the cover art, if known
    pub cover_url: Option<String>,
    /// Cover art, if the source provides the image itself
    pub cover: Option<MediaImage>,
    /// URL of the background art (the full-screen artwork some players show)
    pub background_url: Option<String>,
    /// Background art, if the source provides the image itself
    pub background: Option<MediaImage>,
}

/// Mathematical model of a [`MediaMetadata`].
pub struct MetadataModel {
    pub uid: Option<Seq<char>>,
    pub uri: Option<Seq<char>>,
    pub state: MediaState,
    pub duration: u64,
    pub elapsed: u64,
    pub title: Seq<char>,
    pub album: Option<Seq<char>>,
    pub artists: Seq<Seq<char>>,
    pub cover_url: Option<Seq<char>>,
    pub cover: Option<MediaImageModel>,
    pub background_url: Option<Seq<char>>,
    pub background: Option<MediaImageModel>,
}

impl View for MediaMetadata {
    type V = MetadataModel;

    open spec fn view(&self) -> MetadataModel {
        MetadataModel {
            uid: self.uid.deep_view(),
            uri: self.uri.deep_view(),
            state: self.state,
            duration: self.duration,
            elapsed: self.elapsed,
            title: self.title@,
            album: self.album.deep_view(),
            artists: self.artists.deep_view(),
            cover_url: self.cover_url.deep_view(),
            cover: image_model(self.cover),
            background_url: self.background_url.deep_view(),
            background: image_model(self.background),
        }
    }
}

/// `a` if it is set, else `b`.
pub open spec fn first_set<T>(a: Option<T>, b: Option<T>) -> Option<T> {
    if a is Some {
        a
    } else {
        b
    }
}

/// Two optional identifiers name different things: both are set, and they differ.
pub open spec fn conflicting(a: Option<Seq<char>>, b: Option<Seq<char>>) -> bool {
    a is Some && b is Some && a != b
}

impl MetadataModel {
    /// The metadata of no track: empty title and artists, `Stopped`, zero
    /// durations, every optional field unset.
    pub open spec fn empty() -> MetadataModel {
        MetadataModel {
            uid: None,
            uri: None,
            state: MediaState::Stopped,
            duration: 0,
            elapsed: 0,
            title: Seq::empty(),
            album: None,
            artists: Seq::empty(),
            cover_url: None,
            cover: None,
            background_url: None,
            background: None,
        }
    }

    /// Field-wise fallback: each field of `self` that is set (non-empty,
    /// non-zero) is kept, every other field comes from `fallback`; `state`
    /// always comes from `self`.
    pub open spec fn merged_with(self, fallback: MetadataModel) -> MetadataModel {
        MetadataModel {
            uid: first_set(self.uid, fallback.uid),
            uri: first_set(self.uri, fallback.uri),
            state: self.state,
            duration: if self.duration == 0 { fallback.duration } else { self.duration },
            elapsed: if self.elapsed == 0 { fallback.elapsed } else { self.elapsed },
            title: if self.title.len() == 0 { fallback.title } else { self.title },
            album: first_set(self.album, fallback.album),
            artists: if self.artists.len() == 0 { fallback.artists } else { self.artists },
            cover_url: first_set(self.cover_url, fallback.cover_url),
            cover: first_set(self.cover, fallback.cover),
            background_url: first_set(self.background_url, fallback.background_url),
            background: first_set(self.background, fallback.background),
        }
    }

    /// `self` and `other` describe different tracks: their identifiers
    /// conflict where both have one, or both title and artists differ.
    pub open spec fn differs_from(self, other: MetadataModel) -> bool {
        ||| conflicting(self.uid, other.uid)
        ||| conflicting(self.uri, other.uri)
        ||| (self.title != other.title && self.artists != other.artists)
    }
}

fn same_text(a: &Option<String>, b: &Option<String>) -> (r: bool)
    ensures
        r == !conflicting(a.deep_view(), b.deep_view()),
{
    match a {
        Some(x) => match b {
            Some(y) => {
                let r = *x == *y;
                assert(a.deep_view() == Some(x@) && b.deep_view() == Some(y@));
                r
            },
            None => true,
        },
        None => true,
    }
}

fn same_strings(a: &Vec<String>, b: &Vec<String>) -> (r: bool)
    ensures
        r == (a.deep_view() == b.deep_view()),
{
    if a.len() != b.len() {
        assert(a.deep_view().len() != b.deep_view().len());
        return false;
    }
    let mut i: usize = 0;
    while i < a.len()
        invariant
            a.len() == b.len(),
            i <= a.len(),
            forall|j: int| 0 <= j < i ==> a@[j]@ == b@[j]@,
        decreases a.len() - i,
    {
        if !(a[i] == b[i]) {
            assert(a.deep_view()[i as int] != b.deep_view()[i as int]);
            return false;
        }
        i += 1;
    }
    assert(a.deep_view() =~= b.deep_view());
    true
}

impl Default for MediaMetadata {
    fn default() -> (r: MediaMetadata)
        ensures
            r@ == MetadataModel::empty(),
    {
        let r = MediaMetadata {
            uid: None,
            uri: None,
            state: MediaState::Stopped,
            duration: 0,
            elapsed: 0,
            title: String::new(),
            album: None,
            artists: Vec::new(),
            cover_url: None,
            cover: None,
            background_url: None,
            background: None,
        };
        assert(r.artists.deep_view() =~= Seq::<Seq<char>>::empty());
        r
    }
}

impl Clone for MediaMetadata {
    fn clone(&self) -> (r: MediaMetadata)
        ensures
            r@ == self@,
    {
        let artists = self.artists.clone();
        assert(artists.deep_view() =~= self.artists.deep_view());
        MediaMetadata {
            uid: clone_text(&self.uid),
            uri: clone_text(&self.uri),
            state: self.state,
            duration: self.duration,
            elapsed: self.elapsed,
            title: self.title.clone(),
            album: clone_text(&self.album),
            artists,
            cover_url: clone_text(&self.cover_url),
            cover: clone_image(&self.cover),
            background_url: clone_text(&self.background_url),
            background: clone_image(&self.background),
        }
    }
}

impl MediaMetadata {
    /// Fills every unset field of `self` (empty, zero or `None`) from
    /// `fallback`. `state` is never taken from `fallback`.
    pub fn merge(self, fallback: MediaMetadata) -> (r: MediaMetadata)
        ensures
            r@ == self@.merged_with(fallback@),
    {
        let r = MediaMetadata {
            uid: if self.uid.is_some() { self.uid } else { fallback.uid },
            uri: if self.uri.is_some() { self.uri } else { fallback.uri },
            state: self.state,
            duration: if self.duration == 0 { fallback.duration } else { self.duration },
            elapsed: if self.elapsed == 0 { fallback.elapsed } else { self.elapsed },
            title: if self.title.as_str().is_empty() { fallback.title } else { self.title },
            album: if self.album.is_some() { self.album } else { fallback.album },
            artists: if self.artists.is_empty() { fallback.artists } else { self.artists },
            cover_url: if self.cover_url.is_some() { self.cover_url } else { fallback.cover_url },
            cover: if self.cover.is_some() { self.cover } else { fallback.cover },
            background_url: if self.background_url.is_some() {
                self.background_url
            } else {
                fallback.background_url
            },
            background: if self.background.is_some() { self.background } else { fallback.background },
        };
        r
    }

    /// Whether `self` and `other` describe different tracks.
    ///
    /// An identifier (`uid`, `uri`) decides where both sides have one;
    /// otherwise the tracks differ only when title and artists both differ.
    pub fn is_different(&self, other: &MediaMetadata) -> (r: bool)
        ensures
            r == self@.differs_from(other@),
    {
        let uid = !same_text(&self.uid, &other.uid);
        let uri = !same_text(&self.uri, &other.uri);
        let title = !(self.title == other.title);
        let artists = !same_strings(&self.artists, &other.artists);
        uid || uri || (title && artists)
    }
}


/// A discrete change of what is playing. At most one follows each refresh
/// of a source.
#[derive(Debug, PartialEq, Eq, PartialOrd)]
pub enum MediaEvent {
    /// Another track is playing (for example after skipping to the next song)
    MediaChanged(MediaMetadata),
    /// The playback state changed (for example on pause)
    StateChanged(MediaState),
    /// The playback position, in milliseconds from the start of the track
    ProgressChanged(u64),
}

/// Mathematical model of a [`MediaEvent`].
pub enum EventModel {
    MediaChanged(MetadataModel),
    StateChanged(MediaState),
    ProgressChanged(u64),
}

impl View for MediaEvent {
    type V = EventModel;

    open spec fn view(&self) -> EventModel {
        match self {
            MediaEvent::MediaChanged(m) => EventModel::MediaChanged(m@),
            MediaEvent::StateChanged(s) => EventModel::StateChanged(*s),
            MediaEvent::ProgressChanged(p) => EventModel::ProgressChanged(*p),
        }
    }
}

/// Model of an optional event.
pub open spec fn event_model(o: Option<MediaEvent>) -> Option<EventModel> {
    match o {
        Some(e) => Some(e@),
        None => None,
    }
}

impl Clone for MediaEvent {
    fn clone(&self) -> (r: MediaEvent)
        ensures
            r@ == self@,
    {
        match self {
            MediaEvent::MediaChanged(m) => MediaEvent::MediaChanged(m.clone()),
            MediaEvent::StateChanged(s) => MediaEvent::StateChanged(*s),
            MediaEvent::ProgressChanged(p) => MediaEvent::ProgressChanged(*p),
        }
    }
}

/// Errors of the sources and of the listener that combines them.
#[derive(Debug, PartialEq, Eq)]
pub enum Error {
    /// The platform's media-session API failed, with its message
    Platform(String),
    /// No media found or is currently opened
    NotExist,
    /// The source is disabled by configuration
    NotEnabled,
    /// The source has shut down for good
    Closed,
    /// No event arrived within the requested time
    Timeout,
    /// An I/O failure, with its message
    Io(String),
    /// The push connection failed, with its message
    Transport(String),
    /// An inbound frame that does not hold a valid event, with the reason
    Protocol(String),
    /// An inbound frame that is not text
    UnsupportedMessage,
    /// Any other failure, with its message
    Other(String),
    /// Every configured source failed to start: the system source's error,
    /// then the push source's
    FailedToCreateListener(Box<Error>, Box<Error>),
}


/// Two values whose identifiers are equal and whose title and artists are
/// identical describe the same track.
pub proof fn lemma_matching_identity_same_track(a: MetadataModel, b: MetadataModel)
    requires
        a.uid == b.uid,
        a.uri == b.uri,
        a.title == b.title,
        a.artists == b.artists,
    ensures
        !a.differs_from(b),
{
}

/// Two values that both carry a `uid`, and whose `uid`s differ, describe
/// different tracks, whatever their titles and artists.
pub proof fn lemma_distinct_uid_different_track(a: MetadataModel, b: MetadataModel)
    requires
        a.uid is Some,
        b.uid is Some,
        a.uid != b.uid,
    ensures
        a.differs_from(b),
        b.differs_from(a),
{
}

/// Merging never replaces a field of the primary value that is set: each
/// non-empty, non-zero or present field of `primary`, and its `state`, stand
/// unchanged in the result.
pub proof fn lemma_merge_keeps_primary(primary: MetadataModel, fallback: MetadataModel)
    ensures
        ({
            let m = primary.merged_with(fallback);
            &&& m.state == primary.state
            &&& primary.uid is Some ==> m.uid == primary.uid
            &&& primary.uri is Some ==> m.uri == primary.uri
            &&& primary.duration != 0 ==> m.duration == primary.duration
            &&& primary.elapsed != 0 ==> m.elapsed == primary.elapsed
            &&& primary.title.len() != 0 ==> m.title == primary.title
            &&& primary.album is Some ==> m.album == primary.album
            &&& primary.artists.len() != 0 ==> m.artists == primary.artists
            &&& primary.cover_url is Some ==> m.cover_url == primary.cover_url
            &&& primary.cover is Some ==> m.cover == primary.cover
            &&& primary.background_url is Some ==> m.background_url == primary.background_url
            &&& primary.background is Some ==> m.background == primary.background
        }),
{
}

} // verus!
