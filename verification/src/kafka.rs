//! The events that the service publishes about uploads: one on the generic
//! `media` topic and one on the backend `media.upload` topic for each step,
//! both keyed by the object id.

use vstd::prelude::*;

verus! {

/// What an upload is for.
#[derive(Debug, Clone, Copy, PartialEq, Eq, Structural)]
pub enum MediaObjectType {
    PodcastFile,
    Avatar,
    PodcastCover,
    Playlists,
}

impl MediaObjectType {
    /// The type's name on the `media` topic.
    pub open spec fn name(self) -> Seq<char> {
        match self {
            MediaObjectType::PodcastFile => "podcast_file"@,
            MediaObjectType::Avatar => "avatar"@,
            MediaObjectType::PodcastCover => "podcast_cover"@,
            MediaObjectType::Playlists => "playlists"@,
        }
    }

    /// The type's name on the `media.upload` topic.
    pub open spec fn backend_name(self) -> Seq<char> {
        match self {
            MediaObjectType::PodcastFile => "podcast_file_url"@,
            MediaObjectType::Avatar => "avatar"@,
            MediaObjectType::PodcastCover => "podcast_cover_url"@,
            MediaObjectType::Playlists => "playlist"@,
        }
    }

    /// The type's name on the `media` topic (and in object keys).
    pub fn as_str(self) -> (r: &'static str)
        ensures
            r@ == self.name(),
    {
        match self {
            MediaObjectType::PodcastFile => "podcast_file",
            MediaObjectType::Avatar => "avatar",
            MediaObjectType::PodcastCover => "podcast_cover",
            MediaObjectType::Playlists => "playlists",
        }
    }

    /// The type's name on the `media.upload` topic.
    pub fn backend_as_str(self) -> (r: &'static str)
        ensures
            r@ == self.backend_name(),
    {
        match self {
            MediaObjectType::PodcastFile => "podcast_file_url",
            MediaObjectType::Avatar => "avatar",
            MediaObjectType::PodcastCover => "podcast_cover_url",
            MediaObjectType::Playlists => "playlist",
        }
    }
}

/// Distinct types carry distinct names on each topic, so a consumer can tell
/// them apart.
pub proof fn lemma_type_names_distinct(a: MediaObjectType, b: MediaObjectType)
    requires
        a != b,
    ensures
        a.name() != b.name(),
        a.backend_name() != b.backend_name(),
{
    reveal_strlit("podcast_file");
    reveal_strlit("avatar");
    reveal_strlit("podcast_cover");
    reveal_strlit("playlists");
    reveal_strlit("podcast_file_url");
    reveal_strlit("podcast_cover_url");
    reveal_strlit("playlist");
    if a.name().len() == b.name().len() {
        assert(a.name()[0] != b.name()[0] || a.name()[8] != b.name()[8]);
    }
    if a.backend_name().len() == b.backend_name().len() {
        assert(a.backend_name()[0] != b.backend_name()[0]);
    }
}

/// An instant, as seconds and nanoseconds since the Unix epoch (UTC).
#[derive(Debug, Clone, Copy, PartialEq, Eq, Structural)]
pub struct Timestamp {
    pub secs: i64,
    pub nanos: u32,
}

/// An event of the generic `media` topic.
pub enum MediaEvent {
    StartUpload { media_type: MediaObjectType, object_id: String, started_at: Timestamp },
    Uploaded {
        media_type: MediaObjectType,
        object_id: String,
        url: String,
        size: usize,
        content_type: String,
        need_subtitle: bool,
        uploaded_at: Timestamp,
    },
    Error {
        media_type: MediaObjectType,
        object_id: String,
        error_message: String,
        timestamp: Timestamp,
    },
}

impl MediaEvent {
    /// The object the event is about.
    pub open spec fn object_id_view(&self) -> Seq<char> {
        match self {
            MediaEvent::StartUpload { object_id, .. } => object_id@,
            MediaEvent::Uploaded { object_id, .. } => object_id@,
            MediaEvent::Error { object_id, .. } => object_id@,
        }
    }

    /// The type of the object the event is about.
    pub open spec fn media_type_view(&self) -> MediaObjectType {
        match self {
            MediaEvent::StartUpload { media_type, .. } => *media_type,
            MediaEvent::Uploaded { media_type, .. } => *media_type,
            MediaEvent::Error { media_type, .. } => *media_type,
        }
    }

    /// When the event happened.
    pub open spec fn timestamp_view(&self) -> Timestamp {
        match self {
            MediaEvent::StartUpload { started_at, .. } => *started_at,
            MediaEvent::Uploaded { uploaded_at, .. } => *uploaded_at,
            MediaEvent::Error { timestamp, .. } => *timestamp,
        }
    }

    /// The value of the event's `event` field.
    pub open spec fn event_name(&self) -> Seq<char> {
        match self {
            MediaEvent::StartUpload { .. } => "start_upload"@,
            MediaEvent::Uploaded { .. } => "uploaded"@,
            MediaEvent::Error { .. } => "error"@,
        }
    }
}

/// An event of the backend `media.upload` topic.
pub struct BackendMediaUploadEvent {
    pub object_type: &'static str,
    pub object_id: String,
    pub event: &'static str,
    pub audio_url_file: Option<String>,
    pub image_url: Option<String>,
    pub error: Option<String>,
    pub timestamp: Timestamp,
}

impl BackendMediaUploadEvent {
    /// The backend event that an upload has started.
    pub fn start_upload(media_type: MediaObjectType, object_id: &str, timestamp: Timestamp) -> (r:
        BackendMediaUploadEvent)
        ensures
            r.object_type@ == media_type.backend_name(),
            r.object_id@ == object_id@,
            r.event@ == "start_upload"@,
            r.audio_url_file is None,
            r.image_url is None,
            r.error is None,
            r.timestamp == timestamp,
    {
        BackendMediaUploadEvent {
            object_type: media_type.backend_as_str(),
            object_id: String::from_str(object_id),
            event: "start_upload",
            audio_url_file: None,
            image_url: None,
            error: None,
            timestamp,
        }
    }

    /// The backend event that an upload is stored at `url`: an audio file's
    /// address goes in `audio_url_file`, an image's in `image_url`.
    pub fn uploaded(
        media_type: MediaObjectType,
        object_id: &str,
        url: &str,
        timestamp: Timestamp,
    ) -> (r: BackendMediaUploadEvent)
        ensures
            r.object_type@ == media_type.backend_name(),
            r.object_id@ == object_id@,
            r.event@ == "uploaded"@,
            media_type == MediaObjectType::PodcastFile ==> (r.audio_url_file matches Some(u)
                && u@ == url@) && r.image_url is None,
            media_type != MediaObjectType::PodcastFile ==> (r.image_url matches Some(u) && u@
                == url@) && r.audio_url_file is None,
            r.error is None,
            r.timestamp == timestamp,
    {
        let (audio_url_file, image_url) = match media_type {
            MediaObjectType::PodcastFile => (Some(String::from_str(url)), None),
            _ => (None, Some(String::from_str(url))),
        };
        BackendMediaUploadEvent {
            object_type: media_type.backend_as_str(),
            object_id: String::from_str(object_id),
            event: "uploaded",
            audio_url_file,
            image_url,
            error: None,
            timestamp,
        }
    }

    /// The backend event that an upload failed with `error`.
    pub fn error(media_type: MediaObjectType, object_id: &str, error: &str, timestamp: Timestamp) -> (r:
        BackendMediaUploadEvent)
        ensures
            r.object_type@ == media_type.backend_name(),
            r.object_id@ == object_id@,
            r.event@ == "error"@,
            r.audio_url_file is None,
            r.image_url is None,
            r.error matches Some(e) && e@ == error@,
            r.timestamp == timestamp,
    {
        BackendMediaUploadEvent {
            object_type: media_type.backend_as_str(),
            object_id: String::from_str(object_id),
            event: "error",
            audio_url_file: None,
            image_url: None,
            error: Some(String::from_str(error)),
            timestamp,
        }
    }
}

/// The generic topic, read by the media worker.
pub const TOPIC_MEDIA: &'static str = "media";

/// The backend topic, read by the core service.
pub const TOPIC_MEDIA_UPLOAD: &'static str = "media.upload";

/// The two events that one step of an upload publishes: `media` goes to
/// `TOPIC_MEDIA` and `backend` to `TOPIC_MEDIA_UPLOAD`, both under `key`.
pub struct EventPair {
    pub key: String,
    pub media: MediaEvent,
    pub backend: BackendMediaUploadEvent,
}

impl EventPair {
    /// The two events describe the same step of the same object: the message
    /// key is the object id on both, the type names correspond, the event
    /// names agree and the two timestamps are the same instant.
    pub open spec fn consistent(&self) -> bool {
        &&& self.media.object_id_view() == self.key@
        &&& self.backend.object_id@ == self.key@
        &&& self.backend.object_type@ == self.media.media_type_view().backend_name()
        &&& self.backend.event@ == self.media.event_name()
        &&& self.backend.timestamp == self.media.timestamp_view()
    }
}

/// `p` announces that an upload of `object_id` has started.
pub open spec fn is_start_upload_pair(
    p: EventPair,
    media_type: MediaObjectType,
    object_id: Seq<char>,
    timestamp: Timestamp,
) -> bool {
    &&& p.consistent()
    &&& p.key@ == object_id
    &&& p.media matches MediaEvent::StartUpload { media_type: t, started_at, .. } && t == media_type
        && started_at == timestamp
    &&& p.backend.audio_url_file is None
    &&& p.backend.image_url is None
    &&& p.backend.error is None
}

/// The events that announce that an upload of `object_id` has started.
pub fn start_upload_events(media_type: MediaObjectType, object_id: &str, timestamp: Timestamp) -> (r:
    EventPair)
    ensures
        is_start_upload_pair(r, media_type, object_id@, timestamp),
{
    EventPair {
        key: String::from_str(object_id),
        media: MediaEvent::StartUpload {
            media_type,
            object_id: String::from_str(object_id),
            started_at: timestamp,
        },
        backend: BackendMediaUploadEvent::start_upload(media_type, object_id, timestamp),
    }
}

/// `p` announces a stored upload: the generic event carries the storage
/// locator, size and content type and always asks for subtitles; the backend
/// event carries the public address, as `audio_url_file` for an audio file
/// and as `image_url` for an image.
pub open spec fn is_uploaded_pair(
    p: EventPair,
    media_type: MediaObjectType,
    object_id: Seq<char>,
    s3_url: Seq<char>,
    public_url: Seq<char>,
    size: usize,
    content_type: Seq<char>,
    timestamp: Timestamp,
) -> bool {
    &&& p.consistent()
    &&& p.key@ == object_id
    &&& p.media matches MediaEvent::Uploaded {
        media_type: t,
        url,
        size: sz,
        content_type: ct,
        need_subtitle,
        uploaded_at,
        ..
    } && t == media_type && url@ == s3_url && sz == size && ct@ == content_type && need_subtitle
        && uploaded_at == timestamp
    &&& media_type == MediaObjectType::PodcastFile ==> (p.backend.audio_url_file matches Some(u)
        && u@ == public_url) && p.backend.image_url is None
    &&& media_type != MediaObjectType::PodcastFile ==> (p.backend.image_url matches Some(u) && u@
        == public_url) && p.backend.audio_url_file is None
    &&& p.backend.error is None
}

/// The events that announce a stored upload.
pub fn uploaded_events(
    media_type: MediaObjectType,
    object_id: &str,
    s3_url: &str,
    public_url: &str,
    size: usize,
    content_type: &str,
    timestamp: Timestamp,
) -> (r: EventPair)
    ensures
        is_uploaded_pair(
            r,
            media_type,
            object_id@,
            s3_url@,
            public_url@,
            size,
            content_type@,
            timestamp,
        ),
{
    EventPair {
        key: String::from_str(object_id),
        media: MediaEvent::Uploaded {
            media_type,
            object_id: String::from_str(object_id),
            url: String::from_str(s3_url),
            size,
            content_type: String::from_str(content_type),
            need_subtitle: true,
            uploaded_at: timestamp,
        },
        backend: BackendMediaUploadEvent::uploaded(media_type, object_id, public_url, timestamp),
    }
}

/// `p` reports that the upload of `object_id` failed with `error_message`.
pub open spec fn is_error_pair(
    p: EventPair,
    media_type: MediaObjectType,
    object_id: Seq<char>,
    error_message: Seq<char>,
    timestamp: Timestamp,
) -> bool {
    &&& p.consistent()
    &&& p.key@ == object_id
    &&& p.media matches MediaEvent::Error { media_type: t, error_message: m, timestamp: ts, .. }
        && t == media_type && m@ == error_message && ts == timestamp
    &&& p.backend.error matches Some(e) && e@ == error_message
    &&& p.backend.audio_url_file is None
    &&& p.backend.image_url is None
}

/// The events that report a failed upload.
pub fn error_events(
    media_type: MediaObjectType,
    object_id: &str,
    error_message: &str,
    timestamp: Timestamp,
) -> (r: EventPair)
    ensures
        is_error_pair(r, media_type, object_id@, error_message@, timestamp),
{
    EventPair {
        key: String::from_str(object_id),
        media: MediaEvent::Error {
            media_type,
            object_id: String::from_str(object_id),
            error_message: String::from_str(error_message),
            timestamp,
        },
        backend: BackendMediaUploadEvent::error(media_type, object_id, error_message, timestamp),
    }
}

/// The outcome of publishing a pair: both sends are attempted; the first
/// failure, the generic topic's before the backend's, is reported.
pub fn combine_publish_results<E>(media: Result<(), E>, backend: Result<(), E>) -> (r: Result<
    (),
    E,
>)
    ensures
        r == match media {
            Err(e) => Err(e),
            Ok(()) => backend,
        },
{
    match media {
        Err(e) => Err(e),
        Ok(()) => backend,
    }
}

/// The producer settings: the brokers, plus fixed timeouts and retries.
pub open spec fn producer_settings_spec(brokers: Seq<char>) -> Seq<(Seq<char>, Seq<char>)> {
    seq![
        ("bootstrap.servers"@, brokers),
        ("message.timeout.ms"@, "5000"@),
        ("message.send.max.retries"@, "10"@),
        ("retry.backoff.ms"@, "500"@),
        ("reconnect.backoff.ms"@, "500"@),
        ("reconnect.backoff.max.ms"@, "10000"@),
        ("socket.keepalive.enable"@, "true"@),
    ]
}

/// The view of a list of settings.
pub open spec fn settings_view(v: Seq<(&'static str, String)>) -> Seq<(Seq<char>, Seq<char>)> {
    v.map_values(|p: (&'static str, String)| (p.0@, p.1@))
}

/// The settings the Kafka producer is created with.
pub fn producer_settings(brokers: &str) -> (r: Vec<(&'static str, String)>)
    ensures
        settings_view(r@) == producer_settings_spec(brokers@),
{
    let mut v: Vec<(&'static str, String)> = Vec::new();
    v.push(("bootstrap.servers", String::from_str(brokers)));
    v.push(("message.timeout.ms", String::from_str("5000")));
    v.push(("message.send.max.retries", String::from_str("10")));
    v.push(("retry.backoff.ms", String::from_str("500")));
    v.push(("reconnect.backoff.ms", String::from_str("500")));
    v.push(("reconnect.backoff.max.ms", String::from_str("10000")));
    v.push(("socket.keepalive.enable", String::from_str("true")));
    assert(settings_view(v@) =~= producer_settings_spec(brokers@));
    v
}

} // verus!
