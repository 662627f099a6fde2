//! The upload routes: their settings, the answers they give, the checks of the
//! identifier fields, the intake of the file stream, the reading of the
//! multipart form, and the steps after the file is received.

use vstd::prelude::*;

use crate::auth::AuthUser;
use crate::kafka::{
    error_events, is_error_pair, is_uploaded_pair, uploaded_events, EventPair, MediaObjectType,
    Timestamp,
};
use crate::s3::{public_url, public_url_spec, s3_url, s3_url_spec};
use crate::text::{ascii_lower, decimal, decimal_string, str_eq, trim, trim_end_ws, trim_start_ws, trim_ws};
use crate::uuid_format::{
    canonical_uuid, canonical_uuid_text, hex_char, lemma_canonical_is_fixed_point,
    lemma_hyphenated_uuid_is_accepted,
};
use crate::validation::{
    allowed_extensions_spec, check_extension_magic_compatibility, extension_outcome,
    formats_compatible, incompatible_message, lemma_detected_format_is_allowed, magic_outcome,
    mime_from_extension, mime_of, too_small_message, validate_extension, validate_magic_bytes,
    FileKind, MAX_FILE_SIZE, MIN_MAGIC_BYTES,
};

verus! {

// ---------------------------------------------------------------------------
// Statuses and answers
// ---------------------------------------------------------------------------

/// The HTTP statuses that the upload routes answer with.
#[derive(Debug, Clone, Copy, PartialEq, Eq, Structural)]
pub enum UploadStatus {
    Success,
    BadRequest,
    PayloadTooLarge,
    UnsupportedMediaType,
    InternalServerError,
}

impl UploadStatus {
    pub open spec fn code_spec(self) -> u16 {
        match self {
            UploadStatus::Success => 200,
            UploadStatus::BadRequest => 400,
            UploadStatus::PayloadTooLarge => 413,
            UploadStatus::UnsupportedMediaType => 415,
            UploadStatus::InternalServerError => 500,
        }
    }

    /// The numeric HTTP status.
    pub fn code(self) -> (r: u16)
        ensures
            r == self.code_spec(),
    {
        match self {
            UploadStatus::Success => 200,
            UploadStatus::BadRequest => 400,
            UploadStatus::PayloadTooLarge => 413,
            UploadStatus::UnsupportedMediaType => 415,
            UploadStatus::InternalServerError => 500,
        }
    }
}

/// The body of every answer of the upload routes.
pub struct UploadResponse {
    pub success: bool,
    pub media_type: Option<String>,
    pub object_id: Option<String>,
    pub url: Option<String>,
    pub size: Option<usize>,
    pub content_type: Option<String>,
    pub filename: Option<String>,
    pub message: Option<String>,
    pub error: Option<String>,
}

impl UploadResponse {
    /// The answer is a refusal carrying `error` and nothing else.
    pub open spec fn is_failure_with(&self, error: Seq<char>) -> bool {
        &&& !self.success
        &&& self.media_type is None
        &&& self.object_id is None
        &&& self.url is None
        &&& self.size is None
        &&& self.content_type is None
        &&& self.filename is None
        &&& self.message is None
        &&& self.error matches Some(e) && e@ == error
    }

    /// The answer to a refused or failed upload.
    pub fn failure(error: &str) -> (r: UploadResponse)
        ensures
            r.is_failure_with(error@),
    {
        UploadResponse {
            success: false,
            media_type: None,
            object_id: None,
            url: None,
            size: None,
            content_type: None,
            filename: None,
            message: None,
            error: Some(String::from_str(error)),
        }
    }
}

/// The multipart form of the audio route.
pub struct UploadAudioRequest {
    pub id_podcast: String,
    pub audio: String,
}

/// The multipart form of the profile-cover route.
pub struct UploadProfileCoverRequest {
    pub image: String,
}

/// The multipart form of the podcast-cover route.
pub struct UploadPodcastCoverRequest {
    pub id_podcast: String,
    pub image: String,
}

/// The multipart form of the playlist-cover route.
pub struct UploadPlaylistCoverRequest {
    pub id_playlist: String,
    pub image: String,
}

/// A refusal: its status, and the text of the answer.
pub struct UploadError {
    pub status: UploadStatus,
    pub message: String,
}

// ---------------------------------------------------------------------------
// Route settings
// ---------------------------------------------------------------------------

/// Where the id of the object that an upload belongs to comes from.
#[derive(Clone, Copy)]
pub enum ObjectIdSource {
    /// The authenticated user's id.
    JwtSubject,
    /// A text field of the form, by name.
    MultipartField(&'static str),
}

/// What one upload route accepts and how it reports success.
#[derive(Clone, Copy)]
pub struct UploadConfig {
    pub media_type: MediaObjectType,
    pub file_kind: FileKind,
    pub object_id_source: ObjectIdSource,
    pub file_field: &'static str,
    pub message: &'static str,
}

impl UploadConfig {
    /// `POST /api/media/upload_audio`: an audio file for the podcast named by
    /// `id_podcast`.
    pub fn audio_upload() -> (r: UploadConfig)
        ensures
            r.media_type == MediaObjectType::PodcastFile,
            r.file_kind == FileKind::Audio,
            r.object_id_source matches ObjectIdSource::MultipartField(n) && n@ == "id_podcast"@,
            r.file_field@ == "audio"@,
            r.message@ == "Аудиофайл сохранен в S3 и отправлен на обработку"@,
    {
        UploadConfig {
            media_type: MediaObjectType::PodcastFile,
            file_kind: FileKind::Audio,
            object_id_source: ObjectIdSource::MultipartField("id_podcast"),
            file_field: "audio",
            message: "Аудиофайл сохранен в S3 и отправлен на обработку",
        }
    }

    /// `POST /api/media/upload_cover_profile`: the caller's own avatar.
    pub fn profile_cover_upload() -> (r: UploadConfig)
        ensures
            r.media_type == MediaObjectType::Avatar,
            r.file_kind == FileKind::Image,
            r.object_id_source matches ObjectIdSource::JwtSubject,
            r.file_field@ == "image"@,
            r.message@ == "Изображение профиля сохранено в S3"@,
    {
        UploadConfig {
            media_type: MediaObjectType::Avatar,
            file_kind: FileKind::Image,
            object_id_source: ObjectIdSource::JwtSubject,
            file_field: "image",
            message: "Изображение профиля сохранено в S3",
        }
    }

    /// `POST /api/media/upload_cover_podcast`: the cover of the podcast named
    /// by `id_podcast`.
    pub fn podcast_cover_upload() -> (r: UploadConfig)
        ensures
            r.media_type == MediaObjectType::PodcastCover,
            r.file_kind == FileKind::Image,
            r.object_id_source matches ObjectIdSource::MultipartField(n) && n@ == "id_podcast"@,
            r.file_field@ == "image"@,
            r.message@ == "Обложка подкаста сохранена в S3"@,
    {
        UploadConfig {
            media_type: MediaObjectType::PodcastCover,
            file_kind: FileKind::Image,
            object_id_source: ObjectIdSource::MultipartField("id_podcast"),
            file_field: "image",
            message: "Обложка подкаста сохранена в S3",
        }
    }

    /// `POST /api/media/upload_cover_playlist`: the cover of the playlist
    /// named by `id_playlist`.
    pub fn playlist_cover_upload() -> (r: UploadConfig)
        ensures
            r.media_type == MediaObjectType::Playlists,
            r.file_kind == FileKind::Image,
            r.object_id_source matches ObjectIdSource::MultipartField(n) && n@ == "id_playlist"@,
            r.file_field@ == "image"@,
            r.message@ == "Обложка плейлиста сохранена в S3"@,
    {
        UploadConfig {
            media_type: MediaObjectType::Playlists,
            file_kind: FileKind::Image,
            object_id_source: ObjectIdSource::MultipartField("id_playlist"),
            file_field: "image",
            message: "Обложка плейлиста сохранена в S3",
        }
    }
}

/// Whether a form field carries the object id.
pub open spec fn matches_field_spec(source: ObjectIdSource, field_name: Seq<char>) -> bool {
    match source {
        ObjectIdSource::JwtSubject => false,
        ObjectIdSource::MultipartField(name) => field_name == name@,
    }
}

/// Whether the form field `field_name` carries the object id.
pub fn matches_field(source: ObjectIdSource, field_name: &str) -> (r: bool)
    ensures
        r == matches_field_spec(source, field_name@),
{
    match source {
        ObjectIdSource::JwtSubject => false,
        ObjectIdSource::MultipartField(name) => str_eq(field_name, name),
    }
}

// ---------------------------------------------------------------------------
// Identifier fields
// ---------------------------------------------------------------------------

pub open spec fn empty_field_message(field_name: Seq<char>) -> Seq<char> {
    "Поле "@ + field_name + " не должно быть пустым"@
}

pub open spec fn not_uuid_message(field_name: Seq<char>) -> Seq<char> {
    "Поле "@ + field_name + " должно быть UUID"@
}

/// What the identifier check decides: the canonical UUID text, or the
/// text of the refusal (always with status 400).
pub open spec fn uuid_value_outcome(value: Seq<char>, field_name: Seq<char>) -> Result<
    Seq<char>,
    Seq<char>,
> {
    let t = trim_ws(value);
    if t.len() == 0 {
        Err(empty_field_message(field_name))
    } else {
        match canonical_uuid_text(t) {
            Some(c) => Ok(c),
            None => Err(not_uuid_message(field_name)),
        }
    }
}

fn field_message(prefix: &str, field_name: &str, suffix: &str) -> (r: String)
    ensures
        r@ == prefix@ + field_name@ + suffix@,
{
    let mut s = String::from_str(prefix);
    s.append(field_name);
    s.append(suffix);
    s
}

/// Checks that an identifier (a form field, or the token's user id) is a
/// UUID, and gives its canonical text.
pub fn validate_uuid_value(value: &str, field_name: &str) -> (r: Result<String, UploadError>)
    ensures
        match r {
            Ok(v) => uuid_value_outcome(value@, field_name@) == Ok::<Seq<char>, Seq<char>>(v@),
            Err(e) => e.status == UploadStatus::BadRequest && uuid_value_outcome(
                value@,
                field_name@,
            ) == Err::<Seq<char>, Seq<char>>(e.message@),
        },
{
    let trimmed = trim(value);
    if trimmed.is_empty() {
        return Err(
            UploadError {
                status: UploadStatus::BadRequest,
                message: field_message("Поле ", field_name, " не должно быть пустым"),
            },
        );
    }
    match canonical_uuid(trimmed) {
        Some(c) => Ok(c),
        None => Err(
            UploadError {
                status: UploadStatus::BadRequest,
                message: field_message("Поле ", field_name, " должно быть UUID"),
            },
        ),
    }
}

/// What the text check of a form field decides: the trimmed value, or the
/// refusal of an empty one.
pub open spec fn text_field_outcome(raw: Seq<char>, field_name: Seq<char>) -> Result<
    Seq<char>,
    Seq<char>,
> {
    if trim_ws(raw).len() == 0 {
        Err(empty_field_message(field_name))
    } else {
        Ok(trim_ws(raw))
    }
}

/// The value of a text field after it was read: trimmed, and refused when
/// empty.
pub fn normalize_text_field(raw: &str, field_name: &str) -> (r: Result<String, UploadError>)
    ensures
        match r {
            Ok(v) => text_field_outcome(raw@, field_name@) == Ok::<Seq<char>, Seq<char>>(v@),
            Err(e) => e.status == UploadStatus::BadRequest && text_field_outcome(
                raw@,
                field_name@,
            ) == Err::<Seq<char>, Seq<char>>(e.message@),
        },
{
    let value = trim(raw);
    if value.is_empty() {
        return Err(
            UploadError {
                status: UploadStatus::BadRequest,
                message: field_message("Поле ", field_name, " не должно быть пустым"),
            },
        );
    }
    Ok(String::from_str(value))
}

/// The refusal when a text field could not be read; `detail` says why.
pub fn text_read_error(field_name: &str, detail: &str) -> (r: UploadError)
    ensures
        r.status == UploadStatus::BadRequest,
        r.message@ == "Ошибка чтения "@ + field_name@ + ": "@ + detail@,
{
    let mut message = field_message("Ошибка чтения ", field_name, ": ");
    message.append(detail);
    UploadError { status: UploadStatus::BadRequest, message }
}

// ---------------------------------------------------------------------------
// Receiving the file
// ---------------------------------------------------------------------------

/// The number of bytes in a mebibyte.
pub const MEBIBYTE: usize = 1024 * 1024;

/// The header of `data` (its first bytes) shows a format of `kind` that a
/// file with extension `ext` may hold.
pub open spec fn header_accepted(data: Seq<u8>, ext: Seq<char>, kind: FileKind) -> bool {
    &&& data.len() >= MIN_MAGIC_BYTES
    &&& magic_outcome(data.take(MIN_MAGIC_BYTES as int), kind) matches Ok(f)
    &&& formats_compatible(ext, f, kind)
}

pub open spec fn too_large_message(total: nat) -> Seq<char> {
    "Файл слишком большой: "@ + decimal(total / (MEBIBYTE as nat)) + " MB (максимум: 50 MB)"@
}

/// Why a chunk is refused, given the bytes received before it: the file grows
/// past the limit (413); or the chunk completes the header, which shows no
/// format of the kind (415) or one that the extension does not name (400).
/// `None` when the chunk is taken.
pub open spec fn chunk_rejection(
    received: Seq<u8>,
    chunk: Seq<u8>,
    ext: Seq<char>,
    kind: FileKind,
) -> Option<(UploadStatus, Seq<char>)> {
    let total = received.len() + chunk.len();
    if total > MAX_FILE_SIZE {
        Some((UploadStatus::PayloadTooLarge, too_large_message(total)))
    } else if received.len() < MIN_MAGIC_BYTES && total >= MIN_MAGIC_BYTES {
        match magic_outcome(received + chunk, kind) {
            Err(m) => Some((UploadStatus::UnsupportedMediaType, m)),
            Ok(f) => if formats_compatible(ext, f, kind) {
                None
            } else {
                Some((UploadStatus::BadRequest, incompatible_message(ext, f)))
            },
        }
    } else {
        None
    }
}

/// The format detection looks at the first bytes only.
pub proof fn lemma_magic_reads_header_only(d: Seq<u8>, kind: FileKind)
    requires
        d.len() >= MIN_MAGIC_BYTES,
    ensures
        magic_outcome(d, kind) == magic_outcome(d.take(MIN_MAGIC_BYTES as int), kind),
{
    let h = d.take(MIN_MAGIC_BYTES as int);
    assert forall|i: int| 0 <= i < 12 implies #[trigger] h[i] == d[i] by {}
}

proof fn lemma_same_header(x: Seq<u8>, y: Seq<u8>, kind: FileKind)
    requires
        x.len() >= MIN_MAGIC_BYTES,
        y.len() >= MIN_MAGIC_BYTES,
        x.take(MIN_MAGIC_BYTES as int) == y.take(MIN_MAGIC_BYTES as int),
    ensures
        magic_outcome(x, kind) == magic_outcome(y, kind),
{
    lemma_magic_reads_header_only(x, kind);
    lemma_magic_reads_header_only(y, kind);
}

/// Whether a file is taken does not depend on how it is cut into chunks:
/// taking `a` and then `b` succeeds exactly when taking `a + b` at once does.
pub proof fn lemma_chunking_does_not_matter(
    received: Seq<u8>,
    a: Seq<u8>,
    b: Seq<u8>,
    ext: Seq<char>,
    kind: FileKind,
)
    ensures
        (chunk_rejection(received, a + b, ext, kind) is None) == (chunk_rejection(
            received,
            a,
            ext,
            kind,
        ) is None && chunk_rejection(received + a, b, ext, kind) is None),
{
    let ra = received + a;
    let rab = received + (a + b);
    assert(ra + b =~= rab);
    if ra.len() >= MIN_MAGIC_BYTES {
        assert(rab.take(MIN_MAGIC_BYTES as int) =~= ra.take(MIN_MAGIC_BYTES as int));
        lemma_same_header(rab, ra, kind);
    }
}

/// Whether every chunk of `chunks`, taken in turn after the bytes `received`,
/// is taken.
pub open spec fn chunks_taken(
    received: Seq<u8>,
    chunks: Seq<Seq<u8>>,
    ext: Seq<char>,
    kind: FileKind,
) -> bool
    decreases chunks.len(),
{
    if chunks.len() == 0 {
        true
    } else {
        chunk_rejection(received, chunks[0], ext, kind) is None && chunks_taken(
            received + chunks[0],
            chunks.drop_first(),
            ext,
            kind,
        )
    }
}

/// Whether a file is taken does not depend on how it is cut into chunks at
/// all: a whole sequence of chunks is taken exactly when their concatenation,
/// sent as one chunk, is; and the bytes received are then the same.
pub proof fn lemma_any_chunking_is_one_chunk(
    received: Seq<u8>,
    chunks: Seq<Seq<u8>>,
    ext: Seq<char>,
    kind: FileKind,
)
    requires
        received.len() <= MAX_FILE_SIZE,
    ensures
        chunks_taken(received, chunks, ext, kind) == (chunk_rejection(
            received,
            chunks.flatten(),
            ext,
            kind,
        ) is None),
    decreases chunks.len(),
{
    if chunks.len() == 0 {
        assert(chunks.flatten() =~= Seq::<u8>::empty());
    } else {
        let c = chunks[0];
        let rest = chunks.drop_first();
        assert(chunks.flatten() == c + rest.flatten());
        lemma_chunking_does_not_matter(received, c, rest.flatten(), ext, kind);
        if chunk_rejection(received, c, ext, kind) is None {
            lemma_any_chunking_is_one_chunk(received + c, rest, ext, kind);
        }
    }
}

/// The rules a chunk meets: a file may grow to 50 MiB (52428800 bytes)
/// inclusive and not one byte more (413); the chunk that completes the first
/// 12 bytes is taken exactly when they show a format of the kind that the
/// extension may hold; any other chunk within the limit is taken.
pub proof fn lemma_chunk_rules(received: Seq<u8>, chunk: Seq<u8>, ext: Seq<char>, kind: FileKind)
    ensures
        received.len() + chunk.len() > 52428800 ==> (chunk_rejection(received, chunk, ext, kind)
            matches Some((status, _)) && status == UploadStatus::PayloadTooLarge),
        received.len() + chunk.len() <= 52428800 && (received.len() >= 12 || received.len()
            + chunk.len() < 12) ==> chunk_rejection(received, chunk, ext, kind) is None,
        received.len() + chunk.len() <= 52428800 && received.len() < 12 && received.len()
            + chunk.len() >= 12 ==> (chunk_rejection(received, chunk, ext, kind) is None <==> (
        magic_outcome(received + chunk, kind) matches Ok(f) && formats_compatible(ext, f, kind))),
{
}

/// A received file, checked and ready to be stored.
pub struct PreparedFile {
    filename: String,
    extension: String,
    kind: FileKind,
    size: usize,
    content_type: String,
    bytes: Vec<u8>,
}

impl PreparedFile {
    #[verifier::type_invariant]
    spec fn inv(self) -> bool {
        &&& self.size == self.bytes@.len()
        &&& MIN_MAGIC_BYTES <= self.size <= MAX_FILE_SIZE
        &&& extension_outcome(self.filename@, self.kind) == Ok::<Seq<char>, Seq<char>>(
            self.extension@,
        )
        &&& allowed_extensions_spec(self.kind).contains(self.extension@)
        &&& self.content_type@ == mime_of(self.extension@)
        &&& header_accepted(self.bytes@, self.extension@, self.kind)
    }

    pub closed spec fn filename_view(&self) -> Seq<char> {
        self.filename@
    }

    pub closed spec fn extension_view(&self) -> Seq<char> {
        self.extension@
    }

    pub closed spec fn kind_view(&self) -> FileKind {
        self.kind
    }

    pub closed spec fn bytes_view(&self) -> Seq<u8> {
        self.bytes@
    }

    /// The name the client gave the file (`unknown` when it gave none).
    pub fn filename(&self) -> (r: &str)
        ensures
            r@ == self.filename_view(),
    {
        self.filename.as_str()
    }

    /// The extension, lower case: one of the kind's extensions, and the one
    /// the file name ends with.
    pub fn extension(&self) -> (r: &str)
        ensures
            r@ == self.extension_view(),
            allowed_extensions_spec(self.kind_view()).contains(r@),
            extension_outcome(self.filename_view(), self.kind_view()) == Ok::<
                Seq<char>,
                Seq<char>,
            >(r@),
    {
        proof {
            use_type_invariant(self);
        }
        self.extension.as_str()
    }

    /// The size in bytes: at least enough for the header, at most the limit.
    pub fn size(&self) -> (r: usize)
        ensures
            r == self.bytes_view().len(),
            MIN_MAGIC_BYTES <= r <= MAX_FILE_SIZE,
    {
        proof {
            use_type_invariant(self);
        }
        self.size
    }

    /// The content type, derived from the extension.
    pub fn content_type(&self) -> (r: &str)
        ensures
            r@ == mime_of(self.extension_view()),
    {
        proof {
            use_type_invariant(self);
        }
        self.content_type.as_str()
    }

    /// The file's bytes, whose header shows a format that the extension
    /// names.
    pub fn bytes(&self) -> (r: &[u8])
        ensures
            r@ == self.bytes_view(),
            header_accepted(r@, self.extension_view(), self.kind_view()),
    {
        proof {
            use_type_invariant(self);
        }
        self.bytes.as_slice()
    }

    /// Hands the bytes over for storage.
    pub fn into_bytes(self) -> (r: Vec<u8>)
        ensures
            r@ == self.bytes_view(),
    {
        self.bytes
    }
}

/// The state of a file being received chunk by chunk.
pub struct FileIntake {
    filename: String,
    extension: String,
    kind: FileKind,
    total: usize,
    magic_checked: bool,
    head: Vec<u8>,
    bytes: Vec<u8>,
}

fn append_bytes(v: &mut Vec<u8>, s: &[u8])
    ensures
        final(v)@ == old(v)@ + s@,
{
    let n = s.len();
    let mut i: usize = 0;
    while i < n
        invariant
            n == s@.len(),
            i <= n,
            v@ == old(v)@ + s@.take(i as int),
        decreases n - i,
    {
        v.push(s[i]);
        i = i + 1;
        assert(v@ =~= old(v)@ + s@.take(i as int));
    }
    assert(s@.take(n as int) =~= s@);
}

/// The refusal when the file's data could not be read; `detail` says why.
pub fn file_read_error(detail: &str) -> (r: UploadError)
    ensures
        r.status == UploadStatus::BadRequest,
        r.message@ == "Ошибка чтения данных файла: "@ + detail@,
{
    let mut message = String::from_str("Ошибка чтения данных файла: ");
    message.append(detail);
    UploadError { status: UploadStatus::BadRequest, message }
}

impl FileIntake {
    #[verifier::type_invariant]
    spec fn inv(self) -> bool {
        &&& self.total == self.bytes@.len()
        &&& self.total <= MAX_FILE_SIZE
        &&& self.magic_checked == (self.total >= MIN_MAGIC_BYTES)
        &&& !self.magic_checked ==> self.head@ == self.bytes@
        &&& extension_outcome(self.filename@, self.kind) == Ok::<Seq<char>, Seq<char>>(
            self.extension@,
        )
        &&& self.magic_checked ==> header_accepted(self.bytes@, self.extension@, self.kind)
    }

    /// The bytes received so far.
    pub closed spec fn received(&self) -> Seq<u8> {
        self.bytes@
    }

    pub closed spec fn filename_view(&self) -> Seq<char> {
        self.filename@
    }

    pub closed spec fn extension_view(&self) -> Seq<char> {
        self.extension@
    }

    pub closed spec fn kind_view(&self) -> FileKind {
        self.kind
    }

    /// Starts receiving a file of `kind` named `filename` (`unknown` when the
    /// client gave no name); its extension must be acceptable (else 415).
    pub fn start(filename: Option<&str>, kind: FileKind) -> (r: Result<FileIntake, UploadError>)
        ensures
            match r {
                Ok(f) => {
                    &&& f.received() == Seq::<u8>::empty()
                    &&& f.kind_view() == kind
                    &&& f.filename_view() == match filename {
                        Some(n) => n@,
                        None => "unknown"@,
                    }
                    &&& extension_outcome(f.filename_view(), kind) == Ok::<Seq<char>, Seq<char>>(
                        f.extension_view(),
                    )
                },
                Err(e) => {
                    &&& e.status == UploadStatus::UnsupportedMediaType
                    &&& extension_outcome(
                        match filename {
                            Some(n) => n@,
                            None => "unknown"@,
                        },
                        kind,
                    ) == Err::<Seq<char>, Seq<char>>(e.message@)
                },
            },
    {
        let name = match filename {
            Some(n) => String::from_str(n),
            None => String::from_str("unknown"),
        };
        match validate_extension(name.as_str(), kind) {
            Ok(extension) => Ok(
                FileIntake {
                    filename: name,
                    extension,
                    kind,
                    total: 0,
                    magic_checked: false,
                    head: Vec::new(),
                    bytes: Vec::new(),
                },
            ),
            Err(message) => Err(UploadError { status: UploadStatus::UnsupportedMediaType, message }),
        }
    }

    /// Takes the next chunk of the file. The chunk is refused when the file
    /// would grow past the limit, or when it completes the header and the
    /// header shows no acceptable format, or one that the extension does not
    /// name.
    pub fn accept_chunk(self, chunk: &[u8]) -> (r: Result<FileIntake, UploadError>)
        ensures
            match chunk_rejection(self.received(), chunk@, self.extension_view(), self.kind_view()) {
                Some((status, message)) => r matches Err(e) && e.status == status && e.message@
                    == message,
                None => r matches Ok(f) && f.received() == self.received() + chunk@
                    && f.filename_view() == self.filename_view() && f.extension_view()
                    == self.extension_view() && f.kind_view() == self.kind_view(),
            },
    {
        proof {
            use_type_invariant(&self);
        }
        let len = chunk.len();
        if len > MAX_FILE_SIZE - self.total {
            let total: u128 = self.total as u128 + len as u128;
            let mut message = String::from_str("Файл слишком большой: ");
            let mb = decimal_string(total / (MEBIBYTE as u128));
            message.append(mb.as_str());
            message.append(" MB (максимум: 50 MB)");
            return Err(UploadError { status: UploadStatus::PayloadTooLarge, message });
        }
        let new_total = self.total + len;
        let FileIntake { filename, extension, kind, total, magic_checked, head, mut bytes } = self;
        let ghost old_bytes = bytes@;
        let mut head = head;
        let mut now_checked = magic_checked;
        if !magic_checked {
            append_bytes(&mut head, chunk);
            if new_total >= MIN_MAGIC_BYTES {
                let detected = match validate_magic_bytes(head.as_slice(), kind) {
                    Ok(f) => f,
                    Err(message) => {
                        return Err(
                            UploadError { status: UploadStatus::UnsupportedMediaType, message },
                        );
                    },
                };
                match check_extension_magic_compatibility(extension.as_str(), detected, kind) {
                    Ok(()) => {},
                    Err(message) => {
                        return Err(UploadError { status: UploadStatus::BadRequest, message });
                    },
                }
                proof {
                    lemma_magic_reads_header_only(head@, kind);
                    assert((old_bytes + chunk@).take(12) =~= head@.take(12));
                }
                now_checked = true;
                head = Vec::new();
            }
        } else {
            proof {
                assert((old_bytes + chunk@).take(12) =~= old_bytes.take(12));
            }
        }
        append_bytes(&mut bytes, chunk);
        Ok(
            FileIntake {
                filename,
                extension,
                kind,
                total: new_total,
                magic_checked: now_checked,
                head,
                bytes,
            },
        )
    }

    /// Ends the file: an empty file is refused, and so is one too short to
    /// show its format (both 400).
    pub fn finish(self) -> (r: Result<PreparedFile, UploadError>)
        ensures
            self.received().len() == 0 ==> (r matches Err(e) && e.status
                == UploadStatus::BadRequest && e.message@ == "Файл пустой"@),
            0 < self.received().len() < MIN_MAGIC_BYTES ==> (r matches Err(e) && e.status
                == UploadStatus::BadRequest && e.message@ == too_small_message()),
            self.received().len() >= MIN_MAGIC_BYTES ==> (r matches Ok(p) && p.bytes_view()
                == self.received() && p.filename_view() == self.filename_view()
                && p.extension_view() == self.extension_view() && p.kind_view()
                == self.kind_view()),
    {
        proof {
            use_type_invariant(&self);
        }
        if self.total == 0 {
            return Err(
                UploadError { status: UploadStatus::BadRequest, message: String::from_str("Файл пустой") },
            );
        }
        if !self.magic_checked {
            return Err(
                UploadError {
                    status: UploadStatus::BadRequest,
                    message: String::from_str("Файл слишком мал для определения формата"),
                },
            );
        }
        let FileIntake { filename, extension, kind, total, magic_checked, head, bytes } = self;
        let content_type = String::from_str(mime_from_extension(extension.as_str()));
        proof {
            let h = bytes@.take(12);
            lemma_detected_format_is_allowed(h, kind);
            reveal_strlit("jpg");
            reveal_strlit("jpeg");
            reveal_strlit("opus");
            reveal_strlit("ogg");
            reveal_strlit("aac");
            reveal_strlit("m4a");
            lemma_compatible_extension_is_allowed(extension@, magic_outcome(h, kind)->Ok_0, kind);
        }
        Ok(PreparedFile { filename, extension, kind, size: total, content_type, bytes })
    }
}

/// An extension that is compatible with a format detected for a kind, and
/// that the extension check passed, is one of the kind's extensions.
proof fn lemma_compatible_extension_is_allowed(ext: Seq<char>, detected: Seq<char>, kind: FileKind)
    requires
        allowed_extensions_spec(kind).contains(detected),
        formats_compatible(ext, detected, kind),
    ensures
        allowed_extensions_spec(kind).contains(ext),
{
    let a = allowed_extensions_spec(kind);
    match kind {
        FileKind::Audio => {
            assert(a[4] == "opus"@);
            assert(a[5] == "m4a"@);
            assert(a[6] == "aac"@);
        },
        FileKind::Image => {
            assert(a[0] == "jpg"@);
            assert(a[1] == "jpeg"@);
        },
    }
}

// ---------------------------------------------------------------------------
// Reading the multipart form
// ---------------------------------------------------------------------------

/// The view of an optional string.
pub open spec fn opt_view(o: Option<String>) -> Option<Seq<char>> {
    match o {
        Some(s) => Some(s@),
        None => None,
    }
}

/// A refused upload: the status and text of the answer, and the object for
/// which an error event is published (`None`: no event).
pub struct Rejection {
    pub status: UploadStatus,
    pub message: String,
    pub event_object_id: Option<String>,
}

/// `r` refuses with `status` and `message`, publishing an error event for
/// `event` when that is an object id.
pub open spec fn rejection_is(
    r: Rejection,
    status: UploadStatus,
    message: Seq<char>,
    event: Option<Seq<char>>,
) -> bool {
    &&& r.status == status
    &&& r.message@ == message
    &&& opt_view(r.event_object_id) == event
}

impl Rejection {
    /// The answer to the refused request.
    pub fn response(&self) -> (r: UploadResponse)
        ensures
            r.is_failure_with(self.message@),
    {
        UploadResponse::failure(self.message.as_str())
    }
}

fn copy_id(id: &Option<String>) -> (r: Option<String>)
    ensures
        opt_view(r) == opt_view(*id),
{
    match id {
        Some(s) => Some(s.clone()),
        None => None,
    }
}

/// What to do with a form field.
#[derive(Debug, Clone, Copy, PartialEq, Eq, Structural)]
pub enum FieldAction {
    /// Read its text: it carries the object id.
    ReadObjectId,
    /// Receive it as the file.
    ReadFile,
    /// Skip it: the route does not use it.
    Skip,
}

/// A form that was read completely: the object id (canonical UUID text) and
/// the received file.
pub struct ParsedUpload {
    pub object_id: String,
    pub file: PreparedFile,
}

/// The state of a multipart form being read, field after field.
pub struct UploadParser {
    config: UploadConfig,
    object_id: Option<String>,
    file: Option<PreparedFile>,
    intake: Option<FileIntake>,
}

pub open spec fn duplicate_field_message(field_name: Seq<char>) -> Seq<char> {
    "Поле "@ + field_name + " передано несколько раз"@
}

/// The name under which a missing object id is reported.
pub open spec fn object_id_label(source: ObjectIdSource) -> Seq<char> {
    match source {
        ObjectIdSource::MultipartField(name) => name@,
        ObjectIdSource::JwtSubject => "JWT sub"@,
    }
}

impl UploadParser {
    #[verifier::type_invariant]
    spec fn inv(self) -> bool {
        &&& self.object_id matches Some(v) ==> canonical_uuid_text(v@) == Some(v@)
        &&& self.file matches Some(f) ==> f.kind_view() == self.config.file_kind
        &&& self.intake matches Some(i) ==> i.kind_view() == self.config.file_kind
    }

    pub closed spec fn config_view(&self) -> UploadConfig {
        self.config
    }

    /// The object id known so far.
    pub closed spec fn object_id_view(&self) -> Option<Seq<char>> {
        opt_view(self.object_id)
    }

    /// The file received so far, if any.
    pub closed spec fn file_view(&self) -> Option<PreparedFile> {
        self.file
    }

    /// What has been read of the form, as `form_step` describes it.
    pub open spec fn state_view(&self) -> FormState {
        FormState {
            object_id: self.object_id_view(),
            file: match self.file_view() {
                Some(f) => Some((f.filename_view(), f.extension_view(), f.bytes_view())),
                None => None,
            },
        }
    }

    /// Whether the file has been received.
    pub open spec fn has_file(&self) -> bool {
        self.file_view() is Some
    }

    /// Whether a file is being received.
    pub closed spec fn receiving_file(&self) -> bool {
        self.intake is Some
    }

    /// The file being received.
    pub closed spec fn current_intake(&self) -> FileIntake {
        self.intake->Some_0
    }

    /// Whether a file is being received (between `begin_file` and `end_file`).
    pub fn is_receiving_file(&self) -> (r: bool)
        ensures
            r == self.receiving_file(),
    {
        self.intake.is_some()
    }

    /// Starts reading the form of a route. When the object is the caller, its
    /// id is the token's user id, which must be a UUID (a refusal here
    /// publishes no event).
    pub fn start(config: UploadConfig, auth: &AuthUser) -> (r: Result<UploadParser, Rejection>)
        ensures
            match config.object_id_source {
                ObjectIdSource::JwtSubject => match uuid_value_outcome(
                    auth.0.subject_view(),
                    "JWT sub"@,
                ) {
                    Ok(v) => (r matches Ok(p) && p.object_id_view() == Some(v) && p.file_view()
                        is None && !p.receiving_file() && p.config_view() == config),
                    Err(m) => (r matches Err(e) && rejection_is(
                        e,
                        UploadStatus::BadRequest,
                        m,
                        None,
                    )),
                },
                ObjectIdSource::MultipartField(_) => (r matches Ok(p) && p.object_id_view() is None
                    && p.file_view() is None && !p.receiving_file() && p.config_view() == config),
            },
    {
        match config.object_id_source {
            ObjectIdSource::JwtSubject => {
                match validate_uuid_value(auth.0.subject(), "JWT sub") {
                    Ok(v) => {
                        proof {
                            lemma_uuid_value_is_canonical(auth.0.subject_view(), "JWT sub"@);
                        }
                        Ok(UploadParser { config, object_id: Some(v), file: None, intake: None })
                    },
                    Err(e) => Err(
                        Rejection { status: e.status, message: e.message, event_object_id: None },
                    ),
                }
            },
            ObjectIdSource::MultipartField(_) => Ok(
                UploadParser { config, object_id: None, file: None, intake: None },
            ),
        }
    }

    fn reject(&self, status: UploadStatus, message: String) -> (r: Rejection)
        ensures
            rejection_is(r, status, message@, self.object_id_view()),
    {
        Rejection { status, message, event_object_id: copy_id(&self.object_id) }
    }

    /// The refusal when the form could not be read; `detail` says why.
    pub fn multipart_error(&self, detail: &str) -> (r: Rejection)
        ensures
            rejection_is(
                r,
                UploadStatus::BadRequest,
                "Ошибка чтения multipart: "@ + detail@,
                self.object_id_view(),
            ),
    {
        let mut message = String::from_str("Ошибка чтения multipart: ");
        message.append(detail);
        self.reject(UploadStatus::BadRequest, message)
    }

    /// Decides what to do with the next field of the form. A second id field,
    /// or a second file, is refused.
    pub fn on_field(&self, field_name: &str) -> (r: Result<FieldAction, Rejection>)
        ensures
            if matches_field_spec(self.config_view().object_id_source, field_name@) {
                if self.object_id_view() is Some {
                    r matches Err(e) && rejection_is(
                        e,
                        UploadStatus::BadRequest,
                        duplicate_field_message(field_name@),
                        self.object_id_view(),
                    )
                } else {
                    r matches Ok(a) && a == FieldAction::ReadObjectId
                }
            } else if field_name@ == self.config_view().file_field@ {
                if self.has_file() {
                    r matches Err(e) && rejection_is(
                        e,
                        UploadStatus::BadRequest,
                        duplicate_field_message(self.config_view().file_field@),
                        self.object_id_view(),
                    )
                } else {
                    r matches Ok(a) && a == FieldAction::ReadFile
                }
            } else {
                r matches Ok(a) && a == FieldAction::Skip
            },
    {
        if matches_field(self.config.object_id_source, field_name) {
            if self.object_id.is_some() {
                return Err(
                    self.reject(
                        UploadStatus::BadRequest,
                        field_message("Поле ", field_name, " передано несколько раз"),
                    ),
                );
            }
            Ok(FieldAction::ReadObjectId)
        } else if str_eq(field_name, self.config.file_field) {
            if self.file.is_some() {
                return Err(
                    self.reject(
                        UploadStatus::BadRequest,
                        field_message("Поле ", self.config.file_field, " передано несколько раз"),
                    ),
                );
            }
            Ok(FieldAction::ReadFile)
        } else {
            Ok(FieldAction::Skip)
        }
    }

    /// Takes the text of the id field: `Ok` with the text read, or `Err` with
    /// why it could not be read. The value must be non-empty and a UUID; a
    /// refusal of the UUID itself publishes no event.
    pub fn on_object_id_text(self, field_name: &str, read: Result<&str, &str>) -> (r: Result<
        UploadParser,
        Rejection,
    >)
        ensures
            match read {
                Err(detail) => (r matches Err(e) && rejection_is(
                    e,
                    UploadStatus::BadRequest,
                    "Ошибка чтения "@ + field_name@ + ": "@ + detail@,
                    self.object_id_view(),
                )),
                Ok(raw) => match text_field_outcome(raw@, field_name@) {
                    Err(m) => (r matches Err(e) && rejection_is(
                        e,
                        UploadStatus::BadRequest,
                        m,
                        self.object_id_view(),
                    )),
                    Ok(t) => match uuid_value_outcome(t, field_name@) {
                        Err(m) => (r matches Err(e) && rejection_is(
                            e,
                            UploadStatus::BadRequest,
                            m,
                            None,
                        )),
                        Ok(v) => (r matches Ok(p) && p.object_id_view() == Some(v) && p.file_view()
                            == self.file_view() && p.receiving_file() == self.receiving_file()
                            && p.current_intake() == self.current_intake()
                            && p.config_view() == self.config_view()),
                    },
                },
            },
            matches_field_spec(self.config_view().object_id_source, field_name@)
                && self.object_id_view() is None ==> forall|f: FormFieldView|
                #![trigger form_step(self.config_view(), self.state_view(), f)]
                f.name == field_name@ && f.text == text_read_view(read) ==> step_matches(
                    form_step(self.config_view(), self.state_view(), f),
                    r,
                ),
    {
        proof {
            use_type_invariant(&self);
        }
        let raw = match read {
            Err(detail) => {
                let e = text_read_error(field_name, detail);
                return Err(self.reject(e.status, e.message));
            },
            Ok(raw) => raw,
        };
        let value = match normalize_text_field(raw, field_name) {
            Ok(v) => v,
            Err(e) => {
                return Err(self.reject(e.status, e.message));
            },
        };
        match validate_uuid_value(value.as_str(), field_name) {
            Ok(v) => {
                proof {
                    lemma_uuid_value_is_canonical(value@, field_name@);
                }
                let UploadParser { config, object_id, file, intake } = self;
                Ok(UploadParser { config, object_id: Some(v), file, intake })
            },
            Err(e) => Err(Rejection { status: e.status, message: e.message, event_object_id: None }),
        }
    }

    /// Starts receiving the file field (`filename` as the client gave it).
    pub fn begin_file(self, filename: Option<&str>) -> (r: Result<UploadParser, Rejection>)
        ensures
            match extension_outcome(
                match filename {
                    Some(n) => n@,
                    None => "unknown"@,
                },
                self.config_view().file_kind,
            ) {
                Err(m) => (r matches Err(e) && rejection_is(
                    e,
                    UploadStatus::UnsupportedMediaType,
                    m,
                    self.object_id_view(),
                )),
                Ok(ext) => (r matches Ok(p) && p.receiving_file() && p.current_intake().received()
                    == Seq::<u8>::empty() && p.current_intake().extension_view() == ext
                    && p.current_intake().filename_view() == match filename {
                    Some(n) => n@,
                    None => "unknown"@,
                } && p.current_intake().kind_view() == self.config_view().file_kind
                    && p.object_id_view() == self.object_id_view() && p.file_view()
                    == self.file_view() && p.config_view() == self.config_view()),
            },
    {
        proof {
            use_type_invariant(&self);
        }
        match FileIntake::start(filename, self.config.file_kind) {
            Ok(intake) => {
                let UploadParser { config, object_id, file, intake: _ } = self;
                Ok(UploadParser { config, object_id, file, intake: Some(intake) })
            },
            Err(e) => Err(self.reject(e.status, e.message)),
        }
    }

    /// Takes the next chunk of the file being received.
    pub fn file_chunk(self, chunk: &[u8]) -> (r: Result<UploadParser, Rejection>)
        requires
            self.receiving_file(),
        ensures
            match chunk_rejection(
                self.current_intake().received(),
                chunk@,
                self.current_intake().extension_view(),
                self.current_intake().kind_view(),
            ) {
                Some((status, message)) => (r matches Err(e) && rejection_is(
                    e,
                    status,
                    message,
                    self.object_id_view(),
                )),
                None => (r matches Ok(p) && p.receiving_file() && p.current_intake().received()
                    == self.current_intake().received() + chunk@
                    && p.current_intake().extension_view() == self.current_intake().extension_view()
                    && p.current_intake().kind_view() == self.current_intake().kind_view()
                    && p.current_intake().filename_view() == self.current_intake().filename_view()
                    && p.object_id_view() == self.object_id_view() && p.file_view()
                    == self.file_view() && p.config_view() == self.config_view()),
            },
    {
        proof {
            use_type_invariant(&self);
        }
        let object_id_copy = copy_id(&self.object_id);
        let UploadParser { config, object_id, file, intake } = self;
        let intake = match intake {
            Some(i) => i,
            None => vstd::pervasive::unreached(),
        };
        match intake.accept_chunk(chunk) {
            Ok(next) => Ok(UploadParser { config, object_id, file, intake: Some(next) }),
            Err(e) => Err(
                Rejection { status: e.status, message: e.message, event_object_id: object_id_copy },
            ),
        }
    }

    /// The refusal when the file's data could not be read; `detail` says why.
    pub fn file_read_failed(&self, detail: &str) -> (r: Rejection)
        ensures
            rejection_is(
                r,
                UploadStatus::BadRequest,
                "Ошибка чтения данных файла: "@ + detail@,
                self.object_id_view(),
            ),
    {
        let e = file_read_error(detail);
        self.reject(e.status, e.message)
    }

    /// Ends the file being received: it becomes the form's file, or is
    /// refused (empty, or too short to show its format).
    pub fn end_file(self) -> (r: Result<UploadParser, Rejection>)
        requires
            self.receiving_file(),
        ensures
            self.current_intake().received().len() == 0 ==> (r matches Err(e) && rejection_is(
                e,
                UploadStatus::BadRequest,
                "Файл пустой"@,
                self.object_id_view(),
            )),
            0 < self.current_intake().received().len() < MIN_MAGIC_BYTES ==> (r matches Err(e)
                && rejection_is(
                e,
                UploadStatus::BadRequest,
                too_small_message(),
                self.object_id_view(),
            )),
            self.current_intake().received().len() >= MIN_MAGIC_BYTES ==> (r matches Ok(p)
                && (p.file_view() matches Some(f) && f.bytes_view()
                == self.current_intake().received() && f.filename_view()
                == self.current_intake().filename_view() && f.extension_view()
                == self.current_intake().extension_view() && f.kind_view()
                == self.current_intake().kind_view()) && !p.receiving_file() && p.object_id_view()
                == self.object_id_view() && p.config_view() == self.config_view()),
    {
        proof {
            use_type_invariant(&self);
        }
        let object_id_copy = copy_id(&self.object_id);
        let UploadParser { config, object_id, file, intake } = self;
        let intake = match intake {
            Some(i) => i,
            None => vstd::pervasive::unreached(),
        };
        match intake.finish() {
            Ok(prepared) => Ok(
                UploadParser { config, object_id, file: Some(prepared), intake: None },
            ),
            Err(e) => Err(
                Rejection { status: e.status, message: e.message, event_object_id: object_id_copy },
            ),
        }
    }

    /// Ends the form: the object id and the file must both be present. A
    /// missing id publishes no event (the object is unknown); a missing file
    /// publishes one for the object.
    pub fn finish(self) -> (r: Result<ParsedUpload, Rejection>)
        ensures
            match self.object_id_view() {
                None => (r matches Err(e) && rejection_is(
                    e,
                    UploadStatus::BadRequest,
                    "Поле "@ + object_id_label(self.config_view().object_id_source)
                        + " обязательно"@,
                    None,
                )),
                Some(id) => if !self.has_file() {
                    (r matches Err(e) && rejection_is(
                        e,
                        UploadStatus::BadRequest,
                        "Файл не найден в запросе"@,
                        Some(id),
                    ))
                } else {
                    (r matches Ok(p) && p.object_id@ == id && canonical_uuid_text(id) == Some(id)
                        && p.file == self.file_view()->Some_0 && p.file.kind_view()
                        == self.config_view().file_kind)
                },
            },
    {
        proof {
            use_type_invariant(&self);
        }
        let UploadParser { config, object_id, file, intake: _ } = self;
        let object_id = match object_id {
            Some(v) => v,
            None => {
                let label = match config.object_id_source {
                    ObjectIdSource::MultipartField(name) => name,
                    ObjectIdSource::JwtSubject => "JWT sub",
                };
                return Err(
                    Rejection {
                        status: UploadStatus::BadRequest,
                        message: field_message("Поле ", label, " обязательно"),
                        event_object_id: None,
                    },
                );
            },
        };
        match file {
            Some(file) => Ok(ParsedUpload { object_id, file }),
            None => {
                let event_object_id = Some(object_id.clone());
                Err(
                    Rejection {
                        status: UploadStatus::BadRequest,
                        message: String::from_str("Файл не найден в запросе"),
                        event_object_id,
                    },
                )
            },
        }
    }
}

/// An identifier field holding a hyphenated UUID (8-4-4-4-12 hexadecimal
/// digits of either case, any version) is accepted, as the UUID in lower
/// case.
pub proof fn lemma_uuid_field_accepts_any_uuid(value: Seq<char>, field_name: Seq<char>)
    requires
        value.len() == 36,
        value[8] == '-',
        value[13] == '-',
        value[18] == '-',
        value[23] == '-',
        forall|i: int|
            0 <= i < 36 && i != 8 && i != 13 && i != 18 && i != 23 ==> hex_char(
                #[trigger] value[i],
            ),
    ensures
        uuid_value_outcome(value, field_name) == Ok::<Seq<char>, Seq<char>>(ascii_lower(value)),
{
    assert(hex_char(value[0]));
    assert(hex_char(value[35]));
    assert(trim_start_ws(value) == value);
    assert(trim_end_ws(value) == value);
    lemma_hyphenated_uuid_is_accepted(value);
}

/// An identifier accepted by the check is in canonical form: checking it
/// again gives it back unchanged.
pub proof fn lemma_uuid_value_is_canonical(value: Seq<char>, field_name: Seq<char>)
    ensures
        uuid_value_outcome(value, field_name) matches Ok(v) ==> canonical_uuid_text(v) == Some(v),
{
    lemma_canonical_is_fixed_point(trim_ws(value));
}

// ---------------------------------------------------------------------------
// The form as a whole
// ---------------------------------------------------------------------------

/// A form field as the server meets it: its name; what reading it as text
/// gives (the text, or why it could not be read); and what receiving it as a
/// file gives (the client's file name, the chunks in order, and why reading
/// stopped after them, if it did).
pub struct FormFieldView {
    pub name: Seq<char>,
    pub text: Result<Seq<char>, Seq<char>>,
    pub filename: Option<Seq<char>>,
    pub chunks: Seq<Seq<u8>>,
    pub failure: Option<Seq<char>>,
}

/// What has been read of a form so far: the object id, and the file as
/// (file name, extension, bytes).
pub struct FormState {
    pub object_id: Option<Seq<char>>,
    pub file: Option<(Seq<char>, Seq<char>, Seq<u8>)>,
}

/// A refusal: status, text, and the object whose error event is published.
pub struct RejectionView {
    pub status: UploadStatus,
    pub message: Seq<char>,
    pub event: Option<Seq<char>>,
}

/// The bytes received after taking `chunks` in turn, or the first refusal.
pub open spec fn chunks_outcome(
    received: Seq<u8>,
    chunks: Seq<Seq<u8>>,
    ext: Seq<char>,
    kind: FileKind,
) -> Result<Seq<u8>, (UploadStatus, Seq<char>)>
    decreases chunks.len(),
{
    if chunks.len() == 0 {
        Ok(received)
    } else {
        match chunk_rejection(received, chunks[0], ext, kind) {
            Some(rejection) => Err(rejection),
            None => chunks_outcome(received + chunks[0], chunks.drop_first(), ext, kind),
        }
    }
}

/// What receiving a field as the route's file gives (as `begin_file`,
/// `file_chunk`, `file_read_failed` and `end_file` decide it, step by step).
pub open spec fn file_field_outcome(config: UploadConfig, field: FormFieldView) -> Result<
    (Seq<char>, Seq<char>, Seq<u8>),
    (UploadStatus, Seq<char>),
> {
    let name = match field.filename {
        Some(n) => n,
        None => "unknown"@,
    };
    match extension_outcome(name, config.file_kind) {
        Err(m) => Err((UploadStatus::UnsupportedMediaType, m)),
        Ok(ext) => match chunks_outcome(Seq::<u8>::empty(), field.chunks, ext, config.file_kind) {
            Err(rejection) => Err(rejection),
            Ok(bytes) => match field.failure {
                Some(detail) => Err((UploadStatus::BadRequest, "Ошибка чтения данных файла: "@ + detail)),
                None => if bytes.len() == 0 {
                    Err((UploadStatus::BadRequest, "Файл пустой"@))
                } else if bytes.len() < MIN_MAGIC_BYTES {
                    Err((UploadStatus::BadRequest, too_small_message()))
                } else {
                    Ok((name, ext, bytes))
                },
            },
        },
    }
}

/// One field of the form, as `on_field` and the steps after it decide it.
pub open spec fn form_step(config: UploadConfig, state: FormState, field: FormFieldView) -> Result<
    FormState,
    RejectionView,
> {
    if matches_field_spec(config.object_id_source, field.name) {
        if state.object_id is Some {
            Err(
                RejectionView {
                    status: UploadStatus::BadRequest,
                    message: duplicate_field_message(field.name),
                    event: state.object_id,
                },
            )
        } else {
            match field.text {
                Err(detail) => Err(
                    RejectionView {
                        status: UploadStatus::BadRequest,
                        message: "Ошибка чтения "@ + field.name + ": "@ + detail,
                        event: state.object_id,
                    },
                ),
                Ok(raw) => match text_field_outcome(raw, field.name) {
                    Err(m) => Err(
                        RejectionView {
                            status: UploadStatus::BadRequest,
                            message: m,
                            event: state.object_id,
                        },
                    ),
                    Ok(t) => match uuid_value_outcome(t, field.name) {
                        Err(m) => Err(
                            RejectionView { status: UploadStatus::BadRequest, message: m, event: None },
                        ),
                        Ok(v) => Ok(FormState { object_id: Some(v), file: state.file }),
                    },
                },
            }
        }
    } else if field.name == config.file_field@ {
        if state.file is Some {
            Err(
                RejectionView {
                    status: UploadStatus::BadRequest,
                    message: duplicate_field_message(config.file_field@),
                    event: state.object_id,
                },
            )
        } else {
            match file_field_outcome(config, field) {
                Err((status, message)) => Err(
                    RejectionView { status, message, event: state.object_id },
                ),
                Ok(f) => Ok(FormState { object_id: state.object_id, file: Some(f) }),
            }
        }
    } else {
        Ok(state)
    }
}

/// The fields of a form read in turn from `state`: the state after the last
/// one, or the first refusal.
pub open spec fn form_fold(config: UploadConfig, state: FormState, fields: Seq<FormFieldView>) -> Result<
    FormState,
    RejectionView,
>
    decreases fields.len(),
{
    if fields.len() == 0 {
        Ok(state)
    } else {
        match form_step(config, state, fields[0]) {
            Err(r) => Err(r),
            Ok(next) => form_fold(config, next, fields.drop_first()),
        }
    }
}

/// The whole form read from `state`, ended as `UploadParser::finish` ends it:
/// the object id and the file, or the refusal.
pub open spec fn form_outcome(config: UploadConfig, state: FormState, fields: Seq<FormFieldView>) -> Result<
    (Seq<char>, (Seq<char>, Seq<char>, Seq<u8>)),
    RejectionView,
> {
    match form_fold(config, state, fields) {
        Err(r) => Err(r),
        Ok(end) => match end.object_id {
            None => Err(
                RejectionView {
                    status: UploadStatus::BadRequest,
                    message: "Поле "@ + object_id_label(config.object_id_source) + " обязательно"@,
                    event: None,
                },
            ),
            Some(id) => match end.file {
                None => Err(
                    RejectionView {
                        status: UploadStatus::BadRequest,
                        message: "Файл не найден в запросе"@,
                        event: Some(id),
                    },
                ),
                Some(f) => Ok((id, f)),
            },
        },
    }
}

/// The view of what reading a field as text gave.
pub open spec fn text_read_view(read: Result<&str, &str>) -> Result<Seq<char>, Seq<char>> {
    match read {
        Ok(t) => Ok(t@),
        Err(d) => Err(d@),
    }
}

/// A parser step gave what `form_step` prescribes.
pub open spec fn step_matches(
    model: Result<FormState, RejectionView>,
    r: Result<UploadParser, Rejection>,
) -> bool {
    match model {
        Ok(state) => r matches Ok(p) && p.state_view() == state,
        Err(rv) => r matches Err(e) && rejection_is(e, rv.status, rv.message, rv.event),
    }
}

/// A field that the route reads: the id field or the file field.
pub open spec fn is_relevant_field(config: UploadConfig, name: Seq<char>) -> bool {
    matches_field_spec(config.object_id_source, name) || name == config.file_field@
}

/// A field whose name is neither the id field nor the file field changes
/// nothing: inserting it anywhere in a form gives the same outcome (and so
/// do removing it or changing its contents).
pub proof fn lemma_other_fields_do_not_matter(
    config: UploadConfig,
    state: FormState,
    before: Seq<FormFieldView>,
    field: FormFieldView,
    after: Seq<FormFieldView>,
)
    requires
        !is_relevant_field(config, field.name),
    ensures
        form_fold(config, state, before + seq![field] + after) == form_fold(
            config,
            state,
            before + after,
        ),
    decreases before.len(),
{
    let with = before + seq![field] + after;
    let without = before + after;
    if before.len() == 0 {
        assert(with[0] == field);
        assert(with.drop_first() =~= after);
        assert(without =~= after);
    } else {
        assert(with[0] == before[0]);
        assert(without[0] == before[0]);
        assert(with.drop_first() =~= before.drop_first() + seq![field] + after);
        assert(without.drop_first() =~= before.drop_first() + after);
        match form_step(config, state, before[0]) {
            Err(_) => {},
            Ok(next) => {
                lemma_other_fields_do_not_matter(config, next, before.drop_first(), field, after);
            },
        }
    }
}

/// Two forms that differ only in one field that the route does not read
/// give the same outcome.
pub proof fn lemma_other_field_contents_do_not_matter(
    config: UploadConfig,
    state: FormState,
    before: Seq<FormFieldView>,
    f: FormFieldView,
    g: FormFieldView,
    after: Seq<FormFieldView>,
)
    requires
        !is_relevant_field(config, f.name),
        !is_relevant_field(config, g.name),
    ensures
        form_fold(config, state, before + seq![f] + after) == form_fold(
            config,
            state,
            before + seq![g] + after,
        ),
        form_outcome(config, state, before + seq![f] + after) == form_outcome(
            config,
            state,
            before + seq![g] + after,
        ),
{
    lemma_other_fields_do_not_matter(config, state, before, f, after);
    lemma_other_fields_do_not_matter(config, state, before, g, after);
}

// ---------------------------------------------------------------------------
// After the form: storing the file and reporting
// ---------------------------------------------------------------------------

/// The storage key of an upload:
/// `media/uploads/<type>/<object_id>/<upload_id>.<extension>`.
pub open spec fn object_key_spec(
    media_type: MediaObjectType,
    object_id: Seq<char>,
    upload_id: Seq<char>,
    extension: Seq<char>,
) -> Seq<char> {
    "media/uploads/"@ + media_type.name() + "/"@ + object_id + "/"@ + upload_id + "."@ + extension
}

/// The storage key of an upload.
pub fn object_key(media_type: MediaObjectType, object_id: &str, upload_id: &str, extension: &str) -> (r:
    String)
    ensures
        r@ == object_key_spec(media_type, object_id@, upload_id@, extension@),
{
    let mut s = String::from_str("media/uploads/");
    s.append(media_type.as_str());
    s.append("/");
    s.append(object_id);
    s.append("/");
    s.append(upload_id);
    s.append(".");
    s.append(extension);
    s
}

/// Where a received file is stored, and how the events name it.
pub struct StoragePlan {
    pub bucket: String,
    pub object_key: String,
    pub content_type: String,
    pub s3_url: String,
    pub public_url: String,
}

/// Places a received file: under its storage key in `bucket`, with the
/// locator for the generic events and the public address (under
/// `endpoint_url`) for the backend events. `upload_id` tells this upload from
/// earlier ones of the same object.
pub fn plan_storage(
    config: &UploadConfig,
    parsed: &ParsedUpload,
    bucket: &str,
    endpoint_url: &str,
    upload_id: &str,
) -> (r: StoragePlan)
    ensures
        r.bucket@ == bucket@,
        r.object_key@ == object_key_spec(
            config.media_type,
            parsed.object_id@,
            upload_id@,
            parsed.file.extension_view(),
        ),
        r.content_type@ == mime_of(parsed.file.extension_view()),
        r.s3_url@ == s3_url_spec(bucket@, r.object_key@),
        r.public_url@ == public_url_spec(endpoint_url@, bucket@, r.object_key@),
{
    let key = object_key(config.media_type, parsed.object_id.as_str(), upload_id, parsed.file.extension());
    let locator = s3_url(bucket, key.as_str());
    let address = public_url(endpoint_url, bucket, key.as_str());
    StoragePlan {
        bucket: String::from_str(bucket),
        object_key: key,
        content_type: String::from_str(parsed.file.content_type()),
        s3_url: locator,
        public_url: address,
    }
}

/// The answer, and the events to publish, once the storage has answered.
pub struct UploadFinish {
    pub status: UploadStatus,
    pub response: UploadResponse,
    pub events: EventPair,
}

pub open spec fn storage_failed_message(detail: Seq<char>) -> Seq<char> {
    "Не удалось сохранить файл в S3: "@ + detail
}

/// The answer reports a stored upload, with the route's message.
pub open spec fn is_success_response(
    r: UploadResponse,
    config: UploadConfig,
    parsed: ParsedUpload,
    plan: StoragePlan,
) -> bool {
    &&& r.success
    &&& r.media_type matches Some(t) && t@ == config.media_type.name()
    &&& r.object_id matches Some(id) && id@ == parsed.object_id@
    &&& r.url matches Some(u) && u@ == plan.s3_url@
    &&& r.size == Some(parsed.file.bytes_view().len() as usize)
    &&& r.content_type matches Some(c) && c@ == plan.content_type@
    &&& r.filename matches Some(f) && f@ == parsed.file.filename_view()
    &&& r.message matches Some(m) && m@ == config.message@
    &&& r.error is None
}

/// Decides the outcome of an upload from the storage's answer (`Err` with
/// why it failed): a stored file is answered 200 and announced as uploaded; a
/// failure is answered 500 and reported by an error event.
pub fn finish_upload(
    config: &UploadConfig,
    parsed: &ParsedUpload,
    plan: &StoragePlan,
    stored: Result<(), &str>,
    timestamp: Timestamp,
) -> (r: UploadFinish)
    ensures
        match stored {
            Ok(()) => {
                &&& r.status == UploadStatus::Success
                &&& is_success_response(r.response, *config, *parsed, *plan)
                &&& is_uploaded_pair(
                    r.events,
                    config.media_type,
                    parsed.object_id@,
                    plan.s3_url@,
                    plan.public_url@,
                    parsed.file.bytes_view().len() as usize,
                    plan.content_type@,
                    timestamp,
                )
            },
            Err(detail) => {
                &&& r.status == UploadStatus::InternalServerError
                &&& r.response.is_failure_with(storage_failed_message(detail@))
                &&& is_error_pair(
                    r.events,
                    config.media_type,
                    parsed.object_id@,
                    storage_failed_message(detail@),
                    timestamp,
                )
            },
        },
{
    match stored {
        Ok(()) => {
            let size = parsed.file.size();
            let events = uploaded_events(
                config.media_type,
                parsed.object_id.as_str(),
                plan.s3_url.as_str(),
                plan.public_url.as_str(),
                size,
                plan.content_type.as_str(),
                timestamp,
            );
            let response = UploadResponse {
                success: true,
                media_type: Some(String::from_str(config.media_type.as_str())),
                object_id: Some(parsed.object_id.clone()),
                url: Some(plan.s3_url.clone()),
                size: Some(size),
                content_type: Some(plan.content_type.clone()),
                filename: Some(String::from_str(parsed.file.filename())),
                message: Some(String::from_str(config.message)),
                error: None,
            };
            UploadFinish { status: UploadStatus::Success, response, events }
        },
        Err(detail) => {
            let mut message = String::from_str("Не удалось сохранить файл в S3: ");
            message.append(detail);
            let events = error_events(
                config.media_type,
                parsed.object_id.as_str(),
                message.as_str(),
                timestamp,
            );
            UploadFinish {
                status: UploadStatus::InternalServerError,
                response: UploadResponse::failure(message.as_str()),
                events,
            }
        },
    }
}

} // verus!
