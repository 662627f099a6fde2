//! Validation of uploaded files: the extension of the file name, the format
//! that the first bytes reveal, and whether the two agree.

use vstd::prelude::*;

use crate::text::{
    after_last, lemma_after_last_at, all_ascii, ascii_lower, ascii_lower_char, join, seq_join, split_after_last,
    str_eq, str_views, to_lowercase, unicode_lowercase,
};

verus! {

/// The two kinds of media that the service accepts.
#[derive(Debug, Clone, Copy, PartialEq, Eq, Structural)]
pub enum FileKind {
    Audio,
    Image,
}

/// The largest file that is accepted, in bytes (50 MiB).
pub const MAX_FILE_SIZE: usize = 50 * 1024 * 1024;

/// The number of leading bytes that the format detection looks at.
pub const MIN_MAGIC_BYTES: usize = 12;

/// The view of a result whose both sides are strings.
pub open spec fn string_result_view(r: Result<String, String>) -> Result<Seq<char>, Seq<char>> {
    match r {
        Ok(s) => Ok(s@),
        Err(e) => Err(e@),
    }
}

/// The view of a detected format, or of the error that says why none was.
pub open spec fn format_result_view(r: Result<&'static str, String>) -> Result<Seq<char>, Seq<char>> {
    match r {
        Ok(s) => Ok(s@),
        Err(e) => Err(e@),
    }
}

// ---------------------------------------------------------------------------
// Extensions
// ---------------------------------------------------------------------------

/// The extensions accepted for each kind, in the order the messages list them.
pub open spec fn allowed_extensions_spec(kind: FileKind) -> Seq<Seq<char>> {
    match kind {
        FileKind::Audio => seq!["mp3"@, "wav"@, "ogg"@, "flac"@, "opus"@, "m4a"@, "aac"@],
        FileKind::Image => seq!["jpg"@, "jpeg"@, "png"@, "webp"@],
    }
}

pub open spec fn no_extension_message() -> Seq<char> {
    "Файл не имеет расширения"@
}

pub open spec fn disallowed_extension_message(ext: Seq<char>, kind: FileKind) -> Seq<char> {
    "Недопустимое расширение '."@ + ext + "'. Разрешены: "@ + seq_join(
        allowed_extensions_spec(kind),
        ", "@,
    )
}

/// What the check of an already lower-cased extension decides.
pub open spec fn extension_check(lowered: Seq<char>, kind: FileKind) -> Result<Seq<char>, Seq<char>> {
    if lowered.len() == 0 {
        Err(no_extension_message())
    } else if allowed_extensions_spec(kind).contains(lowered) {
        Ok(lowered)
    } else {
        Err(disallowed_extension_message(lowered, kind))
    }
}

/// What `validate_extension` decides for a file name: the part after the
/// last dot, lower-cased, must be one of the kind's extensions.
pub open spec fn extension_outcome(filename: Seq<char>, kind: FileKind) -> Result<Seq<char>, Seq<char>> {
    match after_last(filename, '.') {
        None => Err(no_extension_message()),
        Some(ext) => extension_check(unicode_lowercase(ext), kind),
    }
}

/// The same decision for a file name of ASCII characters, where lower-casing
/// is the ASCII one.
pub open spec fn ascii_extension_outcome(filename: Seq<char>, kind: FileKind) -> Result<Seq<char>, Seq<char>> {
    match after_last(filename, '.') {
        None => Err(no_extension_message()),
        Some(ext) => extension_check(ascii_lower(ext), kind),
    }
}

fn allowed_extensions(kind: FileKind) -> (r: Vec<&'static str>)
    ensures
        str_views(r@) == allowed_extensions_spec(kind),
{
    let mut v: Vec<&'static str> = Vec::new();
    match kind {
        FileKind::Audio => {
            v.push("mp3");
            v.push("wav");
            v.push("ogg");
            v.push("flac");
            v.push("opus");
            v.push("m4a");
            v.push("aac");
        },
        FileKind::Image => {
            v.push("jpg");
            v.push("jpeg");
            v.push("png");
            v.push("webp");
        },
    }
    assert(str_views(v@) =~= allowed_extensions_spec(kind));
    v
}

/// Checks an extension that has already been lower-cased: it must be
/// non-empty and one of the extensions of `kind`.
pub fn check_extension(lowered: String, kind: FileKind) -> (r: Result<String, String>)
    ensures
        string_result_view(r) == extension_check(lowered@, kind),
{
    if lowered.as_str().is_empty() {
        return Err(String::from_str("Файл не имеет расширения"));
    }
    let allowed = allowed_extensions(kind);
    let ghost views = str_views(allowed@);
    let n = allowed.len();
    let mut i: usize = 0;
    while i < n
        invariant
            n == allowed@.len(),
            views == str_views(allowed@),
            views == allowed_extensions_spec(kind),
            lowered@.len() != 0,
            i <= n,
            forall|k: int| 0 <= k < i ==> views[k] != lowered@,
        decreases n - i,
    {
        if str_eq(allowed[i], lowered.as_str()) {
            assert(views[i as int] == lowered@);
            assert(views.contains(lowered@));
            return Ok(lowered);
        }
        i = i + 1;
    }
    let mut msg = String::from_str("Недопустимое расширение '.");
    msg.append(lowered.as_str());
    msg.append("'. Разрешены: ");
    let listed = join(&allowed, ", ");
    msg.append(listed.as_str());
    Err(msg)
}

/// Extracts the extension of `filename` (the part after its last dot),
/// lower-cases it and checks that it is one of the extensions of `kind`.
pub fn validate_extension(filename: &str, kind: FileKind) -> (r: Result<String, String>)
    ensures
        string_result_view(r) == extension_outcome(filename@, kind),
        all_ascii(filename@) ==> string_result_view(r) == ascii_extension_outcome(filename@, kind),
{
    match split_after_last(filename, '.') {
        None => Err(String::from_str("Файл не имеет расширения")),
        Some(ext) => {
            proof {
                assert forall|i: int| 0 <= i < ext@.len() && all_ascii(filename@) implies (
                #[trigger] ext@[i] as u32) < 128 by {
                    assert(ext@[i] == filename@[filename@.len() - ext@.len() + i]);
                }
            }
            let lowered = to_lowercase(ext);
            check_extension(lowered, kind)
        },
    }
}

// ---------------------------------------------------------------------------
// Format detection by leading bytes
// ---------------------------------------------------------------------------

pub open spec fn too_small_message() -> Seq<char> {
    "Файл слишком мал для определения формата"@
}

pub open spec fn not_audio_message() -> Seq<char> {
    "Не удалось определить формат по заголовку файла. Файл не является аудио."@
}

pub open spec fn not_image_message() -> Seq<char> {
    "Не удалось определить формат по заголовку файла. Файл не является изображением."@
}

/// `d[off..off + 4]` is the four bytes `a b c e`.
pub open spec fn four_at(d: Seq<u8>, off: int, a: u8, b: u8, c: u8, e: u8) -> bool {
    d[off] == a && d[off + 1] == b && d[off + 2] == c && d[off + 3] == e
}

/// The audio format that the header of `d` shows.
pub open spec fn audio_format(d: Seq<u8>) -> Result<Seq<char>, Seq<char>> {
    if d.len() < 12 {
        Err(too_small_message())
    } else if four_at(d, 0, 0x52, 0x49, 0x46, 0x46) && four_at(d, 8, 0x57, 0x41, 0x56, 0x45) {
        Ok("wav"@)
    } else if four_at(d, 0, 0x66, 0x4c, 0x61, 0x43) {
        Ok("flac"@)
    } else if four_at(d, 0, 0x4f, 0x67, 0x67, 0x53) {
        Ok("ogg"@)
    } else if d[0] == 0x49 && d[1] == 0x44 && d[2] == 0x33 {
        Ok("mp3"@)
    } else if d[0] == 0xff && (d[1] & 0xe0) == 0xe0 {
        if (d[1] & 0x06) == 0 && (d[1] & 0xf0) == 0xf0 {
            Ok("aac"@)
        } else {
            Ok("mp3"@)
        }
    } else if four_at(d, 4, 0x66, 0x74, 0x79, 0x70) {
        Ok("m4a"@)
    } else {
        Err(not_audio_message())
    }
}

/// The image format that the header of `d` shows.
pub open spec fn image_format(d: Seq<u8>) -> Result<Seq<char>, Seq<char>> {
    if d.len() < 12 {
        Err(too_small_message())
    } else if d[0] == 0xff && d[1] == 0xd8 && d[2] == 0xff {
        Ok("jpeg"@)
    } else if four_at(d, 0, 0x89, 0x50, 0x4e, 0x47) && four_at(d, 4, 0x0d, 0x0a, 0x1a, 0x0a) {
        Ok("png"@)
    } else if four_at(d, 0, 0x52, 0x49, 0x46, 0x46) && four_at(d, 8, 0x57, 0x45, 0x42, 0x50) {
        Ok("webp"@)
    } else {
        Err(not_image_message())
    }
}

/// The format that the header of `d` shows for `kind`.
pub open spec fn magic_outcome(d: Seq<u8>, kind: FileKind) -> Result<Seq<char>, Seq<char>> {
    match kind {
        FileKind::Audio => audio_format(d),
        FileKind::Image => image_format(d),
    }
}

fn four_bytes_at(data: &[u8], off: usize, a: u8, b: u8, c: u8, e: u8) -> (r: bool)
    requires
        off + 4 <= data@.len(),
    ensures
        r == four_at(data@, off as int, a, b, c, e),
{
    data[off] == a && data[off + 1] == b && data[off + 2] == c && data[off + 3] == e
}

fn validate_audio_magic_bytes(data: &[u8]) -> (r: Result<&'static str, String>)
    ensures
        format_result_view(r) == audio_format(data@),
{
    if data.len() < 12 {
        return Err(String::from_str("Файл слишком мал для определения формата"));
    }
    if four_bytes_at(data, 0, 0x52, 0x49, 0x46, 0x46) && four_bytes_at(
        data,
        8,
        0x57,
        0x41,
        0x56,
        0x45,
    ) {
        return Ok("wav");
    }
    if four_bytes_at(data, 0, 0x66, 0x4c, 0x61, 0x43) {
        return Ok("flac");
    }
    if four_bytes_at(data, 0, 0x4f, 0x67, 0x67, 0x53) {
        return Ok("ogg");
    }
    if data[0] == 0x49 && data[1] == 0x44 && data[2] == 0x33 {
        return Ok("mp3");
    }
    if data[0] == 0xff && (data[1] & 0xe0) == 0xe0 {
        let layer_bits = data[1] & 0x06;
        if layer_bits == 0 && (data[1] & 0xf0) == 0xf0 {
            return Ok("aac");
        } else {
            return Ok("mp3");
        }
    }
    if four_bytes_at(data, 4, 0x66, 0x74, 0x79, 0x70) {
        return Ok("m4a");
    }
    Err(
        String::from_str(
            "Не удалось определить формат по заголовку файла. Файл не является аудио.",
        ),
    )
}

fn validate_image_magic_bytes(data: &[u8]) -> (r: Result<&'static str, String>)
    ensures
        format_result_view(r) == image_format(data@),
{
    if data.len() < 12 {
        return Err(String::from_str("Файл слишком мал для определения формата"));
    }
    if data[0] == 0xff && data[1] == 0xd8 && data[2] == 0xff {
        return Ok("jpeg");
    }
    if four_bytes_at(data, 0, 0x89, 0x50, 0x4e, 0x47) && four_bytes_at(
        data,
        4,
        0x0d,
        0x0a,
        0x1a,
        0x0a,
    ) {
        return Ok("png");
    }
    if four_bytes_at(data, 0, 0x52, 0x49, 0x46, 0x46) && four_bytes_at(
        data,
        8,
        0x57,
        0x45,
        0x42,
        0x50,
    ) {
        return Ok("webp");
    }
    Err(
        String::from_str(
            "Не удалось определить формат по заголовку файла. Файл не является изображением.",
        ),
    )
}

/// Detects the format of a file of `kind` from its first bytes.
pub fn validate_magic_bytes(data: &[u8], kind: FileKind) -> (r: Result<&'static str, String>)
    ensures
        format_result_view(r) == magic_outcome(data@, kind),
{
    match kind {
        FileKind::Audio => validate_audio_magic_bytes(data),
        FileKind::Image => validate_image_magic_bytes(data),
    }
}

// ---------------------------------------------------------------------------
// Extension against detected format
// ---------------------------------------------------------------------------

/// Whether a file named with extension `ext` may hold the format `detected`.
pub open spec fn formats_compatible(ext: Seq<char>, detected: Seq<char>, kind: FileKind) -> bool {
    match kind {
        FileKind::Audio => {
            ||| ext == detected
            ||| (ext == "opus"@ && detected == "ogg"@)
            ||| (ext == "aac"@ && detected == "m4a"@)
            ||| (ext == "m4a"@ && detected == "aac"@)
        },
        FileKind::Image => {
            ||| ((ext == "jpg"@ || ext == "jpeg"@) && detected == "jpeg"@)
            ||| ext == detected
        },
    }
}

pub open spec fn incompatible_message(ext: Seq<char>, detected: Seq<char>) -> Seq<char> {
    "Расширение '."@ + ext + "' не соответствует реальному формату '"@ + detected
        + "'. Файл переименован?"@
}

/// Checks that a file named with `extension` really holds the `detected`
/// format; a mismatch means the file was renamed.
pub fn check_extension_magic_compatibility(extension: &str, detected: &str, kind: FileKind) -> (r:
    Result<(), String>)
    ensures
        r is Ok <==> formats_compatible(extension@, detected@, kind),
        r matches Err(e) ==> e@ == incompatible_message(extension@, detected@),
{
    let compatible = match kind {
        FileKind::Audio => {
            str_eq(extension, detected) || (str_eq(extension, "opus") && str_eq(detected, "ogg"))
                || (str_eq(extension, "aac") && str_eq(detected, "m4a")) || (str_eq(
                extension,
                "m4a",
            ) && str_eq(detected, "aac"))
        },
        FileKind::Image => {
            ((str_eq(extension, "jpg") || str_eq(extension, "jpeg")) && str_eq(detected, "jpeg"))
                || str_eq(extension, detected)
        },
    };
    if !compatible {
        let mut msg = String::from_str("Расширение '.");
        msg.append(extension);
        msg.append("' не соответствует реальному формату '");
        msg.append(detected);
        msg.append("'. Файл переименован?");
        return Err(msg);
    }
    Ok(())
}

// ---------------------------------------------------------------------------
// Content types
// ---------------------------------------------------------------------------

/// The content type stored with a file of extension `ext`.
pub open spec fn mime_of(ext: Seq<char>) -> Seq<char> {
    if ext == "mp3"@ {
        "audio/mpeg"@
    } else if ext == "wav"@ {
        "audio/wav"@
    } else if ext == "ogg"@ || ext == "opus"@ {
        "audio/ogg"@
    } else if ext == "flac"@ {
        "audio/flac"@
    } else if ext == "m4a"@ || ext == "aac"@ {
        "audio/mp4"@
    } else if ext == "jpg"@ || ext == "jpeg"@ {
        "image/jpeg"@
    } else if ext == "png"@ {
        "image/png"@
    } else if ext == "webp"@ {
        "image/webp"@
    } else {
        "application/octet-stream"@
    }
}

/// The content type for a file extension.
pub fn mime_from_extension(ext: &str) -> (r: &'static str)
    ensures
        r@ == mime_of(ext@),
{
    if str_eq(ext, "mp3") {
        "audio/mpeg"
    } else if str_eq(ext, "wav") {
        "audio/wav"
    } else if str_eq(ext, "ogg") || str_eq(ext, "opus") {
        "audio/ogg"
    } else if str_eq(ext, "flac") {
        "audio/flac"
    } else if str_eq(ext, "m4a") || str_eq(ext, "aac") {
        "audio/mp4"
    } else if str_eq(ext, "jpg") || str_eq(ext, "jpeg") {
        "image/jpeg"
    } else if str_eq(ext, "png") {
        "image/png"
    } else if str_eq(ext, "webp") {
        "image/webp"
    } else {
        "application/octet-stream"
    }
}

// ---------------------------------------------------------------------------
// Laws
// ---------------------------------------------------------------------------

/// The family that the content types of a kind share.
pub open spec fn mime_family(kind: FileKind) -> Seq<char> {
    match kind {
        FileKind::Audio => "audio/"@,
        FileKind::Image => "image/"@,
    }
}

/// Every format that the header detection reports for a kind is itself one of
/// the kind's accepted extensions.
pub proof fn lemma_detected_format_is_allowed(data: Seq<u8>, kind: FileKind)
    ensures
        magic_outcome(data, kind) matches Ok(f) ==> allowed_extensions_spec(kind).contains(f),
{
    let a = allowed_extensions_spec(kind);
    match kind {
        FileKind::Audio => {
            assert(a[0] == "mp3"@);
            assert(a[1] == "wav"@);
            assert(a[2] == "ogg"@);
            assert(a[3] == "flac"@);
            assert(a[5] == "m4a"@);
            assert(a[6] == "aac"@);
        },
        FileKind::Image => {
            assert(a[1] == "jpeg"@);
            assert(a[2] == "png"@);
            assert(a[3] == "webp"@);
        },
    }
}

/// A file whose extension names exactly the detected format always passes the
/// compatibility check.
pub proof fn lemma_same_format_is_compatible(format: Seq<char>, kind: FileKind)
    ensures
        formats_compatible(format, format, kind),
{
}

/// Every accepted extension of a kind maps to a content type of that kind's
/// family ("audio/..." or "image/...").
pub proof fn lemma_mime_follows_kind(ext: Seq<char>, kind: FileKind)
    requires
        allowed_extensions_spec(kind).contains(ext),
    ensures
        mime_of(ext).len() >= 6,
        mime_of(ext).subrange(0, 6) == mime_family(kind),
{
    reveal_strlit("mp3");
    reveal_strlit("wav");
    reveal_strlit("ogg");
    reveal_strlit("flac");
    reveal_strlit("opus");
    reveal_strlit("m4a");
    reveal_strlit("aac");
    reveal_strlit("jpg");
    reveal_strlit("jpeg");
    reveal_strlit("png");
    reveal_strlit("webp");
    reveal_strlit("audio/mpeg");
    reveal_strlit("audio/wav");
    reveal_strlit("audio/ogg");
    reveal_strlit("audio/flac");
    reveal_strlit("audio/mp4");
    reveal_strlit("image/jpeg");
    reveal_strlit("image/png");
    reveal_strlit("image/webp");
    reveal_strlit("audio/");
    reveal_strlit("image/");
    let a = allowed_extensions_spec(kind);
    let i = choose|i: int| 0 <= i < a.len() && a[i] == ext;
    match kind {
        FileKind::Audio => {
            if i == 0 {
                assert(ext == "mp3"@);
                assert(mime_of(ext) == "audio/mpeg"@);
            } else if i == 1 {
                assert(ext == "wav"@);
                assert(ext[0] != "mp3"@[0]);
                assert(mime_of(ext) == "audio/wav"@);
            } else if i == 2 || i == 4 {
                assert(ext[0] != "mp3"@[0]);
                assert(ext[0] != "wav"@[0]);
                assert(mime_of(ext) == "audio/ogg"@);
            } else if i == 3 {
                assert(ext == "flac"@);
                assert(ext[0] != "mp3"@[0] && ext[0] != "wav"@[0] && ext[0] != "ogg"@[0]
                    && ext[0] != "opus"@[0]);
                assert(mime_of(ext) == "audio/flac"@);
            } else {
                assert(ext[1] != "mp3"@[1] && ext[0] != "wav"@[0] && ext[0] != "ogg"@[0]
                    && ext[0] != "opus"@[0] && ext[0] != "flac"@[0]);
                assert(mime_of(ext) == "audio/mp4"@);
            }
        },
        FileKind::Image => {
            if i == 0 || i == 1 {
                assert(ext[0] != "mp3"@[0] && ext[0] != "wav"@[0] && ext[0] != "ogg"@[0]
                    && ext[0] != "opus"@[0] && ext[0] != "flac"@[0] && ext[0] != "m4a"@[0]
                    && ext[0] != "aac"@[0]);
                assert(mime_of(ext) == "image/jpeg"@);
            } else if i == 2 {
                assert(ext == "png"@);
                assert(ext[0] != "mp3"@[0] && ext[0] != "wav"@[0] && ext[0] != "ogg"@[0]
                    && ext[0] != "opus"@[0] && ext[0] != "flac"@[0] && ext[0] != "m4a"@[0]
                    && ext[0] != "aac"@[0] && ext[0] != "jpg"@[0] && ext[0] != "jpeg"@[0]);
                assert(mime_of(ext) == "image/png"@);
            } else {
                assert(ext == "webp"@);
                assert(ext[0] != "mp3"@[0] && ext.len() != "wav"@.len() && ext[0] != "ogg"@[0]
                    && ext[0] != "opus"@[0] && ext[0] != "flac"@[0] && ext[0] != "m4a"@[0]
                    && ext[0] != "aac"@[0] && ext[0] != "jpg"@[0] && ext[0] != "jpeg"@[0]
                    && ext[0] != "png"@[0]);
                assert(mime_of(ext) == "image/webp"@);
            }
        },
    }
    assert(mime_of(ext).subrange(0, 6) =~= mime_family(kind));
}

proof fn lemma_ascii_lower_char_dot(c: char)
    ensures
        (ascii_lower_char(c) == '.') == (c == '.'),
        ascii_lower_char(ascii_lower_char(c)) == ascii_lower_char(c),
        (c as u32) < 128 ==> (ascii_lower_char(c) as u32) < 128,
{
}

proof fn lemma_after_last_ascii_lower(s: Seq<char>)
    ensures
        after_last(ascii_lower(s), '.') == match after_last(s, '.') {
            Some(t) => Some(ascii_lower(t)),
            None => None,
        },
    decreases s.len(),
{
    if s.len() > 0 {
        lemma_ascii_lower_char_dot(s.last());
        assert(ascii_lower(s).drop_last() =~= ascii_lower(s.drop_last()));
        lemma_after_last_ascii_lower(s.drop_last());
        match after_last(s.drop_last(), '.') {
            Some(t) => {
                assert(ascii_lower(t.push(s.last())) =~= ascii_lower(t).push(
                    ascii_lower_char(s.last()),
                ));
            },
            None => {},
        }
        if s.last() == '.' {
            assert(ascii_lower(Seq::<char>::empty()) =~= Seq::<char>::empty());
        }
    }
}

/// Extension checking ignores ASCII case: a file name and its ASCII
/// lower-case form get the same answer (for ASCII names, `validate_extension`
/// gives exactly `ascii_extension_outcome`).
pub proof fn lemma_extension_ignores_ascii_case(filename: Seq<char>, kind: FileKind)
    ensures
        ascii_extension_outcome(filename, kind) == ascii_extension_outcome(
            ascii_lower(filename),
            kind,
        ),
        all_ascii(filename) ==> all_ascii(ascii_lower(filename)),
{
    lemma_after_last_ascii_lower(filename);
    match after_last(filename, '.') {
        Some(t) => {
            assert forall|i: int| 0 <= i < t.len() implies #[trigger] ascii_lower(ascii_lower(t))[i]
                == ascii_lower(t)[i] by {
                lemma_ascii_lower_char_dot(t[i]);
            }
            assert(ascii_lower(ascii_lower(t)) =~= ascii_lower(t));
        },
        None => {},
    }
    assert forall|i: int| 0 <= i < filename.len() && all_ascii(filename) implies (
    #[trigger] ascii_lower(filename)[i] as u32) < 128 by {
        lemma_ascii_lower_char_dot(filename[i]);
    }
}

// ---------------------------------------------------------------------------
// Laws of detection, agreement and acceptance, over all inputs
// ---------------------------------------------------------------------------

/// Fewer than 12 bytes never show a format, for either kind.
pub proof fn lemma_short_header_is_too_small(d: Seq<u8>, kind: FileKind)
    requires
        d.len() < 12,
    ensures
        magic_outcome(d, kind) == Err::<Seq<char>, Seq<char>>(
            "Файл слишком мал для определения формата"@,
        ),
{
}

/// Every image header of at least 12 bytes that begins `FF D8 FF` is a JPEG,
/// whatever marker follows (JFIF `E0`, EXIF `E1`, or any other).
pub proof fn lemma_jpeg_signature_is_jpeg(d: Seq<u8>)
    requires
        d.len() >= 12,
        d[0] == 0xff,
        d[1] == 0xd8,
        d[2] == 0xff,
    ensures
        magic_outcome(d, FileKind::Image) == Ok::<Seq<char>, Seq<char>>("jpeg"@),
{
}

/// Every image header that begins with the eight-byte PNG signature is a PNG.
pub proof fn lemma_png_signature_is_png(d: Seq<u8>)
    requires
        d.len() >= 12,
        d[0] == 0x89,
        d[1] == 0x50,
        d[2] == 0x4e,
        d[3] == 0x47,
        d[4] == 0x0d,
        d[5] == 0x0a,
        d[6] == 0x1a,
        d[7] == 0x0a,
    ensures
        magic_outcome(d, FileKind::Image) == Ok::<Seq<char>, Seq<char>>("png"@),
{
}

/// Every image header `RIFF????WEBP` is a WebP image.
pub proof fn lemma_riff_webp_is_webp(d: Seq<u8>)
    requires
        d.len() >= 12,
        d[0] == 0x52,
        d[1] == 0x49,
        d[2] == 0x46,
        d[3] == 0x46,
        d[8] == 0x57,
        d[9] == 0x45,
        d[10] == 0x42,
        d[11] == 0x50,
    ensures
        magic_outcome(d, FileKind::Image) == Ok::<Seq<char>, Seq<char>>("webp"@),
{
}

/// An image header of at least 12 bytes that shows none of the three image
/// signatures is refused as no image.
pub proof fn lemma_unknown_image_header_is_refused(d: Seq<u8>)
    requires
        d.len() >= 12,
        !(d[0] == 0xff && d[1] == 0xd8 && d[2] == 0xff),
        !(d[0] == 0x89 && d[1] == 0x50 && d[2] == 0x4e && d[3] == 0x47 && d[4] == 0x0d && d[5]
            == 0x0a && d[6] == 0x1a && d[7] == 0x0a),
        !(d[0] == 0x52 && d[1] == 0x49 && d[2] == 0x46 && d[3] == 0x46 && d[8] == 0x57 && d[9]
            == 0x45 && d[10] == 0x42 && d[11] == 0x50),
    ensures
        magic_outcome(d, FileKind::Image) == Err::<Seq<char>, Seq<char>>(
            "Не удалось определить формат по заголовку файла. Файл не является изображением."@,
        ),
{
}

/// Every audio header `RIFF????WAVE` is WAV.
pub proof fn lemma_riff_wave_is_wav(d: Seq<u8>)
    requires
        d.len() >= 12,
        d[0] == 0x52,
        d[1] == 0x49,
        d[2] == 0x46,
        d[3] == 0x46,
        d[8] == 0x57,
        d[9] == 0x41,
        d[10] == 0x56,
        d[11] == 0x45,
    ensures
        magic_outcome(d, FileKind::Audio) == Ok::<Seq<char>, Seq<char>>("wav"@),
{
}

/// Every audio header beginning `fLaC` is FLAC, and every one beginning
/// `OggS` is Ogg.
pub proof fn lemma_flac_and_ogg_signatures(d: Seq<u8>)
    requires
        d.len() >= 12,
    ensures
        (d[0] == 0x66 && d[1] == 0x4c && d[2] == 0x61 && d[3] == 0x43) ==> magic_outcome(
            d,
            FileKind::Audio,
        ) == Ok::<Seq<char>, Seq<char>>("flac"@),
        (d[0] == 0x4f && d[1] == 0x67 && d[2] == 0x67 && d[3] == 0x53) ==> magic_outcome(
            d,
            FileKind::Audio,
        ) == Ok::<Seq<char>, Seq<char>>("ogg"@),
{
}

/// Every audio header beginning with an `ID3` tag is MP3.
pub proof fn lemma_id3_tag_is_mp3(d: Seq<u8>)
    requires
        d.len() >= 12,
        d[0] == 0x49,
        d[1] == 0x44,
        d[2] == 0x33,
    ensures
        magic_outcome(d, FileKind::Audio) == Ok::<Seq<char>, Seq<char>>("mp3"@),
{
}

/// An audio frame sync `FF` followed by `F0`, `F1`, `F8` or `F9` (MPEG-4 or
/// MPEG-2 ADTS, layer bits 00) is AAC; `FF` followed by any other byte of at
/// least `E0` (an MPEG audio frame) is MP3.
pub proof fn lemma_frame_sync_aac_or_mp3(d: Seq<u8>)
    requires
        d.len() >= 12,
        d[0] == 0xff,
        d[1] >= 0xe0,
    ensures
        (d[1] == 0xf0 || d[1] == 0xf1 || d[1] == 0xf8 || d[1] == 0xf9) ==> magic_outcome(
            d,
            FileKind::Audio,
        ) == Ok::<Seq<char>, Seq<char>>("aac"@),
        !(d[1] == 0xf0 || d[1] == 0xf1 || d[1] == 0xf8 || d[1] == 0xf9) ==> magic_outcome(
            d,
            FileKind::Audio,
        ) == Ok::<Seq<char>, Seq<char>>("mp3"@),
{
    let b = d[1];
    assert((b & 0xe0) == 0xe0) by (bit_vector)
        requires
            b >= 0xe0,
    ;
    assert(((b & 0x06) == 0 && (b & 0xf0) == 0xf0) == (b == 0xf0 || b == 0xf1 || b == 0xf8 || b
        == 0xf9)) by (bit_vector);
}

/// An audio header whose first byte starts none of the other signatures and
/// that reads `ftyp` at offset 4 (an ISO media file) is M4A.
pub proof fn lemma_ftyp_box_is_m4a(d: Seq<u8>)
    requires
        d.len() >= 12,
        d[0] != 0x52 && d[0] != 0x66 && d[0] != 0x4f && d[0] != 0x49 && d[0] != 0xff,
        d[4] == 0x66,
        d[5] == 0x74,
        d[6] == 0x79,
        d[7] == 0x70,
    ensures
        magic_outcome(d, FileKind::Audio) == Ok::<Seq<char>, Seq<char>>("m4a"@),
{
}

/// Image agreement: a detected JPEG agrees with the extensions `jpg` and
/// `jpeg` and with no other; any other pair agrees only when extension and
/// format are equal.
pub proof fn lemma_image_agreement(ext: Seq<char>, detected: Seq<char>)
    ensures
        formats_compatible(ext, detected, FileKind::Image) <==> (ext == detected || (detected
            == "jpeg"@ && ext == "jpg"@)),
        formats_compatible(ext, "jpeg"@, FileKind::Image) <==> (ext == "jpg"@ || ext == "jpeg"@),
{
}

/// Audio agreement: an extension agrees with its own format; besides that,
/// only `opus` with a detected Ogg stream, and `aac` and `m4a` with each
/// other.
pub proof fn lemma_audio_agreement(ext: Seq<char>, detected: Seq<char>)
    ensures
        ext == detected ==> formats_compatible(ext, detected, FileKind::Audio),
        (ext != detected && formats_compatible(ext, detected, FileKind::Audio)) ==> (
        (ext == "opus"@ && detected == "ogg"@) || (ext == "aac"@ && detected == "m4a"@) || (ext
            == "m4a"@ && detected == "aac"@)),
        formats_compatible("opus"@, "ogg"@, FileKind::Audio),
        formats_compatible("aac"@, "m4a"@, FileKind::Audio),
        formats_compatible("m4a"@, "aac"@, FileKind::Audio),
{
}

/// The extensions accepted for audio: exactly mp3, wav, ogg, flac, opus, m4a
/// and aac, each accepted as itself.
pub open spec fn is_audio_extension(ext: Seq<char>) -> bool {
    ext == "mp3"@ || ext == "wav"@ || ext == "ogg"@ || ext == "flac"@ || ext == "opus"@ || ext
        == "m4a"@ || ext == "aac"@
}

/// The extensions accepted for images: exactly jpg, jpeg, png and webp.
pub open spec fn is_image_extension(ext: Seq<char>) -> bool {
    ext == "jpg"@ || ext == "jpeg"@ || ext == "png"@ || ext == "webp"@
}

proof fn lemma_extension_literals()
    ensures
        "mp3"@ == seq!['m', 'p', '3'],
        "wav"@ == seq!['w', 'a', 'v'],
        "ogg"@ == seq!['o', 'g', 'g'],
        "flac"@ == seq!['f', 'l', 'a', 'c'],
        "opus"@ == seq!['o', 'p', 'u', 's'],
        "m4a"@ == seq!['m', '4', 'a'],
        "aac"@ == seq!['a', 'a', 'c'],
        "jpg"@ == seq!['j', 'p', 'g'],
        "jpeg"@ == seq!['j', 'p', 'e', 'g'],
        "png"@ == seq!['p', 'n', 'g'],
        "webp"@ == seq!['w', 'e', 'b', 'p'],
{
    reveal_strlit("mp3");
    reveal_strlit("wav");
    reveal_strlit("ogg");
    reveal_strlit("flac");
    reveal_strlit("opus");
    reveal_strlit("m4a");
    reveal_strlit("aac");
    reveal_strlit("jpg");
    reveal_strlit("jpeg");
    reveal_strlit("png");
    reveal_strlit("webp");
    assert("mp3"@ =~= seq!['m', 'p', '3']);
    assert("wav"@ =~= seq!['w', 'a', 'v']);
    assert("ogg"@ =~= seq!['o', 'g', 'g']);
    assert("flac"@ =~= seq!['f', 'l', 'a', 'c']);
    assert("opus"@ =~= seq!['o', 'p', 'u', 's']);
    assert("m4a"@ =~= seq!['m', '4', 'a']);
    assert("aac"@ =~= seq!['a', 'a', 'c']);
    assert("jpg"@ =~= seq!['j', 'p', 'g']);
    assert("jpeg"@ =~= seq!['j', 'p', 'e', 'g']);
    assert("png"@ =~= seq!['p', 'n', 'g']);
    assert("webp"@ =~= seq!['w', 'e', 'b', 'p']);
}

/// The check of a lower-cased extension accepts exactly the kind's
/// extensions, every one of them (the last listed included), and accepts
/// each as itself.
pub proof fn lemma_accepted_extensions(ext: Seq<char>)
    ensures
        extension_check(ext, FileKind::Audio) is Ok <==> is_audio_extension(ext),
        extension_check(ext, FileKind::Image) is Ok <==> is_image_extension(ext),
        extension_check(ext, FileKind::Audio) matches Ok(e) ==> e == ext,
        extension_check(ext, FileKind::Image) matches Ok(e) ==> e == ext,
{
    lemma_extension_literals();
    let a = allowed_extensions_spec(FileKind::Audio);
    let m = allowed_extensions_spec(FileKind::Image);
    if is_audio_extension(ext) {
        if ext == "mp3"@ {
            assert(a[0] == ext);
        } else if ext == "wav"@ {
            assert(a[1] == ext);
        } else if ext == "ogg"@ {
            assert(a[2] == ext);
        } else if ext == "flac"@ {
            assert(a[3] == ext);
        } else if ext == "opus"@ {
            assert(a[4] == ext);
        } else if ext == "m4a"@ {
            assert(a[5] == ext);
        } else {
            assert(a[6] == ext);
        }
    }
    if a.contains(ext) {
        let i = choose|i: int| 0 <= i < a.len() && a[i] == ext;
        assert(is_audio_extension(ext));
    }
    if is_image_extension(ext) {
        if ext == "jpg"@ {
            assert(m[0] == ext);
        } else if ext == "jpeg"@ {
            assert(m[1] == ext);
        } else if ext == "png"@ {
            assert(m[2] == ext);
        } else {
            assert(m[3] == ext);
        }
    }
    if m.contains(ext) {
        let i = choose|i: int| 0 <= i < m.len() && m[i] == ext;
        assert(is_image_extension(ext));
    }
}

/// Any file name ending in `.` and an extension of its kind (written in
/// lower case) is accepted with that extension, whatever comes before the
/// dot; for ASCII names that is what `validate_extension` returns.
pub proof fn lemma_name_with_allowed_extension(base: Seq<char>, ext: Seq<char>, kind: FileKind)
    requires
        match kind {
            FileKind::Audio => is_audio_extension(ext),
            FileKind::Image => is_image_extension(ext),
        },
    ensures
        ascii_extension_outcome(base + seq!['.'] + ext, kind) == Ok::<Seq<char>, Seq<char>>(ext),
{
    lemma_extension_literals();
    let name = base + seq!['.'] + ext;
    assert forall|j: int| base.len() < j < name.len() implies #[trigger] name[j] != '.' by {
        assert(name[j] == ext[j - base.len() - 1]);
    }
    lemma_after_last_at(name, '.', base.len() as int);
    assert(name.subrange(base.len() + 1int, name.len() as int) =~= ext);
    assert(ascii_lower(ext) =~= ext);
    lemma_accepted_extensions(ext);
}

/// The content type of every accepted extension: one type per real format,
/// so that the two names of one format (jpg and jpeg; ogg and opus; m4a and
/// aac) share it; anything else is stored as a plain byte stream.
pub proof fn lemma_content_types(ext: Seq<char>)
    ensures
        ext == "mp3"@ ==> mime_of(ext) == "audio/mpeg"@,
        ext == "wav"@ ==> mime_of(ext) == "audio/wav"@,
        (ext == "ogg"@ || ext == "opus"@) ==> mime_of(ext) == "audio/ogg"@,
        ext == "flac"@ ==> mime_of(ext) == "audio/flac"@,
        (ext == "m4a"@ || ext == "aac"@) ==> mime_of(ext) == "audio/mp4"@,
        (ext == "jpg"@ || ext == "jpeg"@) ==> mime_of(ext) == "image/jpeg"@,
        ext == "png"@ ==> mime_of(ext) == "image/png"@,
        ext == "webp"@ ==> mime_of(ext) == "image/webp"@,
        !is_audio_extension(ext) && !is_image_extension(ext) ==> mime_of(ext)
            == "application/octet-stream"@,
{
    lemma_extension_literals();
}

} // verus!
