use media_api::validation::{
    check_extension, check_extension_magic_compatibility, mime_from_extension,
    validate_extension, validate_magic_bytes, FileKind, MAX_FILE_SIZE,
};

#[test]
fn accepts_audio_extension_case_insensitive() {
    assert_eq!(
        validate_extension("episode.MP3", FileKind::Audio).unwrap(),
        "mp3"
    );
}

#[test]
fn rejects_audio_extension_for_image_kind() {
    assert!(validate_extension("cover.mp3", FileKind::Image).is_err());
}

#[test]
fn detects_audio_magic_bytes() {
    assert_eq!(
        validate_magic_bytes(b"ID3\x04\x00\x00\x00\x00\x00\x00\x00\x00", FileKind::Audio).unwrap(),
        "mp3"
    );
    assert_eq!(
        validate_magic_bytes(b"RIFF\x00\x00\x00\x00WAVEfmt ", FileKind::Audio).unwrap(),
        "wav"
    );
}

#[test]
fn detects_image_magic_bytes() {
    assert_eq!(
        validate_magic_bytes(b"\xFF\xD8\xFF\xE0\x00\x10JFIF\x00\x01", FileKind::Image).unwrap(),
        "jpeg"
    );
    assert_eq!(
        validate_magic_bytes(b"\x89PNG\r\n\x1A\n\x00\x00\x00\x0D", FileKind::Image).unwrap(),
        "png"
    );
    assert_eq!(
        validate_magic_bytes(b"RIFF\x00\x00\x00\x00WEBPVP8 ", FileKind::Image).unwrap(),
        "webp"
    );
}

#[test]
fn rejects_renamed_image() {
    let err = check_extension_magic_compatibility("jpg", "png", FileKind::Image).unwrap_err();
    assert!(err.contains("не соответствует"));
}

#[test]
fn rejects_unsupported_image_extension() {
    let err = validate_extension("avatar.gif", FileKind::Image).unwrap_err();
    assert!(err.contains("Недопустимое расширение"));
}

#[test]
fn rejects_non_image_magic_bytes() {
    let err = validate_magic_bytes(b"not an image!", FileKind::Image).unwrap_err();
    assert!(err.contains("не является изображением"));
}

#[test]
fn disallowed_extension_message_lists_allowed_extensions() {
    assert_eq!(
        validate_extension("avatar.GIF", FileKind::Image).unwrap_err(),
        "Недопустимое расширение '.gif'. Разрешены: jpg, jpeg, png, webp"
    );
    assert_eq!(
        validate_extension("talk.mp4", FileKind::Audio).unwrap_err(),
        "Недопустимое расширение '.mp4'. Разрешены: mp3, wav, ogg, flac, opus, m4a, aac"
    );
}

#[test]
fn missing_or_empty_extension_is_refused() {
    assert_eq!(
        validate_extension("episode", FileKind::Audio).unwrap_err(),
        "Файл не имеет расширения"
    );
    assert_eq!(
        validate_extension("episode.", FileKind::Audio).unwrap_err(),
        "Файл не имеет расширения"
    );
    assert_eq!(
        check_extension(String::new(), FileKind::Image).unwrap_err(),
        "Файл не имеет расширения"
    );
}

#[test]
fn extension_is_taken_after_the_last_dot() {
    assert_eq!(
        validate_extension("my.podcast.v2.Flac", FileKind::Audio).unwrap(),
        "flac"
    );
    assert_eq!(validate_extension(".JPEG", FileKind::Image).unwrap(), "jpeg");
}

#[test]
fn extension_case_does_not_matter() {
    for name in ["cover.png", "cover.PNG", "cover.Png", "COVER.pNg"] {
        assert_eq!(validate_extension(name, FileKind::Image).unwrap(), "png");
    }
}

#[test]
fn non_ascii_extension_is_lowercased_before_the_check() {
    let err = validate_extension("файл.МП3", FileKind::Audio).unwrap_err();
    assert!(err.starts_with("Недопустимое расширение '.мп3'"));
}

#[test]
fn detects_every_audio_header() {
    let mut flac = b"fLaC".to_vec();
    flac.extend_from_slice(&[0u8; 8]);
    assert_eq!(validate_magic_bytes(&flac, FileKind::Audio).unwrap(), "flac");
    let mut ogg = b"OggS".to_vec();
    ogg.extend_from_slice(&[0u8; 8]);
    assert_eq!(validate_magic_bytes(&ogg, FileKind::Audio).unwrap(), "ogg");
    let aac = [0xFF, 0xF1, 0x50, 0x80, 0, 0, 0, 0, 0, 0, 0, 0];
    assert_eq!(validate_magic_bytes(&aac, FileKind::Audio).unwrap(), "aac");
    let mpeg = [0xFF, 0xFB, 0x90, 0x64, 0, 0, 0, 0, 0, 0, 0, 0];
    assert_eq!(validate_magic_bytes(&mpeg, FileKind::Audio).unwrap(), "mp3");
    let mut m4a = vec![0, 0, 0, 0x20];
    m4a.extend_from_slice(b"ftypM4A ");
    assert_eq!(validate_magic_bytes(&m4a, FileKind::Audio).unwrap(), "m4a");
}

#[test]
fn audio_detection_errors() {
    assert_eq!(
        validate_magic_bytes(b"ID3", FileKind::Audio).unwrap_err(),
        "Файл слишком мал для определения формата"
    );
    assert_eq!(
        validate_magic_bytes(b"hello world!", FileKind::Audio).unwrap_err(),
        "Не удалось определить формат по заголовку файла. Файл не является аудио."
    );
    assert_eq!(
        validate_magic_bytes(b"tiny", FileKind::Image).unwrap_err(),
        "Файл слишком мал для определения формата"
    );
}

#[test]
fn compatibility_rules() {
    assert!(check_extension_magic_compatibility("mp3", "mp3", FileKind::Audio).is_ok());
    assert!(check_extension_magic_compatibility("opus", "ogg", FileKind::Audio).is_ok());
    assert!(check_extension_magic_compatibility("aac", "m4a", FileKind::Audio).is_ok());
    assert!(check_extension_magic_compatibility("m4a", "aac", FileKind::Audio).is_ok());
    assert!(check_extension_magic_compatibility("ogg", "opus", FileKind::Audio).is_err());
    assert!(check_extension_magic_compatibility("jpg", "jpeg", FileKind::Image).is_ok());
    assert!(check_extension_magic_compatibility("jpeg", "jpeg", FileKind::Image).is_ok());
    assert!(check_extension_magic_compatibility("webp", "webp", FileKind::Image).is_ok());
    assert_eq!(
        check_extension_magic_compatibility("wav", "mp3", FileKind::Audio).unwrap_err(),
        "Расширение '.wav' не соответствует реальному формату 'mp3'. Файл переименован?"
    );
}

#[test]
fn content_types() {
    assert_eq!(mime_from_extension("mp3"), "audio/mpeg");
    assert_eq!(mime_from_extension("wav"), "audio/wav");
    assert_eq!(mime_from_extension("ogg"), "audio/ogg");
    assert_eq!(mime_from_extension("opus"), "audio/ogg");
    assert_eq!(mime_from_extension("flac"), "audio/flac");
    assert_eq!(mime_from_extension("m4a"), "audio/mp4");
    assert_eq!(mime_from_extension("aac"), "audio/mp4");
    assert_eq!(mime_from_extension("jpg"), "image/jpeg");
    assert_eq!(mime_from_extension("jpeg"), "image/jpeg");
    assert_eq!(mime_from_extension("png"), "image/png");
    assert_eq!(mime_from_extension("webp"), "image/webp");
    assert_eq!(mime_from_extension("gif"), "application/octet-stream");
}

#[test]
fn accepted_extensions_map_to_their_family() {
    for ext in ["mp3", "wav", "ogg", "flac", "opus", "m4a", "aac"] {
        assert!(mime_from_extension(ext).starts_with("audio/"));
    }
    for ext in ["jpg", "jpeg", "png", "webp"] {
        assert!(mime_from_extension(ext).starts_with("image/"));
    }
}

#[test]
fn size_limit_is_fifty_mebibytes() {
    assert_eq!(MAX_FILE_SIZE, 50 * 1024 * 1024);
}
