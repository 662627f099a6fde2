use media_api::auth::{AuthUser, Claims};
use media_api::kafka::{MediaEvent, MediaObjectType, Timestamp};
use media_api::upload::{
    file_read_error, finish_upload, matches_field, normalize_text_field, object_key,
    plan_storage, text_read_error, validate_uuid_value, FieldAction, FileIntake, ObjectIdSource,
    UploadConfig, UploadParser, UploadResponse, UploadStatus,
};
use media_api::uuid_format::canonical_uuid;
use media_api::validation::FileKind;

const PODCAST: &str = "22222222-2222-4222-8222-222222222222";

fn png_bytes() -> Vec<u8> {
    let mut v = b"\x89PNG\r\n\x1A\n\x00\x00\x00\x0D".to_vec();
    v.extend_from_slice(&[7u8; 20]);
    v
}

fn user(id: &str) -> AuthUser {
    AuthUser(Claims { sub: String::new(), user_id: Some(id.to_string()), exp: 0, iat: 0 })
}

#[test]
fn uuid_forms_are_canonicalised() {
    let canon = "550e8400-e29b-41d4-a716-446655440000";
    assert_eq!(canonical_uuid(canon).unwrap(), canon);
    assert_eq!(canonical_uuid("550E8400-E29B-41D4-A716-446655440000").unwrap(), canon);
    assert_eq!(canonical_uuid("550e8400e29b41d4a716446655440000").unwrap(), canon);
    assert_eq!(canonical_uuid("{550e8400-e29b-41d4-a716-446655440000}").unwrap(), canon);
    assert_eq!(canonical_uuid("URN:uuid:550e8400-e29b-41d4-a716-446655440000").unwrap(), canon);
    assert!(canonical_uuid("550e8400-e29b-41d4-a716-44665544000g").is_none());
    assert!(canonical_uuid("550e8400_e29b_41d4_a716_446655440000").is_none());
    assert!(canonical_uuid("not a uuid").is_none());
}

#[test]
fn uuid_field_checks() {
    assert_eq!(validate_uuid_value("  11111111-1111-4111-8111-111111111111 ", "id_podcast").ok().unwrap(),
        "11111111-1111-4111-8111-111111111111");
    let e = validate_uuid_value("   ", "id_podcast").err().unwrap();
    assert_eq!(e.status, UploadStatus::BadRequest);
    assert_eq!(e.message, "Поле id_podcast не должно быть пустым");
    let e = validate_uuid_value("42", "id_playlist").err().unwrap();
    assert_eq!(e.status.code(), 400);
    assert_eq!(e.message, "Поле id_playlist должно быть UUID");
}

#[test]
fn text_fields() {
    assert_eq!(normalize_text_field("  abc\t", "id_podcast").ok().unwrap(), "abc");
    let e = normalize_text_field(" ", "id_podcast").err().unwrap();
    assert_eq!(e.message, "Поле id_podcast не должно быть пустым");
    let e = text_read_error("id_podcast", "stream closed");
    assert_eq!(e.message, "Ошибка чтения id_podcast: stream closed");
    assert_eq!(file_read_error("eof").message, "Ошибка чтения данных файла: eof");
}

#[test]
fn statuses() {
    assert_eq!(UploadStatus::Success.code(), 200);
    assert_eq!(UploadStatus::BadRequest.code(), 400);
    assert_eq!(UploadStatus::PayloadTooLarge.code(), 413);
    assert_eq!(UploadStatus::UnsupportedMediaType.code(), 415);
    assert_eq!(UploadStatus::InternalServerError.code(), 500);
}

#[test]
fn route_settings() {
    let a = UploadConfig::audio_upload();
    assert_eq!(a.media_type, MediaObjectType::PodcastFile);
    assert_eq!(a.file_kind, FileKind::Audio);
    assert_eq!(a.file_field, "audio");
    assert!(matches_field(a.object_id_source, "id_podcast"));
    assert!(!matches_field(a.object_id_source, "audio"));
    let p = UploadConfig::profile_cover_upload();
    assert_eq!(p.media_type, MediaObjectType::Avatar);
    assert!(matches!(p.object_id_source, ObjectIdSource::JwtSubject));
    assert!(!matches_field(p.object_id_source, "id_podcast"));
    let c = UploadConfig::podcast_cover_upload();
    assert_eq!(c.media_type, MediaObjectType::PodcastCover);
    assert_eq!(c.file_field, "image");
    let l = UploadConfig::playlist_cover_upload();
    assert_eq!(l.media_type, MediaObjectType::Playlists);
    assert!(matches_field(l.object_id_source, "id_playlist"));
}

#[test]
fn intake_accepts_a_file_in_small_chunks() {
    let data = png_bytes();
    let mut intake = FileIntake::start(Some("cover.PNG"), FileKind::Image).ok().unwrap();
    for chunk in data.chunks(5) {
        intake = intake.accept_chunk(chunk).ok().unwrap();
    }
    let file = intake.finish().ok().unwrap();
    assert_eq!(file.filename(), "cover.PNG");
    assert_eq!(file.extension(), "png");
    assert_eq!(file.size(), data.len());
    assert_eq!(file.content_type(), "image/png");
    assert_eq!(file.bytes(), &data[..]);
    assert_eq!(file.into_bytes(), data);
}

#[test]
fn intake_refusals() {
    let e = FileIntake::start(Some("cover.gif"), FileKind::Image).err().unwrap();
    assert_eq!(e.status, UploadStatus::UnsupportedMediaType);
    let e = FileIntake::start(None, FileKind::Image).err().unwrap();
    assert_eq!(e.message, "Файл не имеет расширения");

    let intake = FileIntake::start(Some("cover.jpg"), FileKind::Image).ok().unwrap();
    let e = intake.accept_chunk(&png_bytes()).err().unwrap();
    assert_eq!(e.status, UploadStatus::BadRequest);
    assert_eq!(e.message, "Расширение '.jpg' не соответствует реальному формату 'png'. Файл переименован?");

    let intake = FileIntake::start(Some("cover.png"), FileKind::Image).ok().unwrap();
    let e = intake.accept_chunk(b"not an image at all").err().unwrap();
    assert_eq!(e.status, UploadStatus::UnsupportedMediaType);

    let intake = FileIntake::start(Some("a.png"), FileKind::Image).ok().unwrap();
    let e = intake.finish().err().unwrap();
    assert_eq!(e.message, "Файл пустой");

    let intake = FileIntake::start(Some("a.png"), FileKind::Image).ok().unwrap();
    let intake = intake.accept_chunk(b"\x89PNG").ok().unwrap();
    let e = intake.finish().err().unwrap();
    assert_eq!(e.status, UploadStatus::BadRequest);
    assert_eq!(e.message, "Файл слишком мал для определения формата");
}

#[test]
fn intake_refuses_files_over_the_limit() {
    let big = vec![0u8; 50 * 1024 * 1024 + 1];
    let intake = FileIntake::start(Some("a.png"), FileKind::Image).ok().unwrap();
    let e = intake.accept_chunk(&big).err().unwrap();
    assert_eq!(e.status, UploadStatus::PayloadTooLarge);
    assert_eq!(e.message, "Файл слишком большой: 50 MB (максимум: 50 MB)");

    let intake = FileIntake::start(Some("a.png"), FileKind::Image).ok().unwrap();
    let intake = intake.accept_chunk(&png_bytes()).ok().unwrap();
    let rest = vec![0u8; 60 * 1024 * 1024];
    let e = intake.accept_chunk(&rest).err().unwrap();
    assert_eq!(e.message, "Файл слишком большой: 60 MB (максимум: 50 MB)");
}

#[test]
fn parser_reads_a_complete_form() {
    let config = UploadConfig::podcast_cover_upload();
    let parser = UploadParser::start(config, &user("ignored")).ok().unwrap();
    assert_eq!(parser.on_field("comment").ok().unwrap(), FieldAction::Skip);
    assert_eq!(parser.on_field("id_podcast").ok().unwrap(), FieldAction::ReadObjectId);
    let parser = parser.on_object_id_text("id_podcast", Ok(" 22222222-2222-4222-8222-222222222222 ")).ok().unwrap();
    assert_eq!(parser.on_field("image").ok().unwrap(), FieldAction::ReadFile);
    let mut parser = parser.begin_file(Some("cover.png")).ok().unwrap();
    for chunk in png_bytes().chunks(7) {
        parser = parser.file_chunk(chunk).ok().unwrap();
    }
    let parser = parser.end_file().ok().unwrap();
    let parsed = parser.finish().ok().unwrap();
    assert_eq!(parsed.object_id, PODCAST);
    assert_eq!(parsed.file.extension(), "png");
}

#[test]
fn parser_refusals_and_error_events() {
    let config = UploadConfig::podcast_cover_upload();
    // a missing id is refused without an event
    let parser = UploadParser::start(config, &user("x")).ok().unwrap();
    let r = parser.finish().err().unwrap();
    assert_eq!(r.message, "Поле id_podcast обязательно");
    assert!(r.event_object_id.is_none());

    // an id that is no UUID is refused without an event
    let parser = UploadParser::start(config, &user("x")).ok().unwrap();
    let r = parser.on_object_id_text("id_podcast", Ok("nope")).err().unwrap();
    assert_eq!(r.message, "Поле id_podcast должно быть UUID");
    assert!(r.event_object_id.is_none());

    // once the id is known, refusals publish an event for it
    let parser = UploadParser::start(config, &user("x")).ok().unwrap();
    let parser = parser.on_object_id_text("id_podcast", Ok(PODCAST)).ok().unwrap();
    let r = parser.on_field("id_podcast").err().unwrap();
    assert_eq!(r.message, "Поле id_podcast передано несколько раз");
    assert_eq!(r.event_object_id.as_deref(), Some(PODCAST));
    let r = parser.multipart_error("boundary");
    assert_eq!(r.message, "Ошибка чтения multipart: boundary");
    assert_eq!(r.event_object_id.as_deref(), Some(PODCAST));
    let r = parser.file_read_failed("reset");
    assert_eq!(r.event_object_id.as_deref(), Some(PODCAST));
    let r = parser.begin_file(Some("cover.bmp")).err().unwrap();
    assert_eq!(r.status, UploadStatus::UnsupportedMediaType);
    assert_eq!(r.event_object_id.as_deref(), Some(PODCAST));

    let parser = UploadParser::start(config, &user("x")).ok().unwrap();
    let parser = parser.on_object_id_text("id_podcast", Ok(PODCAST)).ok().unwrap();
    let r = parser.finish().err().unwrap();
    assert_eq!(r.message, "Файл не найден в запросе");
    assert_eq!(r.event_object_id.as_deref(), Some(PODCAST));
    let resp: UploadResponse = r.response();
    assert!(!resp.success);
    assert_eq!(resp.error.as_deref(), Some("Файл не найден в запросе"));
    assert!(resp.url.is_none());
}

#[test]
fn avatar_id_comes_from_the_token() {
    let config = UploadConfig::profile_cover_upload();
    let parser = UploadParser::start(config, &user("33333333-3333-4333-8333-333333333333")).ok().unwrap();
    assert_eq!(parser.on_field("id_podcast").ok().unwrap(), FieldAction::Skip);
    let r = parser.finish().err().unwrap();
    assert_eq!(r.event_object_id.as_deref(), Some("33333333-3333-4333-8333-333333333333"));

    let r = UploadParser::start(config, &user("bad")).err().unwrap();
    assert_eq!(r.message, "Поле JWT sub должно быть UUID");
    assert!(r.event_object_id.is_none());
}

#[test]
fn object_keys_and_outcomes() {
    assert_eq!(
        object_key(MediaObjectType::PodcastFile, "o", "u", "mp3"),
        "media/uploads/podcast_file/o/u.mp3"
    );
    let config = UploadConfig::podcast_cover_upload();
    let parser = UploadParser::start(config, &user("x")).ok().unwrap();
    let parser = parser.on_object_id_text("id_podcast", Ok(PODCAST)).ok().unwrap();
    let parser = parser.begin_file(Some("cover.png")).ok().unwrap();
    let parser = parser.file_chunk(&png_bytes()).ok().unwrap();
    let parsed = parser.end_file().ok().unwrap().finish().ok().unwrap();
    let plan = plan_storage(&config, &parsed, "bucket", "https://s3.twcstorage.ru/", "up1");
    let key = format!("media/uploads/podcast_cover/{}/up1.png", PODCAST);
    assert_eq!(plan.object_key, key);
    assert_eq!(plan.s3_url, format!("s3://bucket/{}", key));
    assert_eq!(plan.public_url, format!("https://s3.twcstorage.ru/bucket/{}", key));
    assert_eq!(plan.content_type, "image/png");

    let ts = Timestamp { secs: 10, nanos: 0 };
    let done = finish_upload(&config, &parsed, &plan, Ok(()), ts);
    assert_eq!(done.status, UploadStatus::Success);
    assert!(done.response.success);
    assert_eq!(done.response.media_type.as_deref(), Some("podcast_cover"));
    assert_eq!(done.response.url.as_deref(), Some(plan.s3_url.as_str()));
    assert_eq!(done.response.size, Some(png_bytes().len()));
    assert_eq!(done.response.filename.as_deref(), Some("cover.png"));
    assert_eq!(done.response.message.as_deref(), Some("Обложка подкаста сохранена в S3"));
    assert_eq!(done.events.backend.image_url.as_deref(), Some(plan.public_url.as_str()));
    assert!(matches!(done.events.media, MediaEvent::Uploaded { .. }));

    let failed = finish_upload(&config, &parsed, &plan, Err("timeout"), ts);
    assert_eq!(failed.status, UploadStatus::InternalServerError);
    assert_eq!(failed.response.error.as_deref(), Some("Не удалось сохранить файл в S3: timeout"));
    assert_eq!(failed.events.backend.error.as_deref(), Some("Не удалось сохранить файл в S3: timeout"));
}

fn run_intake(name: &str, kind: FileKind, data: &[u8], step: usize) -> Result<Vec<u8>, String> {
    let mut intake = FileIntake::start(Some(name), kind).map_err(|e| e.message)?;
    for chunk in data.chunks(step) {
        intake = intake.accept_chunk(chunk).map_err(|e| e.message)?;
        intake = intake.accept_chunk(&[]).map_err(|e| e.message)?;
    }
    intake.finish().map(|f| f.into_bytes()).map_err(|e| e.message)
}

#[test]
fn chunking_does_not_change_the_outcome() {
    let data = png_bytes();
    for step in [1, 3, 11, 12, 13, 100] {
        assert_eq!(run_intake("a.png", FileKind::Image, &data, step).unwrap(), data);
        assert!(run_intake("a.webp", FileKind::Image, &data, step).is_err());
    }
    let mut wav = b"RIFF\x00\x00\x00\x00WAVEfmt ".to_vec();
    wav.extend_from_slice(&[1u8; 40]);
    for step in [2, 5, 12, 64] {
        assert_eq!(run_intake("x.WAV", FileKind::Audio, &wav, step).unwrap(), wav);
    }
}

#[test]
fn canonical_uuid_is_a_fixed_point() {
    for text in [
        "550E8400E29B41D4A716446655440000",
        "{550e8400-E29B-41d4-a716-446655440000}",
        "urn:UUID:550e8400-e29b-41d4-a716-446655440000",
    ] {
        let c = canonical_uuid(text).unwrap();
        assert_eq!(c.len(), 36);
        assert_eq!(canonical_uuid(&c).unwrap(), c);
    }
}

#[test]
fn parsed_file_is_the_file_received() {
    let config = UploadConfig::audio_upload();
    let mut wav = b"RIFF\x00\x00\x00\x00WAVEfmt ".to_vec();
    wav.extend((0u8..200).collect::<Vec<u8>>());
    let parser = UploadParser::start(config, &user("x")).ok().unwrap();
    let mut parser = parser.begin_file(Some("Episode 1.WAV")).ok().unwrap();
    for chunk in wav.chunks(9) {
        parser = parser.file_chunk(chunk).ok().unwrap();
    }
    let parser = parser.end_file().ok().unwrap();
    let parser = parser.on_object_id_text("id_podcast", Ok(PODCAST)).ok().unwrap();
    let parsed = parser.finish().ok().unwrap();
    assert_eq!(parsed.file.filename(), "Episode 1.WAV");
    assert_eq!(parsed.file.extension(), "wav");
    assert_eq!(parsed.file.size(), wav.len());
    assert_eq!(parsed.file.content_type(), "audio/wav");
    assert_eq!(parsed.file.bytes(), &wav[..]);
}
