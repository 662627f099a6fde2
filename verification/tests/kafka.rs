use media_api::kafka::{
    combine_publish_results, error_events, producer_settings, start_upload_events,
    uploaded_events, BackendMediaUploadEvent, MediaEvent, MediaObjectType, Timestamp,
    TOPIC_MEDIA, TOPIC_MEDIA_UPLOAD,
};

fn now() -> Timestamp {
    Timestamp { secs: 1_775_563_210, nanos: 5 }
}

#[test]
fn backend_podcast_upload_uses_audio_url_file() {
    let event = BackendMediaUploadEvent::uploaded(
        MediaObjectType::PodcastFile,
        "11111111-1111-4111-8111-111111111111",
        "https://s3.twcstorage.ru/bucket/source.mp3",
        now(),
    );

    assert_eq!(event.object_type, "podcast_file_url");
    assert_eq!(
        event.audio_url_file.as_deref(),
        Some("https://s3.twcstorage.ru/bucket/source.mp3")
    );
    assert!(event.image_url.is_none());
}

#[test]
fn backend_cover_upload_uses_image_url() {
    let event = BackendMediaUploadEvent::uploaded(
        MediaObjectType::PodcastCover,
        "11111111-1111-4111-8111-111111111111",
        "https://s3.twcstorage.ru/bucket/cover.webp",
        now(),
    );

    assert_eq!(event.object_type, "podcast_cover_url");
    assert_eq!(
        event.image_url.as_deref(),
        Some("https://s3.twcstorage.ru/bucket/cover.webp")
    );
    assert!(event.audio_url_file.is_none());
}

#[test]
fn type_names_on_both_topics() {
    let all = [
        (MediaObjectType::PodcastFile, "podcast_file", "podcast_file_url"),
        (MediaObjectType::Avatar, "avatar", "avatar"),
        (MediaObjectType::PodcastCover, "podcast_cover", "podcast_cover_url"),
        (MediaObjectType::Playlists, "playlists", "playlist"),
    ];
    for (t, name, backend) in all {
        assert_eq!(t.as_str(), name);
        assert_eq!(t.backend_as_str(), backend);
    }
    assert_eq!(TOPIC_MEDIA, "media");
    assert_eq!(TOPIC_MEDIA_UPLOAD, "media.upload");
}

#[test]
fn start_events_share_key_and_time() {
    let p = start_upload_events(MediaObjectType::Avatar, "obj", now());
    assert_eq!(p.key, "obj");
    match &p.media {
        MediaEvent::StartUpload { media_type, object_id, started_at } => {
            assert_eq!(*media_type, MediaObjectType::Avatar);
            assert_eq!(object_id, "obj");
            assert_eq!(*started_at, now());
        }
        _ => panic!("wrong event"),
    }
    assert_eq!(p.backend.event, "start_upload");
    assert_eq!(p.backend.object_type, "avatar");
    assert_eq!(p.backend.object_id, "obj");
    assert_eq!(p.backend.timestamp, now());
    assert!(p.backend.error.is_none());
}

#[test]
fn uploaded_events_carry_locator_and_public_address() {
    let p = uploaded_events(
        MediaObjectType::PodcastFile,
        "obj",
        "s3://b/k.mp3",
        "https://s3/b/k.mp3",
        42,
        "audio/mpeg",
        now(),
    );
    match &p.media {
        MediaEvent::Uploaded { url, size, content_type, need_subtitle, .. } => {
            assert_eq!(url, "s3://b/k.mp3");
            assert_eq!(*size, 42);
            assert_eq!(content_type, "audio/mpeg");
            assert!(*need_subtitle);
        }
        _ => panic!("wrong event"),
    }
    assert_eq!(p.backend.event, "uploaded");
    assert_eq!(p.backend.audio_url_file.as_deref(), Some("https://s3/b/k.mp3"));
    assert!(p.backend.image_url.is_none());
}

#[test]
fn error_events_carry_the_message() {
    let p = error_events(MediaObjectType::Playlists, "obj", "boom", now());
    match &p.media {
        MediaEvent::Error { error_message, timestamp, .. } => {
            assert_eq!(error_message, "boom");
            assert_eq!(*timestamp, now());
        }
        _ => panic!("wrong event"),
    }
    assert_eq!(p.backend.object_type, "playlist");
    assert_eq!(p.backend.event, "error");
    assert_eq!(p.backend.error.as_deref(), Some("boom"));
}

#[test]
fn first_publish_failure_is_reported() {
    assert_eq!(combine_publish_results::<&str>(Ok(()), Ok(())), Ok(()));
    assert_eq!(combine_publish_results(Err("a"), Err("b")), Err("a"));
    assert_eq!(combine_publish_results(Ok(()), Err("b")), Err("b"));
    assert_eq!(combine_publish_results(Err("a"), Ok(())), Err("a"));
}

#[test]
fn producer_settings_list() {
    let s = producer_settings("k1:9092,k2:9092");
    assert_eq!(s.len(), 7);
    assert_eq!(s[0], ("bootstrap.servers", "k1:9092,k2:9092".to_string()));
    assert_eq!(s[1], ("message.timeout.ms", "5000".to_string()));
    assert_eq!(s[6], ("socket.keepalive.enable", "true".to_string()));
}
