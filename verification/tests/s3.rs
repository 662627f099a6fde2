use media_api::s3::{
    after_create_bucket, after_head_bucket, bucket_unavailable_message,
    create_bucket_failed_message, delete_failed_message, env_value, public_url, s3_url,
    should_create_bucket, upload_failed_message, BucketProbe, Config, ConfigError,
};

#[test]
fn public_url_uses_endpoint_without_duplicate_separator() {
    assert_eq!(
        public_url(
            "https://s3.twcstorage.ru/",
            "bucket",
            "media/uploads/avatar/file.jpeg"
        ),
        "https://s3.twcstorage.ru/bucket/media/uploads/avatar/file.jpeg"
    );
}

#[test]
fn public_url_with_and_without_trailing_slashes_agree() {
    let plain = public_url("https://s3.example", "b", "k.mp3");
    assert_eq!(plain, "https://s3.example/b/k.mp3");
    assert_eq!(public_url("https://s3.example//", "b", "k.mp3"), plain);
}

#[test]
fn s3_locator_format() {
    assert_eq!(
        s3_url("bucket", "media/uploads/podcast_file/x/y.mp3"),
        "s3://bucket/media/uploads/podcast_file/x/y.mp3"
    );
}

#[test]
fn env_values_are_trimmed_and_blank_is_missing() {
    assert_eq!(env_value(Some("  ru-2 \n")), Some("ru-2".to_string()));
    assert_eq!(env_value(Some(" \t ")), None);
    assert_eq!(env_value(None), None);
}

#[test]
fn config_defaults_and_requirements() {
    let c = Config::from_env(None, Some("key"), Some(" secret "), None).unwrap();
    assert_eq!(c.region, "ru-1");
    assert_eq!(c.endpoint_url, "https://s3.twcstorage.ru");
    assert_eq!(c.access_key_id, "key");
    assert_eq!(c.secret_access_key, "secret");

    let c = Config::from_env(Some("eu"), Some("k"), Some("s"), Some("http://minio:9000")).unwrap();
    assert_eq!(c.region, "eu");
    assert_eq!(c.endpoint_url, "http://minio:9000");

    let e = Config::from_env(None, None, None, None).err().unwrap();
    assert_eq!(e, ConfigError::MissingAccessKeyId);
    assert_eq!(e.message(), "S3_ACCESS_KEY_ID is required");
    let e = Config::from_env(None, Some("k"), Some("  "), None).err().unwrap();
    assert_eq!(e, ConfigError::MissingSecretAccessKey);
    assert_eq!(e.message(), "S3_SECRET_ACCESS_KEY is required");
}

#[test]
fn create_bucket_flag() {
    assert!(should_create_bucket(Some("true")));
    assert!(should_create_bucket(Some("TRUE")));
    assert!(should_create_bucket(Some("True")));
    assert!(should_create_bucket(Some("1")));
    assert!(!should_create_bucket(Some("yes")));
    assert!(!should_create_bucket(Some(" true")));
    assert!(!should_create_bucket(None));
}

#[test]
fn bucket_decisions() {
    assert_eq!(after_head_bucket(true, false), BucketProbe::Available);
    assert_eq!(after_head_bucket(false, true), BucketProbe::Create);
    assert_eq!(after_head_bucket(false, false), BucketProbe::Unavailable);
    assert!(after_create_bucket(true, None));
    assert!(after_create_bucket(false, Some("BucketAlreadyOwnedByYou")));
    assert!(!after_create_bucket(false, Some("AccessDenied")));
    assert!(!after_create_bucket(false, None));
}

#[test]
fn storage_messages() {
    assert_eq!(
        bucket_unavailable_message("b"),
        "bucket 'b' is not available; check S3_BUCKET and credentials, or set S3_CREATE_BUCKET=true for local S3-compatible storage"
    );
    assert_eq!(create_bucket_failed_message("b"), "create_bucket failed for b");
    assert_eq!(upload_failed_message("b", "k"), "error uploading 'k' to bucket 'b'");
    assert_eq!(delete_failed_message("b", "k"), "error deleting object 'k' from bucket 'b'");
}
