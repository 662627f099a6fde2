//! Object-storage settings, object locators, and the decisions that the
//! storage client takes around its calls.

use vstd::prelude::*;

use crate::text::{
    eq_ignore_ascii_case, str_eq, str_eq_ignore_ascii_case, trim, trim_end_char,
    trim_end_matches_char, trim_ws,
};

verus! {

/// The view of an optional string slice.
pub open spec fn opt_str_view(o: Option<&str>) -> Option<Seq<char>> {
    match o {
        Some(s) => Some(s@),
        None => None,
    }
}

/// The view of an optional string.
pub open spec fn opt_string_view(o: Option<String>) -> Option<Seq<char>> {
    match o {
        Some(s) => Some(s@),
        None => None,
    }
}

pub open spec fn default_region() -> Seq<char> {
    "ru-1"@
}

pub open spec fn default_endpoint_url() -> Seq<char> {
    "https://s3.twcstorage.ru"@
}

/// Connection settings of the S3-compatible storage.
pub struct Config {
    pub region: String,
    pub access_key_id: String,
    pub secret_access_key: String,
    pub endpoint_url: String,
}

/// A required setting that is missing.
#[derive(Debug, Clone, Copy, PartialEq, Eq, Structural)]
pub enum ConfigError {
    MissingAccessKeyId,
    MissingSecretAccessKey,
}

pub open spec fn config_error_message(e: ConfigError) -> Seq<char> {
    match e {
        ConfigError::MissingAccessKeyId => "S3_ACCESS_KEY_ID is required"@,
        ConfigError::MissingSecretAccessKey => "S3_SECRET_ACCESS_KEY is required"@,
    }
}

impl ConfigError {
    /// The text that reports the missing setting.
    pub fn message(&self) -> (r: String)
        ensures
            r@ == config_error_message(*self),
    {
        match self {
            ConfigError::MissingAccessKeyId => String::from_str("S3_ACCESS_KEY_ID is required"),
            ConfigError::MissingSecretAccessKey => String::from_str(
                "S3_SECRET_ACCESS_KEY is required",
            ),
        }
    }
}

/// A setting's value as read: trimmed, and absent when nothing but white
/// space is left.
pub open spec fn env_value_spec(raw: Option<Seq<char>>) -> Option<Seq<char>> {
    match raw {
        Some(v) => if trim_ws(v).len() == 0 {
            None
        } else {
            Some(trim_ws(v))
        },
        None => None,
    }
}

/// Normalises the raw value of an environment variable (`None` when unset).
pub fn env_value(raw: Option<&str>) -> (r: Option<String>)
    ensures
        opt_string_view(r) == env_value_spec(opt_str_view(raw)),
{
    match raw {
        Some(v) => {
            let t = trim(v);
            if t.is_empty() {
                None
            } else {
                Some(String::from_str(t))
            }
        },
        None => None,
    }
}

impl Config {
    /// Builds the settings from the raw values of `S3_REGION`,
    /// `S3_ACCESS_KEY_ID`, `S3_SECRET_ACCESS_KEY` and `S3_ENDPOINT_URL`
    /// (`None` for a variable that is unset). Region and endpoint fall back to
    /// their defaults; both keys are required, the access key id checked
    /// first.
    pub fn from_env(
        region: Option<&str>,
        access_key_id: Option<&str>,
        secret_access_key: Option<&str>,
        endpoint_url: Option<&str>,
    ) -> (r: Result<Config, ConfigError>)
        ensures
            r is Ok <==> env_value_spec(opt_str_view(access_key_id)) is Some && env_value_spec(
                opt_str_view(secret_access_key),
            ) is Some,
            r matches Err(e) ==> e == if env_value_spec(opt_str_view(access_key_id)) is None {
                ConfigError::MissingAccessKeyId
            } else {
                ConfigError::MissingSecretAccessKey
            },
            r matches Ok(c) ==> {
                &&& c.region@ == match env_value_spec(opt_str_view(region)) {
                    Some(v) => v,
                    None => default_region(),
                }
                &&& c.access_key_id@ == env_value_spec(opt_str_view(access_key_id)).unwrap()
                &&& c.secret_access_key@ == env_value_spec(opt_str_view(secret_access_key)).unwrap()
                &&& c.endpoint_url@ == match env_value_spec(opt_str_view(endpoint_url)) {
                    Some(v) => v,
                    None => default_endpoint_url(),
                }
            },
    {
        let region = match env_value(region) {
            Some(v) => v,
            None => String::from_str("ru-1"),
        };
        let access_key_id = match env_value(access_key_id) {
            Some(v) => v,
            None => return Err(ConfigError::MissingAccessKeyId),
        };
        let secret_access_key = match env_value(secret_access_key) {
            Some(v) => v,
            None => return Err(ConfigError::MissingSecretAccessKey),
        };
        let endpoint_url = match env_value(endpoint_url) {
            Some(v) => v,
            None => String::from_str("https://s3.twcstorage.ru"),
        };
        Ok(Config { region, access_key_id, secret_access_key, endpoint_url })
    }
}

/// Whether `S3_CREATE_BUCKET` asks for a missing bucket to be created:
/// `true` in any ASCII case, or `1`.
pub open spec fn create_bucket_requested(raw: Option<Seq<char>>) -> bool {
    match raw {
        Some(v) => eq_ignore_ascii_case(v, "true"@) || v == "1"@,
        None => false,
    }
}

/// Reads the raw value of `S3_CREATE_BUCKET` (`None` when unset).
pub fn should_create_bucket(raw: Option<&str>) -> (r: bool)
    ensures
        r == create_bucket_requested(opt_str_view(raw)),
{
    match raw {
        Some(v) => str_eq_ignore_ascii_case(v, "true") || str_eq(v, "1"),
        None => false,
    }
}

/// The locator of an object: `s3://<bucket>/<object_key>`.
pub open spec fn s3_url_spec(bucket: Seq<char>, object_key: Seq<char>) -> Seq<char> {
    "s3://"@ + bucket + "/"@ + object_key
}

/// The HTTP address of an object under the storage endpoint, with the
/// endpoint's trailing slashes dropped so that no separator is doubled.
pub open spec fn public_url_spec(endpoint_url: Seq<char>, bucket: Seq<char>, object_key: Seq<
    char,
>) -> Seq<char> {
    trim_end_char(endpoint_url, '/') + "/"@ + bucket + "/"@ + object_key
}

/// The locator of an object, as the generic event stream reports it.
pub fn s3_url(bucket: &str, object_key: &str) -> (r: String)
    ensures
        r@ == s3_url_spec(bucket@, object_key@),
{
    let mut s = String::from_str("s3://");
    s.append(bucket);
    s.append("/");
    s.append(object_key);
    s
}

/// The HTTP address of an object, as the backend event stream reports it.
pub fn public_url(endpoint_url: &str, bucket: &str, object_key: &str) -> (r: String)
    ensures
        r@ == public_url_spec(endpoint_url@, bucket@, object_key@),
{
    let mut s = String::from_str(trim_end_matches_char(endpoint_url, '/'));
    s.append("/");
    s.append(bucket);
    s.append("/");
    s.append(object_key);
    s
}

/// An endpoint written with trailing slashes gives the same public address
/// as the endpoint without them.
pub proof fn lemma_public_url_ignores_trailing_slash(
    endpoint_url: Seq<char>,
    bucket: Seq<char>,
    object_key: Seq<char>,
)
    ensures
        public_url_spec(endpoint_url.push('/'), bucket, object_key) == public_url_spec(
            endpoint_url,
            bucket,
            object_key,
        ),
{
    assert(endpoint_url.push('/').drop_last() =~= endpoint_url);
}

/// The part of the public address before the bucket never ends with a slash,
/// so bucket and endpoint are parted by exactly one separator.
pub proof fn lemma_endpoint_part_has_no_trailing_slash(endpoint_url: Seq<char>)
    ensures
        trim_end_char(endpoint_url, '/').len() > 0 ==> trim_end_char(endpoint_url, '/').last()
            != '/',
    decreases endpoint_url.len(),
{
    if endpoint_url.len() > 0 && endpoint_url.last() == '/' {
        lemma_endpoint_part_has_no_trailing_slash(endpoint_url.drop_last());
    }
}

// ---------------------------------------------------------------------------
// Decisions around the bucket check
// ---------------------------------------------------------------------------

/// What to do after asking the storage whether the bucket exists.
#[derive(Debug, Clone, Copy, PartialEq, Eq, Structural)]
pub enum BucketProbe {
    /// The bucket is there; nothing more to do.
    Available,
    /// The bucket is not there and may be created.
    Create,
    /// The bucket is not there and may not be created: startup fails.
    Unavailable,
}

/// The step after the bucket probe: the bucket is used when it answers, and
/// created only when creation was asked for.
pub fn after_head_bucket(head_ok: bool, create_allowed: bool) -> (r: BucketProbe)
    ensures
        r == if head_ok {
            BucketProbe::Available
        } else if create_allowed {
            BucketProbe::Create
        } else {
            BucketProbe::Unavailable
        },
{
    if head_ok {
        BucketProbe::Available
    } else if create_allowed {
        BucketProbe::Create
    } else {
        BucketProbe::Unavailable
    }
}

/// Whether the bucket can be used after an attempt to create it: it was
/// created, or the storage says that this account already owns it.
pub fn after_create_bucket(created: bool, error_code: Option<&str>) -> (r: bool)
    ensures
        r == (created || opt_str_view(error_code) == Some("BucketAlreadyOwnedByYou"@)),
{
    if created {
        return true;
    }
    match error_code {
        Some(code) => str_eq(code, "BucketAlreadyOwnedByYou"),
        None => false,
    }
}

pub open spec fn bucket_unavailable_message_spec(bucket: Seq<char>) -> Seq<char> {
    "bucket '"@ + bucket
        + "' is not available; check S3_BUCKET and credentials, or set S3_CREATE_BUCKET=true for local S3-compatible storage"@
}

/// The text that reports a bucket that is missing and may not be created.
pub fn bucket_unavailable_message(bucket: &str) -> (r: String)
    ensures
        r@ == bucket_unavailable_message_spec(bucket@),
{
    let mut s = String::from_str("bucket '");
    s.append(bucket);
    s.append(
        "' is not available; check S3_BUCKET and credentials, or set S3_CREATE_BUCKET=true for local S3-compatible storage",
    );
    s
}

/// The text that reports a failed bucket creation.
pub fn create_bucket_failed_message(bucket: &str) -> (r: String)
    ensures
        r@ == "create_bucket failed for "@ + bucket@,
{
    let mut s = String::from_str("create_bucket failed for ");
    s.append(bucket);
    s
}

pub open spec fn upload_failed_message_spec(bucket: Seq<char>, object_key: Seq<char>) -> Seq<
    char,
> {
    "error uploading '"@ + object_key + "' to bucket '"@ + bucket + "'"@
}

/// The text that reports a failed upload of an object.
pub fn upload_failed_message(bucket: &str, object_key: &str) -> (r: String)
    ensures
        r@ == upload_failed_message_spec(bucket@, object_key@),
{
    let mut s = String::from_str("error uploading '");
    s.append(object_key);
    s.append("' to bucket '");
    s.append(bucket);
    s.append("'");
    s
}

/// The text that reports a failed deletion of an object.
pub fn delete_failed_message(bucket: &str, object_key: &str) -> (r: String)
    ensures
        r@ == "error deleting object '"@ + object_key@ + "' from bucket '"@ + bucket@ + "'"@,
{
    let mut s = String::from_str("error deleting object '");
    s.append(object_key);
    s.append("' from bucket '");
    s.append(bucket);
    s.append("'");
    s
}

} // verus!
