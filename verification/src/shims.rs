//! Trusted bindings over the object-store SDK and the calendar crate.
//! Each item's contract is what its callee's source or documentation
//! plainly shows; nothing here is verified.

use vstd::prelude::*;

verus! {

/// The object-store client handle is opaque to the session logic: it is
/// built, held, dropped on invalidating edits, and handed to the caller
/// for the network calls.
#[verifier::external_type_specification]
#[verifier::external_body]
pub struct ExS3Client(aws_sdk_s3::Client);

/// Relies on `aws_sdk_s3::config::Builder` and `Client::from_conf`:
/// constructs a client bound to the given credentials, region, endpoint,
/// and addressing style. Purely local construction; no network call.
#[verifier::external_body]
pub fn build_s3_client(
    access_key_id: &String,
    secret_access_key: &String,
    region: &String,
    endpoint_url: &String,
    path_style: bool,
) -> aws_sdk_s3::Client {
    let credentials = aws_sdk_s3::config::Credentials::new(
        access_key_id.clone(),
        secret_access_key.clone(),
        None,
        None,
        "postgres-manager",
    );
    let builder = aws_sdk_s3::config::Builder::new()
        .credentials_provider(credentials)
        .region(aws_sdk_s3::config::Region::new(region.clone()))
        .endpoint_url(endpoint_url.clone())
        .behavior_version(aws_sdk_s3::config::BehaviorVersion::latest())
        .force_path_style(path_style);
    aws_sdk_s3::Client::from_conf(builder.build())
}

/// The text of an epoch instant in the listing's date layout. A
/// function of the seconds value alone.
pub uninterp spec fn epoch_display(secs: int) -> Seq<char>;

/// Relies on `chrono::DateTime::from_timestamp` and `format`: renders
/// the instant as `%Y-%m-%d %H:%M:%S` in UTC, a function of the seconds
/// value alone. Out-of-range instants render as chrono's default epoch.
#[verifier::external_body]
pub fn timestamp_text(secs: i64) -> (r: String)
    ensures
        r@ == epoch_display(secs as int),
{
    let dt: chrono::DateTime<chrono::Utc> = chrono::DateTime::from_timestamp(secs, 0)
        .unwrap_or_default();
    dt.format("%Y-%m-%d %H:%M:%S").to_string()
}

} // verus!
