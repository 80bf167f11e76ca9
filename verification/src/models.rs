//! Plain data for the snapshot browser session: the two configuration
//! domains, snapshot metadata, field focus, input mode, popup overlays,
//! and transfer progress.

use vstd::prelude::*;
use crate::text::{mask_key, mask_seq};

verus! {

#[derive(Clone, Copy, PartialEq, Eq, Structural, Debug)]
pub enum InputMode {
    Normal,
    Editing,
}

/// The configuration fields and the snapshot list, in the fixed cyclic
/// focus order. Exactly one value is active at a time.
#[derive(Clone, Copy, PartialEq, Eq, Structural, Debug)]
pub enum FocusField {
    Bucket,
    Region,
    Prefix,
    EndpointUrl,
    AccessKeyId,
    SecretAccessKey,
    PathStyle,
    PgHost,
    PgPort,
    PgUsername,
    PgPassword,
    PgSsl,
    PgDbName,
    SnapshotList,
}

pub const FOCUS_FIELD_COUNT: u64 = 14;

impl FocusField {
    /// The cyclic successor used for "next field" navigation; the cycle
    /// ends and begins at the snapshot list.
    pub open spec fn next_spec(self) -> FocusField {
        match self {
            FocusField::SnapshotList => FocusField::Bucket,
            FocusField::Bucket => FocusField::Region,
            FocusField::Region => FocusField::Prefix,
            FocusField::Prefix => FocusField::EndpointUrl,
            FocusField::EndpointUrl => FocusField::AccessKeyId,
            FocusField::AccessKeyId => FocusField::SecretAccessKey,
            FocusField::SecretAccessKey => FocusField::PathStyle,
            FocusField::PathStyle => FocusField::PgHost,
            FocusField::PgHost => FocusField::PgPort,
            FocusField::PgPort => FocusField::PgUsername,
            FocusField::PgUsername => FocusField::PgPassword,
            FocusField::PgPassword => FocusField::PgSsl,
            FocusField::PgSsl => FocusField::PgDbName,
            FocusField::PgDbName => FocusField::SnapshotList,
        }
    }

    pub fn next(self) -> (r: FocusField)
        ensures
            r == self.next_spec(),
    {
        match self {
            FocusField::SnapshotList => FocusField::Bucket,
            FocusField::Bucket => FocusField::Region,
            FocusField::Region => FocusField::Prefix,
            FocusField::Prefix => FocusField::EndpointUrl,
            FocusField::EndpointUrl => FocusField::AccessKeyId,
            FocusField::AccessKeyId => FocusField::SecretAccessKey,
            FocusField::SecretAccessKey => FocusField::PathStyle,
            FocusField::PathStyle => FocusField::PgHost,
            FocusField::PgHost => FocusField::PgPort,
            FocusField::PgPort => FocusField::PgUsername,
            FocusField::PgUsername => FocusField::PgPassword,
            FocusField::PgPassword => FocusField::PgSsl,
            FocusField::PgSsl => FocusField::PgDbName,
            FocusField::PgDbName => FocusField::SnapshotList,
        }
    }

    /// Whether this field belongs to the object-store configuration;
    /// editing such a field invalidates the client handle.
    pub open spec fn is_store_field(self) -> bool {
        match self {
            FocusField::Bucket
            | FocusField::Region
            | FocusField::Prefix
            | FocusField::EndpointUrl
            | FocusField::AccessKeyId
            | FocusField::SecretAccessKey
            | FocusField::PathStyle => true,
            _ => false,
        }
    }

    pub fn is_store(self) -> (r: bool)
        ensures
            r == self.is_store_field(),
    {
        match self {
            FocusField::Bucket
            | FocusField::Region
            | FocusField::Prefix
            | FocusField::EndpointUrl
            | FocusField::AccessKeyId
            | FocusField::SecretAccessKey
            | FocusField::PathStyle => true,
            _ => false,
        }
    }

    /// Whether this field belongs to the database configuration.
    pub open spec fn is_db_field(self) -> bool {
        match self {
            FocusField::PgHost
            | FocusField::PgPort
            | FocusField::PgUsername
            | FocusField::PgPassword
            | FocusField::PgSsl
            | FocusField::PgDbName => true,
            _ => false,
        }
    }

    pub fn is_db(self) -> (r: bool)
        ensures
            r == self.is_db_field(),
    {
        match self {
            FocusField::PgHost
            | FocusField::PgPort
            | FocusField::PgUsername
            | FocusField::PgPassword
            | FocusField::PgSsl
            | FocusField::PgDbName => true,
            _ => false,
        }
    }
}

pub open spec fn focus_next_n(f: FocusField, n: nat) -> FocusField
    decreases n,
{
    if n == 0 {
        f
    } else {
        focus_next_n(f, (n - 1) as nat).next_spec()
    }
}

/// Law: advancing the focus once per field returns it to its starting
/// value, whatever that value is (cyclic closure).
pub proof fn lemma_focus_cycle(f: FocusField)
    ensures
        focus_next_n(f, FOCUS_FIELD_COUNT as nat) == f,
{
    reveal_with_fuel(focus_next_n, 15);
}

/// Object-store connection settings. A client may only be constructed
/// when bucket, region, endpoint, access key, and secret key are all
/// non-empty; editing any of those five invalidates a built client.
pub struct S3Config {
    pub error_message: Option<String>,
    pub bucket: String,
    pub region: String,
    pub prefix: String,
    pub endpoint_url: String,
    pub access_key_id: String,
    pub secret_access_key: String,
    pub path_style: bool,
}

impl S3Config {
    /// All five fields a client construction requires are present.
    pub open spec fn connection_fields_complete(self) -> bool {
        self.bucket@.len() > 0 && self.region@.len() > 0 && self.endpoint_url@.len() > 0
            && self.access_key_id@.len() > 0 && self.secret_access_key@.len() > 0
    }

    pub fn masked_access_key(&self) -> (r: String)
        ensures
            r@ == mask_seq(self.access_key_id@),
    {
        mask_key(self.access_key_id.as_str())
    }

    pub fn masked_secret_key(&self) -> (r: String)
        ensures
            r@ == mask_seq(self.secret_access_key@),
    {
        mask_key(self.secret_access_key.as_str())
    }
}

impl Default for S3Config {
    fn default() -> (d: Self)
        ensures
            d.error_message is None,
            d.bucket@.len() == 0,
            d.region@.len() == 0,
            d.prefix@.len() == 0,
            d.endpoint_url@.len() == 0,
            d.access_key_id@.len() == 0,
            d.secret_access_key@.len() == 0,
            !d.path_style,
    {
        S3Config {
            error_message: None,
            bucket: String::new(),
            region: String::new(),
            prefix: String::new(),
            endpoint_url: String::new(),
            access_key_id: String::new(),
            secret_access_key: String::new(),
            path_style: false,
        }
    }
}

/// Database connection settings; used only to build a test connection
/// string, never a live session.
pub struct PostgresConfig {
    pub host: Option<String>,
    pub port: Option<u16>,
    pub username: Option<String>,
    pub password: Option<String>,
    pub use_ssl: bool,
    pub db_name: Option<String>,
}

impl Default for PostgresConfig {
    fn default() -> (d: Self)
        ensures
            d.host is None,
            d.port is None,
            d.username is None,
            d.password is None,
            !d.use_ssl,
            d.db_name is None,
    {
        PostgresConfig {
            host: None,
            port: None,
            username: None,
            password: None,
            use_ssl: false,
            db_name: None,
        }
    }
}

/// One backup object as listed from the store: key, size in bytes, and
/// last-modified instant as seconds since the epoch. Immutable once
/// listed.
#[derive(Debug)]
pub struct BackupMetadata {
    pub key: String,
    pub size: i64,
    pub last_modified: i64,
}

impl Clone for BackupMetadata {
    fn clone(&self) -> (r: Self)
        ensures
            r == *self,
    {
        BackupMetadata { key: self.key.clone(), size: self.size, last_modified: self.last_modified }
    }
}

/// A raw listing entry as the store reports it; any of the three parts
/// may be missing. Entries with a missing size or timestamp are dropped
/// during listing.
pub struct ListedObject {
    pub key: Option<String>,
    pub size: Option<i64>,
    pub last_modified: Option<i64>,
}

impl ListedObject {
    pub open spec fn complete(self) -> bool {
        self.key is Some && self.size is Some && self.last_modified is Some
    }

    pub open spec fn to_meta(self) -> BackupMetadata {
        BackupMetadata {
            key: self.key->Some_0,
            size: self.size->Some_0,
            last_modified: self.last_modified->Some_0,
        }
    }
}

/// Progress of a running transfer, in whole bytes. The displayed
/// fraction is `downloaded / total`; the rate is bytes per second.
#[derive(Clone, Copy, PartialEq, Eq, Structural, Debug)]
pub struct TransferProgress {
    pub downloaded: u64,
    pub total: u64,
    pub rate_bps: u64,
}

impl TransferProgress {
    /// The store reports sizes as signed 64-bit, so a well-formed total
    /// fits in one; progress never exceeds the total.
    pub open spec fn wf(self) -> bool {
        self.downloaded <= self.total && self.total <= i64::MAX as u64
    }

    /// The progress fraction in thousandths, 0 through 1000. An empty
    /// object counts as already complete.
    pub open spec fn permille(self) -> int {
        if self.total == 0 {
            1000
        } else {
            (self.downloaded * 1000) / (self.total as int)
        }
    }

    pub open spec fn is_complete(self) -> bool {
        self.downloaded == self.total
    }
}

/// Baseline for throttled rate sampling: the instant and byte count of
/// the last rate sample.
#[derive(Clone, Copy, PartialEq, Eq, Structural, Debug)]
pub struct RateTracker {
    pub last_sample_millis: u64,
    pub last_bytes: u64,
}

/// The mutually exclusive overlays. At most one is active; any active
/// overlay pre-empts base key dispatch.
#[derive(Debug)]
pub enum PopupState {
    Hidden,
    ConfirmRestore(BackupMetadata),
    Downloading(BackupMetadata, TransferProgress),
    ConfirmCancel(BackupMetadata, TransferProgress),
    Error(String),
    Success(String),
    TestS3Result(String),
    TestPgResult(String),
}

impl PopupState {
    pub open spec fn is_hidden(self) -> bool {
        self is Hidden
    }
}

} // verus!
