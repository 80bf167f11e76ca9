//! The snapshot browser session: configuration, client handle, snapshot
//! list and selection, focus and input mode, the active popup, and the
//! download bookkeeping. All state transitions of the session live here.

use vstd::prelude::*;
use crate::models::{
    S3Config, PostgresConfig, InputMode, FocusField, BackupMetadata, ListedObject, PopupState,
    TransferProgress, RateTracker,
};
use crate::text::{
    bool_str, bool_to_str, dec_str, all_digits, digits_val, is_true_ci, parse_port, parse_flag,
    u64_to_dec, join_with, views_of, join_comma,
};
use crate::shims::build_s3_client;
use vstd::multiset::Multiset;

verus! {

broadcast use vstd::seq_lib::group_to_multiset_ensures;

/// Errors from validating a configuration before a connection attempt.
/// Each names the field that is missing.
#[derive(Clone, Copy, PartialEq, Eq, Structural, Debug)]
pub enum ConfigError {
    BucketMissing,
    RegionMissing,
    EndpointMissing,
    AccessKeyMissing,
    SecretKeyMissing,
    PgHostMissing,
    PgPortMissing,
    PgUsernameMissing,
}

impl ConfigError {
    pub open spec fn message_spec(self) -> Seq<char> {
        match self {
            ConfigError::BucketMissing => "Bucket name is required"@,
            ConfigError::RegionMissing => "Region is required"@,
            ConfigError::EndpointMissing => "Endpoint URL is required"@,
            ConfigError::AccessKeyMissing => "Access Key ID is required"@,
            ConfigError::SecretKeyMissing => "Secret Access Key is required"@,
            ConfigError::PgHostMissing => "PostgreSQL host is required"@,
            ConfigError::PgPortMissing => "PostgreSQL port is required"@,
            ConfigError::PgUsernameMissing => "PostgreSQL username is required"@,
        }
    }

    pub fn message(&self) -> (r: String)
        ensures
            r@ == self.message_spec(),
    {
        match self {
            ConfigError::BucketMissing => String::from_str("Bucket name is required"),
            ConfigError::RegionMissing => String::from_str("Region is required"),
            ConfigError::EndpointMissing => String::from_str("Endpoint URL is required"),
            ConfigError::AccessKeyMissing => String::from_str("Access Key ID is required"),
            ConfigError::SecretKeyMissing => String::from_str("Secret Access Key is required"),
            ConfigError::PgHostMissing => String::from_str("PostgreSQL host is required"),
            ConfigError::PgPortMissing => String::from_str("PostgreSQL port is required"),
            ConfigError::PgUsernameMissing => String::from_str("PostgreSQL username is required"),
        }
    }
}

/// Snapshot browser session state.
pub struct SnapshotBrowser {
    pub config: S3Config,
    pub pg_config: PostgresConfig,
    pub s3_client: Option<aws_sdk_s3::Client>,
    pub snapshots: Vec<BackupMetadata>,
    pub selected_idx: Option<usize>,
    pub input_mode: InputMode,
    pub input_buffer: String,
    pub focus: FocusField,
    pub popup_state: PopupState,
    pub temp_file: Option<String>,
}

/// The sequence of complete entries in a raw listing, in listing order.
pub open spec fn filtered_metas(entries: Seq<ListedObject>) -> Seq<BackupMetadata> {
    entries.filter(|e: ListedObject| e.complete()).map_values(|e: ListedObject| e.to_meta())
}

/// Newest first: earlier entries were modified no earlier than later ones.
pub open spec fn sorted_desc(s: Seq<BackupMetadata>) -> bool {
    forall|i: int, j: int|
        0 <= i < j < s.len() ==> #[trigger] s[i].last_modified >= #[trigger] s[j].last_modified
}

impl SnapshotBrowser {
    /// The selection, when present, indexes into the snapshot sequence,
    /// and any transfer progress in an overlay is well formed.
    pub open spec fn wf(self) -> bool {
        &&& (self.selected_idx matches Some(i) ==> i < self.snapshots@.len())
        &&& (self.popup_state matches PopupState::Downloading(_, p) ==> p.wf())
        &&& (self.popup_state matches PopupState::ConfirmCancel(_, p) ==> p.wf())
    }

    pub fn new(config: S3Config, pg_config: PostgresConfig) -> (b: SnapshotBrowser)
        ensures
            b.config == config,
            b.pg_config == pg_config,
            b.s3_client is None,
            b.snapshots@.len() == 0,
            b.selected_idx is None,
            b.input_mode == InputMode::Normal,
            b.input_buffer@.len() == 0,
            b.focus == FocusField::SnapshotList,
            b.popup_state is Hidden,
            b.temp_file is None,
            b.wf(),
    {
        SnapshotBrowser {
            config,
            pg_config,
            s3_client: None,
            snapshots: Vec::new(),
            selected_idx: None,
            input_mode: InputMode::Normal,
            input_buffer: String::new(),
            focus: FocusField::SnapshotList,
            popup_state: PopupState::Hidden,
            temp_file: None,
        }
    }

    /// Validates the object-store settings: each of the five required
    /// fields produces its own named error, checked in a fixed order.
    pub fn verify_s3_settings(&self) -> (r: Result<(), ConfigError>)
        ensures
            r is Ok <==> self.config.connection_fields_complete(),
            self.config.bucket@.len() == 0 ==> r == Err::<(), ConfigError>(
                ConfigError::BucketMissing,
            ),
            self.config.bucket@.len() > 0 && self.config.region@.len() == 0 ==> r == Err::<
                (),
                ConfigError,
            >(ConfigError::RegionMissing),
            self.config.bucket@.len() > 0 && self.config.region@.len() > 0
                && self.config.endpoint_url@.len() == 0 ==> r == Err::<(), ConfigError>(
                ConfigError::EndpointMissing,
            ),
            self.config.bucket@.len() > 0 && self.config.region@.len() > 0
                && self.config.endpoint_url@.len() > 0 && self.config.access_key_id@.len() == 0
                ==> r == Err::<(), ConfigError>(ConfigError::AccessKeyMissing),
            self.config.bucket@.len() > 0 && self.config.region@.len() > 0
                && self.config.endpoint_url@.len() > 0 && self.config.access_key_id@.len() > 0
                && self.config.secret_access_key@.len() == 0 ==> r == Err::<(), ConfigError>(
                ConfigError::SecretKeyMissing,
            ),
    {
        if self.config.bucket.as_str().is_empty() {
            return Err(ConfigError::BucketMissing);
        }
        if self.config.region.as_str().is_empty() {
            return Err(ConfigError::RegionMissing);
        }
        if self.config.endpoint_url.as_str().is_empty() {
            return Err(ConfigError::EndpointMissing);
        }
        if self.config.access_key_id.as_str().is_empty() {
            return Err(ConfigError::AccessKeyMissing);
        }
        if self.config.secret_access_key.as_str().is_empty() {
            return Err(ConfigError::SecretKeyMissing);
        }
        Ok(())
    }

    pub fn set_error(&mut self, message: Option<String>)
        ensures
            final(self).config == (S3Config { error_message: message, ..old(self).config }),
            *final(self) == (SnapshotBrowser { config: final(self).config, ..*old(self) }),
    {
        self.config.error_message = message;
    }

    /// Moves the selection one entry down the list, clamping at the end;
    /// with no selection, selects the first entry if any exists.
    pub fn next(&mut self)
        requires
            old(self).wf(),
        ensures
            move_next_transition(*old(self), *final(self)),
            final(self).wf(),
    {
        match self.selected_idx {
            Some(idx) => {
                let n = self.snapshots.len();
                if idx + 1 < n {
                    self.selected_idx = Some(idx + 1);
                }
            },
            None => {
                if self.snapshots.len() > 0 {
                    self.selected_idx = Some(0);
                }
            },
        }
    }

    /// Moves the selection one entry up the list, clamping at the start;
    /// with no selection, selects the last entry if any exists.
    pub fn previous(&mut self)
        requires
            old(self).wf(),
        ensures
            move_prev_transition(*old(self), *final(self)),
            final(self).wf(),
    {
        match self.selected_idx {
            Some(idx) => {
                if idx > 0 {
                    self.selected_idx = Some(idx - 1);
                }
            },
            None => {
                if self.snapshots.len() > 0 {
                    self.selected_idx = Some(self.snapshots.len() - 1);
                }
            },
        }
    }

    pub fn selected_snapshot(&self) -> (r: Option<&BackupMetadata>)
        requires
            self.wf(),
        ensures
            match r {
                Some(m) => self.selected_idx matches Some(i) && m == self.snapshots@[i as int],
                None => self.selected_idx is None,
            },
    {
        match self.selected_idx {
            Some(idx) => Some(&self.snapshots[idx]),
            None => None,
        }
    }

    /// Moves the focus to its cyclic successor. Always total.
    pub fn advance_focus(&mut self)
        ensures
            *final(self) == (SnapshotBrowser { focus: old(self).focus.next_spec(), ..*old(self) }),
    {
        self.focus = self.focus.next();
    }

    /// The display text of a field: the staging text an edit begins from.
    pub open spec fn field_repr(self, f: FocusField) -> Seq<char> {
        match f {
            FocusField::Bucket => self.config.bucket@,
            FocusField::Region => self.config.region@,
            FocusField::Prefix => self.config.prefix@,
            FocusField::EndpointUrl => self.config.endpoint_url@,
            FocusField::AccessKeyId => self.config.access_key_id@,
            FocusField::SecretAccessKey => self.config.secret_access_key@,
            FocusField::PathStyle => bool_str(self.config.path_style),
            FocusField::PgHost => opt_view(self.pg_config.host),
            FocusField::PgPort => match self.pg_config.port {
                Some(p) => dec_str(p as nat),
                None => Seq::empty(),
            },
            FocusField::PgUsername => opt_view(self.pg_config.username),
            FocusField::PgPassword => opt_view(self.pg_config.password),
            FocusField::PgSsl => bool_str(self.pg_config.use_ssl),
            FocusField::PgDbName => opt_view(self.pg_config.db_name),
            FocusField::SnapshotList => Seq::empty(),
        }
    }

    /// Copies the focused field's text into the edit buffer and enters
    /// editing mode; ignored when already editing or when the snapshot
    /// list is focused.
    pub fn begin_edit(&mut self)
        ensures
            begin_edit_transition(*old(self), *final(self)),
    {
        if self.input_mode == InputMode::Normal && self.focus != FocusField::SnapshotList {
            self.input_buffer = match self.focus {
                FocusField::Bucket => self.config.bucket.clone(),
                FocusField::Region => self.config.region.clone(),
                FocusField::Prefix => self.config.prefix.clone(),
                FocusField::EndpointUrl => self.config.endpoint_url.clone(),
                FocusField::AccessKeyId => self.config.access_key_id.clone(),
                FocusField::SecretAccessKey => self.config.secret_access_key.clone(),
                FocusField::PathStyle => bool_to_str(self.config.path_style),
                FocusField::PgHost => match &self.pg_config.host {
                    Some(h) => h.clone(),
                    None => String::new(),
                },
                FocusField::PgPort => match self.pg_config.port {
                    Some(p) => u64_to_dec(p as u64),
                    None => String::new(),
                },
                FocusField::PgUsername => match &self.pg_config.username {
                    Some(u) => u.clone(),
                    None => String::new(),
                },
                FocusField::PgPassword => match &self.pg_config.password {
                    Some(p) => p.clone(),
                    None => String::new(),
                },
                FocusField::PgSsl => bool_to_str(self.pg_config.use_ssl),
                FocusField::PgDbName => match &self.pg_config.db_name {
                    Some(d) => d.clone(),
                    None => String::new(),
                },
                FocusField::SnapshotList => String::new(),
            };
            self.input_mode = InputMode::Editing;
        }
    }

    /// Discards the edit buffer and returns to normal mode; the focused
    /// field keeps its value.
    pub fn cancel_edit(&mut self)
        ensures
            final(self).input_buffer@.len() == 0,
            *final(self) == (SnapshotBrowser {
                input_mode: InputMode::Normal,
                input_buffer: final(self).input_buffer,
                ..*old(self)
            }),
    {
        self.input_mode = InputMode::Normal;
        self.input_buffer = String::new();
    }

    /// An edit of the port field that cannot be accepted: non-empty text
    /// that is not a decimal number within the 16-bit range.
    pub open spec fn port_rejected(self) -> bool {
        self.focus == FocusField::PgPort && self.input_buffer@.len() > 0 && !(all_digits(
            self.input_buffer@,
        ) && digits_val(self.input_buffer@) <= 65535)
    }

    /// The edit buffer is a canonical rendering of a field value, so the
    /// committed field reads back as exactly this text.
    pub open spec fn buffer_canonical(self) -> bool {
        match self.focus {
            FocusField::PathStyle | FocusField::PgSsl => self.input_buffer@ == bool_str(
                is_true_ci(self.input_buffer@),
            ),
            FocusField::PgPort => self.input_buffer@.len() > 0 && all_digits(self.input_buffer@)
                && digits_val(self.input_buffer@) <= 65535 && self.input_buffer@ == dec_str(
                digits_val(self.input_buffer@),
            ),
            FocusField::SnapshotList => false,
            _ => true,
        }
    }

    /// Parses the edit buffer into the focused field and returns to
    /// normal mode. Committing any object-store field invalidates the
    /// client handle; the result says whether the listing must be
    /// refreshed. A malformed port is rejected with an error popup and
    /// leaves the field unchanged; an empty port clears the field.
    pub fn commit_edit(&mut self) -> (reload: bool)
        requires
            old(self).focus != FocusField::SnapshotList,
        ensures
            commit_transition(*old(self), *final(self)),
            reload == old(self).focus.is_store_field(),
    {
        self.input_mode = InputMode::Normal;
        let mut reload = false;
        match self.focus {
            FocusField::Bucket => {
                self.config.bucket = self.input_buffer.clone();
                self.s3_client = None;
                reload = true;
            },
            FocusField::Region => {
                self.config.region = self.input_buffer.clone();
                self.s3_client = None;
                reload = true;
            },
            FocusField::Prefix => {
                self.config.prefix = self.input_buffer.clone();
                self.s3_client = None;
                reload = true;
            },
            FocusField::EndpointUrl => {
                self.config.endpoint_url = self.input_buffer.clone();
                self.s3_client = None;
                reload = true;
            },
            FocusField::AccessKeyId => {
                self.config.access_key_id = self.input_buffer.clone();
                self.s3_client = None;
                reload = true;
            },
            FocusField::SecretAccessKey => {
                self.config.secret_access_key = self.input_buffer.clone();
                self.s3_client = None;
                reload = true;
            },
            FocusField::PathStyle => {
                self.config.path_style = parse_flag(self.input_buffer.as_str());
                self.s3_client = None;
                reload = true;
            },
            FocusField::PgHost => {
                self.pg_config.host = Some(self.input_buffer.clone());
            },
            FocusField::PgPort => {
                if self.input_buffer.as_str().is_empty() {
                    self.pg_config.port = None;
                } else {
                    match parse_port(self.input_buffer.as_str()) {
                        Some(p) => {
                            self.pg_config.port = Some(p);
                        },
                        None => {
                            self.popup_state = PopupState::Error(
                                String::from_str("Invalid port number"),
                            );
                        },
                    }
                }
            },
            FocusField::PgUsername => {
                self.pg_config.username = Some(self.input_buffer.clone());
            },
            FocusField::PgPassword => {
                self.pg_config.password = Some(self.input_buffer.clone());
            },
            FocusField::PgSsl => {
                self.pg_config.use_ssl = parse_flag(self.input_buffer.as_str());
            },
            FocusField::PgDbName => {
                self.pg_config.db_name = Some(self.input_buffer.clone());
            },
            FocusField::SnapshotList => {},
        }
        reload
    }
}

/// What a "move selection down" does: clamps at the end; with no
/// selection, selects the first entry if any exists. Nothing else moves.
pub open spec fn move_next_transition(pre: SnapshotBrowser, post: SnapshotBrowser) -> bool {
    &&& post == (SnapshotBrowser { selected_idx: post.selected_idx, ..pre })
    &&& match pre.selected_idx {
        Some(i) => post.selected_idx == if i + 1 < pre.snapshots@.len() {
            Some((i + 1) as usize)
        } else {
            Some(i)
        },
        None => post.selected_idx == if pre.snapshots@.len() > 0 {
            Some(0usize)
        } else {
            None::<usize>
        },
    }
}

/// What a "move selection up" does: clamps at the start; with no
/// selection, selects the last entry if any exists. Nothing else moves.
pub open spec fn move_prev_transition(pre: SnapshotBrowser, post: SnapshotBrowser) -> bool {
    &&& post == (SnapshotBrowser { selected_idx: post.selected_idx, ..pre })
    &&& match pre.selected_idx {
        Some(i) => post.selected_idx == if i > 0 {
            Some((i - 1) as usize)
        } else {
            Some(i)
        },
        None => post.selected_idx == if pre.snapshots@.len() > 0 {
            Some((pre.snapshots@.len() - 1) as usize)
        } else {
            None::<usize>
        },
    }
}

/// What `begin_edit` does: from normal mode on an editable field, the
/// field's text is staged and editing begins; otherwise nothing changes.
pub open spec fn begin_edit_transition(pre: SnapshotBrowser, post: SnapshotBrowser) -> bool {
    if pre.input_mode == InputMode::Normal && pre.focus != FocusField::SnapshotList {
        &&& post.input_buffer@ == pre.field_repr(pre.focus)
        &&& post == (SnapshotBrowser {
            input_mode: InputMode::Editing,
            input_buffer: post.input_buffer,
            ..pre
        })
    } else {
        post == pre
    }
}

/// Everything `commit_edit` guarantees, relating the state before
/// the commit to the state after it. Assumes the snapshot list is not
/// the focused field.
pub open spec fn commit_transition(pre: SnapshotBrowser, post: SnapshotBrowser) -> bool {
    &&& (post.input_mode == InputMode::Normal)
    &&& (post.focus == pre.focus)
    &&& (post.snapshots == pre.snapshots)
    &&& (post.selected_idx == pre.selected_idx)
    &&& (post.temp_file == pre.temp_file)
    &&& (post.input_buffer == pre.input_buffer)
    &&& (post.config.error_message == pre.config.error_message)
    &&& (pre.focus.is_store_field() ==> post.s3_client is None)
    &&& (!pre.focus.is_store_field() ==> post.s3_client == pre.s3_client)
    &&& (pre.port_rejected() ==> (post.popup_state matches PopupState::Error(m)
                && m@ == "Invalid port number"@))
    &&& (!pre.port_rejected() ==> post.popup_state == pre.popup_state)
    &&& (pre.focus == FocusField::Bucket ==> post.config.bucket@ == pre.input_buffer@ && post.config == (S3Config {
                bucket: post.config.bucket,
                ..pre.config
            }))
    &&& (pre.focus == FocusField::Region ==> post.config.region@ == pre.input_buffer@ && post.config == (S3Config {
                region: post.config.region,
                ..pre.config
            }))
    &&& (pre.focus == FocusField::Prefix ==> post.config.prefix@ == pre.input_buffer@ && post.config == (S3Config {
                prefix: post.config.prefix,
                ..pre.config
            }))
    &&& (pre.focus == FocusField::EndpointUrl ==> post.config.endpoint_url@ == pre.input_buffer@ && post.config == (S3Config {
                endpoint_url: post.config.endpoint_url,
                ..pre.config
            }))
    &&& (pre.focus == FocusField::AccessKeyId ==> post.config.access_key_id@ == pre.input_buffer@ && post.config == (S3Config {
                access_key_id: post.config.access_key_id,
                ..pre.config
            }))
    &&& (pre.focus == FocusField::SecretAccessKey ==> post.config.secret_access_key@
                == pre.input_buffer@ && post.config == (S3Config {
                secret_access_key: post.config.secret_access_key,
                ..pre.config
            }))
    &&& (pre.focus == FocusField::PathStyle ==> post.config == (S3Config {
                path_style: is_true_ci(pre.input_buffer@),
                ..pre.config
            }))
    &&& (pre.focus.is_store_field() ==> post.pg_config == pre.pg_config)
    &&& (pre.focus.is_db_field() ==> post.config == pre.config)
    &&& (pre.focus == FocusField::PgHost ==> (post.pg_config.host matches Some(h)
                && h@ == pre.input_buffer@ && post.pg_config == PostgresConfig {
                host: post.pg_config.host,
                ..pre.pg_config
            }))
    &&& (pre.focus == FocusField::PgUsername ==> (post.pg_config.username
                matches Some(u) && u@ == pre.input_buffer@ && post.pg_config
                == PostgresConfig { username: post.pg_config.username, ..pre.pg_config }))
    &&& (pre.focus == FocusField::PgPassword ==> (post.pg_config.password
                matches Some(p) && p@ == pre.input_buffer@ && post.pg_config
                == PostgresConfig { password: post.pg_config.password, ..pre.pg_config }))
    &&& (pre.focus == FocusField::PgDbName ==> (post.pg_config.db_name
                matches Some(d) && d@ == pre.input_buffer@ && post.pg_config
                == PostgresConfig { db_name: post.pg_config.db_name, ..pre.pg_config }))
    &&& (pre.focus == FocusField::PgSsl ==> post.pg_config == (PostgresConfig {
                use_ssl: is_true_ci(pre.input_buffer@),
                ..pre.pg_config
            }))
    &&& (pre.focus == FocusField::PgPort && pre.input_buffer@.len() == 0
                ==> post.pg_config == (PostgresConfig { port: None, ..pre.pg_config }))
    &&& (pre.focus == FocusField::PgPort && pre.input_buffer@.len() > 0
                && !pre.port_rejected() ==> (post.pg_config.port matches Some(p)
                && p as nat == digits_val(pre.input_buffer@) && post.pg_config
                == PostgresConfig { port: post.pg_config.port, ..pre.pg_config }))
    &&& (pre.port_rejected() ==> post.pg_config == pre.pg_config)
    // round trip: a canonical buffer is reproduced by the new field text
    &&& (pre.buffer_canonical() ==> post.field_repr(pre.focus) == pre.input_buffer@)
}

/// Law: for a valid edit staged as canonical text, committing it and
/// then beginning a fresh edit of the same field reproduces exactly the
/// committed text in the buffer.
pub proof fn lemma_edit_round_trip(pre: SnapshotBrowser, mid: SnapshotBrowser, post: SnapshotBrowser)
    requires
        pre.focus != FocusField::SnapshotList,
        pre.buffer_canonical(),
        commit_transition(pre, mid),
        begin_edit_transition(mid, post),
    ensures
        post.input_buffer@ == pre.input_buffer@,
{
}

/// Law: committing an edit of any object-store field leaves the client
/// handle absent; a database-field commit leaves it untouched.
pub proof fn lemma_commit_invalidates_client(pre: SnapshotBrowser, post: SnapshotBrowser)
    requires
        commit_transition(pre, post),
    ensures
        pre.focus.is_store_field() ==> post.s3_client is None,
        !pre.focus.is_store_field() ==> post.s3_client == pre.s3_client,
{
}

/// Law: moving the selection in either direction keeps it absent or
/// within the snapshot sequence, and a selection at either end stays
/// put rather than wrapping or leaving the range.
pub proof fn lemma_selection_stays_in_bounds(pre: SnapshotBrowser, post: SnapshotBrowser)
    requires
        pre.wf(),
        move_next_transition(pre, post) || move_prev_transition(pre, post),
    ensures
        post.selected_idx matches Some(i) ==> i < post.snapshots@.len(),
        pre.selected_idx == Some(0usize) && move_prev_transition(pre, post) ==> post.selected_idx
            == Some(0usize),
        (pre.selected_idx matches Some(i) && i + 1 == pre.snapshots@.len()
            && move_next_transition(pre, post)) ==> post.selected_idx == pre.selected_idx,
{
}

/// Law: a well-formed transfer's progress fraction lies between zero
/// and one, reaching one exactly when the byte count reaches the total.
pub proof fn lemma_progress_fraction_bounded(p: TransferProgress)
    requires
        p.wf(),
    ensures
        0 <= p.permille() <= 1000,
        p.is_complete() ==> p.permille() == 1000,
        p.total > 0 && !p.is_complete() ==> p.permille() < 1000,
{
    if p.total > 0 {
        let d = p.downloaded as int;
        let t = p.total as int;
        vstd::arithmetic::div_mod::lemma_div_pos_is_pos(d * 1000, t);
        vstd::arithmetic::div_mod::lemma_div_by_multiple(1000, t);
        if p.is_complete() {
            assert(d * 1000 == 1000 * t);
        } else {
            vstd::arithmetic::div_mod::lemma_div_is_ordered(d * 1000, (t - 1) * 1000, t);
            assert((t - 1) * 1000 == 1000 * t - 1000);
            vstd::arithmetic::div_mod::lemma_div_is_ordered((t - 1) * 1000, t * 1000 - 1, t);
            // a quotient strictly under the next multiple stays under 1000
            vstd::arithmetic::div_mod::lemma_div_by_multiple_is_strongly_ordered(
                t * 1000 - 1,
                t * 1000,
                1000,
                t,
            );
        }
    }
}

/// The text of an optional field: its value, or empty when absent.
pub open spec fn opt_view(o: Option<String>) -> Seq<char> {
    match o {
        Some(s) => s@,
        None => Seq::empty(),
    }
}

/// The connection text the database test reports: host, port, and user
/// as validated, the password (empty when absent), then the TLS part
/// and the database-name part.
pub open spec fn conn_string_spec(pg: PostgresConfig) -> Seq<char> {
    "host="@ + opt_view(pg.host) + " port="@ + (match pg.port {
        Some(p) => dec_str(p as nat),
        None => Seq::<char>::empty(),
    }) + " user="@ + opt_view(pg.username) + " password="@ + opt_view(pg.password) + " "@ + (
    if pg.use_ssl {
        "sslmode=require "@
    } else {
        Seq::<char>::empty()
    }) + (match pg.db_name {
        Some(d) => "dbname="@ + d@,
        None => Seq::<char>::empty(),
    })
}

pub open spec fn has_http_prefix(s: Seq<char>) -> bool {
    s.len() >= 4 && s[0] == 'h' && s[1] == 't' && s[2] == 't' && s[3] == 'p'
}

/// The endpoint handed to the client builder: text already carrying an
/// `http` scheme prefix is kept, anything else gets `http://` in front.
pub open spec fn normalized_endpoint(s: Seq<char>) -> Seq<char> {
    if has_http_prefix(s) {
        s
    } else {
        seq!['h', 't', 't', 'p', ':', '/', '/'] + s
    }
}

pub fn normalize_endpoint(s: &str) -> (r: String)
    ensures
        r@ == normalized_endpoint(s@),
{
    let n: usize = s.unicode_len();
    if n >= 4 && s.get_char(0) == 'h' && s.get_char(1) == 't' && s.get_char(2) == 't' && s.get_char(
        3,
    ) == 'p' {
        String::from_str(s)
    } else {
        let mut r = String::from_str("http://");
        r.append(s);
        proof {
            reveal_strlit("http://");
            assert(r@ =~= normalized_endpoint(s@));
        }
        r
    }
}

proof fn lemma_filtered_snoc(s: Seq<ListedObject>, e: ListedObject)
    ensures
        e.complete() ==> filtered_metas(s.push(e)) == filtered_metas(s).push(e.to_meta()),
        !e.complete() ==> filtered_metas(s.push(e)) == filtered_metas(s),
{
    reveal(Seq::filter);
    assert(s.push(e).drop_last() =~= s);
    assert(s.push(e).last() == e);
    let pred = |x: ListedObject| x.complete();
    let f = |x: ListedObject| x.to_meta();
    if e.complete() {
        assert(s.push(e).filter(pred) == s.filter(pred).push(e));
        assert(s.filter(pred).push(e).map_values(f) =~= s.filter(pred).map_values(f).push(
            e.to_meta(),
        ));
    }
}

/// Orders the metadata newest first. The result holds exactly the given
/// entries.
fn sort_metas_desc(v: Vec<BackupMetadata>) -> (out: Vec<BackupMetadata>)
    ensures
        out@.to_multiset() == v@.to_multiset(),
        sorted_desc(out@),
        out@.len() == v@.len(),
    decreases v@.len(),
{
    let ghost orig = v@;
    let mut rest = v;
    let mut out: Vec<BackupMetadata> = Vec::new();
    proof {
        assert(out@.to_multiset().add(rest@.to_multiset()) =~= orig.to_multiset());
    }
    while rest.len() > 0
        invariant
            out@.to_multiset().add(rest@.to_multiset()) == orig.to_multiset(),
            out@.len() + rest@.len() == orig.len(),
            sorted_desc(out@),
            forall|a: int, b: int|
                0 <= a < out@.len() && 0 <= b < rest@.len() ==> #[trigger] out@[a].last_modified
                    >= #[trigger] rest@[b].last_modified,
        decreases rest@.len(),
    {
        let mut m: usize = 0;
        let mut k: usize = 1;
        while k < rest.len()
            invariant
                0 <= m < k <= rest@.len(),
                rest@.len() > 0,
                forall|t: int|
                    0 <= t < k ==> rest@[m as int].last_modified
                        >= #[trigger] rest@[t].last_modified,
            decreases rest@.len() - k,
        {
            if rest[k].last_modified > rest[m].last_modified {
                m = k;
            }
            k = k + 1;
        }
        let ghost rest_before = rest@;
        let ghost out_before = out@;
        let item = rest.remove(m);
        out.push(item);
        proof {
            assert(rest_before.contains(rest_before[m as int]));
            assert(rest_before.to_multiset().count(item) >= 1);
            assert(out@.to_multiset() =~= out_before.to_multiset().insert(item));
            assert(rest@.to_multiset() =~= rest_before.to_multiset().remove(item));
            assert(out@.to_multiset().add(rest@.to_multiset()) =~= out_before.to_multiset().add(
                rest_before.to_multiset(),
            ));
        }
    }
    proof {
        assert(rest@.to_multiset() =~= Multiset::<BackupMetadata>::empty());
        assert(out@.to_multiset().add(Multiset::<BackupMetadata>::empty()) =~= out@.to_multiset());
        vstd::seq_lib::to_multiset_len(out@);
        vstd::seq_lib::to_multiset_len(orig);
    }
    out
}

impl SnapshotBrowser {
    /// Validates the configuration and, only when it is complete, builds
    /// a fresh client bound to its region, endpoint, credentials, and
    /// addressing style. A validation failure leaves the handle as it
    /// was and records the named error on the configuration.
    pub fn init_s3_client(&mut self) -> (r: Result<(), ConfigError>)
        ensures
            r is Ok <==> old(self).config.connection_fields_complete(),
            r is Ok ==> final(self).s3_client is Some && final(self).config.error_message is None,
            r matches Err(e) ==> final(self).s3_client == old(self).s3_client
                && (final(self).config.error_message matches Some(m) && m@ == e.message_spec()),
            old(self).config.bucket@.len() == 0 ==> r == Err::<(), ConfigError>(
                ConfigError::BucketMissing,
            ),
            old(self).config.bucket@.len() > 0 && old(self).config.region@.len() == 0 ==> r
                == Err::<(), ConfigError>(ConfigError::RegionMissing),
            old(self).config.bucket@.len() > 0 && old(self).config.region@.len() > 0 && old(
                self,
            ).config.endpoint_url@.len() == 0 ==> r == Err::<(), ConfigError>(
                ConfigError::EndpointMissing,
            ),
            old(self).config.bucket@.len() > 0 && old(self).config.region@.len() > 0 && old(
                self,
            ).config.endpoint_url@.len() > 0 && old(self).config.access_key_id@.len() == 0 ==> r
                == Err::<(), ConfigError>(ConfigError::AccessKeyMissing),
            old(self).config.bucket@.len() > 0 && old(self).config.region@.len() > 0 && old(
                self,
            ).config.endpoint_url@.len() > 0 && old(self).config.access_key_id@.len() > 0 && old(
                self,
            ).config.secret_access_key@.len() == 0 ==> r == Err::<(), ConfigError>(
                ConfigError::SecretKeyMissing,
            ),
            final(self).config == (S3Config {
                error_message: final(self).config.error_message,
                ..old(self).config
            }),
            *final(self) == (SnapshotBrowser {
                config: final(self).config,
                s3_client: final(self).s3_client,
                ..*old(self)
            }),
    {
        match self.verify_s3_settings() {
            Err(e) => {
                self.set_error(Some(e.message()));
                Err(e)
            },
            Ok(()) => {
                self.set_error(None);
                let endpoint = normalize_endpoint(self.config.endpoint_url.as_str());
                let client = build_s3_client(
                    &self.config.access_key_id,
                    &self.config.secret_access_key,
                    &self.config.region,
                    &endpoint,
                    self.config.path_style,
                );
                self.s3_client = Some(client);
                Ok(())
            },
        }
    }

    /// Replaces the snapshot sequence with the complete entries of a
    /// fresh listing, newest first. Entries missing a key, size, or
    /// timestamp are dropped. A prior valid selection is clamped to the
    /// new bounds; otherwise the first entry is selected when one exists.
    pub fn apply_listing(&mut self, entries: Vec<ListedObject>)
        requires
            old(self).wf(),
        ensures
            final(self).snapshots@.to_multiset() == filtered_metas(entries@).to_multiset(),
            final(self).snapshots@.len() == filtered_metas(entries@).len(),
            sorted_desc(final(self).snapshots@),
            match old(self).selected_idx {
                None => final(self).selected_idx == if final(self).snapshots@.len() > 0 {
                    Some(0usize)
                } else {
                    None::<usize>
                },
                Some(i) => final(self).selected_idx == if final(self).snapshots@.len() == 0 {
                    None::<usize>
                } else if i < final(self).snapshots@.len() {
                    Some(i)
                } else {
                    Some((final(self).snapshots@.len() - 1) as usize)
                },
            },
            *final(self) == (SnapshotBrowser {
                snapshots: final(self).snapshots,
                selected_idx: final(self).selected_idx,
                ..*old(self)
            }),
            final(self).wf(),
    {
        let mut metas: Vec<BackupMetadata> = Vec::new();
        let mut i: usize = 0;
        proof {
            assert(entries@.subrange(0, 0) =~= Seq::<ListedObject>::empty());
            assert(Seq::<ListedObject>::empty().filter(|x: ListedObject| x.complete())
                =~= Seq::<ListedObject>::empty()) by {
                reveal(Seq::filter);
            }
            assert(metas@ =~= filtered_metas(entries@.subrange(0, 0)));
        }
        while i < entries.len()
            invariant
                0 <= i <= entries@.len(),
                metas@ == filtered_metas(entries@.subrange(0, i as int)),
            decreases entries@.len() - i,
        {
            let e = &entries[i];
            match (&e.key, e.size, e.last_modified) {
                (Some(k), Some(sz), Some(lm)) => {
                    metas.push(BackupMetadata { key: k.clone(), size: sz, last_modified: lm });
                },
                _ => {},
            }
            proof {
                lemma_filtered_snoc(entries@.subrange(0, i as int), entries@[i as int]);
                assert(entries@.subrange(0, i + 1) =~= entries@.subrange(0, i as int).push(
                    entries@[i as int],
                ));
            }
            i = i + 1;
        }
        proof {
            assert(entries@.subrange(0, entries@.len() as int) =~= entries@);
        }
        let sorted = sort_metas_desc(metas);
        self.snapshots = sorted;
        let n = self.snapshots.len();
        match self.selected_idx {
            None => {
                if n > 0 {
                    self.selected_idx = Some(0);
                }
            },
            Some(idx) => {
                if n == 0 {
                    self.selected_idx = None;
                } else if idx >= n {
                    self.selected_idx = Some(n - 1);
                }
            },
        }
    }

    /// Validates the database settings and reports the connection string
    /// they describe; only builds the string, never opens a connection.
    pub fn test_pg_connection(&mut self) -> (r: Result<(), ConfigError>)
        ensures
            *final(self) == (SnapshotBrowser {
                popup_state: final(self).popup_state,
                ..*old(self)
            }),
            r is Ok <==> (opt_view(old(self).pg_config.host).len() > 0 && old(
                self,
            ).pg_config.port is Some && opt_view(old(self).pg_config.username).len() > 0),
            opt_view(old(self).pg_config.host).len() == 0 ==> r == Err::<(), ConfigError>(
                ConfigError::PgHostMissing,
            ),
            opt_view(old(self).pg_config.host).len() > 0 && old(self).pg_config.port is None ==> r
                == Err::<(), ConfigError>(ConfigError::PgPortMissing),
            opt_view(old(self).pg_config.host).len() > 0 && old(self).pg_config.port is Some
                && opt_view(old(self).pg_config.username).len() == 0 ==> r == Err::<
                (),
                ConfigError,
            >(ConfigError::PgUsernameMissing),
            r matches Err(e) ==> (final(self).popup_state matches PopupState::Error(m) && m@
                == e.message_spec()),
            r is Ok ==> (final(self).popup_state matches PopupState::TestPgResult(m) && m@
                == "Connection string: "@ + conn_string_spec(old(self).pg_config)),
    {
        let host_ok = match &self.pg_config.host {
            Some(h) => !h.as_str().is_empty(),
            None => false,
        };
        if !host_ok {
            self.popup_state = PopupState::Error(ConfigError::PgHostMissing.message());
            return Err(ConfigError::PgHostMissing);
        }
        let port = match self.pg_config.port {
            Some(p) => p,
            None => {
                self.popup_state = PopupState::Error(ConfigError::PgPortMissing.message());
                return Err(ConfigError::PgPortMissing);
            },
        };
        let user_ok = match &self.pg_config.username {
            Some(u) => !u.as_str().is_empty(),
            None => false,
        };
        if !user_ok {
            self.popup_state = PopupState::Error(ConfigError::PgUsernameMissing.message());
            return Err(ConfigError::PgUsernameMissing);
        }
        let mut conn = String::from_str("host=");
        match &self.pg_config.host {
            Some(h) => conn.append(h.as_str()),
            None => {},
        };
        conn.append(" port=");
        let port_text = u64_to_dec(port as u64);
        conn.append(port_text.as_str());
        conn.append(" user=");
        match &self.pg_config.username {
            Some(u) => conn.append(u.as_str()),
            None => {},
        };
        conn.append(" password=");
        match &self.pg_config.password {
            Some(p) => conn.append(p.as_str()),
            None => {},
        };
        conn.append(" ");
        if self.pg_config.use_ssl {
            conn.append("sslmode=require ");
        }
        match &self.pg_config.db_name {
            Some(d) => {
                conn.append("dbname=");
                conn.append(d.as_str());
            },
            None => {},
        };
        let mut msg = String::from_str("Connection string: ");
        msg.append(conn.as_str());
        proof {
            assert(msg@ =~= "Connection string: "@ + conn_string_spec(self.pg_config));
        }
        self.popup_state = PopupState::TestPgResult(msg);
        Ok(())
    }

    /// Records a successful connection test against the store: the popup
    /// reports the account's bucket names, or "None" when it has none.
    pub fn apply_bucket_listing(&mut self, names: Vec<String>)
        ensures
            *final(self) == (SnapshotBrowser {
                popup_state: final(self).popup_state,
                ..*old(self)
            }),
            final(self).popup_state matches PopupState::TestS3Result(m) && m@
                == "Successfully connected to S3!\nAvailable buckets: "@ + if names@.len() == 0 {
                "None"@
            } else {
                join_with(views_of(names@), seq![',', ' '])
            },
    {
        let mut m = String::from_str("Successfully connected to S3!\nAvailable buckets: ");
        if names.len() == 0 {
            m.append("None");
        } else {
            let joined = join_comma(&names);
            m.append(joined.as_str());
        }
        self.popup_state = PopupState::TestS3Result(m);
    }

    /// Records a failed connection test against the store.
    pub fn bucket_listing_failed(&mut self, message: String)
        ensures
            *final(self) == (SnapshotBrowser {
                popup_state: final(self).popup_state,
                ..*old(self)
            }),
            final(self).popup_state matches PopupState::Error(m) && m@
                == "Failed to connect to S3: "@ + message@,
    {
        let mut m = String::from_str("Failed to connect to S3: ");
        m.append(message.as_str());
        self.popup_state = PopupState::Error(m);
    }

    /// Records a failed listing: the provider's message is surfaced as
    /// an error popup and on the configuration; the previous snapshot
    /// list and selection stay untouched.
    pub fn listing_failed(&mut self, message: String)
        ensures
            final(self).popup_state matches PopupState::Error(m) && m@ == "Failed to list objects: "@
                + message@,
            final(self).config.error_message matches Some(em) && em@
                == "Failed to list objects: "@ + message@,
            final(self).snapshots == old(self).snapshots,
            final(self).selected_idx == old(self).selected_idx,
            final(self).config == (S3Config {
                error_message: final(self).config.error_message,
                ..old(self).config
            }),
            *final(self) == (SnapshotBrowser {
                config: final(self).config,
                popup_state: final(self).popup_state,
                ..*old(self)
            }),
    {
        let mut m = String::from_str("Failed to list objects: ");
        m.append(message.as_str());
        self.config.error_message = Some(m.clone());
        self.popup_state = PopupState::Error(m);
    }
}

impl SnapshotBrowser {
    /// Begins the transfer of the snapshot awaiting confirmation: the
    /// popup becomes a fresh progress display and the temporary file is
    /// recorded. The provider-reported total length must fit the store's
    /// signed 64-bit sizes.
    pub fn start_download(&mut self, total: u64, temp_path: String)
        requires
            old(self).popup_state matches PopupState::ConfirmRestore(_),
            total <= i64::MAX as u64,
        ensures
            old(self).popup_state matches PopupState::ConfirmRestore(s) ==> final(self).popup_state
                == PopupState::Downloading(
                s,
                TransferProgress { downloaded: 0, total, rate_bps: 0 },
            ),
            final(self).temp_file == Some(temp_path),
            *final(self) == (SnapshotBrowser {
                popup_state: final(self).popup_state,
                temp_file: final(self).temp_file,
                ..*old(self)
            }),
            final(self).wf() == old(self).wf(),
    {
        let snap = match &self.popup_state {
            PopupState::ConfirmRestore(s) => s.clone(),
            _ => vstd::pervasive::unreached(),
        };
        self.popup_state = PopupState::Downloading(
            snap,
            TransferProgress { downloaded: 0, total, rate_bps: 0 },
        );
        self.temp_file = Some(temp_path);
    }

    /// Accounts one chunk of the running transfer. Progress advances by
    /// the chunk's length, clamped at the total: it never decreases and
    /// never exceeds the total. The rate is resampled only when at least
    /// half a second has passed since the last sample.
    pub fn record_chunk(&mut self, len: u64, now_millis: u64, tracker: &mut RateTracker)
        requires
            old(self).popup_state matches PopupState::Downloading(_, p) && p.wf() && old(
                tracker,
            ).last_bytes <= p.downloaded,
            old(tracker).last_sample_millis <= now_millis,
        ensures
            ({
                let s = old(self).popup_state->Downloading_0;
                let p = old(self).popup_state->Downloading_1;
                let elapsed = now_millis - old(tracker).last_sample_millis;
                &&& (final(self).popup_state matches PopupState::Downloading(s2, p2) && s2 == s
                    && p2.total == p.total && p2.downloaded == (if p.downloaded + len <= p.total {
                    p.downloaded + len
                } else {
                    p.total as int
                }) && p2.downloaded >= p.downloaded && p2.wf() && (elapsed >= 500
                    ==> p2.rate_bps as int == ((p2.downloaded - old(tracker).last_bytes) * 1000)
                    / elapsed && *final(tracker) == RateTracker {
                    last_sample_millis: now_millis,
                    last_bytes: p2.downloaded,
                }) && (elapsed < 500 ==> p2.rate_bps == p.rate_bps && *final(tracker) == *old(
                    tracker,
                )))
            }),
            *final(self) == (SnapshotBrowser {
                popup_state: final(self).popup_state,
                ..*old(self)
            }),
    {
        let (snap, p) = match &self.popup_state {
            PopupState::Downloading(s, pr) => (s.clone(), *pr),
            _ => vstd::pervasive::unreached(),
        };
        let new_downloaded: u64 = if len <= p.total - p.downloaded {
            p.downloaded + len
        } else {
            p.total
        };
        let elapsed: u64 = now_millis - tracker.last_sample_millis;
        let mut rate: u64 = p.rate_bps;
        if elapsed >= 500 {
            let delta: u64 = new_downloaded - tracker.last_bytes;
            let wide: u128 = (delta as u128) * 1000 / (elapsed as u128);
            proof {
                let d = delta as int;
                let e = elapsed as int;
                vstd::arithmetic::div_mod::lemma_div_is_ordered_by_denominator(d * 1000, 500, e);
                assert(d * 1000 == (2 * d) * 500);
                vstd::arithmetic::div_mod::lemma_div_by_multiple(2 * d, 500);
                assert((d * 1000) / e <= 2 * d);
            }
            rate = wide as u64;
            tracker.last_sample_millis = now_millis;
            tracker.last_bytes = new_downloaded;
        }
        self.popup_state = PopupState::Downloading(
            snap,
            TransferProgress { downloaded: new_downloaded, total: p.total, rate_bps: rate },
        );
    }

    /// Routes a cancel request through confirmation: the running
    /// transfer's progress and rate are captured as they stand. Nothing
    /// is aborted yet.
    pub fn request_cancel(&mut self)
        requires
            old(self).popup_state matches PopupState::Downloading(_, _),
        ensures
            ({
                let s = old(self).popup_state->Downloading_0;
                let p = old(self).popup_state->Downloading_1;
                final(self).popup_state == PopupState::ConfirmCancel(s, p)
            }),
            *final(self) == (SnapshotBrowser {
                popup_state: final(self).popup_state,
                ..*old(self)
            }),
    {
        let (snap, p) = match &self.popup_state {
            PopupState::Downloading(s, pr) => (s.clone(), *pr),
            _ => vstd::pervasive::unreached(),
        };
        self.popup_state = PopupState::ConfirmCancel(snap, p);
    }

    /// Declines a pending cancellation: the transfer resumes with the
    /// captured progress and rate, and the rate baseline restarts at the
    /// current instant.
    pub fn resume_download(&mut self, now_millis: u64, tracker: &mut RateTracker)
        requires
            old(self).popup_state matches PopupState::ConfirmCancel(_, _),
        ensures
            ({
                let s = old(self).popup_state->ConfirmCancel_0;
                let p = old(self).popup_state->ConfirmCancel_1;
                &&& final(self).popup_state == PopupState::Downloading(s, p)
                &&& *final(tracker) == RateTracker {
                    last_sample_millis: now_millis,
                    last_bytes: p.downloaded,
                }
            }),
            *final(self) == (SnapshotBrowser {
                popup_state: final(self).popup_state,
                ..*old(self)
            }),
    {
        let (snap, p) = match &self.popup_state {
            PopupState::ConfirmCancel(s, pr) => (s.clone(), *pr),
            _ => vstd::pervasive::unreached(),
        };
        tracker.last_sample_millis = now_millis;
        tracker.last_bytes = p.downloaded;
        self.popup_state = PopupState::Downloading(snap, p);
    }

    /// Confirms a pending cancellation: the transfer is abandoned, the
    /// temporary file is forgotten, and no artifact remains selected.
    pub fn confirm_cancel(&mut self)
        requires
            old(self).popup_state matches PopupState::ConfirmCancel(_, _),
        ensures
            final(self).popup_state is Hidden,
            final(self).temp_file is None,
            *final(self) == (SnapshotBrowser {
                popup_state: final(self).popup_state,
                temp_file: final(self).temp_file,
                ..*old(self)
            }),
    {
        self.popup_state = PopupState::Hidden;
        self.temp_file = None;
    }

    /// Completes the transfer: only a transfer whose progress has
    /// reached its total can finish. The temporary file becomes the
    /// session's artifact and its path is returned.
    pub fn finish_download(&mut self) -> (r: String)
        requires
            old(self).popup_state matches PopupState::Downloading(_, p) && p.is_complete(),
            old(self).temp_file is Some,
        ensures
            final(self).popup_state matches PopupState::Success(m) && m@ == "Download complete"@,
            final(self).temp_file == old(self).temp_file,
            old(self).temp_file matches Some(t) && r == t,
            *final(self) == (SnapshotBrowser {
                popup_state: final(self).popup_state,
                ..*old(self)
            }),
    {
        let path = match &self.temp_file {
            Some(t) => t.clone(),
            None => vstd::pervasive::unreached(),
        };
        self.popup_state = PopupState::Success(String::from_str("Download complete"));
        path
    }

    /// Records a transfer failure: the error is surfaced and the partial
    /// temporary file is discarded. The session stays usable.
    pub fn fail_download(&mut self, message: String)
        ensures
            final(self).popup_state == PopupState::Error(message),
            final(self).temp_file is None,
            *final(self) == (SnapshotBrowser {
                popup_state: final(self).popup_state,
                temp_file: final(self).temp_file,
                ..*old(self)
            }),
    {
        self.popup_state = PopupState::Error(message);
        self.temp_file = None;
    }

    /// Dismisses the active overlay.
    pub fn clear_popup(&mut self)
        ensures
            final(self).popup_state is Hidden,
            *final(self) == (SnapshotBrowser {
                popup_state: final(self).popup_state,
                ..*old(self)
            }),
    {
        self.popup_state = PopupState::Hidden;
    }
}

} // verus!
