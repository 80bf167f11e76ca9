//! Renderer data shaping: a pure function of the session to the text of
//! a frame. Tolerates an empty snapshot list, an absent selection, and
//! every overlay; secret fields pass through the masking function.
//! Widget layout and styling are the terminal layer's business, not
//! stated here.

use vstd::prelude::*;
use crate::models::{
    InputMode, BackupMetadata, PopupState, TransferProgress,
};
use crate::browser::{SnapshotBrowser, opt_view};
use crate::text::{bool_str, bool_to_str, dec_str, mask_seq, mask_key, u64_to_dec};
use crate::shims::{epoch_display, timestamp_text};

verus! {

/// Whole hundredths of a mebibyte in `n` bytes; nothing below zero.
pub open spec fn mb_hundredths(n: int) -> int {
    if n <= 0 {
        0
    } else {
        n * 100 / 1048576
    }
}

/// A byte count as mebibytes with two decimals.
pub open spec fn mb_text(n: int) -> Seq<char> {
    let h = mb_hundredths(n);
    dec_str((h / 100) as nat) + seq!['.'] + (if h % 100 < 10 {
        seq!['0'] + dec_str((h % 100) as nat)
    } else {
        dec_str((h % 100) as nat)
    })
}

/// The progress fraction as a percentage with one decimal.
pub open spec fn permille_text(p: TransferProgress) -> Seq<char> {
    dec_str((p.permille() / 10) as nat) + seq!['.'] + dec_str((p.permille() % 10) as nat)
}

/// The transfer line of the downloading and cancel overlays.
pub open spec fn progress_line_spec(p: TransferProgress) -> Seq<char> {
    "Progress: "@ + permille_text(p) + "% ("@ + mb_text(p.rate_bps as int) + " MB/s)"@
}

/// One row of the snapshot list: key, size, and timestamp.
pub open spec fn snapshot_line_spec(m: BackupMetadata) -> Seq<char> {
    m.key@ + " - "@ + mb_text(m.size as int) + " MB - "@ + epoch_display(m.last_modified as int)
}

/// Turns a count of hundredths of a mebibyte into its text.
fn format_hundredths(h: u64) -> (r: String)
    ensures
        r@ == dec_str((h / 100) as nat) + seq!['.'] + (if h % 100 < 10 {
            seq!['0'] + dec_str((h % 100) as nat)
        } else {
            dec_str((h % 100) as nat)
        }),
{
    let mut s = u64_to_dec(h / 100);
    s.append(".");
    let f: u64 = h % 100;
    if f < 10 {
        s.append("0");
    }
    let frac = u64_to_dec(f);
    s.append(frac.as_str());
    proof {
        reveal_strlit(".");
        reveal_strlit("0");
        if f < 10 {
            assert(s@ =~= dec_str((h / 100) as nat) + seq!['.'] + (seq!['0'] + dec_str(
                (h % 100) as nat,
            )));
        } else {
            assert(s@ =~= dec_str((h / 100) as nat) + seq!['.'] + dec_str((h % 100) as nat));
        }
    }
    s
}

/// A size reported by the store, as mebibytes with two decimals.
pub fn format_mb(n: i64) -> (r: String)
    ensures
        r@ == mb_text(n as int),
{
    if n <= 0 {
        format_hundredths(0)
    } else {
        let wide: u128 = (n as u128) * 100 / 1048576;
        proof {
            let x = n as int;
            vstd::arithmetic::div_mod::lemma_div_is_ordered_by_denominator(x * 100, 100, 1048576);
            vstd::arithmetic::div_mod::lemma_div_by_multiple(x, 100);
            assert((x * 100) / 1048576 <= x);
        }
        format_hundredths(wide as u64)
    }
}

/// A transfer rate in bytes per second, as mebibytes per second with
/// two decimals.
pub fn format_rate(rate_bps: u64) -> (r: String)
    ensures
        r@ == mb_text(rate_bps as int),
{
    if rate_bps == 0 {
        format_hundredths(0)
    } else {
        let wide: u128 = (rate_bps as u128) * 100 / 1048576;
        proof {
            let x = rate_bps as int;
            vstd::arithmetic::div_mod::lemma_div_is_ordered_by_denominator(x * 100, 100, 1048576);
            vstd::arithmetic::div_mod::lemma_div_by_multiple(x, 100);
            assert((x * 100) / 1048576 <= x);
        }
        format_hundredths(wide as u64)
    }
}

/// The transfer line of the downloading and cancel overlays.
pub fn progress_line(p: &TransferProgress) -> (r: String)
    requires
        p.wf(),
    ensures
        r@ == progress_line_spec(*p),
{
    let pm: u64 = if p.total == 0 {
        1000
    } else {
        let wide: u128 = (p.downloaded as u128) * 1000 / (p.total as u128);
        proof {
            let d = p.downloaded as int;
            let t = p.total as int;
            vstd::arithmetic::div_mod::lemma_div_is_ordered(d * 1000, t * 1000, t);
            vstd::arithmetic::div_mod::lemma_div_by_multiple(1000, t);
            assert((d * 1000) / t <= 1000);
        }
        wide as u64
    };
    let mut s = String::from_str("Progress: ");
    let whole = u64_to_dec(pm / 10);
    s.append(whole.as_str());
    s.append(".");
    let tenth = u64_to_dec(pm % 10);
    s.append(tenth.as_str());
    s.append("% (");
    let rate = format_rate(p.rate_bps);
    s.append(rate.as_str());
    s.append(" MB/s)");
    proof {
        reveal_strlit(".");
        assert(s@ =~= progress_line_spec(*p));
    }
    s
}

/// One row of the snapshot list: key, size, and timestamp.
pub fn snapshot_line(m: &BackupMetadata) -> (r: String)
    ensures
        r@ == snapshot_line_spec(*m),
{
    let mut s = m.key.clone();
    s.append(" - ");
    let size = format_mb(m.size);
    s.append(size.as_str());
    s.append(" MB - ");
    let ts = timestamp_text(m.last_modified);
    s.append(ts.as_str());
    proof {
        assert(s@ =~= snapshot_line_spec(*m));
    }
    s
}

/// An overlay shaped for drawing: its box title and its text lines.
pub struct PopupView {
    pub title: String,
    pub lines: Vec<String>,
}

/// A frame of the interface as plain text: the settings panes, the
/// snapshot rows, the active overlay, and the status strips.
pub struct FrameModel {
    pub title: String,
    pub s3_lines: Vec<String>,
    pub pg_lines: Vec<String>,
    pub snapshot_lines: Vec<String>,
    pub selected_idx: Option<usize>,
    pub help: String,
    pub edit_line: Option<String>,
    pub popup: Option<PopupView>,
    pub error_line: Option<String>,
}

fn label_line(label: &str, value: &str) -> (r: String)
    ensures
        r@ == label@ + value@,
{
    let mut s = String::from_str(label);
    s.append(value);
    s
}

fn label_line_owned(label: &str, value: &String) -> (r: String)
    ensures
        r@ == label@ + value@,
{
    let mut s = String::from_str(label);
    s.append(value.as_str());
    s
}

fn opt_str<'a>(o: &'a Option<String>) -> (r: &'a str)
    ensures
        r@ == opt_view(*o),
{
    match o {
        Some(s) => s.as_str(),
        None => {
            proof {
                reveal_strlit("");
                assert(""@ =~= Seq::<char>::empty());
            }
            ""
        },
    }
}

/// Shapes one frame from the session. Pure: the session is only read,
/// and every overlay, an empty list, and an absent selection all render.
pub fn render(b: &SnapshotBrowser) -> (f: FrameModel)
    requires
        b.wf(),
    ensures
        f.title@ == "PostgreSQL S3 Backup Manager"@,
        f.s3_lines@.len() == 7,
        f.s3_lines@[0]@ == "Bucket: "@ + b.config.bucket@,
        f.s3_lines@[1]@ == "Region: "@ + b.config.region@,
        f.s3_lines@[2]@ == "Prefix: "@ + b.config.prefix@,
        f.s3_lines@[3]@ == "Endpoint URL: "@ + b.config.endpoint_url@,
        f.s3_lines@[4]@ == "Access Key ID: "@ + mask_seq(b.config.access_key_id@),
        f.s3_lines@[5]@ == "Secret Access Key: "@ + mask_seq(b.config.secret_access_key@),
        f.s3_lines@[6]@ == "Path Style: "@ + bool_str(b.config.path_style),
        f.pg_lines@.len() == 6,
        f.pg_lines@[0]@ == "Host: "@ + opt_view(b.pg_config.host),
        f.pg_lines@[1]@ == "Port: "@ + (match b.pg_config.port {
            Some(p) => dec_str(p as nat),
            None => Seq::<char>::empty(),
        }),
        f.pg_lines@[2]@ == "Username: "@ + opt_view(b.pg_config.username),
        f.pg_lines@[3]@ == "Password: "@ + mask_seq(opt_view(b.pg_config.password)),
        f.pg_lines@[4]@ == "SSL: "@ + bool_str(b.pg_config.use_ssl),
        f.pg_lines@[5]@ == "Database: "@ + opt_view(b.pg_config.db_name),
        f.snapshot_lines@.len() == b.snapshots@.len(),
        forall|i: int|
            0 <= i < b.snapshots@.len() ==> #[trigger] f.snapshot_lines@[i]@ == snapshot_line_spec(
                b.snapshots@[i],
            ),
        f.selected_idx == b.selected_idx,
        b.input_mode == InputMode::Normal ==> f.help@
            == "Press 'q' to quit, 'e' to edit, 't' to test connection, 'r' to refresh, Enter to select"@
            && f.edit_line is None,
        b.input_mode == InputMode::Editing ==> f.help@ == "Press Esc to cancel, Enter to save"@ && (
        f.edit_line matches Some(e) && e@ == b.input_buffer@),
        f.error_line == b.config.error_message,
        b.popup_state is Hidden ==> f.popup is None,
        b.popup_state matches PopupState::ConfirmRestore(s) ==> (f.popup matches Some(pv)
            && pv.title@ == "Confirm Restore"@ && pv.lines@.len() == 3 && pv.lines@[0]@
            == "Are you sure you want to restore this backup '"@ + s.key@ + "'?"@ && pv.lines@[1]@
            == Seq::<char>::empty() && pv.lines@[2]@ == "Press 'y' to confirm, 'n' to cancel"@),
        b.popup_state matches PopupState::Downloading(s, p) ==> (f.popup matches Some(pv)
            && pv.title@ == "Downloading"@ && pv.lines@.len() == 4 && pv.lines@[0]@
            == "Downloading: "@ + s.key@ && pv.lines@[1]@ == progress_line_spec(p) && pv.lines@[2]@
            == Seq::<char>::empty() && pv.lines@[3]@ == "Press Esc to cancel"@),
        b.popup_state matches PopupState::ConfirmCancel(s, p) ==> (f.popup matches Some(pv)
            && pv.title@ == "Confirm Cancel"@ && pv.lines@.len() == 4 && pv.lines@[0]@
            == "Cancel download of: "@ + s.key@ && pv.lines@[1]@ == progress_line_spec(p)
            && pv.lines@[2]@ == Seq::<char>::empty() && pv.lines@[3]@
            == "Press 'y' to confirm cancel, 'n' to continue downloading"@),
        b.popup_state matches PopupState::Error(m) ==> (f.popup matches Some(pv) && pv.title@
            == "Error"@ && pv.lines@.len() == 3 && pv.lines@[0]@ == m@ && pv.lines@[1]@
            == Seq::<char>::empty() && pv.lines@[2]@ == "Press Esc to dismiss"@),
        b.popup_state matches PopupState::Success(m) ==> (f.popup matches Some(pv) && pv.title@
            == "Success"@ && pv.lines@.len() == 1 && pv.lines@[0]@ == m@),
        b.popup_state matches PopupState::TestS3Result(m) ==> (f.popup matches Some(pv)
            && pv.title@ == "Test Result"@ && pv.lines@.len() == 5 && pv.lines@[0]@
            == "S3 Connection Test"@ && pv.lines@[1]@ == Seq::<char>::empty() && pv.lines@[2]@ == m@
            && pv.lines@[3]@ == Seq::<char>::empty() && pv.lines@[4]@ == "Press Esc to dismiss"@),
        b.popup_state matches PopupState::TestPgResult(m) ==> (f.popup matches Some(pv)
            && pv.title@ == "Test Result"@ && pv.lines@.len() == 5 && pv.lines@[0]@
            == "PostgreSQL Connection Test"@ && pv.lines@[1]@ == Seq::<char>::empty()
            && pv.lines@[2]@ == m@ && pv.lines@[3]@ == Seq::<char>::empty() && pv.lines@[4]@
            == "Press Esc to dismiss"@),
{
    let mut s3_lines: Vec<String> = Vec::new();
    s3_lines.push(label_line_owned("Bucket: ", &b.config.bucket));
    s3_lines.push(label_line_owned("Region: ", &b.config.region));
    s3_lines.push(label_line_owned("Prefix: ", &b.config.prefix));
    s3_lines.push(label_line_owned("Endpoint URL: ", &b.config.endpoint_url));
    let masked_access = b.config.masked_access_key();
    s3_lines.push(label_line_owned("Access Key ID: ", &masked_access));
    let masked_secret = b.config.masked_secret_key();
    s3_lines.push(label_line_owned("Secret Access Key: ", &masked_secret));
    let path_style_text = bool_to_str(b.config.path_style);
    s3_lines.push(label_line_owned("Path Style: ", &path_style_text));

    let mut pg_lines: Vec<String> = Vec::new();
    pg_lines.push(label_line("Host: ", opt_str(&b.pg_config.host)));
    let port_text = match b.pg_config.port {
        Some(p) => u64_to_dec(p as u64),
        None => String::new(),
    };
    pg_lines.push(label_line_owned("Port: ", &port_text));
    pg_lines.push(label_line("Username: ", opt_str(&b.pg_config.username)));
    let masked_password = mask_key(opt_str(&b.pg_config.password));
    pg_lines.push(label_line_owned("Password: ", &masked_password));
    let ssl_text = bool_to_str(b.pg_config.use_ssl);
    pg_lines.push(label_line_owned("SSL: ", &ssl_text));
    pg_lines.push(label_line("Database: ", opt_str(&b.pg_config.db_name)));

    let mut snapshot_lines: Vec<String> = Vec::new();
    let mut i: usize = 0;
    while i < b.snapshots.len()
        invariant
            0 <= i <= b.snapshots@.len(),
            snapshot_lines@.len() == i,
            forall|j: int|
                0 <= j < i ==> #[trigger] snapshot_lines@[j]@ == snapshot_line_spec(
                    b.snapshots@[j],
                ),
        decreases b.snapshots@.len() - i,
    {
        let row = snapshot_line(&b.snapshots[i]);
        snapshot_lines.push(row);
        i = i + 1;
    }

    let help = match b.input_mode {
        InputMode::Normal => String::from_str(
            "Press 'q' to quit, 'e' to edit, 't' to test connection, 'r' to refresh, Enter to select",
        ),
        InputMode::Editing => String::from_str("Press Esc to cancel, Enter to save"),
    };
    let edit_line = match b.input_mode {
        InputMode::Normal => None,
        InputMode::Editing => Some(b.input_buffer.clone()),
    };
    let error_line = match &b.config.error_message {
        Some(m) => Some(m.clone()),
        None => None,
    };

    let popup: Option<PopupView> = match &b.popup_state {
        PopupState::Hidden => None,
        PopupState::ConfirmRestore(s) => {
            let mut first = String::from_str("Are you sure you want to restore this backup '");
            first.append(s.key.as_str());
            first.append("'?");
            let mut lines: Vec<String> = Vec::new();
            lines.push(first);
            lines.push(String::new());
            lines.push(String::from_str("Press 'y' to confirm, 'n' to cancel"));
            Some(PopupView { title: String::from_str("Confirm Restore"), lines })
        },
        PopupState::Downloading(s, p) => {
            let mut first = String::from_str("Downloading: ");
            first.append(s.key.as_str());
            let mut lines: Vec<String> = Vec::new();
            lines.push(first);
            lines.push(progress_line(p));
            lines.push(String::new());
            lines.push(String::from_str("Press Esc to cancel"));
            Some(PopupView { title: String::from_str("Downloading"), lines })
        },
        PopupState::ConfirmCancel(s, p) => {
            let mut first = String::from_str("Cancel download of: ");
            first.append(s.key.as_str());
            let mut lines: Vec<String> = Vec::new();
            lines.push(first);
            lines.push(progress_line(p));
            lines.push(String::new());
            lines.push(
                String::from_str("Press 'y' to confirm cancel, 'n' to continue downloading"),
            );
            Some(PopupView { title: String::from_str("Confirm Cancel"), lines })
        },
        PopupState::Error(m) => {
            let mut lines: Vec<String> = Vec::new();
            lines.push(m.clone());
            lines.push(String::new());
            lines.push(String::from_str("Press Esc to dismiss"));
            Some(PopupView { title: String::from_str("Error"), lines })
        },
        PopupState::Success(m) => {
            let mut lines: Vec<String> = Vec::new();
            lines.push(m.clone());
            Some(PopupView { title: String::from_str("Success"), lines })
        },
        PopupState::TestS3Result(m) => {
            let mut lines: Vec<String> = Vec::new();
            lines.push(String::from_str("S3 Connection Test"));
            lines.push(String::new());
            lines.push(m.clone());
            lines.push(String::new());
            lines.push(String::from_str("Press Esc to dismiss"));
            Some(PopupView { title: String::from_str("Test Result"), lines })
        },
        PopupState::TestPgResult(m) => {
            let mut lines: Vec<String> = Vec::new();
            lines.push(String::from_str("PostgreSQL Connection Test"));
            lines.push(String::new());
            lines.push(m.clone());
            lines.push(String::new());
            lines.push(String::from_str("Press Esc to dismiss"));
            Some(PopupView { title: String::from_str("Test Result"), lines })
        },
    };

    FrameModel {
        title: String::from_str("PostgreSQL S3 Backup Manager"),
        s3_lines,
        pg_lines,
        snapshot_lines,
        selected_idx: b.selected_idx,
        help,
        edit_line,
        popup,
        error_line,
    }
}

} // verus!
