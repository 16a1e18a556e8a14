//! The report renderer: the canonical textual summary of a finished
//! capability record.

use vstd::prelude::*;

use crate::record::Permissions;

verus! {

/// The text of one flag value.
pub open spec fn bool_text(b: bool) -> Seq<char> {
    if b {
        "true"@
    } else {
        "false"@
    }
}

/// The canonical report of a record: one `name: value` line per flag,
/// in the record's own field order.
pub open spec fn report_text(p: Permissions) -> Seq<char> {
    "unsafe: "@ + bool_text(p.unsafe_permission) + "\n"@ + "filesystem: "@ + bool_text(
        p.fs_permission,
    ) + "\n"@ + "network: "@ + bool_text(p.net_permission) + "\n"@ + "io: "@ + bool_text(
        p.io_permission,
    ) + "\n"@ + "process: "@ + bool_text(p.process_permission) + "\n"@ + "thread: "@ + bool_text(
        p.thread_permission,
    ) + "\n"@
}

/// The text of one flag value, as a string slice.
fn bool_label(b: bool) -> (r: &'static str)
    ensures
        r@ == bool_text(b),
{
    if b {
        "true"
    } else {
        "false"
    }
}

/// Renders the six-line report of a record: a pure function of the
/// record's flags, one line per flag, in the record's field order.
pub fn render(record: &Permissions) -> (r: String)
    ensures
        r@ == report_text(*record),
{
    let mut out = String::new();
    out.append("unsafe: ");
    out.append(bool_label(record.unsafe_permission));
    out.append("\n");
    out.append("filesystem: ");
    out.append(bool_label(record.fs_permission));
    out.append("\n");
    out.append("network: ");
    out.append(bool_label(record.net_permission));
    out.append("\n");
    out.append("io: ");
    out.append(bool_label(record.io_permission));
    out.append("\n");
    out.append("process: ");
    out.append(bool_label(record.process_permission));
    out.append("\n");
    out.append("thread: ");
    out.append(bool_label(record.thread_permission));
    out.append("\n");
    proof {
        assert(out@ =~= report_text(*record));
    }
    out
}

} // verus!
