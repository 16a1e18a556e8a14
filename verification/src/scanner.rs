//! The capability scanner: a depth-first walk over a source tree that
//! folds every recognized privileged reference into a capability
//! record.
//!
//! The recognition rules, stated once as spec functions and proved of
//! the executable walk:
//! - a call expression whose callee path starts `std::<token>` sets the
//!   flag the token names; only the first two segments are inspected;
//! - a `use` declaration rooted at `std` matches the segment one level
//!   deeper, whether it is a plain name or further qualified; braced
//!   groups are expanded member by member; renamed and glob imports are
//!   deliberately left unmatched;
//! - an `unsafe` construct sets the `unsafe` flag;
//! - every other shape contributes nothing and is only recursed into.

use vstd::prelude::*;

use crate::ast::Node;
use crate::ast::UseTree;
use crate::record::merge;
use crate::record::no_caps;
use crate::record::str_eq;
use crate::record::token_caps;
use crate::record::Permissions;

verus! {

/// The flags owed to one callee path, given as its textual segments:
/// a path of at least two segments rooted at the standard-library root
/// contributes its second segment's token, anything else nothing.
pub open spec fn call_caps(segs: Seq<String>) -> Permissions {
    if segs.len() >= 2 && segs[0]@ == "std"@ {
        token_caps(segs[1]@)
    } else {
        no_caps()
    }
}

/// The flags owed to the part of a `use` tree that stands directly
/// under the standard-library root.
pub open spec fn sub_use_caps(t: UseTree) -> Permissions
    decreases t,
{
    match t {
        UseTree::Path { ident, tree: _ } => token_caps(ident@),
        UseTree::Name { ident } => token_caps(ident@),
        UseTree::Rename { ident: _ } => no_caps(),
        UseTree::Glob => no_caps(),
        UseTree::Group { items } => sub_group_caps(items@),
    }
}

/// The flags owed to a group of `use` sub-trees standing directly under
/// the standard-library root: the merge over its members.
pub open spec fn sub_group_caps(s: Seq<UseTree>) -> Permissions
    decreases s,
{
    if s.len() == 0 {
        no_caps()
    } else {
        merge(sub_group_caps(s.drop_last()), sub_use_caps(s.last()))
    }
}

/// The flags owed to one whole `use` declaration: a path rooted at the
/// standard-library root is inspected one level deeper; a braced group
/// is expanded member by member; everything else contributes nothing.
pub open spec fn use_caps(t: UseTree) -> Permissions
    decreases t,
{
    match t {
        UseTree::Path { ident, tree } => if ident@ == "std"@ {
            sub_use_caps(*tree)
        } else {
            no_caps()
        },
        UseTree::Group { items } => use_group_caps(items@),
        _ => no_caps(),
    }
}

/// The flags owed to a group of whole `use` trees: the merge over its
/// members.
pub open spec fn use_group_caps(s: Seq<UseTree>) -> Permissions
    decreases s,
{
    if s.len() == 0 {
        no_caps()
    } else {
        merge(use_group_caps(s.drop_last()), use_caps(s.last()))
    }
}

/// The record with only the `unsafe` flag set.
pub open spec fn unsafe_caps() -> Permissions {
    Permissions {
        unsafe_permission: true,
        fs_permission: false,
        net_permission: false,
        io_permission: false,
        process_permission: false,
        thread_permission: false,
    }
}

/// Every flag a source tree is owed: the merge of what each node and
/// each descendant contributes.
pub open spec fn node_caps(n: Node) -> Permissions
    decreases n,
{
    match n {
        Node::Call { callee, children } => merge(call_caps(callee@), seq_caps(children@)),
        Node::UseDecl { tree } => use_caps(tree),
        Node::UnsafeBlock { children } => merge(unsafe_caps(), seq_caps(children@)),
        Node::Other { children } => seq_caps(children@),
    }
}

/// The merge of the flags owed to each tree of a sequence.
pub open spec fn seq_caps(s: Seq<Node>) -> Permissions
    decreases s,
{
    if s.len() == 0 {
        no_caps()
    } else {
        merge(seq_caps(s.drop_last()), node_caps(s.last()))
    }
}

/// Monotonicity: a flag that is set before a scan is still set after
/// it, whatever the scanned tree holds. With `scan`'s contract this
/// says that once a flag is observed `true` for any scanned file, it
/// stays `true` for the rest of the run.
pub proof fn lemma_scan_monotonic(before: Permissions, n: Node)
    ensures
        before.unsafe_permission ==> merge(before, node_caps(n)).unsafe_permission,
        before.fs_permission ==> merge(before, node_caps(n)).fs_permission,
        before.net_permission ==> merge(before, node_caps(n)).net_permission,
        before.io_permission ==> merge(before, node_caps(n)).io_permission,
        before.process_permission ==> merge(before, node_caps(n)).process_permission,
        before.thread_permission ==> merge(before, node_caps(n)).thread_permission,
{
}

/// Determinism: what a scan leaves in the record is a function of the
/// tree and of the record it starts from alone, so scanning the same
/// tree into two fresh records yields identical records.
pub proof fn lemma_scan_deterministic(a: Permissions, b: Permissions, n: Node)
    requires
        a == b,
    ensures
        merge(a, node_caps(n)) == merge(b, node_caps(n)),
{
}

/// Idempotence: scanning the same tree a second time leaves the record
/// exactly as the first scan did.
pub proof fn lemma_scan_idempotent(before: Permissions, n: Node)
    ensures
        merge(merge(before, node_caps(n)), node_caps(n)) == merge(before, node_caps(n)),
{
}

/// Only the first two segments of a callee path decide its flags:
/// deeper qualification plays no part.
pub proof fn lemma_call_caps_prefix(a: Seq<String>, b: Seq<String>)
    requires
        a.len() >= 2,
        b.len() >= 2,
        a[0]@ == b[0]@,
        a[1]@ == b[1]@,
    ensures
        call_caps(a) == call_caps(b),
{
}

/// A `use` under the standard-library root matches its second segment
/// the same way whether that segment is a plain name or is qualified
/// further, and whatever follows it.
pub proof fn lemma_use_deeper_ignored(ident: String, t1: Box<UseTree>, t2: Box<UseTree>)
    ensures
        sub_use_caps((UseTree::Path { ident, tree: t1 })) == sub_use_caps(
            (UseTree::Path { ident, tree: t2 }),
        ),
        sub_use_caps((UseTree::Path { ident, tree: t1 })) == sub_use_caps(
            (UseTree::Name { ident }),
        ),
{
}

/// Specificity: a call rooted `std::fs` sets the filesystem flag and no
/// other, whatever follows the second segment.
pub proof fn lemma_fs_call_specific(segs: Seq<String>)
    requires
        segs.len() >= 2,
        segs[0]@ == "std"@,
        segs[1]@ == "fs"@,
    ensures
        call_caps(segs).fs_permission,
        !call_caps(segs).unsafe_permission,
        !call_caps(segs).net_permission,
        !call_caps(segs).io_permission,
        !call_caps(segs).process_permission,
        !call_caps(segs).thread_permission,
{
    reveal_strlit("fs");
    reveal_strlit("net");
    reveal_strlit("io");
    reveal_strlit("process");
    reveal_strlit("thread");
    assert("fs"@.len() == 2);
    assert("net"@.len() == 3);
    assert("io"@.len() == 2);
    assert("process"@.len() == 7);
    assert("thread"@.len() == 6);
    assert("fs"@[0] == 'f');
    assert("io"@[0] == 'i');
}

/// No flag without the standard-library root: a callee path that does
/// not start at the root identifier, or is too short to be qualified,
/// contributes nothing.
pub proof fn lemma_non_std_call(segs: Seq<String>)
    requires
        segs.len() < 2 || segs[0]@ != "std"@,
    ensures
        call_caps(segs) == no_caps(),
{
}

/// Likewise for imports: a `use` path rooted anywhere but at the
/// standard-library root contributes nothing.
pub proof fn lemma_non_std_use(ident: String, tree: Box<UseTree>)
    requires
        ident@ != "std"@,
    ensures
        use_caps((UseTree::Path { ident, tree })) == no_caps(),
{
}

/// Folds a callee path into the record: when the path has at least two
/// segments and starts at the standard-library root, its second segment
/// is matched as a namespace token; deeper segments are ignored.
fn scan_call(callee: &Vec<String>, record: &mut Permissions)
    ensures
        *final(record) == merge(*old(record), call_caps(callee@)),
{
    if callee.len() >= 2 && str_eq(callee[0].as_str(), "std") {
        record.check(callee[1].as_str());
    }
}

/// Folds the part of a `use` tree that stands directly under the
/// standard-library root into the record.
fn scan_use_sub(t: &UseTree, record: &mut Permissions)
    ensures
        *final(record) == merge(*old(record), sub_use_caps(*t)),
    decreases *t,
{
    match t {
        UseTree::Path { ident, tree: _ } => {
            record.check(ident.as_str());
        },
        UseTree::Name { ident } => {
            record.check(ident.as_str());
        },
        UseTree::Group { items } => {
            scan_sub_group(items, record);
        },
        _ => {
        },
    }
}

/// Folds each member of a `use` group standing directly under the
/// standard-library root into the record.
fn scan_sub_group(items: &Vec<UseTree>, record: &mut Permissions)
    ensures
        *final(record) == merge(*old(record), sub_group_caps(items@)),
    decreases items@,
{
    let ghost orig = *record;
    let mut i: usize = 0;
    while i < items.len()
        invariant
            i <= items.len(),
            *record == merge(orig, sub_group_caps(items@.take(i as int))),
        decreases items.len() - i,
    {
        scan_use_sub(&items[i], record);
        proof {
            let s = items@;
            assert(s.take(i + 1).drop_last() =~= s.take(i as int));
            assert(s.take(i + 1).last() == s[i as int]);
        }
        i = i + 1;
    }
    proof {
        assert(items@.take(items@.len() as int) =~= items@);
    }
}

/// Folds one whole `use` declaration into the record.
fn scan_use(t: &UseTree, record: &mut Permissions)
    ensures
        *final(record) == merge(*old(record), use_caps(*t)),
    decreases *t,
{
    match t {
        UseTree::Path { ident, tree } => {
            if str_eq(ident.as_str(), "std") {
                scan_use_sub(&**tree, record);
            }
        },
        UseTree::Group { items } => {
            scan_use_group(items, record);
        },
        _ => {
        },
    }
}

/// Folds each member of a group of whole `use` trees into the record.
fn scan_use_group(items: &Vec<UseTree>, record: &mut Permissions)
    ensures
        *final(record) == merge(*old(record), use_group_caps(items@)),
    decreases items@,
{
    let ghost orig = *record;
    let mut i: usize = 0;
    while i < items.len()
        invariant
            i <= items.len(),
            *record == merge(orig, use_group_caps(items@.take(i as int))),
        decreases items.len() - i,
    {
        scan_use(&items[i], record);
        proof {
            let s = items@;
            assert(s.take(i + 1).drop_last() =~= s.take(i as int));
            assert(s.take(i + 1).last() == s[i as int]);
        }
        i = i + 1;
    }
    proof {
        assert(items@.take(items@.len() as int) =~= items@);
    }
}

/// Scans one source tree into the record: visits every node, sets the
/// flag of each recognized privileged reference, silently skips every
/// unrecognized shape, and never clears a flag. The walk always runs to
/// completion, whatever the record already holds.
pub fn scan(node: &Node, record: &mut Permissions)
    ensures
        *final(record) == merge(*old(record), node_caps(*node)),
    decreases *node,
{
    match node {
        Node::Call { callee, children } => {
            scan_call(callee, record);
            scan_children(children, record);
        },
        Node::UseDecl { tree } => {
            scan_use(tree, record);
        },
        Node::UnsafeBlock { children } => {
            record.unsafe_permission = true;
            scan_children(children, record);
        },
        Node::Other { children } => {
            scan_children(children, record);
        },
    }
}

/// Scans each tree of a slice in order into the record.
fn scan_children(children: &Vec<Node>, record: &mut Permissions)
    ensures
        *final(record) == merge(*old(record), seq_caps(children@)),
    decreases children@,
{
    let ghost orig = *record;
    let mut i: usize = 0;
    while i < children.len()
        invariant
            i <= children.len(),
            *record == merge(orig, seq_caps(children@.take(i as int))),
        decreases children.len() - i,
    {
        scan(&children[i], record);
        proof {
            let s = children@;
            assert(s.take(i + 1).drop_last() =~= s.take(i as int));
            assert(s.take(i + 1).last() == s[i as int]);
        }
        i = i + 1;
    }
    proof {
        assert(children@.take(children@.len() as int) =~= children@);
    }
}

} // verus!
