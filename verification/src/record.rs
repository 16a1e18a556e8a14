//! The capability record: the aggregate of privileged capabilities
//! observed while scanning source trees.

use vstd::prelude::*;

verus! {

/// One boolean flag per category of privileged operation a source tree
/// may exercise. Flags only ever move from `false` to `true` during a
/// scan, and the record has no state beyond its flags: two records with
/// equal flags are interchangeable.
#[derive(Debug, Copy, Clone, PartialEq, Eq, Structural)]
pub struct Permissions {
    pub unsafe_permission: bool,
    pub fs_permission: bool,
    pub net_permission: bool,
    pub io_permission: bool,
    pub process_permission: bool,
    pub thread_permission: bool,
}

/// The record with every flag clear: the initial state of a run.
pub open spec fn no_caps() -> Permissions {
    Permissions {
        unsafe_permission: false,
        fs_permission: false,
        net_permission: false,
        io_permission: false,
        process_permission: false,
        thread_permission: false,
    }
}

/// Pointwise disjunction of two records: the capabilities of either.
pub open spec fn merge(a: Permissions, b: Permissions) -> Permissions {
    Permissions {
        unsafe_permission: a.unsafe_permission || b.unsafe_permission,
        fs_permission: a.fs_permission || b.fs_permission,
        net_permission: a.net_permission || b.net_permission,
        io_permission: a.io_permission || b.io_permission,
        process_permission: a.process_permission || b.process_permission,
        thread_permission: a.thread_permission || b.thread_permission,
    }
}

/// The flags owed to one privileged-namespace token found as the second
/// path segment under the standard-library root: at most one flag, and
/// none for an unrecognized token.
pub open spec fn token_caps(tok: Seq<char>) -> Permissions {
    Permissions {
        unsafe_permission: false,
        fs_permission: tok == "fs"@,
        net_permission: tok == "net"@,
        io_permission: tok == "io"@,
        process_permission: tok == "process"@,
        thread_permission: tok == "thread"@,
    }
}

/// Relies on `str`'s `PartialEq`: two string slices compare equal
/// exactly when they hold the same sequence of characters.
#[verifier::external_body]
pub(crate) fn str_eq(a: &str, b: &str) -> (r: bool)
    ensures
        r == (a@ == b@),
{
    a == b
}

impl Permissions {
    /// Folds one namespace token into the record: sets the flag the
    /// token names and leaves every other flag as it was; an
    /// unrecognized token leaves the whole record unchanged.
    pub fn check(&mut self, token: &str)
        ensures
            *final(self) == merge(*old(self), token_caps(token@)),
    {
        proof {
            reveal_strlit("fs");
            reveal_strlit("net");
            reveal_strlit("io");
            reveal_strlit("process");
            reveal_strlit("thread");
            assert("fs"@.len() == 2);
            assert("net"@.len() == 3);
            assert("io"@.len() == 2);
            assert("process"@.len() == 7);
            assert("thread"@.len() == 6);
            assert("fs"@[0] == 'f');
            assert("io"@[0] == 'i');
        }
        if str_eq(token, "fs") {
            self.fs_permission = true;
        } else if str_eq(token, "net") {
            self.net_permission = true;
        } else if str_eq(token, "io") {
            self.io_permission = true;
        } else if str_eq(token, "process") {
            self.process_permission = true;
        } else if str_eq(token, "thread") {
            self.thread_permission = true;
        }
    }
}

/// Merging records is associative, commutative and idempotent, with the
/// empty record as identity: accumulating capabilities is insensitive to
/// the order files are folded in, and folding the same observations
/// again adds nothing.
pub proof fn lemma_merge_laws(a: Permissions, b: Permissions, c: Permissions)
    ensures
        merge(a, b) == merge(b, a),
        merge(merge(a, b), c) == merge(a, merge(b, c)),
        merge(a, a) == a,
        merge(a, no_caps()) == a,
        merge(no_caps(), a) == a,
{
}

impl Default for Permissions {
    /// A fresh record: every flag `false`.
    fn default() -> (r: Permissions)
        ensures
            r == no_caps(),
    {
        Permissions {
            unsafe_permission: false,
            fs_permission: false,
            net_permission: false,
            io_permission: false,
            process_permission: false,
            thread_permission: false,
        }
    }
}

} // verus!
