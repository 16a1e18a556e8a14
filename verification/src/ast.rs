//! The scanner's own model of a parsed source tree.
//!
//! The scanner does not read the parser's node types directly: a closed
//! set of node kinds carries, as plain values, exactly what the
//! recognition rules look at. Every construct the rules do not inspect
//! is folded into `Node::Other`, which only contributes its children.

use vstd::prelude::*;

verus! {

/// The tree of one `use` declaration, mirroring the shapes a path in an
/// import can take.
pub enum UseTree {
    /// A segment followed by more tree: `std::fs::...`.
    Path { ident: String, tree: Box<UseTree> },
    /// A terminal plain name: `fs` in `use std::fs;`.
    Name { ident: String },
    /// A terminal renamed import: `fs as f`. The original spelling is
    /// kept; the local alias plays no part in recognition.
    Rename { ident: String },
    /// A glob: `use std::io::*;`.
    Glob,
    /// A braced group of sub-trees: `use std::{fs, net};`.
    Group { items: Vec<UseTree> },
}

/// One node of a source tree. Anything the recognition rules inspect is
/// its own variant; everything else appears as `Other` and is only
/// recursed into.
pub enum Node {
    /// A call expression whose callee is a qualified path, given as the
    /// textual names of its segments, with the call's sub-expressions as
    /// children. A call through anything but a plain path carries an
    /// empty segment list and contributes only its children.
    Call { callee: Vec<String>, children: Vec<Node> },
    /// An import declaration.
    UseDecl { tree: UseTree },
    /// A construct that bypasses the language's safety checks: an
    /// `unsafe` block or an `unsafe`-qualified function.
    UnsafeBlock { children: Vec<Node> },
    /// Any other construct, kept only for the nodes beneath it.
    Other { children: Vec<Node> },
}

} // verus!
