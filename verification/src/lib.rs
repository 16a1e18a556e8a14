//! Capability scanner: walks a parsed source tree and reports which
//! privileged standard-library namespaces (filesystem, network, I/O,
//! process, thread) and unsafe constructs the code exercises.

pub mod ast;
pub mod record;
pub mod report;
pub mod scanner;

pub use record::Permissions;
pub use report::render;
pub use scanner::scan;
