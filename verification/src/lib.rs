//! Verified core of a configuration-mirroring engine.
//!
//! The library mirrors local configuration state (tool config files and
//! managed "skill" snippets) onto remote execution targets.  It contains the
//! verified logic: session state management, the command language spoken to a
//! POSIX shell on the remote side, the file-sync engine with atomic directory
//! replacement, the text-encoding guard, and the skills reconciler.  All
//! network and process I/O is performed by an unverified driver that executes
//! the requests this library produces and feeds the outcomes back in.

pub mod db_id;
pub mod encoding;
pub mod errors;
pub mod model;
pub mod paths;
pub mod session;
pub mod shell;
pub mod skills;
pub mod sync;
pub mod text;
pub mod wsl;
