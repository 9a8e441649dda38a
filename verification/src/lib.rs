//! Decision logic of an editor plugin that runs the GitHub Actions language
//! server: which repository a workspace belongs to, whether the server
//! package has to be installed, how the server is launched and what it is
//! told at start-up. The host does the I/O; every function here is a pure
//! step from what the host reported to what it should do next.

pub mod detect;
pub mod host;
pub mod install;
pub mod json;
pub mod launch;
pub mod options;
pub mod remote;
pub mod repository;
pub mod text;
