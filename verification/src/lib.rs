//! The transfer engine of a resumable downloader: everything that is decided
//! between a URL and a finished, paused or failed download, apart from the
//! network and the disk themselves.
//!
//! The caller resolves the file name, asks the file for its length, sends the
//! request that `request` builds, hands the status and headers to `response`,
//! and then runs the loop that `transfer` directs: it performs each action and
//! reports what came of it. `session` states what that loop does to the file.
pub mod decimal;
pub mod display;
pub mod error;
pub mod filename;
pub mod headers;
pub mod outcome;
pub mod request;
pub mod response;
pub mod session;
pub mod text;
pub mod transfer;
