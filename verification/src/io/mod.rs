//! Transfer of files to and from the host.

mod file_io_handler;
pub use file_io_handler::{load_result, FileIOHandler, FileIOState};
