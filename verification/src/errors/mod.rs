//! Error handlers, and the environment path that tells where an error came from.

mod error_handling;
pub use error_handling::{
    extended_path, lemma_nested_clones_extend_the_path, separator, Environment, ErrorHandler,
    ErrorHandling, ErrorMessage, TracksEnvironment,
};

mod ignore_err;
pub use ignore_err::IgnoreErr;

mod console_error_handler;
pub use console_error_handler::{console_report, ConsoleErrorHandler, ConsoleOutput};

mod string_error_handler;
pub use string_error_handler::{string_report, ErrorAccessToken, StringErrorHandler};

mod context_in_use_error;
pub use context_in_use_error::{BorrowError, BorrowMutError, ContextInUseError};

mod host_error;
pub use host_error::HostError;

mod string_environment;
