//! The decisions of the `rb` command line: messages, completion, scripts,
//! and which command handles a request.
pub mod paint;
pub mod errors;
pub mod version_info;
pub mod shell;
pub mod run;
pub mod completion;
pub mod dispatch;
pub mod help;
pub mod report;
pub mod survey;
pub mod context;
