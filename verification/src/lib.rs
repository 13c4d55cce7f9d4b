//! Verified core of a Yahoo Finance MCP server: the Markdown answers of the
//! tools, the HTML stock report, the reading of the tools' arguments, and
//! the server's settings.

pub mod clock;
pub mod markdown;
pub mod report;
pub mod request;
pub mod settings;
pub mod text;
pub mod tools;
