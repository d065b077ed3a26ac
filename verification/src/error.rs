//! The application error and its two renderings: the short kind tag sent
//! to the front end and the human-readable message.
use vstd::prelude::*;

use crate::text::concat2;

verus! {

/// Every error the application reports. Errors that come from outside
/// libraries (the database, the file system, the JSON and TOML codecs)
/// carry the text of the underlying error.
#[derive(Debug, Clone, PartialEq, Eq)]
pub enum AppError {
    Database(String),
    Config(String),
    Llm(String),
    Transport(String),
    Agent(String),
    Validation(String),
    NotFound(String),
    Io(String),
    Serialization(String),
    Toml(String),
    Internal(String),
    Cancelled(String),
}

/// Result type used across the application.
pub type AppResult<T> = Result<T, AppError>;

/// The kind tag of an error, as the front end receives it.
pub open spec fn error_kind(e: AppError) -> Seq<char> {
    match e {
        AppError::Database(_) => "database"@,
        AppError::Config(_) => "config"@,
        AppError::Llm(_) => "llm"@,
        AppError::Transport(_) => "transport"@,
        AppError::Agent(_) => "agent"@,
        AppError::Validation(_) => "validation"@,
        AppError::NotFound(_) => "not_found"@,
        AppError::Io(_) => "io"@,
        AppError::Serialization(_) => "serialization"@,
        AppError::Toml(_) => "toml"@,
        AppError::Internal(_) => "internal"@,
        AppError::Cancelled(_) => "cancelled"@,
    }
}

/// The human-readable message of an error.
pub open spec fn error_message(e: AppError) -> Seq<char> {
    match e {
        AppError::Database(m) => "Database error: "@ + m@,
        AppError::Config(m) => "Config error: "@ + m@,
        AppError::Llm(m) => "LLM error: "@ + m@,
        AppError::Transport(m) => "Transport error: "@ + m@,
        AppError::Agent(m) => "Agent error: "@ + m@,
        AppError::Validation(m) => "Validation error: "@ + m@,
        AppError::NotFound(m) => "Not found: "@ + m@,
        AppError::Io(m) => "IO error: "@ + m@,
        AppError::Serialization(m) => "Serialization error: "@ + m@,
        AppError::Toml(m) => "TOML error: "@ + m@,
        AppError::Internal(m) => "Internal error: "@ + m@,
        AppError::Cancelled(m) => "Cancelled: "@ + m@,
    }
}

/// The kind tags and messages of the errors are fixed: each kind has its
/// own tag (`database`, `config`, `llm`, `transport`, `agent`,
/// `validation`, `not_found`, `io`, `serialization`, `toml`, `internal`,
/// `cancelled`), and its message is its own prefix (`Database error: `,
/// `Not found: `, ...) followed by the error's text.
pub proof fn law_error_texts(e: AppError)
    ensures
        e is Database ==> error_kind(e) == "database"@,
        e is Config ==> error_kind(e) == "config"@,
        e is Llm ==> error_kind(e) == "llm"@,
        e is Transport ==> error_kind(e) == "transport"@,
        e is Agent ==> error_kind(e) == "agent"@,
        e is Validation ==> error_kind(e) == "validation"@,
        e is NotFound ==> error_kind(e) == "not_found"@,
        e is Io ==> error_kind(e) == "io"@,
        e is Serialization ==> error_kind(e) == "serialization"@,
        e is Toml ==> error_kind(e) == "toml"@,
        e is Internal ==> error_kind(e) == "internal"@,
        e is Cancelled ==> error_kind(e) == "cancelled"@,
        e matches AppError::Database(m) ==> error_message(e) == "Database error: "@ + m@,
        e matches AppError::Config(m) ==> error_message(e) == "Config error: "@ + m@,
        e matches AppError::Llm(m) ==> error_message(e) == "LLM error: "@ + m@,
        e matches AppError::Transport(m) ==> error_message(e) == "Transport error: "@ + m@,
        e matches AppError::Agent(m) ==> error_message(e) == "Agent error: "@ + m@,
        e matches AppError::Validation(m) ==> error_message(e) == "Validation error: "@ + m@,
        e matches AppError::NotFound(m) ==> error_message(e) == "Not found: "@ + m@,
        e matches AppError::Io(m) ==> error_message(e) == "IO error: "@ + m@,
        e matches AppError::Serialization(m) ==> error_message(e) == "Serialization error: "@ + m@,
        e matches AppError::Toml(m) ==> error_message(e) == "TOML error: "@ + m@,
        e matches AppError::Internal(m) ==> error_message(e) == "Internal error: "@ + m@,
        e matches AppError::Cancelled(m) ==> error_message(e) == "Cancelled: "@ + m@,
{
}

impl AppError {
    /// The kind tag of this error ("database", "not_found", ...).
    pub fn kind(&self) -> (k: &'static str)
        ensures
            k@ == error_kind(*self),
    {
        match self {
            AppError::Database(_) => "database",
            AppError::Config(_) => "config",
            AppError::Llm(_) => "llm",
            AppError::Transport(_) => "transport",
            AppError::Agent(_) => "agent",
            AppError::Validation(_) => "validation",
            AppError::NotFound(_) => "not_found",
            AppError::Io(_) => "io",
            AppError::Serialization(_) => "serialization",
            AppError::Toml(_) => "toml",
            AppError::Internal(_) => "internal",
            AppError::Cancelled(_) => "cancelled",
        }
    }

    /// The message of this error, as its `Display` rendering reads.
    pub fn message(&self) -> (m: String)
        ensures
            m@ == error_message(*self),
    {
        match self {
            AppError::Database(m) => concat2("Database error: ", m.as_str()),
            AppError::Config(m) => concat2("Config error: ", m.as_str()),
            AppError::Llm(m) => concat2("LLM error: ", m.as_str()),
            AppError::Transport(m) => concat2("Transport error: ", m.as_str()),
            AppError::Agent(m) => concat2("Agent error: ", m.as_str()),
            AppError::Validation(m) => concat2("Validation error: ", m.as_str()),
            AppError::NotFound(m) => concat2("Not found: ", m.as_str()),
            AppError::Io(m) => concat2("IO error: ", m.as_str()),
            AppError::Serialization(m) => concat2("Serialization error: ", m.as_str()),
            AppError::Toml(m) => concat2("TOML error: ", m.as_str()),
            AppError::Internal(m) => concat2("Internal error: ", m.as_str()),
            AppError::Cancelled(m) => concat2("Cancelled: ", m.as_str()),
        }
    }
}

} // verus!
