//! Error categories, their stable codes and process exit codes.
use vstd::prelude::*;

use crate::text::owned;

verus! {

/// The category of a failure; each has a stable code and an exit code.
#[derive(Debug, Clone, Copy, PartialEq, Eq, Structural)]
pub enum ErrorCategory {
    Config,
    Validation,
    Auth,
    Network,
    Api,
    RateLimit,
    Database,
    AmbiguousPublish,
    Internal,
}

impl ErrorCategory {
    /// The stable machine-readable code of a category.
    pub open spec fn code(self) -> Seq<char> {
        match self {
            ErrorCategory::Config => "CONFIG_ERROR"@,
            ErrorCategory::Validation => "VALIDATION_ERROR"@,
            ErrorCategory::Auth => "AUTH_ERROR"@,
            ErrorCategory::Network => "NETWORK_ERROR"@,
            ErrorCategory::Api => "API_ERROR"@,
            ErrorCategory::RateLimit => "RATE_LIMIT_ERROR"@,
            ErrorCategory::Database => "DATABASE_ERROR"@,
            ErrorCategory::AmbiguousPublish => "AMBIGUOUS_PUBLISH_ERROR"@,
            ErrorCategory::Internal => "INTERNAL_ERROR"@,
        }
    }

    /// The process exit code of a category.
    pub open spec fn exit_status(self) -> i32 {
        match self {
            ErrorCategory::Config => 2,
            ErrorCategory::Validation => 3,
            ErrorCategory::Auth => 4,
            ErrorCategory::Network => 5,
            ErrorCategory::Api => 6,
            ErrorCategory::RateLimit => 7,
            ErrorCategory::Database => 8,
            ErrorCategory::AmbiguousPublish => 9,
            ErrorCategory::Internal => 1,
        }
    }

    pub fn as_code(self) -> (r: &'static str)
        ensures
            r@ == self.code(),
    {
        match self {
            ErrorCategory::Config => "CONFIG_ERROR",
            ErrorCategory::Validation => "VALIDATION_ERROR",
            ErrorCategory::Auth => "AUTH_ERROR",
            ErrorCategory::Network => "NETWORK_ERROR",
            ErrorCategory::Api => "API_ERROR",
            ErrorCategory::RateLimit => "RATE_LIMIT_ERROR",
            ErrorCategory::Database => "DATABASE_ERROR",
            ErrorCategory::AmbiguousPublish => "AMBIGUOUS_PUBLISH_ERROR",
            ErrorCategory::Internal => "INTERNAL_ERROR",
        }
    }

    pub fn exit_code(self) -> (r: i32)
        ensures
            r == self.exit_status(),
    {
        match self {
            ErrorCategory::Config => 2,
            ErrorCategory::Validation => 3,
            ErrorCategory::Auth => 4,
            ErrorCategory::Network => 5,
            ErrorCategory::Api => 6,
            ErrorCategory::RateLimit => 7,
            ErrorCategory::Database => 8,
            ErrorCategory::AmbiguousPublish => 9,
            ErrorCategory::Internal => 1,
        }
    }
}

/// Distinct categories have distinct codes and distinct, non-zero exit codes,
/// so a code or an exit status identifies the category.
pub proof fn law_codes_identify_category(a: ErrorCategory, b: ErrorCategory)
    ensures
        a.code() == b.code() <==> a == b,
        a.exit_status() == b.exit_status() <==> a == b,
        a.exit_status() != 0,
{
    reveal_strlit("CONFIG_ERROR");
    reveal_strlit("VALIDATION_ERROR");
    reveal_strlit("AUTH_ERROR");
    reveal_strlit("NETWORK_ERROR");
    reveal_strlit("API_ERROR");
    reveal_strlit("RATE_LIMIT_ERROR");
    reveal_strlit("DATABASE_ERROR");
    reveal_strlit("AMBIGUOUS_PUBLISH_ERROR");
    reveal_strlit("INTERNAL_ERROR");
    if a != b {
        assert(a.code().len() != b.code().len() || a.code()[0] != b.code()[0] || a.code()[1]
            != b.code()[1]);
    }
}

/// A failure: its category and a human-readable message.
#[derive(Debug)]
pub struct CliError {
    pub category: ErrorCategory,
    pub message: String,
}

impl CliError {
    pub fn new(category: ErrorCategory, message: &str) -> (r: CliError)
        ensures
            r.category == category,
            r.message@ == message@,
    {
        CliError { category, message: owned(message) }
    }
}

} // verus!
