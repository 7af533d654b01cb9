//! Error types of the crawler: a structured error with method context
//! (`ErrorS`) and the richer `CrawlerError` taxonomy with retry and
//! severity policies.

use vstd::prelude::*;

verus! {

/// Broad classification carried by `ErrorS`.
#[derive(Clone, Copy, Debug, PartialEq, Eq, Structural)]
pub enum ErrorType {
    Browser,
    Llm,
    Crawl,
    Data,
    Block,
}

/// A structured error: the method that failed, its classification, a
/// message, and optionally the rendered text of an underlying cause.
#[derive(Debug)]
pub struct ErrorS {
    method: String,
    kind: ErrorType,
    message: String,
    source: Option<String>,
}

impl ErrorS {
    pub closed spec fn kind(&self) -> ErrorType {
        self.kind
    }

    pub closed spec fn method(&self) -> Seq<char> {
        self.method@
    }

    pub closed spec fn message(&self) -> Seq<char> {
        self.message@
    }

    pub closed spec fn source(&self) -> Option<Seq<char>> {
        match self.source {
            Some(ref s) => Some(s@),
            None => None,
        }
    }

    pub fn new(kind: ErrorType, method: String, message: String) -> (r: Self)
        ensures
            r.kind() == kind,
            r.method() == method@,
            r.message() == message@,
            r.source() is None,
    {
        ErrorS { kind, method, message, source: None }
    }

    pub fn browser(method: String, message: String) -> (r: Self)
        ensures
            r.kind() == ErrorType::Browser,
            r.method() == method@,
            r.message() == message@,
            r.source() is None,
    {
        Self::new(ErrorType::Browser, method, message)
    }

    pub fn crawl(method: String, message: String) -> (r: Self)
        ensures
            r.kind() == ErrorType::Crawl,
            r.method() == method@,
            r.message() == message@,
            r.source() is None,
    {
        Self::new(ErrorType::Crawl, method, message)
    }

    pub fn data(method: String, message: String) -> (r: Self)
        ensures
            r.kind() == ErrorType::Data,
            r.method() == method@,
            r.message() == message@,
            r.source() is None,
    {
        Self::new(ErrorType::Data, method, message)
    }

    pub fn llm(method: String, message: String) -> (r: Self)
        ensures
            r.kind() == ErrorType::Llm,
            r.method() == method@,
            r.message() == message@,
            r.source() is None,
    {
        Self::new(ErrorType::Llm, method, message)
    }

    /// Attach the rendered text of the underlying cause.
    pub fn with_source(self, source: String) -> (r: Self)
        ensures
            r.kind() == self.kind(),
            r.method() == self.method(),
            r.message() == self.message(),
            r.source() == Some(source@),
    {
        ErrorS { source: Some(source), ..self }
    }

    /// The prefix that `render` puts before the message for each kind.
    pub open spec fn kind_prefix(kind: ErrorType) -> Seq<char> {
        match kind {
            ErrorType::Browser => "browser error: "@,
            ErrorType::Llm => "LLM error: "@,
            ErrorType::Crawl => "crawl error: "@,
            ErrorType::Data => "data error: "@,
            ErrorType::Block => "blocked: "@,
        }
    }

    /// Human-readable rendering: kind prefix, message, and the method in
    /// which the error arose.
    pub fn render(&self) -> (r: String)
        ensures
            r@ == Self::kind_prefix(self.kind()) + self.message() + "(in "@ + self.method()
                + " )"@,
    {
        let mut out = String::new();
        match self.kind {
            ErrorType::Browser => out.append("browser error: "),
            ErrorType::Llm => out.append("LLM error: "),
            ErrorType::Crawl => out.append("crawl error: "),
            ErrorType::Data => out.append("data error: "),
            ErrorType::Block => out.append("blocked: "),
        }
        out.append(self.message.as_str());
        out.append("(in ");
        out.append(self.method.as_str());
        out.append(" )");
        out
    }
}

/// How severe an error is for the operator.
#[derive(Debug, Clone, Copy, PartialEq, Eq, Structural)]
pub enum ErrorSeverity {
    Low,
    Medium,
    High,
    Critical,
}

impl ErrorSeverity {
    /// The fixed label of each severity.
    pub fn as_str(&self) -> (r: &'static str)
        ensures
            r@ == (match self {
                ErrorSeverity::Low => "LOW"@,
                ErrorSeverity::Medium => "MEDIUM"@,
                ErrorSeverity::High => "HIGH"@,
                ErrorSeverity::Critical => "CRITICAL"@,
            }),
    {
        match self {
            ErrorSeverity::Low => "LOW",
            ErrorSeverity::Medium => "MEDIUM",
            ErrorSeverity::High => "HIGH",
            ErrorSeverity::Critical => "CRITICAL",
        }
    }
}

/// The crawler's error taxonomy.  Errors raised by outside subsystems
/// (database, network, I/O, serialization) carry their rendered text.
#[derive(Debug)]
pub enum CrawlerError {
    Browser(String),
    Database(String),
    Parser(String),
    LLM(String),
    Network(String),
    Io(String),
    Serialization(String),
    Timeout { timeout_seconds: u64 },
    Config(String),
    RateLimit(String),
    Auth(String),
    Validation { field: String, message: String },
    NotFound { resource: String },
    ExternalService { service: String, error: String },
    Unknown(String),
}

/// Which errors a caller may retry: transient conditions (network,
/// timeout, rate limit, external service, browser, oracle, I/O) are
/// retryable; everything else is not.
pub open spec fn spec_is_retryable(e: &CrawlerError) -> bool {
    match e {
        CrawlerError::Network(_) => true,
        CrawlerError::Timeout { .. } => true,
        CrawlerError::RateLimit(_) => true,
        CrawlerError::ExternalService { .. } => true,
        CrawlerError::Browser(_) => true,
        CrawlerError::LLM(_) => true,
        CrawlerError::Io(_) => true,
        _ => false,
    }
}

/// The severity assigned to each error kind.
pub open spec fn spec_severity(e: &CrawlerError) -> ErrorSeverity {
    match e {
        CrawlerError::Config(_) => ErrorSeverity::Critical,
        CrawlerError::Auth(_) => ErrorSeverity::Critical,
        CrawlerError::Validation { .. } => ErrorSeverity::Critical,
        CrawlerError::Database(_) => ErrorSeverity::High,
        CrawlerError::Serialization(_) => ErrorSeverity::High,
        CrawlerError::Network(_) => ErrorSeverity::Low,
        CrawlerError::Timeout { .. } => ErrorSeverity::Low,
        CrawlerError::RateLimit(_) => ErrorSeverity::Low,
        _ => ErrorSeverity::Medium,
    }
}

impl CrawlerError {
    pub fn browser(msg: String) -> (r: Self)
        ensures
            r matches CrawlerError::Browser(m) && m@ == msg@,
    {
        CrawlerError::Browser(msg)
    }

    pub fn parser(msg: String) -> (r: Self)
        ensures
            r matches CrawlerError::Parser(m) && m@ == msg@,
    {
        CrawlerError::Parser(msg)
    }

    pub fn llm(msg: String) -> (r: Self)
        ensures
            r matches CrawlerError::LLM(m) && m@ == msg@,
    {
        CrawlerError::LLM(msg)
    }

    pub fn config(msg: String) -> (r: Self)
        ensures
            r matches CrawlerError::Config(m) && m@ == msg@,
    {
        CrawlerError::Config(msg)
    }

    pub fn rate_limit(msg: String) -> (r: Self)
        ensures
            r matches CrawlerError::RateLimit(m) && m@ == msg@,
    {
        CrawlerError::RateLimit(msg)
    }

    pub fn auth(msg: String) -> (r: Self)
        ensures
            r matches CrawlerError::Auth(m) && m@ == msg@,
    {
        CrawlerError::Auth(msg)
    }

    pub fn validation(field: String, message: String) -> (r: Self)
        ensures
            r matches CrawlerError::Validation { field: f, message: m } && f@ == field@ && m@
                == message@,
    {
        CrawlerError::Validation { field, message }
    }

    pub fn not_found(resource: String) -> (r: Self)
        ensures
            r matches CrawlerError::NotFound { resource: res } && res@ == resource@,
    {
        CrawlerError::NotFound { resource }
    }

    pub fn external(service: String, error: String) -> (r: Self)
        ensures
            r matches CrawlerError::ExternalService { service: s, error: e } && s@ == service@
                && e@ == error@,
    {
        CrawlerError::ExternalService { service, error }
    }

    pub fn timeout(seconds: u64) -> (r: Self)
        ensures
            r matches CrawlerError::Timeout { timeout_seconds } && timeout_seconds == seconds,
    {
        CrawlerError::Timeout { timeout_seconds: seconds }
    }

    pub fn unknown(msg: String) -> (r: Self)
        ensures
            r matches CrawlerError::Unknown(m) && m@ == msg@,
    {
        CrawlerError::Unknown(msg)
    }

    /// Whether a caller may retry after this error.
    pub fn is_retryable(&self) -> (r: bool)
        ensures
            r == spec_is_retryable(self),
    {
        match self {
            CrawlerError::Network(_) => true,
            CrawlerError::Timeout { .. } => true,
            CrawlerError::RateLimit(_) => true,
            CrawlerError::ExternalService { .. } => true,
            CrawlerError::Database(_) => false,
            CrawlerError::Browser(_) => true,
            CrawlerError::Parser(_) => false,
            CrawlerError::LLM(_) => true,
            CrawlerError::Config(_) => false,
            CrawlerError::Auth(_) => false,
            CrawlerError::Validation { .. } => false,
            CrawlerError::NotFound { .. } => false,
            CrawlerError::Io(_) => true,
            CrawlerError::Serialization(_) => false,
            CrawlerError::Unknown(_) => false,
        }
    }

    /// The severity of this error.
    pub fn severity(&self) -> (r: ErrorSeverity)
        ensures
            r == spec_severity(self),
    {
        match self {
            CrawlerError::Config(_) | CrawlerError::Auth(_) | CrawlerError::Validation {
                ..
            } => ErrorSeverity::Critical,
            CrawlerError::Database(_) | CrawlerError::Serialization(_) => ErrorSeverity::High,
            CrawlerError::Parser(_) | CrawlerError::NotFound { .. } => ErrorSeverity::Medium,
            CrawlerError::Network(_) | CrawlerError::Timeout { .. } | CrawlerError::RateLimit(
                _,
            ) => ErrorSeverity::Low,
            CrawlerError::Browser(_) | CrawlerError::LLM(_) | CrawlerError::Io(_)
                => ErrorSeverity::Medium,
            CrawlerError::ExternalService { .. } | CrawlerError::Unknown(_)
                => ErrorSeverity::Medium,
        }
    }
}

} // verus!
