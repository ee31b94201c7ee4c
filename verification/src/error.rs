//! The two-layer error taxonomy and its mapping to a response.

use vstd::prelude::*;
use vstd::string::StringExecFns;

verus! {

/// What `{:?}` writes for a string: the text between double quotes, with
/// the characters that need it escaped.
pub uninterp spec fn str_debug(s: Seq<char>) -> Seq<char>;

/// The quoted, escaped form of a string.
///
/// Trusted: wraps the `Debug` formatting of `str`, whose output depends on
/// the characters of the string alone.
#[verifier::external_body]
fn debug_quoted(s: &str) -> (r: String)
    ensures
        r@ == str_debug(s@),
{
    format!("{:?}", s)
}

/// A failure raised outside the domain rules (by the storage driver, by the
/// mail transport, by the credential check), kept as the two texts it
/// shows: the short one and the verbose one.
#[derive(Debug, Clone, PartialEq, Eq)]
pub struct Fault {
    pub message: String,
    pub details: String,
}

/// What a `Fault` stands for in contracts.
pub struct FaultView {
    pub message: Seq<char>,
    pub details: Seq<char>,
}

impl View for Fault {
    type V = FaultView;

    open spec fn view(&self) -> FaultView {
        FaultView { message: self.message@, details: self.details@ }
    }
}

impl Fault {
    /// A fault whose verbose text is its message.
    pub fn plain(message: &str) -> (r: Fault)
        ensures
            r@ == (FaultView { message: message@, details: message@ }),
    {
        Fault { message: String::from_str(message), details: String::from_str(message) }
    }
}

/// A violated business rule, with the message shown to the caller.
#[derive(Debug, Clone, PartialEq, Eq)]
pub struct DomainError(pub String);

impl View for DomainError {
    type V = Seq<char>;

    open spec fn view(&self) -> Seq<char> {
        self.0@
    }
}

impl DomainError {
    /// The domain error with the given message.
    pub fn new(message: &str) -> (r: DomainError)
        ensures
            r@ == message@,
    {
        DomainError(String::from_str(message))
    }
}

impl From<String> for DomainError {
    fn from(value: String) -> (r: DomainError) {
        DomainError(value)
    }
}

impl vstd::std_specs::convert::FromSpecImpl<String> for DomainError {
    open spec fn obeys_from_spec() -> bool {
        true
    }

    open spec fn from_spec(value: String) -> DomainError {
        DomainError(value)
    }
}

/// A domain error met where none should be possible: stored data that no
/// longer passes the rules it was written under.
#[derive(Debug, Clone, PartialEq, Eq)]
pub struct InternalLogicDomainError(pub DomainError);

impl View for InternalLogicDomainError {
    type V = Seq<char>;

    open spec fn view(&self) -> Seq<char> {
        self.0@
    }
}

/// A failure of a collaborator that the caller cannot mend.
#[derive(Debug, Clone, PartialEq, Eq)]
pub struct InternalLogicError(pub Fault);

impl View for InternalLogicError {
    type V = FaultView;

    open spec fn view(&self) -> FaultView {
        self.0@
    }
}

/// What the repository reports.
#[derive(Debug, Clone, PartialEq, Eq)]
pub enum RepositoryError {
    /// The storage engine failed.
    Database(Fault),
    /// A stored value broke a domain rule while a result was assembled.
    Domain(DomainError),
}

/// What a `RepositoryError` stands for in contracts.
pub enum RepositoryErrorView {
    Database(FaultView),
    Domain(Seq<char>),
}

impl View for RepositoryError {
    type V = RepositoryErrorView;

    open spec fn view(&self) -> RepositoryErrorView {
        match self {
            RepositoryError::Database(f) => RepositoryErrorView::Database(f@),
            RepositoryError::Domain(d) => RepositoryErrorView::Domain(d@),
        }
    }
}

/// What a request handler reports.
#[derive(Debug, Clone, PartialEq, Eq)]
pub enum ApplicationError {
    RepositoryError(RepositoryError),
    InternalLogicDomainError(InternalLogicDomainError),
    InternalLogicError(InternalLogicError),
    /// A failed credential check. What it holds is for the server's own
    /// use: no answer shows it.
    AuthError(Fault),
    DomainError(DomainError),
}

/// What an `ApplicationError` stands for in contracts.
pub enum ApplicationErrorView {
    RepositoryError(RepositoryErrorView),
    InternalLogicDomainError(Seq<char>),
    InternalLogicError(FaultView),
    AuthError(FaultView),
    DomainError(Seq<char>),
}

impl View for ApplicationError {
    type V = ApplicationErrorView;

    open spec fn view(&self) -> ApplicationErrorView {
        match self {
            ApplicationError::RepositoryError(e) => ApplicationErrorView::RepositoryError(e@),
            ApplicationError::InternalLogicDomainError(e) => {
                ApplicationErrorView::InternalLogicDomainError(e@)
            },
            ApplicationError::InternalLogicError(e) => ApplicationErrorView::InternalLogicError(e@),
            ApplicationError::AuthError(f) => ApplicationErrorView::AuthError(f@),
            ApplicationError::DomainError(d) => ApplicationErrorView::DomainError(d@),
        }
    }
}

/// Status of a storage fault or of an internal error.
pub const INTERNAL_SERVER_ERROR: u16 = 500;

/// Status of a violated business rule.
pub const BAD_REQUEST: u16 = 400;

/// Status of a failed credential check.
pub const UNAUTHORIZED: u16 = 401;

/// The verbose text of a domain error: its name around the quoted message.
pub open spec fn domain_details(message: Seq<char>) -> Seq<char> {
    "DomainError("@ + str_debug(message) + ")"@
}

/// The verbose text of a repository error.
pub open spec fn repository_details(e: RepositoryErrorView) -> Seq<char> {
    match e {
        RepositoryErrorView::Database(f) => "Database("@ + f.details + ")"@,
        RepositoryErrorView::Domain(m) => "Domain("@ + domain_details(m) + ")"@,
    }
}

/// The short text of a repository error.
pub open spec fn repository_message(e: RepositoryErrorView) -> Seq<char> {
    match e {
        RepositoryErrorView::Database(f) => f.message,
        RepositoryErrorView::Domain(m) => m,
    }
}

/// The one fault of every failed credential check. It names no reason, so
/// that an answer made of it does not tell an unreadable header from
/// credentials that match no user.
pub open spec fn auth_failed() -> FaultView {
    FaultView { message: "Authentication failed"@, details: "Authentication failed"@ }
}

/// The application error of every failed credential check.
pub open spec fn refusal() -> ApplicationErrorView {
    ApplicationErrorView::AuthError(auth_failed())
}

/// The status that an application error is answered with.
pub open spec fn status_of(e: ApplicationErrorView) -> u16 {
    match e {
        ApplicationErrorView::RepositoryError(_) => INTERNAL_SERVER_ERROR,
        ApplicationErrorView::InternalLogicDomainError(_) => INTERNAL_SERVER_ERROR,
        ApplicationErrorView::InternalLogicError(_) => INTERNAL_SERVER_ERROR,
        ApplicationErrorView::AuthError(_) => UNAUTHORIZED,
        ApplicationErrorView::DomainError(_) => BAD_REQUEST,
    }
}

/// The short text of an application error: that of the failure it wraps,
/// but for a failed credential check, whose text never depends on what the
/// error holds.
pub open spec fn message_of(e: ApplicationErrorView) -> Seq<char> {
    match e {
        ApplicationErrorView::RepositoryError(r) => repository_message(r),
        ApplicationErrorView::InternalLogicDomainError(m) => m,
        ApplicationErrorView::InternalLogicError(f) => f.message,
        ApplicationErrorView::AuthError(_) => auth_failed().message,
        ApplicationErrorView::DomainError(m) => m,
    }
}

/// The verbose text of an application error: the name of each layer around
/// the verbose text of what it wraps. For a failed credential check it
/// names no reason.
pub open spec fn details_of(e: ApplicationErrorView) -> Seq<char> {
    match e {
        ApplicationErrorView::RepositoryError(r) => "RepositoryError("@ + repository_details(r)
            + ")"@,
        ApplicationErrorView::InternalLogicDomainError(m) => "InternalLogicDomainError("@ + (
        "InternalLogicDomainError("@ + domain_details(m) + ")"@) + ")"@,
        ApplicationErrorView::InternalLogicError(f) => "InternalLogicError("@ + (
        "InternalLogicError("@ + f.details + ")"@) + ")"@,
        ApplicationErrorView::AuthError(_) => "AuthError("@ + auth_failed().details + ")"@,
        ApplicationErrorView::DomainError(m) => "DomainError("@ + domain_details(m) + ")"@,
    }
}

/// The application error for a failure of the repository: a storage fault
/// stays a repository error; a domain error found in stored data becomes an
/// internal one.
pub open spec fn repository_failure(e: RepositoryErrorView) -> ApplicationErrorView {
    match e {
        RepositoryErrorView::Database(f) => ApplicationErrorView::RepositoryError(
            RepositoryErrorView::Database(f),
        ),
        RepositoryErrorView::Domain(m) => ApplicationErrorView::InternalLogicDomainError(m),
    }
}

/// Every failed credential check is answered alike, whatever the error
/// holds: same status, same message, same details.
pub proof fn lemma_auth_errors_answered_alike(first: FaultView, second: FaultView)
    ensures
        status_of(ApplicationErrorView::AuthError(first)) == UNAUTHORIZED,
        status_of(ApplicationErrorView::AuthError(first)) == status_of(
            ApplicationErrorView::AuthError(second),
        ),
        message_of(ApplicationErrorView::AuthError(first)) == message_of(
            ApplicationErrorView::AuthError(second),
        ),
        details_of(ApplicationErrorView::AuthError(first)) == details_of(
            ApplicationErrorView::AuthError(second),
        ),
        !is_logged(status_of(ApplicationErrorView::AuthError(first))),
{
}

/// Whether an answer with this status is written to the server's log.
pub open spec fn is_logged(status: u16) -> bool {
    status >= 500
}

/// `inner` between `name` and a closing bracket.
fn wrapped(name: &str, inner: String) -> (r: String)
    ensures
        r@ == name@ + inner@ + ")"@,
{
    let mut out = String::from_str(name);
    out.append(inner.as_str());
    out.append(")");
    out
}

impl DomainError {
    /// The message shown to the caller.
    pub fn message(&self) -> (r: String)
        ensures
            r@ == self@,
    {
        self.0.clone()
    }

    /// The verbose text.
    pub fn details(&self) -> (r: String)
        ensures
            r@ == domain_details(self@),
    {
        wrapped("DomainError(", debug_quoted(self.0.as_str()))
    }
}

impl RepositoryError {
    /// The short text.
    pub fn message(&self) -> (r: String)
        ensures
            r@ == repository_message(self@),
    {
        match self {
            RepositoryError::Database(f) => f.message.clone(),
            RepositoryError::Domain(d) => d.message(),
        }
    }

    /// The verbose text.
    pub fn details(&self) -> (r: String)
        ensures
            r@ == repository_details(self@),
    {
        match self {
            RepositoryError::Database(f) => wrapped("Database(", f.details.clone()),
            RepositoryError::Domain(d) => wrapped("Domain(", d.details()),
        }
    }
}

/// The body of an error answer.
#[derive(Debug, Clone, PartialEq, Eq)]
pub struct ErrorBody {
    pub message: String,
    pub details: String,
}

/// An error answer: the status, the body, and whether the server logs it.
#[derive(Debug, Clone, PartialEq, Eq)]
pub struct ErrorResponse {
    pub status: u16,
    pub body: ErrorBody,
    pub logged: bool,
}

impl ApplicationError {
    /// The application error for a failure of the repository: a storage
    /// fault stays a repository error, a domain error found in stored data
    /// becomes an internal one, never a caller-visible one.
    pub fn from_repository(e: RepositoryError) -> (r: ApplicationError)
        ensures
            r@ == repository_failure(e@),
            status_of(r@) == INTERNAL_SERVER_ERROR,
            message_of(r@) == repository_message(e@),
    {
        match e {
            RepositoryError::Database(f) => ApplicationError::RepositoryError(
                RepositoryError::Database(f),
            ),
            RepositoryError::Domain(d) => ApplicationError::InternalLogicDomainError(
                InternalLogicDomainError(d),
            ),
        }
    }

    /// The error of a failed credential check: the same for every reason
    /// of the failure.
    pub fn unauthorized() -> (r: ApplicationError)
        ensures
            r@ == refusal(),
            status_of(r@) == UNAUTHORIZED,
    {
        ApplicationError::AuthError(Fault::plain("Authentication failed"))
    }

    /// The status that this error is answered with.
    pub fn status_code(&self) -> (r: u16)
        ensures
            r == status_of(self@),
            r == 400 || r == 401 || r == 500,
    {
        match self {
            ApplicationError::RepositoryError(_) => INTERNAL_SERVER_ERROR,
            ApplicationError::InternalLogicDomainError(_) => INTERNAL_SERVER_ERROR,
            ApplicationError::InternalLogicError(_) => INTERNAL_SERVER_ERROR,
            ApplicationError::AuthError(_) => UNAUTHORIZED,
            ApplicationError::DomainError(_) => BAD_REQUEST,
        }
    }

    /// The short text.
    pub fn message(&self) -> (r: String)
        ensures
            r@ == message_of(self@),
    {
        match self {
            ApplicationError::RepositoryError(e) => e.message(),
            ApplicationError::InternalLogicDomainError(e) => e.0.message(),
            ApplicationError::InternalLogicError(e) => e.0.message.clone(),
            ApplicationError::AuthError(_) => String::from_str("Authentication failed"),
            ApplicationError::DomainError(d) => d.message(),
        }
    }

    /// The verbose text.
    pub fn details(&self) -> (r: String)
        ensures
            r@ == details_of(self@),
    {
        match self {
            ApplicationError::RepositoryError(e) => wrapped("RepositoryError(", e.details()),
            ApplicationError::InternalLogicDomainError(e) => wrapped(
                "InternalLogicDomainError(",
                wrapped("InternalLogicDomainError(", e.0.details()),
            ),
            ApplicationError::InternalLogicError(e) => wrapped(
                "InternalLogicError(",
                wrapped("InternalLogicError(", e.0.details.clone()),
            ),
            ApplicationError::AuthError(_) => wrapped(
                "AuthError(",
                String::from_str("Authentication failed"),
            ),
            ApplicationError::DomainError(d) => wrapped("DomainError(", d.details()),
        }
    }

    /// The answer for this error: status by category, both texts in the
    /// body, and a log entry exactly for the statuses from 500 up.
    pub fn into_response(self) -> (r: ErrorResponse)
        ensures
            r.status == status_of(self@),
            r.body.message@ == message_of(self@),
            r.body.details@ == details_of(self@),
            r.logged == is_logged(r.status),
    {
        let status = self.status_code();
        let body = ErrorBody { message: self.message(), details: self.details() };
        ErrorResponse { status, body, logged: status >= 500 }
    }
}

} // verus!
