use vstd::prelude::*;

verus! {

/// Which kind of input failed to parse.
#[derive(Debug, Clone, Copy, PartialEq, Eq, Structural)]
pub enum ParseError {
    Email,
    Password,
    LoginAttemptId,
    TwoFACode,
}

/// The errors that the authentication operations report to their callers.
#[derive(Debug, Clone, Copy, PartialEq, Eq, Structural)]
pub enum AuthAPIError {
    UserAlreadyExists,
    InvalidCredentials,
    UnexpectedError,
    IncorrectCredentials,
    MissingToken,
    InvalidToken,
}

/// The body sent with an error.
pub struct ErrorResponse {
    pub error: String,
}

/// The HTTP status that answers each error.
pub open spec fn status_of(e: AuthAPIError) -> u16 {
    match e {
        AuthAPIError::UserAlreadyExists => 409,
        AuthAPIError::InvalidCredentials => 400,
        AuthAPIError::IncorrectCredentials => 401,
        AuthAPIError::MissingToken => 400,
        AuthAPIError::InvalidToken => 401,
        AuthAPIError::UnexpectedError => 500,
    }
}

/// The message sent with each error; an unexpected one reveals nothing of its
/// cause.
pub open spec fn message_of(e: AuthAPIError) -> Seq<char> {
    match e {
        AuthAPIError::UserAlreadyExists => "User already exists"@,
        AuthAPIError::InvalidCredentials => "Invalid credentials"@,
        AuthAPIError::IncorrectCredentials => "Incorrect credentials"@,
        AuthAPIError::MissingToken => "Missing auth token"@,
        AuthAPIError::InvalidToken => "Invalid auth token"@,
        AuthAPIError::UnexpectedError => "Unexpected error"@,
    }
}

impl AuthAPIError {
    pub fn status_code(&self) -> (r: u16)
        ensures
            r == status_of(*self),
    {
        match self {
            AuthAPIError::UserAlreadyExists => 409,
            AuthAPIError::InvalidCredentials => 400,
            AuthAPIError::IncorrectCredentials => 401,
            AuthAPIError::MissingToken => 400,
            AuthAPIError::InvalidToken => 401,
            AuthAPIError::UnexpectedError => 500,
        }
    }

    pub fn error_response(&self) -> (r: ErrorResponse)
        ensures
            r.error@ == message_of(*self),
    {
        let message = match self {
            AuthAPIError::UserAlreadyExists => "User already exists",
            AuthAPIError::InvalidCredentials => "Invalid credentials",
            AuthAPIError::IncorrectCredentials => "Incorrect credentials",
            AuthAPIError::MissingToken => "Missing auth token",
            AuthAPIError::InvalidToken => "Invalid auth token",
            AuthAPIError::UnexpectedError => "Unexpected error",
        };
        ErrorResponse { error: message.to_owned() }
    }
}

/// The rule that frames an error report.
pub const ERROR_REPORT_SEPARATOR: &'static str =
    "\n-----------------------------------------------------------------------------------\n";

/// The causes of an error, each on a block of its own, in order.
pub open spec fn causes_text(causes: Seq<Seq<char>>) -> Seq<char>
    decreases causes.len(),
{
    if causes.len() == 0 {
        Seq::empty()
    } else {
        causes_text(causes.drop_last()) + "\nCaused by:\n\n"@ + causes.last()
    }
}

/// The report written to the log for an error and its chain of causes.
pub open spec fn error_report(error: Seq<char>, causes: Seq<Seq<char>>) -> Seq<char> {
    ERROR_REPORT_SEPARATOR@ + error + "\n"@ + causes_text(causes) + "\n"@ + ERROR_REPORT_SEPARATOR@
}

/// Builds the report that is logged for `error`, whose causes, innermost last,
/// are `causes`.
pub fn log_error_chain(error: &str, causes: &Vec<String>) -> (report: String)
    ensures
        report@ == error_report(error@, causes@.map_values(|c: String| c@)),
{
    let ghost views = causes@.map_values(|c: String| c@);
    let mut report = String::new();
    report.append(ERROR_REPORT_SEPARATOR);
    report.append(error);
    report.append("\n");
    let mut i: usize = 0;
    while i < causes.len()
        invariant
            i <= causes@.len(),
            views == causes@.map_values(|c: String| c@),
            report@ == ERROR_REPORT_SEPARATOR@ + error@ + "\n"@ + causes_text(views.take(i as int)),
        decreases causes@.len() - i,
    {
        let ghost before = report@;
        report.append("\nCaused by:\n\n");
        report.append(causes[i].as_str());
        assert(views.take(i + 1).drop_last() =~= views.take(i as int));
        assert(report@ =~= ERROR_REPORT_SEPARATOR@ + error@ + "\n"@ + causes_text(
            views.take(i + 1),
        ));
        i = i + 1;
    }
    assert(views.take(i as int) =~= views);
    report.append("\n");
    report.append(ERROR_REPORT_SEPARATOR);
    report
}

} // verus!
