//! Request-level errors.
//!
//! An error carries an internal diagnostic message, an HTTP status code, and
//! a separate user-facing message. Only the user-facing message ever reaches
//! the response body: the page built by [`AppError::body_html`] is a fixed
//! frame around `user_message` alone, so internal diagnostics cannot leak to
//! the client.

use vstd::prelude::*;
use vstd::string::StringExecFns;

verus! {

/// What the error page holds around the user-facing message.
pub open spec fn error_page_spec(user_message: Seq<char>) -> Seq<char> {
    "<!DOCTYPE html>\n<html lang=\"en\">\n<head>\n<meta charset=\"utf-8\">\n<title>Oops!</title>\n</head>\n<body>\n<h1>Oops!</h1>\n<p>Sorry, but something went wrong.</p>\n<p>"@
        + user_message
        + "</p>\n</body>\n</html>\n"@
}

/// An internal request error: an HTTP status code, a diagnostic message for
/// the operator, and a message that may be shown to the user.
#[derive(Debug)]
pub struct AppError {
    pub code: u16,
    pub message: String,
    pub user_message: String,
}

impl AppError {
    /// A fresh internal error: status 500, the given diagnostic message, and
    /// no user-facing text.
    pub fn new(message: String) -> (e: Self)
        ensures
            e.code == 500,
            e.message@ == message@,
            e.user_message@ == Seq::<char>::empty(),
    {
        AppError { code: 500, message, user_message: String::new() }
    }

    /// The same error under another HTTP status code: client protocol
    /// errors carry a 4xx, never a 5xx.
    pub fn with_code(self, code: u16) -> (e: Self)
        ensures
            e.code == code,
            e.message@ == self.message@,
            e.user_message@ == self.user_message@,
    {
        AppError { code, ..self }
    }

    /// The same error with a user-facing message attached.
    pub fn with_user_message(self, user_message: String) -> (e: Self)
        ensures
            e.code == self.code,
            e.message@ == self.message@,
            e.user_message@ == user_message@,
    {
        AppError { user_message, ..self }
    }

    /// The response body for this error: the fixed failure page around the
    /// user-facing message, and nothing of the diagnostic message.
    pub fn body_html(&self) -> (r: String)
        ensures
            r@ == error_page_spec(self.user_message@),
    {
        let mut r =
            "<!DOCTYPE html>\n<html lang=\"en\">\n<head>\n<meta charset=\"utf-8\">\n<title>Oops!</title>\n</head>\n<body>\n<h1>Oops!</h1>\n<p>Sorry, but something went wrong.</p>\n<p>".to_owned();
        r.append(self.user_message.as_str());
        r.append("</p>\n</body>\n</html>\n");
        proof {
            assert(r@ =~= error_page_spec(self.user_message@));
        }
        r
    }
}

} // verus!
