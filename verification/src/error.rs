//! The failure taxonomy shared by every flow, and its mapping to the few
//! outcomes a client is allowed to see.

use vstd::prelude::*;

verus! {

/// A failure of a request. The variant decides the status a client sees;
/// the text is the only detail that leaves the process.
#[derive(Debug, Clone, PartialEq, Eq)]
pub enum AppError {
    BadRequest(String),
    Unauthorized(String),
    Conflict(String),
    Internal(String),
    Db,
}

/// What a client is sent for a failure: the status of the response and
/// the one field of its body.
#[derive(Clone, Debug, PartialEq, Eq)]
pub struct ErrorResponse {
    pub status: u16,
    pub message: String,
}

/// The mathematical content of an [`AppError`].
pub ghost enum AppErrorView {
    BadRequest(Seq<char>),
    Unauthorized(Seq<char>),
    Conflict(Seq<char>),
    Internal(Seq<char>),
    Db,
}

impl View for AppError {
    type V = AppErrorView;

    open spec fn view(&self) -> AppErrorView {
        match *self {
            AppError::BadRequest(m) => AppErrorView::BadRequest(m@),
            AppError::Unauthorized(m) => AppErrorView::Unauthorized(m@),
            AppError::Conflict(m) => AppErrorView::Conflict(m@),
            AppError::Internal(m) => AppErrorView::Internal(m@),
            AppError::Db => AppErrorView::Db,
        }
    }
}

impl AppErrorView {
    /// The status of the response: client fault, unauthenticated, conflict,
    /// or server fault.
    pub open spec fn status(self) -> u16 {
        match self {
            AppErrorView::BadRequest(_) => 400,
            AppErrorView::Unauthorized(_) => 401,
            AppErrorView::Conflict(_) => 409,
            AppErrorView::Internal(_) => 500,
            AppErrorView::Db => 500,
        }
    }

    /// The text of the response body. A storage failure never carries
    /// detail of its own.
    pub open spec fn message(self) -> Seq<char> {
        match self {
            AppErrorView::BadRequest(m) => m,
            AppErrorView::Unauthorized(m) => m,
            AppErrorView::Conflict(m) => m,
            AppErrorView::Internal(m) => m,
            AppErrorView::Db => "db error"@,
        }
    }
}

impl AppError {
    /// The HTTP status this failure is answered with.
    pub fn status_code(&self) -> (code: u16)
        ensures
            code == self@.status(),
    {
        match self {
            AppError::BadRequest(_) => 400,
            AppError::Unauthorized(_) => 401,
            AppError::Conflict(_) => 409,
            AppError::Internal(_) => 500,
            AppError::Db => 500,
        }
    }

    /// The message this failure is answered with.
    pub fn message(&self) -> (text: String)
        ensures
            text@ == self@.message(),
    {
        match self {
            AppError::BadRequest(m) => m.clone(),
            AppError::Unauthorized(m) => m.clone(),
            AppError::Conflict(m) => m.clone(),
            AppError::Internal(m) => m.clone(),
            AppError::Db => "db error".to_owned(),
        }
    }

    /// The response that answers this failure.
    pub fn into_response(self) -> (response: ErrorResponse)
        ensures
            response.status == self@.status(),
            response.message@ == self@.message(),
    {
        let status = self.status_code();
        let message = match self {
            AppError::BadRequest(m) => m,
            AppError::Unauthorized(m) => m,
            AppError::Conflict(m) => m,
            AppError::Internal(m) => m,
            AppError::Db => "db error".to_owned(),
        };
        ErrorResponse { status, message }
    }
}

/// A failure is answered with one of four statuses, and anything but a
/// fault of the client's own making with a status that says so.
pub proof fn lemma_status_follows_the_kind(e: AppErrorView)
    ensures
        e.status() == 400 || e.status() == 401 || e.status() == 409 || e.status() == 500,
        e.status() == 400 <==> e is BadRequest,
        e.status() == 401 <==> e is Unauthorized,
        e.status() == 409 <==> e is Conflict,
        e.status() == 500 <==> e is Internal || e is Db,
{
}

} // verus!
