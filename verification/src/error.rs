//! The failures a request can end in, and how each is reported.

use vstd::prelude::*;
use vstd::string::StringExecFns;

verus! {

/// A failure of the service itself. Each variant names the component that
/// failed and holds the text that component gave for the failure.
#[derive(Clone, Debug, PartialEq, Eq)]
pub enum InternalError {
    Tcp(String),
    Diesel(String),
    DieselInit(String),
    DieselPool(String),
    Sqlx(String),
    Redis(String),
    RedisPool(String),
    Reqwest(String),
    ReqwestMiddleware(String),
    AxumLogin(String),
    SystemError(String),
}

/// Why a request was not served.
#[derive(Clone, Debug, PartialEq, Eq)]
pub enum Error {
    NotLoggedIn,
    LockedOut,
    UserNotAdmin,
    InternalError(InternalError),
}

pub const STATUS_UNAUTHORIZED: u16 = 401;

pub const STATUS_FORBIDDEN: u16 = 403;

pub const STATUS_INTERNAL_SERVER_ERROR: u16 = 500;

impl InternalError {
    /// The text held by the error, whatever its variant.
    pub open spec fn detail(self) -> Seq<char> {
        match self {
            InternalError::Tcp(s) => s@,
            InternalError::Diesel(s) => s@,
            InternalError::DieselInit(s) => s@,
            InternalError::DieselPool(s) => s@,
            InternalError::Sqlx(s) => s@,
            InternalError::Redis(s) => s@,
            InternalError::RedisPool(s) => s@,
            InternalError::Reqwest(s) => s@,
            InternalError::ReqwestMiddleware(s) => s@,
            InternalError::AxumLogin(s) => s@,
            InternalError::SystemError(s) => s@,
        }
    }

    /// The label under which the error is counted.
    pub open spec fn counter_label(self) -> Seq<char> {
        match self {
            InternalError::Tcp(_) => "tcp"@,
            InternalError::Diesel(_) => "diesel"@,
            InternalError::DieselInit(_) => "diesel-init"@,
            InternalError::DieselPool(_) => "diesel-pool"@,
            InternalError::Sqlx(_) => "sqlx"@,
            InternalError::Redis(_) => "redis"@,
            InternalError::RedisPool(_) => "redis-pool"@,
            InternalError::Reqwest(_) => "reqwest"@,
            InternalError::ReqwestMiddleware(_) => "reqwest-middleware"@,
            InternalError::AxumLogin(_) => "login"@,
            InternalError::SystemError(_) => "unknown"@,
        }
    }

    /// What the error reads as: the component's own text, except for a
    /// system error, which is announced as such.
    pub open spec fn rendered(self) -> Seq<char> {
        match self {
            InternalError::SystemError(s) => "System: "@ + s@,
            _ => self.detail(),
        }
    }

    /// A system error raised at `prefix` with the given `context`.
    pub fn system_error(prefix: &str, context: &str) -> (error: Self)
        ensures
            error is SystemError,
            error.detail() == "Internal error ["@ + prefix@ + "]: "@ + context@,
    {
        let mut text = String::from_str("Internal error [");
        text.append(prefix);
        text.append("]: ");
        text.append(context);
        InternalError::SystemError(text)
    }

    /// A system error that holds `value` as its text.
    pub fn from_text(value: String) -> (error: Self)
        ensures
            error == InternalError::SystemError(value),
    {
        InternalError::SystemError(value)
    }

    pub fn counter_error_kind(&self) -> (label: &'static str)
        ensures
            label@ == self.counter_label(),
    {
        match self {
            InternalError::Tcp(_) => "tcp",
            InternalError::Diesel(_) => "diesel",
            InternalError::DieselInit(_) => "diesel-init",
            InternalError::DieselPool(_) => "diesel-pool",
            InternalError::Sqlx(_) => "sqlx",
            InternalError::Redis(_) => "redis",
            InternalError::RedisPool(_) => "redis-pool",
            InternalError::Reqwest(_) => "reqwest",
            InternalError::ReqwestMiddleware(_) => "reqwest-middleware",
            InternalError::AxumLogin(_) => "login",
            InternalError::SystemError(_) => "unknown",
        }
    }

    /// The error as one line of text.
    pub fn message(&self) -> (text: String)
        ensures
            text@ == self.rendered(),
    {
        match self {
            InternalError::Tcp(s) => s.clone(),
            InternalError::Diesel(s) => s.clone(),
            InternalError::DieselInit(s) => s.clone(),
            InternalError::DieselPool(s) => s.clone(),
            InternalError::Sqlx(s) => s.clone(),
            InternalError::Redis(s) => s.clone(),
            InternalError::RedisPool(s) => s.clone(),
            InternalError::Reqwest(s) => s.clone(),
            InternalError::ReqwestMiddleware(s) => s.clone(),
            InternalError::AxumLogin(s) => s.clone(),
            InternalError::SystemError(s) => String::from_str("System: ").concat(s.as_str()),
        }
    }
}

impl Error {
    /// The HTTP status that goes with the error.
    pub open spec fn status(self) -> u16 {
        match self {
            Error::NotLoggedIn => STATUS_UNAUTHORIZED,
            Error::UserNotAdmin => STATUS_UNAUTHORIZED,
            Error::LockedOut => STATUS_FORBIDDEN,
            Error::InternalError(_) => STATUS_INTERNAL_SERVER_ERROR,
        }
    }

    /// What the client is told.
    pub open spec fn public_text(self) -> Seq<char> {
        match self {
            Error::NotLoggedIn => "User is not logged in, use /login/github to log in."@,
            Error::UserNotAdmin => "Admin is required."@,
            Error::LockedOut => "Creator is locked out due to moderator review, contact support for assistance."@,
            Error::InternalError(_) => "Internal error, please contact the service owner."@,
        }
    }

    /// The label under which the error is counted.
    pub open spec fn counter_label(self) -> Seq<char> {
        match self {
            Error::NotLoggedIn => "not_logged_in"@,
            Error::UserNotAdmin => "not_admin"@,
            Error::LockedOut => "locked_out"@,
            Error::InternalError(e) => e.counter_label(),
        }
    }

    /// What the error reads as in a log.
    pub open spec fn rendered(self) -> Seq<char> {
        match self {
            Error::NotLoggedIn => "User is not logged in"@,
            Error::LockedOut => "Operation is not allowed as the user is locked out"@,
            Error::UserNotAdmin => "Operation is only allowed to admin users"@,
            Error::InternalError(e) => "Internal Error: "@ + e.rendered(),
        }
    }

    pub fn internal_from(inner: InternalError) -> (error: Self)
        ensures
            error == Error::InternalError(inner),
    {
        Error::InternalError(inner)
    }

    pub fn get_status(&self) -> (status: u16)
        ensures
            status == self.status(),
    {
        match self {
            Error::NotLoggedIn => STATUS_UNAUTHORIZED,
            Error::UserNotAdmin => STATUS_UNAUTHORIZED,
            Error::LockedOut => STATUS_FORBIDDEN,
            Error::InternalError(_) => STATUS_INTERNAL_SERVER_ERROR,
        }
    }

    pub fn get_json_error(&self) -> (text: &'static str)
        ensures
            text@ == self.public_text(),
    {
        match self {
            Error::NotLoggedIn => "User is not logged in, use /login/github to log in.",
            Error::UserNotAdmin => "Admin is required.",
            Error::LockedOut => {
                "Creator is locked out due to moderator review, contact support for assistance."
            },
            Error::InternalError(_) => "Internal error, please contact the service owner.",
        }
    }

    pub fn with_status(self) -> (pair: (u16, Self))
        ensures
            pair.0 == self.status(),
            pair.1 == self,
    {
        (self.get_status(), self)
    }

    pub fn counter_error_kind(&self) -> (label: &'static str)
        ensures
            label@ == self.counter_label(),
    {
        match self {
            Error::NotLoggedIn => "not_logged_in",
            Error::UserNotAdmin => "not_admin",
            Error::LockedOut => "locked_out",
            Error::InternalError(e) => e.counter_error_kind(),
        }
    }

    /// The error as one line of text.
    pub fn message(&self) -> (text: String)
        ensures
            text@ == self.rendered(),
    {
        match self {
            Error::NotLoggedIn => String::from_str("User is not logged in"),
            Error::LockedOut => String::from_str(
                "Operation is not allowed as the user is locked out",
            ),
            Error::UserNotAdmin => String::from_str("Operation is only allowed to admin users"),
            Error::InternalError(e) => {
                let inner = e.message();
                String::from_str("Internal Error: ").concat(inner.as_str())
            },
        }
    }
}

} // verus!
