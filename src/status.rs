use vstd::prelude::*;

verus! {

/// The outcome reported in every response body, with its stable numeric code.
#[derive(Clone, Copy, Debug, PartialEq, Eq, Structural)]
pub enum Status {
    Success,
    UsernameTooLong,
    PasswordTooLong,
    Unauthorized,
    Forbidden,
    UsernameOccupied,
    NotFound,
    InternalError,
    BadGateway,
}

/// Upper bound, in bytes, on a username or a password at registration.
pub const MAX_CREDENTIAL_LEN: usize = 32;

pub open spec fn status_code_of(s: Status) -> i32 {
    match s {
        Status::Success => 0,
        Status::UsernameTooLong => 400,
        Status::PasswordTooLong => 400,
        Status::Unauthorized => 401,
        Status::Forbidden => 403,
        Status::UsernameOccupied => 403,
        Status::NotFound => 404,
        Status::InternalError => 500,
        Status::BadGateway => 502,
    }
}

/// The human-readable text of each status.
pub open spec fn status_text(s: Status) -> Seq<char> {
    match s {
        Status::Success => "Success"@,
        Status::UsernameTooLong => "username too long: max length is 32 bytes"@,
        Status::PasswordTooLong => "password too long: max length is 32 bytes"@,
        Status::Unauthorized => "Unauthorized"@,
        Status::Forbidden => "Forbidden"@,
        Status::UsernameOccupied => "The username has been occupied."@,
        Status::NotFound => "Not Found"@,
        Status::InternalError => "Internal Server Error"@,
        Status::BadGateway => "Bad Gateway"@,
    }
}

impl Status {
    /// Machine-readable code: 0 success, 400 client error, 401 unauthorized,
    /// 403 conflict or forbidden, 404 not found, 500 internal, 502 backend unavailable.
    pub fn code(&self) -> (r: i32)
        ensures
            r == status_code_of(*self),
    {
        match self {
            Status::Success => 0,
            Status::UsernameTooLong => 400,
            Status::PasswordTooLong => 400,
            Status::Unauthorized => 401,
            Status::Forbidden => 403,
            Status::UsernameOccupied => 403,
            Status::NotFound => 404,
            Status::InternalError => 500,
            Status::BadGateway => 502,
        }
    }

    /// Short human-readable text that goes with the code.
    pub fn message(&self) -> (r: &'static str)
        ensures
            r@ == status_text(*self),
            r@.len() > 0,
    {
        let r = match self {
            Status::Success => "Success",
            Status::UsernameTooLong => "username too long: max length is 32 bytes",
            Status::PasswordTooLong => "password too long: max length is 32 bytes",
            Status::Unauthorized => "Unauthorized",
            Status::Forbidden => "Forbidden",
            Status::UsernameOccupied => "The username has been occupied.",
            Status::NotFound => "Not Found",
            Status::InternalError => "Internal Server Error",
            Status::BadGateway => "Bad Gateway",
        };
        proof {
            reveal_strlit("Success");
            reveal_strlit("username too long: max length is 32 bytes");
            reveal_strlit("password too long: max length is 32 bytes");
            reveal_strlit("Unauthorized");
            reveal_strlit("Forbidden");
            reveal_strlit("The username has been occupied.");
            reveal_strlit("Not Found");
            reveal_strlit("Internal Server Error");
            reveal_strlit("Bad Gateway");
        }
        r
    }
}

/// Body of a registration or login response.
pub struct LoginRes {
    pub status: Status,
    pub user_id: i64,
    pub token: String,
}

/// What a login or registration response says, with the token as text.
pub struct LoginView {
    pub status: Status,
    pub user_id: i64,
    pub token: Seq<char>,
}

impl View for LoginRes {
    type V = LoginView;

    open spec fn view(&self) -> LoginView {
        LoginView { status: self.status, user_id: self.user_id, token: self.token@ }
    }
}

/// A response that carries no identity and no token.
pub open spec fn login_failure_view(status: Status) -> LoginView {
    LoginView { status, user_id: 0, token: Seq::empty() }
}

impl LoginRes {
    pub fn failure(status: Status) -> (r: LoginRes)
        ensures
            r@ == login_failure_view(status),
    {
        LoginRes { status, user_id: 0, token: String::new() }
    }

    pub fn status_code(&self) -> (r: i32)
        ensures
            r == status_code_of(self.status),
    {
        self.status.code()
    }
}

} // verus!
