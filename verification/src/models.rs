//! The account records and the error type of the library.

use crate::date::Date;
use vstd::prelude::*;

verus! {

/// Why an account operation failed: `Client` errors are meant for the user,
/// `Internal` errors describe a fault on the server side.
#[derive(Debug, Clone, PartialEq, Eq)]
pub enum AuthError {
    Client(String),
    Internal(String),
}

/// An `AuthError` with its message as a character sequence.
pub enum AuthErrorView {
    Client(Seq<char>),
    Internal(Seq<char>),
}

impl View for AuthError {
    type V = AuthErrorView;

    open spec fn view(&self) -> AuthErrorView {
        match self {
            AuthError::Client(m) => AuthErrorView::Client(m@),
            AuthError::Internal(m) => AuthErrorView::Internal(m@),
        }
    }
}

/// A result carrying a string, with both sides viewed.
pub open spec fn string_result_view(r: Result<String, AuthError>) -> Result<Seq<char>, AuthErrorView> {
    match r {
        Ok(s) => Ok(s@),
        Err(e) => Err(e@),
    }
}

/// The text shown to the user in place of an internal error.
pub open spec fn server_side_message() -> Seq<char> {
    "There was an error on the server side"@
}

/// The error a user is shown: client errors pass unchanged, internal errors
/// become a generic client error.
pub open spec fn client_facing_spec(e: AuthErrorView) -> AuthErrorView {
    match e {
        AuthErrorView::Client(m) => AuthErrorView::Client(m),
        AuthErrorView::Internal(_) => AuthErrorView::Client(server_side_message()),
    }
}

/// Hides the detail of an internal error from the user.
pub fn client_facing(e: AuthError) -> (r: AuthError)
    ensures
        r@ == client_facing_spec(e@),
        r is Client,
        e is Client ==> r@ == e@,
        e is Internal ==> r@ == AuthErrorView::Client("There was an error on the server side"@),
{
    match e {
        AuthError::Client(m) => AuthError::Client(m),
        AuthError::Internal(_) => AuthError::Client("There was an error on the server side".to_owned()),
    }
}

/// The credentials of a login.
#[derive(Debug, Clone)]
pub struct LoginRequest {
    pub username: String,
    pub password: String,
}

/// The answer to a successful login.
#[derive(Debug, Clone)]
pub struct LoginResponse {
    pub uuid: String,
}

/// A user's profile.
#[derive(Debug, Clone)]
pub struct UserProfile {
    pub uuid: String,
    pub name: String,
    pub username: String,
    pub gender: String,
    pub dob: Date,
    pub star_sign: String,
    pub interests: Vec<String>,
}

/// A `UserProfile` with its texts as character sequences.
pub struct UserProfileView {
    pub uuid: Seq<char>,
    pub name: Seq<char>,
    pub username: Seq<char>,
    pub gender: Seq<char>,
    pub dob: (i32, u32, u32),
    pub star_sign: Seq<char>,
    pub interests: Seq<Seq<char>>,
}

impl View for UserProfile {
    type V = UserProfileView;

    open spec fn view(&self) -> UserProfileView {
        UserProfileView {
            uuid: self.uuid@,
            name: self.name@,
            username: self.username@,
            gender: self.gender@,
            dob: self.dob@,
            star_sign: self.star_sign@,
            interests: self.interests@.map_values(|s: String| s@),
        }
    }
}

} // verus!
