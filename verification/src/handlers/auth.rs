//! The login request and the rules it has to meet.

use vstd::prelude::*;
use vstd::string::*;

use crate::errors::ApiError;

verus! {

/// Fewest characters that a password may have.
pub const MIN_PASSWORD_LENGTH: usize = 6;

/// What a client sends to log in.
#[derive(Clone, Debug)]
pub struct LoginRouteParams {
    pub email: String,
    pub password: String,
}

/// Whether `email` is an address as the `validator` crate understands the
/// HTML5 rules for one.
pub uninterp spec fn email_is_valid(email: Seq<char>) -> bool;

/// Calls `validator::validate_email`. The contract claims that its answer
/// depends on the text alone, and names it `email_is_valid`.
#[verifier::external_body]
fn validate_email(email: &str) -> (valid: bool)
    ensures
        valid == email_is_valid(email@),
{
    validator::validate_email(email)
}

/// The message for an address that is none.
pub open spec fn email_message() -> Seq<char> {
    "email must be a valid email"@
}

/// The message for a password that is too short.
pub open spec fn password_message() -> Seq<char> {
    "password is required and must be at least 6 characters"@
}

/// The messages for a login request whose address is valid or not, as
/// `email_valid` says, and whose password is `password`: one for each rule
/// that is broken, the address first.
pub open spec fn login_messages(email_valid: bool, password: Seq<char>) -> Seq<Seq<char>> {
    let for_email = if email_valid {
        Seq::<Seq<char>>::empty()
    } else {
        seq![email_message()]
    };
    let for_password = if password.len() >= MIN_PASSWORD_LENGTH {
        Seq::<Seq<char>>::empty()
    } else {
        seq![password_message()]
    };
    for_email + for_password
}

/// Judges a login request whose address has been looked at already: it
/// passes if the address is valid and the password has at least 6
/// characters, and fails with the messages of the broken rules otherwise.
pub fn check_login(email_valid: bool, password: &str) -> (outcome: Result<(), ApiError>)
    ensures
        outcome is Ok <==> email_valid && password@.len() >= MIN_PASSWORD_LENGTH,
        outcome is Err ==> outcome->Err_0 is ValidationError,
        outcome matches Err(ApiError::ValidationError(messages)) ==> messages.deep_view()
            == login_messages(email_valid, password@),
{
    let mut messages: Vec<String> = Vec::new();
    if !email_valid {
        messages.push("email must be a valid email".to_owned());
    }
    if password.unicode_len() < MIN_PASSWORD_LENGTH {
        messages.push("password is required and must be at least 6 characters".to_owned());
    }
    assert(messages.deep_view() =~= login_messages(email_valid, password@));
    if messages.len() == 0 {
        Ok(())
    } else {
        Err(ApiError::ValidationError(messages))
    }
}

impl LoginRouteParams {
    /// Judges the request: it passes if the address is valid and the
    /// password has at least 6 characters, and fails with the messages of
    /// the broken rules otherwise.
    pub fn validate(&self) -> (outcome: Result<(), ApiError>)
        ensures
            outcome is Ok <==> email_is_valid(self.email@) && self.password@.len()
                >= MIN_PASSWORD_LENGTH,
            outcome is Err ==> outcome->Err_0 is ValidationError,
            outcome matches Err(ApiError::ValidationError(messages)) ==> messages.deep_view()
                == login_messages(email_is_valid(self.email@), self.password@),
    {
        let email_valid = validate_email(self.email.as_str());
        check_login(email_valid, self.password.as_str())
    }
}

} // verus!
