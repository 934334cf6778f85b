//! The stage verifiers: what one submitted proof is worth.

use vstd::prelude::*;
use crate::auth::{AuthData, Identifier, PasswordCheck, Submission, UserIdentifier};
use crate::error::Error;
use crate::identity::{opt_user, UserId, UserName};
use crate::info::{ErrorBody, ErrorClass, ErrorKind, StandardErrorBody};
use crate::stage::{AuthType, Stage};
use crate::text::{same_text, texts};
use crate::tokens::{is_token_accepted, token_accepted};

verus! {

/// What a verifier makes of a proof that it does not refuse outright.
#[derive(Debug, PartialEq, Eq)]
pub enum Outcome {
    /// The stage is proved.
    Completed(AuthType),
    /// The proof is wrong; the client may try again.
    Rejected(StandardErrorBody),
    /// The proof counts for nothing, and against nothing.
    Ignored,
}

/// The mathematical value of an [`Outcome`].
pub enum Verdict {
    Completed(Stage),
    Rejected(ErrorBody),
    Ignored,
}

impl View for Outcome {
    type V = Verdict;

    open spec fn view(&self) -> Verdict {
        match self {
            Outcome::Completed(stage) => Verdict::Completed(stage@),
            Outcome::Rejected(error) => Verdict::Rejected(error@),
            Outcome::Ignored => Verdict::Ignored,
        }
    }
}

/// The view of a verifier's result.
pub open spec fn ruling(r: Result<Outcome, Error>) -> Result<Verdict, Error> {
    match r {
        Ok(outcome) => Ok(outcome@),
        Err(e) => Err(e),
    }
}

/// The error body recorded for a wrong password.
pub open spec fn wrong_password() -> ErrorBody {
    ErrorBody { kind: ErrorClass::Forbidden, message: "Invalid username or password."@ }
}

/// The error body recorded for a wrong registration token.
pub open spec fn wrong_token() -> ErrorBody {
    ErrorBody { kind: ErrorClass::Forbidden, message: "Invalid registration token."@ }
}

/// What a password proof is worth.
///
/// `resolved` is the identity that the proof's user name resolves to, as
/// local part and server name. The proof is refused outright when it names
/// its user in another form than a user name, when the name resolves to no
/// identity, and when the identity's local part is not the caller's. These
/// come before any look at the password: `check` is read only for a proof
/// that passed them.
pub open spec fn password_verdict(
    caller: UserName,
    identifier: Option<Identifier>,
    resolved: Option<(Seq<char>, Seq<char>)>,
    check: PasswordCheck,
) -> Result<Verdict, Error> {
    match identifier {
        Some(Identifier::UserIdOrLocalpart(_)) => match resolved {
            None => Err(Error::InvalidUserId),
            Some((localpart, _)) => if localpart != caller.localpart {
                Err(Error::UserMismatch)
            } else {
                match check {
                    PasswordCheck::Matches => Ok(Verdict::Completed(Stage::Password)),
                    PasswordCheck::Mismatch => Ok(Verdict::Rejected(wrong_password())),
                    PasswordCheck::NoHash => Ok(Verdict::Ignored),
                }
            },
        },
        _ => Err(Error::UnrecognizedIdentifier),
    }
}

/// What a registration token proof is worth, given the tokens in force.
pub open spec fn token_verdict(tokens: Seq<Seq<char>>, supplied: Seq<char>) -> Verdict {
    if token_accepted(tokens, supplied) {
        Verdict::Completed(Stage::RegistrationToken)
    } else {
        Verdict::Rejected(wrong_token())
    }
}

/// What a proof is worth: a password proof and a registration token proof by
/// their own rules, a dummy proof always completes its stage, and a proof of
/// any other kind is ignored.
pub open spec fn verdict(
    caller: UserName,
    auth: Submission,
    resolved: Option<(Seq<char>, Seq<char>)>,
    check: PasswordCheck,
    tokens: Seq<Seq<char>>,
) -> Result<Verdict, Error> {
    match auth {
        Submission::Password { identifier, .. } => password_verdict(
            caller,
            identifier,
            resolved,
            check,
        ),
        Submission::RegistrationToken { token, .. } => Ok(token_verdict(tokens, token)),
        Submission::Dummy { .. } => Ok(Verdict::Completed(Stage::Dummy)),
        Submission::Unsupported { .. } => Ok(Verdict::Ignored),
    }
}

/// Judges a password proof.
pub fn verify_password(
    caller: &UserId,
    identifier: &Option<UserIdentifier>,
    resolved: &Option<UserId>,
    check: PasswordCheck,
) -> (r: Result<Outcome, Error>)
    ensures
        ruling(r) == password_verdict(
            caller@,
            crate::auth::opt_identifier(*identifier),
            opt_user(*resolved),
            check,
        ),
{
    match identifier {
        Some(UserIdentifier::UserIdOrLocalpart(_)) => {},
        _ => {
            return Err(Error::UnrecognizedIdentifier);
        },
    }
    let Some(user) = resolved else {
        return Err(Error::InvalidUserId);
    };
    if !same_text(caller.localpart.as_str(), user.localpart.as_str()) {
        return Err(Error::UserMismatch);
    }
    match check {
        PasswordCheck::Matches => Ok(Outcome::Completed(AuthType::Password)),
        PasswordCheck::Mismatch => Ok(
            Outcome::Rejected(
                StandardErrorBody {
                    kind: ErrorKind::Forbidden,
                    message: "Invalid username or password.".to_owned(),
                },
            ),
        ),
        PasswordCheck::NoHash => Ok(Outcome::Ignored),
    }
}

/// Judges a registration token proof against the tokens in force.
pub fn verify_registration_token(tokens: &Vec<String>, supplied: &str) -> (r: Outcome)
    ensures
        r@ == token_verdict(texts(tokens@), supplied@),
{
    if is_token_accepted(tokens, supplied) {
        Outcome::Completed(AuthType::RegistrationToken)
    } else {
        Outcome::Rejected(
            StandardErrorBody {
                kind: ErrorKind::Forbidden,
                message: "Invalid registration token.".to_owned(),
            },
        )
    }
}

/// Judges a proof of any kind.
pub fn verify_stage(
    caller: &UserId,
    auth: &AuthData,
    resolved: &Option<UserId>,
    check: PasswordCheck,
    tokens: &Vec<String>,
) -> (r: Result<Outcome, Error>)
    ensures
        ruling(r) == verdict(caller@, auth@, opt_user(*resolved), check, texts(tokens@)),
{
    match auth {
        AuthData::Password { identifier, .. } => verify_password(
            caller,
            identifier,
            resolved,
            check,
        ),
        AuthData::RegistrationToken { token, .. } => Ok(
            verify_registration_token(tokens, token.as_str()),
        ),
        AuthData::Dummy { .. } => Ok(Outcome::Completed(AuthType::Dummy)),
        AuthData::Unsupported { .. } => Ok(Outcome::Ignored),
    }
}

} // verus!
