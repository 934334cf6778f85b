//! What a client submits to prove one stage, and what the server's
//! collaborators have to say about it.

use vstd::prelude::*;
use crate::info::opt_text;
use crate::stage::{AuthType, Stage};

verus! {

/// How a password proof names its user.
#[derive(Debug, PartialEq, Eq)]
pub enum UserIdentifier {
    /// A full user identifier or a bare local part.
    UserIdOrLocalpart(String),
    /// Any other form, such as an e-mail address or a phone number.
    ThirdParty,
}

/// The mathematical value of a [`UserIdentifier`].
pub enum Identifier {
    UserIdOrLocalpart(Seq<char>),
    ThirdParty,
}

impl View for UserIdentifier {
    type V = Identifier;

    open spec fn view(&self) -> Identifier {
        match self {
            UserIdentifier::UserIdOrLocalpart(name) => Identifier::UserIdOrLocalpart(name@),
            UserIdentifier::ThirdParty => Identifier::ThirdParty,
        }
    }
}

/// The view of an optional identifier.
pub open spec fn opt_identifier(o: Option<UserIdentifier>) -> Option<Identifier> {
    match o {
        Some(i) => Some(i@),
        None => None,
    }
}

/// The proof of one stage, as a client submits it. Each form may carry the
/// token of the session it continues.
#[derive(Debug, PartialEq, Eq)]
pub enum AuthData {
    Password { identifier: Option<UserIdentifier>, password: String, session: Option<String> },
    RegistrationToken { token: String, session: Option<String> },
    Dummy { session: Option<String> },
    /// A proof for a stage kind that the engine does not implement.
    Unsupported { kind: String, session: Option<String> },
}

/// The mathematical value of an [`AuthData`].
pub enum Submission {
    Password { identifier: Option<Identifier>, password: Seq<char>, session: Option<Seq<char>> },
    RegistrationToken { token: Seq<char>, session: Option<Seq<char>> },
    Dummy { session: Option<Seq<char>> },
    Unsupported { kind: Seq<char>, session: Option<Seq<char>> },
}

impl Submission {
    /// The token of the session that the proof continues, if it names one.
    pub open spec fn session(self) -> Option<Seq<char>> {
        match self {
            Submission::Password { session, .. } => session,
            Submission::RegistrationToken { session, .. } => session,
            Submission::Dummy { session } => session,
            Submission::Unsupported { session, .. } => session,
        }
    }

    /// The stage that the proof is for.
    pub open spec fn stage(self) -> Stage {
        match self {
            Submission::Password { .. } => Stage::Password,
            Submission::RegistrationToken { .. } => Stage::RegistrationToken,
            Submission::Dummy { .. } => Stage::Dummy,
            Submission::Unsupported { kind, .. } => Stage::Unsupported(kind),
        }
    }

    /// The user name of a password proof that gives one.
    pub open spec fn username(self) -> Option<Seq<char>> {
        match self {
            Submission::Password { identifier: Some(Identifier::UserIdOrLocalpart(name)), .. } => Some(
                name,
            ),
            _ => None,
        }
    }
}

impl View for AuthData {
    type V = Submission;

    open spec fn view(&self) -> Submission {
        match self {
            AuthData::Password { identifier, password, session } => Submission::Password {
                identifier: opt_identifier(*identifier),
                password: password@,
                session: opt_text(*session),
            },
            AuthData::RegistrationToken { token, session } => Submission::RegistrationToken {
                token: token@,
                session: opt_text(*session),
            },
            AuthData::Dummy { session } => Submission::Dummy { session: opt_text(*session) },
            AuthData::Unsupported { kind, session } => Submission::Unsupported {
                kind: kind@,
                session: opt_text(*session),
            },
        }
    }
}

impl AuthData {
    /// The token of the session that the proof continues, if it names one.
    pub fn session(&self) -> (r: Option<&str>)
        ensures
            match r {
                Some(s) => self@.session() == Some(s@),
                None => self@.session() is None,
            },
    {
        let session = match self {
            AuthData::Password { session, .. } => session,
            AuthData::RegistrationToken { session, .. } => session,
            AuthData::Dummy { session } => session,
            AuthData::Unsupported { session, .. } => session,
        };
        match session {
            Some(s) => Some(s.as_str()),
            None => None,
        }
    }

    /// The stage that the proof is for.
    pub fn auth_type(&self) -> (r: AuthType)
        ensures
            r@ == self@.stage(),
    {
        match self {
            AuthData::Password { .. } => AuthType::Password,
            AuthData::RegistrationToken { .. } => AuthType::RegistrationToken,
            AuthData::Dummy { .. } => AuthType::Dummy,
            AuthData::Unsupported { kind, .. } => AuthType::Unsupported(kind.clone()),
        }
    }

    /// The user name of a password proof that gives one. It is the account
    /// service's cue: the password hash to look up is that of the identity
    /// this name resolves to.
    pub fn username(&self) -> (r: Option<&str>)
        ensures
            match r {
                Some(s) => self@.username() == Some(s@),
                None => self@.username() is None,
            },
    {
        match self {
            AuthData::Password { identifier: Some(UserIdentifier::UserIdOrLocalpart(name)), .. } => Some(
                name.as_str(),
            ),
            _ => None,
        }
    }
}

/// What the account service found when it held the submitted password
/// against the stored hash of the user that the proof names.
#[derive(Clone, Copy, Debug, PartialEq, Eq, Structural)]
pub enum PasswordCheck {
    /// The account has no password hash.
    NoHash,
    /// The password fits the hash.
    Matches,
    /// The password does not fit the hash.
    Mismatch,
}

/// The answers of the server's collaborators that one attempt may depend on.
#[derive(Debug, PartialEq, Eq)]
pub struct Evidence {
    /// The account service's finding; read for password proofs only.
    pub password: PasswordCheck,
    /// The text of the registration token file as it is now, or `None` where
    /// no file is configured or it cannot be read; read for registration
    /// token proofs only.
    pub token_file: Option<String>,
}

/// The mathematical value of an [`Evidence`].
pub struct Findings {
    pub password: PasswordCheck,
    pub token_file: Option<Seq<char>>,
}

impl View for Evidence {
    type V = Findings;

    open spec fn view(&self) -> Findings {
        Findings { password: self.password, token_file: opt_text(self.token_file) }
    }
}

} // verus!
