//! User identities and the keys under which sessions are filed.

use vstd::prelude::*;
use crate::text::same_text;

verus! {

/// A user of the messaging network: a local part and the server it lives on.
#[derive(Debug, PartialEq, Eq)]
pub struct UserId {
    pub localpart: String,
    pub server_name: String,
}

/// The mathematical value of a [`UserId`].
pub struct UserName {
    pub localpart: Seq<char>,
    pub server_name: Seq<char>,
}

impl View for UserId {
    type V = UserName;

    open spec fn view(&self) -> UserName {
        UserName { localpart: self.localpart@, server_name: self.server_name@ }
    }
}

impl Clone for UserId {
    fn clone(&self) -> (r: Self)
        ensures
            r@ == self@,
    {
        UserId { localpart: self.localpart.clone(), server_name: self.server_name.clone() }
    }
}

impl UserId {
    pub fn new(localpart: String, server_name: String) -> (r: Self)
        ensures
            r.localpart == localpart,
            r.server_name == server_name,
    {
        UserId { localpart, server_name }
    }

    /// Whether two identities name the same user on the same server.
    pub fn same(&self, other: &UserId) -> (r: bool)
        ensures
            r == (self@ == other@),
    {
        same_text(self.localpart.as_str(), other.localpart.as_str()) && same_text(
            self.server_name.as_str(),
            other.server_name.as_str(),
        )
    }
}

/// The view of an optional identity, as a pair of local part and server name.
pub open spec fn opt_user(o: Option<UserId>) -> Option<(Seq<char>, Seq<char>)> {
    match o {
        Some(id) => Some((id.localpart@, id.server_name@)),
        None => None,
    }
}

/// The identity that `ruma` reads out of `username` for a server called
/// `server_name`, as local part and server name; `None` where it accepts
/// neither the server name nor the user name.
pub uninterp spec fn parsed_user_id(username: Seq<char>, server_name: Seq<char>) -> Option<
    (Seq<char>, Seq<char>),
>;

/// Completes a user name to an identity with `ruma::UserId::parse_with_server_name`.
///
/// The user name may be a full identifier or a bare local part; in the
/// second case the identity is on the server `server_name`. Not proved here:
/// that the result depends on the two strings alone, which is all the
/// contract claims.
#[verifier::external_body]
pub(crate) fn parse_with_server_name(username: &str, server_name: &str) -> (r: Option<UserId>)
    ensures
        opt_user(r) == parsed_user_id(username@, server_name@),
{
    let Ok(server) = <&ruma::ServerName>::try_from(server_name) else {
        return None;
    };
    match ruma::UserId::parse_with_server_name(username, server) {
        Ok(id) => Some(
            UserId {
                localpart: id.localpart().to_owned(),
                server_name: id.server_name().as_str().to_owned(),
            },
        ),
        Err(_) => None,
    }
}

/// Whether `ruma` accepts `name` as the name of a server.
pub uninterp spec fn server_name_ok(name: Seq<char>) -> bool;

/// Asks `ruma` whether a string is a server name, with the conversion from
/// `&str` to `&ServerName`.
///
/// Not proved here: that the answer depends on the string alone, which is
/// all the contract claims.
#[verifier::external_body]
pub(crate) fn is_server_name(name: &str) -> (r: bool)
    ensures
        r == server_name_ok(name@),
{
    <&ruma::ServerName>::try_from(name).is_ok()
}

/// What identifies one authentication attempt: who makes it, from which
/// device, under which session token.
pub struct SessionKey {
    pub user: UserName,
    pub device: Seq<char>,
    pub session: Seq<char>,
}

} // verus!
