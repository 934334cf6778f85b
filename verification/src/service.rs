//! The authentication engine: sessions, their progress, and the requests
//! that wait for them.

use vstd::prelude::*;
use crate::auth::{AuthData, Evidence, Findings, Submission};
use crate::error::Error;
use crate::flow::{is_satisfied, satisfied};
use crate::identity::{
    is_server_name, opt_user, parse_with_server_name, parsed_user_id, server_name_ok, SessionKey,
    UserId, UserName,
};
use crate::info::{opt_text, Progress, UiaaInfo};
use crate::stage::{contains_stage, stages};
use crate::store::SessionMap;
use crate::text::{same_text, texts};
use crate::tokens::{collect_tokens, opt_str, token_list};
use crate::verify::{ruling, verdict, verify_stage, Outcome, Verdict};
use ruma::CanonicalJsonValue;

verus! {

/// The length of a session token that the engine makes up.
pub const SESSION_ID_LENGTH: usize = 32;

/// The device under which a request is looked up when none is given: the
/// device whose name is empty. It matches no other device.
pub open spec fn no_device() -> Seq<char> {
    Seq::empty()
}

/// An ASCII letter or digit.
pub open spec fn alphanumeric(c: char) -> bool {
    ('0' <= c && c <= '9') || ('a' <= c && c <= 'z') || ('A' <= c && c <= 'Z')
}

/// What holds of every session token that the engine makes up.
pub open spec fn fresh_token(token: Seq<char>) -> bool {
    &&& token.len() == SESSION_ID_LENGTH
    &&& forall|i: int| 0 <= i < token.len() ==> alphanumeric(#[trigger] token[i])
}

/// Draws a random string with `rand`'s `Alphanumeric` distribution, from the
/// thread's generator.
///
/// Not proved here: that the string has `length` characters, each of them an
/// ASCII letter or digit. Nothing is claimed of which ones.
#[verifier::external_body]
pub(crate) fn random_string(length: usize) -> (r: String)
    ensures
        r@.len() == length,
        forall|i: int| 0 <= i < r@.len() ==> alphanumeric(#[trigger] r@[i]),
{
    rand::distributions::DistString::sample_string(
        &rand::distributions::Alphanumeric,
        &mut rand::thread_rng(),
        length,
    )
}

/// The request payload that waits for a session to complete. The engine
/// stores and returns it and never looks inside.
#[verifier::external_type_specification]
#[verifier::external_body]
pub struct ExCanonicalJsonValue(CanonicalJsonValue);

/// Copies a payload with `CanonicalJsonValue`'s `clone`.
///
/// Not proved here: that the copy equals the value it was made of.
#[verifier::external_body]
pub(crate) fn clone_json(value: &CanonicalJsonValue) -> (r: CanonicalJsonValue)
    ensures
        r == *value,
{
    value.clone()
}

/// The key of the session of `user` on `device` with token `session`.
pub open spec fn session_key(user: UserName, device: Seq<char>, session: Seq<char>) -> SessionKey {
    SessionKey { user, device, session }
}

/// The views of the stored progress records, key by key.
pub open spec fn progress_map(m: Map<SessionKey, UiaaInfo>) -> Map<SessionKey, Progress> {
    Map::new(|k: SessionKey| m.contains_key(k), |k: SessionKey| m[k]@)
}

/// The record `p` with `fresh` as its session token, if it had none.
pub open spec fn with_session(p: Progress, fresh: Seq<char>) -> Progress {
    if p.session is None {
        Progress { session: Some(fresh), ..p }
    } else {
        p
    }
}

/// The record `p` after a verifier has ruled `v`.
///
/// A completed stage joins the completed ones, unless it is among them
/// already, and clears the error. A rejected proof leaves its error. An
/// ignored proof changes nothing. Flows and session token stay as they are.
pub open spec fn recorded(p: Progress, v: Verdict) -> Progress {
    match v {
        Verdict::Completed(stage) => Progress {
            completed: if p.completed.contains(stage) {
                p.completed
            } else {
                p.completed.push(stage)
            },
            auth_error: None,
            ..p
        },
        Verdict::Rejected(error) => Progress { auth_error: Some(error), ..p },
        Verdict::Ignored => p,
    }
}

/// Whether the attempt ends the session: the proof was not rejected, and
/// with it recorded some flow is satisfied.
pub open spec fn concluded(p: Progress, v: Verdict) -> bool {
    !(v is Rejected) && satisfied(recorded(p, v).flows, recorded(p, v).completed_set())
}

/// The mathematical value of a [`Service`].
pub struct State {
    /// The stored progress of each session.
    pub sessions: Map<SessionKey, Progress>,
    /// The request that waits for each session.
    pub requests: Map<SessionKey, CanonicalJsonValue>,
    /// The name of the server that local user names belong to.
    pub server_name: Seq<char>,
    /// The configured registration token.
    pub registration_token: Option<Seq<char>>,
}

impl State {
    /// Each stored record carries the token that it is stored under. This
    /// holds of an engine in which every record was filed by `create` or by
    /// an attempt, and `update_uiaa_session` keeps it where it is given a
    /// record under the record's own token.
    pub open spec fn keyed_by_token(self) -> bool {
        forall|k: SessionKey| #[trigger]
            self.sessions.contains_key(k) ==> self.sessions[k].session == Some(k.session)
    }

    /// The record that an attempt starts from: the stored one where the
    /// proof names a session, `None` where it names one that is not stored,
    /// and the caller's `fallback` where it names none.
    pub open spec fn opened(
        self,
        user: UserName,
        device: Seq<char>,
        auth: Submission,
        fallback: Progress,
    ) -> Option<Progress> {
        match auth.session() {
            Some(session) => if self.sessions.contains_key(session_key(user, device, session)) {
                Some(self.sessions[session_key(user, device, session)])
            } else {
                None
            },
            None => Some(fallback),
        }
    }

    /// The identity that the proof's user name resolves to on this server.
    pub open spec fn resolved(self, auth: Submission) -> Option<(Seq<char>, Seq<char>)> {
        match auth.username() {
            Some(name) => parsed_user_id(name, self.server_name),
            None => None,
        }
    }

    /// The identity whose password hash an attempt depends on, if it depends
    /// on one: that of a password proof for a session that opens, whose user
    /// name resolves to an identity with the caller's local part. For every
    /// other attempt the account service is not to be asked.
    pub open spec fn password_subject(
        self,
        user: UserName,
        device: Seq<char>,
        auth: Submission,
        fallback: Progress,
    ) -> Option<(Seq<char>, Seq<char>)> {
        if self.opened(user, device, auth, fallback) is None {
            None
        } else {
            match self.resolved(auth) {
                Some((localpart, server_name)) => if localpart == user.localpart {
                    Some((localpart, server_name))
                } else {
                    None
                },
                None => None,
            }
        }
    }

    /// The verifier's ruling on the proof.
    pub open spec fn ruled(self, user: UserName, auth: Submission, found: Findings) -> Result<
        Verdict,
        Error,
    > {
        verdict(
            user,
            auth,
            self.resolved(auth),
            found.password,
            token_list(found.token_file, self.registration_token),
        )
    }

    /// The error that ends the attempt outright, if any: the session that
    /// the proof names is not stored, or else the verifier refuses the proof.
    pub open spec fn refusal(
        self,
        user: UserName,
        device: Seq<char>,
        auth: Submission,
        fallback: Progress,
        found: Findings,
    ) -> Option<Error> {
        match self.opened(user, device, auth, fallback) {
            None => Some(Error::SessionNotFound),
            Some(_) => match self.ruled(user, auth, found) {
                Err(e) => Some(e),
                Ok(_) => None,
            },
        }
    }

    /// What holds when an attempt is refused with `error` and leaves the
    /// state `after`: the error is the one that `refusal` names, and nothing
    /// has changed.
    pub open spec fn refuses(
        self,
        user: UserName,
        device: Seq<char>,
        auth: Submission,
        fallback: Progress,
        found: Findings,
        error: Error,
        after: State,
    ) -> bool {
        &&& self.refusal(user, device, auth, fallback, found) == Some(error)
        &&& after == self
    }

    /// What holds when an attempt is taken, answers `done` with the progress
    /// `info`, and leaves the state `after`.
    ///
    /// Nothing refuses the attempt. `info` is the record that the attempt
    /// started from, with the verifier's ruling recorded in it; if that
    /// record had no session token, `info` carries one that the engine made
    /// up. `done` says whether the session is concluded, and `after` has
    /// `info` filed, or dropped when `done`.
    pub open spec fn accepts(
        self,
        user: UserName,
        device: Seq<char>,
        auth: Submission,
        fallback: Progress,
        found: Findings,
        done: bool,
        info: Progress,
        after: State,
    ) -> bool {
        let start = self.opened(user, device, auth, fallback);
        let ruled = self.ruled(user, auth, found);
        &&& self.refusal(user, device, auth, fallback, found) is None
        &&& info.session is Some
        &&& start->0.session is None ==> fresh_token(info.session->0)
        &&& info == recorded(with_session(start->0, info.session->0), ruled->Ok_0)
        &&& done == concluded(start->0, ruled->Ok_0)
        &&& after == self.filed(user, device, info, done)
    }

    /// The state once `p` has been filed for `user` on `device` under its own
    /// token, or, when the session is `done`, dropped.
    pub open spec fn filed(self, user: UserName, device: Seq<char>, p: Progress, done: bool) -> State
        recommends
            p.session is Some,
    {
        let key = session_key(user, device, p.session->0);
        State {
            sessions: if done {
                self.sessions.remove(key)
            } else {
                self.sessions.insert(key, p)
            },
            ..self
        }
    }
}

/// The engine. It owns the stored progress of every session and the
/// requests waiting for them; whoever holds it exclusively has a session's
/// whole read, verify and write sequence to themselves.
pub struct Service {
    requests: SessionMap<CanonicalJsonValue>,
    sessions: SessionMap<UiaaInfo>,
    server_name: String,
    registration_token: Option<String>,
}

impl View for Service {
    type V = State;

    closed spec fn view(&self) -> State {
        State {
            sessions: progress_map(self.sessions@),
            requests: self.requests@,
            server_name: self.server_name@,
            registration_token: opt_text(self.registration_token),
        }
    }
}

proof fn lemma_progress_insert(m: Map<SessionKey, UiaaInfo>, k: SessionKey, v: UiaaInfo)
    ensures
        progress_map(m.insert(k, v)) == progress_map(m).insert(k, v@),
{
    assert(progress_map(m.insert(k, v)) =~= progress_map(m).insert(k, v@));
}

proof fn lemma_progress_remove(m: Map<SessionKey, UiaaInfo>, k: SessionKey)
    ensures
        progress_map(m.remove(k)) == progress_map(m).remove(k),
{
    assert(progress_map(m.remove(k)) =~= progress_map(m).remove(k));
}

impl UiaaInfo {
    /// Records a verifier's ruling.
    pub fn record(&mut self, outcome: Outcome)
        ensures
            final(self)@ == recorded(old(self)@, outcome@),
    {
        match outcome {
            Outcome::Completed(stage) => {
                if !contains_stage(&self.completed, &stage) {
                    assert(stages(self.completed@.push(stage)) =~= stages(self.completed@).push(
                        stage@,
                    ));
                    self.completed.push(stage);
                }
                self.auth_error = None;
            },
            Outcome::Rejected(error) => {
                self.auth_error = Some(error);
            },
            Outcome::Ignored => {},
        }
    }
}

impl Service {
    /// Neither map files a key twice, and the server's name is one.
    pub closed spec fn wf(&self) -> bool {
        &&& self.requests.wf()
        &&& self.sessions.wf()
        &&& server_name_ok(self.server_name@)
    }

    /// The engine's server name is the name of a server.
    pub proof fn lemma_server_name(&self)
        requires
            self.wf(),
        ensures
            server_name_ok(self@.server_name),
    {
    }

    /// An engine for the server `server_name` with no session and no
    /// request stored; none where `server_name` is not the name of a server.
    pub fn build(server_name: String, registration_token: Option<String>) -> (r: Option<Self>)
        ensures
            r is Some <==> server_name_ok(server_name@),
            r matches Some(service) ==> service.wf() && service@ == (State {
                sessions: Map::empty(),
                requests: Map::empty(),
                server_name: server_name@,
                registration_token: opt_text(registration_token),
            }),
    {
        if !is_server_name(server_name.as_str()) {
            return None;
        }
        let service = Service {
            requests: SessionMap::new(),
            sessions: SessionMap::new(),
            server_name,
            registration_token,
        };
        assert(service@.sessions =~= Map::empty());
        Some(service)
    }

    /// The registration tokens in force, given the text of the token file as
    /// it is now (`None` where no file is configured or it cannot be read):
    /// the words of the file, then the configured token.
    pub fn read_tokens(&self, file: Option<&str>) -> (tokens: Vec<String>)
        ensures
            texts(tokens@) == token_list(opt_str(file), self@.registration_token),
    {
        let fixed = match &self.registration_token {
            Some(token) => Some(token.as_str()),
            None => None,
        };
        collect_tokens(file, fixed)
    }

    /// Opens a session: files `json_body` as the request that waits for it,
    /// and `uiaainfo` as its progress, both under the token that `uiaainfo`
    /// carries. Whatever was filed under that key before is replaced.
    pub fn create(
        &mut self,
        user_id: &UserId,
        device_id: &str,
        uiaainfo: &UiaaInfo,
        json_body: &CanonicalJsonValue,
    )
        requires
            old(self).wf(),
            uiaainfo.session is Some,
        ensures
            final(self).wf(),
            final(self)@ == (State {
                sessions: old(self)@.sessions.insert(
                    session_key(user_id@, device_id@, uiaainfo@.session->0),
                    uiaainfo@,
                ),
                requests: old(self)@.requests.insert(
                    session_key(user_id@, device_id@, uiaainfo@.session->0),
                    *json_body,
                ),
                ..old(self)@
            }),
    {
        let session = uiaainfo.session.as_ref().unwrap();
        self.set_uiaa_request(user_id, device_id, session.as_str(), json_body);
        self.update_uiaa_session(user_id, device_id, session.as_str(), Some(uiaainfo));
    }

    /// Files `request` as the request that waits for the session.
    pub fn set_uiaa_request(
        &mut self,
        user_id: &UserId,
        device_id: &str,
        session: &str,
        request: &CanonicalJsonValue,
    )
        requires
            old(self).wf(),
        ensures
            final(self).wf(),
            final(self)@ == (State {
                requests: old(self)@.requests.insert(
                    session_key(user_id@, device_id@, session@),
                    *request,
                ),
                ..old(self)@
            }),
    {
        self.requests.insert(
            user_id.clone(),
            device_id.to_owned(),
            session.to_owned(),
            clone_json(request),
        );
    }

    /// The request that waits for the session. Without a device the request
    /// is looked up under the device whose name is empty, and under no other.
    pub fn get_uiaa_request(&self, user_id: &UserId, device_id: Option<&str>, session: &str) -> (r:
        Option<CanonicalJsonValue>)
        requires
            self.wf(),
        ensures
            r == ({
                let device = match device_id {
                    Some(d) => d@,
                    None => no_device(),
                };
                let key = session_key(user_id@, device, session@);
                if self@.requests.contains_key(key) {
                    Some(self@.requests[key])
                } else {
                    None
                }
            }),
    {
        let device = match device_id {
            Some(d) => d,
            None => {
                proof {
                    reveal_strlit("");
                }
                assert(""@ =~= no_device());
                ""
            },
        };
        match self.requests.get(user_id, device, session) {
            Some(value) => Some(clone_json(value)),
            None => None,
        }
    }

    /// Files `uiaainfo` as the progress of the session, or drops the
    /// session's progress where there is none to file. Whatever record is
    /// given is filed under the key, whether or not it carries the key's
    /// token.
    pub fn update_uiaa_session(
        &mut self,
        user_id: &UserId,
        device_id: &str,
        session: &str,
        uiaainfo: Option<&UiaaInfo>,
    )
        requires
            old(self).wf(),
        ensures
            final(self).wf(),
            final(self)@ == (State {
                sessions: match uiaainfo {
                    Some(info) => old(self)@.sessions.insert(
                        session_key(user_id@, device_id@, session@),
                        info@,
                    ),
                    None => old(self)@.sessions.remove(session_key(user_id@, device_id@, session@)),
                },
                ..old(self)@
            }),
    {
        let ghost key = session_key(user_id@, device_id@, session@);
        match uiaainfo {
            Some(info) => {
                let copy = info.clone();
                proof {
                    lemma_progress_insert(self.sessions@, key, copy);
                }
                self.sessions.insert(
                    user_id.clone(),
                    device_id.to_owned(),
                    session.to_owned(),
                    copy,
                );
            },
            None => {
                proof {
                    lemma_progress_remove(self.sessions@, key);
                }
                self.sessions.remove(user_id, device_id, session);
            },
        }
    }

    /// The stored progress of the session.
    pub fn get_uiaa_session(&self, user_id: &UserId, device_id: &str, session: &str) -> (r: Result<
        UiaaInfo,
        Error,
    >)
        requires
            self.wf(),
        ensures
            match r {
                Ok(info) => self@.sessions.contains_key(
                    session_key(user_id@, device_id@, session@),
                ) && info@ == self@.sessions[session_key(user_id@, device_id@, session@)],
                Err(e) => e == Error::SessionNotFound && !self@.sessions.contains_key(
                    session_key(user_id@, device_id@, session@),
                ),
            },
    {
        match self.sessions.get(user_id, device_id, session) {
            Some(info) => Ok(info.clone()),
            None => Err(Error::SessionNotFound),
        }
    }

    /// The record that an attempt starts from: the stored progress of the
    /// session that the proof names, or a copy of `uiaainfo` where it names
    /// none. A session that is named and not stored is an error.
    pub fn open(&self, user_id: &UserId, device_id: &str, auth: &AuthData, uiaainfo: &UiaaInfo) -> (r:
        Result<UiaaInfo, Error>)
        requires
            self.wf(),
        ensures
            match r {
                Ok(info) => self@.opened(user_id@, device_id@, auth@, uiaainfo@) == Some(info@),
                Err(e) => e == Error::SessionNotFound && self@.opened(
                    user_id@,
                    device_id@,
                    auth@,
                    uiaainfo@,
                ) is None,
            },
    {
        match auth.session() {
            Some(session) => self.get_uiaa_session(user_id, device_id, session),
            None => Ok(uiaainfo.clone()),
        }
    }

    /// The identity whose password hash the attempt depends on, if it
    /// depends on one. The account service is asked for this identity and
    /// for no other, and what it finds goes into the attempt's evidence.
    pub fn hash_subject(
        &self,
        user_id: &UserId,
        device_id: &str,
        auth: &AuthData,
        uiaainfo: &UiaaInfo,
    ) -> (r: Option<UserId>)
        requires
            self.wf(),
        ensures
            opt_user(r) == self@.password_subject(user_id@, device_id@, auth@, uiaainfo@),
    {
        match auth.session() {
            Some(session) => {
                if self.sessions.get(user_id, device_id, session).is_none() {
                    return None;
                }
            },
            None => {},
        }
        let name = auth.username()?;
        let resolved = parse_with_server_name(name, self.server_name.as_str())?;
        if same_text(resolved.localpart.as_str(), user_id.localpart.as_str()) {
            Some(resolved)
        } else {
            None
        }
    }

    /// The verifier's ruling on a proof from `user_id`, where `resolved` is
    /// the identity that the user name in a password proof resolves to.
    pub fn rule(
        &self,
        user_id: &UserId,
        auth: &AuthData,
        resolved: &Option<UserId>,
        evidence: &Evidence,
    ) -> (r: Result<Outcome, Error>)
        ensures
            ruling(r) == verdict(
                user_id@,
                auth@,
                opt_user(*resolved),
                evidence@.password,
                token_list(evidence@.token_file, self@.registration_token),
            ),
    {
        let tokens = match auth {
            AuthData::RegistrationToken { .. } => {
                let file = match &evidence.token_file {
                    Some(text) => Some(text.as_str()),
                    None => None,
                };
                self.read_tokens(file)
            },
            _ => Vec::new(),
        };
        verify_stage(user_id, auth, resolved, evidence.password, &tokens)
    }

    /// Records a verifier's ruling in `info` and settles the session: where
    /// the proof was not rejected and some flow is now satisfied, the
    /// session's progress is dropped and the answer is `true`; otherwise the
    /// progress is filed and the answer is `false`.
    pub fn conclude(
        &mut self,
        user_id: &UserId,
        device_id: &str,
        info: UiaaInfo,
        outcome: Outcome,
    ) -> (r: (bool, UiaaInfo))
        requires
            old(self).wf(),
            info.session is Some,
        ensures
            final(self).wf(),
            r.0 == concluded(info@, outcome@),
            r.1@ == recorded(info@, outcome@),
            final(self)@ == old(self)@.filed(user_id@, device_id@, r.1@, r.0),
    {
        let rejected = match &outcome {
            Outcome::Rejected(_) => true,
            _ => false,
        };
        let mut info = info;
        info.record(outcome);
        let done = !rejected && is_satisfied(&info.flows, &info.completed);
        let session = info.session.as_ref().unwrap();
        if done {
            self.update_uiaa_session(user_id, device_id, session.as_str(), None);
        } else {
            self.update_uiaa_session(user_id, device_id, session.as_str(), Some(&info));
        }
        (done, info)
    }

    /// Takes one proof from `user_id` on `device_id` and says whether the
    /// session is now complete, with the session's progress.
    ///
    /// The attempt starts from the stored progress of the session that the
    /// proof names, or from `uiaainfo` where it names none; a record without
    /// a session token gets a new one. A refused proof changes nothing. A
    /// rejected one leaves its error in the stored progress. Otherwise the
    /// stage is recorded, and the progress is stored, or dropped once some
    /// flow is satisfied.
    pub fn try_auth(
        &mut self,
        user_id: &UserId,
        device_id: &str,
        auth: &AuthData,
        uiaainfo: &UiaaInfo,
        evidence: &Evidence,
    ) -> (r: Result<(bool, UiaaInfo), Error>)
        requires
            old(self).wf(),
        ensures
            final(self).wf(),
            match r {
                Ok((done, info)) => old(self)@.accepts(
                    user_id@,
                    device_id@,
                    auth@,
                    uiaainfo@,
                    evidence@,
                    done,
                    info@,
                    final(self)@,
                ),
                Err(e) => old(self)@.refuses(
                    user_id@,
                    device_id@,
                    auth@,
                    uiaainfo@,
                    evidence@,
                    e,
                    final(self)@,
                ),
            },
    {
        let mut info = self.open(user_id, device_id, auth, uiaainfo)?;
        let resolved = match auth.username() {
            Some(name) => parse_with_server_name(name, self.server_name.as_str()),
            None => None,
        };
        let outcome = self.rule(user_id, auth, &resolved, evidence)?;
        if info.session.is_none() {
            info.session = Some(random_string(SESSION_ID_LENGTH));
        }
        Ok(self.conclude(user_id, device_id, info, outcome))
    }
}

} // verus!
