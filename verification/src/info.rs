//! The progress record kept for each authentication session.

use vstd::prelude::*;
use crate::flow::flow_views;
use crate::stage::{clone_stages, stages, AuthFlow, AuthType, Stage};

verus! {

/// The class of an error reported to a client.
#[derive(Debug, PartialEq, Eq)]
pub enum ErrorKind {
    Forbidden,
    Unrecognized,
    InvalidParam,
    /// Any other class, under its code. The engine reports none of these; it
    /// keeps one that it finds in a record.
    Other(String),
}

/// The mathematical value of an [`ErrorKind`].
pub enum ErrorClass {
    Forbidden,
    Unrecognized,
    InvalidParam,
    Other(Seq<char>),
}

impl View for ErrorKind {
    type V = ErrorClass;

    open spec fn view(&self) -> ErrorClass {
        match self {
            ErrorKind::Forbidden => ErrorClass::Forbidden,
            ErrorKind::Unrecognized => ErrorClass::Unrecognized,
            ErrorKind::InvalidParam => ErrorClass::InvalidParam,
            ErrorKind::Other(code) => ErrorClass::Other(code@),
        }
    }
}

impl Clone for ErrorKind {
    fn clone(&self) -> (r: Self)
        ensures
            r@ == self@,
    {
        match self {
            ErrorKind::Forbidden => ErrorKind::Forbidden,
            ErrorKind::Unrecognized => ErrorKind::Unrecognized,
            ErrorKind::InvalidParam => ErrorKind::InvalidParam,
            ErrorKind::Other(code) => ErrorKind::Other(code.clone()),
        }
    }
}

/// An error as it is reported to a client: its class and a message.
#[derive(Debug, PartialEq, Eq)]
pub struct StandardErrorBody {
    pub kind: ErrorKind,
    pub message: String,
}

/// The mathematical value of a [`StandardErrorBody`].
pub struct ErrorBody {
    pub kind: ErrorClass,
    pub message: Seq<char>,
}

impl View for StandardErrorBody {
    type V = ErrorBody;

    open spec fn view(&self) -> ErrorBody {
        ErrorBody { kind: self.kind@, message: self.message@ }
    }
}

impl Clone for StandardErrorBody {
    fn clone(&self) -> (r: Self)
        ensures
            r@ == self@,
    {
        StandardErrorBody { kind: self.kind.clone(), message: self.message.clone() }
    }
}

/// The view of an optional string.
pub open spec fn opt_text(o: Option<String>) -> Option<Seq<char>> {
    match o {
        Some(s) => Some(s@),
        None => None,
    }
}

/// The view of an optional error body.
pub open spec fn opt_error(o: Option<StandardErrorBody>) -> Option<ErrorBody> {
    match o {
        Some(e) => Some(e@),
        None => None,
    }
}

/// What a session has achieved so far.
#[derive(Debug, PartialEq, Eq)]
pub struct UiaaInfo {
    /// The flows the client may choose from; fixed for the session's lifetime.
    pub flows: Vec<AuthFlow>,
    /// The stages completed so far; each kind occurs at most once.
    pub completed: Vec<AuthType>,
    /// The session token, once one is assigned.
    pub session: Option<String>,
    /// Why the most recent failed attempt failed.
    pub auth_error: Option<StandardErrorBody>,
}

/// The mathematical value of a [`UiaaInfo`].
pub struct Progress {
    pub flows: Seq<Seq<Stage>>,
    pub completed: Seq<Stage>,
    pub session: Option<Seq<char>>,
    pub auth_error: Option<ErrorBody>,
}

impl Progress {
    /// The completed stages as a set.
    pub open spec fn completed_set(self) -> Set<Stage> {
        self.completed.to_set()
    }
}

impl View for UiaaInfo {
    type V = Progress;

    open spec fn view(&self) -> Progress {
        Progress {
            flows: flow_views(self.flows@),
            completed: stages(self.completed@),
            session: opt_text(self.session),
            auth_error: opt_error(self.auth_error),
        }
    }
}

/// Copies a list of flows.
pub fn clone_flows(v: &Vec<AuthFlow>) -> (out: Vec<AuthFlow>)
    ensures
        flow_views(out@) == flow_views(v@),
{
    let mut out: Vec<AuthFlow> = Vec::new();
    let mut i: usize = 0;
    while i < v.len()
        invariant
            0 <= i <= v.len(),
            out@.len() == i,
            forall|k: int| 0 <= k < i ==> out@[k]@ == v@[k]@,
        decreases v.len() - i,
    {
        out.push(v[i].clone());
        i += 1;
    }
    assert(flow_views(out@) =~= flow_views(v@));
    out
}

impl Clone for UiaaInfo {
    fn clone(&self) -> (r: Self)
        ensures
            r@ == self@,
    {
        let session = match &self.session {
            Some(s) => Some(s.clone()),
            None => None,
        };
        let auth_error = match &self.auth_error {
            Some(e) => Some(e.clone()),
            None => None,
        };
        UiaaInfo {
            flows: clone_flows(&self.flows),
            completed: clone_stages(&self.completed),
            session,
            auth_error,
        }
    }
}

impl UiaaInfo {
    /// A record for the given flows with nothing completed, no session token
    /// and no error.
    pub fn new(flows: Vec<AuthFlow>) -> (r: Self)
        ensures
            r.flows == flows,
            r.completed@.len() == 0,
            r.session is None,
            r.auth_error is None,
    {
        UiaaInfo { flows, completed: Vec::new(), session: None, auth_error: None }
    }
}

} // verus!
