//! Authentication stages and the flows built from them.

use vstd::prelude::*;
use crate::text::same_text;

verus! {

/// One kind of proof a client can be asked for.
#[derive(Debug, PartialEq, Eq)]
pub enum AuthType {
    /// The account's password.
    Password,
    /// A token that permits registration.
    RegistrationToken,
    /// No proof at all.
    Dummy,
    /// A kind the engine does not implement, under its wire name.
    Unsupported(String),
}

/// The mathematical value of an [`AuthType`].
pub enum Stage {
    Password,
    RegistrationToken,
    Dummy,
    Unsupported(Seq<char>),
}

impl View for AuthType {
    type V = Stage;

    open spec fn view(&self) -> Stage {
        match self {
            AuthType::Password => Stage::Password,
            AuthType::RegistrationToken => Stage::RegistrationToken,
            AuthType::Dummy => Stage::Dummy,
            AuthType::Unsupported(kind) => Stage::Unsupported(kind@),
        }
    }
}

impl Clone for AuthType {
    fn clone(&self) -> (r: Self)
        ensures
            r@ == self@,
    {
        match self {
            AuthType::Password => AuthType::Password,
            AuthType::RegistrationToken => AuthType::RegistrationToken,
            AuthType::Dummy => AuthType::Dummy,
            AuthType::Unsupported(kind) => AuthType::Unsupported(kind.clone()),
        }
    }
}

impl AuthType {
    /// Whether two stages are of the same kind.
    pub fn same(&self, other: &AuthType) -> (r: bool)
        ensures
            r == (self@ == other@),
    {
        match (self, other) {
            (AuthType::Password, AuthType::Password) => true,
            (AuthType::RegistrationToken, AuthType::RegistrationToken) => true,
            (AuthType::Dummy, AuthType::Dummy) => true,
            (AuthType::Unsupported(a), AuthType::Unsupported(b)) => same_text(
                a.as_str(),
                b.as_str(),
            ),
            _ => false,
        }
    }
}

/// The views of a sequence of stages, in order.
pub open spec fn stages(v: Seq<AuthType>) -> Seq<Stage> {
    v.map_values(|t: AuthType| t@)
}

/// Copies a list of stages.
pub fn clone_stages(v: &Vec<AuthType>) -> (out: Vec<AuthType>)
    ensures
        stages(out@) == stages(v@),
{
    let mut out: Vec<AuthType> = Vec::new();
    let mut i: usize = 0;
    while i < v.len()
        invariant
            0 <= i <= v.len(),
            out@.len() == i,
            forall|k: int| 0 <= k < i ==> out@[k]@ == v@[k]@,
        decreases v.len() - i,
    {
        out.push(v[i].clone());
        i += 1;
    }
    assert(stages(out@) =~= stages(v@));
    out
}

/// Whether `stage` occurs in `list`.
pub fn contains_stage(list: &Vec<AuthType>, stage: &AuthType) -> (r: bool)
    ensures
        r == stages(list@).contains(stage@),
{
    let mut i: usize = 0;
    while i < list.len()
        invariant
            0 <= i <= list.len(),
            forall|k: int| 0 <= k < i ==> list@[k]@ != stage@,
        decreases list.len() - i,
    {
        if list[i].same(stage) {
            assert(stages(list@)[i as int] == stage@);
            return true;
        }
        i += 1;
    }
    assert(!stages(list@).contains(stage@)) by {
        if stages(list@).contains(stage@) {
            let k = choose|k: int| 0 <= k < stages(list@).len() && stages(list@)[k] == stage@;
            assert(list@[k]@ == stage@);
        }
    }
    false
}

/// One acceptable way to authenticate: the stages it asks for.
#[derive(Debug, PartialEq, Eq)]
pub struct AuthFlow {
    pub stages: Vec<AuthType>,
}

impl View for AuthFlow {
    type V = Seq<Stage>;

    open spec fn view(&self) -> Seq<Stage> {
        stages(self.stages@)
    }
}

impl Clone for AuthFlow {
    fn clone(&self) -> (r: Self)
        ensures
            r@ == self@,
    {
        AuthFlow { stages: clone_stages(&self.stages) }
    }
}

impl AuthFlow {
    pub fn new(stages: Vec<AuthType>) -> (r: Self)
        ensures
            r.stages == stages,
    {
        AuthFlow { stages }
    }
}

} // verus!
