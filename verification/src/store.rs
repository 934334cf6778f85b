//! A map from session keys to values, kept as a list without repeated keys.

use vstd::prelude::*;
use crate::identity::{SessionKey, UserId};
use crate::text::same_text;

verus! {

/// One stored value with the key it is filed under.
struct Slot<V> {
    user: UserId,
    device: String,
    session: String,
    value: V,
}

impl<V> Slot<V> {
    spec fn key(self) -> SessionKey {
        SessionKey { user: self.user@, device: self.device@, session: self.session@ }
    }

    spec fn value(self) -> V {
        self.value
    }
}

/// The position of the slot filed under `key`, if there is one.
spec fn slot_of<V>(slots: Seq<Slot<V>>, key: SessionKey) -> int {
    choose|i: int| 0 <= i < slots.len() && (#[trigger] slots[i]).key() == key
}

spec fn has_slot<V>(slots: Seq<Slot<V>>, key: SessionKey) -> bool {
    exists|i: int| 0 <= i < slots.len() && (#[trigger] slots[i]).key() == key
}

spec fn distinct_keys<V>(slots: Seq<Slot<V>>) -> bool {
    forall|i: int, j: int|
        0 <= i < j < slots.len() ==> (#[trigger] slots[i]).key() != (#[trigger] slots[j]).key()
}

spec fn as_map<V>(slots: Seq<Slot<V>>) -> Map<SessionKey, V> {
    Map::new(|k: SessionKey| has_slot(slots, k), |k: SessionKey| slots[slot_of(slots, k)].value())
}

proof fn lemma_slot_of<V>(slots: Seq<Slot<V>>, i: int)
    requires
        distinct_keys(slots),
        0 <= i < slots.len(),
    ensures
        has_slot(slots, slots[i].key()),
        slot_of(slots, slots[i].key()) == i,
        as_map(slots)[slots[i].key()] == slots[i].value(),
{
    let k = slots[i].key();
    let j = slot_of(slots, k);
    assert(0 <= j < slots.len() && slots[j].key() == k);
    if j < i {
        assert(slots[j].key() != slots[i].key());
    } else if i < j {
        assert(slots[i].key() != slots[j].key());
    }
}

proof fn lemma_remove_slot<V>(slots: Seq<Slot<V>>, i: int)
    requires
        distinct_keys(slots),
        0 <= i < slots.len(),
    ensures
        distinct_keys(slots.remove(i)),
        as_map(slots.remove(i)) == as_map(slots).remove(slots[i].key()),
{
    let rest = slots.remove(i);
    let gone = slots[i].key();
    assert(distinct_keys(rest)) by {
        assert forall|a: int, b: int| 0 <= a < b < rest.len() implies (#[trigger] rest[a]).key()
            != (#[trigger] rest[b]).key() by {
            let a0 = if a < i { a } else { a + 1 };
            let b0 = if b < i { b } else { b + 1 };
            assert(rest[a] == slots[a0] && rest[b] == slots[b0]);
            assert(slots[a0].key() != slots[b0].key());
        }
    }
    assert forall|k: SessionKey| #[trigger] has_slot(rest, k) == (has_slot(slots, k) && k != gone) by {
        if has_slot(rest, k) {
            let a = choose|a: int| 0 <= a < rest.len() && (#[trigger] rest[a]).key() == k;
            let a0 = if a < i { a } else { a + 1 };
            assert(rest[a] == slots[a0]);
            assert(slots[a0].key() == k);
            if a0 < i {
                assert(slots[a0].key() != slots[i].key());
            } else {
                assert(slots[i].key() != slots[a0].key());
            }
        }
        if has_slot(slots, k) && k != gone {
            let b = choose|b: int| 0 <= b < slots.len() && (#[trigger] slots[b]).key() == k;
            let b1 = if b < i { b } else { b - 1 };
            assert(rest[b1] == slots[b]);
            assert(rest[b1].key() == k);
        }
    }
    assert forall|k: SessionKey| has_slot(rest, k) implies #[trigger] as_map(rest)[k] == as_map(
        slots,
    )[k] by {
        let a = slot_of(rest, k);
        let a0 = if a < i { a } else { a + 1 };
        assert(rest[a] == slots[a0]);
        lemma_slot_of(rest, a);
        lemma_slot_of(slots, a0);
    }
    assert(as_map(rest) =~= as_map(slots).remove(gone));
}

proof fn lemma_push_slot<V>(slots: Seq<Slot<V>>, slot: Slot<V>)
    requires
        distinct_keys(slots),
        !has_slot(slots, slot.key()),
    ensures
        distinct_keys(slots.push(slot)),
        as_map(slots.push(slot)) == as_map(slots).insert(slot.key(), slot.value()),
{
    let more = slots.push(slot);
    let n = slots.len() as int;
    assert(distinct_keys(more)) by {
        assert forall|a: int, b: int| 0 <= a < b < more.len() implies (#[trigger] more[a]).key()
            != (#[trigger] more[b]).key() by {
            if b < n {
                assert(slots[a].key() != slots[b].key());
            } else {
                assert(more[a] == slots[a]);
                if slots[a].key() == slot.key() {
                    assert(has_slot(slots, slot.key()));
                }
            }
        }
    }
    assert forall|k: SessionKey| #[trigger] has_slot(more, k) == (has_slot(slots, k) || k
        == slot.key()) by {
        if has_slot(more, k) {
            let a = choose|a: int| 0 <= a < more.len() && (#[trigger] more[a]).key() == k;
            if a < n {
                assert(slots[a].key() == k);
            }
        }
        if has_slot(slots, k) {
            let b = choose|b: int| 0 <= b < slots.len() && (#[trigger] slots[b]).key() == k;
            assert(more[b].key() == k);
        }
        if k == slot.key() {
            assert(more[n].key() == k);
        }
    }
    assert forall|k: SessionKey| has_slot(more, k) implies #[trigger] as_map(more)[k] == as_map(
        slots,
    ).insert(slot.key(), slot.value())[k] by {
        let a = slot_of(more, k);
        lemma_slot_of(more, a);
        if a < n {
            assert(more[a] == slots[a]);
            lemma_slot_of(slots, a);
        }
    }
    assert(as_map(more) =~= as_map(slots).insert(slot.key(), slot.value()));
}

/// A map from session keys to values of type `V`.
pub struct SessionMap<V> {
    slots: Vec<Slot<V>>,
}

impl<V> SessionMap<V> {
    /// No key is filed twice.
    pub closed spec fn wf(&self) -> bool {
        distinct_keys(self.slots@)
    }

    /// The map this value stands for.
    pub closed spec fn view(&self) -> Map<SessionKey, V> {
        as_map(self.slots@)
    }

    /// An empty map.
    pub fn new() -> (r: Self)
        ensures
            r.wf(),
            r@ == Map::<SessionKey, V>::empty(),
    {
        let r = SessionMap { slots: Vec::new() };
        assert(r@ =~= Map::<SessionKey, V>::empty());
        r
    }

    fn find(&self, user: &UserId, device: &str, session: &str) -> (r: Option<usize>)
        requires
            self.wf(),
        ensures
            match r {
                Some(i) => i < self.slots@.len() && self.slots@[i as int].key() == (SessionKey {
                    user: user@,
                    device: device@,
                    session: session@,
                }),
                None => !has_slot(
                    self.slots@,
                    SessionKey { user: user@, device: device@, session: session@ },
                ),
            },
    {
        let ghost key = SessionKey { user: user@, device: device@, session: session@ };
        let mut i: usize = 0;
        while i < self.slots.len()
            invariant
                0 <= i <= self.slots.len(),
                key == (SessionKey { user: user@, device: device@, session: session@ }),
                forall|k: int| 0 <= k < i ==> (#[trigger] self.slots@[k]).key() != key,
            decreases self.slots.len() - i,
        {
            let slot = &self.slots[i];
            if slot.user.same(user) && same_text(slot.device.as_str(), device) && same_text(
                slot.session.as_str(),
                session,
            ) {
                return Some(i);
            }
            i += 1;
        }
        None
    }

    /// The value filed under the key, if any.
    pub fn get(&self, user: &UserId, device: &str, session: &str) -> (r: Option<&V>)
        requires
            self.wf(),
        ensures
            match r {
                Some(v) => self@.contains_key(
                    SessionKey { user: user@, device: device@, session: session@ },
                ) && *v == self@[SessionKey { user: user@, device: device@, session: session@ }],
                None => !self@.contains_key(
                    SessionKey { user: user@, device: device@, session: session@ },
                ),
            },
    {
        match self.find(user, device, session) {
            Some(i) => {
                proof {
                    lemma_slot_of(self.slots@, i as int);
                }
                Some(&self.slots[i].value)
            },
            None => None,
        }
    }

    /// Files `value` under the key, in place of whatever was there.
    pub fn insert(&mut self, user: UserId, device: String, session: String, value: V)
        requires
            old(self).wf(),
        ensures
            final(self).wf(),
            final(self)@ == old(self)@.insert(
                SessionKey { user: user@, device: device@, session: session@ },
                value,
            ),
    {
        let ghost key = SessionKey { user: user@, device: device@, session: session@ };
        let found = self.find(&user, device.as_str(), session.as_str());
        match found {
            Some(i) => {
                proof {
                    lemma_remove_slot(self.slots@, i as int);
                }
                self.slots.remove(i);
            },
            None => {
                assert(self@ =~= self@.remove(key));
            },
        }
        let slot = Slot { user, device, session, value };
        proof {
            lemma_push_slot(self.slots@, slot);
            assert(old(self)@.remove(key).insert(key, value) =~= old(self)@.insert(key, value));
        }
        self.slots.push(slot);
    }

    /// Drops whatever is filed under the key.
    pub fn remove(&mut self, user: &UserId, device: &str, session: &str)
        requires
            old(self).wf(),
        ensures
            final(self).wf(),
            final(self)@ == old(self)@.remove(
                SessionKey { user: user@, device: device@, session: session@ },
            ),
    {
        let ghost key = SessionKey { user: user@, device: device@, session: session@ };
        match self.find(user, device, session) {
            Some(i) => {
                proof {
                    lemma_remove_slot(self.slots@, i as int);
                }
                self.slots.remove(i);
            },
            None => {
                assert(self@ =~= self@.remove(key));
            },
        }
    }
}

} // verus!
