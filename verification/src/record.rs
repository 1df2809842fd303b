//! The runtime side of the synthesized accessors: a record instance holds one
//! slot per eligible field, and the three operation families — consuming
//! getter, guarded setter, and final emptiness check — enforce the
//! write-once / read-once lifecycle of each slot.

use vstd::prelude::*;

use crate::synthesize::SectionPlan;

verus! {

/// The state of one field's slot: never populated, or populated with a value
/// that has not been consumed yet.
#[derive(Debug, PartialEq, Eq)]
pub enum Slot<V> {
    Unset,
    Occupied(V),
}

/// A failure of one of the synthesized accessors, always naming the field it
/// concerns. A duplicate write and a leftover field also surface the value
/// that was already present, so that the caller can report or recover it.
#[derive(Debug, PartialEq, Eq)]
pub enum FieldError<V> {
    MissingField(String),
    DuplicateField(String, V),
    UnexpectedField(String, V),
}

/// Every slot of the sequence is unset.
pub open spec fn all_unset<V>(slots: Seq<Slot<V>>) -> bool {
    forall|i: int| 0 <= i < slots.len() ==> slots[i] is Unset
}

/// A drain of slot `i` succeeds exactly when the slot is occupied.
pub open spec fn drain_succeeds<V>(slots: Seq<Slot<V>>, i: int) -> bool {
    slots[i] is Occupied
}

/// A store into slot `i` succeeds exactly when the slot is unset.
pub open spec fn store_succeeds<V>(slots: Seq<Slot<V>>, i: int) -> bool {
    slots[i] is Unset
}

/// The slots after slot `i` has been drained.
pub open spec fn after_drain<V>(slots: Seq<Slot<V>>, i: int) -> Seq<Slot<V>> {
    slots.update(i, Slot::Unset)
}

/// The slots after value `v` has been stored into slot `i`.
pub open spec fn after_store<V>(slots: Seq<Slot<V>>, i: int, v: V) -> Seq<Slot<V>> {
    slots.update(i, Slot::Occupied(v))
}

/// Slot `i` is the first occupied slot: the emptiness check stops there.
pub open spec fn first_leftover_at<V>(slots: Seq<Slot<V>>, i: int) -> bool {
    &&& 0 <= i < slots.len()
    &&& slots[i] is Occupied
    &&& forall|j: int| 0 <= j < i ==> slots[j] is Unset
}

/// A record instance under the accessor discipline: one named slot per
/// eligible field, in declaration order.
pub struct SectionRecord<V> {
    pub names: Vec<String>,
    pub slots: Vec<Slot<V>>,
}

impl<V> SectionRecord<V> {
    /// One slot per name.
    pub open spec fn wf(self) -> bool {
        self.names@.len() == self.slots@.len()
    }

    /// A freshly constructed record for a plan: every slot unset.
    pub fn new_unset(plan: &SectionPlan) -> (r: Self)
        ensures
            r.wf(),
            r.slots@.len() == plan.fields@.len(),
            all_unset(r.slots@),
            forall|i: int|
                0 <= i < plan.fields@.len() ==> (#[trigger] r.names@[i])@ == plan.fields@[i].name@,
    {
        let mut names: Vec<String> = Vec::new();
        let mut slots: Vec<Slot<V>> = Vec::new();
        let mut i: usize = 0;
        while i < plan.fields.len()
            invariant
                i <= plan.fields@.len(),
                names@.len() == i,
                slots@.len() == i,
                all_unset(slots@),
                forall|j: int|
                    0 <= j < i ==> (#[trigger] names@[j])@ == plan.fields@[j].name@,
            decreases plan.fields@.len() - i,
        {
            names.push(plan.fields[i].name.clone());
            slots.push(Slot::Unset);
            i = i + 1;
        }
        SectionRecord { names, slots }
    }

    /// A record for a plan whose slots start in the given states, as the
    /// external parsing logic that owns the instance may populate them.
    pub fn from_slots(plan: &SectionPlan, slots: Vec<Slot<V>>) -> (r: Self)
        requires
            slots@.len() == plan.fields@.len(),
        ensures
            r.wf(),
            r.slots@ == slots@,
            forall|i: int|
                0 <= i < plan.fields@.len() ==> (#[trigger] r.names@[i])@ == plan.fields@[i].name@,
    {
        let mut names: Vec<String> = Vec::new();
        let mut i: usize = 0;
        while i < plan.fields.len()
            invariant
                i <= plan.fields@.len(),
                names@.len() == i,
                forall|j: int|
                    0 <= j < i ==> (#[trigger] names@[j])@ == plan.fields@[j].name@,
            decreases plan.fields@.len() - i,
        {
            names.push(plan.fields[i].name.clone());
            i = i + 1;
        }
        SectionRecord { names, slots }
    }

    /// The position of the first field with the given name, if any.
    pub fn field_index(&self, name: &String) -> (r: Option<usize>)
        ensures
            match r {
                Some(i) => {
                    &&& i < self.names@.len()
                    &&& self.names@[i as int]@ == name@
                    &&& forall|j: int| 0 <= j < i ==> (#[trigger] self.names@[j])@ != name@
                },
                None => forall|j: int|
                    0 <= j < self.names@.len() ==> (#[trigger] self.names@[j])@ != name@,
            },
    {
        let mut i: usize = 0;
        while i < self.names.len()
            invariant
                i <= self.names@.len(),
                forall|j: int| 0 <= j < i ==> (#[trigger] self.names@[j])@ != name@,
            decreases self.names@.len() - i,
        {
            if self.names[i] == *name {
                return Some(i);
            }
            i = i + 1;
        }
        None
    }

    /// The consuming getter: drains the slot of field `i`.
    ///
    /// If the slot is occupied, it becomes unset and the value is returned;
    /// if it is unset, the read fails with a missing field bearing the
    /// field's name. Either way the slot ends unset and no other slot moves.
    pub fn take_field(&mut self, i: usize) -> (r: Result<V, FieldError<V>>)
        requires
            old(self).wf(),
            i < old(self).slots@.len(),
        ensures
            final(self).wf(),
            final(self).names@ == old(self).names@,
            final(self).slots@ == after_drain(old(self).slots@, i as int),
            r is Ok <==> drain_succeeds(old(self).slots@, i as int),
            match r {
                Ok(v) => old(self).slots@[i as int] == Slot::Occupied(v),
                Err(e) => e matches FieldError::MissingField(n)
                    && n@ == old(self).names@[i as int]@,
            },
    {
        let mut taken: Slot<V> = Slot::Unset;
        core::mem::swap(&mut self.slots[i], &mut taken);
        match taken {
            Slot::Occupied(v) => Ok(v),
            Slot::Unset => Err(FieldError::MissingField(self.names[i].clone())),
        }
    }

    /// The guarded setter: stores a value into the slot of field `i`.
    ///
    /// If the slot is unset, it becomes occupied with the value; if it is
    /// already occupied, the slot is drained and the write fails with a
    /// duplicate field carrying the value that was already present — neither
    /// value is silently dropped, and the rejected value is not stored.
    pub fn set_field(&mut self, i: usize, value: V) -> (r: Result<(), FieldError<V>>)
        requires
            old(self).wf(),
            i < old(self).slots@.len(),
        ensures
            final(self).wf(),
            final(self).names@ == old(self).names@,
            r is Ok <==> store_succeeds(old(self).slots@, i as int),
            match r {
                Ok(()) => final(self).slots@ == after_store(old(self).slots@, i as int, value),
                Err(e) => {
                    &&& e matches FieldError::DuplicateField(n, prior)
                        && n@ == old(self).names@[i as int]@
                        && old(self).slots@[i as int] == Slot::Occupied(prior)
                    &&& final(self).slots@ == after_drain(old(self).slots@, i as int)
                },
            },
    {
        let mut current: Slot<V> = Slot::Unset;
        core::mem::swap(&mut self.slots[i], &mut current);
        match current {
            Slot::Occupied(prior) => Err(
                FieldError::DuplicateField(self.names[i].clone(), prior),
            ),
            Slot::Unset => {
                let mut fresh: Slot<V> = Slot::Occupied(value);
                core::mem::swap(&mut self.slots[i], &mut fresh);
                Ok(())
            },
        }
    }

    /// The final emptiness check: consumes the whole record — a terminal
    /// operation — and succeeds exactly when every slot is unset. Otherwise
    /// it fails with an unexpected field naming the first slot, in
    /// declaration order, that is still occupied, and carrying its value.
    pub fn ensure_empty(self) -> (r: Result<(), FieldError<V>>)
        requires
            self.wf(),
        ensures
            r is Ok <==> all_unset(self.slots@),
            match r {
                Ok(()) => all_unset(self.slots@),
                Err(e) => e matches FieldError::UnexpectedField(n, v) && exists|i: int|
                    #[trigger] first_leftover_at(self.slots@, i) && self.slots@[i]
                        == Slot::Occupied(v) && n@ == self.names@[i]@,
            },
    {
        let mut this = self;
        let mut i: usize = 0;
        while i < this.slots.len()
            invariant
                this.wf(),
                this.names@ == self.names@,
                this.slots@.len() == self.slots@.len(),
                i <= this.slots@.len(),
                forall|j: int| i <= j < this.slots@.len() ==> this.slots@[j] == self.slots@[j],
                forall|j: int| 0 <= j < i ==> self.slots@[j] is Unset,
            decreases this.slots@.len() - i,
        {
            let mut taken: Slot<V> = Slot::Unset;
            core::mem::swap(&mut this.slots[i], &mut taken);
            match taken {
                Slot::Occupied(v) => {
                    assert(first_leftover_at(self.slots@, i as int));
                    return Err(FieldError::UnexpectedField(this.names[i].clone(), v));
                },
                Slot::Unset => {
                    i = i + 1;
                },
            }
        }
        Ok(())
    }
}

/// Law: storing a value into a slot of a freshly constructed record and then
/// draining the same slot succeeds, yields exactly the stored value, and
/// leaves the slot unset again.
pub proof fn lemma_store_then_drain<V>(slots: Seq<Slot<V>>, i: int, v: V)
    requires
        all_unset(slots),
        0 <= i < slots.len(),
    ensures
        store_succeeds(slots, i),
        after_store(slots, i, v)[i] == Slot::Occupied(v),
        drain_succeeds(after_store(slots, i, v), i),
        after_drain(after_store(slots, i, v), i) =~= slots,
{
}

/// Law: draining any slot of a freshly constructed record fails — the read
/// reports a missing field — and changes nothing.
pub proof fn lemma_drain_fresh_fails<V>(slots: Seq<Slot<V>>, i: int)
    requires
        all_unset(slots),
        0 <= i < slots.len(),
    ensures
        !drain_succeeds(slots, i),
        after_drain(slots, i) =~= slots,
{
}

/// Law: a second store into the same slot is rejected; the failure surfaces
/// the first value, and the slot ends unset — the second value is not stored.
pub proof fn lemma_store_twice_duplicate<V>(slots: Seq<Slot<V>>, i: int, v1: V, v2: V)
    requires
        all_unset(slots),
        0 <= i < slots.len(),
        v1 != v2,
    ensures
        store_succeeds(slots, i),
        !store_succeeds(after_store(slots, i, v1), i),
        after_store(slots, i, v1)[i] == Slot::Occupied(v1),
        after_drain(after_store(slots, i, v1), i)[i] is Unset,
        after_drain(after_store(slots, i, v1), i)[i] != Slot::Occupied(v2),
{
}

/// Law: draining is not idempotent — a drain that succeeds leaves the slot
/// in a state where the same drain fails, and reports a missing field.
pub proof fn lemma_drain_consumes<V>(slots: Seq<Slot<V>>, i: int)
    requires
        0 <= i < slots.len(),
        drain_succeeds(slots, i),
    ensures
        !drain_succeeds(after_drain(slots, i), i),
{
}

} // verus!
