//! What the generated definitions do when they run: a builder collects
//! values slot by slot, and its finalizer assembles the record.

use vstd::prelude::*;
use crate::classify::FieldKind;
use crate::error::BuildError;
use crate::synth::GeneratedDefinitions;

verus! {

/// The value of one field of an assembled record.
#[derive(Debug, PartialEq, Eq)]
pub enum FieldValue<V> {
    /// The value of a required field.
    Required(V),
    /// The value of an optional field: present or absent.
    Optional(Option<V>),
}

impl<V: Clone> FieldValue<V> {
    /// Whether `copy` is what duplicating this field value can give: the
    /// same variant, absent for absent, and a clone of the value for a value.
    pub open spec fn duplicated_as(self, copy: FieldValue<V>) -> bool {
        match self {
            FieldValue::Required(value) => copy matches FieldValue::Required(other) && cloned(
                value,
                other,
            ),
            FieldValue::Optional(Some(value)) => copy matches FieldValue::Optional(Some(other))
                && cloned(value, other),
            FieldValue::Optional(None) => copy == FieldValue::<V>::Optional(None),
        }
    }
}

/// Whether `copy` is what duplicating the field values `fields` one by one
/// can give.
pub open spec fn duplicated_as<V: Clone>(
    fields: Seq<FieldValue<V>>,
    copy: Seq<FieldValue<V>>,
) -> bool {
    &&& copy.len() == fields.len()
    &&& forall|i: int| 0 <= i < fields.len() ==> (#[trigger] fields[i]).duplicated_as(copy[i])
}

/// Whether a clone of a `V` always equals what it was cloned from, as it does
/// for integers and strings.
pub open spec fn clone_is_exact<V: Clone>() -> bool {
    forall|value: V, other: V| #[trigger] cloned(value, other) ==> other == value
}

/// Where a clone always equals what it was cloned from, duplicated field
/// values equal the values they were made from.
pub proof fn lemma_exact_duplicates<V: Clone>(fields: Seq<FieldValue<V>>, copy: Seq<FieldValue<V>>)
    requires
        clone_is_exact::<V>(),
        duplicated_as(fields, copy),
    ensures
        copy == fields,
{
    assert forall|i: int| 0 <= i < fields.len() implies copy[i] == fields[i] by {
        assert(fields[i].duplicated_as(copy[i]));
    }
    assert(copy =~= fields);
}

/// An assembled record: the values of its fields in declaration order.
#[derive(Debug, PartialEq, Eq)]
pub struct Record<V> {
    /// The value of each field.
    pub fields: Vec<FieldValue<V>>,
}

impl<V> View for Record<V> {
    type V = Seq<FieldValue<V>>;

    open spec fn view(&self) -> Seq<FieldValue<V>> {
        self.fields@
    }
}

/// The state of a builder: the kind of each field and what each slot holds.
pub struct BuilderState<V> {
    /// The kind of each field, in declaration order.
    pub kinds: Seq<FieldKind>,
    /// The slots, in declaration order. A slot is empty until it is set.
    pub slots: Seq<Option<V>>,
}

impl<V> BuilderState<V> {
    /// A state has one slot per field.
    pub open spec fn wf(self) -> bool {
        self.slots.len() == self.kinds.len()
    }

    /// The state of a fresh builder: every slot is empty.
    pub open spec fn empty(kinds: Seq<FieldKind>) -> Self {
        BuilderState { kinds, slots: Seq::new(kinds.len(), |i: int| None) }
    }

    /// The state after the setter of field `field` was called with `value`.
    pub open spec fn set(self, field: int, value: V) -> Self {
        BuilderState { kinds: self.kinds, slots: self.slots.update(field, Some(value)) }
    }

    /// Whether every required slot holds a value.
    pub open spec fn ready(self) -> bool {
        forall|i: int|
            0 <= i < self.kinds.len() && self.kinds[i] == FieldKind::Required
                ==> (#[trigger] self.slots[i]) is Some
    }

    /// What the finalizer puts into field `field` of the record.
    pub open spec fn field_value(self, field: int) -> FieldValue<V> {
        match self.kinds[field] {
            FieldKind::Required => FieldValue::Required(self.slots[field]->Some_0),
            FieldKind::Optional => FieldValue::Optional(self.slots[field]),
        }
    }

    /// The outcome of finalizing: the record, if every required slot holds a
    /// value, and the missing-field error otherwise.
    pub open spec fn build(self) -> Result<Seq<FieldValue<V>>, BuildError> {
        if self.ready() {
            Ok(Seq::new(self.kinds.len(), |i: int| self.field_value(i)))
        } else {
            Err(BuildError::MissingField)
        }
    }

    /// The state that finalizing leaves behind: finalizing changes nothing.
    pub open spec fn after_build(self) -> Self {
        self
    }

    /// Whether every call in `calls` is a call of a setter that exists. A
    /// call is the position of a field and the argument of its setter.
    pub open spec fn accepts(self, calls: Seq<(int, V)>) -> bool {
        forall|j: int| 0 <= j < calls.len() ==> 0 <= (#[trigger] calls[j]).0 < self.kinds.len()
    }

    /// The state after the setter calls `calls`, made from first to last.
    pub open spec fn apply(self, calls: Seq<(int, V)>) -> Self
        decreases calls.len(),
    {
        if calls.len() == 0 {
            self
        } else {
            self.apply(calls.drop_last()).set(calls.last().0, calls.last().1)
        }
    }
}

/// Whether the setter of field `field` is called at least once in `calls`.
pub open spec fn called<V>(calls: Seq<(int, V)>, field: int) -> bool {
    exists|j: int| 0 <= j < calls.len() && (#[trigger] calls[j]).0 == field
}

/// Whether no setter is called twice in `calls`.
pub open spec fn distinct_fields<V>(calls: Seq<(int, V)>) -> bool {
    forall|a: int, b: int|
        0 <= a < b < calls.len() ==> (#[trigger] calls[a]).0 != (#[trigger] calls[b]).0
}

impl<'a> GeneratedDefinitions<'a> {
    /// The kind of each field, as the finalizer steps give it.
    pub open spec fn kinds(&self) -> Seq<FieldKind> {
        Seq::new(self.finalizer@.len(), |i: int| self.finalizer@[i].kind)
    }
}

/// One field of a builder at run time: its kind and its slot.
struct Cell<V> {
    kind: FieldKind,
    slot: Option<V>,
}

/// A builder at run time.
pub struct Builder<V> {
    cells: Vec<Cell<V>>,
}

impl<V> View for Builder<V> {
    type V = BuilderState<V>;

    closed spec fn view(&self) -> BuilderState<V> {
        BuilderState {
            kinds: Seq::new(self.cells@.len(), |i: int| self.cells@[i].kind),
            slots: Seq::new(self.cells@.len(), |i: int| self.cells@[i].slot),
        }
    }
}

impl<'a> GeneratedDefinitions<'a> {
    /// The factory operation that the record type receives: a fresh builder,
    /// with one slot per field and every slot empty.
    pub fn builder<V: Clone>(&self) -> (builder: Builder<V>)
        ensures
            builder@ == BuilderState::<V>::empty(self.kinds()),
    {
        let mut cells: Vec<Cell<V>> = Vec::new();
        let mut i: usize = 0;
        while i < self.finalizer.len()
            invariant
                i <= self.finalizer.len(),
                cells@.len() == i,
                forall|j: int|
                    0 <= j < i ==> cells@[j] == (Cell::<V> {
                        kind: self.finalizer@[j].kind,
                        slot: None,
                    }),
            decreases self.finalizer.len() - i,
        {
            cells.push(Cell { kind: self.finalizer[i].kind, slot: None });
            i += 1;
        }
        let builder = Builder { cells };
        assert(builder@.kinds =~= self.kinds());
        assert(builder@.slots =~= BuilderState::<V>::empty(self.kinds()).slots);
        builder
    }
}

impl<V: Clone> Builder<V> {
    /// Every builder has one slot per field.
    pub proof fn lemma_well_formed(&self)
        ensures
            self@.wf(),
    {
    }

    /// The number of fields, which is the number of slots and of setters.
    pub fn len(&self) -> (n: usize)
        ensures
            n == self@.kinds.len(),
    {
        self.cells.len()
    }

    /// The setter of field `field`: stores `value` into the slot of that
    /// field and hands the builder back, so that calls can be chained.
    pub fn set(&mut self, field: usize, value: V) -> (builder: &mut Self)
        requires
            field < old(self)@.kinds.len(),
        ensures
            builder@ == old(self)@.set(field as int, value),
            final(self)@ == final(builder)@,
    {
        let kind = self.cells[field].kind;
        self.cells.set(field, Cell { kind, slot: Some(value) });
        assert(self@.kinds =~= old(self)@.kinds);
        assert(self@.slots =~= old(self)@.set(field as int, value).slots);
        self
    }

    /// The finalizer: assembles the record from the slots.
    ///
    /// It succeeds exactly when every required slot holds a value, and gives
    /// the missing-field error otherwise. The record holds a duplicate of
    /// what each slot holds, which is the very same value wherever cloning
    /// is exact. The builder is left as it was.
    pub fn build(&mut self) -> (out: Result<Record<V>, BuildError>)
        ensures
            final(self)@ == old(self)@.after_build(),
            match out {
                Ok(record) => {
                    &&& old(self)@.build() matches Ok(fields)
                    &&& duplicated_as(fields, record@)
                    &&& clone_is_exact::<V>() ==> record@ == fields
                },
                Err(error) => old(self)@.build() == Err::<Seq<FieldValue<V>>, BuildError>(error),
            },
    {
        let mut fields: Vec<FieldValue<V>> = Vec::new();
        let mut i: usize = 0;
        while i < self.cells.len()
            invariant
                *self == *old(self),
                i <= self.cells@.len(),
                fields@.len() == i,
                forall|j: int|
                    0 <= j < i && self@.kinds[j] == FieldKind::Required
                        ==> (#[trigger] self@.slots[j]) is Some,
                forall|j: int|
                    0 <= j < i ==> (#[trigger] self@.field_value(j)).duplicated_as(fields@[j]),
            decreases self.cells@.len() - i,
        {
            let cell = &self.cells[i];
            assert(self@.slots[i as int] == cell.slot);
            match cell.kind {
                FieldKind::Required => {
                    match &cell.slot {
                        Some(value) => {
                            fields.push(FieldValue::Required(value.clone()));
                        },
                        None => {
                            return Err(BuildError::MissingField);
                        },
                    }
                },
                FieldKind::Optional => {
                    fields.push(FieldValue::Optional(cell.slot.clone()));
                },
            }
            i += 1;
        }
        let record = Record { fields };
        let ghost held = Seq::new(self@.kinds.len(), |j: int| self@.field_value(j));
        assert(duplicated_as(held, record@)) by {
            assert forall|j: int| 0 <= j < held.len() implies (
            #[trigger] held[j]).duplicated_as(record@[j]) by {
                assert(self@.field_value(j).duplicated_as(record@[j]));
            }
        }
        proof {
            if clone_is_exact::<V>() {
                lemma_exact_duplicates(held, record@);
            }
        }
        Ok(record)
    }
}

} // verus!
