//! Laws of the builder life cycle, stated over the state of a builder.

use vstd::prelude::*;
use crate::classify::FieldKind;
use crate::error::BuildError;
use crate::record::Field;
use crate::runtime::{
    called, clone_is_exact, distinct_fields, duplicated_as, lemma_exact_duplicates, BuilderState,
    FieldValue,
};
use crate::synth::{classified, GeneratedDefinitions};

verus! {

/// The kinds that a builder goes by are those that the classifier gave:
/// field number `i` of the builder generated for a record is optional
/// exactly when the declared type of field number `i` is `Option<T>`.
pub proof fn lemma_kinds_follow_classification(
    defs: GeneratedDefinitions,
    record_name: Seq<char>,
    fields: Seq<Field>,
)
    requires
        defs.synthesized_from(record_name, classified(fields)),
    ensures
        defs.kinds().len() == fields.len(),
        forall|i: int|
            0 <= i < fields.len() ==> (#[trigger] defs.kinds()[i] == FieldKind::Optional
                <==> fields[i].ty.option_argument() is Some),
{
    assert forall|i: int| 0 <= i < fields.len() implies (#[trigger] defs.kinds()[i]
        == FieldKind::Optional <==> fields[i].ty.option_argument() is Some) by {
        assert(defs.finalizer@[i].kind == classified(fields)[i].class.spec_kind());
    }
}

/// What a sequence of setter calls leaves in each slot: the kinds stay, a
/// slot whose setter was not called keeps what it held, and a slot whose
/// setter was called holds the argument of one of those calls.
pub proof fn lemma_apply<V>(state: BuilderState<V>, calls: Seq<(int, V)>)
    requires
        state.wf(),
        state.accepts(calls),
    ensures
        state.apply(calls).wf(),
        state.apply(calls).kinds == state.kinds,
        forall|i: int|
            0 <= i < state.kinds.len() && !called(calls, i) ==> #[trigger] state.apply(
                calls,
            ).slots[i] == state.slots[i],
        forall|i: int|
            0 <= i < state.kinds.len() && #[trigger] called(calls, i) ==> exists|j: int|
                0 <= j < calls.len() && (#[trigger] calls[j]).0 == i && state.apply(calls).slots[i]
                    == Some(calls[j].1),
    decreases calls.len(),
{
    if calls.len() > 0 {
        let init = calls.drop_last();
        let last = calls.last();
        lemma_apply(state, init);
        let before = state.apply(init);
        let after = state.apply(calls);
        assert(after == before.set(last.0, last.1));
        assert forall|i: int| 0 <= i < state.kinds.len() && !called(calls, i) implies after.slots[i]
            == state.slots[i] by {
            assert(calls[calls.len() - 1].0 != i);
            if called(init, i) {
                let j = choose|j: int| 0 <= j < init.len() && (#[trigger] init[j]).0 == i;
                assert(calls[j].0 == i);
            }
        }
        assert forall|i: int| 0 <= i < state.kinds.len() && called(calls, i) implies exists|j: int|
            0 <= j < calls.len() && (#[trigger] calls[j]).0 == i && after.slots[i] == Some(
                calls[j].1,
            ) by {
            if last.0 == i {
                assert(calls[calls.len() - 1].0 == i);
            } else {
                let k = choose|k: int| 0 <= k < calls.len() && (#[trigger] calls[k]).0 == i;
                assert(init[k].0 == i);
                assert(called(init, i));
                let j = choose|j: int|
                    0 <= j < init.len() && (#[trigger] init[j]).0 == i && before.slots[i] == Some(
                        init[j].1,
                    );
                assert(calls[j].0 == i);
            }
        }
    }
}

/// With required fields only, finalizing a fresh builder after some setter
/// calls succeeds exactly when every setter was called at least once, and
/// gives the missing-field error otherwise.
pub proof fn lemma_required_fields_need_every_setter<V>(
    kinds: Seq<FieldKind>,
    calls: Seq<(int, V)>,
)
    requires
        forall|i: int| 0 <= i < kinds.len() ==> kinds[i] == FieldKind::Required,
        BuilderState::<V>::empty(kinds).accepts(calls),
    ensures
        BuilderState::<V>::empty(kinds).apply(calls).build() is Ok <==> forall|i: int|
            0 <= i < kinds.len() ==> called(calls, i),
        !(BuilderState::<V>::empty(kinds).apply(calls).build() is Ok) ==> BuilderState::<V>::empty(
            kinds,
        ).apply(calls).build() == Err::<Seq<FieldValue<V>>, BuildError>(BuildError::MissingField),
{
    lemma_build_needs_required_setters(kinds, calls);
    if forall|i: int| 0 <= i < kinds.len() && kinds[i] == FieldKind::Required ==> called(calls, i) {
        assert forall|i: int| 0 <= i < kinds.len() implies called(calls, i) by {
            assert(kinds[i] == FieldKind::Required);
        }
    }
}

/// Finalizing a fresh builder after some setter calls succeeds exactly when
/// the setter of every required field was called at least once, whatever was
/// done to the optional fields, and gives the missing-field error otherwise.
pub proof fn lemma_build_needs_required_setters<V>(kinds: Seq<FieldKind>, calls: Seq<(int, V)>)
    requires
        BuilderState::<V>::empty(kinds).accepts(calls),
    ensures
        BuilderState::<V>::empty(kinds).apply(calls).build() is Ok <==> forall|i: int|
            0 <= i < kinds.len() && kinds[i] == FieldKind::Required ==> called(calls, i),
        !(BuilderState::<V>::empty(kinds).apply(calls).build() is Ok) ==> BuilderState::<V>::empty(
            kinds,
        ).apply(calls).build() == Err::<Seq<FieldValue<V>>, BuildError>(BuildError::MissingField),
{
    let fresh = BuilderState::<V>::empty(kinds);
    let state = fresh.apply(calls);
    lemma_apply(fresh, calls);
    if state.ready() {
        assert forall|i: int|
            0 <= i < kinds.len() && kinds[i] == FieldKind::Required implies called(calls, i) by {
            assert(state.slots[i] is Some);
        }
    }
    if forall|i: int| 0 <= i < kinds.len() && kinds[i] == FieldKind::Required ==> called(calls, i) {
        assert forall|i: int|
            0 <= i < state.kinds.len() && state.kinds[i] == FieldKind::Required implies (
        #[trigger] state.slots[i]) is Some by {
            assert(called(calls, i));
        }
    }
}

/// An optional field never stands in the way of finalizing. Let the setter of
/// every required field have been called on a fresh builder. If the setter of
/// the optional field `field` is then called with `value`, the record holds
/// `value` as present in that field. If that setter was never called, the
/// record holds absent in that field. Finalizing succeeds either way.
pub proof fn lemma_optional_field<V>(
    kinds: Seq<FieldKind>,
    calls: Seq<(int, V)>,
    field: int,
    value: V,
)
    requires
        0 <= field < kinds.len(),
        kinds[field] == FieldKind::Optional,
        BuilderState::<V>::empty(kinds).accepts(calls),
        forall|i: int| 0 <= i < kinds.len() && kinds[i] == FieldKind::Required ==> called(calls, i),
    ensures
        BuilderState::<V>::empty(kinds).apply(calls).set(field, value).build() matches Ok(record)
            && record[field] == FieldValue::Optional(Some(value)),
        !called(calls, field) ==> (BuilderState::<V>::empty(kinds).apply(calls).build() matches Ok(
            record,
        ) && record[field] == FieldValue::<V>::Optional(None)),
{
    let fresh = BuilderState::<V>::empty(kinds);
    let state = fresh.apply(calls);
    lemma_apply(fresh, calls);
    lemma_build_needs_required_setters(kinds, calls);
    assert(state.ready());
    let with_value = state.set(field, value);
    assert forall|i: int|
        0 <= i < with_value.kinds.len() && with_value.kinds[i] == FieldKind::Required implies (
    #[trigger] with_value.slots[i]) is Some by {
        assert(state.slots[i] is Some);
    }
}

/// Finalizing twice in a row gives the same outcome twice. The first
/// finalization leaves the builder as it was, so the second starts from the
/// same slots: it fails exactly when the first failed, with the same error,
/// and where cloning is exact the record `second` that it gives equals the
/// record `first` that the first gave.
pub proof fn lemma_build_is_repeatable<V: Clone>(
    state: BuilderState<V>,
    first: Seq<FieldValue<V>>,
    second: Seq<FieldValue<V>>,
)
    requires
        clone_is_exact::<V>(),
        state.build() matches Ok(fields) ==> duplicated_as(fields, first),
        state.after_build().build() matches Ok(fields) ==> duplicated_as(fields, second),
    ensures
        state.after_build() == state,
        state.after_build().build() == state.build(),
        state.build() is Ok ==> second == first,
{
    if state.build() is Ok {
        lemma_exact_duplicates(state.build()->Ok_0, first);
        lemma_exact_duplicates(state.build()->Ok_0, second);
    }
}

/// The order of setter calls does not matter: when no setter is called
/// twice, making the same calls in another order leaves the builder in the
/// same state, so finalizing gives the same outcome.
pub proof fn lemma_order_independence<V>(
    state: BuilderState<V>,
    calls: Seq<(int, V)>,
    permuted: Seq<(int, V)>,
)
    requires
        state.wf(),
        state.accepts(calls),
        distinct_fields(calls),
        permuted.to_multiset() == calls.to_multiset(),
    ensures
        state.apply(permuted) == state.apply(calls),
        state.apply(permuted).build() == state.apply(calls).build(),
{
    broadcast use vstd::seq_lib::group_to_multiset_ensures;

    assert forall|x: (int, V)| calls.contains(x) <==> permuted.contains(x) by {
        assert(calls.contains(x) <==> calls.to_multiset().count(x) > 0);
        assert(permuted.contains(x) <==> permuted.to_multiset().count(x) > 0);
    }
    assert(state.accepts(permuted)) by {
        assert forall|j: int| 0 <= j < permuted.len() implies 0 <= (#[trigger] permuted[j]).0
            < state.kinds.len() by {
            assert(permuted.contains(permuted[j]));
            assert(calls.contains(permuted[j]));
        }
    }
    lemma_apply(state, calls);
    lemma_apply(state, permuted);
    let one = state.apply(calls);
    let other = state.apply(permuted);
    assert forall|i: int| 0 <= i < state.kinds.len() implies one.slots[i] == other.slots[i] by {
        if called(permuted, i) {
            let p = choose|p: int|
                0 <= p < permuted.len() && (#[trigger] permuted[p]).0 == i && other.slots[i]
                    == Some(permuted[p].1);
            assert(permuted.contains(permuted[p]));
            assert(calls.contains(permuted[p]));
            let q = choose|q: int| 0 <= q < calls.len() && calls[q] == permuted[p];
            assert(calls[q].0 == i);
            assert(called(calls, i));
            let j = choose|j: int|
                0 <= j < calls.len() && (#[trigger] calls[j]).0 == i && one.slots[i] == Some(
                    calls[j].1,
                );
            assert(j == q);
        } else {
            if called(calls, i) {
                let j = choose|j: int| 0 <= j < calls.len() && (#[trigger] calls[j]).0 == i;
                assert(calls.contains(calls[j]));
                assert(permuted.contains(calls[j]));
                let q = choose|q: int| 0 <= q < permuted.len() && permuted[q] == calls[j];
                assert(permuted[q].0 == i);
            }
        }
    }
    assert(one.slots =~= other.slots);
}

} // verus!
