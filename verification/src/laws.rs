//! What holds of every generated builder, whatever the record.
//!
//! The laws speak of a builder that came fresh from the factory and was
//! then given a sequence of setter calls. They are stated over the slots
//! that such a sequence leaves behind and over what assembling makes of
//! them.

use vstd::prelude::*;
use vstd::seq_lib::*;
use crate::analyze::named_fields;
use crate::artifact::{AssemblyRule, GeneratedArtifactView, GeneratedFieldView};
use crate::behavior::{
    FieldValue,
    after_set,
    assembled,
    first_missing_is_unique,
    is_first_missing,
    is_missing,
    missing_field_message,
    unset,
};
use crate::classify::{classifications, names_option, wrapped_type};
use crate::generated;
use crate::error::GenerationError;
use crate::syntax::{Declaration, DeclarationBody, FieldDescriptor, FieldList};
use crate::synthesize::{builder_name_of, is_unresolved, option_of};

verus! {

/// One call of a setter: the field that it sets, by position, and the
/// value that it is given.
pub struct SetCall<V> {
    pub field: int,
    pub value: V,
}

/// The slots after a sequence of setter calls, made one after the other.
pub open spec fn after_calls<V>(slots: Seq<Option<V>>, calls: Seq<SetCall<V>>) -> Seq<Option<V>>
    decreases calls.len(),
{
    if calls.len() == 0 {
        slots
    } else {
        after_set(after_calls(slots, calls.drop_last()), calls.last().field, calls.last().value)
    }
}

/// Every call sets a field that a builder of `len` fields has.
pub open spec fn calls_in_range<V>(calls: Seq<SetCall<V>>, len: nat) -> bool {
    forall|k: int| 0 <= k < calls.len() ==> 0 <= (#[trigger] calls[k]).field < len
}

/// Some call sets `field`.
pub open spec fn sets_field<V>(calls: Seq<SetCall<V>>, field: int) -> bool {
    exists|k: int| 0 <= k < calls.len() && (#[trigger] calls[k]).field == field
}

/// No two calls set the same field.
pub open spec fn sets_no_field_twice<V>(calls: Seq<SetCall<V>>) -> bool {
    forall|i: int, j: int|
        0 <= i < calls.len() && 0 <= j < calls.len() && i != j ==> (#[trigger] calls[i]).field != (
        #[trigger] calls[j]).field
}

/// The named fields of a declaration that has them.
pub open spec fn record_fields(input: Declaration) -> Seq<FieldDescriptor> {
    named_fields(input.body)->Ok_0
}

/// The entries of the artifact generated for a declaration that has one.
pub open spec fn generated_fields(input: Declaration) -> Seq<GeneratedFieldView> {
    generated(input)->Ok_0.fields
}

/// Whether a builder can be generated for a field: its type is a named
/// path and, where that path is called `Option`, a wrapped type can be
/// read off it.
pub open spec fn is_supported_field(declared: FieldDescriptor) -> bool {
    &&& declared.declared_type.shape is Path
    &&& names_option(declared.declared_type) ==> wrapped_type(declared.declared_type) is Some
}

/// When generation succeeds and how it fails. A builder is generated
/// exactly for a struct with at least one field, all fields named and
/// each of them supported. Of the failures, the first that applies is
/// reported: no struct; no named field; some field whose type is no named
/// path; some optional field without a wrapped type.
pub proof fn generation_succeeds_exactly_when(input: Declaration)
    ensures
        generated(input) is Ok <==> named_fields(input.body) is Ok && forall|i: int|
            0 <= i < record_fields(input).len() ==> is_supported_field(
                #[trigger] record_fields(input)[i],
            ),
        named_fields(input.body) is Ok <==> (input.body matches DeclarationBody::Struct(
            FieldList::Named(fields),
        ) && fields@.len() > 0),
        generated(input) == Err::<GeneratedArtifactView, GenerationError>(
            GenerationError::NotAStruct,
        ) <==> !(input.body is Struct),
        generated(input) == Err::<GeneratedArtifactView, GenerationError>(
            GenerationError::UnsupportedFields,
        ) <==> input.body is Struct && named_fields(input.body) is Err,
        generated(input) == Err::<GeneratedArtifactView, GenerationError>(
            GenerationError::UnexpectedFieldType,
        ) <==> named_fields(input.body) is Ok && exists|i: int|
            0 <= i < record_fields(input).len() && (#[trigger] record_fields(
                input,
            )[i]).declared_type.shape is Other,
        generated(input) == Err::<GeneratedArtifactView, GenerationError>(
            GenerationError::UnresolvedOption,
        ) <==> named_fields(input.body) is Ok && (forall|i: int|
            0 <= i < record_fields(input).len() ==> (#[trigger] record_fields(
                input,
            )[i]).declared_type.shape is Path) && exists|i: int|
            0 <= i < record_fields(input).len() && !is_supported_field(
                #[trigger] record_fields(input)[i],
            ),
{
    if named_fields(input.body) is Ok && classifications(record_fields(input)) is Ok {
        let fields = record_fields(input);
        let classes = classifications(fields)->Ok_0;
        // A classification is unresolved exactly where the field is not
        // supported, so one exists where the other does.
        assert forall|i: int| 0 <= i < fields.len() implies (is_unresolved(#[trigger] classes[i])
            <==> !is_supported_field(fields[i])) by {}
        if exists|i: int| 0 <= i < fields.len() && !is_supported_field(#[trigger] fields[i]) {
            let i = choose|i: int|
                0 <= i < fields.len() && !is_supported_field(#[trigger] fields[i]);
            assert(is_unresolved(classes[i]));
        }
    }
}

/// Whether an entry of the artifact is what the declared field asks for.
/// It bears the field's name. For an optional field it keeps the declared
/// type, takes a value of the wrapped type and is kept when the record is
/// assembled; for a plain field of type `T` it holds an `Option<T>`, takes
/// a `T` and is required.
pub open spec fn entry_follows_field(entry: GeneratedFieldView, declared: FieldDescriptor) -> bool {
    &&& entry.name == declared.name@
    &&& names_option(declared.declared_type) ==> {
        &&& wrapped_type(declared.declared_type) is Some
        &&& entry.builder_type == declared.declared_type.tokens@
        &&& entry.setter_type == wrapped_type(declared.declared_type)->Some_0.tokens@
        &&& entry.assembly == AssemblyRule::Keep
    }
    &&& !names_option(declared.declared_type) ==> {
        &&& entry.builder_type == option_of(declared.declared_type.tokens@)
        &&& entry.setter_type == declared.declared_type.tokens@
        &&& entry.assembly == AssemblyRule::Require
    }
}

/// The artifact follows the declaration field by field. It is named after
/// the record, and has one entry for each declared field, at the field's
/// position and made from that field: none is dropped, renamed or moved.
pub proof fn artifact_follows_declaration(input: Declaration)
    requires
        generated(input) is Ok,
    ensures
        named_fields(input.body) is Ok,
        generated(input)->Ok_0.record_name == input.name@,
        generated(input)->Ok_0.builder_name == builder_name_of(input.name@),
        generated_fields(input).len() == record_fields(input).len(),
        forall|i: int|
            0 <= i < record_fields(input).len() ==> entry_follows_field(
                generated_fields(input)[i],
                #[trigger] record_fields(input)[i],
            ),
{
}

/// What a sequence of setter calls leaves in the slots. The number of
/// slots stays. A field that no call sets keeps what it held; a field that
/// some call sets holds a value. Where no field is set twice, each field
/// that is set holds the value of its one call.
pub proof fn slots_after_calls<V>(slots: Seq<Option<V>>, calls: Seq<SetCall<V>>)
    requires
        calls_in_range(calls, slots.len()),
    ensures
        after_calls(slots, calls).len() == slots.len(),
        forall|field: int|
            0 <= field < slots.len() && !sets_field(calls, field) ==> #[trigger] after_calls(
                slots,
                calls,
            )[field] == slots[field],
        forall|field: int|
            0 <= field < slots.len() && sets_field(calls, field) ==> #[trigger] after_calls(
                slots,
                calls,
            )[field] is Some,
        sets_no_field_twice(calls) ==> forall|k: int|
            0 <= k < calls.len() ==> after_calls(slots, calls)[(#[trigger] calls[k]).field] == Some(
                calls[k].value,
            ),
    decreases calls.len(),
{
    if calls.len() > 0 {
        let earlier = calls.drop_last();
        let last = calls.last();
        let after = after_calls(slots, calls);
        // The calls before the last one leave what the lemma says of them,
        // and the last call changes the slot of its own field only.
        slots_after_calls(slots, earlier);
        assert forall|field: int|
            0 <= field < slots.len() && sets_field(calls, field) implies #[trigger] after[field]
            is Some by {
            if last.field != field {
                let k = choose|k: int|
                    0 <= k < calls.len() && (#[trigger] calls[k]).field == field;
                assert(earlier[k].field == field);
            }
        }
        if sets_no_field_twice(calls) {
            assert forall|k: int| 0 <= k < calls.len() implies after[(#[trigger] calls[k]).field]
                == Some(calls[k].value) by {
                if k < calls.len() - 1 {
                    assert(earlier[k].field == calls[k].field);
                }
            }
        }
    }
}

/// The value that the last call on `field` was given, if any call sets the
/// field.
pub open spec fn last_write<V>(calls: Seq<SetCall<V>>, field: int) -> Option<V>
    decreases calls.len(),
{
    if calls.len() == 0 {
        None
    } else if calls.last().field == field {
        Some(calls.last().value)
    } else {
        last_write(calls.drop_last(), field)
    }
}

/// After any sequence of calls, a field holds the value of the last call
/// that set it, and what it held before where no call set it.
pub proof fn last_write_decides_slot<V>(slots: Seq<Option<V>>, calls: Seq<SetCall<V>>, field: int)
    requires
        calls_in_range(calls, slots.len()),
        0 <= field < slots.len(),
    ensures
        after_calls(slots, calls)[field] == (match last_write(calls, field) {
            Some(value) => Some(value),
            None => slots[field],
        }),
    decreases calls.len(),
{
    if calls.len() > 0 {
        let earlier = calls.drop_last();
        slots_after_calls(slots, earlier);
        last_write_decides_slot(slots, earlier, field);
    }
}

/// Only the final values count. Two sequences of calls that agree, for
/// every field, on the value written last leave the same builder behind,
/// whatever else they hold and in whatever order, and so assemble to the
/// same outcome.
pub proof fn final_values_decide<V>(
    fields: Seq<GeneratedFieldView>,
    slots: Seq<Option<V>>,
    first: Seq<SetCall<V>>,
    second: Seq<SetCall<V>>,
)
    requires
        calls_in_range(first, slots.len()),
        calls_in_range(second, slots.len()),
        forall|field: int|
            0 <= field < slots.len() ==> last_write(first, field) == last_write(second, field),
    ensures
        after_calls(slots, first) == after_calls(slots, second),
        assembled::<V>(fields, after_calls(slots, first)) == assembled::<V>(
            fields,
            after_calls(slots, second),
        ),
{
    slots_after_calls(slots, first);
    slots_after_calls(slots, second);
    assert forall|field: int| 0 <= field < slots.len() implies after_calls(slots, first)[field]
        == after_calls(slots, second)[field] by {
        last_write_decides_slot(slots, first, field);
        last_write_decides_slot(slots, second, field);
    }
}

/// The outcome of assembling after a fresh builder for the declaration was
/// given the calls.
pub open spec fn built<'a, V>(input: Declaration, calls: Seq<SetCall<V>>) -> Result<
    Seq<FieldValue<'a, V>>,
    Seq<char>,
> {
    assembled(
        generated_fields(input),
        after_calls(unset::<V>(record_fields(input).len()), calls),
    )
}

/// Round trip of plain fields. For a record of which every field is
/// plain: when each field is set exactly once, in whatever order,
/// assembling succeeds, and every field of the record holds exactly the
/// value that its setter was given.
pub proof fn plain_fields_round_trip<V>(input: Declaration, calls: Seq<SetCall<V>>)
    requires
        generated(input) is Ok,
        forall|i: int|
            0 <= i < record_fields(input).len() ==> !names_option(
                (#[trigger] record_fields(input)[i]).declared_type,
            ),
        calls_in_range(calls, record_fields(input).len()),
        sets_no_field_twice(calls),
        forall|field: int| 0 <= field < record_fields(input).len() ==> sets_field(calls, field),
    ensures
        built(input, calls) is Ok,
        built(input, calls)->Ok_0.len() == record_fields(input).len(),
        forall|k: int|
            0 <= k < calls.len() ==> built(input, calls)->Ok_0[(#[trigger] calls[k]).field]
                == FieldValue::Required(&calls[k].value),
{
    let fresh = unset::<V>(record_fields(input).len());
    let slots = after_calls(fresh, calls);
    artifact_follows_declaration(input);
    slots_after_calls(fresh, calls);
    // Every field is set, so none is missing, and each holds the value of
    // its one call.
    assert(forall|i: int| !is_missing(generated_fields(input), slots, i));
}

/// An optional field that is never set does no harm. For a record with an
/// optional field: when every plain field is set by some call and no call
/// sets the optional one, assembling succeeds, and the optional field is
/// absent in the record.
pub proof fn unset_optional_field_is_absent<V>(
    input: Declaration,
    calls: Seq<SetCall<V>>,
    field: int,
)
    requires
        generated(input) is Ok,
        0 <= field < record_fields(input).len(),
        names_option(record_fields(input)[field].declared_type),
        calls_in_range(calls, record_fields(input).len()),
        !sets_field(calls, field),
        forall|i: int|
            0 <= i < record_fields(input).len() && !names_option(
                (#[trigger] record_fields(input)[i]).declared_type,
            ) ==> sets_field(calls, i),
    ensures
        built(input, calls) is Ok,
        built(input, calls)->Ok_0[field] == FieldValue::<V>::Optional(None),
{
    let fresh = unset::<V>(record_fields(input).len());
    let slots = after_calls(fresh, calls);
    artifact_follows_declaration(input);
    slots_after_calls(fresh, calls);
    // A plain field is set and an optional one is never missing.
    assert(forall|i: int| !is_missing(generated_fields(input), slots, i));
}

/// A plain field that is never set makes assembling fail. For a record
/// with a plain field: when no call sets that field, assembling fails, and
/// the message names the first plain field, in declaration order, that was
/// left unset. That is the field in question wherever every plain field
/// before it was set.
pub proof fn unset_plain_field_fails<V>(input: Declaration, calls: Seq<SetCall<V>>, field: int)
    requires
        generated(input) is Ok,
        0 <= field < record_fields(input).len(),
        !names_option(record_fields(input)[field].declared_type),
        calls_in_range(calls, record_fields(input).len()),
        !sets_field(calls, field),
    ensures
        built(input, calls) is Err,
        exists|first: int|
            0 <= first <= field && !names_option(
                (#[trigger] record_fields(input)[first]).declared_type,
            ) && !sets_field(calls, first) && built(input, calls)->Err_0 == missing_field_message(
                record_fields(input)[first].name@,
            ),
        (forall|i: int|
            0 <= i < field && !names_option((#[trigger] record_fields(input)[i]).declared_type)
                ==> sets_field(calls, i)) ==> built(input, calls)->Err_0 == missing_field_message(
            record_fields(input)[field].name@,
        ),
{
    let entries = generated_fields(input);
    let fresh = unset::<V>(record_fields(input).len());
    let slots = after_calls(fresh, calls);
    artifact_follows_declaration(input);
    slots_after_calls(fresh, calls);
    // The field itself is missing, so there is a first missing field at or
    // before it: a plain field that no call has set.
    let first = least_missing(entries, slots, field);
    first_missing_is_unique(entries, slots, first);
    assert(!sets_field(calls, first));
}

/// Below a missing field there is a first missing field.
proof fn least_missing<V>(
    fields: Seq<GeneratedFieldView>,
    slots: Seq<Option<V>>,
    bound: int,
) -> (first: int)
    requires
        is_missing(fields, slots, bound),
    ensures
        0 <= first <= bound,
        is_first_missing(fields, slots, first),
    decreases bound,
{
    if exists|j: int| 0 <= j < bound && is_missing(fields, slots, j) {
        let j = choose|j: int| 0 <= j < bound && is_missing(fields, slots, j);
        least_missing(fields, slots, j)
    } else {
        bound
    }
}

/// The last write wins. When the setter of one field is called twice, the
/// builder is left as if only the second call had been made: nothing of
/// the first value stays, and an assembled record holds the second.
pub proof fn last_set_wins<V>(
    fields: Seq<GeneratedFieldView>,
    slots: Seq<Option<V>>,
    field: int,
    first: V,
    second: V,
)
    requires
        fields.len() == slots.len(),
        0 <= field < slots.len(),
    ensures
        after_set(after_set(slots, field, first), field, second) == after_set(
            slots,
            field,
            second,
        ),
        assembled(fields, after_set(after_set(slots, field, first), field, second))
            == assembled::<V>(fields, after_set(slots, field, second)),
        assembled(fields, after_set(after_set(slots, field, first), field, second)) matches Ok(
            record,
        ) ==> record[field] == (match fields[field].assembly {
            AssemblyRule::Keep => FieldValue::Optional(Some(&second)),
            AssemblyRule::Require => FieldValue::Required(&second),
        }),
{
    let twice = after_set(after_set(slots, field, first), field, second);
    assert(twice =~= after_set(slots, field, second));
}

/// The order of the calls is of no account. Two sequences of calls that
/// hold the same calls in different orders, no field being set twice,
/// leave the same builder behind, and so assemble to the same outcome.
pub proof fn set_order_is_irrelevant<V>(
    fields: Seq<GeneratedFieldView>,
    slots: Seq<Option<V>>,
    first: Seq<SetCall<V>>,
    second: Seq<SetCall<V>>,
)
    requires
        calls_in_range(first, slots.len()),
        sets_no_field_twice(first),
        first.to_multiset() == second.to_multiset(),
    ensures
        after_calls(slots, first) == after_calls(slots, second),
        assembled::<V>(fields, after_calls(slots, first)) == assembled::<V>(
            fields,
            after_calls(slots, second),
        ),
{
    broadcast use group_to_multiset_ensures;

    // No call occurs twice in `first`, hence none occurs twice in `second`,
    // and the two hold the same calls.
    first.lemma_multiset_has_no_duplicates();
    second.lemma_multiset_has_no_duplicates_conv();
    assert forall|call: SetCall<V>| first.contains(call) == second.contains(call) by {
        assert(second.contains(call) <==> second.to_multiset().count(call) > 0);
    }
    // So `second` too stays in range and sets no field twice: two of its
    // calls on one field would be two calls of `first` on that field.
    assert(calls_in_range(second, slots.len())) by {
        assert forall|k: int| 0 <= k < second.len() implies 0 <= (#[trigger] second[k]).field
            < slots.len() by {
            assert(first.contains(second[k]));
        }
    }
    assert(sets_no_field_twice(second)) by {
        assert forall|i: int, j: int|
            0 <= i < second.len() && 0 <= j < second.len() && i != j implies (
        #[trigger] second[i]).field != (#[trigger] second[j]).field by {
            assert(first.contains(second[i]));
            assert(first.contains(second[j]));
        }
    }
    // Field by field: a field that one sequence sets is set by the same
    // call in the other, and a field that neither sets keeps its slot.
    slots_after_calls(slots, first);
    slots_after_calls(slots, second);
    let left = after_calls(slots, first);
    let right = after_calls(slots, second);
    assert forall|field: int| 0 <= field < slots.len() implies left[field] == right[field] by {
        if sets_field(first, field) {
            let k = choose|k: int| 0 <= k < first.len() && (#[trigger] first[k]).field == field;
            assert(second.contains(first[k]));
        } else if sets_field(second, field) {
            let m = choose|m: int| 0 <= m < second.len() && (#[trigger] second[m]).field == field;
            assert(first.contains(second[m]));
        }
    }
}

} // verus!
