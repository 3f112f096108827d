//! What the generated builder does when it runs: the factory hands out a
//! builder with every field unset, a setter sets one field, and `build`
//! assembles the record or says which required field is missing.
//!
//! The values of the fields are of no concern here, so they are all of one
//! type `V`. A field is addressed by its position in the declaration.

use vstd::prelude::*;
use vstd::string::*;
use crate::artifact::{AssemblyRule, GeneratedArtifact, GeneratedField, GeneratedFieldView};

verus! {

/// The value of one field of an assembled record. It is borrowed from the
/// builder, which stays as it was.
#[derive(Debug, PartialEq, Eq)]
pub enum FieldValue<'a, V> {
    /// The value of a plain field.
    Required(&'a V),
    /// The value of an optional field, absent where the field was not set.
    Optional(Option<&'a V>),
}

/// One field of a builder: what was generated for the field, and the value
/// last set, if any.
struct Slot<'a, V> {
    field: &'a GeneratedField,
    value: Option<V>,
}

/// A builder in the making: one slot for each field of the artifact it was
/// made from, in declaration order, each slot empty or holding the value
/// last set.
pub struct Builder<'a, V> {
    slots: Vec<Slot<'a, V>>,
}

/// The slots of a fresh builder of `len` fields: all of them empty.
pub open spec fn unset<V>(len: nat) -> Seq<Option<V>> {
    Seq::new(len, |i: int| None::<V>)
}

/// The slots after the setter of `field` was called with `value`.
pub open spec fn after_set<V>(slots: Seq<Option<V>>, field: int, value: V) -> Seq<Option<V>> {
    slots.update(field, Some(value))
}

/// The message with which assembling fails on a required field that was
/// not set.
pub open spec fn missing_field_message(name: Seq<char>) -> Seq<char> {
    "Field "@ + name + " not allowed None"@
}

/// Whether field `i` stops the record from being assembled: it is
/// required, and its slot is empty.
pub open spec fn is_missing<V>(
    fields: Seq<GeneratedFieldView>,
    slots: Seq<Option<V>>,
    i: int,
) -> bool {
    0 <= i < fields.len() && fields[i].assembly == AssemblyRule::Require && slots[i] is None
}

/// Whether field `i` is the first one, in declaration order, that is
/// missing.
pub open spec fn is_first_missing<V>(
    fields: Seq<GeneratedFieldView>,
    slots: Seq<Option<V>>,
    i: int,
) -> bool {
    is_missing(fields, slots, i) && forall|j: int| 0 <= j < i ==> !is_missing(fields, slots, j)
}

/// The first missing field, where there is one.
pub open spec fn first_missing<V>(fields: Seq<GeneratedFieldView>, slots: Seq<Option<V>>) -> int {
    choose|i: int| is_first_missing(fields, slots, i)
}

/// What a field of the record gets from its slot.
pub open spec fn assembled_field<'a, V>(rule: AssemblyRule, slot: Option<V>) -> FieldValue<'a, V> {
    match rule {
        AssemblyRule::Keep => FieldValue::Optional(
            match slot {
                Some(value) => Some(&value),
                None => None,
            },
        ),
        AssemblyRule::Require => FieldValue::Required(&slot->Some_0),
    }
}

/// The outcome of assembling: the record, field by field, when no field
/// is missing; otherwise the message that names the first missing field.
pub open spec fn assembled<'a, V>(
    fields: Seq<GeneratedFieldView>,
    slots: Seq<Option<V>>,
) -> Result<Seq<FieldValue<'a, V>>, Seq<char>> {
    if exists|i: int| is_missing(fields, slots, i) {
        Err(missing_field_message(fields[first_missing(fields, slots)].name))
    } else {
        Ok(Seq::new(fields.len(), |i: int| assembled_field(fields[i].assembly, slots[i])))
    }
}

/// There is at most one first missing field.
pub proof fn first_missing_is_unique<V>(
    fields: Seq<GeneratedFieldView>,
    slots: Seq<Option<V>>,
    i: int,
)
    requires
        is_first_missing(fields, slots, i),
    ensures
        first_missing(fields, slots) == i,
{
    // The chosen field is a first missing one as well, and of two such
    // fields neither can come before the other.
    let chosen = first_missing(fields, slots);
    assert(is_first_missing(fields, slots, chosen));
}

impl GeneratedArtifact {
    /// The factory: a builder for this artifact with every field unset,
    /// optional or not.
    pub fn builder<V>(&self) -> (fresh: Builder<'_, V>)
        ensures
            fresh.fields() == self@.fields,
            fresh.slots() == unset::<V>(self.fields@.len()),
    {
        let mut slots: Vec<Slot<'_, V>> = Vec::new();
        let mut i: usize = 0;
        while i < self.fields.len()
            invariant
                i <= self.fields.len(),
                slots@.len() == i,
                forall|j: int|
                    0 <= j < i ==> *(#[trigger] slots@[j]).field == self.fields@[j]
                        && slots@[j].value is None,
            decreases self.fields.len() - i,
        {
            slots.push(Slot { field: &self.fields[i], value: None });
            i += 1;
        }
        Builder { slots }
    }
}

impl<'a, V> Builder<'a, V> {
    /// What was generated for each field, in declaration order.
    pub closed spec fn fields(&self) -> Seq<GeneratedFieldView> {
        Seq::new(self.slots@.len(), |i: int| self.slots@[i].field@)
    }

    /// What each field holds, in declaration order.
    pub closed spec fn slots(&self) -> Seq<Option<V>> {
        Seq::new(self.slots@.len(), |i: int| self.slots@[i].value)
    }

    /// How many fields the builder has.
    pub fn len(&self) -> (len: usize)
        ensures
            len == self.slots().len(),
            len == self.fields().len(),
    {
        self.slots.len()
    }

    /// The setter of one field: puts `value` into the field's slot, in
    /// place of what was there, touches no other slot, and hands the same
    /// builder back for the next call.
    pub fn set(&mut self, field: usize, value: V) -> (same: &mut Self)
        requires
            field < old(self).slots().len(),
        ensures
            same.slots() == after_set(old(self).slots(), field as int, value),
            same.fields() == old(self).fields(),
            *final(self) == *final(same),
    {
        let entry = self.slots[field].field;
        self.slots.set(field, Slot { field: entry, value: Some(value) });
        self
    }

    /// Assembles the record without changing the builder.
    ///
    /// Every field is looked at by itself. A kept field is handed on as it
    /// is; a required field gives its value. Assembling fails exactly when
    /// a required field is unset, with the message that names the first
    /// such field.
    pub fn build(&self) -> (result: Result<Vec<FieldValue<'_, V>>, String>)
        ensures
            match result {
                Ok(record) => assembled(self.fields(), self.slots()) == Ok::<
                    Seq<FieldValue<'_, V>>,
                    Seq<char>,
                >(record@),
                Err(message) => assembled(self.fields(), self.slots()) == Err::<
                    Seq<FieldValue<'_, V>>,
                    Seq<char>,
                >(message@),
            },
    {
        let ghost fields = self.fields();
        let ghost slots = self.slots();
        let mut record: Vec<FieldValue<'_, V>> = Vec::new();
        let mut i: usize = 0;
        while i < self.slots.len()
            invariant
                i <= self.slots@.len(),
                fields == self.fields(),
                slots == self.slots(),
                record@.len() == i,
                forall|j: int| 0 <= j < i ==> !is_missing(fields, slots, j),
                forall|j: int|
                    0 <= j < i ==> #[trigger] record@[j] == assembled_field(
                        fields[j].assembly,
                        slots[j],
                    ),
            decreases self.slots@.len() - i,
        {
            let slot = &self.slots[i];
            match slot.field.assembly {
                AssemblyRule::Keep => {
                    record.push(FieldValue::Optional(slot.value.as_ref()));
                },
                AssemblyRule::Require => match &slot.value {
                    Some(value) => {
                        record.push(FieldValue::Required(value));
                    },
                    None => {
                        let mut message = String::from_str("Field ");
                        message.append(slot.field.name.as_str());
                        message.append(" not allowed None");
                        proof {
                            first_missing_is_unique(fields, slots, i as int);
                        }
                        return Err(message);
                    },
                },
            }
            i += 1;
        }
        assert(record@ =~= Seq::new(
            fields.len(),
            |i: int| assembled_field(fields[i].assembly, slots[i]),
        ));
        Ok(record)
    }
}

} // verus!
