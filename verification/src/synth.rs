//! The type synthesizer: from the classified fields of a record to the
//! definitions of its builder.

use vstd::prelude::*;
use vstd::string::StringExecFns;
use crate::classify::{classify, Classification, FieldKind};
use crate::error::GenerationError;
use crate::record::{DeriveInput, Field, ItemShape};
use crate::type_expr::TypeExpr;

verus! {

/// A field together with its classification.
#[derive(Debug, PartialEq, Eq)]
pub struct ClassifiedField<'a> {
    /// The name of the field.
    pub name: &'a String,
    /// What the classifier said of its declared type.
    pub class: Classification<'a>,
}

/// A storage slot of the builder type. A slot holds an optional value of
/// `value_type`; it starts out empty.
#[derive(Debug, PartialEq, Eq)]
pub struct Slot<'a> {
    /// The name of the slot, which is the name of the field.
    pub name: &'a String,
    /// The type of the value that the slot holds once it is set.
    pub value_type: &'a TypeExpr,
}

/// A setter method of the builder type. It stores its argument into the slot
/// of the same position and hands the builder back.
#[derive(Debug, PartialEq, Eq)]
pub struct Setter<'a> {
    /// The name of the method, which is the name of the field.
    pub name: &'a String,
    /// The type of the one parameter.
    pub parameter_type: &'a TypeExpr,
}

/// What the finalizer does for one field.
#[derive(Debug, PartialEq, Eq)]
pub struct FinalizerStep<'a> {
    /// The field of the record that the step fills.
    pub field: &'a String,
    /// `Required`: fail if the slot is empty, else copy the value out of it.
    /// `Optional`: copy the slot as it is.
    pub kind: FieldKind,
}

/// Everything that is generated for one record.
#[derive(Debug, PartialEq, Eq)]
pub struct GeneratedDefinitions<'a> {
    /// The record type, which receives the factory operation that returns a
    /// builder with every slot empty.
    pub record_name: &'a String,
    /// The name of the builder type.
    pub builder_name: String,
    /// The slots of the builder type, one per field, in declaration order.
    pub slots: Vec<Slot<'a>>,
    /// The setters of the builder type, one per field, in declaration order.
    pub setters: Vec<Setter<'a>>,
    /// The steps of the finalizer, one per field, in declaration order.
    pub finalizer: Vec<FinalizerStep<'a>>,
}

/// The fields of a record, each with the classification of its type.
pub open spec fn classified<'a>(fields: Seq<Field>) -> Seq<ClassifiedField<'a>> {
    Seq::new(
        fields.len(),
        |i: int| (ClassifiedField { name: &fields[i].name, class: fields[i].ty.classification() }),
    )
}

impl<'a> GeneratedDefinitions<'a> {
    /// Whether the parts belong together: there are as many setters and
    /// finalizer steps as slots, and slot, setter and finalizer step number
    /// `i` speak of the same field, the setter taking what the slot holds.
    pub open spec fn wf(&self) -> bool {
        &&& self.setters@.len() == self.slots@.len()
        &&& self.finalizer@.len() == self.slots@.len()
        &&& forall|i: int|
            0 <= i < self.slots@.len() ==> {
                &&& (#[trigger] self.setters@[i]).name@ == self.slots@[i].name@
                &&& *self.setters@[i].parameter_type == *self.slots@[i].value_type
            }
        &&& forall|i: int|
            0 <= i < self.slots@.len() ==> (#[trigger] self.finalizer@[i]).field@
                == self.slots@[i].name@
    }

    /// Whether these are the definitions for the record `record_name` with
    /// the given classified fields:
    /// the builder is named after the record with `Builder` appended;
    /// slot, setter and finalizer step number `i` carry the name of field
    /// number `i`; the slot holds, and the setter takes, a value of the
    /// field's value type (the inner type of an optional field, the declared
    /// type of a required one); the finalizer step has the field's kind.
    pub open spec fn synthesized_from(
        &self,
        record_name: Seq<char>,
        fields: Seq<ClassifiedField<'a>>,
    ) -> bool {
        &&& self.record_name@ == record_name
        &&& self.builder_name@ == record_name + "Builder"@
        &&& self.slots@.len() == fields.len()
        &&& self.setters@.len() == fields.len()
        &&& self.finalizer@.len() == fields.len()
        &&& forall|i: int|
            0 <= i < fields.len() ==> {
                &&& (#[trigger] self.slots@[i]).name@ == fields[i].name@
                &&& *self.slots@[i].value_type == fields[i].class.spec_value_type()
            }
        &&& forall|i: int|
            0 <= i < fields.len() ==> {
                &&& (#[trigger] self.setters@[i]).name@ == fields[i].name@
                &&& *self.setters@[i].parameter_type == fields[i].class.spec_value_type()
            }
        &&& forall|i: int|
            0 <= i < fields.len() ==> {
                &&& (#[trigger] self.finalizer@[i]).field@ == fields[i].name@
                &&& self.finalizer@[i].kind == fields[i].class.spec_kind()
            }
    }
}

/// Classifies every field of a record, keeping the declaration order.
pub fn classify_fields<'a>(fields: &'a Vec<Field>) -> (out: Vec<ClassifiedField<'a>>)
    ensures
        out@ == classified(fields@),
{
    let mut out: Vec<ClassifiedField<'a>> = Vec::new();
    let mut i: usize = 0;
    while i < fields.len()
        invariant
            i <= fields.len(),
            out@.len() == i,
            forall|j: int| 0 <= j < i ==> out@[j] == classified(fields@)[j],
        decreases fields.len() - i,
    {
        let field = &fields[i];
        out.push(ClassifiedField { name: &field.name, class: classify(&field.ty) });
        i += 1;
    }
    out
}

/// Synthesizes the definitions of the builder for the record `record_name`
/// from its classified fields.
pub fn synthesize<'a>(record_name: &'a String, fields: &Vec<ClassifiedField<'a>>) -> (defs:
    GeneratedDefinitions<'a>)
    ensures
        defs.synthesized_from(record_name@, fields@),
        defs.wf(),
{
    let builder_name = record_name.clone().concat("Builder");
    let mut slots: Vec<Slot<'a>> = Vec::new();
    let mut setters: Vec<Setter<'a>> = Vec::new();
    let mut finalizer: Vec<FinalizerStep<'a>> = Vec::new();
    let mut i: usize = 0;
    while i < fields.len()
        invariant
            i <= fields.len(),
            slots@.len() == i,
            setters@.len() == i,
            finalizer@.len() == i,
            forall|j: int|
                0 <= j < i ==> {
                    &&& (#[trigger] slots@[j]).name@ == fields@[j].name@
                    &&& *slots@[j].value_type == fields@[j].class.spec_value_type()
                },
            forall|j: int|
                0 <= j < i ==> {
                    &&& (#[trigger] setters@[j]).name@ == fields@[j].name@
                    &&& *setters@[j].parameter_type == fields@[j].class.spec_value_type()
                },
            forall|j: int|
                0 <= j < i ==> {
                    &&& (#[trigger] finalizer@[j]).field@ == fields@[j].name@
                    &&& finalizer@[j].kind == fields@[j].class.spec_kind()
                },
        decreases fields.len() - i,
    {
        let field = &fields[i];
        let value_type = field.class.value_type();
        slots.push(Slot { name: field.name, value_type });
        setters.push(Setter { name: field.name, parameter_type: value_type });
        finalizer.push(FinalizerStep { field: field.name, kind: field.class.kind() });
        i += 1;
    }
    GeneratedDefinitions { record_name, builder_name, slots, setters, finalizer }
}

/// Generates the definitions of the builder for a type definition.
///
/// A record with named fields gives the definitions that [`synthesize`]
/// makes of its classified fields. Every other definition is rejected.
pub fn impl_derive_builder<'a>(input: &'a DeriveInput) -> (out: Result<
    GeneratedDefinitions<'a>,
    GenerationError,
>)
    ensures
        match out {
            Ok(defs) => {
                &&& input.shape matches ItemShape::Record(fields)
                &&& defs.synthesized_from(input.name@, classified(fields@))
                &&& defs.wf()
            },
            Err(error) => !(input.shape is Record) && error == GenerationError::UnsupportedShape,
        },
{
    match &input.shape {
        ItemShape::Record(fields) => {
            let classified_fields = classify_fields(fields);
            Ok(synthesize(&input.name, &classified_fields))
        },
        _ => Err(GenerationError::UnsupportedShape),
    }
}

} // verus!
