//! The generated definitions written out as Rust source text.

use vstd::prelude::*;
use vstd::string::StringExecFns;
use crate::classify::FieldKind;
use crate::error::BuildError;
use crate::synth::{FinalizerStep, GeneratedDefinitions, Setter, Slot};

verus! {

/// The first `n` of `parts`, one after the other.
pub open spec fn concat_first(parts: Seq<Seq<char>>, n: nat) -> Seq<char>
    decreases n,
{
    if n == 0 {
        Seq::empty()
    } else {
        concat_first(parts, (n - 1) as nat) + parts[n - 1]
    }
}

/// All of `parts`, one after the other.
pub open spec fn concat(parts: Seq<Seq<char>>) -> Seq<char> {
    concat_first(parts, parts.len())
}

impl<'a> Slot<'a> {
    /// The declaration of the slot as a field of the builder type: an
    /// optional value of the slot's value type.
    pub open spec fn declaration(&self) -> Seq<char> {
        self.name@ + ": std::option::Option<"@ + self.value_type.spelling@ + ">, "@
    }

    /// The initializer of the slot in a fresh builder: the empty state.
    pub open spec fn initializer(&self) -> Seq<char> {
        self.name@ + ": std::option::Option::None, "@
    }

    fn render_declaration(&self) -> (text: String)
        ensures
            text@ == self.declaration(),
    {
        let mut text = self.name.clone();
        text.append(": std::option::Option<");
        text.append(self.value_type.spelling.as_str());
        text.append(">, ");
        text
    }

    fn render_initializer(&self) -> (text: String)
        ensures
            text@ == self.initializer(),
    {
        let mut text = self.name.clone();
        text.append(": std::option::Option::None, ");
        text
    }
}

impl<'a> Setter<'a> {
    /// The setter method: it takes a value of the parameter type, stores it
    /// into the slot of its name as present, and returns the builder.
    pub open spec fn method(&self) -> Seq<char> {
        "pub fn "@ + self.name@ + "(&mut self, "@ + self.name@ + ": "@
            + self.parameter_type.spelling@ + ") -> &mut Self { self."@ + self.name@
            + " = std::option::Option::Some("@ + self.name@ + "); self } "@
    }

    fn render_method(&self) -> (text: String)
        ensures
            text@ == self.method(),
    {
        let mut text = String::from_str("pub fn ");
        text.append(self.name.as_str());
        text.append("(&mut self, ");
        text.append(self.name.as_str());
        text.append(": ");
        text.append(self.parameter_type.spelling.as_str());
        text.append(") -> &mut Self { self.");
        text.append(self.name.as_str());
        text.append(" = std::option::Option::Some(");
        text.append(self.name.as_str());
        text.append("); self } ");
        text
    }
}

impl<'a> FinalizerStep<'a> {
    /// The field of the record expression in the finalizer. A required field
    /// takes a clone of the slot's value, and makes the finalizer return the
    /// missing-field message as its error if the slot is empty. An optional
    /// field takes a clone of the slot as it is.
    pub open spec fn assignment(&self) -> Seq<char> {
        match self.kind {
            FieldKind::Required => self.field@ + ": self."@ + self.field@ + ".as_ref().ok_or(\""@
                + BuildError::MissingField.spec_message() + "\".to_string())?.clone(), "@,
            FieldKind::Optional => self.field@ + ": self."@ + self.field@ + ".clone(), "@,
        }
    }

    fn render_assignment(&self) -> (text: String)
        ensures
            text@ == self.assignment(),
    {
        let mut text = self.field.clone();
        text.append(": self.");
        text.append(self.field.as_str());
        match self.kind {
            FieldKind::Required => {
                text.append(".as_ref().ok_or(\"");
                text.append(BuildError::MissingField.message().as_str());
                text.append("\".to_string())?.clone(), ");
            },
            FieldKind::Optional => {
                text.append(".clone(), ");
            },
        }
        text
    }
}

impl<'a> GeneratedDefinitions<'a> {
    /// The declarations of all slots, in order.
    pub open spec fn declarations(&self) -> Seq<Seq<char>> {
        Seq::new(self.slots@.len(), |i: int| self.slots@[i].declaration())
    }

    /// The initializers of all slots, in order.
    pub open spec fn initializers(&self) -> Seq<Seq<char>> {
        Seq::new(self.slots@.len(), |i: int| self.slots@[i].initializer())
    }

    /// All setter methods, in order.
    pub open spec fn methods(&self) -> Seq<Seq<char>> {
        Seq::new(self.setters@.len(), |i: int| self.setters@[i].method())
    }

    /// The fields of the record expression in the finalizer, in order.
    pub open spec fn assignments(&self) -> Seq<Seq<char>> {
        Seq::new(self.finalizer@.len(), |i: int| self.finalizer@[i].assignment())
    }

    /// The generated items as source text: the builder type with its slots;
    /// its setters and its finalizer `build`; and the factory `builder` on
    /// the record type.
    pub open spec fn spec_render(&self) -> Seq<char> {
        "pub struct "@ + self.builder_name@ + " { "@ + concat(self.declarations()) + "} impl "@
            + self.builder_name@ + " { "@ + concat(self.methods())
            + "pub fn build(&mut self) -> std::result::Result<"@ + self.record_name@
            + ", std::boxed::Box<dyn std::error::Error>> { std::result::Result::Ok("@
            + self.record_name@ + " { "@ + concat(self.assignments()) + "}) } } impl "@
            + self.record_name@ + " { pub fn builder() -> "@ + self.builder_name@ + " { "@
            + self.builder_name@ + " { "@ + concat(self.initializers()) + "} } }"@
    }

    fn render_declarations(&self) -> (text: String)
        ensures
            text@ == concat(self.declarations()),
    {
        let mut text = String::new();
        let mut i: usize = 0;
        while i < self.slots.len()
            invariant
                i <= self.slots@.len(),
                text@ == concat_first(self.declarations(), i as nat),
            decreases self.slots@.len() - i,
        {
            let piece = self.slots[i].render_declaration();
            text.append(piece.as_str());
            i += 1;
        }
        text
    }

    fn render_initializers(&self) -> (text: String)
        ensures
            text@ == concat(self.initializers()),
    {
        let mut text = String::new();
        let mut i: usize = 0;
        while i < self.slots.len()
            invariant
                i <= self.slots@.len(),
                text@ == concat_first(self.initializers(), i as nat),
            decreases self.slots@.len() - i,
        {
            let piece = self.slots[i].render_initializer();
            text.append(piece.as_str());
            i += 1;
        }
        text
    }

    fn render_methods(&self) -> (text: String)
        ensures
            text@ == concat(self.methods()),
    {
        let mut text = String::new();
        let mut i: usize = 0;
        while i < self.setters.len()
            invariant
                i <= self.setters@.len(),
                text@ == concat_first(self.methods(), i as nat),
            decreases self.setters@.len() - i,
        {
            let piece = self.setters[i].render_method();
            text.append(piece.as_str());
            i += 1;
        }
        text
    }

    fn render_assignments(&self) -> (text: String)
        ensures
            text@ == concat(self.assignments()),
    {
        let mut text = String::new();
        let mut i: usize = 0;
        while i < self.finalizer.len()
            invariant
                i <= self.finalizer@.len(),
                text@ == concat_first(self.assignments(), i as nat),
            decreases self.finalizer@.len() - i,
        {
            let piece = self.finalizer[i].render_assignment();
            text.append(piece.as_str());
            i += 1;
        }
        text
    }

    /// Writes the generated items out as Rust source text.
    pub fn render(&self) -> (text: String)
        ensures
            text@ == self.spec_render(),
    {
        let mut text = String::from_str("pub struct ");
        text.append(self.builder_name.as_str());
        text.append(" { ");
        text.append(self.render_declarations().as_str());
        text.append("} impl ");
        text.append(self.builder_name.as_str());
        text.append(" { ");
        text.append(self.render_methods().as_str());
        text.append("pub fn build(&mut self) -> std::result::Result<");
        text.append(self.record_name.as_str());
        text.append(", std::boxed::Box<dyn std::error::Error>> { std::result::Result::Ok(");
        text.append(self.record_name.as_str());
        text.append(" { ");
        text.append(self.render_assignments().as_str());
        text.append("}) } } impl ");
        text.append(self.record_name.as_str());
        text.append(" { pub fn builder() -> ");
        text.append(self.builder_name.as_str());
        text.append(" { ");
        text.append(self.builder_name.as_str());
        text.append(" { ");
        text.append(self.render_initializers().as_str());
        text.append("} } }");
        text
    }
}

} // verus!
