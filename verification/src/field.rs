//! A validated field definition.

use vstd::prelude::*;
use vstd::string::StrSliceExecFns;
use crate::rules::{input_type_allowed, is_input_type_allowed, options_required, requires_options};
use crate::text::{
    all_alphanumeric, is_all_alphanumeric, is_blank, lemma_blank_iff_trimmed_empty, trim,
};

verus! {

/// A field definition that passed every rule. The fields are private and the only
/// way to a value is [`Field::new`], whose caller proves the rules, so no value of
/// this type breaks them.
#[derive(Debug)]
pub struct Field {
    name: String,
    label: String,
    type_id: u8,
    input_type_id: u8,
    options: String,
}

/// A field definition as plain values.
pub struct FieldView {
    pub name: Seq<char>,
    pub label: Seq<char>,
    pub type_id: u8,
    pub input_type_id: u8,
    pub options: Seq<char>,
}

impl FieldView {
    /// The rules that a field definition meets: a name that is alphanumeric and not
    /// empty, a label with a visible character in it, an input type that the type
    /// admits, and options that are not blank where the type needs them.
    pub open spec fn valid(self) -> bool {
        &&& self.name.len() > 0
        &&& all_alphanumeric(self.name)
        &&& !is_blank(self.label)
        &&& input_type_allowed(self.type_id, self.input_type_id)
        &&& options_required(self.type_id) ==> !is_blank(self.options)
    }
}

impl View for Field {
    type V = FieldView;

    closed spec fn view(&self) -> FieldView {
        FieldView {
            name: self.name@,
            label: self.label@,
            type_id: self.type_id,
            input_type_id: self.input_type_id,
            options: self.options@,
        }
    }
}

impl Field {
    #[verifier::type_invariant]
    spec fn holds_rules(self) -> bool {
        self@.valid()
    }

    /// Makes a field from values that meet the rules.
    pub fn new(
        name: String,
        label: String,
        type_id: u8,
        input_type_id: u8,
        options: String,
    ) -> (field: Field)
        requires
            (FieldView {
                name: name@,
                label: label@,
                type_id,
                input_type_id,
                options: options@,
            }).valid(),
        ensures
            field@ == (FieldView {
                name: name@,
                label: label@,
                type_id,
                input_type_id,
                options: options@,
            }),
    {
        Field { name, label, type_id, input_type_id, options }
    }

    /// Makes a field from the values if they meet the rules, and only then.
    pub fn try_new(
        name: String,
        label: String,
        type_id: u8,
        input_type_id: u8,
        options: String,
    ) -> (field: Option<Field>)
        ensures
            ({
                let values = FieldView {
                    name: name@,
                    label: label@,
                    type_id,
                    input_type_id,
                    options: options@,
                };
                match field {
                    Some(made) => values.valid() && made@ == values,
                    None => !values.valid(),
                }
            }),
    {
        proof {
            lemma_blank_iff_trimmed_empty(label@);
            lemma_blank_iff_trimmed_empty(options@);
        }
        let named = name.as_str().unicode_len() > 0 && is_all_alphanumeric(name.as_str());
        let labelled = trim(label.as_str()).unicode_len() > 0;
        let typed = is_input_type_allowed(type_id, input_type_id);
        let furnished = !requires_options(type_id) || trim(options.as_str()).unicode_len() > 0;
        if named && labelled && typed && furnished {
            Some(Field::new(name, label, type_id, input_type_id, options))
        } else {
            None
        }
    }

    /// The name; it is alphanumeric and not empty.
    pub fn name(&self) -> (name: &String)
        ensures
            name@ == self@.name,
            self@.valid(),
    {
        proof {
            use_type_invariant(self);
        }
        &self.name
    }

    /// The label; it has a visible character in it.
    pub fn label(&self) -> (label: &String)
        ensures
            label@ == self@.label,
            self@.valid(),
    {
        proof {
            use_type_invariant(self);
        }
        &self.label
    }

    /// The field type.
    pub fn type_id(&self) -> (type_id: u8)
        ensures
            type_id == self@.type_id,
            self@.valid(),
    {
        proof {
            use_type_invariant(self);
        }
        self.type_id
    }

    /// The input type; the field type admits it.
    pub fn input_type_id(&self) -> (input_type_id: u8)
        ensures
            input_type_id == self@.input_type_id,
            self@.valid(),
    {
        proof {
            use_type_invariant(self);
        }
        self.input_type_id
    }

    /// The options, as they were given.
    pub fn options(&self) -> (options: &String)
        ensures
            options@ == self@.options,
            self@.valid(),
    {
        proof {
            use_type_invariant(self);
        }
        &self.options
    }
}

impl Clone for Field {
    fn clone(&self) -> (copy: Field)
        ensures
            copy@ == self@,
    {
        proof {
            use_type_invariant(self);
        }
        Field {
            name: self.name.clone(),
            label: self.label.clone(),
            type_id: self.type_id,
            input_type_id: self.input_type_id,
            options: self.options.clone(),
        }
    }
}

} // verus!
