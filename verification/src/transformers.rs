//! The shape in which a field is sent to the field-creation endpoint.

use vstd::prelude::*;
use crate::field::{Field, FieldView};
use crate::number::{decimal, to_decimal};

verus! {

/// One field as the endpoint wants it: the ids as decimal text, the options under
/// `new_values`, and every switch on.
#[derive(Debug)]
pub struct FieldJson {
    usage: u8,
    name: String,
    label: String,
    type_id: String,
    inputtype: String,
    new_values: String,
    searchable: bool,
    user_searchable: bool,
    calendar_searchable: bool,
    copytochild: bool,
    copytochildonupdate: bool,
}

/// The payload of one field as plain values.
pub struct FieldJsonView {
    pub usage: u8,
    pub name: Seq<char>,
    pub label: Seq<char>,
    pub type_id: Seq<char>,
    pub inputtype: Seq<char>,
    pub new_values: Seq<char>,
    pub searchable: bool,
    pub user_searchable: bool,
    pub calendar_searchable: bool,
    pub copytochild: bool,
    pub copytochildonupdate: bool,
}

impl View for FieldJson {
    type V = FieldJsonView;

    closed spec fn view(&self) -> FieldJsonView {
        FieldJsonView {
            usage: self.usage,
            name: self.name@,
            label: self.label@,
            type_id: self.type_id@,
            inputtype: self.inputtype@,
            new_values: self.new_values@,
            searchable: self.searchable,
            user_searchable: self.user_searchable,
            calendar_searchable: self.calendar_searchable,
            copytochild: self.copytochild,
            copytochildonupdate: self.copytochildonupdate,
        }
    }
}

/// The payload for a field.
pub open spec fn payload_of(field: FieldView) -> FieldJsonView {
    FieldJsonView {
        usage: 1,
        name: field.name,
        label: field.label,
        type_id: decimal(field.type_id as nat),
        inputtype: decimal(field.input_type_id as nat),
        new_values: field.options,
        searchable: true,
        user_searchable: true,
        calendar_searchable: true,
        copytochild: true,
        copytochildonupdate: true,
    }
}

/// The payloads for fields, one for each and in their order.
pub open spec fn payloads_of(fields: Seq<Field>) -> Seq<FieldJsonView> {
    fields.map_values(|field: Field| payload_of(field@))
}

/// Payloads as plain values.
pub open spec fn payloads_view(payloads: Seq<FieldJson>) -> Seq<FieldJsonView> {
    payloads.map_values(|payload: FieldJson| payload@)
}

impl FieldJson {
    /// The payload for a field.
    pub fn from_field(field: &Field) -> (payload: FieldJson)
        ensures
            payload@ == payload_of(field@),
    {
        FieldJson {
            usage: 1,
            name: field.name().clone(),
            label: field.label().clone(),
            type_id: to_decimal(field.type_id() as u128),
            inputtype: to_decimal(field.input_type_id() as u128),
            new_values: field.options().clone(),
            searchable: true,
            user_searchable: true,
            calendar_searchable: true,
            copytochild: true,
            copytochildonupdate: true,
        }
    }

    pub fn usage(&self) -> (usage: u8)
        ensures
            usage == self@.usage,
    {
        self.usage
    }

    pub fn name(&self) -> (name: &String)
        ensures
            name@ == self@.name,
    {
        &self.name
    }

    pub fn label(&self) -> (label: &String)
        ensures
            label@ == self@.label,
    {
        &self.label
    }

    /// The field type in decimal.
    pub fn type_id(&self) -> (type_id: &String)
        ensures
            type_id@ == self@.type_id,
    {
        &self.type_id
    }

    /// The input type in decimal.
    pub fn inputtype(&self) -> (inputtype: &String)
        ensures
            inputtype@ == self@.inputtype,
    {
        &self.inputtype
    }

    /// The options.
    pub fn new_values(&self) -> (new_values: &String)
        ensures
            new_values@ == self@.new_values,
    {
        &self.new_values
    }

    pub fn searchable(&self) -> (on: bool)
        ensures
            on == self@.searchable,
    {
        self.searchable
    }

    pub fn user_searchable(&self) -> (on: bool)
        ensures
            on == self@.user_searchable,
    {
        self.user_searchable
    }

    pub fn calendar_searchable(&self) -> (on: bool)
        ensures
            on == self@.calendar_searchable,
    {
        self.calendar_searchable
    }

    pub fn copytochild(&self) -> (on: bool)
        ensures
            on == self@.copytochild,
    {
        self.copytochild
    }

    pub fn copytochildonupdate(&self) -> (on: bool)
        ensures
            on == self@.copytochildonupdate,
    {
        self.copytochildonupdate
    }
}

/// Turns fields into payloads.
pub struct JsonTransformer;

impl JsonTransformer {
    /// The payloads for the fields, one for each and in their order.
    pub fn transform_fields(fields: &[Field]) -> (payloads: Vec<FieldJson>)
        ensures
            payloads_view(payloads@) == payloads_of(fields@),
    {
        let mut payloads: Vec<FieldJson> = Vec::new();
        let mut i: usize = 0;
        while i < fields.len()
            invariant
                i <= fields.len(),
                payloads_view(payloads@) == payloads_of(fields@.take(i as int)),
            decreases fields.len() - i,
        {
            let ghost before = payloads_view(payloads@);
            let payload = FieldJson::from_field(&fields[i]);
            payloads.push(payload);
            proof {
                assert(payloads_of(fields@.take(i + 1)) =~= payloads_of(fields@.take(i as int)).push(
                    payload_of(fields@[i as int]@),
                ));
            }
            i = i + 1;
        }
        proof {
        }
        payloads
    }
}

} // verus!
