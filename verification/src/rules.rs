//! The constraint matrix of a field definition: which type ids exist, which input
//! types each admits, which need options, and what a refused value is told.
//!
//! Everything here works on plain values. What depends on character classes
//! (whether a name is alphanumeric, whether a text is blank) is taken as an argument
//! by the `check_*` functions; the `*_verdict` spec functions say the same of raw text.

use vstd::prelude::*;
use vstd::string::StringExecFns;
use vstd::string::StrSliceExecFns;
use crate::error::{FieldErrorKind, FieldErrorKindView};
use crate::field::FieldView;
use crate::number::{decimal, parse_u8_spec, to_decimal};
use crate::text::{
    all_alphanumeric, is_blank, lemma_blank_iff_trimmed_empty, lemma_trimmed_twice, trimmed,
};

verus! {

/// Whether `type_id` names one of the eight field types: Text 0, Memo 1, Single
/// Selection 2, Multiple Selection 3, Date 4, Time 5, Checkbox 6, Rich 10.
pub open spec fn valid_type_id(type_id: u8) -> bool {
    type_id <= 6 || type_id == 10
}

/// The largest input type that the field type admits; the legal ones are 0 up to it.
pub open spec fn max_input_type(type_id: u8) -> u8 {
    if type_id == 0 {
        6
    } else if type_id == 2 {
        2
    } else if type_id == 4 {
        1
    } else {
        0
    }
}

/// Whether a field of type `type_id` may have the input type `input_type`.
pub open spec fn input_type_allowed(type_id: u8, input_type: u8) -> bool {
    valid_type_id(type_id) && input_type <= max_input_type(type_id)
}

/// Whether a field of type `type_id` must come with options: the two selection types.
pub open spec fn options_required(type_id: u8) -> bool {
    type_id == 2 || type_id == 3
}

/// The name of a field type that has no input types to choose from.
pub open spec fn plain_type_name(type_id: u8) -> Seq<char> {
    if type_id == 1 {
        "Memo"@
    } else if type_id == 3 {
        "Multiple Selection"@
    } else if type_id == 5 {
        "Time"@
    } else if type_id == 6 {
        "Checkbox"@
    } else {
        "Rich"@
    }
}

/// What a refused input type is told, by field type.
pub open spec fn input_type_message(type_id: u8) -> Seq<char> {
    if type_id == 0 {
        "Text fields (type_id: 0) accept these input types:\n0: Anything\n1: Integer\n2: Money\n3: Alphanumeric\n4: Decimal\n5: URL\n6: Password"@
    } else if type_id == 2 {
        "Single Selection fields (type_id: 2) accept these input types:\n0: Standard dropdown\n1: Tree dropdown\n2: Radio selection"@
    } else if type_id == 4 {
        "Date fields (type_id: 4) accept these input types:\n0: Date only\n1: Date and time"@
    } else if valid_type_id(type_id) {
        "Field type "@ + plain_type_name(type_id)
            + " only accepts input_type_id 0. This field type has no input options."@
    } else {
        "Invalid type_id"@
    }
}

/// The verdict on a type id that was read as a number.
pub open spec fn type_id_value_verdict(value: u8) -> Result<u8, FieldErrorKindView> {
    if valid_type_id(value) {
        Ok(value)
    } else {
        Err(FieldErrorKindView::InvalidTypeId(decimal(value as nat)))
    }
}

/// The verdict on an input type that was read as a number, for a field of type
/// `type_id`.
pub open spec fn input_type_value_verdict(type_id: u8, value: u8) -> Result<
    u8,
    FieldErrorKindView,
> {
    if input_type_allowed(type_id, value) {
        Ok(value)
    } else {
        Err(FieldErrorKindView::InvalidInputType(input_type_message(type_id)))
    }
}

/// The verdict on a name of which `trimmed` is left after trimming.
pub open spec fn trimmed_name_verdict(trimmed: Seq<char>, alphanumeric: bool) -> Result<
    Seq<char>,
    FieldErrorKindView,
> {
    if trimmed.len() == 0 {
        Err(FieldErrorKindView::RequiredFieldEmpty("name"@))
    } else if !alphanumeric {
        Err(FieldErrorKindView::InvalidFieldName(trimmed))
    } else {
        Ok(trimmed)
    }
}

/// The verdict on a label of which `trimmed` is left after trimming. A label of
/// exactly one space is refused for what it is; any other that leaves nothing is
/// refused as empty.
pub open spec fn trimmed_label_verdict(label: Seq<char>, trimmed: Seq<char>) -> Result<
    Seq<char>,
    FieldErrorKindView,
> {
    if label == seq![' '] {
        Err(FieldErrorKindView::InvalidLabel("Label cannot be a single space"@))
    } else if trimmed.len() == 0 {
        Err(FieldErrorKindView::RequiredFieldEmpty("label"@))
    } else {
        Ok(trimmed)
    }
}

/// The verdict on options that are, or are not, blank.
pub open spec fn blank_options_verdict(options: Seq<char>, blank: bool, type_id: u8) -> Result<
    Seq<char>,
    FieldErrorKindView,
> {
    if options_required(type_id) && blank {
        Err(FieldErrorKindView::MissingOptions("Selection fields require at least one option"@))
    } else {
        Ok(options)
    }
}

/// The verdict on a field that is required: what is left of it after trimming, unless
/// that is nothing.
pub open spec fn required_verdict(value: Seq<char>, field_name: Seq<char>) -> Result<
    Seq<char>,
    FieldErrorKindView,
> {
    if trimmed(value).len() == 0 {
        Err(FieldErrorKindView::RequiredFieldEmpty(field_name))
    } else {
        Ok(trimmed(value))
    }
}

/// The verdict on the text of a type id cell: it must read as a `u8`, and that must
/// name a field type.
pub open spec fn type_id_verdict(text: Seq<char>) -> Result<u8, FieldErrorKindView> {
    match parse_u8_spec(text) {
        None => Err(FieldErrorKindView::ParseError("type_id"@)),
        Some(value) => type_id_value_verdict(value),
    }
}

/// The verdict on the text of an input type cell for a field of type `type_id`.
pub open spec fn input_type_verdict(text: Seq<char>, type_id: u8) -> Result<
    u8,
    FieldErrorKindView,
> {
    match parse_u8_spec(text) {
        None => Err(FieldErrorKindView::ParseError("input_type_id"@)),
        Some(value) => input_type_value_verdict(type_id, value),
    }
}

/// The verdict on the text of a name cell.
pub open spec fn name_verdict(name: Seq<char>) -> Result<Seq<char>, FieldErrorKindView> {
    trimmed_name_verdict(trimmed(name), all_alphanumeric(trimmed(name)))
}

/// The verdict on the text of a label cell.
pub open spec fn label_verdict(label: Seq<char>) -> Result<Seq<char>, FieldErrorKindView> {
    trimmed_label_verdict(label, trimmed(label))
}

/// The verdict on the text of an options cell for a field of type `type_id`.
pub open spec fn options_verdict(options: Seq<char>, type_id: u8) -> Result<
    Seq<char>,
    FieldErrorKindView,
> {
    blank_options_verdict(options, is_blank(options), type_id)
}

/// The verdict on the five cells of a row. The type id is judged first, as the input
/// type and the options are judged by it; then name, label, input type and options,
/// and the first refusal is the verdict.
pub open spec fn row_verdict(
    name: Seq<char>,
    label: Seq<char>,
    type_id: Seq<char>,
    input_type_id: Seq<char>,
    options: Seq<char>,
) -> Result<FieldView, FieldErrorKindView> {
    match type_id_verdict(type_id) {
        Err(e) => Err(e),
        Ok(field_type) => match name_verdict(name) {
            Err(e) => Err(e),
            Ok(field_name) => match label_verdict(label) {
                Err(e) => Err(e),
                Ok(field_label) => match input_type_verdict(input_type_id, field_type) {
                    Err(e) => Err(e),
                    Ok(input_type) => match options_verdict(options, field_type) {
                        Err(e) => Err(e),
                        Ok(field_options) => Ok(
                            FieldView {
                                name: field_name,
                                label: field_label,
                                type_id: field_type,
                                input_type_id: input_type,
                                options: field_options,
                            },
                        ),
                    },
                },
            },
        },
    }
}

/// A row that is accepted gives a field that meets the rules.
pub proof fn lemma_accepted_row_is_valid(
    name: Seq<char>,
    label: Seq<char>,
    type_id: Seq<char>,
    input_type_id: Seq<char>,
    options: Seq<char>,
)
    ensures
        row_verdict(name, label, type_id, input_type_id, options) matches Ok(field)
            ==> field.valid(),
{
    lemma_trimmed_twice(label);
    lemma_blank_iff_trimmed_empty(trimmed(label));
}

/// A type id that reads as a number but names no field type is refused as an invalid
/// type id, whatever the other cells hold.
pub proof fn lemma_unknown_type_id_refused(
    name: Seq<char>,
    label: Seq<char>,
    type_id: Seq<char>,
    input_type_id: Seq<char>,
    options: Seq<char>,
)
    requires
        parse_u8_spec(type_id) matches Some(value) && !valid_type_id(value),
    ensures
        row_verdict(name, label, type_id, input_type_id, options) == Err::<
            FieldView,
            FieldErrorKindView,
        >(FieldErrorKindView::InvalidTypeId(decimal(parse_u8_spec(type_id)->Some_0 as nat))),
{
}

/// For a selection type, options without any character are refused as missing, and
/// options with a visible character are accepted as they are.
pub proof fn lemma_selection_options(type_id: u8, options: Seq<char>)
    requires
        type_id == 2 || type_id == 3,
    ensures
        options.len() == 0 ==> options_verdict(options, type_id) == Err::<
            Seq<char>,
            FieldErrorKindView,
        >(FieldErrorKindView::MissingOptions("Selection fields require at least one option"@)),
        !is_blank(options) ==> options_verdict(options, type_id) == Ok::<
            Seq<char>,
            FieldErrorKindView,
        >(options),
{
}

/// For a type without input types to choose from, an input type cell that reads as
/// 0 is accepted and one that reads as any other number is refused as an invalid
/// input type.
pub proof fn lemma_plain_type_input(type_id: u8, input_type_id: Seq<char>)
    requires
        type_id == 1 || type_id == 3 || type_id == 5 || type_id == 6 || type_id == 10,
        parse_u8_spec(input_type_id) is Some,
    ensures
        parse_u8_spec(input_type_id) == Some(0u8) ==> input_type_verdict(input_type_id, type_id)
            == Ok::<u8, FieldErrorKindView>(0),
        parse_u8_spec(input_type_id) != Some(0u8) ==> input_type_verdict(input_type_id, type_id)
            == Err::<u8, FieldErrorKindView>(
            FieldErrorKindView::InvalidInputType(
                "Field type "@ + plain_type_name(type_id)
                    + " only accepts input_type_id 0. This field type has no input options."@,
            ),
        ),
{
}

/// A label of one space is refused as an invalid label, not as an empty one.
pub proof fn lemma_single_space_label()
    ensures
        label_verdict(seq![' ']) == Err::<Seq<char>, FieldErrorKindView>(
            FieldErrorKindView::InvalidLabel("Label cannot be a single space"@),
        ),
{
}

/// A verdict on a text as plain values.
pub open spec fn text_verdict_view(verdict: Result<String, FieldErrorKind>) -> Result<
    Seq<char>,
    FieldErrorKindView,
> {
    match verdict {
        Ok(text) => Ok(text@),
        Err(e) => Err(e@),
    }
}

/// A verdict on a number as plain values.
pub open spec fn number_verdict_view(verdict: Result<u8, FieldErrorKind>) -> Result<
    u8,
    FieldErrorKindView,
> {
    match verdict {
        Ok(value) => Ok(value),
        Err(e) => Err(e@),
    }
}

/// Decides whether `type_id` names one of the eight field types.
pub fn is_valid_type_id(type_id: u8) -> (ok: bool)
    ensures
        ok == valid_type_id(type_id),
{
    type_id <= 6 || type_id == 10
}

/// Decides whether a field of type `type_id` may have the input type `input_type`.
pub fn is_input_type_allowed(type_id: u8, input_type: u8) -> (ok: bool)
    ensures
        ok == input_type_allowed(type_id, input_type),
{
    if type_id == 0 {
        input_type <= 6
    } else if type_id == 2 {
        input_type <= 2
    } else if type_id == 4 {
        input_type <= 1
    } else if is_valid_type_id(type_id) {
        input_type == 0
    } else {
        false
    }
}

/// Decides whether a field of type `type_id` must come with options.
pub fn requires_options(type_id: u8) -> (required: bool)
    ensures
        required == options_required(type_id),
{
    type_id == 2 || type_id == 3
}

/// Accepts a type id that names a field type; refuses any other with its number.
pub fn check_type_id(value: u8) -> (verdict: Result<u8, FieldErrorKind>)
    ensures
        number_verdict_view(verdict) == type_id_value_verdict(value),
{
    if is_valid_type_id(value) {
        Ok(value)
    } else {
        Err(FieldErrorKind::InvalidTypeId(to_decimal(value as u128)))
    }
}

/// The text that a refused input type is told.
fn input_type_help(type_id: u8) -> (text: String)
    ensures
        text@ == input_type_message(type_id),
{
    if type_id == 0 {
        String::from_str(
            "Text fields (type_id: 0) accept these input types:\n0: Anything\n1: Integer\n2: Money\n3: Alphanumeric\n4: Decimal\n5: URL\n6: Password",
        )
    } else if type_id == 2 {
        String::from_str(
            "Single Selection fields (type_id: 2) accept these input types:\n0: Standard dropdown\n1: Tree dropdown\n2: Radio selection",
        )
    } else if type_id == 4 {
        String::from_str(
            "Date fields (type_id: 4) accept these input types:\n0: Date only\n1: Date and time",
        )
    } else if is_valid_type_id(type_id) {
        let name = if type_id == 1 {
            "Memo"
        } else if type_id == 3 {
            "Multiple Selection"
        } else if type_id == 5 {
            "Time"
        } else if type_id == 6 {
            "Checkbox"
        } else {
            "Rich"
        };
        let mut text = String::from_str("Field type ");
        text.append(name);
        text.append(" only accepts input_type_id 0. This field type has no input options.");
        text
    } else {
        String::from_str("Invalid type_id")
    }
}

/// Accepts an input type that the field type admits; refuses any other with the list
/// of those it admits.
pub fn check_input_type(type_id: u8, input_type: u8) -> (verdict: Result<u8, FieldErrorKind>)
    ensures
        number_verdict_view(verdict) == input_type_value_verdict(type_id, input_type),
{
    if is_input_type_allowed(type_id, input_type) {
        Ok(input_type)
    } else {
        Err(FieldErrorKind::InvalidInputType(input_type_help(type_id)))
    }
}

/// Accepts a trimmed name that is not empty and is alphanumeric, as `alphanumeric`
/// says it is.
pub fn check_name(trimmed: &str, alphanumeric: bool) -> (verdict: Result<String, FieldErrorKind>)
    ensures
        text_verdict_view(verdict) == trimmed_name_verdict(trimmed@, alphanumeric),
{
    if trimmed.unicode_len() == 0 {
        Err(FieldErrorKind::RequiredFieldEmpty(String::from_str("name")))
    } else if !alphanumeric {
        Err(FieldErrorKind::InvalidFieldName(String::from_str(trimmed)))
    } else {
        Ok(String::from_str(trimmed))
    }
}

/// Accepts what is left of a label after trimming, unless the label is one space or
/// nothing is left.
pub fn check_label(label: &str, trimmed: &str) -> (verdict: Result<String, FieldErrorKind>)
    ensures
        text_verdict_view(verdict) == trimmed_label_verdict(label@, trimmed@),
{
    if label.unicode_len() == 1 && label.get_char(0) == ' ' {
        assert(label@ =~= seq![' ']);
        Err(FieldErrorKind::InvalidLabel(String::from_str("Label cannot be a single space")))
    } else if trimmed.unicode_len() == 0 {
        Err(FieldErrorKind::RequiredFieldEmpty(String::from_str("label")))
    } else {
        Ok(String::from_str(trimmed))
    }
}

/// Accepts options as they are, unless the field type needs some and they are blank,
/// as `blank` says they are.
pub fn check_options(options: &str, blank: bool, type_id: u8) -> (verdict: Result<
    String,
    FieldErrorKind,
>)
    ensures
        text_verdict_view(verdict) == blank_options_verdict(options@, blank, type_id),
{
    if requires_options(type_id) && blank {
        Err(
            FieldErrorKind::MissingOptions(
                String::from_str("Selection fields require at least one option"),
            ),
        )
    } else {
        Ok(String::from_str(options))
    }
}

} // verus!
