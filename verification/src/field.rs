//! Text fields of a draft and how their contents are validated.

use vstd::prelude::*;
use crate::hexcodec::{decode_padded, padded_hex_value};
use crate::message::{any_word, id_string, shown_id, HighlightID};
use crate::text::{chars_of, strip_whitespace, without_whitespace};

verus! {

/// A field's text could not be accepted.
#[derive(Debug, Clone, Copy)]
pub struct ParseError {}

/// One editable value of a draft, with the outcome of its last validation.
pub struct Field<T> {
    pub value: T,
    pub valid: bool,
}

impl<T> Field<T> {
    /// A field that holds `value` and counts as valid.
    pub fn with_value(value: T) -> (out: Self)
        ensures
            out.value == value,
            out.valid,
    {
        Self { value, valid: true }
    }
}

impl<T: Default> Default for Field<T> {
    fn default() -> (out: Field<T>)
        ensures
            out.valid,
            T::default.ensures((), out.value),
    {
        Field { value: T::default(), valid: true }
    }
}

/// What a text field holds.
pub struct TextFieldView {
    pub text: Seq<char>,
    pub valid: bool,
}

impl View for Field<String> {
    type V = TextFieldView;

    open spec fn view(&self) -> TextFieldView {
        TextFieldView { text: self.value@, valid: self.valid }
    }
}

/// What a text field stands for as bytes: its text without whitespace, read
/// as hex digits with a leading zero added to an odd number of them. `None`
/// where a character is no hex digit, or where nothing is left and an empty
/// field is not allowed.
pub open spec fn text_bytes(text: Seq<char>, allow_empty: bool) -> Option<Seq<u8>> {
    let digits = strip_whitespace(text);
    if !allow_empty && digits.len() == 0 {
        None
    } else {
        padded_hex_value(digits)
    }
}

impl Field<String> {
    /// The field's text, refused where it is empty and `allow_empty` is not
    /// set.
    pub fn as_string(&self, allow_empty: bool) -> (out: Result<String, ParseError>)
        ensures
            out is Ok <==> allow_empty || self.value@.len() > 0,
            out matches Ok(text) ==> text@ == self.value@,
    {
        if allow_empty || !self.value.as_str().is_empty() {
            Ok(self.value.clone())
        } else {
            Err(ParseError {  })
        }
    }

    /// As `as_string`, and records in `valid` whether the text was accepted.
    pub fn validate_string(&mut self, allow_empty: bool) -> (out: Result<String, ParseError>)
        ensures
            out is Ok <==> allow_empty || old(self).value@.len() > 0,
            out matches Ok(text) ==> text@ == old(self).value@,
            final(self)@ == (TextFieldView { text: old(self).value@, valid: out is Ok }),
    {
        let result = self.as_string(allow_empty);
        self.valid = result.is_ok();
        result
    }

    /// The bytes that the field's text stands for.
    pub fn as_bytes(&self, allow_empty: bool) -> (out: Result<Vec<u8>, ParseError>)
        ensures
            match out {
                Ok(bytes) => text_bytes(self.value@, allow_empty) == Some(bytes@),
                Err(_) => text_bytes(self.value@, allow_empty) is None,
            },
    {
        let digits = without_whitespace(&chars_of(self.value.as_str()));
        if !allow_empty && digits.len() == 0 {
            return Err(ParseError {  });
        }
        match decode_padded(&digits) {
            Some(bytes) => Ok(bytes),
            None => Err(ParseError {  }),
        }
    }

    /// As `as_bytes`, and records in `valid` whether the text was accepted.
    pub fn validate_bytes(&mut self, allow_empty: bool) -> (out: Result<Vec<u8>, ParseError>)
        ensures
            match out {
                Ok(bytes) => text_bytes(old(self).value@, allow_empty) == Some(bytes@),
                Err(_) => text_bytes(old(self).value@, allow_empty) is None,
            },
            final(self)@ == (TextFieldView { text: old(self).value@, valid: out is Ok }),
    {
        let result = self.as_bytes(allow_empty);
        self.valid = result.is_ok();
        result
    }
}

/// How the speed of a draft is shown: the word `any` where the field is
/// empty, else its text.
pub fn speed_text(speed_field: &Field<String>) -> (out: String)
    ensures
        out@ == if speed_field.value@.len() == 0 {
            any_word()
        } else {
            speed_field.value@
        },
{
    match speed_field.as_string(true) {
        Err(_) => speed_field.value.clone(),
        Ok(speed) => {
            if speed.as_str().is_empty() {
                proof {
                    reveal_strlit("any");
                    assert("any"@ =~= any_word());
                }
                "any".to_string()
            } else {
                speed
            }
        },
    }
}

/// How the identifier of a draft is shown: the field's own text where it
/// does not decode, else the decoded identifier as `id_string` shows it.
pub fn id_text(id_field: &Field<String>, ids: &Vec<HighlightID>) -> (out: String)
    ensures
        out@ == match text_bytes(id_field.value@, true) {
            None => id_field.value@,
            Some(id) => shown_id(id, ids.deep_view()),
        },
{
    match id_field.as_bytes(true) {
        Err(_) => id_field.value.clone(),
        Ok(id_bytes) => id_string(&id_bytes, ids),
    }
}

} // verus!
