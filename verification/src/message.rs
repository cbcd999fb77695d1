//! Messages, the highlights that name their identifiers, and how the text
//! fields of a record are decoded.

use vstd::prelude::*;
use crate::field::ParseError;
use crate::hexcodec::{decode_padded, hex_encode, lower_hex, padded_hex_value};
use crate::label::Color;
use crate::number::{is_number, is_number_text};
use crate::text::{chars_eq_ignore_case, chars_of, eq_ignore_case, strip_whitespace, without_whitespace};
use crate::util::{copy_bytes, same_bytes};

verus! {

/// A transmission speed, compared as written.
pub type Speed = String;

/// One decoded record of a log.
#[derive(Debug)]
pub struct Message {
    /// The time of the message: a number, in the text that the record wrote.
    pub timestamp: String,
    pub id: Vec<u8>,
    pub data: Vec<u8>,
    pub crc: Vec<u8>,
    pub ack: bool,
    pub speed: Speed,
}

/// What a message holds.
pub struct MessageView {
    pub timestamp: Seq<char>,
    pub id: Seq<u8>,
    pub data: Seq<u8>,
    pub crc: Seq<u8>,
    pub ack: bool,
    pub speed: Seq<char>,
}

impl View for Message {
    type V = MessageView;

    open spec fn view(&self) -> MessageView {
        MessageView {
            timestamp: self.timestamp@,
            id: self.id@,
            data: self.data@,
            crc: self.crc@,
            ack: self.ack,
            speed: self.speed@,
        }
    }
}

impl DeepView for Message {
    type V = MessageView;

    open spec fn deep_view(&self) -> MessageView {
        self.view()
    }
}

impl Clone for Message {
    fn clone(&self) -> (out: Self)
        ensures
            out@ == self@,
    {
        Message {
            timestamp: self.timestamp.clone(),
            id: copy_bytes(&self.id),
            data: copy_bytes(&self.data),
            crc: copy_bytes(&self.crc),
            ack: self.ack,
            speed: self.speed.clone(),
        }
    }
}

/// A name and a colour for one message identifier.
#[derive(Debug)]
pub struct HighlightID {
    id: Vec<u8>,
    name: String,
    color: Color,
}

/// What a highlight holds.
pub struct HighlightIDView {
    pub id: Seq<u8>,
    pub name: Seq<char>,
    pub color: Color,
}

impl View for HighlightID {
    type V = HighlightIDView;

    closed spec fn view(&self) -> HighlightIDView {
        HighlightIDView { id: self.id@, name: self.name@, color: self.color }
    }
}

impl DeepView for HighlightID {
    type V = HighlightIDView;

    open spec fn deep_view(&self) -> HighlightIDView {
        self.view()
    }
}

impl Clone for HighlightID {
    fn clone(&self) -> (out: Self)
        ensures
            out@ == self@,
    {
        HighlightID { id: copy_bytes(&self.id), name: self.name.clone(), color: self.color }
    }
}

impl HighlightID {
    /// A highlight for the identifier `id`.
    pub fn new(id: Vec<u8>, name: String, color: Color) -> (out: Self)
        ensures
            out@ == (HighlightIDView { id: id@, name: name@, color }),
    {
        Self { id, name, color }
    }

    /// The identifier that the highlight names.
    pub fn id(&self) -> (out: &Vec<u8>)
        ensures
            out@ == self@.id,
    {
        &self.id
    }

    /// The name that the highlight gives.
    pub fn name(&self) -> (out: &String)
        ensures
            out@ == self@.name,
    {
        &self.name
    }

    /// The colour in which the name is shown.
    pub fn color(&self) -> (out: &Color)
        ensures
            *out == self@.color,
    {
        &self.color
    }
}

/// Whether `i` is the place of the first highlight for the identifier `id`.
pub open spec fn is_first_highlight(ids: Seq<HighlightIDView>, id: Seq<u8>, i: int) -> bool {
    &&& 0 <= i < ids.len()
    &&& ids[i].id == id
    &&& forall|j: int| 0 <= j < i ==> (#[trigger] ids[j]).id != id
}

/// The first highlight for the identifier `id`, if there is one.
pub open spec fn first_highlight(ids: Seq<HighlightIDView>, id: Seq<u8>) -> Option<
    HighlightIDView,
> {
    if exists|i: int| is_first_highlight(ids, id, i) {
        Some(ids[choose|i: int| is_first_highlight(ids, id, i)])
    } else {
        None
    }
}

/// Where the first highlight for `id` stands in `ids`.
pub fn find_highlight(id: &Vec<u8>, ids: &Vec<HighlightID>) -> (out: Option<usize>)
    ensures
        match out {
            Some(i) => is_first_highlight(ids.deep_view(), id@, i as int),
            None => forall|j: int| 0 <= j < ids.len() ==> (#[trigger] ids.deep_view()[j]).id != id@,
        },
        out is Some <==> first_highlight(ids.deep_view(), id@) is Some,
        out matches Some(i) ==> first_highlight(ids.deep_view(), id@) == Some(ids.deep_view()[i as int]),
{
    let mut i: usize = 0;
    while i < ids.len()
        invariant
            i <= ids.len(),
            forall|j: int| 0 <= j < i ==> (#[trigger] ids.deep_view()[j]).id != id@,
        decreases ids.len() - i,
    {
        if same_bytes(id, ids[i].id()) {
            proof {
                assert(is_first_highlight(ids.deep_view(), id@, i as int));
                let k = choose|k: int| is_first_highlight(ids.deep_view(), id@, k);
                assert(k == i) by {
                    if k < i {
                        assert(ids.deep_view()[k].id != id@);
                    }
                    if i < k {
                        assert(ids.deep_view()[i as int].id == id@);
                    }
                }
            }
            return Some(i);
        }
        i += 1;
    }
    None
}

impl Message {
    /// The first highlight whose identifier is that of the message.
    pub fn match_id(&self, highlight_ids: &Vec<HighlightID>) -> (out: Option<HighlightID>)
        ensures
            out.deep_view() == first_highlight(highlight_ids.deep_view(), self@.id),
    {
        match find_highlight(&self.id, highlight_ids) {
            Some(i) => Some(highlight_ids[i].clone()),
            None => None,
        }
    }
}

/// The word shown where any identifier or any speed will do.
pub open spec fn any_word() -> Seq<char> {
    seq!['a', 'n', 'y']
}

/// How an identifier is shown: the word `any` where it is empty, else the
/// name of its first highlight, else its lower-case hex digits.
pub open spec fn shown_id(id: Seq<u8>, ids: Seq<HighlightIDView>) -> Seq<char> {
    if id.len() == 0 {
        any_word()
    } else {
        match first_highlight(ids, id) {
            Some(highlight) => highlight.name,
            None => lower_hex(id),
        }
    }
}

/// How an identifier is shown.
pub fn id_string(id: &Vec<u8>, ids: &Vec<HighlightID>) -> (out: String)
    ensures
        out@ == shown_id(id@, ids.deep_view()),
{
    if id.is_empty() {
        proof {
            reveal_strlit("any");
            assert("any"@ =~= any_word());
        }
        "any".to_string()
    } else {
        match find_highlight(id, ids) {
            Some(i) => ids[i].name().clone(),
            None => hex_encode(id.as_slice()),
        }
    }
}

/// The text without the marker `0x` or `0X`, where it starts with one.
pub open spec fn strip_hex_marker(text: Seq<char>) -> Seq<char> {
    if text.len() >= 2 && text[0] == '0' && (text[1] == 'x' || text[1] == 'X') {
        text.skip(2)
    } else {
        text
    }
}

/// The bytes that a hex field of a record stands for: whitespace and a
/// leading `0x` are dropped, an odd number of digits gets a leading zero,
/// and the digits of either case are read in pairs. `None` where a
/// character that is left is no hex digit.
pub open spec fn hex_field_value(text: Seq<char>) -> Option<Seq<u8>> {
    padded_hex_value(strip_hex_marker(strip_whitespace(text)))
}

/// Decodes one hex field of a record.
pub fn decode_hex_field(text: &str) -> (out: Result<Vec<u8>, ParseError>)
    ensures
        match out {
            Ok(bytes) => hex_field_value(text@) == Some(bytes@),
            Err(_) => hex_field_value(text@) is None,
        },
{
    let stripped = without_whitespace(&chars_of(text));
    let mut digits: Vec<char> = Vec::new();
    let start: usize = if stripped.len() >= 2 && stripped[0] == '0' && (stripped[1] == 'x'
        || stripped[1] == 'X') {
        2
    } else {
        0
    };
    let mut i: usize = start;
    while i < stripped.len()
        invariant
            start <= i <= stripped.len(),
            digits@ == stripped@.subrange(start as int, i as int),
        decreases stripped.len() - i,
    {
        digits.push(stripped[i]);
        assert(stripped@.subrange(start as int, i + 1) =~= stripped@.subrange(
            start as int,
            i as int,
        ).push(stripped@[i as int]));
        i += 1;
    }
    assert(digits@ =~= strip_hex_marker(stripped@));
    match decode_padded(&digits) {
        Some(bytes) => Ok(bytes),
        None => Err(ParseError {  }),
    }
}

/// What a timestamp field stands for: its own text, where that is a
/// number.
pub open spec fn timestamp_value(text: Seq<char>) -> Option<Seq<char>> {
    if is_number(text) {
        Some(text)
    } else {
        None
    }
}

/// Decodes the timestamp field of a record.
pub fn decode_timestamp(text: &str) -> (out: Result<String, ParseError>)
    ensures
        match out {
            Ok(timestamp) => timestamp_value(text@) == Some(timestamp@),
            Err(_) => timestamp_value(text@) is None,
        },
{
    if is_number_text(&chars_of(text)) {
        Ok(text.to_string())
    } else {
        Err(ParseError {  })
    }
}

/// The word for an acknowledged message.
pub open spec fn true_word() -> Seq<char> {
    seq!['t', 'r', 'u', 'e']
}

/// The word for a message that was not acknowledged.
pub open spec fn false_word() -> Seq<char> {
    seq!['f', 'a', 'l', 's', 'e']
}

/// What an acknowledgement field stands for: the words `true` and `false`
/// in any mix of cases, and nothing else.
pub open spec fn ack_value(text: Seq<char>) -> Option<bool> {
    if eq_ignore_case(text, true_word()) {
        Some(true)
    } else if eq_ignore_case(text, false_word()) {
        Some(false)
    } else {
        None
    }
}

/// Decodes the acknowledgement field of a record.
pub fn decode_ack(text: &str) -> (out: Result<bool, ParseError>)
    ensures
        match out {
            Ok(ack) => ack_value(text@) == Some(ack),
            Err(_) => ack_value(text@) is None,
        },
{
    let chars = chars_of(text);
    let yes: Vec<char> = vec!['t', 'r', 'u', 'e'];
    let no: Vec<char> = vec!['f', 'a', 'l', 's', 'e'];
    assert(yes@ =~= true_word());
    assert(no@ =~= false_word());
    if chars_eq_ignore_case(&chars, &yes) {
        Ok(true)
    } else if chars_eq_ignore_case(&chars, &no) {
        Ok(false)
    } else {
        Err(ParseError {  })
    }
}

} // verus!
