//! What holds of decoding and of rules, whatever the input.

use vstd::prelude::*;
use crate::field::text_bytes;
use crate::file::{csv_table, file_messages, header_columns, row_message, Progress};
use crate::loader::{invalid_text, posted, speeds_of, LoadEventView, LoaderStateView, MessageLoaderView};
use crate::filter::{LabelFilterView, after_first_match, is_first_occurrence, occurs_at, FilterTypeView, MessageFilterView, OutputSelection, StartsWithBytesView};
use crate::hexcodec::{hex_digit_value, hex_value, is_hex_digit, is_hex_text, pad_even, padded_hex_value, spaced_upper_hex, upper_hex, upper_hex_digit, upper_hex_pair};
use crate::highlight_editor::{draft_highlight, highlight_draft_of};
use crate::label_editor::{draft_binding, draft_of};
use crate::message::HighlightIDView;
use crate::message::{ack_value, hex_field_value, strip_hex_marker, MessageView};
use crate::text::{is_space, strip_whitespace};

verus! {

/// A zero in front of a text stays in front of what is left of the text
/// without its whitespace.
pub proof fn lemma_strip_after_zero(text: Seq<char>)
    ensures
        strip_whitespace(seq!['0'] + text) == seq!['0'] + strip_whitespace(text),
{
    let keep = |c: char| !is_space(c);
    Seq::filter_distributes_over_add(seq!['0'], text, keep);
    reveal_with_fuel(Seq::filter, 2);
    assert(seq!['0'].drop_last() =~= Seq::<char>::empty());
    assert(seq!['0'].filter(keep) =~= seq!['0']);
}

/// An odd number of digits decodes as the same digits with one zero in
/// front of them.
pub proof fn law_odd_digits_decode_as_padded(digits: Seq<char>)
    requires
        digits.len() % 2 == 1,
    ensures
        padded_hex_value(digits) == padded_hex_value(seq!['0'] + digits),
{
    assert(pad_even(seq!['0'] + digits) == seq!['0'] + digits);
}

/// A text field with an odd number of characters besides its whitespace
/// decodes as the same text with one zero in front of it.
pub proof fn law_odd_field_decodes_as_padded(text: Seq<char>, allow_empty: bool)
    requires
        strip_whitespace(text).len() % 2 == 1,
    ensures
        text_bytes(text, allow_empty) == text_bytes(seq!['0'] + text, allow_empty),
{
    lemma_strip_after_zero(text);
    law_odd_digits_decode_as_padded(strip_whitespace(text));
}

/// A hex field of a record that has no `0x` marker, does not begin with the
/// letter `x`, and has an odd number of characters besides its whitespace
/// decodes as the same text with one zero in front of it.
pub proof fn law_odd_record_field_decodes_as_padded(text: Seq<char>)
    requires
        strip_whitespace(text).len() % 2 == 1,
        strip_hex_marker(strip_whitespace(text)) == strip_whitespace(text),
        strip_whitespace(text)[0] != 'x',
        strip_whitespace(text)[0] != 'X',
    ensures
        hex_field_value(text) == hex_field_value(seq!['0'] + text),
{
    lemma_strip_after_zero(text);
    let digits = strip_whitespace(text);
    assert((seq!['0'] + digits)[1] == digits[0]);
    law_odd_digits_decode_as_padded(digits);
}

/// An upper-case hex digit is a hex digit, stands for the number it was made
/// from, and is no whitespace.
pub proof fn lemma_upper_hex_digit(v: int)
    requires
        0 <= v < 16,
    ensures
        is_hex_digit(upper_hex_digit(v)),
        hex_digit_value(upper_hex_digit(v)) == v,
        !is_space(upper_hex_digit(v)),
{
}

/// Spaced hex text without its whitespace is the same digits unspaced.
pub proof fn lemma_strip_spaced_hex(bytes: Seq<u8>)
    ensures
        strip_whitespace(spaced_upper_hex(bytes)) == upper_hex(bytes),
    decreases bytes.len(),
{
    let keep = |c: char| !is_space(c);
    if bytes.len() == 0 {
        reveal(Seq::filter);
        assert(upper_hex(bytes) =~= Seq::<char>::empty());
    } else {
        let last = bytes.last();
        let pair = upper_hex_pair(last);
        lemma_upper_hex_digit(last as int / 16);
        lemma_upper_hex_digit(last as int % 16);
        assert(pair.filter(keep) =~= pair) by {
            reveal_with_fuel(Seq::filter, 3);
            assert(pair.drop_last() =~= seq![pair[0]]);
            assert(seq![pair[0]].drop_last() =~= Seq::<char>::empty());
        }
        if bytes.len() == 1 {
            assert(upper_hex(bytes) =~= pair);
        } else {
            let front = spaced_upper_hex(bytes.drop_last());
            lemma_strip_spaced_hex(bytes.drop_last());
            Seq::filter_distributes_over_add(front.push(' '), pair, keep);
            assert(front.push(' ').filter(keep) == front.filter(keep)) by {
                reveal(Seq::filter);
                assert(front.push(' ').drop_last() =~= front);
            }
            assert(upper_hex(bytes.drop_last()) + pair =~= upper_hex(bytes));
        }
    }
}

/// Unspaced upper-case hex text is hex text, and stands for the bytes it
/// was made from.
pub proof fn lemma_upper_hex_value(bytes: Seq<u8>)
    ensures
        is_hex_text(upper_hex(bytes)),
        hex_value(upper_hex(bytes)) == bytes,
{
    let text = upper_hex(bytes);
    assert forall|i: int| 0 <= i < text.len() implies is_hex_digit(#[trigger] text[i]) by {
        lemma_upper_hex_digit(bytes[i / 2] as int / 16);
        lemma_upper_hex_digit(bytes[i / 2] as int % 16);
    }
    assert forall|k: int| 0 <= k < bytes.len() implies #[trigger] hex_value(text)[k] == bytes[k] by {
        lemma_upper_hex_digit(bytes[k] as int / 16);
        lemma_upper_hex_digit(bytes[k] as int % 16);
        assert(text[2 * k] == upper_hex_digit(bytes[k] as int / 16));
        assert(text[2 * k + 1] == upper_hex_digit(bytes[k] as int % 16));
    }
    assert(hex_value(text) =~= bytes);
}

/// Bytes shown as spaced upper-case hex text decode to themselves, where
/// there is a byte or an empty text is allowed.
pub proof fn law_shown_bytes_decode_to_themselves(bytes: Seq<u8>, allow_empty: bool)
    requires
        bytes.len() > 0 || allow_empty,
    ensures
        text_bytes(spaced_upper_hex(bytes), allow_empty) == Some(bytes),
{
    lemma_strip_spaced_hex(bytes);
    lemma_upper_hex_value(bytes);
}

/// The draft that shows a binding stands for that binding, where the
/// binding has a name, and its identifier, its speed and the bytes of its
/// rule are not empty where it has them.
pub proof fn law_draft_of_binding_gives_it_back(binding: LabelFilterView)
    requires
        binding.label.name.len() > 0,
        binding.filter.id matches Some(id) ==> id.len() > 0,
        binding.filter.speed matches Some(speed) ==> speed.len() > 0,
        binding.filter.filter_type matches FilterTypeView::StartsWithBytes(rule) ==> rule.bytes.len()
            > 0,
    ensures
        draft_binding(draft_of(binding)) == Some(binding),
{
    match binding.filter.id {
        Some(id) => {
            law_shown_bytes_decode_to_themselves(id, true);
        },
        None => {
            law_shown_bytes_decode_to_themselves(Seq::empty(), true);
            assert(spaced_upper_hex(Seq::<u8>::empty()) =~= Seq::<char>::empty());
        },
    }
    match binding.filter.filter_type {
        FilterTypeView::StartsWithBytes(rule) => {
            law_shown_bytes_decode_to_themselves(rule.bytes, false);
        },
        FilterTypeView::Basic => {},
    }
}

/// The draft that shows a highlight stands for that highlight, where the
/// highlight has a name and its identifier is not empty.
pub proof fn law_draft_of_highlight_gives_it_back(highlight: HighlightIDView)
    requires
        highlight.name.len() > 0,
        highlight.id.len() > 0,
    ensures
        draft_highlight(highlight_draft_of(highlight)) == Some(highlight),
{
    law_shown_bytes_decode_to_themselves(highlight.id, false);
}

/// A basic rule without an identifier and without a speed selects every
/// message, and shows no bytes of it.
pub proof fn law_unconstrained_basic_rule_selects_all(filter: MessageFilterView, message: MessageView)
    requires
        filter.filter_type is Basic,
        filter.id is None,
        filter.speed is None,
    ensures
        filter.accepts(message),
        filter.shown(message) is None,
{
}

/// Where the payload begins with the pattern, the pattern's first
/// occurrence is at the start, so what follows that occurrence is the payload
/// without its first bytes.
pub proof fn lemma_prefix_is_first_occurrence(data: Seq<u8>, pattern: Seq<u8>)
    requires
        pattern.is_prefix_of(data),
    ensures
        is_first_occurrence(data, pattern, 0),
        after_first_match(data, pattern) == Some(data.skip(pattern.len() as int)),
{
    assert(data.subrange(0, pattern.len() as int) =~= pattern);
    assert(is_first_occurrence(data, pattern, 0));
    let i = choose|i: int| is_first_occurrence(data, pattern, i);
    assert(i == 0) by {
        if i > 0 {
            assert(!occurs_at(data, pattern, 0));
        }
    }
}

/// A rule on the first bytes holds exactly of the payloads whose first
/// bytes are the rule's. Of such a payload it shows what follows those bytes
/// or the whole payload, as its selection says; with no bytes to look for,
/// both are the whole payload.
pub proof fn law_starts_with_bytes(rule: StartsWithBytesView, message: MessageView)
    ensures
        rule.accepts(message) <==> rule.bytes.len() <= message.data.len() && message.data.subrange(
            0,
            rule.bytes.len() as int,
        ) == rule.bytes,
        rule.accepts(message) && rule.output == OutputSelection::AfterMatch ==> rule.shown(message)
            == Some(message.data.skip(rule.bytes.len() as int)),
        rule.output == OutputSelection::All ==> rule.shown(message) == Some(message.data),
        rule.bytes.len() == 0 ==> rule.accepts(message) && rule.shown(message) == Some(
            message.data,
        ),
{
    let data = message.data;
    let pattern = rule.bytes;
    if pattern.len() <= data.len() {
        assert(data.subrange(0, pattern.len() as int) =~= data.take(pattern.len() as int));
    }
    if pattern.is_prefix_of(data) {
        lemma_prefix_is_first_occurrence(data, pattern);
        assert(data.subrange(0, pattern.len() as int) =~= pattern);
    } else if pattern.len() <= data.len() {
        assert(data.subrange(0, pattern.len() as int) != pattern);
    }
    if pattern.len() == 0 {
        assert(pattern =~= data.take(0));
        assert(data.skip(0) =~= data);
    }
}

/// A filter without an identifier and without a speed, whose rule is on the
/// first bytes, selects and shows what that rule does.
pub proof fn law_unconstrained_filter_follows_rule(filter: MessageFilterView, message: MessageView)
    requires
        filter.id is None,
        filter.speed is None,
        filter.filter_type is StartsWithBytes,
    ensures
        filter.accepts(message) == filter.filter_type->StartsWithBytes_0.accepts(message),
        filter.shown(message) == filter.filter_type->StartsWithBytes_0.shown(message),
{
}

/// A filter that is limited to an identifier selects no message with
/// another identifier, whatever the payload and the rule.
pub proof fn law_other_identifier_is_not_selected(filter: MessageFilterView, message: MessageView)
    requires
        filter.id is Some,
        filter.id->Some_0 != message.id,
    ensures
        !filter.accepts(message),
{
}

/// The part done does not shrink as more rows are decoded.
pub proof fn law_progress_grows(earlier: Progress, later: Progress)
    requires
        earlier.total == later.total,
        earlier.done <= later.done,
    ensures
        earlier.spec_per_mille() <= later.spec_per_mille(),
        0 <= earlier.spec_per_mille() <= 1000,
{
    let total = earlier.total as int;
    let a = earlier.done as int;
    let b = later.done as int;
    if total > 0 {
        assert(a * 1000 / total <= b * 1000 / total) by (nonlinear_arith)
            requires
                0 <= a <= b,
                total > 0,
        ;
        assert(0 <= a * 1000 / total) by (nonlinear_arith)
            requires
                0 <= a,
                total > 0,
        ;
        if a < total {
            assert(a * 1000 / total < 1000) by (nonlinear_arith)
                requires
                    0 <= a < total,
            ;
        }
        if b < total {
            assert(b * 1000 / total < 1000) by (nonlinear_arith)
                requires
                    0 <= b < total,
            ;
        }
    }
}

/// A chosen file whose bytes decode is loaded in two steps. The owner is
/// told to start the decoding; whatever it finds in that cycle, the loader is
/// loading. Once the decoding has posted, the loader holds one message for
/// each row after the first, in the rows' order, its progress is complete,
/// and the known speeds are those of the messages.
pub proof fn law_load_of_valid_file(
    path: Seq<char>,
    known: Set<Seq<char>>,
    first: LoadEventView,
    data: Seq<u8>,
)
    requires
        file_messages(data) is Some,
    ensures
        ({
            let table = csv_table(data)->Some_0;
            let messages = file_messages(data)->Some_0;
            let chosen = MessageLoaderView {
                state: LoaderStateView::FileSelected(path),
                known_speeds: known,
            };
            let loading = chosen.next(first);
            let loaded = loading.next(posted(data));
            &&& chosen.to_start() == Some(path)
            &&& loading.state is Loading
            &&& loading.known_speeds == known
            &&& loaded.state == (LoaderStateView::Loaded { messages, file_path: path })
            &&& loaded.state.progress() == (Progress { done: 1, total: 1 })
            &&& loaded.state.progress().spec_per_mille() == 1000
            &&& loaded.known_speeds == speeds_of(messages)
            &&& messages.len() == if table.len() == 0 {
                0
            } else {
                table.len() - 1
            }
            &&& forall|i: int|
                0 <= i < messages.len() ==> Some(#[trigger] messages[i]) == row_message(
                    header_columns(table[0])->Some_0,
                    table[i + 1],
                )
        }),
{
}

/// With no file chosen, with the messages loaded, and after a failure, the
/// loader stays as it is, whatever its owner finds.
pub proof fn law_resting_loader_stays(loader: MessageLoaderView, event: LoadEventView)
    requires
        loader.state is FileNotSelected || loader.state is Loaded || loader.state is Error,
    ensures
        loader.next(event) == loader,
        loader.to_start() is None,
{
}

/// A file with a row whose acknowledgement is neither `true` nor `false`
/// does not load. The decoding posts that the file is not valid; the loader
/// then holds an error that is not empty, about the file, and no message;
/// the known speeds are as before; and no further cycle changes that.
pub proof fn law_invalid_ack_fails_load(
    path: Seq<char>,
    known: Set<Seq<char>>,
    progress: Progress,
    data: Seq<u8>,
    row: int,
    later: LoadEventView,
)
    requires
        csv_table(data) is Some,
        1 <= row < csv_table(data)->Some_0.len(),
        header_columns(csv_table(data)->Some_0[0]) matches Some(columns) ==> columns.ack
            < csv_table(data)->Some_0[row].len() ==> ack_value(
            csv_table(data)->Some_0[row][columns.ack as int],
        ) is None,
    ensures
        ({
            let loading = MessageLoaderView {
                state: LoaderStateView::Loading { progress, file_path: path },
                known_speeds: known,
            };
            let failed = loading.next(posted(data));
            &&& file_messages(data) is None
            &&& posted(data) == LoadEventView::Invalid
            &&& failed.state == (LoaderStateView::Error {
                file_path: Some(path),
                error: Some(invalid_text()),
            })
            &&& invalid_text().len() > 0
            &&& failed.known_speeds == known
            &&& failed.state.progress() == (Progress { done: 0, total: 0 })
            &&& failed.next(later) == failed
        }),
{
    let table = csv_table(data)->Some_0;
    if header_columns(table[0]) is Some {
        assert(row_message(header_columns(table[0])->Some_0, table[row]) is None);
    }
    reveal_strlit("File invalid");
}

} // verus!
