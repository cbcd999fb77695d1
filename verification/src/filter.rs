//! Rules that select messages and say what part of a payload to show.

use vstd::prelude::*;
use crate::hexcodec::{hex_encode, lower_hex};
use crate::label::{Label, LabelView};
use crate::message::{any_word, id_string, shown_id, HighlightID, HighlightIDView, Message, MessageView, Speed};
use crate::util::{copy_bytes, opt_bytes, opt_text, same_bytes};

verus! {

/// Which part of a payload a rule shows.
#[derive(Debug, PartialEq, Eq, Structural, Clone, Copy)]
pub enum OutputSelection {
    /// The whole payload.
    All,
    /// What follows the matched bytes.
    AfterMatch,
}

impl Default for OutputSelection {
    fn default() -> (out: Self)
        ensures
            out == OutputSelection::AfterMatch,
    {
        OutputSelection::AfterMatch
    }
}

impl OutputSelection {
    /// The selections, in the order in which they are offered.
    pub fn choices() -> (out: Vec<OutputSelection>)
        ensures
            out@ == seq![OutputSelection::All, OutputSelection::AfterMatch],
    {
        let mut out: Vec<OutputSelection> = Vec::new();
        out.push(OutputSelection::All);
        out.push(OutputSelection::AfterMatch);
        assert(out@ =~= seq![OutputSelection::All, OutputSelection::AfterMatch]);
        out
    }

    /// The words that name the selection: `Whole message` or `After match`.
    pub fn name(&self) -> (out: &'static str)
        ensures
            out@ == match *self {
                OutputSelection::All => "Whole message"@,
                OutputSelection::AfterMatch => "After match"@,
            },
    {
        match self {
            OutputSelection::All => "Whole message",
            OutputSelection::AfterMatch => "After match",
        }
    }
}

/// Whether `pattern` stands in `data` at position `i`.
pub open spec fn occurs_at(data: Seq<u8>, pattern: Seq<u8>, i: int) -> bool {
    &&& 0 <= i
    &&& i + pattern.len() <= data.len()
    &&& data.subrange(i, i + pattern.len()) == pattern
}

/// Whether `i` is the first position at which `pattern` stands in `data`.
pub open spec fn is_first_occurrence(data: Seq<u8>, pattern: Seq<u8>, i: int) -> bool {
    &&& occurs_at(data, pattern, i)
    &&& forall|j: int| 0 <= j < i ==> !occurs_at(data, pattern, j)
}

/// What follows the first occurrence of `pattern` in `data`, or `None` where
/// `pattern` does not occur.
pub open spec fn after_first_match(data: Seq<u8>, pattern: Seq<u8>) -> Option<Seq<u8>> {
    if exists|i: int| is_first_occurrence(data, pattern, i) {
        let i = choose|i: int| is_first_occurrence(data, pattern, i);
        Some(data.skip(i + pattern.len()))
    } else {
        None
    }
}

/// The first position at which `pattern` stands in `data`.
pub fn find_first(data: &[u8], pattern: &[u8]) -> (out: Option<usize>)
    ensures
        match out {
            Some(i) => is_first_occurrence(data@, pattern@, i as int),
            None => forall|j: int| !occurs_at(data@, pattern@, j),
        },
{
    if pattern.len() > data.len() {
        return None;
    }
    let last: usize = data.len() - pattern.len();
    let mut i: usize = 0;
    while i < last
        invariant
            last == data.len() - pattern.len(),
            i <= last,
            forall|j: int| 0 <= j < i ==> !occurs_at(data@, pattern@, j),
        decreases last - i,
    {
        if matches_at(data, pattern, i) {
            return Some(i);
        }
        i += 1;
    }
    if matches_at(data, pattern, last) {
        Some(last)
    } else {
        None
    }
}

/// Whether `pattern` stands in `data` at position `at`.
pub fn matches_at(data: &[u8], pattern: &[u8], at: usize) -> (out: bool)
    ensures
        out == occurs_at(data@, pattern@, at as int),
{
    if pattern.len() > data.len() || at > data.len() - pattern.len() {
        return false;
    }
    let mut k: usize = 0;
    while k < pattern.len()
        invariant
            k <= pattern.len(),
            at + pattern.len() <= data.len(),
            forall|j: int| 0 <= j < k ==> data@[at + j] == pattern@[j],
        decreases pattern.len() - k,
    {
        if data[at + k] != pattern[k] {
            assert(data@.subrange(at as int, at + pattern@.len())[k as int] != pattern@[k as int]);
            return false;
        }
        k += 1;
    }
    assert(data@.subrange(at as int, at + pattern@.len()) =~= pattern@);
    true
}

/// A rule on the payload of a message, with the part of the payload that it
/// shows.
pub trait SpecialFilter {
    /// Whether the rule holds of the message.
    spec fn accepts(&self, message: MessageView) -> bool;

    /// The bytes that the rule shows of the message, if any.
    spec fn shown(&self, message: MessageView) -> Option<Seq<u8>>;

    fn filter_specific(&self, message: &Message) -> (out: bool)
        ensures
            out == self.accepts(message@),
    ;

    fn output_data(&self, message: &Message) -> (out: Option<Vec<u8>>)
        ensures
            opt_bytes(out) == self.shown(message@),
    ;
}

/// The rule that a payload starts with given bytes.
#[derive(Debug)]
pub struct StartsWithBytes {
    pub bytes: Vec<u8>,
    pub output: OutputSelection,
}

/// What a `StartsWithBytes` holds.
pub struct StartsWithBytesView {
    pub bytes: Seq<u8>,
    pub output: OutputSelection,
}

impl StartsWithBytesView {
    /// Whether the payload begins with the rule's bytes.
    pub open spec fn accepts(self, message: MessageView) -> bool {
        self.bytes.is_prefix_of(message.data)
    }

    /// The whole payload, or what follows the first occurrence of the
    /// rule's bytes in it.
    pub open spec fn shown(self, message: MessageView) -> Option<Seq<u8>> {
        match self.output {
            OutputSelection::All => Some(message.data),
            OutputSelection::AfterMatch => after_first_match(message.data, self.bytes),
        }
    }
}

impl View for StartsWithBytes {
    type V = StartsWithBytesView;

    open spec fn view(&self) -> StartsWithBytesView {
        StartsWithBytesView { bytes: self.bytes@, output: self.output }
    }
}

impl DeepView for StartsWithBytes {
    type V = StartsWithBytesView;

    open spec fn deep_view(&self) -> StartsWithBytesView {
        self.view()
    }
}

impl Default for StartsWithBytes {
    fn default() -> (out: Self)
        ensures
            out@ == (StartsWithBytesView {
                bytes: Seq::empty(),
                output: OutputSelection::AfterMatch,
            }),
    {
        StartsWithBytes { bytes: Vec::new(), output: OutputSelection::AfterMatch }
    }
}

impl Clone for StartsWithBytes {
    fn clone(&self) -> (out: Self)
        ensures
            out@ == self@,
    {
        StartsWithBytes { bytes: copy_bytes(&self.bytes), output: self.output }
    }
}

impl SpecialFilter for StartsWithBytes {
    open spec fn accepts(&self, message: MessageView) -> bool {
        self@.accepts(message)
    }

    open spec fn shown(&self, message: MessageView) -> Option<Seq<u8>> {
        self@.shown(message)
    }

    fn filter_specific(&self, message: &Message) -> (out: bool) {
        if self.bytes.len() > message.data.len() {
            return false;
        }
        let out = matches_at(&message.data, &self.bytes, 0);
        assert(message.data@.subrange(0, self.bytes@.len() as int) =~= message.data@.take(
            self.bytes@.len() as int,
        ));
        out
    }

    fn output_data(&self, message: &Message) -> (out: Option<Vec<u8>>) {
        match self.output {
            OutputSelection::All => Some(copy_bytes(&message.data)),
            OutputSelection::AfterMatch => {
                match find_first(&message.data, &self.bytes) {
                    Some(index) => {
                        let length: usize = message.data.len();
                        assert(index + self.bytes@.len() <= length);
                        let start: usize = index + self.bytes.len();
                        let mut rest: Vec<u8> = Vec::new();
                        let mut i: usize = start;
                        while i < length
                            invariant
                                length == message.data.len(),
                                start <= i <= length,
                                rest@ == message.data@.subrange(start as int, i as int),
                            decreases length - i,
                        {
                            rest.push(message.data[i]);
                            assert(message.data@.subrange(start as int, i + 1)
                                =~= message.data@.subrange(start as int, i as int).push(
                                message.data@[i as int],
                            ));
                            i += 1;
                        }
                        proof {
                            let data = message.data@;
                            let pattern = self.bytes@;
                            assert(rest@ =~= data.skip(start as int));
                            let k = choose|k: int| is_first_occurrence(data, pattern, k);
                            assert(k == index);
                        }
                        Some(rest)
                    },
                    None => None,
                }
            },
        }
    }
}

/// The kinds of rule.
#[derive(Debug)]
pub enum FilterType {
    /// Holds of every message.
    Basic,
    StartsWithBytes(StartsWithBytes),
}

/// What a `FilterType` holds.
pub enum FilterTypeView {
    Basic,
    StartsWithBytes(StartsWithBytesView),
}

impl FilterTypeView {
    /// Whether the rule holds of the message.
    pub open spec fn accepts(self, message: MessageView) -> bool {
        match self {
            FilterTypeView::Basic => true,
            FilterTypeView::StartsWithBytes(rule) => rule.accepts(message),
        }
    }

    /// The bytes that the rule shows of the message, if any.
    pub open spec fn shown(self, message: MessageView) -> Option<Seq<u8>> {
        match self {
            FilterTypeView::Basic => None,
            FilterTypeView::StartsWithBytes(rule) => rule.shown(message),
        }
    }

    /// Whether two rules are of the same kind, whatever they hold.
    pub open spec fn same_kind(self, other: FilterTypeView) -> bool {
        (self is Basic && other is Basic) || (self is StartsWithBytes && other is StartsWithBytes)
    }
}

impl View for FilterType {
    type V = FilterTypeView;

    open spec fn view(&self) -> FilterTypeView {
        match self {
            FilterType::Basic => FilterTypeView::Basic,
            FilterType::StartsWithBytes(rule) => FilterTypeView::StartsWithBytes(rule@),
        }
    }
}

impl DeepView for FilterType {
    type V = FilterTypeView;

    open spec fn deep_view(&self) -> FilterTypeView {
        self.view()
    }
}

impl Default for FilterType {
    fn default() -> (out: Self)
        ensures
            out@ == FilterTypeView::Basic,
    {
        FilterType::Basic
    }
}

impl Clone for FilterType {
    fn clone(&self) -> (out: Self)
        ensures
            out@ == self@,
    {
        match self {
            FilterType::Basic => FilterType::Basic,
            FilterType::StartsWithBytes(rule) => FilterType::StartsWithBytes(rule.clone()),
        }
    }
}

impl FilterType {
    /// Whether `self` and `variant` are of the same kind, whatever they hold.
    pub fn is_variant(&self, variant: &FilterType) -> (out: bool)
        ensures
            out == self@.same_kind(variant@),
    {
        match (self, variant) {
            (FilterType::StartsWithBytes(_), FilterType::StartsWithBytes(_)) => true,
            (FilterType::Basic, FilterType::Basic) => true,
            _ => false,
        }
    }

    /// The words that name the kind: `Basic` or `Starts with bytes`.
    pub fn name(&self) -> (out: &str)
        ensures
            out@ == match self@ {
                FilterTypeView::Basic => "Basic"@,
                FilterTypeView::StartsWithBytes(_) => "Starts with bytes"@,
            },
    {
        match self {
            FilterType::StartsWithBytes(_) => "Starts with bytes",
            FilterType::Basic => "Basic",
        }
    }

    /// One rule of each kind, in the order in which the kinds are offered.
    pub fn kinds() -> (out: Vec<FilterType>)
        ensures
            out.deep_view() == seq![
                FilterTypeView::Basic,
                FilterTypeView::StartsWithBytes(
                    StartsWithBytesView { bytes: Seq::empty(), output: OutputSelection::AfterMatch },
                ),
            ],
    {
        let mut out: Vec<FilterType> = Vec::new();
        out.push(FilterType::Basic);
        out.push(FilterType::StartsWithBytes(StartsWithBytes::default()));
        assert(out.deep_view() =~= seq![
            FilterTypeView::Basic,
            FilterTypeView::StartsWithBytes(
                StartsWithBytesView { bytes: Seq::empty(), output: OutputSelection::AfterMatch },
            ),
        ]);
        out
    }
}

/// A rule with the identifier and the speed that it is limited to.
#[derive(Debug)]
pub struct MessageFilter {
    id: Option<Vec<u8>>,
    speed: Option<Speed>,
    filter_type: FilterType,
}

/// What a `MessageFilter` holds.
pub struct MessageFilterView {
    pub id: Option<Seq<u8>>,
    pub speed: Option<Seq<char>>,
    pub filter_type: FilterTypeView,
}

impl MessageFilterView {
    /// Whether the filter selects the message: the identifier and the speed
    /// are those asked for, where any is asked for, and the rule holds.
    pub open spec fn accepts(self, message: MessageView) -> bool {
        &&& self.id matches Some(id) ==> message.id == id
        &&& self.speed matches Some(speed) ==> message.speed == speed
        &&& self.filter_type.accepts(message)
    }

    /// The bytes that the filter shows of the message, if any.
    pub open spec fn shown(self, message: MessageView) -> Option<Seq<u8>> {
        self.filter_type.shown(message)
    }
}

impl View for MessageFilter {
    type V = MessageFilterView;

    closed spec fn view(&self) -> MessageFilterView {
        MessageFilterView {
            id: opt_bytes(self.id),
            speed: opt_text(self.speed),
            filter_type: self.filter_type@,
        }
    }
}

impl DeepView for MessageFilter {
    type V = MessageFilterView;

    open spec fn deep_view(&self) -> MessageFilterView {
        self.view()
    }
}

impl Clone for MessageFilter {
    fn clone(&self) -> (out: Self)
        ensures
            out@ == self@,
    {
        MessageFilter {
            id: match &self.id {
                Some(id) => Some(copy_bytes(id)),
                None => None,
            },
            speed: match &self.speed {
                Some(speed) => Some(speed.clone()),
                None => None,
            },
            filter_type: self.filter_type.clone(),
        }
    }
}

impl MessageFilter {
    /// A filter with the given limits and rule.
    pub fn new(id: Option<Vec<u8>>, speed: Option<Speed>, filter_type: FilterType) -> (out: Self)
        ensures
            out@ == (MessageFilterView {
                id: opt_bytes(id),
                speed: opt_text(speed),
                filter_type: filter_type@,
            }),
    {
        Self { id, speed, filter_type }
    }

    /// The identifier that the filter is limited to, if any.
    pub fn id(&self) -> (out: Option<&Vec<u8>>)
        ensures
            match out {
                Some(id) => self@.id == Some(id@),
                None => self@.id is None,
            },
    {
        self.id.as_ref()
    }

    /// How the filter's identifier is shown: the word `any` where there is
    /// none, else as `id_string` shows it.
    pub fn id_string(&self, ids: &Vec<HighlightID>) -> (out: String)
        ensures
            out@ == match self@.id {
                Some(id) => shown_id(id, ids.deep_view()),
                None => any_word(),
            },
    {
        match self.id() {
            Some(id) => id_string(id, ids),
            None => {
                proof {
                    reveal_strlit("any");
                    assert("any"@ =~= any_word());
                }
                "any".to_string()
            },
        }
    }

    /// The speed that the filter is limited to, if any.
    pub fn speed(&self) -> (out: Option<&Speed>)
        ensures
            match out {
                Some(speed) => self@.speed == Some(speed@),
                None => self@.speed is None,
            },
    {
        self.speed.as_ref()
    }

    /// How the filter's speed is shown: the speed itself, or the word `any`
    /// where there is none.
    pub fn speed_string(&self) -> (out: String)
        ensures
            out@ == match self@.speed {
                Some(speed) => speed,
                None => any_word(),
            },
    {
        match self.speed() {
            Some(speed) => speed.clone(),
            None => {
                proof {
                    reveal_strlit("any");
                    assert("any"@ =~= any_word());
                }
                "any".to_string()
            },
        }
    }

    /// The rule of the filter.
    pub fn filter_type(&self) -> (out: &FilterType)
        ensures
            out@ == self@.filter_type,
    {
        &self.filter_type
    }

    /// The rule in words: `Basic filter`, or `Data starts with ` and the
    /// rule's bytes in lower-case hex.
    pub fn description(&self) -> (out: String)
        ensures
            out@ == match self@.filter_type {
                FilterTypeView::Basic => "Basic filter"@,
                FilterTypeView::StartsWithBytes(rule) => "Data starts with "@ + lower_hex(
                    rule.bytes,
                ),
            },
    {
        match self.filter_type() {
            FilterType::Basic => "Basic filter".to_string(),
            FilterType::StartsWithBytes(rule) => {
                let mut out = "Data starts with ".to_string();
                out.append(hex_encode(rule.bytes.as_slice()).as_str());
                out
            },
        }
    }

    /// The bytes that the filter shows of the message, whether or not it
    /// selects the message.
    pub fn output_data(&self, message: &Message) -> (out: Option<Vec<u8>>)
        ensures
            opt_bytes(out) == self@.shown(message@),
    {
        match self.filter_type() {
            FilterType::Basic => None,
            FilterType::StartsWithBytes(rule) => rule.output_data(message),
        }
    }

    /// Whether the filter selects the message.
    pub fn filter(&self, message: &Message) -> (out: bool)
        ensures
            out == self@.accepts(message@),
    {
        if let Some(id) = &self.id {
            if !same_bytes(&message.id, id) {
                return false;
            }
        }
        if let Some(speed) = &self.speed {
            if message.speed != *speed {
                return false;
            }
        }
        match &self.filter_type {
            FilterType::Basic => true,
            FilterType::StartsWithBytes(rule) => rule.filter_specific(message),
        }
    }
}

/// A rule together with the label that it gives.
#[derive(Debug)]
pub struct LabelFilter {
    pub label: Label,
    pub filter: MessageFilter,
}

/// What a `LabelFilter` holds.
pub struct LabelFilterView {
    pub label: LabelView,
    pub filter: MessageFilterView,
}

impl View for LabelFilter {
    type V = LabelFilterView;

    open spec fn view(&self) -> LabelFilterView {
        LabelFilterView { label: self.label@, filter: self.filter@ }
    }
}

impl DeepView for LabelFilter {
    type V = LabelFilterView;

    open spec fn deep_view(&self) -> LabelFilterView {
        self.view()
    }
}

impl Clone for LabelFilter {
    fn clone(&self) -> (out: Self)
        ensures
            out@ == self@,
    {
        LabelFilter { label: self.label.clone(), filter: self.filter.clone() }
    }
}

/// A label that applies to a message, with the bytes that its rule shows.
pub struct FilterResult {
    pub label: Label,
    pub output: Option<Vec<u8>>,
}

/// What a `FilterResult` holds.
pub struct FilterResultView {
    pub label: LabelView,
    pub output: Option<Seq<u8>>,
}

impl View for FilterResult {
    type V = FilterResultView;

    open spec fn view(&self) -> FilterResultView {
        FilterResultView { label: self.label@, output: opt_bytes(self.output) }
    }
}

impl DeepView for FilterResult {
    type V = FilterResultView;

    open spec fn deep_view(&self) -> FilterResultView {
        self.view()
    }
}

/// The result that a binding gives for a message that it selects.
pub open spec fn result_of(binding: LabelFilterView, message: MessageView) -> FilterResultView {
    FilterResultView { label: binding.label, output: binding.filter.shown(message) }
}

/// The labels that apply to a message: one result for each binding that
/// selects it, in the order of the bindings.
pub open spec fn matching(bindings: Seq<LabelFilterView>, message: MessageView) -> Seq<
    FilterResultView,
> {
    bindings.filter(|b: LabelFilterView| b.filter.accepts(message)).map_values(
        |b: LabelFilterView| result_of(b, message),
    )
}

/// What one more binding adds to the labels of a message.
pub proof fn lemma_matching_step(bindings: Seq<LabelFilterView>, message: MessageView, i: int)
    requires
        0 <= i < bindings.len(),
    ensures
        matching(bindings.take(i + 1), message) == if bindings[i].filter.accepts(message) {
            matching(bindings.take(i), message).push(result_of(bindings[i], message))
        } else {
            matching(bindings.take(i), message)
        },
{
    reveal(Seq::filter);
    let keep = |b: LabelFilterView| b.filter.accepts(message);
    let give = |b: LabelFilterView| result_of(b, message);
    assert(bindings.take(i + 1).drop_last() =~= bindings.take(i));
    if bindings[i].filter.accepts(message) {
        assert(bindings.take(i + 1).filter(keep) == bindings.take(i).filter(keep).push(bindings[i]));
        assert(bindings.take(i).filter(keep).push(bindings[i]).map_values(give) =~= bindings.take(
            i,
        ).filter(keep).map_values(give).push(give(bindings[i])));
    }
}

/// The labels that apply to a message.
pub fn matching_labels(bindings: &Vec<LabelFilter>, message: &Message) -> (out: Vec<FilterResult>)
    ensures
        out.deep_view() == matching(bindings.deep_view(), message@),
{
    let mut out: Vec<FilterResult> = Vec::new();
    let mut i: usize = 0;
    assert(bindings.deep_view().take(0).filter(|b: LabelFilterView| b.filter.accepts(message@))
        =~= Seq::empty()) by {
        reveal(Seq::filter);
    }
    assert(out.deep_view() =~= matching(bindings.deep_view().take(0), message@));
    while i < bindings.len()
        invariant
            i <= bindings.len(),
            out.deep_view() == matching(bindings.deep_view().take(i as int), message@),
        decreases bindings.len() - i,
    {
        let binding = &bindings[i];
        proof {
            lemma_matching_step(bindings.deep_view(), message@, i as int);
        }
        let ghost before = out.deep_view();
        if binding.filter.filter(message) {
            let result = FilterResult {
                label: binding.label.clone(),
                output: binding.filter.output_data(message),
            };
            out.push(result);
            assert(out.deep_view() =~= before.push(result_of(bindings.deep_view()[i as int], message@)));
        }
        i += 1;
    }
    assert(bindings.deep_view().take(bindings.len() as int) =~= bindings.deep_view());
    out
}

} // verus!
