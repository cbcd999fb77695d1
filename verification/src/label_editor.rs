//! The catalogue of label rules and the draft through which it is edited.

use vstd::prelude::*;
use crate::field::{text_bytes, Field, ParseError, TextFieldView};
use crate::filter::{matching, matching_labels, FilterResult, FilterType, FilterTypeView, LabelFilter, LabelFilterView, MessageFilter, MessageFilterView, OutputSelection, StartsWithBytes, StartsWithBytesView};
use crate::hexcodec::spaced_upper_hex;
use crate::label::{Color, Label, LabelView, DRAFT_CHANNEL};
use crate::message::Message;
use crate::util::{empty_str_as_none, empty_vec_as_none, hex_to_str};

verus! {

/// The fields of a draft that belong to its kind of rule.
pub enum EditFilterOptionsState {
    Empty,
    OneStringField(Field<String>),
    OneStringFieldOneOutputSelection(Field<String>, OutputSelection),
}

/// What an `EditFilterOptionsState` holds.
pub enum OptionsView {
    Empty,
    OneStringField(TextFieldView),
    OneStringFieldOneOutputSelection(TextFieldView, OutputSelection),
}

impl View for EditFilterOptionsState {
    type V = OptionsView;

    open spec fn view(&self) -> OptionsView {
        match self {
            EditFilterOptionsState::Empty => OptionsView::Empty,
            EditFilterOptionsState::OneStringField(field) => OptionsView::OneStringField(field@),
            EditFilterOptionsState::OneStringFieldOneOutputSelection(field, output) =>
                OptionsView::OneStringFieldOneOutputSelection(field@, *output),
        }
    }
}

impl Default for EditFilterOptionsState {
    fn default() -> (out: Self)
        ensures
            out@ == OptionsView::Empty,
    {
        EditFilterOptionsState::Empty
    }
}

/// The option fields for a rule: none for a basic rule; for a rule on the
/// first bytes, those bytes as spaced upper-case hex and the rule's
/// selection.
pub open spec fn options_of(rule: FilterTypeView) -> OptionsView {
    match rule {
        FilterTypeView::Basic => OptionsView::Empty,
        FilterTypeView::StartsWithBytes(rule) => OptionsView::OneStringFieldOneOutputSelection(
            TextFieldView { text: spaced_upper_hex(rule.bytes), valid: true },
            rule.output,
        ),
    }
}

impl EditFilterOptionsState {
    /// The option fields that show the given rule.
    pub fn from_filter_type(filter_type: &FilterType) -> (out: Self)
        ensures
            out@ == options_of(filter_type@),
    {
        match filter_type {
            FilterType::Basic => Self::Empty,
            FilterType::StartsWithBytes(rule) => {
                Self::OneStringFieldOneOutputSelection(
                    Field::with_value(hex_to_str(rule.bytes.as_slice())),
                    rule.output,
                )
            },
        }
    }
}

/// The draft of a label rule: free text for each part of it.
pub struct EditFilterLabelState {
    pub id: Field<String>,
    pub speed: Field<String>,
    pub filter_type: FilterType,
    pub filter_options: EditFilterOptionsState,
    pub name: Field<String>,
    pub color: Field<Color>,
}

/// What an `EditFilterLabelState` holds.
pub struct DraftView {
    pub id: TextFieldView,
    pub speed: TextFieldView,
    pub filter_type: FilterTypeView,
    pub filter_options: OptionsView,
    pub name: TextFieldView,
    pub color: Color,
    pub color_valid: bool,
}

impl View for EditFilterLabelState {
    type V = DraftView;

    open spec fn view(&self) -> DraftView {
        DraftView {
            id: self.id@,
            speed: self.speed@,
            filter_type: self.filter_type@,
            filter_options: self.filter_options@,
            name: self.name@,
            color: self.color.value,
            color_valid: self.color.valid,
        }
    }
}

/// An empty text field that counts as valid.
pub open spec fn blank_field() -> TextFieldView {
    TextFieldView { text: Seq::empty(), valid: true }
}

/// The draft that editing starts from: every text empty, a basic rule, the
/// colour of a fresh draft.
pub open spec fn fresh_draft() -> DraftView {
    DraftView {
        id: blank_field(),
        speed: blank_field(),
        filter_type: FilterTypeView::Basic,
        filter_options: OptionsView::Empty,
        name: blank_field(),
        color: Color { red: DRAFT_CHANNEL, green: DRAFT_CHANNEL, blue: DRAFT_CHANNEL },
        color_valid: true,
    }
}

/// The draft that shows a binding: the identifier as spaced upper-case
/// hex, the speed and the name as they are, the rule with its options; empty
/// text where the binding has no identifier or no speed.
pub open spec fn draft_of(binding: LabelFilterView) -> DraftView {
    DraftView {
        id: TextFieldView {
            text: match binding.filter.id {
                Some(id) => spaced_upper_hex(id),
                None => Seq::empty(),
            },
            valid: true,
        },
        speed: TextFieldView {
            text: match binding.filter.speed {
                Some(speed) => speed,
                None => Seq::empty(),
            },
            valid: true,
        },
        filter_type: binding.filter.filter_type,
        filter_options: options_of(binding.filter.filter_type),
        name: TextFieldView { text: binding.label.name, valid: true },
        color: binding.label.color,
        color_valid: true,
    }
}

/// The rule that a kind and its option fields stand for. `None` where the
/// fields are not those of the kind, or where the bytes of a rule on the
/// first bytes are missing or do not decode.
pub open spec fn draft_rule(kind: FilterTypeView, options: OptionsView) -> Option<FilterTypeView> {
    match (kind, options) {
        (FilterTypeView::Basic, OptionsView::Empty) => Some(FilterTypeView::Basic),
        (
            FilterTypeView::StartsWithBytes(_),
            OptionsView::OneStringFieldOneOutputSelection(field, output),
        ) => match text_bytes(field.text, false) {
            Some(bytes) => Some(
                FilterTypeView::StartsWithBytes(StartsWithBytesView { bytes, output }),
            ),
            None => None,
        },
        _ => None,
    }
}

/// The binding that a draft stands for. The identifier must decode, and an
/// empty one means any identifier; an empty speed means any speed; the name
/// must not be empty; the rule must be as `draft_rule` asks.
pub open spec fn draft_binding(draft: DraftView) -> Option<LabelFilterView> {
    match (text_bytes(draft.id.text, true), draft_rule(draft.filter_type, draft.filter_options)) {
        (Some(id), Some(rule)) if draft.name.text.len() > 0 => Some(
            LabelFilterView {
                label: LabelView { name: draft.name.text, color: draft.color },
                filter: MessageFilterView {
                    id: if id.len() == 0 {
                        None
                    } else {
                        Some(id)
                    },
                    speed: if draft.speed.text.len() == 0 {
                        None
                    } else {
                        Some(draft.speed.text)
                    },
                    filter_type: rule,
                },
            },
        ),
        _ => None,
    }
}

/// The option fields after validation: the bytes of a rule on the first
/// bytes are marked as they decode or not; anything else stays.
pub open spec fn checked_options(kind: FilterTypeView, options: OptionsView) -> OptionsView {
    match (kind, options) {
        (
            FilterTypeView::StartsWithBytes(_),
            OptionsView::OneStringFieldOneOutputSelection(field, output),
        ) => OptionsView::OneStringFieldOneOutputSelection(
            TextFieldView { text: field.text, valid: text_bytes(field.text, false) is Some },
            output,
        ),
        _ => options,
    }
}

/// The draft after validation. No text changes. The fields are looked at in
/// the order identifier, speed, name, rule options, and each is marked valid
/// or not, up to and including the first that is not valid; the fields after
/// that one keep their marks.
pub open spec fn checked(draft: DraftView) -> DraftView {
    let id_ok = text_bytes(draft.id.text, true) is Some;
    let name_ok = draft.name.text.len() > 0;
    DraftView {
        id: TextFieldView { text: draft.id.text, valid: id_ok },
        speed: TextFieldView {
            text: draft.speed.text,
            valid: if id_ok {
                true
            } else {
                draft.speed.valid
            },
        },
        name: TextFieldView {
            text: draft.name.text,
            valid: if id_ok {
                name_ok
            } else {
                draft.name.valid
            },
        },
        filter_options: if id_ok && name_ok {
            checked_options(draft.filter_type, draft.filter_options)
        } else {
            draft.filter_options
        },
        ..draft
    }
}

impl Default for EditFilterLabelState {
    fn default() -> (out: Self)
        ensures
            out@ == fresh_draft(),
    {
        Self {
            id: Field::with_value(String::new()),
            speed: Field::with_value(String::new()),
            filter_type: FilterType::Basic,
            filter_options: EditFilterOptionsState::Empty,
            name: Field::with_value(String::new()),
            color: Field::with_value(Color::draft()),
        }
    }
}

impl EditFilterLabelState {
    /// The draft that shows the given binding.
    pub fn from_data(data: &LabelFilter) -> (out: Self)
        ensures
            out@ == draft_of(data@),
    {
        let id = match data.filter.id() {
            Some(id) => hex_to_str(id.as_slice()),
            None => String::new(),
        };
        let speed = match data.filter.speed() {
            Some(speed) => speed.clone(),
            None => String::new(),
        };
        Self {
            id: Field::with_value(id),
            speed: Field::with_value(speed),
            filter_type: data.filter.filter_type().clone(),
            filter_options: EditFilterOptionsState::from_filter_type(data.filter.filter_type()),
            name: Field::with_value(data.label.name.clone()),
            color: Field::with_value(data.label.color),
        }
    }

    /// Validates the draft and gives the binding that it stands for. The
    /// fields are marked as `checked` says.
    pub fn validate(&mut self) -> (out: Result<LabelFilter, ParseError>)
        ensures
            match out {
                Ok(binding) => draft_binding(old(self)@) == Some(binding@),
                Err(_) => draft_binding(old(self)@) is None,
            },
            final(self)@ == checked(old(self)@),
    {
        let id = match self.id.validate_bytes(true) {
            Ok(id) => empty_vec_as_none(id),
            Err(e) => {
                return Err(e);
            },
        };
        let speed = match self.speed.validate_string(true) {
            Ok(speed) => empty_str_as_none(speed),
            Err(e) => {
                return Err(e);
            },
        };
        let name = match self.name.validate_string(false) {
            Ok(name) => name,
            Err(e) => {
                return Err(e);
            },
        };
        let color = self.color.value;
        let filter_type = match &self.filter_type {
            FilterType::Basic => match &self.filter_options {
                EditFilterOptionsState::Empty => FilterType::Basic,
                _ => {
                    return Err(ParseError {  });
                },
            },
            FilterType::StartsWithBytes(_) => match &mut self.filter_options {
                EditFilterOptionsState::OneStringFieldOneOutputSelection(field, output) => {
                    match field.validate_bytes(false) {
                        Ok(bytes) => FilterType::StartsWithBytes(
                            StartsWithBytes { bytes, output: *output },
                        ),
                        Err(e) => {
                            return Err(e);
                        },
                    }
                },
                _ => {
                    return Err(ParseError {  });
                },
            },
        };
        Ok(LabelFilter { label: Label { name, color }, filter: MessageFilter::new(id, speed, filter_type) })
    }
}

/// The catalogue of label rules, in the order in which they are shown and
/// tried, with the draft through which it is edited.
pub struct FilterLabelState {
    pub data: Vec<LabelFilter>,
    /// The place of the binding that is being edited, if any.
    pub editing_index: Option<usize>,
    pub edit_state: EditFilterLabelState,
}

impl Default for FilterLabelState {
    fn default() -> (out: Self)
        ensures
            out.wf(),
            out.data@.len() == 0,
            out.editing_index is None,
            out.edit_state@ == fresh_draft(),
    {
        Self { data: Vec::new(), editing_index: None, edit_state: EditFilterLabelState::default() }
    }
}

impl FilterLabelState {
    /// The binding that is being edited is one of the catalogue.
    pub open spec fn wf(&self) -> bool {
        self.editing_index matches Some(index) ==> index < self.data.len()
    }

    /// A catalogue with the given bindings, none of them being edited.
    pub fn from_data(data: Vec<LabelFilter>) -> (out: Self)
        ensures
            out.wf(),
            out.data == data,
            out.editing_index is None,
            out.edit_state@ == fresh_draft(),
    {
        Self { data, editing_index: None, edit_state: EditFilterLabelState::default() }
    }

    /// The place of the entry that is being edited, if any.
    pub fn editing_index(&self) -> (out: &Option<usize>)
        ensures
            *out == self.editing_index,
    {
        &self.editing_index
    }

    /// Starts editing the binding at `index`: the draft shows it.
    pub fn edit(&mut self, index: usize)
        requires
            index < old(self).data.len(),
        ensures
            final(self).wf(),
            final(self).data == old(self).data,
            final(self).editing_index == Some(index),
            final(self).edit_state@ == draft_of(old(self).data[index as int]@),
    {
        self.editing_index = Some(index);
        self.edit_state = EditFilterLabelState::from_data(&self.data[index]);
    }

    /// Ends an edit. Where a binding is being edited and the draft is
    /// valid, the binding that the draft stands for takes the place of the
    /// edited one, and the draft is fresh again. Where the draft is not
    /// valid, only its marks change. Where nothing is being edited, nothing
    /// changes.
    pub fn commit(&mut self)
        requires
            old(self).wf(),
        ensures
            final(self).wf(),
            match (old(self).editing_index, draft_binding(old(self).edit_state@)) {
                (Some(index), Some(binding)) => {
                    &&& final(self).data.deep_view() == old(self).data.deep_view().update(
                        index as int,
                        binding,
                    )
                    &&& final(self).editing_index is None
                    &&& final(self).edit_state@ == fresh_draft()
                },
                (Some(index), None) => {
                    &&& final(self).data == old(self).data
                    &&& final(self).editing_index == Some(index)
                    &&& final(self).edit_state@ == checked(old(self).edit_state@)
                },
                (None, _) => {
                    &&& final(self).data == old(self).data
                    &&& final(self).editing_index is None
                    &&& final(self).edit_state@ == old(self).edit_state@
                },
            },
    {
        if let Some(index) = self.editing_index {
            match self.edit_state.validate() {
                Ok(binding) => {
                    let ghost before = self.data.deep_view();
                    self.data[index] = binding;
                    assert(self.data.deep_view() =~= before.update(index as int, binding@));
                    self.editing_index = None;
                    self.edit_state = EditFilterLabelState::default();
                },
                Err(_) => {},
            }
        }
    }

    /// Adds the binding that the draft stands for at the end of the
    /// catalogue, and makes the draft fresh again. Where the draft is not
    /// valid, only its marks change. Where a binding is being edited,
    /// nothing changes. Returns whether a binding was added.
    pub fn add(&mut self) -> (added: bool)
        requires
            old(self).wf(),
        ensures
            final(self).wf(),
            final(self).editing_index == old(self).editing_index,
            added == (old(self).editing_index is None && draft_binding(old(self).edit_state@) is Some),
            match (old(self).editing_index, draft_binding(old(self).edit_state@)) {
                (None, Some(binding)) => {
                    &&& final(self).data.deep_view() == old(self).data.deep_view().push(binding)
                    &&& final(self).edit_state@ == fresh_draft()
                },
                (None, None) => {
                    &&& final(self).data == old(self).data
                    &&& final(self).edit_state@ == checked(old(self).edit_state@)
                },
                (Some(_), _) => {
                    &&& final(self).data == old(self).data
                    &&& final(self).edit_state@ == old(self).edit_state@
                },
            },
    {
        if self.editing_index.is_some() {
            return false;
        }
        match self.edit_state.validate() {
            Ok(binding) => {
                let ghost before = self.data.deep_view();
                self.data.push(binding);
                assert(self.data.deep_view() =~= before.push(binding@));
                self.edit_state = EditFilterLabelState::default();
                true
            },
            Err(_) => false,
        }
    }

    /// Takes the binding at `index` out of the catalogue. Where a binding is
    /// being edited, nothing changes. Returns whether a binding was taken
    /// out.
    pub fn remove(&mut self, index: usize) -> (removed: bool)
        requires
            old(self).wf(),
            index < old(self).data.len(),
        ensures
            final(self).wf(),
            final(self).editing_index == old(self).editing_index,
            final(self).edit_state == old(self).edit_state,
            removed == (old(self).editing_index is None),
            final(self).data.deep_view() == if removed {
                old(self).data.deep_view().remove(index as int)
            } else {
                old(self).data.deep_view()
            },
    {
        if self.editing_index.is_some() {
            return false;
        }
        let ghost before = self.data.deep_view();
        self.data.remove(index);
        assert(self.data.deep_view() =~= before.remove(index as int));
        true
    }

    /// Puts a copy of the binding at `index` right after it. Where a binding
    /// is being edited, nothing changes. Returns whether a copy was made.
    pub fn duplicate(&mut self, index: usize) -> (copied: bool)
        requires
            old(self).wf(),
            index < old(self).data.len(),
        ensures
            final(self).wf(),
            final(self).editing_index == old(self).editing_index,
            final(self).edit_state == old(self).edit_state,
            copied == (old(self).editing_index is None),
            final(self).data.deep_view() == if copied {
                old(self).data.deep_view().insert(
                    index + 1,
                    old(self).data.deep_view()[index as int],
                )
            } else {
                old(self).data.deep_view()
            },
    {
        if self.editing_index.is_some() {
            return false;
        }
        let ghost before = self.data.deep_view();
        let copy = self.data[index].clone();
        self.data.insert(index + 1, copy);
        assert(self.data.deep_view() =~= before.insert(index + 1, before[index as int]));
        true
    }

    /// The labels that apply to a message: one for each binding of the
    /// catalogue that selects it, in the catalogue's order, each with the
    /// bytes that its rule shows.
    pub fn matching_labels(&self, message: &Message) -> (out: Vec<FilterResult>)
        ensures
            out.deep_view() == matching(self.data.deep_view(), message@),
    {
        matching_labels(&self.data, message)
    }
}

} // verus!
