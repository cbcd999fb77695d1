//! The catalogue of highlights and the draft through which it is edited.

use vstd::prelude::*;
use crate::field::text_bytes;
use crate::hexcodec::{decode_padded, spaced_upper_hex};
use crate::label::{Color, DRAFT_CHANNEL};
use crate::message::{HighlightID, HighlightIDView};
use crate::text::{chars_of, strip_whitespace, without_whitespace};
use crate::util::hex_to_str;

verus! {

/// The draft of a highlight: free text for the identifier and the name,
/// each with the outcome of its last validation, and a colour.
pub struct HighlightIDEditState {
    pub id: String,
    pub id_valid: bool,
    pub name: String,
    pub name_valid: bool,
    pub color: Color,
}

/// What a `HighlightIDEditState` holds.
pub struct HighlightDraftView {
    pub id: Seq<char>,
    pub id_valid: bool,
    pub name: Seq<char>,
    pub name_valid: bool,
    pub color: Color,
}

impl View for HighlightIDEditState {
    type V = HighlightDraftView;

    open spec fn view(&self) -> HighlightDraftView {
        HighlightDraftView {
            id: self.id@,
            id_valid: self.id_valid,
            name: self.name@,
            name_valid: self.name_valid,
            color: self.color,
        }
    }
}

/// The draft that editing starts from: both texts empty and valid, the
/// colour of a fresh draft.
pub open spec fn fresh_highlight_draft() -> HighlightDraftView {
    HighlightDraftView {
        id: Seq::empty(),
        id_valid: true,
        name: Seq::empty(),
        name_valid: true,
        color: Color { red: DRAFT_CHANNEL, green: DRAFT_CHANNEL, blue: DRAFT_CHANNEL },
    }
}

/// The draft that shows a highlight: its identifier as spaced upper-case
/// hex, its name and its colour.
pub open spec fn highlight_draft_of(highlight: HighlightIDView) -> HighlightDraftView {
    HighlightDraftView {
        id: spaced_upper_hex(highlight.id),
        id_valid: true,
        name: highlight.name,
        name_valid: true,
        color: highlight.color,
    }
}

/// The identifier text with a zero in front of it, where it has an odd
/// number of characters besides its whitespace; else the text itself.
pub open spec fn padded_id_text(text: Seq<char>) -> Seq<char> {
    if strip_whitespace(text).len() % 2 == 1 {
        seq!['0'] + text
    } else {
        text
    }
}

/// The highlight that a draft stands for. The identifier must not be empty
/// and must decode; the name must not be empty.
pub open spec fn draft_highlight(draft: HighlightDraftView) -> Option<HighlightIDView> {
    match text_bytes(draft.id, false) {
        Some(id) if draft.name.len() > 0 => Some(
            HighlightIDView { id, name: draft.name, color: draft.color },
        ),
        _ => None,
    }
}

/// The draft after validation. The identifier text is padded; the
/// identifier loses its mark where it is not valid; the name loses its mark
/// where the identifier is valid and the name is empty. Nothing else changes.
pub open spec fn checked_highlight(draft: HighlightDraftView) -> HighlightDraftView {
    let id_ok = text_bytes(draft.id, false) is Some;
    HighlightDraftView {
        id: padded_id_text(draft.id),
        id_valid: draft.id_valid && id_ok,
        name_valid: draft.name_valid && !(id_ok && draft.name.len() == 0),
        ..draft
    }
}

impl Default for HighlightIDEditState {
    fn default() -> (out: Self)
        ensures
            out@ == fresh_highlight_draft(),
    {
        Self {
            id: String::new(),
            id_valid: true,
            name: String::new(),
            name_valid: true,
            color: Color::draft(),
        }
    }
}

impl HighlightIDEditState {
    /// Makes the draft fresh again.
    pub fn clear(&mut self)
        ensures
            final(self)@ == fresh_highlight_draft(),
    {
        self.id = String::new();
        self.id_valid = true;
        self.name = String::new();
        self.name_valid = true;
        self.color = Color::draft();
    }

    /// The draft that shows the given highlight.
    pub fn from_data(data: &HighlightID) -> (out: Self)
        ensures
            out@ == highlight_draft_of(data@),
    {
        Self {
            id: hex_to_str(data.id().as_slice()),
            id_valid: true,
            name: data.name().clone(),
            name_valid: true,
            color: *data.color(),
        }
    }

    /// Validates the draft and gives the highlight that it stands for. The
    /// identifier is validated first, as `validate_id` does, and the name only
    /// where the identifier is valid, as `validate_name` does.
    pub fn validate(&mut self) -> (out: Option<HighlightID>)
        ensures
            out.deep_view() == draft_highlight(old(self)@),
            final(self)@ == checked_highlight(old(self)@),
    {
        let id = match self.validate_id() {
            Some(id) => id,
            None => {
                return None;
            },
        };
        let name = match self.validate_name() {
            Some(name) => name,
            None => {
                return None;
            },
        };
        let color = self.color;
        Some(HighlightID::new(id, name, color))
    }

    /// The bytes that the identifier text stands for; none where the text
    /// holds nothing but whitespace or does not decode. A text with an odd
    /// number of characters besides its whitespace gets a zero in front of
    /// it. The identifier is marked as not valid where there are no bytes;
    /// its mark stays otherwise.
    pub fn validate_id(&mut self) -> (out: Option<Vec<u8>>)
        ensures
            match out {
                Some(bytes) => text_bytes(old(self)@.id, false) == Some(bytes@),
                None => text_bytes(old(self)@.id, false) is None,
            },
            final(self)@ == (HighlightDraftView {
                id: padded_id_text(old(self)@.id),
                id_valid: old(self)@.id_valid && out is Some,
                ..old(self)@
            }),
    {
        let digits = without_whitespace(&chars_of(self.id.as_str()));
        if digits.len() == 0 {
            self.id_valid = false;
            return None;
        }
        if digits.len() % 2 != 0 {
            let mut padded = "0".to_string();
            padded.append(self.id.as_str());
            proof {
                reveal_strlit("0");
                assert("0"@ =~= seq!['0']);
            }
            self.id = padded;
        }
        match decode_padded(&digits) {
            Some(id) => Some(id),
            None => {
                self.id_valid = false;
                None
            },
        }
    }

    /// The name, where it is not empty. An empty name is marked as not
    /// valid; the mark stays otherwise.
    pub fn validate_name(&mut self) -> (out: Option<String>)
        ensures
            match out {
                Some(name) => name@ == old(self)@.name && name@.len() > 0,
                None => old(self)@.name.len() == 0,
            },
            final(self)@ == (HighlightDraftView {
                name_valid: old(self)@.name_valid && out is Some,
                ..old(self)@
            }),
    {
        if self.name.as_str().is_empty() {
            self.name_valid = false;
            return None;
        }
        Some(self.name.clone())
    }

    /// Marks both texts as valid.
    pub fn clear_validation(&mut self)
        ensures
            final(self)@ == (HighlightDraftView { id_valid: true, name_valid: true, ..old(self)@ }),
    {
        self.id_valid = true;
        self.name_valid = true;
    }
}

/// The catalogue of highlights, in the order in which they are shown and
/// looked up, with the draft through which it is edited.
pub struct HighlightIDState {
    pub data: Vec<HighlightID>,
    /// The place of the highlight that is being edited, if any.
    pub editing_index: Option<usize>,
    pub edit_state: HighlightIDEditState,
}

impl Default for HighlightIDState {
    fn default() -> (out: Self)
        ensures
            out.wf(),
            out.data@.len() == 0,
            out.editing_index is None,
            out.edit_state@ == fresh_highlight_draft(),
    {
        Self { data: Vec::new(), editing_index: None, edit_state: HighlightIDEditState::default() }
    }
}

impl HighlightIDState {
    /// The highlight that is being edited is one of the catalogue.
    pub open spec fn wf(&self) -> bool {
        self.editing_index matches Some(index) ==> index < self.data.len()
    }

    /// A catalogue with the given highlights, none of them being edited.
    pub fn from_data(data: Vec<HighlightID>) -> (out: Self)
        ensures
            out.wf(),
            out.data == data,
            out.editing_index is None,
            out.edit_state@ == fresh_highlight_draft(),
    {
        Self { data, editing_index: None, edit_state: HighlightIDEditState::default() }
    }

    /// The place of the entry that is being edited, if any.
    pub fn editing_index(&self) -> (out: &Option<usize>)
        ensures
            *out == self.editing_index,
    {
        &self.editing_index
    }

    /// Starts editing the highlight at `index`: the draft shows it.
    pub fn edit(&mut self, index: usize)
        requires
            index < old(self).data.len(),
        ensures
            final(self).wf(),
            final(self).data == old(self).data,
            final(self).editing_index == Some(index),
            final(self).edit_state@ == highlight_draft_of(old(self).data[index as int]@),
    {
        self.editing_index = Some(index);
        self.edit_state = HighlightIDEditState::from_data(&self.data[index]);
    }

    /// Ends an edit. Where a highlight is being edited and the draft is
    /// valid, the highlight that the draft stands for takes the place of the
    /// edited one, and the draft is fresh again. Where the draft is not
    /// valid, it changes as `checked_highlight` says. Where
    /// nothing is being edited, nothing changes.
    pub fn commit(&mut self)
        requires
            old(self).wf(),
        ensures
            final(self).wf(),
            match (old(self).editing_index, draft_highlight(old(self).edit_state@)) {
                (Some(index), Some(highlight)) => {
                    &&& final(self).data.deep_view() == old(self).data.deep_view().update(
                        index as int,
                        highlight,
                    )
                    &&& final(self).editing_index is None
                    &&& final(self).edit_state@ == fresh_highlight_draft()
                },
                (Some(index), None) => {
                    &&& final(self).data == old(self).data
                    &&& final(self).editing_index == Some(index)
                    &&& final(self).edit_state@ == checked_highlight(old(self).edit_state@)
                },
                (None, _) => {
                    &&& final(self).data == old(self).data
                    &&& final(self).editing_index is None
                    &&& final(self).edit_state@ == old(self).edit_state@
                },
            },
    {
        if let Some(index) = self.editing_index {
            match self.edit_state.validate() {
                Some(highlight) => {
                    let ghost before = self.data.deep_view();
                    self.data[index] = highlight;
                    assert(self.data.deep_view() =~= before.update(index as int, highlight@));
                    self.editing_index = None;
                    self.edit_state = HighlightIDEditState::default();
                },
                None => {},
            }
        }
    }

    /// Adds the highlight that the draft stands for at the end of the
    /// catalogue, and makes the draft fresh again. Where the draft is not
    /// valid, the identifier text is padded as `validate_id` does and each
    /// text is marked as it is valid or not. Where a highlight is being
    /// edited, nothing changes. Returns whether a highlight was added.
    pub fn add(&mut self) -> (added: bool)
        requires
            old(self).wf(),
        ensures
            final(self).wf(),
            final(self).editing_index == old(self).editing_index,
            added == (old(self).editing_index is None && draft_highlight(old(self).edit_state@)
                is Some),
            match (old(self).editing_index, draft_highlight(old(self).edit_state@)) {
                (None, Some(highlight)) => {
                    &&& final(self).data.deep_view() == old(self).data.deep_view().push(highlight)
                    &&& final(self).edit_state@ == fresh_highlight_draft()
                },
                (None, None) => {
                    &&& final(self).data == old(self).data
                    &&& final(self).edit_state@ == (HighlightDraftView {
                        id: padded_id_text(old(self).edit_state@.id),
                        id_valid: text_bytes(old(self).edit_state@.id, false) is Some,
                        name_valid: old(self).edit_state@.name.len() > 0,
                        ..old(self).edit_state@
                    })
                },
                (Some(_), _) => {
                    &&& final(self).data == old(self).data
                    &&& final(self).edit_state@ == old(self).edit_state@
                },
            },
    {
        if self.editing_index.is_some() {
            return false;
        }
        let id = self.edit_state.validate_id();
        let name = self.edit_state.validate_name();
        match (id, name) {
            (Some(id), Some(name)) => {
                let ghost before = self.data.deep_view();
                let highlight = HighlightID::new(id, name, self.edit_state.color);
                self.data.push(highlight);
                assert(self.data.deep_view() =~= before.push(highlight@));
                self.edit_state.clear();
                true
            },
            (id, name) => {
                self.edit_state.id_valid = id.is_some();
                self.edit_state.name_valid = name.is_some();
                false
            },
        }
    }

    /// Takes the highlight at `index` out of the catalogue. Where a
    /// highlight is being edited, nothing changes. Returns whether a
    /// highlight was taken out.
    pub fn remove(&mut self, index: usize) -> (removed: bool)
        requires
            old(self).wf(),
            index < old(self).data.len(),
        ensures
            final(self).wf(),
            final(self).editing_index == old(self).editing_index,
            final(self).edit_state == old(self).edit_state,
            removed == (old(self).editing_index is None),
            final(self).data.deep_view() == if removed {
                old(self).data.deep_view().remove(index as int)
            } else {
                old(self).data.deep_view()
            },
    {
        if self.editing_index.is_some() {
            return false;
        }
        let ghost before = self.data.deep_view();
        self.data.remove(index);
        assert(self.data.deep_view() =~= before.remove(index as int));
        true
    }
}

} // verus!
