//! The whole state of a session, and the part of it that is kept between
//! sessions.

use vstd::prelude::*;
use crate::filter::{LabelFilter, LabelFilterView};
use crate::highlight_editor::{fresh_highlight_draft, HighlightIDState};
use crate::label_editor::{fresh_draft, FilterLabelState};
use crate::loader::{LoaderStateView, MessageLoader};
use crate::message::{HighlightID, HighlightIDView};
use crate::util::opt_text;

verus! {

/// What is kept between sessions: the chosen file and the two catalogues.
pub struct Config {
    pub file_path: Option<String>,
    pub highlight_ids: Vec<HighlightID>,
    pub label_filters: Vec<LabelFilter>,
}

/// What a `Config` holds.
pub struct ConfigView {
    pub file_path: Option<Seq<char>>,
    pub highlight_ids: Seq<HighlightIDView>,
    pub label_filters: Seq<LabelFilterView>,
}

impl View for Config {
    type V = ConfigView;

    open spec fn view(&self) -> ConfigView {
        ConfigView {
            file_path: opt_text(self.file_path),
            highlight_ids: self.highlight_ids.deep_view(),
            label_filters: self.label_filters.deep_view(),
        }
    }
}

impl Config {
    /// What is kept, from its three parts.
    pub fn new(
        file_path: Option<String>,
        highlight_ids: Vec<HighlightID>,
        filter_labels: Vec<LabelFilter>,
    ) -> (out: Self)
        ensures
            out.file_path == file_path,
            out.highlight_ids == highlight_ids,
            out.label_filters == filter_labels,
    {
        Self { file_path, highlight_ids, label_filters: filter_labels }
    }
}

/// A copy of the highlights.
pub fn copy_highlights(highlights: &Vec<HighlightID>) -> (out: Vec<HighlightID>)
    ensures
        out.deep_view() == highlights.deep_view(),
{
    let mut out: Vec<HighlightID> = Vec::new();
    let mut i: usize = 0;
    while i < highlights.len()
        invariant
            i <= highlights.len(),
            out.deep_view() == highlights.deep_view().take(i as int),
        decreases highlights.len() - i,
    {
        let ghost before = out.deep_view();
        let item = highlights[i].clone();
        out.push(item);
        assert(out.deep_view() =~= before.push(item@));
        assert(highlights.deep_view().take(i + 1) =~= before.push(highlights.deep_view()[i as int]));
        i += 1;
    }
    assert(highlights.deep_view().take(highlights.len() as int) =~= highlights.deep_view());
    out
}

/// A copy of the bindings.
pub fn copy_bindings(bindings: &Vec<LabelFilter>) -> (out: Vec<LabelFilter>)
    ensures
        out.deep_view() == bindings.deep_view(),
{
    let mut out: Vec<LabelFilter> = Vec::new();
    let mut i: usize = 0;
    while i < bindings.len()
        invariant
            i <= bindings.len(),
            out.deep_view() == bindings.deep_view().take(i as int),
        decreases bindings.len() - i,
    {
        let ghost before = out.deep_view();
        let item = bindings[i].clone();
        out.push(item);
        assert(out.deep_view() =~= before.push(item@));
        assert(bindings.deep_view().take(i + 1) =~= before.push(bindings.deep_view()[i as int]));
        i += 1;
    }
    assert(bindings.deep_view().take(bindings.len() as int) =~= bindings.deep_view());
    out
}

/// The state of a session: the loader and the two catalogues with their
/// drafts.
pub struct TableGui {
    pub message_loader: MessageLoader,
    pub highlight_id_state: HighlightIDState,
    pub filter_label_state: FilterLabelState,
}

/// The loader state that a session starts in: the kept file chosen, or no
/// file.
pub open spec fn starting_state(file_path: Option<Seq<char>>) -> LoaderStateView {
    match file_path {
        Some(path) => LoaderStateView::FileSelected(path),
        None => LoaderStateView::FileNotSelected,
    }
}

impl TableGui {
    /// The loader and the catalogues are well formed.
    pub open spec fn wf(&self) -> bool {
        &&& self.message_loader.wf()
        &&& self.highlight_id_state.wf()
        &&& self.filter_label_state.wf()
    }

    /// What of the session is kept: the file that the loader is about and
    /// the two catalogues.
    pub open spec fn kept(&self) -> ConfigView {
        ConfigView {
            file_path: self.message_loader@.state.file_path(),
            highlight_ids: self.highlight_id_state.data.deep_view(),
            label_filters: self.filter_label_state.data.deep_view(),
        }
    }

    /// Nothing is being edited and both drafts are fresh.
    pub open spec fn idle(&self) -> bool {
        &&& self.highlight_id_state.editing_index is None
        &&& self.highlight_id_state.edit_state@ == fresh_highlight_draft()
        &&& self.filter_label_state.editing_index is None
        &&& self.filter_label_state.edit_state@ == fresh_draft()
    }

    /// A session with no file chosen and empty catalogues.
    pub fn new() -> (out: Self)
        ensures
            out.wf(),
            out.idle(),
            out.message_loader@.state == LoaderStateView::FileNotSelected,
            out.kept() == (ConfigView {
                file_path: None,
                highlight_ids: Seq::empty(),
                label_filters: Seq::empty(),
            }),
    {
        let out = Self {
            message_loader: MessageLoader::new(),
            highlight_id_state: HighlightIDState::default(),
            filter_label_state: FilterLabelState::default(),
        };
        assert(out.highlight_id_state.data.deep_view() =~= Seq::empty());
        assert(out.filter_label_state.data.deep_view() =~= Seq::empty());
        out
    }

    /// The session that starts from what was kept: the kept file is chosen
    /// and waits to be loaded, and the catalogues are the kept ones.
    pub fn from_config(config: Config) -> (out: Self)
        ensures
            out.wf(),
            out.idle(),
            out.message_loader@.state == starting_state(config@.file_path),
            out.kept() == config@,
    {
        Self {
            message_loader: match config.file_path {
                Some(path) => MessageLoader::from_path(path),
                None => MessageLoader::new(),
            },
            highlight_id_state: HighlightIDState::from_data(config.highlight_ids),
            filter_label_state: FilterLabelState::from_data(config.label_filters),
        }
    }

    /// What is to be kept of the session as it is now.
    pub fn save_state(&self) -> (out: Config)
        ensures
            out@ == self.kept(),
    {
        let file_path = match self.message_loader.file_path() {
            Some(path) => Some(path.clone()),
            None => None,
        };
        Config::new(
            file_path,
            copy_highlights(&self.highlight_id_state.data),
            copy_bindings(&self.filter_label_state.data),
        )
    }
}

} // verus!
