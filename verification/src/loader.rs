//! The loader: from a chosen file to its messages, one step at a time.
//!
//! The loader neither reads files nor waits. Its owner starts the decoding
//! when the loader says so, looks once per cycle for what the decoding has
//! posted, and hands that to the loader.

use vstd::prelude::*;
use crate::field::ParseError;
use crate::file::{file_messages, parse_file, Progress};
use crate::message::{Message, MessageView, Speed};
use crate::util::opt_text;

verus! {

/// Where a load stands.
#[allow(inconsistent_fields)]
pub enum MessageLoaderState {
    FileNotSelected,
    FileSelected(String),
    Loading { progress: Progress, file_path: String },
    Loaded { messages: Vec<Message>, file_path: String },
    Error { file_path: Option<String>, error: Option<String> },
}

/// What a `MessageLoaderState` holds.
#[allow(inconsistent_fields)]
pub enum LoaderStateView {
    FileNotSelected,
    FileSelected(Seq<char>),
    Loading { progress: Progress, file_path: Seq<char> },
    Loaded { messages: Seq<MessageView>, file_path: Seq<char> },
    Error { file_path: Option<Seq<char>>, error: Option<Seq<char>> },
}

impl View for MessageLoaderState {
    type V = LoaderStateView;

    open spec fn view(&self) -> LoaderStateView {
        match self {
            MessageLoaderState::FileNotSelected => LoaderStateView::FileNotSelected,
            MessageLoaderState::FileSelected(path) => LoaderStateView::FileSelected(path@),
            MessageLoaderState::Loading { progress, file_path } => LoaderStateView::Loading {
                progress: *progress,
                file_path: file_path@,
            },
            MessageLoaderState::Loaded { messages, file_path } => LoaderStateView::Loaded {
                messages: messages.deep_view(),
                file_path: file_path@,
            },
            MessageLoaderState::Error { file_path, error } => LoaderStateView::Error {
                file_path: opt_text(*file_path),
                error: opt_text(*error),
            },
        }
    }
}

/// What the owner found when it looked for the outcome of the decoding.
pub enum LoadEvent {
    /// Nothing has been posted yet.
    Pending,
    /// The decoding ended without posting anything.
    Disconnected,
    /// The decoding posted the messages of the file.
    Finished(Vec<Message>),
    /// The decoding posted that the file is not valid.
    Invalid,
}

/// What a `LoadEvent` holds.
pub enum LoadEventView {
    Pending,
    Disconnected,
    Finished(Seq<MessageView>),
    Invalid,
}

impl View for LoadEvent {
    type V = LoadEventView;

    open spec fn view(&self) -> LoadEventView {
        match self {
            LoadEvent::Pending => LoadEventView::Pending,
            LoadEvent::Disconnected => LoadEventView::Disconnected,
            LoadEvent::Finished(messages) => LoadEventView::Finished(messages.deep_view()),
            LoadEvent::Invalid => LoadEventView::Invalid,
        }
    }
}

/// What the decoding posts for its result: the messages, or that the file is
/// not valid.
pub fn outcome_of(result: Result<Vec<Message>, ParseError>) -> (out: LoadEvent)
    ensures
        out@ == match result {
            Ok(messages) => LoadEventView::Finished(messages.deep_view()),
            Err(_) => LoadEventView::Invalid,
        },
{
    match result {
        Ok(messages) => LoadEvent::Finished(messages),
        Err(_) => LoadEvent::Invalid,
    }
}

/// What the decoding of a file posts: its messages, or that it is not
/// valid.
pub open spec fn posted(data: Seq<u8>) -> LoadEventView {
    match file_messages(data) {
        Some(messages) => LoadEventView::Finished(messages),
        None => LoadEventView::Invalid,
    }
}

/// Decodes the bytes of a file and gives what is to be posted for it.
pub fn load_file(data: &[u8]) -> (out: LoadEvent)
    ensures
        out@ == posted(data@),
{
    outcome_of(parse_file(data))
}

/// The error of a load whose decoding ended without an outcome.
pub open spec fn ended_text() -> Seq<char> {
    "File load ended unexpectedly"@
}

/// The error of a load whose file is not valid.
pub open spec fn invalid_text() -> Seq<char> {
    "File invalid"@
}

/// The speeds that occur among the messages.
pub open spec fn speeds_of(messages: Seq<MessageView>) -> Set<Seq<char>> {
    Set::new(|speed: Seq<char>| exists|i: int| 0 <= i < messages.len() && messages[i].speed == speed)
}

impl LoaderStateView {
    /// The file that the state is about, if any.
    pub open spec fn file_path(self) -> Option<Seq<char>> {
        match self {
            LoaderStateView::FileNotSelected => None,
            LoaderStateView::FileSelected(path) => Some(path),
            LoaderStateView::Loading { file_path, .. } => Some(file_path),
            LoaderStateView::Loaded { file_path, .. } => Some(file_path),
            LoaderStateView::Error { file_path, .. } => file_path,
        }
    }

    /// How far the load has come: all the way once loaded, as far as was last
    /// reported while loading, nowhere in any other state.
    pub open spec fn progress(self) -> Progress {
        match self {
            LoaderStateView::Loading { progress, .. } => progress,
            LoaderStateView::Loaded { .. } => Progress { done: 1, total: 1 },
            _ => Progress { done: 0, total: 0 },
        }
    }

    /// The state after one cycle in which the owner found `event`. A chosen
    /// file starts loading. A load goes on while nothing is posted, and ends
    /// with what is posted. Every other state stays.
    pub open spec fn next(self, event: LoadEventView) -> LoaderStateView {
        match self {
            LoaderStateView::FileSelected(path) => LoaderStateView::Loading {
                progress: Progress { done: 0, total: 0 },
                file_path: path,
            },
            LoaderStateView::Loading { progress, file_path } => match event {
                LoadEventView::Pending => self,
                LoadEventView::Disconnected => LoaderStateView::Error {
                    file_path: Some(file_path),
                    error: Some(ended_text()),
                },
                LoadEventView::Finished(messages) => LoaderStateView::Loaded { messages, file_path },
                LoadEventView::Invalid => LoaderStateView::Error {
                    file_path: Some(file_path),
                    error: Some(invalid_text()),
                },
            },
            _ => self,
        }
    }

    /// The state after the owner has chosen another file, or none.
    pub open spec fn replaced(file_path: Option<Seq<char>>) -> LoaderStateView {
        match file_path {
            None => LoaderStateView::FileNotSelected,
            Some(path) => LoaderStateView::FileSelected(path),
        }
    }
}

impl MessageLoaderState {
    fn file_path(&self) -> (out: Option<&String>)
        ensures
            match out {
                Some(path) => self@.file_path() == Some(path@),
                None => self@.file_path() is None,
            },
    {
        match self {
            MessageLoaderState::FileNotSelected => None,
            MessageLoaderState::FileSelected(file_path) => Some(file_path),
            MessageLoaderState::Loading { file_path, .. } => Some(file_path),
            MessageLoaderState::Loaded { file_path, .. } => Some(file_path),
            MessageLoaderState::Error { file_path, .. } => file_path.as_ref(),
        }
    }
}

/// The loader of one file at a time, with the speeds seen in the last file
/// that it loaded.
pub struct MessageLoader {
    state: MessageLoaderState,
    known_speeds: Vec<Speed>,
}

/// What a `MessageLoader` holds.
pub struct MessageLoaderView {
    pub state: LoaderStateView,
    pub known_speeds: Set<Seq<char>>,
}

impl MessageLoaderView {
    /// The loader after one cycle in which the owner found `event`: the
    /// state moves on; the known speeds become those of the messages where
    /// a load ends with messages, and stay otherwise.
    pub open spec fn next(self, event: LoadEventView) -> MessageLoaderView {
        MessageLoaderView {
            state: self.state.next(event),
            known_speeds: if self.state is Loading && event is Finished {
                speeds_of(event->Finished_0)
            } else {
                self.known_speeds
            },
        }
    }

    /// The file whose decoding the owner has to start in this cycle, if any.
    pub open spec fn to_start(self) -> Option<Seq<char>> {
        match self.state {
            LoaderStateView::FileSelected(path) => Some(path),
            _ => None,
        }
    }
}

/// Whether `text` is one of `list`.
fn contains_text(list: &Vec<Speed>, text: &String) -> (out: bool)
    ensures
        out == list.deep_view().contains(text@),
{
    let mut i: usize = 0;
    while i < list.len()
        invariant
            i <= list.len(),
            forall|j: int| 0 <= j < i ==> list.deep_view()[j] != text@,
        decreases list.len() - i,
    {
        if list[i] == *text {
            assert(list.deep_view()[i as int] == text@);
            return true;
        }
        i += 1;
    }
    false
}

/// The speeds that occur among the messages, each once, in the order in
/// which they first occur.
pub fn distinct_speeds(messages: &Vec<Message>) -> (out: Vec<Speed>)
    ensures
        out.deep_view().no_duplicates(),
        out.deep_view().to_set() == speeds_of(messages.deep_view()),
{
    let mut out: Vec<Speed> = Vec::new();
    let mut i: usize = 0;
    while i < messages.len()
        invariant
            i <= messages.len(),
            out.deep_view().no_duplicates(),
            forall|speed: Seq<char>| #[trigger]
                out.deep_view().contains(speed) <==> exists|j: int|
                    0 <= j < i && messages.deep_view()[j].speed == speed,
        decreases messages.len() - i,
    {
        let ghost before = out.deep_view();
        let speed = &messages[i].speed;
        assert(messages.deep_view()[i as int].speed == speed@);
        if !contains_text(&out, speed) {
            out.push(speed.clone());
            assert(out.deep_view() =~= before.push(speed@));
            assert forall|text: Seq<char>| #[trigger]
                out.deep_view().contains(text) <==> exists|j: int|
                    0 <= j < i + 1 && messages.deep_view()[j].speed == text by {
                if out.deep_view().contains(text) {
                    let k = choose|k: int| 0 <= k < out.deep_view().len() && out.deep_view()[k] == text;
                    if k < before.len() {
                        assert(before[k] == text);
                        assert(before.contains(text));
                    } else {
                        assert(messages.deep_view()[i as int].speed == text);
                    }
                }
                if exists|j: int| 0 <= j < i + 1 && messages.deep_view()[j].speed == text {
                    let j = choose|j: int| 0 <= j < i + 1 && messages.deep_view()[j].speed == text;
                    if j < i {
                        assert(before.contains(text));
                        let k = choose|k: int| 0 <= k < before.len() && before[k] == text;
                        assert(out.deep_view()[k] == text);
                    } else {
                        assert(out.deep_view()[before.len() as int] == text);
                    }
                }
            }
        } else {
            assert forall|text: Seq<char>| #[trigger]
                out.deep_view().contains(text) <==> exists|j: int|
                    0 <= j < i + 1 && messages.deep_view()[j].speed == text by {
                if exists|j: int| 0 <= j < i + 1 && messages.deep_view()[j].speed == text {
                    let j = choose|j: int| 0 <= j < i + 1 && messages.deep_view()[j].speed == text;
                    if j == i {
                        assert(text == speed@);
                    }
                }
            }
        }
        i += 1;
    }
    assert(out.deep_view().to_set() =~= speeds_of(messages.deep_view()));
    out
}

impl View for MessageLoader {
    type V = MessageLoaderView;

    closed spec fn view(&self) -> MessageLoaderView {
        MessageLoaderView {
            state: self.state@,
            known_speeds: self.known_speeds.deep_view().to_set(),
        }
    }
}

impl MessageLoader {
    /// No speed is known twice.
    pub closed spec fn wf(&self) -> bool {
        self.known_speeds.deep_view().no_duplicates()
    }

    /// A loader with no file chosen and no speed known.
    pub fn new() -> (out: Self)
        ensures
            out.wf(),
            out@.state == LoaderStateView::FileNotSelected,
            out@.known_speeds == Set::<Seq<char>>::empty(),
    {
        let out = Self { state: MessageLoaderState::FileNotSelected, known_speeds: Vec::new() };
        assert(out.known_speeds.deep_view().to_set() =~= Set::<Seq<char>>::empty());
        out
    }

    /// Where the load stands.
    pub fn state(&self) -> (out: &MessageLoaderState)
        ensures
            out@ == self@.state,
    {
        &self.state
    }

    /// A loader with the given file chosen and no speed known.
    pub fn from_path(file_path: String) -> (out: Self)
        ensures
            out.wf(),
            out@.state == LoaderStateView::FileSelected(file_path@),
            out@.known_speeds == Set::<Seq<char>>::empty(),
    {
        let out = Self {
            state: MessageLoaderState::FileSelected(file_path),
            known_speeds: Vec::new(),
        };
        assert(out.known_speeds.deep_view().to_set() =~= Set::<Seq<char>>::empty());
        out
    }

    /// The file that the loader is about, if any.
    pub fn file_path(&self) -> (out: Option<&String>)
        ensures
            match out {
                Some(path) => self@.state.file_path() == Some(path@),
                None => self@.state.file_path() is None,
            },
    {
        self.state.file_path()
    }

    /// Chooses another file, or none. Whatever was loading or loaded is
    /// given up.
    pub fn replace_file_path(&mut self, file_path: Option<String>)
        requires
            old(self).wf(),
        ensures
            final(self).wf(),
            final(self)@.state == LoaderStateView::replaced(opt_text(file_path)),
            final(self)@.known_speeds == old(self)@.known_speeds,
    {
        match file_path {
            None => self.state = MessageLoaderState::FileNotSelected,
            Some(path) => self.state = MessageLoaderState::FileSelected(path),
        }
    }

    /// How far the load has come.
    pub fn loading_progress(&self) -> (out: Progress)
        ensures
            out == self@.state.progress(),
    {
        match &self.state {
            MessageLoaderState::Loading { progress, .. } => *progress,
            MessageLoaderState::Loaded { .. } => Progress::complete(),
            _ => Progress::none(),
        }
    }

    /// Takes note, while loading, of how far the decoding has come. In any
    /// other state nothing changes.
    pub fn update_progress(&mut self, progress: Progress)
        requires
            old(self).wf(),
        ensures
            final(self).wf(),
            final(self)@.known_speeds == old(self)@.known_speeds,
            final(self)@.state == match old(self)@.state {
                LoaderStateView::Loading { file_path, .. } => LoaderStateView::Loading {
                    progress,
                    file_path,
                },
                state => state,
            },
    {
        match &mut self.state {
            MessageLoaderState::Loading { progress: current, .. } => {
                *current = progress;
            },
            _ => {},
        }
    }

    /// The speeds seen in the last file that was loaded, each once.
    pub fn known_speeds(&self) -> (out: &Vec<Speed>)
        requires
            self.wf(),
        ensures
            out.deep_view().no_duplicates(),
            out.deep_view().to_set() == self@.known_speeds,
    {
        &self.known_speeds
    }

    /// Ends whatever the loader was doing with the given error, about the
    /// file that it was about.
    pub fn set_error(&mut self, error: String)
        requires
            old(self).wf(),
        ensures
            final(self).wf(),
            final(self)@.known_speeds == old(self)@.known_speeds,
            final(self)@.state == (LoaderStateView::Error {
                file_path: old(self)@.state.file_path(),
                error: Some(error@),
            }),
    {
        let file_path = match self.state.file_path() {
            Some(path) => Some(path.clone()),
            None => None,
        };
        self.state = MessageLoaderState::Error { file_path, error: Some(error) };
    }

    /// One cycle of the loader. `event` is what the owner found when it
    /// looked for the outcome of the decoding; it counts only while loading.
    /// Returns the file whose decoding the owner has to start now, if any.
    pub fn handle_file_loading(&mut self, event: LoadEvent) -> (start: Option<String>)
        requires
            old(self).wf(),
        ensures
            final(self).wf(),
            final(self)@ == old(self)@.next(event@),
            opt_text(start) == old(self)@.to_start(),
    {
        let mut state = MessageLoaderState::FileNotSelected;
        std::mem::swap(&mut self.state, &mut state);
        match state {
            MessageLoaderState::FileSelected(file_path) => {
                let start = file_path.clone();
                self.state = MessageLoaderState::Loading { progress: Progress::none(), file_path };
                Some(start)
            },
            MessageLoaderState::Loading { progress, file_path } => {
                match event {
                    LoadEvent::Pending => {
                        self.state = MessageLoaderState::Loading { progress, file_path };
                    },
                    LoadEvent::Disconnected => {
                        self.state = MessageLoaderState::Error {
                            file_path: Some(file_path),
                            error: Some("File load ended unexpectedly".to_string()),
                        };
                    },
                    LoadEvent::Finished(messages) => {
                        self.known_speeds = distinct_speeds(&messages);
                        self.state = MessageLoaderState::Loaded { messages, file_path };
                    },
                    LoadEvent::Invalid => {
                        self.state = MessageLoaderState::Error {
                            file_path: Some(file_path),
                            error: Some("File invalid".to_string()),
                        };
                    },
                }
                None
            },
            other => {
                self.state = other;
                None
            },
        }
    }
}

} // verus!
