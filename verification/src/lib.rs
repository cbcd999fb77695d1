//! Decoding, labelling and loading of logged protocol messages.
//!
//! The crate holds the rules of a log-message inspection tool: how the text
//! of a record file becomes messages, how label rules select messages and
//! what part of a payload they expose, how rule and highlight drafts are
//! validated, and how the loader moves between its states.
//!
//! The crate reads no file, starts no thread and draws nothing. Its caller
//! hands it the bytes of a file and what it found when it looked for the
//! outcome of a decoding, and shows what the crate gives back.
//!
//! - `text`, `number`, `hexcodec`, `util`: characters, numbers, hex text.
//! - `message`, `file`: messages, and the decoding of a file into them.
//! - `label`, `filter`, `palette`: labels, the rules that give them, and
//!   signal colours.
//! - `field`, `label_editor`, `highlight_editor`: drafts and catalogues.
//! - `loader`, `state`: the loader and the state of a session.
//! - `laws`: what holds of all of these, whatever the input.

pub mod field;
pub mod file;
pub mod filter;
pub mod hexcodec;
pub mod highlight_editor;
pub mod label;
pub mod label_editor;
pub mod laws;
pub mod loader;
pub mod message;
pub mod number;
pub mod palette;
pub mod state;
pub mod text;
pub mod util;
