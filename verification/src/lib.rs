//! Time-based one-time codes for several named tabs that share one clock.
//!
//! A tab holds a secret as the user typed it. [`key`] turns such a text into
//! the bytes of a key, whatever the text; [`code`] derives from the key the
//! code of a moment and the seconds for which it stays valid. [`store`]
//! keeps the tabs and handles the events of [`event`]: what the user does,
//! the ticks of the clock, and the answers of the clipboard. [`model`]
//! states what each event does, and [`laws`] what follows for every state.

pub mod code;
pub mod display;
pub mod event;
pub mod key;
pub mod laws;
pub mod model;
pub mod store;
pub mod tab;
pub mod text;

pub use crate::code::Failure;
pub use crate::event::{ClipboardReply, Command, Message};
pub use crate::store::TotpGenerator;
pub use crate::tab::{Notice, Tab};
