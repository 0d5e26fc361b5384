//! A blocking channel with many producers and one consumer.
pub mod handle;
pub mod history;
pub mod state;
pub mod sync;
pub mod text;

pub use crate::handle::channel;
pub use crate::handle::Receiver;
pub use crate::handle::Sender;
