//! A keystroke relay for a remote text editor: it frames requests, reads
//! replies, retries within a bound and turns key presses into calls.
//!
//! The crate holds no socket. A request leaves it as bytes and a reply comes
//! back as what the host received for them, either step by step
//! ([`keybinds::KeyListener::listen`], [`keybinds::KeyListener::resume`]) or
//! through a function of the host's that makes one exchange
//! ([`keybinds::KeyListener::dispatch`], [`session::Session::call`]).
//!
//! Reading and writing MessagePack is left to `rmpv`, behind [`msgpack`].

pub mod batch;
pub mod codec;
pub mod dispatch;
pub mod error;
pub mod keybinds;
pub mod msgpack;
pub mod query;
pub mod retry;
pub mod session;
pub mod text;
pub mod timer;
pub mod ui;
pub mod value;
