//! Control of laboratory instruments over a line-oriented text protocol.
//!
//! The crate keeps the registry of connected instruments and decides every
//! step of a session: how an address is turned into a connection target,
//! which handle a new connection gets, to which connection a command is
//! routed, what is written on the wire and how the reply line is read.
//! It performs no input or output itself. The caller opens and closes the
//! streams, writes the requests and reads the reply lines, and hands each
//! outcome back to the registry.
//!
//! A session runs like this:
//!
//! 1. `Env::dial` reads an address and says what to open.
//! 2. The caller opens it and tells `Env::connect` how that ended, which
//!    gives a `Device`, the handle of the new transport.
//! 3. `Env::scpi` turns a handle and a command into an `Exchange`: the text
//!    to write and the connection to write it on.
//! 4. The caller writes the text, reads one line and hands it to
//!    `Exchange::reply`, which gives the reply.
//! 5. `Env::disconnect` vacates the slot and names the connection to close.
//!
//! The caller must let no two of these steps overlap: one lock around the
//! registry and its streams, held from the start of a step to the end of
//! the input and output that belongs to it, keeps at most one command in
//! flight.

pub mod address;
pub mod error;
pub mod laws;
pub mod registry;
pub mod slots;
pub mod text;
pub mod transport;
pub mod verbs;

pub use address::Address;
pub use error::{ErrorKind, SkippyError};
pub use registry::{Device, Env, Registry};
pub use transport::{Adapter, Dial, Exchange, Handshake, TcpPhy, BANNER_LIMIT};
