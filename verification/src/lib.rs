//! A sans-I/O engine for controlling LIFX lights on the local network.
//!
//! The crate holds the protocol decisions of a LAN client: which datagram a
//! request becomes, which pending request a reply belongs to, what a
//! discovery reply means, and which commands an effect or a scripted sequence
//! issues.  Sockets, timers and tasks live with the caller.
//!
//! - [`wire`]: the boundary to the codec, and where the addressing fields of
//!   a datagram lie.
//! - [`light`]: the connection to one light, which numbers the requests and
//!   matches the replies to them.
//! - [`discovery`]: what the replies to the broadcast query mean.
//! - [`effect`], [`command`], [`sequencer`]: effects and sequences, the
//!   commands they consist of, and the cursor that runs them in order.

pub mod command;
pub mod discovery;
pub mod effect;
pub mod error;
pub mod light;
pub mod sequencer;
pub mod wire;

pub use error::Error;
pub use lifx_core::Message;
pub use light::Light;
