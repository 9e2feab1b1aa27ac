//! Interaction core of a menu-driven terminal chat client.
//!
//! The crate owns the pieces of the client whose behaviour is worth
//! stating precisely: the key/tick event model, the mode and menu state
//! machine with its list cursors and edit buffer, the FIFO event channel
//! between the input producer and the core, and the producer's tick
//! bookkeeping. Terminal handling, rendering and the network transport
//! live outside and talk to the core through plain values.

pub mod channel;
pub mod editor;
pub mod events;
pub mod laws;
pub mod producer;
pub mod records;
pub mod state;

pub use channel::EventQueue;
pub use events::{Event, Key};
pub use producer::TickClock;
pub use state::{Core, Effect, MenuItem, Mode};
