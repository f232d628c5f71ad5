//! Server-authoritative state synchronisation for a small multiplayer game.
//!
//! The server owns a [`StateManager`]: the table of living beings and the
//! revision counter that orders every committed mutation. Player actions and
//! simulation ticks mutate it through `&mut`, so two mutations never
//! interleave. A [`BroadcastSession`] decides, event by event, when a snapshot
//! of that state is pushed to one client, and a [`ClientStateCache`] folds the
//! snapshots a client receives into its local mirror.
//!
//! Everything here is plain data and sequential code. Locks, timers, queues
//! and the transport belong to the program around the library.

pub mod action;
pub mod being;
pub mod cache;
pub mod laws;
pub mod session;
pub mod sprite;
pub mod state;
pub mod table;
pub mod text;

pub use action::{Action, ActionResult, GameError, Spell};
pub use being::{Class, LivingBeing, Position};
pub use cache::{CachedBeing, ClientStateCache, Presentation};
pub use session::{BroadcastSession, SessionAction, SessionEvent, SessionState, Termination};
pub use sprite::{Size, SpriteDef};
pub use state::{GameStateResponse, StateManager};
pub use table::EntityTable;
