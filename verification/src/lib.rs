//! Observable values with change tracking.
//!
//! A [`Watchable`] wraps a value that may change over time, allowing observers
//! to be notified of changes. The design prioritizes the **latest** value over
//! observing every intermediate change.
//!
//! # Variants
//!
//! - [`Watchable<T>`] - General purpose, supports async waiting
//! - [`WatchableLite<T>`] - Minimal overhead, polling only
//! - [`WatchableAtomic<T>`] - For small `Copy` types, lock-free where a primitive
//!   atomic type fits
//! - [`WatchableWithHistory<T>`] - Tracks old/new value pairs
//! - [`WatchableFast<T>`] - Optimized for high-contention writes
//!
//! # Collections
//!
//! - [`WatchableMap<K, V>`] - HashMap with change tracking
//! - [`WatchableVec<T>`] - Vec with change tracking
//! - [`WatchableMapLite<K, V>`] - HashMap, epoch-only
//! - [`WatchableVecLite<T>`] - Vec, epoch-only
//!
//! # How it is verified
//!
//! Each kind of watchable is a state machine behind a lock. The state machines -
//! [`state`] for values, [`log`] for changes, [`notifier`] for epochs, and the
//! operations on the collections in [`vec`] and [`map`] - have exact contracts, and
//! laws that are proved of them. The handles run one step of a state machine while
//! they hold the lock, and their contracts name it, with the predicates of [`sync`]:
//! which function was run, with which argument, behind which lock, and what it gave.
//! What it found behind the lock is up to every thread that shares it. The watchers
//! go by what their weak reference to the source gave, and say so in the same way.
//! Where one thing has to be done after another, a [`sync::Receipt`] for the first is
//! asked for by the second, and the contract names it for both. What an operation does not
//! do, its contract says as well: it lists the steps that it may take on what is shared, and
//! takes no other.
//!
//! The laws are stated from the bottom up. [`operation_laws`] says what each function does
//! that is run behind a lock, [`handle_laws`] and [`watch_laws`] which calls the operations of
//! handles and watchers come to, and [`run_laws`] what a watcher is told of a run of
//! operations. [`log_laws`], [`state_laws`], [`shared_laws`] and [`waiting_laws`] are about many
//! threads at once, [`settle_laws`] and [`combine_laws`] about watchers and what is made of
//! them, and [`derive_laws`] about the derive.
//!
//! # Example
//!
//! ```
//! use watchable_rs::{Watchable, Watcher};
//!
//! let watchable = Watchable::new(42);
//! let mut watcher = watchable.watch();
//!
//! assert_eq!(watcher.get(), 42);
//!
//! watchable.set(100);
//! assert!(watcher.has_changed());
//! assert_eq!(watcher.get(), 100);
//! ```
//!
//! Pairing watchers takes the trait [`Pair`], and waiting for a value that may still be
//! missing takes [`OptionWatcher`]:
//!
//! ```
//! use watchable_rs::{OptionWatcher, Pair, Watchable, Watcher};
//!
//! let width = Watchable::new(2);
//! let height = Watchable::new(3);
//! let mut area = width.watch().and(height.watch()).map(|(w, h)| w * h);
//! height.set(5);
//! assert!(area.has_changed());
//! assert_eq!(area.get(), 10);
//!
//! let name = Watchable::new(Some("watchable"));
//! let mut watcher = name.watch();
//! let initialized = watcher.initialized();
//! ```
pub mod arc;
pub mod atomic;
pub mod cell;
pub mod change;
pub mod change_watcher;
pub mod combine;
pub mod combine_laws;
pub mod derive;
pub mod derive_input;
pub mod derive_laws;
pub mod epoch;
pub mod epoch_watcher;
pub mod error;
pub mod fast;
pub mod handle_laws;
pub mod history;
pub mod history_value;
pub mod join;
pub mod lite;
pub mod lite_laws;
pub mod lite_map;
pub mod lite_vec;
pub mod log;
pub mod log_laws;
pub mod map;
pub mod notifier;
pub mod operation_laws;
pub mod queue;
pub mod readback_laws;
pub mod rebuild_laws;
pub mod run_laws;
pub mod settle_laws;
pub mod shared;
pub mod shared_laws;
pub mod state;
pub mod state_laws;
pub mod sync;
pub mod value;
pub mod vec;
pub mod waiting_laws;
pub mod watch_laws;
pub mod watcher;

pub use crate::arc::{InsertArc, PushArc, WatchableMapArc, WatchableVecArc};
pub use crate::atomic::{DirectAtomic, WatchableAtomic};
pub use crate::change::{MapChange, ValueChange, VecChange};
pub use crate::change_watcher::{ChangeStream, ChangeWatcher, NextChangesFut};
pub use crate::combine::{And, Mapped, Pair};
pub use crate::derive::{derive_watchable, DeriveError};
pub use crate::epoch_watcher::{EpochChangedFut, EpochWatcher};
pub use crate::error::Disconnected;
pub use crate::fast::{DirectFast, WatchableFast};
pub use crate::history_value::WatchableWithHistory;
pub use crate::join::Join;
pub use crate::lite::{DirectLite, WatchableLite};
pub use crate::lite_map::WatchableMapLite;
pub use crate::lite_vec::WatchableVecLite;
pub use crate::map::WatchableMap;
pub use crate::value::{Direct, Watchable};
pub use crate::vec::WatchableVec;
pub use crate::watcher::{InitializedFut, OptionWatcher, UpdatedFut, WatchStream, Watcher};
