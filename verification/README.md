# watchable

Observable values with change tracking and async support for Rust, verified with Verus.

A `Watchable` wraps a value that may change over time, allowing observers to be notified of
changes. The design prioritizes the **latest** value over observing every intermediate change.

| Type | Use case |
|------|----------|
| `Watchable<T>` | General purpose, full async support |
| `WatchableLite<T>` | Minimal overhead, polling only |
| `WatchableAtomic<T>` | Small `Copy` types (up to 8 bytes), lock-free where a primitive atomic type fits |
| `WatchableFast<T>` | Optimized for high-contention writes |
| `WatchableWithHistory<T>` | Tracks old/new value pairs |
| `WatchableMap<K, V>` | HashMap with change tracking |
| `WatchableVec<T>` | Vec with change tracking |
| `WatchableMapLite<K, V>` | HashMap, epoch-only |
| `WatchableVecLite<T>` | Vec, epoch-only |

```rust
use watchable_rs::{Watchable, Watcher};

let watchable = Watchable::new(42);
let mut watcher = watchable.watch();

assert_eq!(watcher.get(), 42);

watchable.set(100);
assert!(watcher.has_changed());
assert_eq!(watcher.get(), 100);
```

Pairing watchers and waiting for a value that may still be missing come with traits of their own,
`Pair` and `OptionWatcher`:

```rust
use watchable_rs::{OptionWatcher, Pair, Watchable, Watcher};

let width = Watchable::new(2);
let height = Watchable::new(3);
let mut area = width.watch().and(height.watch()).map(|(w, h)| w * h);
height.set(5);
assert!(area.has_changed());
assert_eq!(area.get(), 10);

let name = Watchable::new(Some("watchable"));
let mut watcher = name.watch();
let initialized = watcher.initialized();
```

## Layout

- `src/` is the verified library. The state machines (`state`, `log`, `notifier`, and the
  operations in `vec`, `map` and `history_value`) have exact contracts. The handles run one step of
  a state machine behind a lock, and their contracts name it: which function was run with which
  argument behind which lock, what it gave, and, by receipts, what was done before what.
  The laws are in `state_laws`, `shared_laws`, `lite_laws`, `log_laws`, `waiting_laws`,
  `settle_laws`, `readback_laws`, `rebuild_laws`, `combine_laws` and `derive_laws`.
  `sync`, `queue`, `atomic` and `derive_input` hold all that is taken on trust: locks, wakers, weak
  references, `crossbeam`'s queue and cell, and `syn`.
- `tests/` runs the library with the crates it rests on.
- `app/` is what stands around it: `Display` for the error, operations that panic where an index is
  out of bounds or a type is too large, and the shell of the derive macro.
