//! The shared-memory primitives that the watchables are built on.
//!
//! Everything here is a thin layer over `parking_lot` locks, `std::sync::Weak`
//! and `std::task`. A lock hands its content, and one argument, to a verified
//! function. What the content is at that moment is up to every thread that shares
//! the lock, so the wrappers only say that the function was run, once, on some
//! content.
//!
//! The contracts of the handles and watchers are written with the predicates that
//! go with the wrappers: [`reads`] and [`writes`] for a reader-writer lock,
//! [`Guarded::locks`] for a mutex, [`WeakRef::gives`] for a weak reference, [`woke`]
//! for a waker. Each of them names one call: this lock, this argument, this function,
//! this result. It holds of what a call of the wrapper may return for these
//! arguments. Which result that is, is up to every thread; what the function makes of
//! the content that it is lent is in the contract of that function.
//!
//! Where one thing has to be done after another, the first one gives a [`Receipt`] and
//! the second one asks for it. A contract that names the same receipt for both says in
//! which order they were done.
//!
//! A contract of that kind says what was done. What was *not* done, it says in its
//! `opens_invariants` clause. There are no invariants to open here: the names in such a
//! clause stand for steps. [`write_step`] names the running of one function with one
//! argument behind one lock, [`Guarded::step`] the running of one function behind one mutex.
//! A function that lists some of them takes no other step, whatever it calls, since Verus
//! refuses a call that lists more than its caller does. A function that lists `none` changes
//! nothing that is shared: it reads, or wakes tasks that were handed to it. The exception is
//! what a destructor does, which has to list `none`: it takes a [`Farewell`], which nobody
//! else can lend. What the caller's own code does - how a value is cloned or compared, a
//! closure - is not accounted for: it must open no invariants itself.
use std::collections::VecDeque;
use std::pin::Pin;
use std::sync::{Arc, Weak};
use std::task::{Context, Poll, Waker};

use parking_lot::{Mutex, RwLock};
use vstd::pervasive::strictly_cloned;
use vstd::prelude::*;

verus! {

/// `parking_lot`'s reader-writer lock, before its raw lock is chosen.
#[verifier::external_type_specification]
#[verifier::external_body]
#[verifier::reject_recursive_types(R)]
#[verifier::reject_recursive_types(T)]
pub struct ExRwLock<R, T: ?Sized>(parking_lot::lock_api::RwLock<R, T>);

/// The raw lock inside [`RwLock`].
#[verifier::external_type_specification]
#[verifier::external_body]
pub struct ExRawRwLock(parking_lot::RawRwLock);

/// `parking_lot`'s mutex, before its raw lock is chosen.
#[verifier::external_type_specification]
#[verifier::external_body]
#[verifier::reject_recursive_types(R)]
#[verifier::reject_recursive_types(T)]
pub struct ExMutex<R, T: ?Sized>(parking_lot::lock_api::Mutex<R, T>);

/// The raw lock inside [`Mutex`].
#[verifier::external_type_specification]
#[verifier::external_body]
pub struct ExRawMutex(parking_lot::RawMutex);

/// The handle by which a task asks to be polled again.
#[verifier::external_type_specification]
#[verifier::external_body]
pub struct ExWaker(Waker);

/// The context of an asynchronous task.
#[verifier::external_type_specification]
#[verifier::external_body]
pub struct ExContext<'a>(Context<'a>);

/// The outcome of polling.
#[verifier::external_type_specification]
#[verifier::reject_recursive_types(T)]
pub struct ExPoll<T>(Poll<T>);

/// A pinned pointer.
#[verifier::external_type_specification]
#[verifier::external_body]
#[verifier::reject_recursive_types(Ptr)]
pub struct ExPin<Ptr>(Pin<Ptr>);

/// `RwLock::new`: an unlocked reader-writer lock around `content`.
#[verifier::external_body]
fn rwlock_new<S>(content: S) -> (lock: RwLock<S>) {
    RwLock::new(content)
}

/// `RwLock::read`: runs `f` with `arg` on the content while other writers are kept out.
///
/// The lock calls `f` exactly once, on whatever the content is at that time, and
/// hands back what `f` returned. It blocks while a writer holds the lock.
#[verifier::external_body]
fn rwlock_read<S, A, R, F: FnOnce(&S, A) -> R>(
    lock: &RwLock<S>,
    arg: A,
    f: F,
) -> (result: R)
    requires
        forall|content: &S| call_requires(f, (content, arg)),
    ensures
        exists|content: &S| call_ensures(f, (content, arg), result),
    opens_invariants none
{
    f(&*lock.read(), arg)
}

/// `RwLock::write`: runs `f` with `arg` on the content while everyone else is kept out.
///
/// The lock calls `f` exactly once, on whatever the content is at that time, keeps
/// what `f` leaves there, and hands back what `f` returned. It blocks while anyone
/// else holds the lock.
#[verifier::external_body]
fn rwlock_write<S, A, R, F: FnOnce(&mut S, A) -> R>(
    lock: &RwLock<S>,
    arg: A,
    f: F,
) -> (result: R)
    requires
        forall|content: &mut S| call_requires(f, (content, arg)),
    ensures
        exists|content: &mut S| call_ensures(f, (content, arg), result),
    opens_invariants [write_step(*lock, arg, f)]
{
    f(&mut *lock.write(), arg)
}

/// A receipt for something that was done to what is shared.
///
/// Nothing is known of a receipt but what it was given for. So where a contract speaks of the
/// receipt for one call as an argument of another, the one was made before the other. A receipt
/// is used up by what asks for it: one change is counted, told or recorded at most once.
pub struct Receipt {
    number: u64,
}

/// A receipt for what was just done.
fn issue() -> (receipt: Receipt)
    opens_invariants none
{
    Receipt { number: 0 }
}

/// What stands for a change that was made: it is used up when the change is counted.
pub trait Evidence {

}

impl Evidence for Receipt {

}

/// The name of a step: running `f` with `arg` on the content of the lock, to change it. The names
/// come from a numbering of which nothing is known, so that no two of them are known to be the
/// same.
pub closed spec fn write_step<S, A, F>(lock: RwLock<S>, arg: A, f: F) -> int {
    arbitrary::<Map<(RwLock<S>, A, F), int>>()[(lock, arg, f)]
}

/// The lock is one that `RwLock::new` gives for `content`.
pub closed spec fn made_with<S>(lock: RwLock<S>, content: S) -> bool {
    call_ensures(rwlock_new::<S>, (content,), lock)
}

/// `RwLock::read` on this lock ran `f` with `arg`, and gave `result`.
pub closed spec fn reads<S, A, R, F: FnOnce(&S, A) -> R>(
    lock: RwLock<S>,
    arg: A,
    f: F,
    result: R,
) -> bool {
    call_ensures(rwlock_read::<S, A, R, F>, (&lock, arg, f), result)
}

/// `RwLock::read` on this lock ran `f` with `arg`, and gave `result`, after what the receipt is
/// for.
pub closed spec fn reads_after<S, A, R, F: FnOnce(&S, A) -> R, P>(
    lock: RwLock<S>,
    arg: A,
    f: F,
    receipt: P,
    result: R,
) -> bool {
    call_ensures(late_read::<S, A, R, F, P>, (&lock, arg, f, receipt), result)
}

/// `RwLock::write` on this lock ran `f` with `arg`, and gave `result`. The receipt is for that.
pub closed spec fn writes<S, A, R, F: FnOnce(&mut S, A) -> R>(
    lock: RwLock<S>,
    arg: A,
    f: F,
    result: R,
    receipt: Receipt,
) -> bool {
    call_ensures(signed_write::<S, A, R, F>, (&lock, arg, f), (result, receipt))
}

/// Reads the lock, after what the receipt is for.
fn late_read<S, A, R, F: FnOnce(&S, A) -> R, P>(
    lock: &RwLock<S>,
    arg: A,
    f: F,
    _receipt: P,
) -> (result: R)
    requires
        forall|content: &S| call_requires(f, (content, arg)),
    ensures
        reads(*lock, arg, f, result),
    opens_invariants none
{
    rwlock_read(lock, arg, f)
}

/// Writes the lock, and gives a receipt for it.
fn signed_write<S, A, R, F: FnOnce(&mut S, A) -> R>(
    lock: &RwLock<S>,
    arg: A,
    f: F,
) -> (signed: (R, Receipt))
    requires
        forall|content: &mut S| call_requires(f, (content, arg)),
    ensures
        call_ensures(rwlock_write::<S, A, R, F>, (lock, arg, f), signed.0),
    opens_invariants [write_step(*lock, arg, f)]
{
    let result = rwlock_write(lock, arg, f);
    (result, issue())
}

/// A reader-writer lock around `content`.
pub(crate) fn new_lock<S>(content: S) -> (lock: RwLock<S>)
    ensures
        made_with(lock, content),
{
    rwlock_new(content)
}

/// Runs `f` with `arg` on the content of the lock, which nobody writes meanwhile.
pub(crate) fn read_with<S, A, R, F: FnOnce(&S, A) -> R>(
    lock: &RwLock<S>,
    arg: A,
    f: F,
) -> (result: R)
    requires
        forall|content: &S| call_requires(f, (content, arg)),
    ensures
        reads(*lock, arg, f, result),
        exists|content: &S| call_ensures(f, (content, arg), result),
    opens_invariants none
{
    rwlock_read(lock, arg, f)
}

/// Runs `f` with `arg` on the content of the lock, after what the receipt is for.
pub(crate) fn read_after<S, A, R, F: FnOnce(&S, A) -> R, P>(
    lock: &RwLock<S>,
    arg: A,
    f: F,
    receipt: P,
) -> (result: R)
    requires
        forall|content: &S| call_requires(f, (content, arg)),
    ensures
        reads_after(*lock, arg, f, receipt, result),
        exists|content: &S| call_ensures(f, (content, arg), result),
    opens_invariants none
{
    late_read(lock, arg, f, receipt)
}

/// Runs `f` with `arg` on the content of the lock, which nobody else gets at meanwhile. Gives a
/// receipt for it.
pub(crate) fn write_with<S, A, R, F: FnOnce(&mut S, A) -> R>(
    lock: &RwLock<S>,
    arg: A,
    f: F,
) -> (signed: (R, Receipt))
    requires
        forall|content: &mut S| call_requires(f, (content, arg)),
    ensures
        writes(*lock, arg, f, signed.0, signed.1),
        exists|content: &mut S| call_ensures(f, (content, arg), signed.0),
    opens_invariants [write_step(*lock, arg, f)]
{
    signed_write(lock, arg, f)
}

/// What reading a lock gives is what the function made of the content that it found.
pub proof fn law_reads<S, A, R, F: FnOnce(&S, A) -> R>(lock: RwLock<S>, arg: A, f: F, result: R)
    requires
        reads(lock, arg, f, result),
    ensures
        exists|content: &S| call_ensures(f, (content, arg), result),
{
}

/// What reading a lock late gives is what reading it gives.
pub proof fn law_reads_after<S, A, R, F: FnOnce(&S, A) -> R, P>(
    lock: RwLock<S>,
    arg: A,
    f: F,
    receipt: P,
    result: R,
)
    requires
        reads_after(lock, arg, f, receipt, result),
    ensures
        reads(lock, arg, f, result),
{
}

/// What writing a lock gives is what the function made of the content that it found.
pub proof fn law_writes<S, A, R, F: FnOnce(&mut S, A) -> R>(
    lock: RwLock<S>,
    arg: A,
    f: F,
    result: R,
    receipt: Receipt,
)
    requires
        writes(lock, arg, f, result, receipt),
    ensures
        exists|content: &mut S| call_ensures(f, (content, arg), result),
{
}

/// To have read, written or made a lock is to have called it.
proof fn law_locks_are_called<S, A, R, F: FnOnce(&S, A) -> R, G: FnOnce(&mut S, A) -> R>(
    lock: RwLock<S>,
    arg: A,
    f: F,
    g: G,
    result: R,
    receipt: Receipt,
    content: S,
)
    ensures
        reads(lock, arg, f, result) ==> call_ensures(
            rwlock_read::<S, A, R, F>,
            (&lock, arg, f),
            result,
        ),
        reads_after(lock, arg, f, receipt, result) ==> call_ensures(
            late_read::<S, A, R, F, Receipt>,
            (&lock, arg, f, receipt),
            result,
        ) && call_ensures(rwlock_read::<S, A, R, F>, (&lock, arg, f), result),
        writes(lock, arg, g, result, receipt) ==> call_ensures(
            signed_write::<S, A, R, G>,
            (&lock, arg, g),
            (result, receipt),
        ) && call_ensures(rwlock_write::<S, A, R, G>, (&lock, arg, g), result),
        made_with(lock, content) ==> call_ensures(rwlock_new::<S>, (content,), lock),
{
}

/// Runs `f` on what is lent to it.
pub fn run_on<S, R, F: FnOnce(&S) -> R>(content: &S, f: F) -> (result: R)
    requires
        call_requires(f, (content,)),
    ensures
        call_ensures(f, (content,), result),
{
    f(content)
}

/// Runs `f` on what is lent to it to change.
pub fn run_on_mut<S, R, F: FnOnce(&mut S) -> R>(content: &mut S, f: F) -> (result: R)
    requires
        forall|lent: &mut S| *lent == *old(content) ==> call_requires(f, (lent,)),
    ensures
        exists|lent: &mut S|
            {
                &&& *lent == *old(content)
                &&& #[trigger] call_ensures(f, (lent,), result)
                &&& *final(lent) == *final(content)
            },
{
    f(content)
}

/// A clone of what is lent.
pub fn clone_of<S: Clone>(content: &S, _nothing: ()) -> (copy: S)
    ensures
        strictly_cloned(*content, copy),
{
    content.clone()
}

/// `Mutex::new`: an unlocked mutex around `content`.
#[verifier::external_body]
fn mutex_new<S>(content: S) -> (lock: Mutex<S>) {
    Mutex::new(content)
}

/// What can be kept behind a [`Guarded`] mutex.
pub trait Kept {
    /// What holds of the content of a mutex that was made with `limit`, whenever nobody is
    /// at it.
    spec fn kept(&self, limit: usize) -> bool;
}

/// A mutex whose content everyone leaves as it has to be.
///
/// The mutex itself is private. It is made around content that is as it has to be, and
/// only lent to functions that leave it so.
#[derive(Debug)]
#[verifier::reject_recursive_types(S)]
pub struct Guarded<S: Kept> {
    lock: Mutex<S>,
    limit: usize,
}

impl<S: Kept> Guarded<S> {
    /// What the mutex was made with.
    pub closed spec fn limit(self) -> usize {
        self.limit
    }

    /// The mutex is one that `Mutex::new` gives for `content`.
    pub closed spec fn made_around(self, content: S) -> bool {
        call_ensures(mutex_new::<S>, (content,), self.lock)
    }

    /// `f` was run with `arg` on content that was as it has to be, and returned `result`.
    pub open spec fn lent_to<A, R, F: FnOnce(&mut S, A) -> R>(
        self,
        arg: A,
        f: F,
        result: R,
    ) -> bool {
        exists|content: &mut S|
            content.kept(self.limit()) && #[trigger] call_ensures(f, (content, arg), result)
    }

    /// `Mutex::lock` on this mutex ran `f` with `arg`, and gave `result`.
    pub closed spec fn locks<A, R, F: FnOnce(&mut S, A) -> R>(
        self,
        arg: A,
        f: F,
        result: R,
    ) -> bool {
        call_ensures(Guarded::<S>::lock::<A, R, F>, (&self, arg, f), result)
    }

    /// `Mutex::lock` on this mutex ran `f` with `arg`, and gave `result`, after what the receipt is
    /// for.
    pub closed spec fn locks_after<A, R, F: FnOnce(&mut S, A) -> R>(
        self,
        arg: A,
        f: F,
        receipt: Receipt,
        result: R,
    ) -> bool {
        call_ensures(Guarded::<S>::late_lock::<A, R, F>, (&self, arg, f, receipt), result)
    }

    /// `Mutex::lock` on this mutex ran `f` with `arg`, and gave `result`. The receipt is for that.
    pub closed spec fn locks_first<A, R, F: FnOnce(&mut S, A) -> R>(
        self,
        arg: A,
        f: F,
        result: R,
        receipt: Receipt,
    ) -> bool {
        call_ensures(Guarded::<S>::signed_lock::<A, R, F>, (&self, arg, f), (result, receipt))
    }

    /// The name of a step: running `f` on the content of the mutex. The names come from a
    /// numbering of which nothing is known, so that no two of them are known to be the same.
    pub closed spec fn step<F>(self, f: F) -> int {
        arbitrary::<Map<(Guarded<S>, F), int>>()[(self, f)]
    }

    /// What locking a mutex late, or with a receipt, gives is what locking it gives.
    pub proof fn law_order<A, R, F: FnOnce(&mut S, A) -> R>(
        self,
        arg: A,
        f: F,
        receipt: Receipt,
        result: R,
    )
        requires
            self.locks_after(arg, f, receipt, result) || self.locks_first(arg, f, result, receipt),
        ensures
            self.locks(arg, f, result),
    {
    }

    /// To have locked or made a mutex is to have called it.
    proof fn law_mutex_is_called<A, R, F: FnOnce(&mut S, A) -> R>(
        self,
        arg: A,
        f: F,
        receipt: Receipt,
        result: R,
        content: S,
    )
        ensures
            self.locks(arg, f, result) ==> call_ensures(
                Guarded::<S>::lock::<A, R, F>,
                (&self, arg, f),
                result,
            ),
            self.locks_after(arg, f, receipt, result) ==> call_ensures(
                Guarded::<S>::late_lock::<A, R, F>,
                (&self, arg, f, receipt),
                result,
            ) && call_ensures(Guarded::<S>::lock::<A, R, F>, (&self, arg, f), result),
            self.locks_first(arg, f, result, receipt) ==> call_ensures(
                Guarded::<S>::signed_lock::<A, R, F>,
                (&self, arg, f),
                (result, receipt),
            ) && call_ensures(Guarded::<S>::lock::<A, R, F>, (&self, arg, f), result),
            self.made_around(content) ==> call_ensures(mutex_new::<S>, (content,), self.lock),
            self.limit() == self.limit,
    {
    }

    /// What locking a mutex gives is what the function made of the content that it found, and
    /// that was as it has to be.
    pub proof fn law_locks<A, R, F: FnOnce(&mut S, A) -> R>(self, arg: A, f: F, result: R)
        requires
            self.locks(arg, f, result),
        ensures
            self.lent_to(arg, f, result),
    {
    }

    /// A mutex around `content`.
    pub(crate) fn new(content: S, limit: usize) -> (guarded: Self)
        requires
            content.kept(limit),
        ensures
            guarded.limit() == limit,
            guarded.made_around(content),
    {
        Guarded { lock: mutex_new(content), limit }
    }

    /// `Mutex::lock`: runs `f` with `arg` on the content while everyone else is kept out.
    ///
    /// The mutex calls `f` exactly once, on whatever the content is at that time, keeps
    /// what `f` leaves there, and hands back what `f` returned. It blocks while anyone
    /// else holds the mutex. The content is as it has to be, since it was so when the
    /// mutex was made and every `f` so far has left it so.
    #[verifier::external_body]
    fn lock<A, R, F: FnOnce(&mut S, A) -> R>(&self, arg: A, f: F) -> (result: R)
        requires
            forall|content: &mut S|
                content.kept(self.limit()) ==> #[trigger] call_requires(f, (content, arg)),
            forall|content: &mut S, answer: R|
                content.kept(self.limit()) && #[trigger] call_ensures(f, (content, arg), answer)
                    ==> final(content).kept(self.limit()),
        ensures
            self.lent_to(arg, f, result),
        opens_invariants [self.step(f)]
    {
        f(&mut *self.lock.lock(), arg)
    }

    /// Runs `f` with `arg` on the content of the mutex, which nobody else gets at meanwhile.
    pub(crate) fn with<A, R, F: FnOnce(&mut S, A) -> R>(&self, arg: A, f: F) -> (result: R)
        requires
            forall|content: &mut S|
                content.kept(self.limit()) ==> #[trigger] call_requires(f, (content, arg)),
            forall|content: &mut S, answer: R|
                content.kept(self.limit()) && #[trigger] call_ensures(f, (content, arg), answer)
                    ==> final(content).kept(self.limit()),
        ensures
            self.locks(arg, f, result),
            self.lent_to(arg, f, result),
        opens_invariants [self.step(f)]
    {
        self.lock(arg, f)
    }

    /// Locks the mutex, after what the receipt is for.
    fn late_lock<A, R, F: FnOnce(&mut S, A) -> R>(
        &self,
        arg: A,
        f: F,
        _receipt: Receipt,
    ) -> (result: R)
        requires
            forall|content: &mut S|
                content.kept(self.limit()) ==> #[trigger] call_requires(f, (content, arg)),
            forall|content: &mut S, answer: R|
                content.kept(self.limit()) && #[trigger] call_ensures(f, (content, arg), answer)
                    ==> final(content).kept(self.limit()),
        ensures
            self.locks(arg, f, result),
        opens_invariants [self.step(f)]
    {
        self.lock(arg, f)
    }

    /// Locks the mutex, and gives a receipt for it.
    fn signed_lock<A, R, F: FnOnce(&mut S, A) -> R>(&self, arg: A, f: F) -> (signed: (R, Receipt))
        requires
            forall|content: &mut S|
                content.kept(self.limit()) ==> #[trigger] call_requires(f, (content, arg)),
            forall|content: &mut S, answer: R|
                content.kept(self.limit()) && #[trigger] call_ensures(f, (content, arg), answer)
                    ==> final(content).kept(self.limit()),
        ensures
            self.locks(arg, f, signed.0),
        opens_invariants [self.step(f)]
    {
        let result = self.lock(arg, f);
        (result, issue())
    }

    /// Runs `f` with `arg` on the content of the mutex, after what the receipt is for.
    pub(crate) fn with_after<A, R, F: FnOnce(&mut S, A) -> R>(
        &self,
        arg: A,
        f: F,
        receipt: Receipt,
    ) -> (result: R)
        requires
            forall|content: &mut S|
                content.kept(self.limit()) ==> #[trigger] call_requires(f, (content, arg)),
            forall|content: &mut S, answer: R|
                content.kept(self.limit()) && #[trigger] call_ensures(f, (content, arg), answer)
                    ==> final(content).kept(self.limit()),
        ensures
            self.locks_after(arg, f, receipt, result),
            self.lent_to(arg, f, result),
        opens_invariants [self.step(f)]
    {
        self.late_lock(arg, f, receipt)
    }

    /// Runs `f` with `arg` on the content of the mutex. Gives a receipt for it.
    pub(crate) fn with_first<A, R, F: FnOnce(&mut S, A) -> R>(
        &self,
        arg: A,
        f: F,
    ) -> (signed: (R, Receipt))
        requires
            forall|content: &mut S|
                content.kept(self.limit()) ==> #[trigger] call_requires(f, (content, arg)),
            forall|content: &mut S, answer: R|
                content.kept(self.limit()) && #[trigger] call_ensures(f, (content, arg), answer)
                    ==> final(content).kept(self.limit()),
        ensures
            self.locks_first(arg, f, signed.0, signed.1),
            self.lent_to(arg, f, signed.0),
        opens_invariants [self.step(f)]
    {
        self.signed_lock(arg, f)
    }
}

impl Kept for VecDeque<Waker> {
    open spec fn kept(&self, limit: usize) -> bool {
        true
    }
}

/// Takes all tasks off the list.
pub fn take_tasks(queued: &mut VecDeque<Waker>, _nothing: ()) -> (taken: VecDeque<Waker>)
    ensures
        taken@ == old(queued)@,
        final(queued)@ == Seq::<Waker>::empty(),
{
    let mut taken = VecDeque::new();
    std::mem::swap(queued, &mut taken);
    taken
}

/// Puts a task at the end of the list.
pub fn add_task(queued: &mut VecDeque<Waker>, waker: Waker)
    ensures
        final(queued)@ == old(queued)@.push(waker),
{
    queued.push_back(waker)
}

/// `Mutex::try_lock`: takes the tasks off the list, or gives `None` where the mutex is held.
///
/// Where the mutex is free, it calls [`take_tasks`] exactly once, on whatever tasks are on
/// the list at that time. It does not block. Destructors call this, and a destructor may not
/// unwind: neither trying a mutex nor exchanging two queues does.
#[verifier::external_body]
fn try_take_tasks(list: &Guarded<VecDeque<Waker>>) -> (taken: Option<VecDeque<Waker>>)
    ensures
        taken matches Some(tasks) ==> list.lent_to((), take_tasks, tasks),
    opens_invariants none
    no_unwind
{
    list.lock.try_lock().map(|mut queued| take_tasks(&mut *queued, ()))
}

/// `Mutex::try_lock` on the list gave `taken`: the tasks that were on it, or nothing if
/// someone else was at it.
pub closed spec fn tries_to_take(
    list: Guarded<VecDeque<Waker>>,
    taken: Option<VecDeque<Waker>>,
) -> bool {
    call_ensures(try_take_tasks, (&list,), taken)
}

/// Takes the tasks off the list, unless someone else is at it.
fn take_tasks_if_free(list: &Guarded<VecDeque<Waker>>) -> (taken: Option<
    VecDeque<Waker>,
>)
    ensures
        tries_to_take(*list, taken),
    opens_invariants none
    no_unwind
{
    try_take_tasks(list)
}

/// To have tried a mutex is to have called it: the tasks that it gave are those that were on the
/// list, and the list is empty after that.
proof fn law_trying_is_a_call(list: Guarded<VecDeque<Waker>>, taken: Option<VecDeque<Waker>>)
    requires
        tries_to_take(list, taken),
    ensures
        call_ensures(try_take_tasks, (&list,), taken),
        taken matches Some(tasks) ==> list.lent_to((), take_tasks, tasks),
{
}

/// `VecDeque::pop_front` on a queue of wakers, with the promise that it does not
/// unwind, which a destructor has to rely on.
#[verifier::external_body]
fn next_waker(queued: &mut VecDeque<Waker>) -> (first: Option<Waker>)
    ensures
        first is Some == (old(queued)@.len() > 0),
        first matches Some(waker) ==> waker == old(queued)@[0] && final(queued)@
            == old(queued)@.drop_first(),
        first is None ==> final(queued)@ == old(queued)@,
    opens_invariants none
    no_unwind
{
    queued.pop_front()
}

/// `Waker::wake`: asks the task behind `waker` to be polled again.
#[verifier::external_body]
fn wake(waker: Waker)
    opens_invariants none
{
    waker.wake()
}

/// `Waker::wake`, for destructors: asks the task behind `waker` to be polled again.
///
/// A destructor may not unwind. This counts on the executor whose waker it is not to panic when
/// it is asked to run a task.
#[verifier::external_body]
fn wake_in_drop(waker: Waker)
    opens_invariants none
    no_unwind
{
    waker.wake()
}

/// `Waker::wake` was called on this waker.
pub closed spec fn woke(waker: Waker) -> bool {
    call_ensures(wake, (waker,), ()) || call_ensures(wake_in_drop, (waker,), ())
}

/// Every one of these wakers was woken.
pub open spec fn woke_all(wakers: Seq<Waker>) -> bool {
    forall|i: int| 0 <= i < wakers.len() ==> woke(#[trigger] wakers[i])
}

/// To have woken a task is to have called its waker.
proof fn law_wakers_are_called(waker: Waker)
    ensures
        woke(waker) ==> call_ensures(wake, (waker,), ()) || call_ensures(
            wake_in_drop,
            (waker,),
            (),
        ),
{
}

/// Whoever woke all tasks of a queue woke each of them.
pub proof fn law_all_are_woken(wakers: Seq<Waker>, i: int)
    requires
        woke_all(wakers),
        0 <= i < wakers.len(),
    ensures
        woke(wakers[i]),
{
}

/// Wakes every queued task, first in, first out.
pub(crate) fn wake_each(queued: VecDeque<Waker>)
    ensures
        woke_all(queued@),
    opens_invariants none
{
    let ghost all = queued@;
    let ghost mut done: int = 0;
    let mut queued = queued;
    loop
        invariant
            0 <= done <= all.len(),
            queued@ == all.skip(done),
            forall|i: int| 0 <= i < done ==> woke(#[trigger] all[i]),
        ensures
            done == all.len(),
        decreases queued@.len(),
    {
        match next_waker(&mut queued) {
            Some(waker) => {
                wake(waker);
                proof {
                    assert(woke(waker));
                    assert(waker == all[done]);
                    done = done + 1;
                }
            },
            None => break,
        }
    }
}

/// Wakes every queued task, first in, first out, from a destructor.
fn wake_each_in_drop(queued: VecDeque<Waker>)
    ensures
        woke_all(queued@),
    opens_invariants none
    no_unwind
{
    let ghost all = queued@;
    let ghost mut done: int = 0;
    let mut queued = queued;
    loop
        invariant
            0 <= done <= all.len(),
            queued@ == all.skip(done),
            forall|i: int| 0 <= i < done ==> woke(#[trigger] all[i]),
        ensures
            done == all.len(),
        decreases queued@.len(),
    {
        match next_waker(&mut queued) {
            Some(waker) => {
                wake_in_drop(waker);
                proof {
                    assert(woke(waker));
                    assert(waker == all[done]);
                    done = done + 1;
                }
            },
            None => break,
        }
    }
}

/// What it takes to wake those who wait without having changed anything.
///
/// A handle that wakes others when it goes has one. It has to be lent to be changed, which only the
/// destructor of the handle can do.
#[derive(Debug)]
pub struct Farewell {
    number: u64,
}

/// What a new handle needs for when it goes.
pub(crate) fn farewell() -> (farewell: Farewell) {
    Farewell { number: 0 }
}

/// Wakes the tasks on the list, first in, first out, unless someone else is at it.
pub(crate) fn wake_all_if_free(list: &Guarded<VecDeque<Waker>>, _farewell: &mut Farewell)
    ensures
        exists|taken: Option<VecDeque<Waker>>| #[trigger]
            tries_to_take(*list, taken) && (taken matches Some(queued) ==> woke_all(queued@)),
    opens_invariants none
    no_unwind
{
    let taken = take_tasks_if_free(list);
    let ghost tasks = taken;
    if let Some(queued) = taken {
        wake_each_in_drop(queued);
    }
    assert(tries_to_take(*list, tasks));
}

/// `Context::waker`: a clone of the waker of the task that is being polled.
///
/// A waker shows nothing of the task it stands for, so nothing is said of the
/// result.
#[verifier::external_body]
fn context_waker(cx: &Context<'_>) -> (waker: Waker)
    opens_invariants none
{
    cx.waker().clone()
}

/// The wakers of the task that is being polled: those that `Context::waker` gives for it.
pub closed spec fn task_of(cx: Context<'_>) -> Set<Waker> {
    Set::new(|waker: Waker| call_ensures(context_waker, (&cx,), waker))
}

/// A waker of the task that is being polled.
pub(crate) fn waker_of(cx: &Context<'_>) -> (waker: Waker)
    ensures
        task_of(*cx).contains(waker),
    opens_invariants none
{
    context_waker(cx)
}

/// The wakers of a task are those that its context gives, and no others.
proof fn law_wakers_come_from_the_context(cx: Context<'_>, waker: Waker)
    ensures
        task_of(cx).contains(waker) <==> call_ensures(context_waker, (&cx,), waker),
{
}

/// `Pin::get_mut`: what is behind a pinned reference to something that may be moved.
///
/// A pinned reference shows nothing of what it points at, so nothing is said of the
/// result.
#[verifier::external_body]
fn unpin<X: Unpin>(pinned: Pin<&mut X>) -> (behind: &mut X)
    opens_invariants none
{
    pinned.get_mut()
}

/// `behind` is what `Pin::get_mut` gives for the pinned reference.
pub closed spec fn points_at<X: Unpin>(pinned: Pin<&mut X>, behind: &mut X) -> bool {
    call_ensures(unpin::<X>, (pinned,), behind)
}

/// What a pinned reference points at is what is behind it.
proof fn law_pinned_points_behind<X: Unpin>(pinned: Pin<&mut X>, behind: &mut X)
    ensures
        points_at(pinned, behind) ==> call_ensures(unpin::<X>, (pinned,), behind),
{
}

/// What is behind a pinned reference.
pub(crate) fn get_behind<X: Unpin>(pinned: Pin<&mut X>) -> (behind: &mut X)
    ensures
        points_at(pinned, behind),
    opens_invariants none
{
    unpin(pinned)
}

/// A `std::sync::Weak`, whose allocator parameter keeps it from being declared to
/// Verus by itself.
#[verifier::external_body]
#[verifier::reject_recursive_types(T)]
struct RawWeak<T> {
    weak: Weak<T>,
}

/// A reference that does not keep its target alive.
#[verifier::reject_recursive_types(T)]
pub struct WeakRef<T> {
    raw: RawWeak<T>,
    target: Ghost<Arc<T>>,
}

/// `Arc::downgrade`: a weak reference to the target of `strong`.
///
/// A weak reference shows nothing of its target until it is upgraded, so nothing is
/// said of the result here; [`WeakRef`] keeps note of the target.
#[verifier::external_body]
fn raw_downgrade<T>(strong: &Arc<T>) -> (raw: RawWeak<T>)
    opens_invariants none
{
    RawWeak { weak: Arc::downgrade(strong) }
}

/// `Weak::clone`: another weak reference to the same target.
#[verifier::external_body]
fn raw_clone<T>(raw: &RawWeak<T>) -> (copy: RawWeak<T>)
    ensures
        copy == *raw,
{
    RawWeak { weak: raw.weak.clone() }
}

/// A weak reference to the target of `strong`.
pub(crate) fn downgrade<T>(strong: &Arc<T>) -> (weak: WeakRef<T>)
    ensures
        weak.target() == *strong,
    opens_invariants none
{
    WeakRef { raw: raw_downgrade(strong), target: Ghost(*strong) }
}

impl<T> WeakRef<T> {
    /// What the reference points at, whether or not it is still there.
    pub closed spec fn target(self) -> Arc<T> {
        self.target@
    }

    /// `found` is what `Weak::upgrade` gives for this reference: the target, or nothing if its
    /// last owner is gone.
    pub closed spec fn gives(self, found: Option<Arc<T>>) -> bool {
        call_ensures(WeakRef::<T>::upgrade, (&self,), found)
    }

    /// What a reference leads to is what upgrading it gives.
    proof fn law_gives_is_a_call(self, found: Option<Arc<T>>)
        ensures
            self.gives(found) ==> call_ensures(WeakRef::<T>::upgrade, (&self,), found),
    {
    }

    /// What a reference leads to, if anything, is the target that it was made for.
    pub proof fn law_gives(self, found: Option<Arc<T>>)
        requires
            self.gives(found),
        ensures
            found matches Some(owner) ==> owner == self.target(),
    {
    }

    /// `Weak::upgrade`: the target, or `None` once its last owner is gone.
    ///
    /// What comes back, if anything, is the target that the reference was made for.
    /// Whether an owner is left is up to every thread that has one, so nothing is
    /// said of that.
    #[verifier::external_body]
    fn upgrade(&self) -> (strong: Option<Arc<T>>)
        ensures
            strong matches Some(owner) ==> owner == self.target(),
        opens_invariants none
    {
        self.raw.weak.upgrade()
    }

    /// The target, or `None` once its last owner is gone.
    pub(crate) fn find(&self) -> (found: Option<Arc<T>>)
        ensures
            self.gives(found),
            found matches Some(owner) ==> owner == self.target(),
        opens_invariants none
    {
        self.upgrade()
    }
}

impl<T> Clone for WeakRef<T> {
    fn clone(&self) -> (weak: Self)
        ensures
            weak == *self,
    {
        WeakRef { raw: raw_clone(&self.raw), target: self.target }
    }
}

/// A weak reference to a lock whose content is only to be read.
///
/// The reference itself is private, so that whoever has it can look at the content, and not
/// change it.
#[verifier::reject_recursive_types(S)]
pub struct ReadLink<S> {
    reference: WeakRef<RwLock<S>>,
}

/// A lock whose content is only to be read.
#[verifier::reject_recursive_types(S)]
pub struct ReadOnly<S> {
    lock: Arc<RwLock<S>>,
}

impl<S> ReadLink<S> {
    /// The weak reference to the lock.
    pub closed spec fn reference(self) -> WeakRef<RwLock<S>> {
        self.reference
    }

    /// A reference to the lock.
    pub(crate) fn to(lock: &Arc<RwLock<S>>) -> (link: Self)
        ensures
            link.reference().target() == *lock,
        opens_invariants none
    {
        ReadLink { reference: downgrade(lock) }
    }

    /// The lock, or `None` once its last owner is gone.
    pub(crate) fn find(&self) -> (found: Option<ReadOnly<S>>)
        ensures
            self.reference().gives(ReadOnly::lock_of(found)),
        opens_invariants none
    {
        match self.reference.find() {
            Some(lock) => Some(ReadOnly { lock }),
            None => None,
        }
    }
}

impl<S> Clone for ReadLink<S> {
    fn clone(&self) -> (copy: Self)
        ensures
            copy == *self,
    {
        ReadLink { reference: self.reference.clone() }
    }
}

impl<S> ReadOnly<S> {
    /// The lock itself.
    pub closed spec fn lock(self) -> Arc<RwLock<S>> {
        self.lock
    }

    /// The lock of what was found, if anything was.
    pub open spec fn lock_of(found: Option<Self>) -> Option<Arc<RwLock<S>>> {
        match found {
            Some(readable) => Some(readable.lock()),
            None => None,
        }
    }

    /// Runs `f` with `arg` on the content of the lock, after what the receipt is for.
    pub(crate) fn read_after<A, R, F: FnOnce(&S, A) -> R, P>(
        &self,
        arg: A,
        f: F,
        receipt: P,
    ) -> (result: R)
        requires
            forall|content: &S| call_requires(f, (content, arg)),
        ensures
            reads_after(*self.lock(), arg, f, receipt, result),
            exists|content: &S| call_ensures(f, (content, arg), result),
        opens_invariants none
    {
        read_after(&self.lock, arg, f, receipt)
    }
}

/// `Arc::weak_count`: how many weak references to the target there are.
///
/// That number is up to every thread that holds one, so nothing is said of the
/// result.
#[verifier::external_body]
fn weak_count<T>(strong: &Arc<T>) -> (count: usize)
    opens_invariants none
{
    Arc::weak_count(strong)
}

/// `count` is a number of weak references that `Arc::weak_count` gives for the target.
pub closed spec fn counts_weak<T>(strong: Arc<T>, count: usize) -> bool {
    call_ensures(weak_count::<T>, (&strong,), count)
}

/// `answer` goes by a count of the weak references to the target: there is at least one.
pub open spec fn answers_watched<T>(strong: Arc<T>, answer: bool) -> bool {
    exists|count: usize| #[trigger] counts_weak(strong, count) && answer == (count > 0)
}

/// The answer to whether there are watchers goes by a count that was asked for.
proof fn law_watchers_are_counted<T>(strong: Arc<T>, answer: bool)
    requires
        answers_watched(strong, answer),
    ensures
        exists|count: usize| #[trigger]
            call_ensures(weak_count::<T>, (&strong,), count) && answer == (count > 0),
{
    let count = choose|count: usize| #[trigger]
        counts_weak(strong, count) && answer == (count > 0);
    assert(call_ensures(weak_count::<T>, (&strong,), count));
}

/// Whether there are weak references to the target.
pub(crate) fn is_watched<T>(strong: &Arc<T>) -> (answer: bool)
    ensures
        answers_watched(*strong, answer),
    opens_invariants none
{
    let count = weak_count(strong);
    assert(counts_weak(*strong, count));
    count > 0
}

} // verus!
