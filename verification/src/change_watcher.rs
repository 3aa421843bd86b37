//! The watcher that collects changes.
use std::future::Future;
use std::pin::Pin;
use std::sync::Arc;
use std::task::{Context, Poll, Waker};

use futures_lite::Stream;
use vstd::prelude::*;

use crate::error::Disconnected;
use crate::log::{lent_epoch, ChangeLog, Collected, LogStep, LogView};
use crate::sync::{get_behind, waker_of, Guarded, Receipt, WeakRef};

verus! {

/// Watcher for change events from history-tracking watchables.
#[verifier::reject_recursive_types(C)]
pub struct ChangeWatcher<C> {
    log: WeakRef<Guarded<ChangeLog<C>>>,
    last_epoch: u64,
}

/// What the watcher makes of what it collected: nothing if it is no news. Otherwise it
/// has caught up with the epoch that goes with it.
pub fn take_in<C>(last_epoch: &mut u64, collected: Collected<C>) -> (news: Option<(Vec<C>, bool)>)
    ensures
        news == if collected.is_news() {
            Some((collected.changes, collected.missed))
        } else {
            None
        },
        *final(last_epoch) == if collected.is_news() {
            collected.epoch
        } else {
            *old(last_epoch)
        },
{
    if collected.changes.len() > 0 || collected.missed {
        *last_epoch = collected.epoch;
        Some((collected.changes, collected.missed))
    } else {
        None
    }
}

/// What the watcher makes of what it collected from a log that is behind or level with it: where
/// it is behind the epoch that goes with it, that is news.
fn take_news<C>(last_epoch: &mut u64, collected: Collected<C>) -> (news: Option<(Vec<C>, bool)>)
    requires
        collected.is_news() == (*old(last_epoch) < collected.epoch),
    ensures
        news == if collected.is_news() {
            Some((collected.changes, collected.missed))
        } else {
            None
        },
        *final(last_epoch) == if collected.is_news() {
            collected.epoch
        } else {
            *old(last_epoch)
        },
    opens_invariants none
{
    if *last_epoch < collected.epoch {
        *last_epoch = collected.epoch;
        Some((collected.changes, collected.missed))
    } else {
        None
    }
}

/// What was collected behind the mutex is news exactly if the watcher was behind.
proof fn lemma_collected_is_news<C>(
    log: &Guarded<ChangeLog<C>>,
    since: u64,
    collected: Collected<C>,
)
    requires
        log.lent_to(since, ChangeLog::<C>::collect, collected),
    ensures
        collected.is_news() == (since < collected.epoch),
{
    let content = choose|content: &mut ChangeLog<C>|
        crate::sync::Kept::kept(&*content, log.limit()) && #[trigger] call_ensures(
            ChangeLog::<C>::collect,
            (content, since),
            collected,
        );
    assert(collected.comes_from((*content)@, since));
}

/// The news that comes with an outcome, if any.
pub open spec fn told<C>(outcome: Poll<Result<(Vec<C>, bool), Disconnected>>) -> Option<
    (Vec<C>, bool),
> {
    match outcome {
        Poll::Ready(Ok(news)) => Some(news),
        _ => None,
    }
}

impl<C> ChangeWatcher<C> {
    /// The weak reference by which the watcher looks for its source.
    pub closed spec fn link(self) -> WeakRef<Guarded<ChangeLog<C>>> {
        self.log
    }

    /// What the watcher collects from.
    pub open spec fn source(self) -> Arc<Guarded<ChangeLog<C>>> {
        self.link().target()
    }

    /// The epoch that the watcher has caught up with.
    pub closed spec fn last_epoch(self) -> u64 {
        self.last_epoch
    }

    /// How many changes the watcher can collect at once, at most.
    pub open spec fn capacity(self) -> usize {
        self.source().limit()
    }

    /// `found` is what `Weak::upgrade` gives for the source: the source itself, or nothing if
    /// it is gone.
    pub open spec fn finds(self, found: Option<Arc<Guarded<ChangeLog<C>>>>) -> bool {
        self.link().gives(found)
    }

    /// The watcher goes from `pre` to `post` by what it collected. It has nothing to tell if that
    /// is no news.
    pub open spec fn takes_in(
        pre: Self,
        collected: Collected<C>,
        post: Self,
        news: Option<(Vec<C>, bool)>,
    ) -> bool {
        &&& news == if collected.is_news() {
            Some((collected.changes, collected.missed))
        } else {
            None
        }
        &&& post.last_epoch() == if collected.is_news() {
            collected.epoch
        } else {
            pre.last_epoch()
        }
    }

    /// The watcher locks the log, collects from it, and goes from `pre` to `post`.
    pub open spec fn collects_from(
        pre: Self,
        log: Guarded<ChangeLog<C>>,
        post: Self,
        news: Option<(Vec<C>, bool)>,
    ) -> bool {
        &&& post.link() == pre.link()
        &&& exists|collected: Collected<C>| #[trigger]
            crate::log::gives_out(log, pre.last_epoch(), collected) && Self::takes_in(
                pre,
                collected,
                post,
                news,
            )
    }

    /// The watcher locks the log, collects from it, and goes from `pre` to `post`, after what the
    /// receipt is for.
    pub open spec fn collects_after(
        pre: Self,
        log: Guarded<ChangeLog<C>>,
        receipt: Receipt,
        post: Self,
        news: Option<(Vec<C>, bool)>,
    ) -> bool {
        &&& post.link() == pre.link()
        &&& exists|collected: Collected<C>| #[trigger]
            crate::log::gives_out_after(log, pre.last_epoch(), receipt, collected)
                && Self::takes_in(pre, collected, post, news)
    }

    /// The watcher goes from `pre` to `post` by what it found of its source: it collects from
    /// it, and has nothing to tell if the source is gone.
    pub open spec fn looks_found(
        pre: Self,
        found: Option<Arc<Guarded<ChangeLog<C>>>>,
        post: Self,
        news: Option<(Vec<C>, bool)>,
    ) -> bool {
        match found {
            Some(log) => Self::collects_from(pre, *log, post, news),
            None => news is None && post == pre,
        }
    }

    /// The watcher goes from `pre` to `post` by what it found of its source: it takes over the
    /// epoch that it shows, and stays where it is if the source is gone.
    pub open spec fn resets_to(
        pre: Self,
        found: Option<Arc<Guarded<ChangeLog<C>>>>,
        post: Self,
    ) -> bool {
        &&& post.link() == pre.link()
        &&& match found {
            Some(log) => crate::log::shows_epoch(*log, post.last_epoch()),
            None => post.last_epoch() == pre.last_epoch(),
        }
    }

    /// The watcher collects from `log` and goes from `pre` to `post` by it. It has
    /// nothing to tell unless it was behind.
    pub open spec fn collects(
        pre: Self,
        log: LogView<C>,
        post: Self,
        news: Option<(Vec<C>, bool)>,
    ) -> bool {
        &&& log.wf()
        &&& log.capacity == pre.capacity()
        &&& post.source() == pre.source()
        &&& match news {
            Some((changes, missed)) => {
                &&& pre.last_epoch() < log.epoch
                &&& changes@ == log.news(pre.last_epoch())
                &&& missed == log.missed(pre.last_epoch())
                &&& post.last_epoch() == log.epoch
            },
            None => {
                &&& pre.last_epoch() >= log.epoch
                &&& post.last_epoch() == pre.last_epoch()
            },
        }
    }

    /// Polling takes the watcher from `pre` to `post` by what it found of its source. It fails
    /// exactly if that is gone. Otherwise it collects from the source, and if there is no news,
    /// it leaves a waker of the task there, and after that collects once more.
    pub open spec fn polls_found(
        pre: Self,
        found: Option<Arc<Guarded<ChangeLog<C>>>>,
        post: Self,
        task: Set<Waker>,
        outcome: Poll<Result<(Vec<C>, bool), Disconnected>>,
    ) -> bool {
        match found {
            Some(log) => {
                &&& !(outcome matches Poll::Ready(Err(_)))
                &&& {
                    ||| told(outcome) is Some && Self::collects_from(pre, *log, post, told(outcome))
                    ||| {
                        &&& Self::collects_from(pre, *log, pre, None)
                        &&& exists|waker: Waker, receipt: Receipt| #[trigger]
                            crate::log::takes_step(*log, LogStep::Join(waker), receipt)
                                && task.contains(waker) && Self::collects_after(
                                pre,
                                *log,
                                receipt,
                                post,
                                told(outcome),
                            )
                    }
                }
            },
            None => outcome matches Poll::Ready(Err(_)) && post == pre,
        }
    }

    /// Polling on behalf of a task takes the watcher from `pre` to `post` and comes to `outcome`.
    pub open spec fn polls(
        pre: Self,
        post: Self,
        task: Set<Waker>,
        outcome: Poll<Result<(Vec<C>, bool), Disconnected>>,
    ) -> bool {
        exists|found: Option<Arc<Guarded<ChangeLog<C>>>>| #[trigger]
            pre.finds(found) && Self::polls_found(pre, found, post, task, outcome)
    }

    /// What a watcher collects from its source is what comes of a well-formed log of the
    /// source's capacity: the one that it found behind the mutex.
    pub proof fn law_collects(
        pre: Self,
        post: Self,
        news: Option<(Vec<C>, bool)>,
    ) -> (log: LogView<C>)
        requires
            Self::collects_from(pre, *pre.source(), post, news),
        ensures
            Self::collects(pre, log, post, news),
    {
        let source = *pre.source();
        let collected = choose|collected: Collected<C>| #[trigger]
            crate::log::gives_out(source, pre.last_epoch(), collected) && Self::takes_in(
                pre,
                collected,
                post,
                news,
            );
        Self::lemma_collects(pre, collected, post, news)
    }

    /// What a watcher collects from its source after something else is what comes of the log that
    /// it found behind the mutex, too.
    pub proof fn law_collects_after(
        pre: Self,
        receipt: Receipt,
        post: Self,
        news: Option<(Vec<C>, bool)>,
    ) -> (log: LogView<C>)
        requires
            Self::collects_after(pre, *pre.source(), receipt, post, news),
        ensures
            Self::collects(pre, log, post, news),
    {
        let source = *pre.source();
        let collected = choose|collected: Collected<C>| #[trigger]
            crate::log::gives_out_after(source, pre.last_epoch(), receipt, collected)
                && Self::takes_in(pre, collected, post, news);
        source.law_order(pre.last_epoch(), ChangeLog::<C>::collect, receipt, collected);
        Self::lemma_collects(pre, collected, post, news)
    }

    /// What was collected comes of the log that was found behind the mutex.
    proof fn lemma_collects(
        pre: Self,
        collected: Collected<C>,
        post: Self,
        news: Option<(Vec<C>, bool)>,
    ) -> (log: LogView<C>)
        requires
            post.link() == pre.link(),
            crate::log::gives_out(*pre.source(), pre.last_epoch(), collected),
            Self::takes_in(pre, collected, post, news),
        ensures
            Self::collects(pre, log, post, news),
    {
        let since = pre.last_epoch();
        let source = *pre.source();
        source.law_locks(since, ChangeLog::<C>::collect, collected);
        let content = choose|content: &mut ChangeLog<C>|
            crate::sync::Kept::kept(&*content, source.limit()) && #[trigger] call_ensures(
                ChangeLog::<C>::collect,
                (content, since),
                collected,
            );
        assert(collected.comes_from((*content)@, since));
        (*content)@
    }

    /// A watcher of `log` that has caught up with `last_epoch`.
    pub(crate) fn new(log: WeakRef<Guarded<ChangeLog<C>>>, last_epoch: u64) -> (watcher: Self)
        ensures
            watcher.source() == log.target(),
            watcher.last_epoch() == last_epoch,
        opens_invariants none
    {
        ChangeWatcher { log, last_epoch }
    }

    /// Returns `true` if connected to the source.
    ///
    /// Whether the source is still there is up to every thread that has a handle. The answer
    /// goes by what was found.
    pub fn is_connected(&self) -> (connected: bool)
        ensures
            exists|found: Option<Arc<Guarded<ChangeLog<C>>>>| #[trigger]
                self.finds(found) && connected == found is Some,
        opens_invariants none
    {
        let found = self.log.find();
        assert(self.finds(found));
        match found {
            Some(_) => true,
            None => false,
        }
    }

    /// Polls for changes, returning `(changes, missed)`.
    pub fn poll_changes(&mut self) -> (news: Option<(Vec<C>, bool)>)
        ensures
            exists|found: Option<Arc<Guarded<ChangeLog<C>>>>| #[trigger]
                old(self).finds(found) && Self::looks_found(
                    *old(self),
                    found,
                    *final(self),
                    news,
                ),
            news is None ==> *final(self) == *old(self),
            news matches Some((changes, missed)) ==> {
                &&& final(self).last_epoch() > old(self).last_epoch()
                &&& changes@.len() <= old(self).capacity()
                &&& missed == (changes@.len() < final(self).last_epoch() - old(self).last_epoch())
            },
        opens_invariants [old(self).source().step(ChangeLog::<C>::collect)]
    {
        let found = self.log.find();
        let ghost source = found;
        assert(old(self).finds(source));
        match found {
            Some(log) => {
                let news = self.collect_from(&log);
                proof {
                    Self::law_collects(*old(self), *self, news);
                }
                news
            },
            None => None,
        }
    }

    /// Collects from the log.
    fn collect_from(&mut self, log: &Guarded<ChangeLog<C>>) -> (news: Option<(Vec<C>, bool)>)
        ensures
            Self::collects_from(*old(self), *log, *final(self), news),
            news is None ==> *final(self) == *old(self),
        opens_invariants [log.step(ChangeLog::<C>::collect)]
    {
        let collected = log.with(self.last_epoch, ChangeLog::<C>::collect);
        assert(crate::log::gives_out(*log, old(self).last_epoch(), collected));
        proof {
            lemma_collected_is_news(log, self.last_epoch, collected);
        }
        take_news(&mut self.last_epoch, collected)
    }

    /// Collects from the log once more, after what the receipt is for.
    fn collect_again(
        &mut self,
        log: &Guarded<ChangeLog<C>>,
        receipt: Receipt,
    ) -> (news: Option<(Vec<C>, bool)>)
        ensures
            Self::collects_after(*old(self), *log, receipt, *final(self), news),
            news is None ==> *final(self) == *old(self),
        opens_invariants [log.step(ChangeLog::<C>::collect)]
    {
        let collected = log.with_after(self.last_epoch, ChangeLog::<C>::collect, receipt);
        assert(crate::log::gives_out_after(*log, old(self).last_epoch(), receipt, collected));
        proof {
            lemma_collected_is_news(log, self.last_epoch, collected);
        }
        take_news(&mut self.last_epoch, collected)
    }

    /// Polls what was found of the source for changes, and leaves the task's waker there if there
    /// are none. Fails exactly if nothing was found.
    pub fn poll_found(
        &mut self,
        found: Option<Arc<Guarded<ChangeLog<C>>>>,
        cx: &mut Context<'_>,
    ) -> (outcome: Poll<Result<(Vec<C>, bool), Disconnected>>)
        ensures
            found is None <==> outcome == Poll::<Result<(Vec<C>, bool), Disconnected>>::Ready(
                Err(Disconnected),
            ),
            Self::polls_found(
                *old(self),
                found,
                *final(self),
                crate::sync::task_of(*old(cx)),
                outcome,
            ),
        opens_invariants [
            found->0.step(ChangeLog::<C>::collect),
            found->0.step(ChangeLog::<C>::register),
        ]
    {
        match found {
            Some(log) => {
                if let Some(news) = self.collect_from(&log) {
                    return Poll::Ready(Ok(news));
                }
                let waker = waker_of(cx);
                let ghost joining = waker;
                let receipt = register(&log, waker);
                assert(crate::log::takes_step(*log, LogStep::Join(joining), receipt));
                match self.collect_again(&log, receipt) {
                    Some(news) => Poll::Ready(Ok(news)),
                    None => Poll::Pending,
                }
            },
            None => Poll::Ready(Err(Disconnected)),
        }
    }

    /// Polls for changes, and leaves the task's waker with the source if there are none.
    pub fn poll_or_wait(&mut self, cx: &mut Context<'_>) -> (outcome: Poll<
        Result<(Vec<C>, bool), Disconnected>,
    >)
        ensures
            Self::polls(*old(self), *final(self), crate::sync::task_of(*old(cx)), outcome),
        opens_invariants [
            old(self).source().step(ChangeLog::<C>::collect),
            old(self).source().step(ChangeLog::<C>::register),
        ]
    {
        let found = self.log.find();
        let ghost source = found;
        assert(old(self).finds(source));
        match found {
            Some(log) => self.poll_found(Some(log), cx),
            None => Poll::Ready(Err(Disconnected)),
        }
    }

    /// Returns a future that resolves with the next batch of changes.
    pub fn next_changes(&mut self) -> (future: NextChangesFut<'_, C>)
        ensures
            *future.watcher == *old(self),
            *final(future.watcher) == *final(self),
        opens_invariants none
    {
        NextChangesFut { watcher: self }
    }

    /// Converts into a stream of change batches.
    pub fn into_stream(self) -> (stream: ChangeStream<C>)
        ensures
            stream.watcher == self,
        opens_invariants none
    {
        ChangeStream { watcher: self }
    }

    /// Resets the watcher to the current epoch.
    ///
    /// Which epoch that is is up to every thread that has a handle. A watcher whose source is
    /// gone stays where it is.
    pub fn reset(&mut self)
        ensures
            exists|found: Option<Arc<Guarded<ChangeLog<C>>>>| #[trigger]
                old(self).finds(found) && Self::resets_to(*old(self), found, *final(self)),
        opens_invariants [old(self).source().step(lent_epoch::<C>)]
    {
        let found = self.log.find();
        let ghost source = found;
        assert(old(self).finds(source));
        if let Some(log) = found {
            self.last_epoch = current_epoch(&log);
        }
    }
}

/// Adds a task to be woken at the next change of the log. Gives a receipt for it.
fn register<C>(log: &Guarded<ChangeLog<C>>, waker: Waker) -> (receipt: Receipt)
    ensures
        crate::log::takes_step(*log, LogStep::Join(waker), receipt),
    opens_invariants [log.step(ChangeLog::<C>::register)]
{
    let (_, receipt) = log.with_first(waker, ChangeLog::<C>::register);
    receipt
}

/// The epoch of the log.
pub(crate) fn current_epoch<C>(log: &Guarded<ChangeLog<C>>) -> (epoch: u64)
    ensures
        crate::log::shows_epoch(*log, epoch),
    opens_invariants [log.step(lent_epoch::<C>)]
{
    log.with((), lent_epoch::<C>)
}

impl<C> Clone for ChangeWatcher<C> {
    fn clone(&self) -> (copy: Self)
        ensures
            copy == *self,
    {
        ChangeWatcher { log: self.log.clone(), last_epoch: self.last_epoch }
    }
}

/// Future for [`ChangeWatcher::next_changes`].
#[verifier::reject_recursive_types(C)]
pub struct NextChangesFut<'a, C> {
    pub watcher: &'a mut ChangeWatcher<C>,
}

/// Stream for [`ChangeWatcher::into_stream`].
#[verifier::reject_recursive_types(C)]
pub struct ChangeStream<C> {
    pub watcher: ChangeWatcher<C>,
}

impl<'a, C> NextChangesFut<'a, C> {
    /// Polls for the next batch of changes.
    pub fn poll_next(&mut self, cx: &mut Context<'_>) -> (outcome: Poll<
        Result<(Vec<C>, bool), Disconnected>,
    >)
        ensures
            ChangeWatcher::polls(
                *old(self).watcher,
                *final(self).watcher,
                crate::sync::task_of(*old(cx)),
                outcome,
            ),
            *final(final(self).watcher) == *final(old(self).watcher),
        opens_invariants [
            old(self).watcher.source().step(ChangeLog::<C>::collect),
            old(self).watcher.source().step(ChangeLog::<C>::register),
        ]
    {
        self.watcher.poll_or_wait(cx)
    }
}

impl<'b, C> Unpin for NextChangesFut<'b, C> {

}

impl<'b, C> Future for NextChangesFut<'b, C> {
    type Output = Result<(Vec<C>, bool), Disconnected>;

    /// Polls the watcher of the future that is behind the pinned reference for the next batch of
    /// changes.
    fn poll(self: Pin<&mut Self>, cx: &mut Context<'_>) -> (outcome: Poll<Self::Output>)
        ensures
            exists|this: &mut Self| #[trigger]
                crate::sync::points_at(self, this) && ChangeWatcher::polls(
                    *this.watcher,
                    *final(this).watcher,
                    crate::sync::task_of(*old(cx)),
                    outcome,
                ),
    {
        let this = get_behind(self);
        let ghost behind = this;
        let outcome = this.poll_next(cx);
        assert(crate::sync::points_at(self, behind));
        outcome
    }
}

impl<C> ChangeStream<C> {
    /// Polls for the next batch of changes. The stream ends when the source is gone.
    pub fn poll_item(&mut self, cx: &mut Context<'_>) -> (outcome: Poll<Option<(Vec<C>, bool)>>)
        ensures
            ChangeWatcher::polls(
                old(self).watcher,
                final(self).watcher,
                crate::sync::task_of(*old(cx)),
                crate::watcher::ends_when_gone(outcome),
            ),
        opens_invariants [
            old(self).watcher.source().step(ChangeLog::<C>::collect),
            old(self).watcher.source().step(ChangeLog::<C>::register),
        ]
    {
        match self.watcher.poll_or_wait(cx) {
            Poll::Ready(Ok(news)) => Poll::Ready(Some(news)),
            Poll::Ready(Err(Disconnected)) => Poll::Ready(None),
            Poll::Pending => Poll::Pending,
        }
    }
}

impl<C> Unpin for ChangeStream<C> {

}

impl<C> Stream for ChangeStream<C> {
    type Item = (Vec<C>, bool);

    /// Polls the watcher of the stream that is behind the pinned reference for the next batch of
    /// changes.
    fn poll_next(self: Pin<&mut Self>, cx: &mut Context<'_>) -> (outcome: Poll<
        Option<(Vec<C>, bool)>,
    >)
        ensures
            exists|this: &mut Self| #[trigger]
                crate::sync::points_at(self, this) && ChangeWatcher::polls(
                    this.watcher,
                    final(this).watcher,
                    crate::sync::task_of(*old(cx)),
                    crate::watcher::ends_when_gone(outcome),
                ),
    {
        let this = get_behind(self);
        let ghost behind = this;
        let outcome = this.poll_item(cx);
        assert(crate::sync::points_at(self, behind));
        outcome
    }
}

} // verus!
