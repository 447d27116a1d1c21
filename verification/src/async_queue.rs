//! An in-memory queue that is both a stream and a sink of items.

use std::collections::VecDeque;
use vstd::prelude::*;

use crate::poll::{Async, AsyncSink};

verus! {

/// A first-in first-out queue of items.  Sending appends an item and is
/// always accepted; polling takes the oldest item and never waits: an empty
/// queue answers that the stream has ended.
pub struct AsyncQueue<T> {
    queue: VecDeque<T>,
}

/// What a poll of a queue holding `items` gives: its oldest item, or `None`
/// when it is empty.
pub open spec fn polled_item<T>(items: Seq<T>) -> Option<T> {
    if items.len() > 0 {
        Some(items[0])
    } else {
        None
    }
}

/// What a queue holding `items` holds after a poll.
pub open spec fn after_poll<T>(items: Seq<T>) -> Seq<T> {
    if items.len() > 0 {
        items.drop_first()
    } else {
        items
    }
}

/// The results of `polls` successive polls of a queue holding `items`.
pub open spec fn polled_items<T>(items: Seq<T>, polls: nat) -> Seq<Option<T>>
    decreases polls,
{
    if polls == 0 {
        Seq::empty()
    } else {
        seq![polled_item(items)] + polled_items(after_poll(items), (polls - 1) as nat)
    }
}

impl<T> View for AsyncQueue<T> {
    type V = Seq<T>;

    /// The items sent and not polled yet, oldest first.
    closed spec fn view(&self) -> Seq<T> {
        self.queue@
    }
}

impl<T> AsyncQueue<T> {
    /// An empty queue.
    pub fn new() -> (queue: Self)
        ensures
            queue@ == Seq::<T>::empty(),
    {
        Self { queue: VecDeque::new() }
    }

    /// An empty queue with room for `capacity` items before it reallocates.
    pub fn with_capacity(capacity: usize) -> (queue: Self)
        ensures
            queue@ == Seq::<T>::empty(),
    {
        Self { queue: VecDeque::with_capacity(capacity) }
    }

    /// Takes the oldest item; `None` when the queue is empty.  The answer is
    /// always ready.
    pub fn poll(&mut self) -> (result: Result<Async<Option<T>>, ()>)
        ensures
            result == Ok::<Async<Option<T>>, ()>(Async::Ready(polled_item(old(self)@))),
            final(self)@ == after_poll(old(self)@),
    {
        Ok(Async::Ready(self.queue.pop_front()))
    }

    /// Appends `item`; it is always accepted.
    pub fn start_send(&mut self, item: T) -> (result: Result<AsyncSink<T>, ()>)
        ensures
            result == Ok::<AsyncSink<T>, ()>(AsyncSink::Ready),
            final(self)@ == old(self)@.push(item),
    {
        self.queue.push_back(item);

        Ok(AsyncSink::Ready)
    }

    /// Nothing is held back on the way in, so sending is always complete.
    pub fn poll_complete(&mut self) -> (result: Result<Async<()>, ()>)
        ensures
            result == Ok::<Async<()>, ()>(Async::Ready(())),
            final(self)@ == old(self)@,
    {
        Ok(Async::Ready(()))
    }
}

/// Polling a queue as many times as it holds items gives them back in the
/// order they were sent, each once, and leaves it empty; polls after that
/// give `None`.
pub proof fn lemma_polls_follow_sends<T>(items: Seq<T>, extra: nat)
    ensures
        polled_items(items, items.len() + extra) == items.map_values(|item: T| Some(item))
            + Seq::new(extra, |i: int| None::<T>),
    decreases items.len(),
{
    if items.len() == 0 {
        assert(items =~= Seq::<T>::empty());
        lemma_polls_of_empty_queue::<T>(extra);
        assert(items.map_values(|item: T| Some(item)) =~= Seq::<Option<T>>::empty());
        assert(Seq::<Option<T>>::empty() + Seq::new(extra, |i: int| None::<T>) =~= Seq::new(
            extra,
            |i: int| None::<T>,
        ));
    } else {
        let rest = items.drop_first();
        lemma_polls_follow_sends(rest, extra);
        assert((items.len() + extra - 1) as nat == rest.len() + extra);
        assert(items.map_values(|item: T| Some(item)) =~= seq![Some(items[0])]
            + rest.map_values(|item: T| Some(item)));
        assert(polled_items(items, items.len() + extra) =~= seq![Some(items[0])] + (
        rest.map_values(|item: T| Some(item)) + Seq::new(extra, |i: int| None::<T>)));
    }
}

/// Every poll of an empty queue gives `None`.
pub proof fn lemma_polls_of_empty_queue<T>(polls: nat)
    ensures
        polled_items(Seq::<T>::empty(), polls) == Seq::new(polls, |i: int| None::<T>),
    decreases polls,
{
    if polls > 0 {
        lemma_polls_of_empty_queue::<T>((polls - 1) as nat);
        assert(after_poll(Seq::<T>::empty()) =~= Seq::<T>::empty());
        assert(polled_items(Seq::<T>::empty(), polls) =~= Seq::new(polls, |i: int| None::<T>));
    } else {
        assert(polled_items(Seq::<T>::empty(), polls) =~= Seq::new(polls, |i: int| None::<T>));
    }
}

} // verus!
