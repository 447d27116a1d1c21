//! Hands out the two ends of interception channels, one end at a time.

use std::collections::VecDeque;
use vstd::prelude::*;

verus! {

/// Pairs up the readers and the writers of interception channels.
///
/// A channel has a read end `R` and a write end `W`.  Whoever asks first for
/// an end gets the end of a new channel, and the other end waits until it is
/// asked for.  So the n-th read end handed out and the n-th write end handed
/// out always belong to the same channel, however the requests interleave.
///
/// The model records every channel made (`created`) and the ends handed out
/// so far, in order.
pub struct ChannelFactory<R, W> {
    read_channels: VecDeque<R>,
    write_channels: VecDeque<W>,
    created: Ghost<Seq<(R, W)>>,
    handed_reads: Ghost<Seq<R>>,
    handed_writes: Ghost<Seq<W>>,
}

impl<R, W> ChannelFactory<R, W> {
    /// Read ends of channels made for a writer, waiting for a reader.
    pub closed spec fn pending_reads(&self) -> Seq<R> {
        self.read_channels@
    }

    /// Write ends of channels made for a reader, waiting for a writer.
    pub closed spec fn pending_writes(&self) -> Seq<W> {
        self.write_channels@
    }

    /// Every channel made so far, oldest first.
    pub closed spec fn created(&self) -> Seq<(R, W)> {
        self.created@
    }

    /// The read ends handed out so far, in order.
    pub closed spec fn handed_reads(&self) -> Seq<R> {
        self.handed_reads@
    }

    /// The write ends handed out so far, in order.
    pub closed spec fn handed_writes(&self) -> Seq<W> {
        self.handed_writes@
    }

    /// The ends handed out are the first ends of the channels made, in order;
    /// the ends waiting are the rest; and on at least one side nothing waits.
    pub closed spec fn wf(&self) -> bool {
        let created = self.created@;
        let reads = self.handed_reads@;
        let writes = self.handed_writes@;
        &&& reads.len() <= created.len()
        &&& writes.len() <= created.len()
        &&& (reads.len() == created.len() || writes.len() == created.len())
        &&& forall|i: int| 0 <= i < reads.len() ==> #[trigger] reads[i] == created[i].0
        &&& forall|i: int| 0 <= i < writes.len() ==> #[trigger] writes[i] == created[i].1
        &&& self.read_channels@.len() + reads.len() == created.len()
        &&& self.write_channels@.len() + writes.len() == created.len()
        &&& forall|i: int|
            0 <= i < self.read_channels@.len() ==> #[trigger] self.read_channels@[i]
                == created[reads.len() + i].0
        &&& forall|i: int|
            0 <= i < self.write_channels@.len() ==> #[trigger] self.write_channels@[i]
                == created[writes.len() + i].1
    }

    /// A factory that has made no channel yet.
    pub fn new() -> (factory: Self)
        ensures
            factory.wf(),
            factory.created() == Seq::<(R, W)>::empty(),
            factory.handed_reads() == Seq::<R>::empty(),
            factory.handed_writes() == Seq::<W>::empty(),
            factory.pending_reads() == Seq::<R>::empty(),
            factory.pending_writes() == Seq::<W>::empty(),
    {
        ChannelFactory {
            read_channels: VecDeque::new(),
            write_channels: VecDeque::new(),
            created: Ghost(Seq::empty()),
            handed_reads: Ghost(Seq::empty()),
            handed_writes: Ghost(Seq::empty()),
        }
    }

    /// Hands out the read end of a channel: the oldest one waiting, or else
    /// the read end of a channel made by `new_channel`, whose write end then
    /// waits for a writer.
    pub fn read_channel<F: FnOnce() -> (R, W)>(&mut self, new_channel: F) -> (channel: R)
        requires
            old(self).wf(),
            new_channel.requires(()),
        ensures
            final(self).wf(),
            final(self).handed_reads() == old(self).handed_reads().push(channel),
            final(self).handed_writes() == old(self).handed_writes(),
            old(self).pending_reads().len() > 0 ==> {
                &&& channel == old(self).pending_reads()[0]
                &&& final(self).pending_reads() == old(self).pending_reads().drop_first()
                &&& final(self).pending_writes() == old(self).pending_writes()
                &&& final(self).created() == old(self).created()
            },
            old(self).pending_reads().len() == 0 ==> {
                let made = final(self).created().last();
                &&& new_channel.ensures((), made)
                &&& final(self).created() == old(self).created().push(made)
                &&& channel == made.0
                &&& final(self).pending_reads() == old(self).pending_reads()
                &&& final(self).pending_writes() == old(self).pending_writes().push(made.1)
            },
    {
        let ghost created = self.created@;
        let ghost reads = self.handed_reads@;
        let ghost writes = self.handed_writes@;
        match self.read_channels.pop_front() {
            Some(read_channel) => {
                proof {
                    self.handed_reads@ = reads.push(read_channel);
                    assert forall|i: int| 0 <= i < self.read_channels@.len() implies #[trigger]
                        self.read_channels@[i] == created[reads.len() + 1 + i].0 by {
                        assert(old(self).read_channels@[i + 1] == created[reads.len() + (i + 1)].0);
                    }
                }
                read_channel
            },
            None => {
                let (read_channel, write_channel) = new_channel();
                let ghost made = (read_channel, write_channel);
                self.write_channels.push_back(write_channel);
                proof {
                    self.created@ = created.push(made);
                    self.handed_reads@ = reads.push(read_channel);
                    assert(self.created@.last() == made);
                    assert forall|i: int| 0 <= i < self.write_channels@.len() implies #[trigger]
                        self.write_channels@[i] == self.created@[writes.len() + i].1 by {
                        if i < old(self).write_channels@.len() {
                            assert(old(self).write_channels@[i] == created[writes.len() + i].1);
                        }
                    }
                }
                read_channel
            },
        }
    }

    /// Hands out the write end of a channel: the oldest one waiting, or else
    /// the write end of a channel made by `new_channel`, whose read end then
    /// waits for a reader.
    pub fn write_channel<F: FnOnce() -> (R, W)>(&mut self, new_channel: F) -> (channel: W)
        requires
            old(self).wf(),
            new_channel.requires(()),
        ensures
            final(self).wf(),
            final(self).handed_writes() == old(self).handed_writes().push(channel),
            final(self).handed_reads() == old(self).handed_reads(),
            old(self).pending_writes().len() > 0 ==> {
                &&& channel == old(self).pending_writes()[0]
                &&& final(self).pending_writes() == old(self).pending_writes().drop_first()
                &&& final(self).pending_reads() == old(self).pending_reads()
                &&& final(self).created() == old(self).created()
            },
            old(self).pending_writes().len() == 0 ==> {
                let made = final(self).created().last();
                &&& new_channel.ensures((), made)
                &&& final(self).created() == old(self).created().push(made)
                &&& channel == made.1
                &&& final(self).pending_writes() == old(self).pending_writes()
                &&& final(self).pending_reads() == old(self).pending_reads().push(made.0)
            },
    {
        let ghost created = self.created@;
        let ghost reads = self.handed_reads@;
        let ghost writes = self.handed_writes@;
        match self.write_channels.pop_front() {
            Some(write_channel) => {
                proof {
                    self.handed_writes@ = writes.push(write_channel);
                    assert forall|i: int| 0 <= i < self.write_channels@.len() implies #[trigger]
                        self.write_channels@[i] == created[writes.len() + 1 + i].1 by {
                        assert(old(self).write_channels@[i + 1] == created[writes.len() + (i + 1)].1);
                    }
                }
                write_channel
            },
            None => {
                let (read_channel, write_channel) = new_channel();
                let ghost made = (read_channel, write_channel);
                self.read_channels.push_back(read_channel);
                proof {
                    self.created@ = created.push(made);
                    self.handed_writes@ = writes.push(write_channel);
                    assert(self.created@.last() == made);
                    assert forall|i: int| 0 <= i < self.read_channels@.len() implies #[trigger]
                        self.read_channels@[i] == self.created@[reads.len() + i].0 by {
                        if i < old(self).read_channels@.len() {
                            assert(old(self).read_channels@[i] == created[reads.len() + i].0);
                        }
                    }
                }
                write_channel
            },
        }
    }
}

/// The n-th read end and the n-th write end that a factory hands out are the
/// two ends of one channel, the n-th it made.
pub proof fn lemma_channel_ends_pair_up<R, W>(factory: ChannelFactory<R, W>, n: int)
    requires
        factory.wf(),
        0 <= n < factory.handed_reads().len(),
        n < factory.handed_writes().len(),
    ensures
        factory.created()[n] == (factory.handed_reads()[n], factory.handed_writes()[n]),
{
    assert(factory.handed_reads()[n] == factory.created()[n].0);
    assert(factory.handed_writes()[n] == factory.created()[n].1);
}

/// Ends wait on one side at most: a reader never waits for a channel while a
/// write end waits, and the other way round.
pub proof fn lemma_ends_wait_on_one_side<R, W>(factory: ChannelFactory<R, W>)
    requires
        factory.wf(),
    ensures
        factory.pending_reads().len() == 0 || factory.pending_writes().len() == 0,
{
}

} // verus!
