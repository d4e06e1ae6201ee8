//! What holds of all the readers of one builder together.
use crate::sequential::{
    Handover, ReadEvent, SequentialReader, SequentialReaderBuilderInner, SequentialReaderInner,
};
use vstd::prelude::*;

verus! {

/// One builder, the readers that it has handed out, in that order, and the channels by which they
/// pass the underlying reader on.
#[verifier::reject_recursive_types(R)]
pub struct ReaderChain<R> {
    /// `None` once the builder is gone.
    pub builder: Option<SequentialReaderBuilderInner<R>>,
    /// A reader that was dropped is empty.
    pub readers: Seq<SequentialReader<R>>,
    /// What lies in the channel to which the reader with the same index sends.
    pub links: Seq<Option<R>>,
}

/// Something that happens to a chain of readers.
#[verifier::reject_recursive_types(R)]
pub enum ReaderStep<R> {
    /// The builder hands out this reader and is left in this state.
    HandOut(SequentialReader<R>, SequentialReaderBuilderInner<R>),
    /// The reader with this index is polled for reading, and this came of the outside poll. If
    /// that was a poll of the underlying reader, it left the underlying reader so and delivered
    /// these bytes.
    Poll(int, ReadEvent<R>, R, Seq<u8>),
    /// The reader with this index is dropped, and what that leaves to do is done.
    Drop(int),
    /// The builder is dropped.
    DropBuilder,
}

impl<R> ReaderStep<R> {
    /// The reader with index `i` is polled and the underlying reader is ready with a result.
    pub open spec fn reads(self, i: int) -> bool {
        self matches ReaderStep::Poll(k, event, _, _) && k == i && event is Read
    }

    /// The bytes that the underlying reader delivers.
    pub open spec fn bytes(self) -> Seq<u8> {
        match self {
            ReaderStep::Poll(_, ReadEvent::Read(_), _, bytes) => bytes,
            _ => Seq::empty(),
        }
    }
}

impl<R> SequentialReaderInner<R> {
    /// The state once the outside poll has been made: a poll of the underlying reader, which
    /// happens in place, leaves it as `left`.
    pub open spec fn polled(self, left: R) -> SequentialReaderInner<R> {
        match self {
            SequentialReaderInner::MyTurn(_) => SequentialReaderInner::MyTurn(left),
            _ => self,
        }
    }
}

/// The bytes that the underlying reader delivered during the steps, in order.
pub open spec fn delivered<R>(steps: Seq<ReaderStep<R>>) -> Seq<u8>
    decreases steps.len(),
{
    if steps.len() > 0 {
        delivered(steps.drop_last()) + steps.last().bytes()
    } else {
        Seq::empty()
    }
}

/// The bytes that were read through reader `i` during the steps, in order.
pub open spec fn read_through<R>(steps: Seq<ReaderStep<R>>, i: int) -> Seq<u8>
    decreases steps.len(),
{
    if steps.len() > 0 {
        let before = read_through(steps.drop_last(), i);
        if steps.last().reads(i) {
            before + steps.last().bytes()
        } else {
            before
        }
    } else {
        Seq::empty()
    }
}

/// The bytes that were read through the first `n` readers during the steps, put together: those of
/// the first reader, then those of the second, and so on.
pub open spec fn put_together<R>(steps: Seq<ReaderStep<R>>, n: nat) -> Seq<u8>
    decreases n,
{
    if n > 0 {
        put_together(steps, (n - 1) as nat) + read_through(steps, n - 1)
    } else {
        Seq::empty()
    }
}

impl<R> ReaderChain<R> {
    /// A builder that was just made around `reader`.
    pub open spec fn start(reader: R) -> ReaderChain<R> {
        ReaderChain {
            builder: Some(SequentialReaderBuilderInner::First(reader)),
            readers: Seq::empty(),
            links: Seq::empty(),
        }
    }

    /// Whether somebody holds the receiving end of the channel of reader `i`.
    pub open spec fn listened(self, i: int) -> bool {
        if i + 1 < self.readers.len() {
            self.readers[i + 1].inner is Waiting
        } else {
            self.builder is Some
        }
    }

    /// Whether `step` can happen. A receive takes what lies in the channel; a send finds room
    /// there. A read delivers as many bytes as its result says, and none if that is an error.
    pub open spec fn enabled(self, step: ReaderStep<R>) -> bool {
        match step {
            ReaderStep::HandOut(reader, after) => self.builder is Some
                && self.builder->0.hands_out(reader, after),
            ReaderStep::Poll(i, event, left, bytes) => {
                &&& 0 <= i < self.readers.len()
                &&& self.readers[i].inner.read_answer(event)
                &&& match event {
                    ReadEvent::Pending => true,
                    ReadEvent::Read(Ok(n)) => bytes.len() == n,
                    ReadEvent::Read(Err(_)) => bytes.len() == 0,
                    ReadEvent::Received(reader) => i > 0 && self.links[i - 1] == Some(reader),
                }
            },
            ReaderStep::Drop(i) => {
                &&& 0 <= i < self.readers.len()
                &&& match self.readers[i].inner.handover() {
                    Handover::Send(_) => self.links[i] is None,
                    Handover::ReceiveThenSend(_) => i > 0 && self.links[i - 1] is Some
                        && self.links[i] is None,
                    Handover::Nothing => true,
                }
            },
            ReaderStep::DropBuilder => self.builder is Some,
        }
    }

    /// What lies in the channel of reader `i` after `reader` was sent there: nothing, if nobody
    /// listens any more.
    pub open spec fn arrived(self, i: int, reader: R) -> Option<R> {
        if self.listened(i) {
            Some(reader)
        } else {
            None
        }
    }

    /// The chain after `step`.
    pub open spec fn after(self, step: ReaderStep<R>) -> ReaderChain<R> {
        match step {
            ReaderStep::HandOut(reader, after) => ReaderChain {
                builder: Some(after),
                readers: self.readers.push(reader),
                links: self.links.push(None),
            },
            ReaderStep::Poll(i, event, left, _) => ReaderChain {
                builder: self.builder,
                readers: self.readers.update(
                    i,
                    SequentialReader {
                        inner: self.readers[i].inner.polled(left).after_read(event),
                        next: self.readers[i].next,
                    },
                ),
                links: if event is Received {
                    self.links.update(i - 1, None)
                } else {
                    self.links
                },
            },
            ReaderStep::Drop(i) => ReaderChain {
                builder: self.builder,
                readers: self.readers.update(
                    i,
                    SequentialReader {
                        inner: SequentialReaderInner::Empty,
                        next: self.readers[i].next,
                    },
                ),
                links: match self.readers[i].inner.handover() {
                    Handover::Send(reader) => self.links.update(i, self.arrived(i, reader)),
                    Handover::ReceiveThenSend(_) => self.links.update(i - 1, None).update(
                        i,
                        self.arrived(i, self.links[i - 1]->0),
                    ),
                    Handover::Nothing => self.links,
                },
            },
            ReaderStep::DropBuilder => ReaderChain {
                builder: None,
                readers: self.readers,
                links: if self.links.len() > 0 {
                    self.links.update(self.links.len() - 1, None)
                } else {
                    self.links
                },
            },
        }
    }

    /// Whether the steps can happen one after the other.
    pub open spec fn can_run(self, steps: Seq<ReaderStep<R>>) -> bool
        decreases steps.len(),
    {
        steps.len() > 0 ==> self.can_run(steps.drop_last()) && self.run(steps.drop_last()).enabled(
            steps.last(),
        )
    }

    /// The chain after the steps.
    pub open spec fn run(self, steps: Seq<ReaderStep<R>>) -> ReaderChain<R>
        decreases steps.len(),
    {
        if steps.len() > 0 {
            self.run(steps.drop_last()).after(steps.last())
        } else {
            self
        }
    }

    /// The underlying reader after `step`, where it was `reader` before.
    pub open spec fn underlying_after(self, step: ReaderStep<R>, reader: R) -> R {
        match step {
            ReaderStep::Poll(i, _, left, _) if self.readers[i].inner is MyTurn => left,
            _ => reader,
        }
    }

    /// The underlying reader after the steps of a chain that was started around `reader`: as the
    /// last poll of it has left it.
    pub open spec fn underlying(reader: R, steps: Seq<ReaderStep<R>>) -> R
        decreases steps.len(),
    {
        if steps.len() > 0 {
            Self::start(reader).run(steps.drop_last()).underlying_after(
                steps.last(),
                Self::underlying(reader, steps.drop_last()),
            )
        } else {
            reader
        }
    }

    /// The readers before `k` are done and those from `k` on wait, reader `k` itself aside.
    pub open spec fn split_at(self, k: int) -> bool {
        &&& forall|j: int| 0 <= j < k && j < self.readers.len() ==> self.readers[j].inner is Empty
        &&& forall|j: int| k < j < self.readers.len() ==> self.readers[j].inner is Waiting
    }

    /// No channel but that of reader `k` holds anything.
    pub open spec fn clear_but(self, k: int) -> bool {
        forall|j: int| 0 <= j < self.links.len() && j != k ==> self.links[j] is None
    }

    /// Reader `k` has `reader`.
    pub open spec fn held_at(self, reader: R, k: int) -> bool {
        &&& 0 <= k < self.readers.len()
        &&& self.split_at(k)
        &&& self.readers[k].inner == SequentialReaderInner::MyTurn(reader)
        &&& self.clear_but(-1)
    }

    /// `reader` lies in the channel of reader `k`.
    pub open spec fn lies_at(self, reader: R, k: int) -> bool {
        &&& 0 <= k < self.readers.len()
        &&& self.split_at(k)
        &&& self.readers[k].inner is Empty
        &&& self.links[k] == Some(reader)
        &&& self.listened(k)
        &&& self.clear_but(k)
    }

    /// The builder still has `reader`.
    pub open spec fn unused(self, reader: R) -> bool {
        self == Self::start(reader)
    }

    /// The underlying reader is nowhere in the chain any more.
    pub open spec fn gone(self) -> bool {
        &&& self.builder is None
        &&& self.split_at(self.readers.len() as int)
        &&& self.clear_but(-1)
    }

    /// Who waits for a reader holds the receiving end of the channel to which that one sends.
    spec fn connected(self) -> bool {
        &&& forall|j: int|
            0 <= j < self.readers.len() && (#[trigger] self.readers[j]).inner is Waiting ==> j > 0
                && crate::outside::linked(
                self.readers[j - 1].next,
                self.readers[j].inner->Waiting_0,
            )
        &&& self.builder is Some && self.builder->0 is NotFirst ==> self.readers.len() > 0
            && crate::outside::linked(self.readers.last().next, self.builder->0->NotFirst_0)
    }

    /// `reader` is in one place: with the builder, with one of the readers or in one of the
    /// channels, or it went to where nobody listens any more.
    pub open spec fn in_one_place(self, reader: R) -> bool {
        ||| self.unused(reader)
        ||| exists|k: int| #[trigger] self.held_at(reader, k)
        ||| exists|k: int| #[trigger] self.lies_at(reader, k)
        ||| self.gone()
    }

    /// What holds of a chain whatever happened to it.
    spec fn sound(self, reader: R) -> bool {
        &&& self.connected()
        &&& self.links.len() == self.readers.len()
        &&& self.readers.len() > 0 ==> self.builder is None || self.builder->0 is NotFirst
        &&& self.in_one_place(reader)
    }

    proof fn lemma_step(self, step: ReaderStep<R>, reader: R)
        requires
            self.sound(reader),
            self.enabled(step),
        ensures
            self.after(step).sound(self.underlying_after(step, reader)),
            forall|j: int|
                0 <= j < self.readers.len() && self.readers[j].inner is Empty ==> (
                #[trigger] self.after(step).readers[j]).inner is Empty,
    {
        let next = self.after(step);
        let left = self.underlying_after(step, reader);
        assert forall|j: int|
            0 <= j < next.readers.len() && (#[trigger] next.readers[j]).inner is Waiting implies j
            > 0 && crate::outside::linked(
            next.readers[j - 1].next,
            next.readers[j].inner->Waiting_0,
        ) by {
            if j < self.readers.len() {
                assert(self.readers[j].inner is Waiting);
                assert(next.readers[j - 1].next == self.readers[j - 1].next);
            }
        }
        if self.unused(reader) {
            match step {
                ReaderStep::HandOut(..) => {
                    assert(next.held_at(reader, 0));
                },
                _ => {
                    assert(next.gone());
                },
            }
        } else if exists|k: int| self.held_at(reader, k) {
            let k = choose|k: int| self.held_at(reader, k);
            match step {
                ReaderStep::Drop(i) => {
                    if i == k && self.listened(i) {
                        assert(next.lies_at(reader, k));
                    } else if i == k {
                        assert(next.gone());
                    } else {
                        assert(self.readers[i].inner is Empty);
                        assert(next.held_at(reader, k));
                    }
                },
                _ => {
                    assert(next.held_at(left, k));
                },
            }
        } else if exists|k: int| self.lies_at(reader, k) {
            let k = choose|k: int| self.lies_at(reader, k);
            match step {
                ReaderStep::HandOut(..) => {
                    assert(next.lies_at(reader, k));
                },
                ReaderStep::Poll(i, event, _, _) => {
                    if event is Received {
                        assert(next.held_at(reader, k + 1));
                    } else {
                        assert(next.lies_at(reader, k));
                    }
                },
                ReaderStep::Drop(i) => {
                    if self.readers[i].inner is Empty {
                        assert(next.lies_at(reader, k));
                    } else {
                        assert(i == k + 1);
                        if self.listened(i) {
                            assert(next.lies_at(reader, i));
                        } else {
                            assert(next.gone());
                        }
                    }
                },
                ReaderStep::DropBuilder => {
                    if k + 1 == self.readers.len() {
                        assert(next.gone());
                    } else {
                        assert(next.lies_at(reader, k));
                    }
                },
            }
        } else {
            assert(next.gone());
        }
    }

    proof fn lemma_run(reader: R, steps: Seq<ReaderStep<R>>)
        requires
            Self::start(reader).can_run(steps),
        ensures
            Self::start(reader).run(steps).sound(Self::underlying(reader, steps)),
        decreases steps.len(),
    {
        if steps.len() > 0 {
            Self::lemma_run(reader, steps.drop_last());
            Self::start(reader).run(steps.drop_last()).lemma_step(
                steps.last(),
                Self::underlying(reader, steps.drop_last()),
            );
        }
    }
}

/// Whatever happens to a chain of readers, a reader that waits holds the receiving end of the
/// channel to which the reader before it sends.
pub proof fn law_each_reader_sends_to_the_next<R>(reader: R, steps: Seq<ReaderStep<R>>, i: int)
    requires
        ReaderChain::start(reader).can_run(steps),
        0 <= i < ReaderChain::start(reader).run(steps).readers.len(),
        ReaderChain::start(reader).run(steps).readers[i].inner is Waiting,
    ensures
        ({
            let readers = ReaderChain::start(reader).run(steps).readers;
            i > 0 && crate::outside::linked(readers[i - 1].next, readers[i].inner->Waiting_0)
        }),
{
    ReaderChain::lemma_run(reader, steps);
}

/// Whatever happens to a chain of readers, at most one reader has the underlying reader, which is
/// the one that the builder was made around as the polls of it have left it; all readers before it
/// are done, all after it wait.
pub proof fn law_readers_take_turns<R>(reader: R, steps: Seq<ReaderStep<R>>, i: int, j: int)
    requires
        ReaderChain::start(reader).can_run(steps),
        0 <= i < ReaderChain::start(reader).run(steps).readers.len(),
        0 <= j < ReaderChain::start(reader).run(steps).readers.len(),
        ReaderChain::start(reader).run(steps).readers[i].inner is MyTurn,
    ensures
        ({
            let readers = ReaderChain::start(reader).run(steps).readers;
            &&& readers[i].inner == SequentialReaderInner::MyTurn(
                ReaderChain::underlying(reader, steps),
            )
            &&& j < i ==> readers[j].inner is Empty
            &&& j > i ==> readers[j].inner is Waiting
        }),
{
    ReaderChain::lemma_run(reader, steps);
}

/// Whatever happens to a chain of readers, the underlying reader is in one place and in no second.
pub proof fn law_the_underlying_reader_is_in_one_place<R>(
    reader: R,
    steps: Seq<ReaderStep<R>>,
    k: int,
    l: int,
)
    requires
        ReaderChain::start(reader).can_run(steps),
    ensures
        ({
            let chain = ReaderChain::start(reader).run(steps);
            let underlying = ReaderChain::underlying(reader, steps);
            &&& chain.in_one_place(underlying)
            &&& chain.unused(underlying) ==> !chain.held_at(underlying, k) && !chain.lies_at(
                underlying,
                k,
            ) && !chain.gone()
            &&& chain.held_at(underlying, k) ==> !chain.lies_at(underlying, l) && !chain.gone()
            &&& chain.lies_at(underlying, k) ==> !chain.gone()
            &&& chain.held_at(underlying, k) && chain.held_at(underlying, l) ==> k == l
            &&& chain.lies_at(underlying, k) && chain.lies_at(underlying, l) ==> k == l
        }),
{
    ReaderChain::lemma_run(reader, steps);
}

/// A reader that waits is never stranded: the reader before it is still there and will pass the
/// underlying reader on, or has already sent it. So its receive never finds a closed channel.
pub proof fn law_no_reader_is_stranded<R>(reader: R, steps: Seq<ReaderStep<R>>, i: int)
    requires
        ReaderChain::start(reader).can_run(steps),
        0 <= i < ReaderChain::start(reader).run(steps).readers.len(),
        ReaderChain::start(reader).run(steps).readers[i].inner is Waiting,
    ensures
        ({
            let chain = ReaderChain::start(reader).run(steps);
            &&& i > 0
            &&& chain.readers[i - 1].inner !is Empty || chain.links[i - 1] == Some(
                ReaderChain::underlying(reader, steps),
            )
        }),
{
    ReaderChain::lemma_run(reader, steps);
}

/// A reader that is not done finds room in its channel: what passes the underlying reader on
/// never waits for room.
pub proof fn law_handover_finds_room<R>(reader: R, steps: Seq<ReaderStep<R>>, i: int)
    requires
        ReaderChain::start(reader).can_run(steps),
        0 <= i < ReaderChain::start(reader).run(steps).readers.len(),
        ReaderChain::start(reader).run(steps).readers[i].inner !is Empty,
    ensures
        ReaderChain::start(reader).run(steps).links[i] is None,
{
    ReaderChain::lemma_run(reader, steps);
}

/// Whatever happens to a chain of readers, of two reads the later one is by the same reader or by
/// a later one.
pub proof fn law_reads_follow_the_order_of_the_readers<R>(
    reader: R,
    steps: Seq<ReaderStep<R>>,
    a: int,
    b: int,
    i: int,
    j: int,
)
    requires
        ReaderChain::start(reader).can_run(steps),
        0 <= a < b < steps.len(),
        steps[a].reads(i),
        steps[b].reads(j),
    ensures
        i <= j,
    decreases steps.len(),
{
    let before = steps.drop_last();
    assert(before[a].reads(i));
    if b < before.len() {
        assert(before[b].reads(j));
        law_reads_follow_the_order_of_the_readers(reader, before, a, b, i, j);
    } else {
        lemma_done(reader, before, a, i);
        assert(ReaderChain::start(reader).run(before).readers[j].inner is MyTurn);
    }
}

/// The readers before one that has read stay done.
proof fn lemma_done<R>(reader: R, steps: Seq<ReaderStep<R>>, a: int, i: int)
    requires
        ReaderChain::start(reader).can_run(steps),
        0 <= a < steps.len(),
        steps[a].reads(i),
    ensures
        0 <= i < ReaderChain::start(reader).run(steps).readers.len(),
        forall|j: int|
            0 <= j < i ==> (#[trigger] ReaderChain::start(reader).run(steps).readers[j]).inner
                is Empty,
    decreases steps.len(),
{
    let before = ReaderChain::start(reader).run(steps.drop_last());
    ReaderChain::lemma_run(reader, steps.drop_last());
    before.lemma_step(steps.last(), ReaderChain::underlying(reader, steps.drop_last()));
    if a < steps.len() - 1 {
        assert(steps.drop_last()[a].reads(i));
        lemma_done(reader, steps.drop_last(), a, i);
    } else {
        assert(before.readers[i].inner is MyTurn);
    }
}

/// When a reader reads, it is the underlying reader that is polled, as the last poll of it has left
/// it, and all readers before were dropped.
pub proof fn law_a_read_is_one_of_the_underlying_reader<R>(
    reader: R,
    steps: Seq<ReaderStep<R>>,
    i: int,
    j: int,
)
    requires
        steps.len() > 0,
        ReaderChain::start(reader).can_run(steps),
        steps.last().reads(i),
    ensures
        ({
            let before = ReaderChain::start(reader).run(steps.drop_last());
            &&& before.readers[i].inner == SequentialReaderInner::MyTurn(
                ReaderChain::underlying(reader, steps.drop_last()),
            )
            &&& 0 <= j < i ==> before.readers[j].inner is Empty
        }),
{
    ReaderChain::lemma_run(reader, steps.drop_last());
}

/// What is read through all readers, put together in their order, is what the underlying reader
/// delivered, in order: nothing is lost and nothing repeated.
pub proof fn law_what_is_read_is_what_was_delivered<R>(reader: R, steps: Seq<ReaderStep<R>>)
    requires
        ReaderChain::start(reader).can_run(steps),
    ensures
        put_together(steps, ReaderChain::start(reader).run(steps).readers.len()) == delivered(
            steps,
        ),
    decreases steps.len(),
{
    let n = ReaderChain::start(reader).run(steps).readers.len();
    if steps.len() > 0 {
        let before = steps.drop_last();
        let m = ReaderChain::start(reader).run(before).readers.len();
        law_what_is_read_is_what_was_delivered(reader, before);
        if exists|i: int| steps.last().reads(i) {
            let i = choose|i: int| steps.last().reads(i);
            assert forall|a: int, j: int| 0 <= a < before.len() && i < j implies !(
            #[trigger] before[a].reads(j)) by {
                if before[a].reads(j) {
                    assert(steps[a].reads(j));
                    law_reads_follow_the_order_of_the_readers(
                        reader,
                        steps,
                        a,
                        steps.len() - 1,
                        j,
                        i,
                    );
                }
            }
            lemma_put_together_read(steps, i, n);
        } else {
            lemma_put_together_same(steps, m);
            if m < n {
                assert forall|a: int| 0 <= a < before.len() implies !(
                #[trigger] before[a].reads(m as int)) by {
                    if before[a].reads(m as int) {
                        lemma_done(reader, before, a, m as int);
                    }
                }
                lemma_read_through_nothing(before, m as int);
            }
            if let ReaderStep::Poll(i, ..) = steps.last() {
                assert(!steps.last().reads(i));
            }
            assert(delivered(steps) =~= delivered(before));
        }
    }
}

/// A reader that did not read got nothing.
proof fn lemma_read_through_nothing<R>(steps: Seq<ReaderStep<R>>, i: int)
    requires
        forall|a: int| 0 <= a < steps.len() ==> !(#[trigger] steps[a].reads(i)),
    ensures
        read_through(steps, i) == Seq::<u8>::empty(),
    decreases steps.len(),
{
    if steps.len() > 0 {
        assert(!steps[steps.len() - 1].reads(i));
        assert forall|a: int| 0 <= a < steps.drop_last().len() implies !(
        #[trigger] steps.drop_last()[a].reads(i)) by {
            assert(!steps[a].reads(i));
        }
        lemma_read_through_nothing(steps.drop_last(), i);
    }
}

/// A step that reads nothing adds nothing.
proof fn lemma_put_together_same<R>(steps: Seq<ReaderStep<R>>, n: nat)
    requires
        steps.len() > 0,
        forall|i: int| !(#[trigger] steps.last().reads(i)),
    ensures
        put_together(steps, n) == put_together(steps.drop_last(), n),
    decreases n,
{
    if n > 0 {
        lemma_put_together_same(steps, (n - 1) as nat);
    }
}

/// A read by the last reader that has read adds its bytes at the end.
proof fn lemma_put_together_read<R>(steps: Seq<ReaderStep<R>>, i: int, n: nat)
    requires
        steps.len() > 0,
        steps.last().reads(i),
        0 <= i,
        forall|a: int, j: int|
            0 <= a < steps.drop_last().len() && i < j ==> !(#[trigger] steps.drop_last()[a].reads(
                j,
            )),
    ensures
        put_together(steps, n) == put_together(steps.drop_last(), n) + (if i < n {
            steps.last().bytes()
        } else {
            Seq::empty()
        }),
    decreases n,
{
    if n > 0 {
        lemma_put_together_read(steps, i, (n - 1) as nat);
        if i < n - 1 {
            lemma_read_through_nothing(steps.drop_last(), n - 1);
        }
        let before = steps.drop_last();
        assert(put_together(steps, n) =~= put_together(before, n) + (if i < n {
            steps.last().bytes()
        } else {
            Seq::empty()
        }));
    }
}

} // verus!
