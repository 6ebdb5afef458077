use crate::error::Error;
use crate::packet::EncodedPacket;
use crate::rational::{
    Rational, compare_ts, earlier, lemma_earlier_trans, lemma_not_later_refl, lemma_not_later_trans,
    lemma_same_base, not_later, rescaled,
};
use std::cmp::Ordering;
use vstd::prelude::*;

verus! {

/// An output stream bound to one pipeline: the index and time base the
/// container gave the stream, and the time base of the pipeline's codec.
#[derive(Clone, Copy, Debug, PartialEq, Eq, Structural)]
pub struct StreamBinding {
    pub stream_index: u8,
    pub stream_time_base: Rational,
    pub codec_time_base: Rational,
}

impl StreamBinding {
    pub open spec fn valid(self) -> bool {
        self.stream_time_base.valid() && self.codec_time_base.valid()
    }
}

/// What the multiplexer holds for one pipeline.
pub enum Slot {
    /// The pipeline's next item has to be pulled.
    Waiting,
    /// The pipeline's next packet, pulled and not yet written.
    Ready(EncodedPacket),
    /// The pipeline has no more packets.
    Exhausted,
}

#[derive(Clone, Copy, Debug, PartialEq, Eq, Structural)]
pub enum Stage {
    /// The header is still to be written.
    Header,
    /// Packets are being merged.
    Running,
    /// The trailer has been handed out; nothing more is written.
    Finished,
    /// A pipeline or the container failed; nothing more is written.
    Failed,
}

/// The next thing the caller does for the multiplexer.
pub enum MuxAction {
    /// Write the container header, then report with `on_written`.
    WriteHeader,
    /// Pull the next item of pipeline `i` and hand it to `on_pulled`.
    Pull(usize),
    /// Write this packet, interleaved, then report with `on_written`.
    Write(EncodedPacket),
    /// Write the container trailer, then report with `on_written`.
    WriteTrailer,
    /// Nothing is left to do.
    Done,
    /// The multiplex operation failed with this error.
    Fail(Error),
}

/// A written packet as it was pulled: its timestamp, the time base of its
/// codec, and the index of the stream it was written to.
pub type Record = (int, Rational, u8);

/// Written packets come in non-decreasing order of the time they stand for.
pub open spec fn in_time_order(s: Seq<Record>) -> bool {
    forall|i: int, j: int|
        0 <= i < j < s.len() ==> not_later(#[trigger] s[i].0, s[i].1, #[trigger] s[j].0, s[j].1)
}

/// Every record of `s` stands for a time no later than `pts` in `tb`.
pub open spec fn all_not_later(s: Seq<Record>, pts: int, tb: Rational) -> bool {
    forall|k: int| 0 <= k < s.len() ==> not_later(#[trigger] s[k].0, s[k].1, pts, tb)
}

/// Merges the packets of several pipelines into one container: always the
/// pending packet with the earliest time next, rescaled into its stream's
/// time base and stamped with its stream's index.
pub struct Muxer {
    bindings: Vec<StreamBinding>,
    slots: Vec<Slot>,
    stage: Stage,
    last: Ghost<Seq<Option<int>>>,
    written: Ghost<Seq<Record>>,
    in_order: Ghost<bool>,
    pulled: Ghost<nat>,
}

impl Muxer {
    pub closed spec fn bindings_spec(&self) -> Seq<StreamBinding> {
        self.bindings@
    }

    pub closed spec fn slots_spec(&self) -> Seq<Slot> {
        self.slots@
    }

    pub closed spec fn stage_spec(&self) -> Stage {
        self.stage
    }

    /// Every packet written so far, in order.
    pub closed spec fn written(&self) -> Seq<Record> {
        self.written@
    }

    /// The timestamp of the last packet pulled from each pipeline.
    pub closed spec fn last_pulled(&self) -> Seq<Option<int>> {
        self.last@
    }

    /// Every pipeline has handed over its packets with timestamps that
    /// never decrease.
    /// The number of packets pulled from the pipelines so far.
    pub closed spec fn pulled_count(&self) -> nat {
        self.pulled@
    }

    pub closed spec fn in_order(&self) -> bool {
        self.in_order@
    }

    pub closed spec fn head_time_bounds_written(&self, j: int) -> bool {
        match self.slots@[j] {
            Slot::Ready(h) => all_not_later(self.written@, h.pts as int, self.bindings@[j].codec_time_base),
            Slot::Waiting => match self.last@[j] {
                Some(q) => all_not_later(self.written@, q, self.bindings@[j].codec_time_base),
                None => self.written@.len() == 0,
            },
            Slot::Exhausted => true,
        }
    }

    pub closed spec fn wf(&self) -> bool {
        &&& self.slots@.len() == self.bindings@.len()
        &&& self.last@.len() == self.bindings@.len()
        &&& forall|j: int| 0 <= j < self.bindings@.len() ==> (#[trigger] self.bindings@[j]).valid()
        &&& forall|j: int|
            0 <= j < self.slots@.len() ==> (#[trigger] self.slots@[j] matches Slot::Ready(h)
                ==> self.last@[j] == Some(h.pts as int))
        &&& forall|k: int| 0 <= k < self.written@.len() ==> (#[trigger] self.written@[k]).1.valid()
        &&& self.stage == Stage::Header ==> self.written@.len() == 0
        &&& self.stage != Stage::Failed ==> self.written@.len() + ready_count(self.slots@) == self.pulled@
        &&& self.stage == Stage::Finished ==> forall|j: int|
            0 <= j < self.slots@.len() ==> #[trigger] self.slots@[j] is Exhausted
        &&& self.in_order@ ==> in_time_order(self.written@)
        &&& self.in_order@ ==> forall|j: int|
            0 <= j < self.slots@.len() ==> #[trigger] self.head_time_bounds_written(j)
    }

    pub open spec fn head_pts(&self, j: int) -> int {
        self.slots_spec()[j]->Ready_0.pts as int
    }

    pub open spec fn head_tb(&self, j: int) -> Rational {
        self.bindings_spec()[j].codec_time_base
    }

    /// Lane `i` holds the pending packet to write next: the earliest one,
    /// and of equally early ones, the one listed first.
    pub open spec fn is_choice(&self, i: int) -> bool {
        &&& 0 <= i < self.slots_spec().len()
        &&& self.slots_spec()[i] is Ready
        &&& forall|j: int|
            0 <= j < self.slots_spec().len() && #[trigger] self.slots_spec()[j] is Ready ==> not_later(
                self.head_pts(i),
                self.head_tb(i),
                self.head_pts(j),
                self.head_tb(j),
            )
        &&& forall|j: int|
            0 <= j < i && #[trigger] self.slots_spec()[j] is Ready ==> earlier(
                self.head_pts(i),
                self.head_tb(i),
                self.head_pts(j),
                self.head_tb(j),
            )
    }

    fn select(&self) -> (r: Option<usize>)
        requires
            self.wf(),
        ensures
            match r {
                Some(i) => self.is_choice(i as int),
                None => forall|j: int| 0 <= j < self.slots@.len() ==> !(#[trigger] self.slots@[j] is Ready),
            },
    {
        let n = self.slots.len();
        let mut best: Option<usize> = None;
        let mut best_pts: i64 = 0;
        let mut best_tb: Rational = Rational::new(1, 1);
        let mut j: usize = 0;
        while j < n
            invariant
                self.wf(),
                n == self.slots@.len(),
                j <= n,
                match best {
                    Some(b) => {
                        &&& b < j
                        &&& self.slots@[b as int] is Ready
                        &&& best_pts as int == self.head_pts(b as int)
                        &&& best_tb == self.head_tb(b as int)
                        &&& forall|k: int|
                            0 <= k < j && #[trigger] self.slots@[k] is Ready ==> not_later(
                                self.head_pts(b as int),
                                self.head_tb(b as int),
                                self.head_pts(k),
                                self.head_tb(k),
                            )
                        &&& forall|k: int|
                            0 <= k < b && #[trigger] self.slots@[k] is Ready ==> earlier(
                                self.head_pts(b as int),
                                self.head_tb(b as int),
                                self.head_pts(k),
                                self.head_tb(k),
                            )
                    },
                    None => forall|k: int| 0 <= k < j ==> !(#[trigger] self.slots@[k] is Ready),
                },
            decreases n - j,
        {
            match &self.slots[j] {
                Slot::Ready(p) => {
                    let tb = self.bindings[j].codec_time_base;
                    assert(self.bindings@[j as int].valid());
                    match best {
                        None => {
                            best = Some(j);
                            best_pts = p.pts;
                            best_tb = tb;
                        },
                        Some(b) => {
                            assert(self.bindings@[b as int].valid());
                            if matches!(compare_ts(p.pts, tb, best_pts, best_tb), Ordering::Less) {
                                proof {
                                    assert forall|k: int|
                                        0 <= k < j + 1 && #[trigger] self.slots@[k] is Ready implies not_later(
                                        self.head_pts(j as int),
                                        self.head_tb(j as int),
                                        self.head_pts(k),
                                        self.head_tb(k),
                                    ) by {
                                        if k < j {
                                            assert(self.bindings@[k].valid());
                                            lemma_earlier_trans(
                                                self.head_pts(j as int),
                                                self.head_tb(j as int),
                                                self.head_pts(b as int),
                                                self.head_tb(b as int),
                                                self.head_pts(k),
                                                self.head_tb(k),
                                            );
                                        } else {
                                            lemma_not_later_refl(self.head_pts(j as int), self.head_tb(j as int));
                                        }
                                    }
                                    assert forall|k: int|
                                        0 <= k < j && #[trigger] self.slots@[k] is Ready implies earlier(
                                        self.head_pts(j as int),
                                        self.head_tb(j as int),
                                        self.head_pts(k),
                                        self.head_tb(k),
                                    ) by {
                                        assert(self.bindings@[k].valid());
                                        lemma_earlier_trans(
                                            self.head_pts(j as int),
                                            self.head_tb(j as int),
                                            self.head_pts(b as int),
                                            self.head_tb(b as int),
                                            self.head_pts(k),
                                            self.head_tb(k),
                                        );
                                    }
                                }
                                best = Some(j);
                                best_pts = p.pts;
                                best_tb = tb;
                            }
                        },
                    }
                },
                _ => {},
            }
            j += 1;
        }
        best
    }

    /// A multiplexer for the given streams, before the header.
    pub fn new(bindings: Vec<StreamBinding>) -> (r: Muxer)
        requires
            forall|j: int| 0 <= j < bindings@.len() ==> (#[trigger] bindings@[j]).valid(),
        ensures
            r.wf(),
            r.bindings_spec() == bindings@,
            r.slots_spec().len() == bindings@.len(),
            forall|j: int| 0 <= j < bindings@.len() ==> #[trigger] r.slots_spec()[j] is Waiting,
            r.stage_spec() == Stage::Header,
            r.written().len() == 0,
            r.pulled_count() == 0,
            r.in_order(),
    {
        let n = bindings.len();
        let mut slots: Vec<Slot> = Vec::new();
        let mut i: usize = 0;
        while i < n
            invariant
                n == bindings@.len(),
                i <= n,
                slots@.len() == i,
                forall|j: int| 0 <= j < i ==> #[trigger] slots@[j] is Waiting,
            decreases n - i,
        {
            slots.push(Slot::Waiting);
            i += 1;
        }
        let r = Muxer {
            bindings,
            slots,
            stage: Stage::Header,
            last: Ghost(Seq::new(n as nat, |j: int| None)),
            written: Ghost(Seq::empty()),
            in_order: Ghost(true),
            pulled: Ghost(0),
        };
        assert forall|j: int| 0 <= j < r.slots@.len() implies #[trigger] r.head_time_bounds_written(j) by {
            assert(r.slots@[j] is Waiting);
        }
        proof {
            lemma_ready_count_none(r.slots@);
        }
        r
    }

    /// Adds a stream before the header is written.
    pub fn add_stream(&mut self, binding: StreamBinding)
        requires
            old(self).wf(),
            old(self).stage_spec() == Stage::Header,
            binding.valid(),
        ensures
            final(self).wf(),
            final(self).bindings_spec() == old(self).bindings_spec().push(binding),
            final(self).slots_spec() == old(self).slots_spec().push(Slot::Waiting),
            final(self).stage_spec() == Stage::Header,
            final(self).written() == old(self).written(),
            final(self).in_order() == old(self).in_order(),
            final(self).pulled_count() == old(self).pulled_count(),
    {
        self.bindings.push(binding);
        self.slots.push(Slot::Waiting);
        proof {
            self.last@ = self.last@.push(None);
            assert(self.slots@.drop_last() =~= old(self).slots@);
        }
        assert forall|j: int| 0 <= j < self.slots@.len() implies #[trigger] self.head_time_bounds_written(j) by {
            if j < old(self).slots@.len() {
                assert(old(self).head_time_bounds_written(j));
            }
        }
    }

    /// No pipeline's next item is still to be pulled.
    pub open spec fn settled(&self) -> bool {
        forall|j: int| 0 <= j < self.slots_spec().len() ==> !(#[trigger] self.slots_spec()[j] is Waiting)
    }

    /// Every pipeline is exhausted.
    pub open spec fn exhausted(&self) -> bool {
        forall|j: int| 0 <= j < self.slots_spec().len() ==> #[trigger] self.slots_spec()[j] is Exhausted
    }

    /// What lane `i`'s pending packet is recorded as once written.
    pub open spec fn record_of(&self, i: int) -> Record {
        (self.head_pts(i), self.head_tb(i), self.bindings_spec()[i].stream_index)
    }

    fn first_waiting(&self) -> (r: Option<usize>)
        ensures
            match r {
                Some(i) => i < self.slots@.len() && self.slots@[i as int] is Waiting && forall|j: int|
                    0 <= j < i ==> !(#[trigger] self.slots@[j] is Waiting),
                None => self.settled(),
            },
    {
        let n = self.slots.len();
        let mut i: usize = 0;
        while i < n
            invariant
                n == self.slots@.len(),
                i <= n,
                forall|j: int| 0 <= j < i ==> !(#[trigger] self.slots@[j] is Waiting),
            decreases n - i,
        {
            if matches!(self.slots[i], Slot::Waiting) {
                return Some(i);
            }
            i += 1;
        }
        None
    }

    /// Decides the next step. The header comes first, once. While any
    /// pipeline's next item is unknown it is pulled, first listed first.
    /// Then the earliest pending packet, by the time it stands for (ties to
    /// the pipeline listed first), is rescaled from its codec's time base
    /// into its stream's, stamped with its stream's index, and written. Once
    /// every pipeline is exhausted the trailer is written, once; after it, or
    /// after a failure, nothing more is.
    pub fn next_action(&mut self) -> (r: MuxAction)
        requires
            old(self).wf(),
        ensures
            final(self).wf(),
            final(self).bindings_spec() == old(self).bindings_spec(),
            final(self).in_order() == old(self).in_order(),
            final(self).last_pulled() == old(self).last_pulled(),
            final(self).pulled_count() == old(self).pulled_count(),
            r is WriteTrailer ==> old(self).stage_spec() == Stage::Running && old(self).exhausted()
                && final(self).stage_spec() == Stage::Finished,
            old(self).stage_spec() == Stage::Header ==> {
                &&& r is WriteHeader
                &&& final(self).stage_spec() == Stage::Running
                &&& final(self).slots_spec() == old(self).slots_spec()
                &&& final(self).written() == old(self).written()
            },
            old(self).stage_spec() == Stage::Finished || old(self).stage_spec() == Stage::Failed ==> {
                &&& r is Done
                &&& final(self).stage_spec() == old(self).stage_spec()
                &&& final(self).slots_spec() == old(self).slots_spec()
                &&& final(self).written() == old(self).written()
            },
            old(self).stage_spec() == Stage::Running && !old(self).settled() ==> {
                &&& r matches MuxAction::Pull(i) && i < old(self).slots_spec().len()
                    && old(self).slots_spec()[i as int] is Waiting
                    && forall|j: int| 0 <= j < i ==> !(#[trigger] old(self).slots_spec()[j] is Waiting)
                &&& final(self).stage_spec() == Stage::Running
                &&& final(self).slots_spec() == old(self).slots_spec()
                &&& final(self).written() == old(self).written()
            },
            old(self).stage_spec() == Stage::Running && old(self).exhausted() ==> {
                &&& r is WriteTrailer
                &&& final(self).stage_spec() == Stage::Finished
                &&& final(self).slots_spec() == old(self).slots_spec()
                &&& final(self).written() == old(self).written()
            },
            old(self).stage_spec() == Stage::Running && old(self).settled() && !old(self).exhausted()
                ==> exists|i: int|
                #![trigger old(self).is_choice(i)]
                {
                    &&& old(self).is_choice(i)
                    &&& match r {
                        MuxAction::Write(p) => {
                            &&& p.pts as int == rescaled(
                                old(self).head_pts(i),
                                old(self).head_tb(i),
                                old(self).bindings_spec()[i].stream_time_base,
                            )
                            &&& p.stream_index == old(self).bindings_spec()[i].stream_index
                            &&& p.data@ == old(self).slots_spec()[i]->Ready_0.data@
                            &&& final(self).stage_spec() == Stage::Running
                            &&& final(self).slots_spec() == old(self).slots_spec().update(i, Slot::Waiting)
                            &&& final(self).written() == old(self).written().push(old(self).record_of(i))
                        },
                        MuxAction::Fail(_) => {
                            &&& !(i64::MIN <= rescaled(
                                old(self).head_pts(i),
                                old(self).head_tb(i),
                                old(self).bindings_spec()[i].stream_time_base,
                            ) <= i64::MAX)
                            &&& final(self).stage_spec() == Stage::Failed
                            &&& final(self).written() == old(self).written()
                        },
                        _ => false,
                    }
                },
    {
        match self.stage {
            Stage::Header => {
                self.stage = Stage::Running;
                return MuxAction::WriteHeader;
            },
            Stage::Finished | Stage::Failed => {
                return MuxAction::Done;
            },
            Stage::Running => {},
        }
        if let Some(i) = self.first_waiting() {
            return MuxAction::Pull(i);
        }
        match self.select() {
            None => {
                assert(self.exhausted()) by {
                    assert forall|j: int| 0 <= j < self.slots@.len() implies #[trigger] self.slots@[j] is Exhausted by {
                        assert(!(self.slots@[j] is Waiting));
                        assert(!(self.slots@[j] is Ready));
                    }
                }
                self.stage = Stage::Finished;
                MuxAction::WriteTrailer
            },
            Some(i) => {
                assert(!self.exhausted()) by {
                    assert(!(self.slots@[i as int] is Exhausted));
                }
                let ghost pre = *self;
                let binding = self.bindings[i];
                assert(self.bindings@[i as int].valid());
                let slot = self.slots.remove(i);
                self.slots.insert(i, Slot::Waiting);
                assert(self.slots@ =~= pre.slots@.update(i as int, Slot::Waiting));
                match slot {
                    Slot::Ready(mut packet) => {
                        match packet.rescale_ts(binding.codec_time_base, binding.stream_time_base) {
                            Err(e) => {
                                self.stage = Stage::Failed;
                                proof {
                                    assert(pre.is_choice(i as int));
                                    if self.in_order@ {
                                        assert forall|j: int|
                                            0 <= j < self.slots@.len() implies #[trigger] self.head_time_bounds_written(j) by {
                                            assert(pre.head_time_bounds_written(j));
                                        }
                                    }
                                }
                                MuxAction::Fail(e)
                            },
                            Ok(()) => {
                                packet.set_stream_index(binding.stream_index);
                                proof {
                                    let ii = i as int;
                                    assert(pre.is_choice(ii));
                                    let rec = pre.record_of(ii);
                                    let hi = pre.head_pts(ii);
                                    let ti = pre.head_tb(ii);
                                    self.written@ = pre.written@.push(rec);
                                    lemma_ready_count_update(pre.slots@, ii, Slot::Waiting);
                                    assert forall|k: int| 0 <= k < self.written@.len() implies (#[trigger] self.written@[k]).1.valid() by {
                                        if k < pre.written@.len() {
                                            assert(self.written@[k] == pre.written@[k]);
                                        }
                                    }
                                    if self.in_order@ {
                                        assert(pre.head_time_bounds_written(ii));
                                        assert forall|a: int, b: int|
                                            0 <= a < b < self.written@.len() implies not_later(
                                            #[trigger] self.written@[a].0,
                                            self.written@[a].1,
                                            #[trigger] self.written@[b].0,
                                            self.written@[b].1,
                                        ) by {
                                            assert(self.written@[a] == pre.written@[a]);
                                            if b < pre.written@.len() {
                                                assert(self.written@[b] == pre.written@[b]);
                                            }
                                        }
                                        assert forall|j: int|
                                            0 <= j < self.slots@.len() implies #[trigger] self.head_time_bounds_written(j) by {
                                            assert(pre.head_time_bounds_written(j));
                                            assert(!(pre.slots@[j] is Waiting));
                                            if j == ii {
                                                assert forall|k: int| 0 <= k < self.written@.len() implies not_later(
                                                    #[trigger] self.written@[k].0,
                                                    self.written@[k].1,
                                                    hi,
                                                    ti,
                                                ) by {
                                                    if k < pre.written@.len() {
                                                        assert(self.written@[k] == pre.written@[k]);
                                                    } else {
                                                        lemma_not_later_refl(hi, ti);
                                                    }
                                                }
                                            } else if pre.slots@[j] is Ready {
                                                assert(self.slots@[j] == pre.slots@[j]);
                                                assert forall|k: int| 0 <= k < self.written@.len() implies not_later(
                                                    #[trigger] self.written@[k].0,
                                                    self.written@[k].1,
                                                    pre.head_pts(j),
                                                    pre.head_tb(j),
                                                ) by {
                                                    if k < pre.written@.len() {
                                                        assert(self.written@[k] == pre.written@[k]);
                                                    }
                                                }
                                            }
                                        }
                                    }
                                }
                                MuxAction::Write(packet)
                            },
                        }
                    },
                    _ => {
                        proof {
                            assert(false);
                        }
                        MuxAction::Done
                    },
                }
            },
        }
    }

    /// Takes the item pulled from pipeline `i`: a packet becomes its pending
    /// packet; `None` marks it exhausted; an error fails the whole operation
    /// and is handed back.
    pub fn on_pulled(&mut self, i: usize, item: Option<Result<EncodedPacket, Error>>) -> (r: Result<(), Error>)
        requires
            old(self).wf(),
            old(self).stage_spec() == Stage::Running,
            i < old(self).slots_spec().len(),
            old(self).slots_spec()[i as int] is Waiting,
        ensures
            final(self).wf(),
            final(self).bindings_spec() == old(self).bindings_spec(),
            final(self).written() == old(self).written(),
            match item {
                Some(Ok(p)) => {
                    &&& r is Ok
                    &&& final(self).stage_spec() == Stage::Running
                    &&& final(self).slots_spec() == old(self).slots_spec().update(i as int, Slot::Ready(p))
                    &&& final(self).last_pulled() == old(self).last_pulled().update(i as int, Some(p.pts as int))
                    &&& final(self).in_order() == (old(self).in_order() && (old(self).last_pulled()[i as int] matches Some(q) ==> q <= p.pts))
                    &&& final(self).pulled_count() == old(self).pulled_count() + 1
                },
                None => {
                    &&& r is Ok
                    &&& final(self).stage_spec() == Stage::Running
                    &&& final(self).slots_spec() == old(self).slots_spec().update(i as int, Slot::Exhausted)
                    &&& final(self).last_pulled() == old(self).last_pulled()
                    &&& final(self).in_order() == old(self).in_order()
                    &&& final(self).pulled_count() == old(self).pulled_count()
                },
                Some(Err(e)) => {
                    &&& r == Err::<(), Error>(e)
                    &&& final(self).stage_spec() == Stage::Failed
                    &&& final(self).slots_spec() == old(self).slots_spec()
                    &&& final(self).last_pulled() == old(self).last_pulled()
                    &&& final(self).in_order() == old(self).in_order()
                    &&& final(self).pulled_count() == old(self).pulled_count()
                },
            },
    {
        let ghost pre = *self;
        match item {
            Some(Ok(packet)) => {
                let ghost pts = packet.pts as int;
                let ghost p = packet;
                proof {
                    let prev = self.last@[i as int];
                    self.in_order@ = self.in_order@ && (prev matches Some(q) ==> q <= pts);
                    self.last@ = self.last@.update(i as int, Some(pts));
                    self.pulled@ = self.pulled@ + 1;
                }
                self.slots.set(i, Slot::Ready(packet));
                proof {
                    lemma_ready_count_update(pre.slots@, i as int, Slot::Ready(p));
                    let tb = self.bindings@[i as int].codec_time_base;
                    assert(self.bindings@[i as int].valid());
                    if self.in_order@ {
                        assert forall|j: int| 0 <= j < self.slots@.len() implies #[trigger] self.head_time_bounds_written(j) by {
                            assert(pre.head_time_bounds_written(j));
                            if j == i as int {
                                match pre.last@[j] {
                                    Some(q) => {
                                        lemma_same_base(q, pts, tb);
                                        assert forall|k: int| 0 <= k < self.written@.len() implies not_later(
                                            #[trigger] self.written@[k].0,
                                            self.written@[k].1,
                                            pts,
                                            tb,
                                        ) by {
                                            lemma_not_later_trans(
                                                self.written@[k].0,
                                                self.written@[k].1,
                                                q,
                                                tb,
                                                pts,
                                                tb,
                                            );
                                        }
                                    },
                                    None => {},
                                }
                            }
                        }
                    }
                }
                Ok(())
            },
            None => {
                self.slots.set(i, Slot::Exhausted);
                proof {
                    lemma_ready_count_update(pre.slots@, i as int, Slot::Exhausted);
                    if self.in_order@ {
                        assert forall|j: int| 0 <= j < self.slots@.len() implies #[trigger] self.head_time_bounds_written(j) by {
                            assert(pre.head_time_bounds_written(j));
                        }
                    }
                }
                Ok(())
            },
            Some(Err(e)) => {
                self.stage = Stage::Failed;
                proof {
                    if self.in_order@ {
                        assert forall|j: int| 0 <= j < self.slots@.len() implies #[trigger] self.head_time_bounds_written(j) by {
                            assert(pre.head_time_bounds_written(j));
                        }
                    }
                }
                Err(e)
            },
        }
    }

    /// Takes the container's answer to a header, packet or trailer write. A
    /// failure fails the whole operation.
    pub fn on_written(&mut self, status: Result<(), i32>) -> (r: Result<(), Error>)
        requires
            old(self).wf(),
        ensures
            final(self).wf(),
            final(self).bindings_spec() == old(self).bindings_spec(),
            final(self).slots_spec() == old(self).slots_spec(),
            final(self).written() == old(self).written(),
            final(self).last_pulled() == old(self).last_pulled(),
            final(self).in_order() == old(self).in_order(),
            final(self).pulled_count() == old(self).pulled_count(),
            match status {
                Ok(()) => r is Ok && final(self).stage_spec() == old(self).stage_spec(),
                Err(code) => r == Err::<(), Error>(Error::Code(code)) && final(self).stage_spec()
                    == Stage::Failed,
            },
    {
        match status {
            Ok(()) => Ok(()),
            Err(code) => {
                let ghost pre = *self;
                self.stage = Stage::Failed;
                proof {
                    if self.in_order@ {
                        assert forall|j: int| 0 <= j < self.slots@.len() implies #[trigger] self.head_time_bounds_written(j) by {
                            assert(pre.head_time_bounds_written(j));
                        }
                    }
                }
                Err(Error::Code(code))
            },
        }
    }

    pub fn stage(&self) -> (r: Stage)
        ensures
            r == self.stage_spec(),
    {
        self.stage
    }

    /// The number of streams being merged, exhausted ones included.
    pub fn stream_count(&self) -> (r: usize)
        ensures
            r == self.slots_spec().len(),
    {
        self.slots.len()
    }

    /// Whether `on_pulled(i, ..)` may be called now.
    pub fn awaits_pull(&self, i: usize) -> (r: bool)
        requires
            self.wf(),
        ensures
            r == (self.stage_spec() == Stage::Running && i < self.slots_spec().len()
                && self.slots_spec()[i as int] is Waiting),
    {
        match self.stage {
            Stage::Running => i < self.slots.len() && matches!(self.slots[i], Slot::Waiting),
            _ => false,
        }
    }
}

/// The number of lanes holding a pending packet.
pub open spec fn ready_count(s: Seq<Slot>) -> nat
    decreases s.len(),
{
    if s.len() == 0 {
        0
    } else {
        ready_count(s.drop_last()) + if s.last() is Ready {
            1nat
        } else {
            0nat
        }
    }
}

proof fn lemma_ready_count_update(s: Seq<Slot>, i: int, x: Slot)
    requires
        0 <= i < s.len(),
    ensures
        ready_count(s.update(i, x)) + (if s[i] is Ready { 1nat } else { 0nat }) == ready_count(s) + (
        if x is Ready {
            1nat
        } else {
            0nat
        }),
    decreases s.len(),
{
    if i == s.len() - 1 {
        assert(s.update(i, x).drop_last() =~= s.drop_last());
    } else {
        lemma_ready_count_update(s.drop_last(), i, x);
        assert(s.update(i, x).drop_last() =~= s.drop_last().update(i, x));
    }
}

proof fn lemma_ready_count_none(s: Seq<Slot>)
    requires
        forall|j: int| 0 <= j < s.len() ==> !(#[trigger] s[j] is Ready),
    ensures
        ready_count(s) == 0,
    decreases s.len(),
{
    if s.len() > 0 {
        lemma_ready_count_none(s.drop_last());
    }
}

/// Once the trailer has been handed out, the multiplexer has written as
/// many packets as it pulled from the pipelines: none is lost or repeated.
pub proof fn lemma_all_pulled_written(m: &Muxer)
    requires
        m.wf(),
        m.stage_spec() == Stage::Finished,
    ensures
        m.written().len() == m.pulled_count(),
{
    lemma_ready_count_none(m.slots_spec());
}

/// While every pipeline hands over its packets with timestamps that never
/// decrease, the packets the multiplexer has written stand for times that
/// never decrease, across all streams.
pub proof fn lemma_merge_order(m: &Muxer)
    requires
        m.wf(),
        m.in_order(),
    ensures
        in_time_order(m.written()),
{
}

} // verus!
