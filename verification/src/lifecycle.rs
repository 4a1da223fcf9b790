//! Ownership of the native handle, and when destroy runs.
//!
//! A unified client owns its handle alone and destroys it when the owning
//! scope ends. Splitting replaces the client by a pair — any number of
//! producer clones plus one consumer — that owns the handle jointly; the
//! native destroy runs on the release of the last owner, in whatever
//! order the owners go away, and never twice.

use vstd::prelude::*;

verus! {

/// A unified client: sole owner of one handle.
pub struct ClientLife {
    pub alive: bool,
    pub destroys: u64,
}

/// A split pair: how many producer clones are live, whether the consumer
/// is live, and how often the native destroy has run on the handle.
pub struct SplitLife {
    pub producers: u64,
    pub consumer_alive: bool,
    pub destroys: u64,
}

/// What can happen to a split pair.
#[derive(Clone, Copy, Debug, PartialEq, Eq, Structural)]
pub enum LifeEvent {
    CloneProducer,
    DropProducer,
    DropConsumer,
}

impl ClientLife {
    /// Destroy has run exactly once the client is gone, and never twice.
    pub open spec fn wf(self) -> bool {
        &&& self.destroys <= 1
        &&& (self.destroys == 0 <==> self.alive)
    }

    /// The native create returned a handle; the client owns it alone.
    pub fn new() -> (c: ClientLife)
        ensures
            c.alive,
            c.destroys == 0,
            c.wf(),
    {
        ClientLife { alive: true, destroys: 0 }
    }

    /// The owning scope ends: the one exit path of the one owner, so the
    /// native destroy runs here, exactly once.
    pub fn drop_client(&mut self)
        requires
            old(self).wf(),
            old(self).alive,
        ensures
            final(self).wf(),
            !final(self).alive,
            final(self).destroys == 1,
    {
        self.alive = false;
        self.destroys = self.destroys + 1;
    }

    /// Splitting consumes the client without touching the handle: the
    /// fresh pair owns what the client owned, and destroy has not run.
    pub fn split(self) -> (p: SplitLife)
        requires
            self.wf(),
            self.alive,
        ensures
            p == SplitLife::fresh(),
            p.wf(),
    {
        SplitLife { producers: 1, consumer_alive: true, destroys: 0 }
    }
}

impl SplitLife {
    /// How many owners the handle has: producer clones plus the consumer.
    pub open spec fn owners(self) -> int {
        self.producers + if self.consumer_alive {
            1int
        } else {
            0int
        }
    }

    /// Destroy has run exactly once the last owner is gone, and never
    /// twice. This is the invariant every event preserves.
    pub open spec fn wf(self) -> bool {
        &&& self.destroys <= 1
        &&& (self.destroys == 1 <==> self.owners() == 0)
    }

    /// The pair as `split` yields it: one producer, one consumer.
    pub open spec fn fresh() -> SplitLife {
        SplitLife { producers: 1, consumer_alive: true, destroys: 0 }
    }

    /// Which events a pair in this state admits.
    pub open spec fn enabled(self, e: LifeEvent) -> bool {
        match e {
            LifeEvent::CloneProducer => self.producers >= 1 && self.producers < u64::MAX,
            LifeEvent::DropProducer => self.producers >= 1,
            LifeEvent::DropConsumer => self.consumer_alive,
        }
    }

    /// The state after one event: a clone adds an owner; a drop removes
    /// one and fires destroy exactly if it removed the last.
    pub open spec fn step(self, e: LifeEvent) -> SplitLife
        recommends
            self.enabled(e),
    {
        match e {
            LifeEvent::CloneProducer => SplitLife {
                producers: (self.producers + 1) as u64,
                consumer_alive: self.consumer_alive,
                destroys: self.destroys,
            },
            LifeEvent::DropProducer => SplitLife {
                producers: (self.producers - 1) as u64,
                consumer_alive: self.consumer_alive,
                destroys: if self.producers == 1 && !self.consumer_alive {
                    (self.destroys + 1) as u64
                } else {
                    self.destroys
                },
            },
            LifeEvent::DropConsumer => SplitLife {
                producers: self.producers,
                consumer_alive: false,
                destroys: if self.producers == 0 {
                    (self.destroys + 1) as u64
                } else {
                    self.destroys
                },
            },
        }
    }

    /// A producer clone comes into being; all clones share the handle.
    pub fn clone_producer(&mut self)
        requires
            old(self).wf(),
            old(self).enabled(LifeEvent::CloneProducer),
        ensures
            *final(self) == old(self).step(LifeEvent::CloneProducer),
            final(self).wf(),
    {
        self.producers = self.producers + 1;
    }

    /// A producer clone goes away. Returns whether that released the last
    /// owner, which is exactly when the native destroy runs.
    pub fn drop_producer(&mut self) -> (destroyed_now: bool)
        requires
            old(self).wf(),
            old(self).enabled(LifeEvent::DropProducer),
        ensures
            *final(self) == old(self).step(LifeEvent::DropProducer),
            final(self).wf(),
            destroyed_now <==> final(self).destroys == old(self).destroys + 1,
            destroyed_now <==> old(self).owners() == 1,
    {
        self.producers = self.producers - 1;
        if self.producers == 0 && !self.consumer_alive {
            self.destroys = self.destroys + 1;
            true
        } else {
            false
        }
    }

    /// The consumer goes away. Returns whether that released the last
    /// owner, which is exactly when the native destroy runs.
    pub fn drop_consumer(&mut self) -> (destroyed_now: bool)
        requires
            old(self).wf(),
            old(self).enabled(LifeEvent::DropConsumer),
        ensures
            *final(self) == old(self).step(LifeEvent::DropConsumer),
            final(self).wf(),
            destroyed_now <==> final(self).destroys == old(self).destroys + 1,
            destroyed_now <==> old(self).owners() == 1,
    {
        self.consumer_alive = false;
        if self.producers == 0 {
            self.destroys = self.destroys + 1;
            true
        } else {
            false
        }
    }
}

/// The state after a whole sequence of events.
pub open spec fn run_events(s: SplitLife, evs: Seq<LifeEvent>) -> SplitLife
    decreases evs.len(),
{
    if evs.len() == 0 {
        s
    } else {
        run_events(s.step(evs[0]), evs.drop_first())
    }
}

/// Whether each event of the sequence is admitted by the state it meets.
pub open spec fn events_enabled(s: SplitLife, evs: Seq<LifeEvent>) -> bool
    decreases evs.len(),
{
    evs.len() == 0 || (s.enabled(evs[0]) && events_enabled(s.step(evs[0]), evs.drop_first()))
}

/// One admitted event preserves the invariant.
pub proof fn lemma_step_wf(s: SplitLife, e: LifeEvent)
    requires
        s.wf(),
        s.enabled(e),
    ensures
        s.step(e).wf(),
{
}

/// Any admitted sequence of events preserves the invariant.
pub proof fn lemma_run_wf(s: SplitLife, evs: Seq<LifeEvent>)
    requires
        s.wf(),
        events_enabled(s, evs),
    ensures
        run_events(s, evs).wf(),
    decreases evs.len(),
{
    if evs.len() > 0 {
        lemma_step_wf(s, evs[0]);
        lemma_run_wf(s.step(evs[0]), evs.drop_first());
    }
}

/// From a fresh split, after any admitted sequence of clones and drops,
/// in any order and from any interleaving of threads, the native destroy
/// has run exactly once when no owner is left, and not at all while an
/// owner remains.
pub proof fn lemma_destroy_exactly_once(evs: Seq<LifeEvent>)
    requires
        events_enabled(SplitLife::fresh(), evs),
    ensures
        run_events(SplitLife::fresh(), evs).owners() == 0 ==> run_events(
            SplitLife::fresh(),
            evs,
        ).destroys == 1,
        run_events(SplitLife::fresh(), evs).owners() > 0 ==> run_events(
            SplitLife::fresh(),
            evs,
        ).destroys == 0,
{
    lemma_run_wf(SplitLife::fresh(), evs);
}

/// Dropping the producer and the consumer of a fresh split, in either
/// order, fires no destroy after the first drop and exactly one after the
/// second.
pub proof fn lemma_pair_drop_either_order()
    ensures
        SplitLife::fresh().step(LifeEvent::DropProducer).destroys == 0,
        SplitLife::fresh().step(LifeEvent::DropConsumer).destroys == 0,
        SplitLife::fresh().step(LifeEvent::DropProducer).step(LifeEvent::DropConsumer).destroys
            == 1,
        SplitLife::fresh().step(LifeEvent::DropConsumer).step(LifeEvent::DropProducer).destroys
            == 1,
{
}

} // verus!
