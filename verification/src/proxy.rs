//! The bidirectional proxy: two one-directional relays raced against each
//! other, the whole session finishing as soon as either direction finishes,
//! the other direction being abandoned unfinished. The race is modelled as a
//! scheduled interleaving of single relay steps, so that its liveness — one
//! live direction completes the session no matter what the other direction
//! does, even if it never makes progress — is stated and proved over every
//! schedule, and an executable runner is proved to follow the model exactly.

use vstd::prelude::*;
use crate::relay::{TransferError, BUF_SIZE};

verus! {

/// How one relay direction ended: clean EOF on its source, or a failure of
/// either half.
#[derive(Clone, Copy, PartialEq, Eq, Structural, Debug)]
pub enum RelayOutcome {
    CleanEof,
    Failed(TransferError),
}

/// How a whole proxy session ends once the first direction finishes.
#[derive(Clone, Copy, PartialEq, Eq, Structural, Debug)]
pub enum ProxyEnd {
    ClosedCleanly,
    TransferFailed(TransferError),
}

/// The session verdict determined by the winning direction's outcome.
pub open spec fn spec_verdict(winner: RelayOutcome) -> ProxyEnd {
    match winner {
        RelayOutcome::CleanEof => ProxyEnd::ClosedCleanly,
        RelayOutcome::Failed(e) => ProxyEnd::TransferFailed(e),
    }
}

/// Map the first-finished relay's outcome to the session verdict.
pub fn verdict(winner: RelayOutcome) -> (r: ProxyEnd)
    ensures
        r == spec_verdict(winner),
{
    match winner {
        RelayOutcome::CleanEof => ProxyEnd::ClosedCleanly,
        RelayOutcome::Failed(e) => ProxyEnd::TransferFailed(e),
    }
}

/// The state of one relay direction in the race model.
#[verifier::ext_equal]
pub struct RelayTaskModel {
    /// Bytes its source still holds before EOF.
    pub pending: Seq<u8>,
    /// Bytes already delivered to its sink, in order.
    pub delivered: Seq<u8>,
    /// The direction never makes progress: its writer never drains, or its
    /// reader is never ready.
    pub stalled: bool,
    /// The direction's next step fails with this error.
    pub failing: Option<TransferError>,
    /// Set once the direction has finished.
    pub done: Option<RelayOutcome>,
}

/// One step of a relay direction: fail if its stream fails, hold still if it
/// is stalled, finish cleanly at EOF, otherwise move one chunk of at most
/// `BUF_SIZE` bytes from source to sink.
pub open spec fn spec_task_step(t: RelayTaskModel) -> RelayTaskModel {
    if t.done is Some {
        t
    } else if t.failing is Some {
        RelayTaskModel { done: Some(RelayOutcome::Failed(t.failing->0)), ..t }
    } else if t.stalled {
        t
    } else if t.pending.len() == 0 {
        RelayTaskModel { done: Some(RelayOutcome::CleanEof), ..t }
    } else {
        let n = if t.pending.len() < BUF_SIZE { t.pending.len() as int } else { BUF_SIZE as int };
        RelayTaskModel {
            pending: t.pending.skip(n),
            delivered: t.delivered + t.pending.take(n),
            ..t
        }
    }
}

/// The race's state after a schedule has been consumed: the two directions
/// and the session verdict, if the session finished.
#[verifier::ext_equal]
pub struct RaceState {
    pub a: RelayTaskModel,
    pub b: RelayTaskModel,
    pub finished: Option<ProxyEnd>,
}

/// Run the race under a schedule: at each point, if either direction has
/// finished, the session finishes at once with that direction's verdict (the
/// other direction is dropped where it stands); otherwise the next scheduled
/// direction (`true` for `a`) takes one step.
pub open spec fn spec_race(a: RelayTaskModel, b: RelayTaskModel, sched: Seq<bool>) -> RaceState
    decreases sched.len(),
{
    if a.done is Some {
        RaceState { a, b, finished: Some(spec_verdict(a.done->0)) }
    } else if b.done is Some {
        RaceState { a, b, finished: Some(spec_verdict(b.done->0)) }
    } else if sched.len() == 0 {
        RaceState { a, b, finished: None }
    } else if sched[0] {
        spec_race(spec_task_step(a), b, sched.drop_first())
    } else {
        spec_race(a, spec_task_step(b), sched.drop_first())
    }
}

/// How many steps a live direction needs to finish cleanly: one per chunk of
/// its pending bytes, and one to observe EOF.
pub open spec fn steps_to_finish(len: nat) -> nat
    decreases len,
{
    if len == 0 {
        1
    } else if len < BUF_SIZE {
        2
    } else {
        1 + steps_to_finish((len - BUF_SIZE) as nat)
    }
}

/// How many steps of a schedule go to direction `a`.
pub open spec fn count_true(sched: Seq<bool>) -> nat
    decreases sched.len(),
{
    if sched.len() == 0 {
        0
    } else {
        (if sched[0] { 1nat } else { 0nat }) + count_true(sched.drop_first())
    }
}

/// A live direction is one that has not finished and whose stream neither
/// fails nor stalls: left alone, it finishes cleanly.
pub open spec fn live(t: RelayTaskModel) -> bool {
    &&& t.done is None
    &&& t.failing is None
    &&& !t.stalled
}

/// No deadlock from a stalled or broken peer: whatever direction `b` is —
/// stalled forever, failing, or anything else — a schedule that grants the
/// live direction `a` enough steps finishes the session.
pub proof fn lemma_race_completes(a: RelayTaskModel, b: RelayTaskModel, sched: Seq<bool>)
    requires
        live(a),
        count_true(sched) >= steps_to_finish(a.pending.len()),
    ensures
        spec_race(a, b, sched).finished is Some,
    decreases sched.len(),
{
    if b.done is Some {
        return;
    }
    assert(steps_to_finish(a.pending.len()) >= 1);
    assert(sched.len() > 0);
    let rest = sched.drop_first();
    if sched[0] {
        let a2 = spec_task_step(a);
        if a.pending.len() == 0 {
            assert(a2.done is Some);
            assert(spec_race(a2, b, rest).finished is Some);
        } else {
            assert(live(a2));
            assert(count_true(rest) >= steps_to_finish(a2.pending.len()));
            lemma_race_completes(a2, b, rest);
        }
    } else {
        lemma_race_completes(a, spec_task_step(b), rest);
    }
}

/// A direction whose stream never fails can only ever finish with clean EOF.
pub open spec fn well_behaved(t: RelayTaskModel) -> bool {
    &&& t.failing is None
    &&& (t.done is None || t.done == Some(RelayOutcome::CleanEof))
}

/// Between well-behaved endpoints the session closes cleanly as soon as
/// either direction reaches EOF: a schedule granting the live direction `a`
/// enough steps yields `ClosedCleanly`, whichever direction wins the race,
/// and without the other direction having to close at all.
pub proof fn lemma_race_closes_cleanly(a: RelayTaskModel, b: RelayTaskModel, sched: Seq<bool>)
    requires
        live(a),
        well_behaved(b),
        count_true(sched) >= steps_to_finish(a.pending.len()),
    ensures
        spec_race(a, b, sched).finished == Some(ProxyEnd::ClosedCleanly),
    decreases sched.len(),
{
    if b.done is Some {
        return;
    }
    assert(steps_to_finish(a.pending.len()) >= 1);
    assert(sched.len() > 0);
    let rest = sched.drop_first();
    if sched[0] {
        let a2 = spec_task_step(a);
        if a.pending.len() == 0 {
            assert(a2.done == Some(RelayOutcome::CleanEof));
            assert(spec_race(a2, b, rest).finished == Some(ProxyEnd::ClosedCleanly));
        } else {
            assert(live(a2));
            assert(count_true(rest) >= steps_to_finish(a2.pending.len()));
            lemma_race_closes_cleanly(a2, b, rest);
        }
    } else {
        let b2 = spec_task_step(b);
        assert(well_behaved(b2));
        lemma_race_closes_cleanly(a, b2, rest);
    }
}

/// One direction of an executable in-memory proxy race, mirroring
/// `RelayTaskModel` step for step.
pub struct ProxyTask {
    data: Vec<u8>,
    pos: usize,
    delivered: Vec<u8>,
    stalled: bool,
    failing: Option<TransferError>,
    done: Option<RelayOutcome>,
}

impl View for ProxyTask {
    type V = RelayTaskModel;

    closed spec fn view(&self) -> RelayTaskModel {
        RelayTaskModel {
            pending: if self.pos <= self.data@.len() {
                self.data@.skip(self.pos as int)
            } else {
                Seq::empty()
            },
            delivered: self.delivered@,
            stalled: self.stalled,
            failing: self.failing,
            done: self.done,
        }
    }
}

impl ProxyTask {
    /// A live direction whose source holds exactly `data`.
    pub fn flowing(data: Vec<u8>) -> (t: ProxyTask)
        ensures
            t@.pending == data@,
            t@.delivered == Seq::<u8>::empty(),
            live(t@),
            well_behaved(t@),
    {
        let t = ProxyTask {
            data,
            pos: 0,
            delivered: Vec::new(),
            stalled: false,
            failing: None,
            done: None,
        };
        proof {
            assert(t@.pending =~= t.data@);
        }
        t
    }

    /// A direction that never makes progress: its writer never drains, or its
    /// reader is never ready.
    pub fn stalled(data: Vec<u8>) -> (t: ProxyTask)
        ensures
            t@.pending == data@,
            t@.delivered == Seq::<u8>::empty(),
            t@.stalled,
            t@.failing is None,
            t@.done is None,
    {
        let t = ProxyTask {
            data,
            pos: 0,
            delivered: Vec::new(),
            stalled: true,
            failing: None,
            done: None,
        };
        proof {
            assert(t@.pending =~= t.data@);
        }
        t
    }

    /// A direction whose next step fails with `e`.
    pub fn failing(e: TransferError) -> (t: ProxyTask)
        ensures
            t@.pending == Seq::<u8>::empty(),
            t@.delivered == Seq::<u8>::empty(),
            t@.failing == Some(e),
            !t@.stalled,
            t@.done is None,
    {
        ProxyTask {
            data: Vec::new(),
            pos: 0,
            delivered: Vec::new(),
            stalled: false,
            failing: Some(e),
            done: None,
        }
    }

    /// Whether this direction has finished, and how.
    pub fn outcome(&self) -> (r: Option<RelayOutcome>)
        ensures
            r == self@.done,
    {
        self.done
    }

    /// Everything this direction delivered to its sink.
    pub fn into_delivered(self) -> (r: Vec<u8>)
        ensures
            r@ == self@.delivered,
    {
        self.delivered
    }

    /// Take one step, exactly as the model does.
    pub fn step(&mut self)
        ensures
            final(self)@ == spec_task_step(old(self)@),
    {
        if self.done.is_some() {
            return;
        }
        if let Some(e) = self.failing {
            self.done = Some(RelayOutcome::Failed(e));
            proof {
                assert(final(self)@ =~= spec_task_step(old(self)@));
            }
            return;
        }
        if self.stalled {
            return;
        }
        if self.pos >= self.data.len() {
            self.done = Some(RelayOutcome::CleanEof);
            proof {
                assert(final(self)@ =~= spec_task_step(old(self)@));
            }
            return;
        }
        let available = self.data.len() - self.pos;
        let n = if BUF_SIZE < available {
            BUF_SIZE
        } else {
            available
        };
        let ghost p = self.pos as int;
        let ghost d0 = self.delivered@;
        let mut i: usize = 0;
        while i < n
            invariant
                i <= n,
                p == self.pos,
                p + n <= self.data@.len(),
                p + n <= usize::MAX,
                self.data@ == old(self).data@,
                self.stalled == old(self).stalled,
                self.failing == old(self).failing,
                self.done == old(self).done,
                self.delivered@ =~= d0 + self.data@.subrange(p, p + i),
            decreases n - i,
        {
            let b = self.data[self.pos + i];
            self.delivered.push(b);
            i = i + 1;
        }
        self.pos = self.pos + n;
        proof {
            assert(self@.pending =~= old(self)@.pending.skip(n as int));
            assert(self@.delivered =~= old(self)@.delivered + old(self)@.pending.take(n as int));
            assert(final(self)@ =~= spec_task_step(old(self)@));
        }
    }
}

/// Run the bidirectional race under an explicit schedule (`true` schedules
/// direction `a`): the session returns its verdict as soon as either
/// direction finishes, or `None` if the schedule runs out first. Follows
/// `spec_race` exactly, both in its verdict and in where each direction is
/// left standing.
pub fn run_race(a: &mut ProxyTask, b: &mut ProxyTask, schedule: &[bool]) -> (r: Option<ProxyEnd>)
    ensures
        ({
            let end = spec_race(old(a)@, old(b)@, schedule@);
            &&& r == end.finished
            &&& final(a)@ == end.a
            &&& final(b)@ == end.b
        }),
{
    let ghost a0 = a@;
    let ghost b0 = b@;
    let ghost s = schedule@;
    proof {
        assert(s.skip(0) =~= s);
    }
    let mut i: usize = 0;
    loop
        invariant
            i <= s.len(),
            s == schedule@,
            a0 == old(a)@,
            b0 == old(b)@,
            spec_race(a0, b0, s) == spec_race(a@, b@, s.skip(i as int)),
        decreases s.len() - i,
    {
        let a_done = a.outcome();
        if let Some(o) = a_done {
            return Some(verdict(o));
        }
        let b_done = b.outcome();
        if let Some(o) = b_done {
            return Some(verdict(o));
        }
        if i >= schedule.len() {
            proof {
                assert(s.skip(i as int).len() == 0);
            }
            return None;
        }
        let go_a = schedule[i];
        proof {
            assert(s.skip(i as int)[0] == s[i as int]);
            assert(s.skip(i as int).drop_first() =~= s.skip(i as int + 1));
        }
        if go_a {
            a.step();
        } else {
            b.step();
        }
        i = i + 1;
    }
}

} // verus!
