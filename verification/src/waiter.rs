//! The readiness waiter: polls a set of instances until exactly a target
//! number of them is healthy, or a deadline has passed.
//!
//! The waiter runs no probe and reads no clock. It says what to do next, a
//! probe of one instance or a pause, and is told what came of it. A pass
//! probes every instance once, in order. After a pass the count of healthy
//! instances is held against the target; if they differ the deadline is held
//! against the clock; if the deadline has not passed, a pause of one second
//! follows, and then the next pass.

use crate::gateway::{Report, ReportView};
use crate::health::{report_is_healthy, reports_healthy};
use vstd::prelude::*;

verus! {

/// The pause between two passes, in seconds.
pub const POLL_INTERVAL: u64 = 1;

/// Nanoseconds in a second.
pub const NANOS_PER_SECOND: u64 = 1_000_000_000;

/// Where a waiter stands.
#[derive(Clone, Copy, Debug, PartialEq, Eq, Structural)]
pub enum WaitPhase {
    /// A probe of one instance is under way.
    Probing,
    /// A pause between two passes is under way.
    Sleeping,
    /// A pass counted exactly the target.
    Reached,
    /// The deadline passed before a pass counted the target.
    TimedOut,
}

/// How a wait ended.
#[derive(Clone, Copy, Debug, PartialEq, Eq, Structural)]
pub enum Verdict {
    Reached,
    TimedOut,
}

/// What a waiter wants done next.
#[derive(Debug)]
pub enum WaitAction {
    /// Inspect the health status of this instance.
    Probe(String),
    /// Let this many seconds pass.
    Sleep(u64),
    /// Nothing: the wait is over.
    Done(Verdict),
}

/// A `WaitAction` as plain values.
pub enum WaitActionView {
    Probe(Seq<char>),
    Sleep(u64),
    Done(Verdict),
}

impl View for WaitAction {
    type V = WaitActionView;

    open spec fn view(&self) -> WaitActionView {
        match self {
            WaitAction::Probe(id) => WaitActionView::Probe(id@),
            WaitAction::Sleep(seconds) => WaitActionView::Sleep(*seconds),
            WaitAction::Done(verdict) => WaitActionView::Done(*verdict),
        }
    }
}

/// A wait for `target` healthy instances among `ids`.
#[derive(Debug)]
pub struct Waiter {
    target: usize,
    ids: Vec<String>,
    deadline: u128,
    cursor: usize,
    healthy: usize,
    phase: WaitPhase,
}

/// A `Waiter` as plain values.
pub struct WaiterView {
    /// The number of healthy instances waited for.
    pub target: nat,
    /// The instances that are probed.
    pub ids: Seq<Seq<char>>,
    /// The clock reading, in nanoseconds, from which on the wait gives up.
    pub deadline: nat,
    /// While probing: the place in `ids` of the instance under probe.
    pub cursor: nat,
    /// While probing: how many of the instances before `cursor` were healthy
    /// in this pass.
    pub healthy: nat,
    pub phase: WaitPhase,
}

impl View for Waiter {
    type V = WaiterView;

    closed spec fn view(&self) -> WaiterView {
        WaiterView {
            target: self.target as nat,
            ids: self.ids.deep_view(),
            deadline: self.deadline as nat,
            cursor: self.cursor as nat,
            healthy: self.healthy as nat,
            phase: self.phase,
        }
    }
}

/// The clock reading at which a wait of `timeout` seconds, begun at `now`,
/// gives up.
pub open spec fn deadline_after(now: u64, timeout: u64) -> nat {
    (now + timeout * NANOS_PER_SECOND) as nat
}

/// A waiter is well formed: while it probes, the instance under probe is one
/// of its instances, and no more instances were counted healthy than were
/// probed; otherwise it holds no count.
pub open spec fn wf(w: WaiterView) -> bool {
    match w.phase {
        WaitPhase::Probing => w.cursor < w.ids.len() && w.healthy <= w.cursor,
        _ => w.cursor == 0 && w.healthy == 0,
    }
}

/// The waiter after a pass that counted `healthy` healthy instances and ended
/// at the clock reading `now`.
pub open spec fn pass_done(w: WaiterView, healthy: nat, now: u64) -> WaiterView {
    let phase = if healthy == w.target {
        WaitPhase::Reached
    } else if now >= w.deadline {
        WaitPhase::TimedOut
    } else {
        WaitPhase::Sleeping
    };
    WaiterView { cursor: 0, healthy: 0, phase, ..w }
}

/// The waiter at the start of a pass, at the clock reading `now`. A pass over
/// no instances is done at once, with a count of zero.
pub open spec fn pass_begun(w: WaiterView, now: u64) -> WaiterView {
    if w.ids.len() == 0 {
        pass_done(w, 0, now)
    } else {
        WaiterView { cursor: 0, healthy: 0, phase: WaitPhase::Probing, ..w }
    }
}

/// The waiter for `target` healthy instances among `ids`, begun at the clock
/// reading `now` with `timeout` seconds to go: it starts its first pass at
/// once.
pub open spec fn begun(target: nat, ids: Seq<Seq<char>>, timeout: u64, now: u64) -> WaiterView {
    pass_begun(
        WaiterView {
            target,
            ids,
            deadline: deadline_after(now, timeout),
            cursor: 0,
            healthy: 0,
            phase: WaitPhase::Sleeping,
        },
        now,
    )
}

/// The waiter after `report` came back for what it wanted done.
pub open spec fn advanced(w: WaiterView, report: ReportView) -> WaiterView {
    match w.phase {
        WaitPhase::Probing => {
            let healthy = if reports_healthy(report) {
                w.healthy + 1
            } else {
                w.healthy
            };
            if w.cursor + 1 < w.ids.len() {
                WaiterView { cursor: w.cursor + 1, healthy, ..w }
            } else {
                pass_done(w, healthy, report.now)
            }
        },
        WaitPhase::Sleeping => pass_begun(w, report.now),
        WaitPhase::Reached => w,
        WaitPhase::TimedOut => w,
    }
}

/// What the waiter wants done next.
pub open spec fn action_of(w: WaiterView) -> WaitActionView {
    match w.phase {
        WaitPhase::Probing => WaitActionView::Probe(w.ids[w.cursor as int]),
        WaitPhase::Sleeping => WaitActionView::Sleep(POLL_INTERVAL),
        WaitPhase::Reached => WaitActionView::Done(Verdict::Reached),
        WaitPhase::TimedOut => WaitActionView::Done(Verdict::TimedOut),
    }
}

impl Waiter {
    /// A waiter that has nothing to wait for.
    pub fn idle() -> (w: Waiter)
        ensures
            w@ == begun(0, Seq::empty(), 0, 0),
            wf(w@),
    {
        let ids: Vec<String> = Vec::new();
        assert(ids.deep_view() =~= Seq::<Seq<char>>::empty());
        Waiter::new(0, ids, 0, 0)
    }

    /// Begins a wait for exactly `target` healthy instances among `ids`, at
    /// the clock reading `now`, with `timeout` seconds to go.
    pub fn new(target: usize, ids: Vec<String>, timeout: u64, now: u64) -> (w: Waiter)
        ensures
            w@ == begun(target as nat, ids.deep_view(), timeout, now),
            wf(w@),
    {
        assert(timeout * NANOS_PER_SECOND <= u64::MAX * NANOS_PER_SECOND) by (nonlinear_arith)
            requires
                timeout <= u64::MAX,
        ;
        let deadline: u128 = now as u128 + timeout as u128 * (NANOS_PER_SECOND as u128);
        let mut w = Waiter {
            target,
            ids,
            deadline,
            cursor: 0,
            healthy: 0,
            phase: WaitPhase::Sleeping,
        };
        w.begin_pass(now);
        w
    }

    /// Starts a pass at the clock reading `now`.
    fn begin_pass(&mut self, now: u64)
        ensures
            final(self)@ == pass_begun(old(self)@, now),
    {
        if self.ids.len() == 0 {
            self.end_pass(0, now);
        } else {
            self.cursor = 0;
            self.healthy = 0;
            self.phase = WaitPhase::Probing;
        }
    }

    /// Ends a pass that counted `healthy` healthy instances, at the clock
    /// reading `now`.
    fn end_pass(&mut self, healthy: usize, now: u64)
        ensures
            final(self)@ == pass_done(old(self)@, healthy as nat, now),
    {
        self.cursor = 0;
        self.healthy = 0;
        if healthy == self.target {
            self.phase = WaitPhase::Reached;
        } else if now as u128 >= self.deadline {
            self.phase = WaitPhase::TimedOut;
        } else {
            self.phase = WaitPhase::Sleeping;
        }
    }

    /// What the waiter wants done next.
    pub fn action(&self) -> (action: WaitAction)
        requires
            wf(self@),
        ensures
            action@ == action_of(self@),
    {
        assert(self.ids.deep_view().len() == self.ids.len());
        match self.phase {
            WaitPhase::Probing => WaitAction::Probe(self.ids[self.cursor].clone()),
            WaitPhase::Sleeping => WaitAction::Sleep(POLL_INTERVAL),
            WaitPhase::Reached => WaitAction::Done(Verdict::Reached),
            WaitPhase::TimedOut => WaitAction::Done(Verdict::TimedOut),
        }
    }

    /// Takes the report of what the waiter wanted done.
    pub fn advance(&mut self, report: &Report)
        requires
            wf(old(self)@),
        ensures
            final(self)@ == advanced(old(self)@, report@),
            wf(final(self)@),
    {
        assert(self.ids.deep_view().len() == self.ids.len());
        match self.phase {
            WaitPhase::Probing => {
                let healthy: usize = if report_is_healthy(report) {
                    self.healthy + 1
                } else {
                    self.healthy
                };
                if self.cursor + 1 < self.ids.len() {
                    self.cursor = self.cursor + 1;
                    self.healthy = healthy;
                } else {
                    self.end_pass(healthy, report.now);
                }
            },
            WaitPhase::Sleeping => {
                self.begin_pass(report.now);
            },
            WaitPhase::Reached => {},
            WaitPhase::TimedOut => {},
        }
    }

    /// How the wait ended, once it has.
    pub fn verdict(&self) -> (verdict: Option<Verdict>)
        ensures
            verdict == verdict_of(self@),
    {
        match self.phase {
            WaitPhase::Reached => Some(Verdict::Reached),
            WaitPhase::TimedOut => Some(Verdict::TimedOut),
            _ => None,
        }
    }
}

/// How the wait ended, once it has.
pub open spec fn verdict_of(w: WaiterView) -> Option<Verdict> {
    match w.phase {
        WaitPhase::Reached => Some(Verdict::Reached),
        WaitPhase::TimedOut => Some(Verdict::TimedOut),
        _ => None,
    }
}

/// The number of reports that show a healthy instance.
pub open spec fn tally(reports: Seq<ReportView>) -> nat
    decreases reports.len(),
{
    if reports.len() == 0 {
        0
    } else {
        let rest = tally(reports.drop_last());
        if reports_healthy(reports.last()) {
            rest + 1
        } else {
            rest
        }
    }
}

/// The waiter after the reports in `reports` came back, one after the other.
pub open spec fn fed(w: WaiterView, reports: Seq<ReportView>) -> WaiterView
    decreases reports.len(),
{
    if reports.len() == 0 {
        w
    } else {
        advanced(fed(w, reports.drop_last()), reports.last())
    }
}

/// A waiter that is well formed stays so, and a waiter just begun is well
/// formed.
pub proof fn law_wait_well_formed(
    w: WaiterView,
    report: ReportView,
    target: nat,
    ids: Seq<Seq<char>>,
    timeout: u64,
    now: u64,
)
    ensures
        wf(begun(target, ids, timeout, now)),
        wf(w) ==> wf(advanced(w, report)),
{
}

/// A waiter keeps its target, its instances and its deadline, and asks for
/// nothing but a probe of one of its instances or the pause between two
/// passes: waiting changes nothing in the runtime. A wait that is over stays
/// over, with the same verdict, whatever is reported to it.
pub proof fn law_wait_is_harmless(w: WaiterView, report: ReportView)
    requires
        wf(w),
    ensures
        advanced(w, report).target == w.target,
        advanced(w, report).ids == w.ids,
        advanced(w, report).deadline == w.deadline,
        match action_of(w) {
            WaitActionView::Probe(id) => w.ids.contains(id),
            WaitActionView::Sleep(seconds) => seconds == POLL_INTERVAL,
            WaitActionView::Done(verdict) => advanced(w, report) == w && verdict_of(w) == Some(
                verdict,
            ),
        },
{
}

/// Part of a pass: after the first `k` reports of a pass the waiter has
/// counted the healthy ones among them and probes the next instance.
proof fn lemma_pass_prefix(w: WaiterView, reports: Seq<ReportView>, k: nat)
    requires
        w.phase == WaitPhase::Probing,
        w.cursor == 0,
        w.healthy == 0,
        k <= reports.len(),
        k < w.ids.len(),
    ensures
        fed(w, reports.take(k as int)) == (WaiterView {
            cursor: k,
            healthy: tally(reports.take(k as int)),
            ..w
        }),
    decreases k,
{
    if k > 0 {
        lemma_pass_prefix(w, reports, (k - 1) as nat);
        assert(reports.take(k as int).drop_last() =~= reports.take(k - 1));
    }
}

/// One pass, from its first probe to its end. Where the waiter starts a pass
/// and the reports of the probes of all its instances come back, the waiter
/// holds the number of healthy ones among them against its target at once:
/// if they are equal the wait has reached its target, with no pause and no
/// further probe; if not, and the last report's clock reading is at or past
/// the deadline, the wait has timed out; otherwise a pause follows.
pub proof fn law_pass(w: WaiterView, reports: Seq<ReportView>)
    requires
        w.phase == WaitPhase::Probing,
        w.cursor == 0,
        w.healthy == 0,
        reports.len() == w.ids.len(),
    ensures
        reports.len() > 0 ==> fed(w, reports) == pass_done(w, tally(reports), reports.last().now),
        reports.len() > 0 && tally(reports) == w.target ==> action_of(fed(w, reports))
            == WaitActionView::Done(Verdict::Reached),
        reports.len() > 0 && tally(reports) != w.target && reports.last().now >= w.deadline
            ==> action_of(fed(w, reports)) == WaitActionView::Done(Verdict::TimedOut),
        reports.len() > 0 && tally(reports) != w.target && reports.last().now < w.deadline
            ==> action_of(fed(w, reports)) == WaitActionView::Sleep(POLL_INTERVAL),
{
    if reports.len() > 0 {
        let k = (reports.len() - 1) as nat;
        lemma_pass_prefix(w, reports, k);
        assert(reports.take(k as int) =~= reports.drop_last());
    }
}

/// The count of a pass decides alone whether the wait has reached its
/// target: a pass that counts the target ends the wait as reached, whatever
/// the clock says, and a pass that counts anything else never does.
pub proof fn law_reached_iff_counted(w: WaiterView, healthy: nat, now: u64)
    ensures
        pass_done(w, healthy, now).phase == WaitPhase::Reached <==> healthy == w.target,
        pass_done(w, healthy, now).phase == WaitPhase::TimedOut <==> healthy != w.target && now
            >= w.deadline,
{
}

/// One round of a wait: the reports of the probes of one pass, and the report
/// of the pause that follows it.
pub struct Round {
    pub probes: Seq<ReportView>,
    pub pause: ReportView,
}

/// The reports of the rounds in order: of each round the probes, then the
/// pause.
pub open spec fn reports_of(rounds: Seq<Round>) -> Seq<ReportView>
    decreases rounds.len(),
{
    if rounds.len() == 0 {
        Seq::empty()
    } else {
        reports_of(rounds.drop_last()) + rounds.last().probes.push(rounds.last().pause)
    }
}

/// The pass with the reports `probes` decides the wait: it counts the
/// target, or it ends at or past the deadline.
pub open spec fn decides(w: WaiterView, probes: Seq<ReportView>) -> bool {
    tally(probes) == w.target || probes.last().now >= w.deadline
}

/// Reports that come back one after the other can be fed in two parts.
proof fn lemma_fed_in_parts(w: WaiterView, first: Seq<ReportView>, second: Seq<ReportView>)
    ensures
        fed(w, first + second) == fed(fed(w, first), second),
    decreases second.len(),
{
    if second.len() == 0 {
        assert(first + second =~= first);
    } else {
        lemma_fed_in_parts(w, first, second.drop_last());
        assert((first + second).drop_last() =~= first + second.drop_last());
    }
}

/// A whole wait. A waiter at the start of a pass goes through rounds of one
/// pass and one pause each for as long as no pass decides, and is then at the
/// start of a pass as before. The first pass that decides ends the wait at
/// once: as reached if it counts the target, whatever the clock says, and as
/// timed out otherwise. So a wait is reached exactly at the first pass that
/// counts the target, if no pass before it ended at or past the deadline, and
/// it times out exactly at the first pass that ends at or past the deadline
/// without counting the target.
pub proof fn law_wait(w: WaiterView, rounds: Seq<Round>, last: Seq<ReportView>)
    requires
        w.phase == WaitPhase::Probing,
        w.cursor == 0,
        w.healthy == 0,
        w.ids.len() > 0,
        forall|i: int|
            0 <= i < rounds.len() ==> (#[trigger] rounds[i]).probes.len() == w.ids.len()
                && !decides(w, rounds[i].probes),
        last.len() == w.ids.len(),
    ensures
        fed(w, reports_of(rounds)) == w,
        fed(w, reports_of(rounds) + last) == pass_done(w, tally(last), last.last().now),
        decides(w, last) ==> verdict_of(fed(w, reports_of(rounds) + last)) == Some(
            if tally(last) == w.target {
                Verdict::Reached
            } else {
                Verdict::TimedOut
            },
        ),
        !decides(w, last) ==> action_of(fed(w, reports_of(rounds) + last))
            == WaitActionView::Sleep(POLL_INTERVAL),
    decreases rounds.len(),
{
    if rounds.len() > 0 {
        let earlier = rounds.drop_last();
        let round = rounds.last();
        law_wait(w, earlier, round.probes);
        let before = reports_of(earlier) + round.probes;
        assert(reports_of(rounds) =~= before.push(round.pause));
        assert(before.push(round.pause).drop_last() =~= before);
        assert(fed(w, reports_of(rounds)) == advanced(fed(w, before), round.pause));
    }
    lemma_fed_in_parts(w, reports_of(rounds), last);
    law_pass(w, last);
}

/// A wait over no instances counts zero in every pass: it is reached at once
/// if the target is zero, and otherwise pauses until the deadline has passed.
pub proof fn law_wait_over_nothing(target: nat, timeout: u64, now: u64, pause: ReportView)
    ensures
        target == 0 ==> verdict_of(begun(target, Seq::empty(), timeout, now)) == Some(
            Verdict::Reached,
        ),
        target != 0 ==> begun(target, Seq::empty(), timeout, now) == pass_done(
            begun(target, Seq::empty(), timeout, now),
            0,
            now,
        ),
        target != 0 && timeout > 0 ==> advanced(begun(target, Seq::empty(), timeout, now), pause)
            == pass_done(begun(target, Seq::empty(), timeout, now), 0, pause.now),
{
    assert(timeout > 0 ==> timeout * NANOS_PER_SECOND > 0) by (nonlinear_arith);
}

} // verus!
