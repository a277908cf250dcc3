//! What a restart does to the instances of its service, proved over whole
//! runs.
//!
//! A run is the list of its turns. In each turn the report of the outstanding
//! request comes back and the restart moves on. The laws about the instances
//! that run speak of a runtime that is faithful: it lists the instances that
//! run, and scaling, stopping and removing do to them what their names say.
//! Nothing is proved of a runtime that is not: if scaling adds fewer
//! instances than it was asked for and still reports success, fewer run in
//! the end.

use crate::app::{
    action_of, advanced, failure_of, fresh, lemma_advanced_wf, wf, ActionView, AppView, Failure,
    Phase,
};
use crate::gateway::{instance_ids, ArgsView, ComposeFlavor, ReportView, RequestView};
use crate::instances::{fresh_ids, law_fresh_is_difference};
use crate::waiter::Verdict;
use vstd::prelude::*;
use vstd::set_lib::{lemma_len_subset, lemma_set_difference_len};

verus! {

/// One turn of a run: the report that came back for the outstanding request,
/// and the instances of the service that ran once the request was done.
pub struct Turn {
    pub report: ReportView,
    pub fleet: Set<Seq<char>>,
}

/// The restart after the turns of `turns`, taken from `app`.
pub open spec fn run(app: AppView, turns: Seq<Turn>) -> AppView
    decreases turns.len(),
{
    if turns.len() == 0 {
        app
    } else {
        advanced(run(app, turns.drop_last()), turns.last().report)
    }
}

/// The instances that run after the turns of `turns`, where `fleet` ran
/// before them.
pub open spec fn fleet_after(fleet: Set<Seq<char>>, turns: Seq<Turn>) -> Set<Seq<char>> {
    if turns.len() == 0 {
        fleet
    } else {
        turns.last().fleet
    }
}

/// The runtime was faithful in carrying out `request`: where `before` ran
/// when it was made, `report` came back and `after` ran when it was done.
///
/// A listing that succeeded names each running instance once. A scaling
/// that succeeded left every instance running and brought their number to
/// the count asked for; one that failed changed nothing. Stopping and
/// removing touch only the instances that are named: whether they succeed or
/// fail, what ran before and was not named runs afterwards, and nothing else
/// does. After a removal that succeeded none of the named instances runs.
/// Inspecting, sleeping and shell commands leave running what ran. Nothing is
/// said of starting the service.
pub open spec fn faithful(
    before: Set<Seq<char>>,
    request: RequestView,
    report: ReportView,
    after: Set<Seq<char>>,
) -> bool {
    match request {
        RequestView::ListInstances => {
            &&& after == before
            &&& failure_of(report) is None ==> instance_ids(report.stdout).no_duplicates()
                && instance_ids(report.stdout).to_set() == before
        },
        RequestView::StartIfAbsent => true,
        RequestView::ScaleUp(count) => {
            if failure_of(report) is None {
                before.subset_of(after) && after.finite() && after.len() == count
            } else {
                after == before
            }
        },
        RequestView::Stop(ids) => {
            &&& before.difference(ids.to_set()).subset_of(after)
            &&& after.subset_of(before)
        },
        RequestView::Remove(ids) => {
            &&& before.difference(ids.to_set()).subset_of(after)
            &&& after.subset_of(before)
            &&& failure_of(report) is None ==> after.disjoint(ids.to_set())
        },
        RequestView::InspectHealth(_) => after == before,
        RequestView::InspectStatus(_) => after == before,
        RequestView::RunShell(_) => after == before,
        RequestView::Sleep(_) => after == before,
    }
}

/// The runtime was faithful in every turn of the run that starts from `app`
/// with `fleet` running. A restart that is over asks for nothing, and
/// nothing changes.
pub open spec fn faithful_run(app: AppView, fleet: Set<Seq<char>>, turns: Seq<Turn>) -> bool
    decreases turns.len(),
{
    turns.len() == 0 || {
        let earlier = turns.drop_last();
        &&& faithful_run(app, fleet, earlier)
        &&& match action_of(run(app, earlier)) {
            ActionView::Ask(request) => faithful(
                fleet_after(fleet, earlier),
                request,
                turns.last().report,
                turns.last().fleet,
            ),
            ActionView::Finish(_) => turns.last().fleet == fleet_after(fleet, earlier),
        }
    }
}

/// How the instances that run now hang together with those that ran at the
/// start, in each phase of a restart under a faithful runtime.
spec fn tracks(app: AppView, start: Set<Seq<char>>, now: Set<Seq<char>>) -> bool {
    let news = app.new_ids.to_set();
    let listed = app.old_ids.no_duplicates() && app.old_ids.to_set() == start;
    let paired = news.finite() && news.len() == start.len() && news.disjoint(start);
    let serving = start.subset_of(now) || (paired && news.subset_of(now));
    &&& start.finite()
    &&& start.len() > 0 ==> now.finite() && serving
    &&& match app.phase {
        Phase::CheckRunning => now == start,
        Phase::StartFresh => start.len() == 0,
        Phase::ScaleUp => listed && now == start,
        Phase::Recount => listed && start.subset_of(now) && now.finite() && now.len() == 2
            * app.old_ids.len(),
        Phase::RetireRemove => listed && paired && news.subset_of(now) && now.subset_of(
            start.union(news),
        ),
        Phase::RollbackRemove => listed && paired && start.subset_of(now) && now.subset_of(
            start.union(news),
        ),
        Phase::Done => start.len() == 0 || (listed && paired && now == news),
        Phase::Failed(Failure::NotHealthy) => now == start,
        Phase::Failed(_) => true,
        _ => listed && paired && now == start.union(news),
    }
}

/// One faithful turn keeps the instances on track.
proof fn lemma_tracks_turn(app: AppView, start: Set<Seq<char>>, now: Set<Seq<char>>, turn: Turn)
    requires
        tracks(app, start, now),
        match action_of(app) {
            ActionView::Ask(request) => faithful(now, request, turn.report, turn.fleet),
            ActionView::Finish(_) => turn.fleet == now,
        },
    ensures
        tracks(advanced(app, turn.report), start, turn.fleet),
{
    let ids = instance_ids(turn.report.stdout);
    let news = app.new_ids.to_set();
    let after = turn.fleet;
    match app.phase {
        Phase::CheckRunning => {
            if failure_of(turn.report) is None && ids.len() == 0 {
                assert(ids.to_set() =~= Set::<Seq<char>>::empty());
            }
        },
        Phase::StartFresh => {},
        Phase::ScaleUp => {},
        Phase::Recount => {
            if failure_of(turn.report) is None {
                let found = fresh_ids(ids, app.old_ids).to_set();
                law_fresh_is_difference(ids, app.old_ids);
                app.old_ids.unique_seq_to_set();
                lemma_set_difference_len(now, start);
                assert(now.intersect(start) =~= start);
                assert(found.subset_of(now));
                assert(now =~= start.union(found));
            }
        },
        Phase::RetireStop => {
            assert(news.subset_of(after));
        },
        Phase::RetireRemove => {
            assert(news.subset_of(after));
            if failure_of(turn.report) is None {
                assert(after =~= news);
            }
        },
        Phase::RollbackStop => {
            assert(start.subset_of(after));
        },
        Phase::RollbackRemove => {
            assert(start.subset_of(after));
            if failure_of(turn.report) is None {
                assert(after =~= start);
            }
        },
        _ => {},
    }
}

/// Every faithful run keeps the instances on track.
proof fn lemma_tracks_run(app: AppView, fleet: Set<Seq<char>>, turns: Seq<Turn>)
    requires
        tracks(app, fleet, fleet),
        faithful_run(app, fleet, turns),
    ensures
        tracks(run(app, turns), fleet, fleet_after(fleet, turns)),
    decreases turns.len(),
{
    if turns.len() > 0 {
        let earlier = turns.drop_last();
        lemma_tracks_run(app, fleet, earlier);
        lemma_tracks_turn(run(app, earlier), fleet, fleet_after(fleet, earlier), turns.last());
    }
}

/// A restart that succeeds replaces every instance. Where instances of the
/// service ran at the start, the runtime was faithful and the restart ended
/// in success, the old instances of the restart are the instances that ran at
/// the start, the instances that run at the end are its new instances, there
/// are as many of them as ran at the start, and none of them ran at the
/// start.
pub proof fn law_restart_replaces_instances(
    args: ArgsView,
    compose: ComposeFlavor,
    docker_args: Seq<Seq<char>>,
    fleet: Set<Seq<char>>,
    turns: Seq<Turn>,
)
    requires
        fleet.finite(),
        fleet.len() > 0,
        faithful_run(fresh(args, compose, docker_args), fleet, turns),
        action_of(run(fresh(args, compose, docker_args), turns)) == ActionView::Finish(Ok(())),
    ensures
        run(fresh(args, compose, docker_args), turns).old_ids.to_set() == fleet,
        run(fresh(args, compose, docker_args), turns).old_ids.len() == fleet.len(),
        run(fresh(args, compose, docker_args), turns).new_ids.to_set() == fleet_after(
            fleet,
            turns,
        ),
        fleet_after(fleet, turns).finite(),
        fleet_after(fleet, turns).len() == fleet.len(),
        fleet_after(fleet, turns).disjoint(fleet),
{
    let app = fresh(args, compose, docker_args);
    lemma_tracks_run(app, fleet, turns);
    run(app, turns).old_ids.unique_seq_to_set();
}

/// A restart that rolls back restores what ran. Where the runtime was
/// faithful and the restart ended because the new instances were not healthy
/// in time, exactly the instances that ran at the start run at the end.
pub proof fn law_rollback_restores_instances(
    args: ArgsView,
    compose: ComposeFlavor,
    docker_args: Seq<Seq<char>>,
    fleet: Set<Seq<char>>,
    turns: Seq<Turn>,
)
    requires
        fleet.finite(),
        faithful_run(fresh(args, compose, docker_args), fleet, turns),
        action_of(run(fresh(args, compose, docker_args), turns)) == ActionView::Finish(
            Err(Failure::NotHealthy),
        ),
    ensures
        fleet_after(fleet, turns) == fleet,
{
    lemma_tracks_run(fresh(args, compose, docker_args), fleet, turns);
}

/// At no moment of a restart do fewer instances run than at the start. Where
/// the runtime is faithful, then after every turn, however the restart goes
/// on or ends, all the instances that ran at the start still run, or as many
/// new ones run in their place.
pub proof fn law_capacity_never_drops(
    args: ArgsView,
    compose: ComposeFlavor,
    docker_args: Seq<Seq<char>>,
    fleet: Set<Seq<char>>,
    turns: Seq<Turn>,
)
    requires
        fleet.finite(),
        faithful_run(fresh(args, compose, docker_args), fleet, turns),
    ensures
        fleet_after(fleet, turns).len() >= fleet.len(),
        fleet.subset_of(fleet_after(fleet, turns)) || run(
            fresh(args, compose, docker_args),
            turns,
        ).new_ids.to_set().subset_of(fleet_after(fleet, turns)),
{
    let app = fresh(args, compose, docker_args);
    let now = fleet_after(fleet, turns);
    lemma_tracks_run(app, fleet, turns);
    if fleet.len() > 0 {
        if fleet.subset_of(now) {
            lemma_len_subset(fleet, now);
        } else {
            lemma_len_subset(run(app, turns).new_ids.to_set(), now);
        }
    } else {
        assert(fleet =~= Set::<Seq<char>>::empty());
    }
}

/// The restart asks for the service to be started, or it is over, in success
/// or because the service could not be started.
pub open spec fn starts_or_ends(app: AppView) -> bool {
    match action_of(app) {
        ActionView::Ask(request) => request == RequestView::StartIfAbsent,
        ActionView::Finish(result) => result == Ok::<(), Failure>(()) || result == Err::<
            (),
            Failure,
        >(Failure::StartService),
    }
}

/// Where the first listing names no instance, the service is started and
/// nothing else is ever asked for. A restart begins by listing the instances.
/// If that listing succeeded and is empty, then after every later turn
/// the restart asks for the service to be started or is over: it never
/// scales, stops, removes, inspects or sleeps.
pub proof fn law_fresh_start_only_starts(
    args: ArgsView,
    compose: ComposeFlavor,
    docker_args: Seq<Seq<char>>,
    turns: Seq<Turn>,
)
    requires
        turns.len() > 0,
        failure_of(turns[0].report) is None,
        instance_ids(turns[0].report.stdout).len() == 0,
    ensures
        action_of(fresh(args, compose, docker_args)) == ActionView::Ask(
            RequestView::ListInstances,
        ),
        starts_or_ends(run(fresh(args, compose, docker_args), turns)),
        turns.len() == 1 ==> action_of(run(fresh(args, compose, docker_args), turns))
            == ActionView::Ask(RequestView::StartIfAbsent),
    decreases turns.len(),
{
    let app = fresh(args, compose, docker_args);
    let earlier = turns.drop_last();
    if turns.len() == 1 {
        assert(earlier.len() == 0);
        assert(run(app, earlier) == app);
    } else {
        assert(earlier[0] == turns[0]);
        law_fresh_start_only_starts(args, compose, docker_args, earlier);
    }
}

/// The restart is rolling the instances `new_ids` back: it asks for them to
/// be stopped or removed, or it is over and has failed.
pub open spec fn rolling_back(app: AppView, new_ids: Seq<Seq<char>>) -> bool {
    match action_of(app) {
        ActionView::Ask(request) => request == RequestView::Stop(new_ids) || request
            == RequestView::Remove(new_ids),
        ActionView::Finish(result) => result is Err,
    }
}

/// A restart that has begun to roll back goes on rolling back.
proof fn lemma_rollback_goes_on(app: AppView, turns: Seq<Turn>)
    requires
        app.phase == Phase::RollbackStop || app.phase == Phase::RollbackRemove
            || app.phase is Failed,
    ensures
        run(app, turns).phase == Phase::RollbackStop || run(app, turns).phase
            == Phase::RollbackRemove || run(app, turns).phase is Failed,
        run(app, turns).new_ids == app.new_ids,
        run(app, turns).old_ids == app.old_ids,
    decreases turns.len(),
{
    if turns.len() > 0 {
        lemma_rollback_goes_on(app, turns.drop_last());
    }
}

/// A wait for the new instances that times out ends in a rollback and in
/// failure. Where the new instances are waited for and the report that comes
/// back makes the wait time out, the restart asks at once for the new
/// instances to be stopped. From then on, whatever is reported, it asks only
/// for the new instances to be stopped or removed, none of which is an old
/// instance, and it never ends in success. If stopping and removing both
/// succeed, it ends with the failure that the new instances were not healthy.
pub proof fn law_timeout_rolls_back(app: AppView, report: ReportView, turns: Seq<Turn>)
    requires
        wf(app),
        app.phase == Phase::AwaitReady,
        crate::waiter::verdict_of(crate::waiter::advanced(app.waiter, report)) == Some(
            Verdict::TimedOut,
        ),
    ensures
        action_of(advanced(app, report)) == ActionView::Ask(RequestView::Stop(app.new_ids)),
        rolling_back(run(advanced(app, report), turns), app.new_ids),
        forall|id: Seq<char>| app.new_ids.contains(id) ==> !app.old_ids.contains(id),
        turns.len() == 2 && failure_of(turns[0].report) is None && failure_of(turns[1].report)
            is None ==> action_of(run(advanced(app, report), turns)) == ActionView::Finish(
            Err(Failure::NotHealthy),
        ),
{
    let begun = advanced(app, report);
    lemma_rollback_goes_on(begun, turns);
    if turns.len() == 2 {
        let first = turns.drop_last();
        assert(first.drop_last().len() == 0);
        assert(run(begun, first.drop_last()) == begun);
        assert(first.last() == turns[0]);
        assert(turns.last() == turns[1]);
        assert(run(begun, first) == advanced(begun, turns[0].report));
        assert(run(begun, turns) == advanced(run(begun, first), turns[1].report));
    }
}

/// What a restart works on is set once. The settings never change. The old
/// instances are set by the first listing, before anything is scaled, and
/// never again; the new instances are set by the listing that follows
/// scaling, and never again; and no new instance is ever an old one.
pub proof fn law_plan_is_set_once(app: AppView, report: ReportView)
    requires
        wf(app),
    ensures
        advanced(app, report).args == app.args,
        advanced(app, report).compose == app.compose,
        advanced(app, report).docker_args == app.docker_args,
        app.phase != Phase::CheckRunning ==> advanced(app, report).old_ids == app.old_ids,
        app.phase != Phase::Recount ==> advanced(app, report).new_ids == app.new_ids,
        forall|id: Seq<char>|
            advanced(app, report).new_ids.contains(id) ==> !advanced(
                app,
                report,
            ).old_ids.contains(id),
{
    lemma_advanced_wf(app, report);
}

} // verus!
