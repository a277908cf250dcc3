//! The rolling restart of one service: the instances that run are doubled,
//! the new ones are waited for, and the old ones are retired.
//!
//! `App` decides and does nothing else. At every moment exactly one request
//! to the runtime is outstanding, `App::action` names it, and `App::advance`
//! takes the report of what came of it. The caller carries the requests out.
//! When `App::action` gives `Action::Finish`, the restart is over.

use crate::gateway::{
    command_of, command_option_view, copy_words, instance_ids, parse_instance_ids, render, AppArgs,
    ArgsView, Command, ComposeFlavor, Report, ReportView, Request, RequestView,
};
use crate::health::{report_has_health_check, reports_health_check};
use crate::instances::{fresh_ids, lemma_fresh_contains, without};
use crate::text::{replace, replaced};
use crate::waiter::{Verdict, WaitAction, WaitActionView, WaitPhase, Waiter, WaiterView};
use vstd::prelude::*;
use vstd::string::*;

verus! {

/// Why a command failed.
#[derive(Clone, Copy, Debug, PartialEq, Eq, Structural)]
pub enum Cause {
    /// It could not be run.
    Launch,
    /// It ran and ended with an exit status other than zero.
    ExitStatus,
}

/// Why a restart failed.
#[derive(Clone, Copy, Debug, PartialEq, Eq, Structural)]
pub enum Failure {
    /// The instances could not be listed.
    ListInstances(Cause),
    /// The service could not be started.
    StartService,
    /// The service could not be scaled.
    Scale(Cause),
    /// Instances could not be stopped.
    Stop(Cause),
    /// Instances could not be removed.
    Remove(Cause),
    /// The new instances were not healthy in time; they have been removed.
    NotHealthy,
}

/// Where a restart stands: which request is outstanding, or how it ended.
#[derive(Clone, Copy, Debug, PartialEq, Eq, Structural)]
pub enum Phase {
    /// The running instances are being listed.
    CheckRunning,
    /// Nothing ran; the service is being started.
    StartFresh,
    /// The service is being scaled to twice its instances.
    ScaleUp,
    /// The instances are being listed again, to find the new ones.
    Recount,
    /// One old instance is being inspected for a health check.
    CheckHealth,
    /// The new instances are being waited for.
    AwaitReady,
    /// The pause after the new instances became healthy.
    Settle,
    /// The pause that stands for readiness where there is no health check.
    FallbackWait,
    /// The new instances did not become healthy and are being stopped.
    RollbackStop,
    /// The new instances did not become healthy and are being removed.
    RollbackRemove,
    /// The pre-stop command is running for one of the old instances.
    PreStop,
    /// The old instances are being waited for to become unhealthy.
    AwaitUnhealthy,
    /// The old instances are being stopped.
    RetireStop,
    /// The old instances are being removed.
    RetireRemove,
    /// The restart succeeded.
    Done,
    /// The restart failed.
    Failed(Failure),
}

/// What is to be done next.
#[derive(Debug)]
pub enum Action {
    /// Carry out this request and report what came of it.
    Ask(Request),
    /// Nothing: the restart is over, with this result.
    Finish(Result<(), Failure>),
}

/// An `Action` as plain values.
pub enum ActionView {
    Ask(RequestView),
    Finish(Result<(), Failure>),
}

impl View for Action {
    type V = ActionView;

    open spec fn view(&self) -> ActionView {
        match self {
            Action::Ask(request) => ActionView::Ask(request@),
            Action::Finish(result) => ActionView::Finish(*result),
        }
    }
}

/// One restart of one service.
#[derive(Debug)]
pub struct App {
    args: AppArgs,
    compose: ComposeFlavor,
    docker_args: Vec<String>,
    phase: Phase,
    old_ids: Vec<String>,
    new_ids: Vec<String>,
    waiter: Waiter,
    cursor: usize,
    unhealthy_wait_timed_out: bool,
}

/// An `App` as plain values.
pub struct AppView {
    pub args: ArgsView,
    pub compose: ComposeFlavor,
    pub docker_args: Seq<Seq<char>>,
    pub phase: Phase,
    /// The instances that ran before anything was scaled. Set once.
    pub old_ids: Seq<Seq<char>>,
    /// The instances that ran after scaling and are none of the old ones.
    pub new_ids: Seq<Seq<char>>,
    /// The wait that is under way in the two waiting phases.
    pub waiter: WaiterView,
    /// While pre-stop commands run: the place in `old_ids` of the instance
    /// whose command is running.
    pub cursor: nat,
    /// The old instances were waited for to become unhealthy, in vain.
    pub unhealthy_wait_timed_out: bool,
}

impl View for App {
    type V = AppView;

    closed spec fn view(&self) -> AppView {
        AppView {
            args: self.args@,
            compose: self.compose,
            docker_args: self.docker_args.deep_view(),
            phase: self.phase,
            old_ids: self.old_ids.deep_view(),
            new_ids: self.new_ids.deep_view(),
            waiter: self.waiter@,
            cursor: self.cursor as nat,
            unhealthy_wait_timed_out: self.unhealthy_wait_timed_out,
        }
    }
}

/// The text that stands for the instance's id in a pre-stop command.
pub open spec fn placeholder() -> Seq<char> {
    "{id}"@
}

/// A wait is under way: it has no verdict yet.
pub open spec fn waiting(w: WaiterView) -> bool {
    w.phase == WaitPhase::Probing || w.phase == WaitPhase::Sleeping
}

/// A restart is well formed. No new instance is an old one, and there is no
/// new instance while the running instances are first listed. Once the
/// service is found running there are old instances. While the new instances
/// are waited for, the wait is under way and is for all of them to be
/// healthy. While the old ones are waited for, the wait is under way and is
/// for none of them to be healthy. A pre-stop command runs only where one is
/// set, for one of the old instances.
///
/// `App::new` gives a well-formed restart and every method keeps it well
/// formed, so a caller that holds an `App` holds a well-formed one.
pub open spec fn wf(app: AppView) -> bool {
    &&& crate::waiter::wf(app.waiter)
    &&& forall|id: Seq<char>| app.new_ids.contains(id) ==> !app.old_ids.contains(id)
    &&& match app.phase {
        Phase::CheckRunning => app.new_ids.len() == 0,
        Phase::StartFresh => true,
        Phase::Done => true,
        Phase::Failed(_) => true,
        Phase::AwaitReady => {
            &&& app.old_ids.len() > 0
            &&& waiting(app.waiter)
            &&& app.waiter.ids == app.new_ids
            &&& app.waiter.target == app.new_ids.len()
        },
        Phase::AwaitUnhealthy => {
            &&& app.old_ids.len() > 0
            &&& waiting(app.waiter)
            &&& app.waiter.ids == app.old_ids
            &&& app.waiter.target == 0
        },
        Phase::PreStop => app.cursor < app.old_ids.len() && app.args.pre_stop_cmd is Some,
        _ => app.old_ids.len() > 0,
    }
}

/// A restart that has not begun: the listing of the running instances is
/// outstanding.
pub open spec fn fresh(
    args: ArgsView,
    compose: ComposeFlavor,
    docker_args: Seq<Seq<char>>,
) -> AppView {
    AppView {
        args,
        compose,
        docker_args,
        phase: Phase::CheckRunning,
        old_ids: Seq::empty(),
        new_ids: Seq::empty(),
        waiter: crate::waiter::begun(0, Seq::empty(), 0, 0),
        cursor: 0,
        unhealthy_wait_timed_out: false,
    }
}

/// Why the command that `report` is about failed, if it did.
pub open spec fn failure_of(report: ReportView) -> Option<Cause> {
    if !report.ran {
        Some(Cause::Launch)
    } else if !report.success {
        Some(Cause::ExitStatus)
    } else {
        None
    }
}

/// The old instances are retired next.
pub open spec fn retire_begun(app: AppView) -> AppView {
    AppView { phase: Phase::RetireStop, ..app }
}

/// The wait for the old instances to become unhealthy has moved on: where it
/// is over, whatever its verdict, the old instances are retired next.
pub open spec fn unhealthy_wait_moved(app: AppView) -> AppView {
    match crate::waiter::verdict_of(app.waiter) {
        None => AppView { phase: Phase::AwaitUnhealthy, ..app },
        Some(Verdict::Reached) => retire_begun(app),
        Some(Verdict::TimedOut) => retire_begun(
            AppView { unhealthy_wait_timed_out: true, ..app },
        ),
    }
}

/// Every pre-stop command has run. Where that is asked for, the old
/// instances are waited for until none of them is healthy, for as long as
/// the health-check timeout allows; then they are retired.
pub open spec fn pre_stop_done(app: AppView, now: u64) -> AppView {
    if app.args.pre_stop_wait_until_unhealthy {
        unhealthy_wait_moved(
            AppView {
                waiter: crate::waiter::begun(0, app.old_ids, app.args.healthcheck_timeout, now),
                ..app
            },
        )
    } else {
        retire_begun(app)
    }
}

/// The new instances count as ready. Where a pre-stop command is set it runs
/// for each old instance, the first one first; where none is set the old
/// instances are retired at once.
pub open spec fn pre_stop_begun(app: AppView) -> AppView {
    if app.args.pre_stop_cmd is Some {
        AppView { phase: Phase::PreStop, cursor: 0, ..app }
    } else {
        retire_begun(app)
    }
}

/// The new instances are healthy. Where a settle time is set it is waited
/// out first.
pub open spec fn settle_begun(app: AppView) -> AppView {
    if app.args.wait_after_healthy == 0 {
        pre_stop_begun(app)
    } else {
        AppView { phase: Phase::Settle, ..app }
    }
}

/// The wait for the new instances has moved on: where it reached its target
/// the restart goes on, where it timed out the new instances are rolled
/// back.
pub open spec fn ready_wait_moved(app: AppView) -> AppView {
    match crate::waiter::verdict_of(app.waiter) {
        None => AppView { phase: Phase::AwaitReady, ..app },
        Some(Verdict::Reached) => settle_begun(app),
        Some(Verdict::TimedOut) => AppView { phase: Phase::RollbackStop, ..app },
    }
}

/// The service has a health check: all new instances are waited for to be
/// healthy, for as long as the health-check timeout allows.
pub open spec fn ready_wait_begun(app: AppView, now: u64) -> AppView {
    ready_wait_moved(
        AppView {
            waiter: crate::waiter::begun(
                app.new_ids.len(),
                app.new_ids,
                app.args.healthcheck_timeout,
                now,
            ),
            ..app
        },
    )
}

/// The restart has failed.
pub open spec fn failed(app: AppView, failure: Failure) -> AppView {
    AppView { phase: Phase::Failed(failure), ..app }
}

/// The restart after `report` came back for the outstanding request.
///
/// A listing that failed ends the restart in failure. A first listing that
/// names no instance leads to a fresh start, and the restart then succeeds
/// unless the start command could not be run; its exit status is not looked
/// at. Any other first listing sets the old instances, and the service is
/// scaled to twice their number. A scaling that failed ends the restart in
/// failure. The listing after it sets the new instances: those it names that
/// are no old ones. One old instance, the first, is then inspected. If that
/// shows a health check, the new instances are waited for until all of them
/// are healthy, and a wait that times out leads to the rollback: the new
/// instances are stopped, then removed, and the restart fails. If it shows
/// none, or cannot be made, the fixed wait takes the place of the check.
/// Then the pre-stop commands run, one for each old instance, whatever comes
/// of them, and the old instances are stopped and then removed; either
/// failing ends the restart in failure. A restart that is over stays as it
/// is.
pub open spec fn advanced(app: AppView, report: ReportView) -> AppView {
    match app.phase {
        Phase::CheckRunning => {
            match failure_of(report) {
                Some(cause) => failed(app, Failure::ListInstances(cause)),
                None => {
                    if instance_ids(report.stdout).len() == 0 {
                        AppView { phase: Phase::StartFresh, ..app }
                    } else {
                        AppView {
                            phase: Phase::ScaleUp,
                            old_ids: instance_ids(report.stdout),
                            ..app
                        }
                    }
                },
            }
        },
        Phase::StartFresh => {
            if report.ran {
                AppView { phase: Phase::Done, ..app }
            } else {
                failed(app, Failure::StartService)
            }
        },
        Phase::ScaleUp => {
            match failure_of(report) {
                Some(cause) => failed(app, Failure::Scale(cause)),
                None => AppView { phase: Phase::Recount, ..app },
            }
        },
        Phase::Recount => {
            match failure_of(report) {
                Some(cause) => failed(app, Failure::ListInstances(cause)),
                None => AppView {
                    phase: Phase::CheckHealth,
                    new_ids: fresh_ids(instance_ids(report.stdout), app.old_ids),
                    ..app
                },
            }
        },
        Phase::CheckHealth => {
            if reports_health_check(report) {
                ready_wait_begun(app, report.now)
            } else {
                AppView { phase: Phase::FallbackWait, ..app }
            }
        },
        Phase::AwaitReady => ready_wait_moved(
            AppView { waiter: crate::waiter::advanced(app.waiter, report), ..app },
        ),
        Phase::Settle => pre_stop_begun(app),
        Phase::FallbackWait => pre_stop_begun(app),
        Phase::RollbackStop => {
            match failure_of(report) {
                Some(cause) => failed(app, Failure::Stop(cause)),
                None => AppView { phase: Phase::RollbackRemove, ..app },
            }
        },
        Phase::RollbackRemove => {
            match failure_of(report) {
                Some(cause) => failed(app, Failure::Remove(cause)),
                None => failed(app, Failure::NotHealthy),
            }
        },
        Phase::PreStop => {
            if app.cursor + 1 < app.old_ids.len() {
                AppView { cursor: app.cursor + 1, ..app }
            } else {
                pre_stop_done(app, report.now)
            }
        },
        Phase::AwaitUnhealthy => unhealthy_wait_moved(
            AppView { waiter: crate::waiter::advanced(app.waiter, report), ..app },
        ),
        Phase::RetireStop => {
            match failure_of(report) {
                Some(cause) => failed(app, Failure::Stop(cause)),
                None => AppView { phase: Phase::RetireRemove, ..app },
            }
        },
        Phase::RetireRemove => {
            match failure_of(report) {
                Some(cause) => failed(app, Failure::Remove(cause)),
                None => AppView { phase: Phase::Done, ..app },
            }
        },
        Phase::Done => app,
        Phase::Failed(_) => app,
    }
}

/// What a wait asks of the runtime. A wait that is over asks for nothing, and
/// no well-formed restart is in a waiting phase with such a wait; it counts
/// as a pause of no length.
pub open spec fn wait_request(action: WaitActionView) -> RequestView {
    match action {
        WaitActionView::Probe(id) => RequestView::InspectStatus(id),
        WaitActionView::Sleep(seconds) => RequestView::Sleep(seconds),
        WaitActionView::Done(_) => RequestView::Sleep(0),
    }
}

/// The pre-stop command for the instance `id`: the template, with every
/// placeholder replaced by the id.
pub open spec fn pre_stop_text(template: Seq<char>, id: Seq<char>) -> Seq<char> {
    replaced(template, placeholder(), id)
}

/// What is to be done next.
pub open spec fn action_of(app: AppView) -> ActionView {
    match app.phase {
        Phase::CheckRunning => ActionView::Ask(RequestView::ListInstances),
        Phase::StartFresh => ActionView::Ask(RequestView::StartIfAbsent),
        Phase::ScaleUp => ActionView::Ask(RequestView::ScaleUp(2 * app.old_ids.len())),
        Phase::Recount => ActionView::Ask(RequestView::ListInstances),
        Phase::CheckHealth => ActionView::Ask(RequestView::InspectHealth(app.old_ids[0])),
        Phase::AwaitReady => ActionView::Ask(wait_request(crate::waiter::action_of(app.waiter))),
        Phase::Settle => ActionView::Ask(RequestView::Sleep(app.args.wait_after_healthy)),
        Phase::FallbackWait => ActionView::Ask(RequestView::Sleep(app.args.wait)),
        Phase::RollbackStop => ActionView::Ask(RequestView::Stop(app.new_ids)),
        Phase::RollbackRemove => ActionView::Ask(RequestView::Remove(app.new_ids)),
        Phase::PreStop => ActionView::Ask(
            RequestView::RunShell(
                pre_stop_text(app.args.pre_stop_cmd->Some_0, app.old_ids[app.cursor as int]),
            ),
        ),
        Phase::AwaitUnhealthy => ActionView::Ask(
            wait_request(crate::waiter::action_of(app.waiter)),
        ),
        Phase::RetireStop => ActionView::Ask(RequestView::Stop(app.old_ids)),
        Phase::RetireRemove => ActionView::Ask(RequestView::Remove(app.old_ids)),
        Phase::Done => ActionView::Finish(Ok(())),
        Phase::Failed(failure) => ActionView::Finish(Err(failure)),
    }
}

/// Why the command that `report` is about failed, if it did.
pub fn failure(report: &Report) -> (cause: Option<Cause>)
    ensures
        cause == failure_of(report@),
{
    if !report.ran {
        Some(Cause::Launch)
    } else if !report.success {
        Some(Cause::ExitStatus)
    } else {
        None
    }
}

/// The pre-stop command for the instance `id`.
pub fn pre_stop_command(template: &str, id: &str) -> (text: String)
    ensures
        text@ == pre_stop_text(template@, id@),
{
    replace(template, "{id}", id)
}

impl App {
    /// A restart of `args.service` that has not begun. `compose` says how
    /// the compose tool is called, and `docker_args` what is passed to every
    /// call of docker before the subcommand.
    pub fn new(args: AppArgs, compose: ComposeFlavor, docker_args: Vec<String>) -> (app: App)
        ensures
            app@ == fresh(args@, compose, docker_args.deep_view()),
            wf(app@),
    {
        let old_ids: Vec<String> = Vec::new();
        let new_ids: Vec<String> = Vec::new();
        assert(old_ids.deep_view() =~= Seq::<Seq<char>>::empty());
        assert(new_ids.deep_view() =~= Seq::<Seq<char>>::empty());
        App {
            args,
            compose,
            docker_args,
            phase: Phase::CheckRunning,
            old_ids,
            new_ids,
            waiter: Waiter::idle(),
            cursor: 0,
            unhealthy_wait_timed_out: false,
        }
    }

    /// Where the restart stands.
    pub fn phase(&self) -> (phase: Phase)
        ensures
            phase == self@.phase,
    {
        self.phase
    }

    /// Whether the restart is over.
    pub fn is_finished(&self) -> (over: bool)
        ensures
            over == (action_of(self@) is Finish),
    {
        match self.phase {
            Phase::Done => true,
            Phase::Failed(_) => true,
            _ => false,
        }
    }

    /// The instances that ran before anything was scaled.
    pub fn old_ids(&self) -> (ids: Vec<String>)
        ensures
            ids.deep_view() == self@.old_ids,
    {
        copy_words(&self.old_ids)
    }

    /// The instances that scaling added.
    pub fn new_ids(&self) -> (ids: Vec<String>)
        ensures
            ids.deep_view() == self@.new_ids,
    {
        copy_words(&self.new_ids)
    }

    /// Whether the old instances were waited for to become unhealthy, in
    /// vain. The restart goes on all the same.
    pub fn unhealthy_wait_timed_out(&self) -> (timed_out: bool)
        ensures
            timed_out == self@.unhealthy_wait_timed_out,
    {
        self.unhealthy_wait_timed_out
    }

    /// The command line that `request` stands for in this restart, if it
    /// stands for one.
    pub fn command(&self, request: &Request) -> (command: Option<Command>)
        ensures
            command_option_view(command) == command_of(
                self@.compose,
                self@.args,
                self@.docker_args,
                request@,
            ),
    {
        render(self.compose, &self.args, &self.docker_args, request)
    }

    /// What the wait that is under way asks of the runtime.
    fn wait_action(&self) -> (request: Request)
        requires
            crate::waiter::wf(self@.waiter),
        ensures
            request@ == wait_request(crate::waiter::action_of(self@.waiter)),
    {
        match self.waiter.action() {
            WaitAction::Probe(id) => Request::InspectStatus(id),
            WaitAction::Sleep(seconds) => Request::Sleep(seconds),
            WaitAction::Done(_) => Request::Sleep(0),
        }
    }

    /// What is to be done next.
    pub fn action(&self) -> (action: Action)
        requires
            wf(self@),
        ensures
            action@ == action_of(self@),
    {
        assert(self.old_ids.deep_view().len() == self.old_ids.len());
        match self.phase {
            Phase::CheckRunning => Action::Ask(Request::ListInstances),
            Phase::StartFresh => Action::Ask(Request::StartIfAbsent),
            Phase::ScaleUp => {
                let count: u128 = 2 * (self.old_ids.len() as u128);
                Action::Ask(Request::ScaleUp(count))
            },
            Phase::Recount => Action::Ask(Request::ListInstances),
            Phase::CheckHealth => Action::Ask(Request::InspectHealth(self.old_ids[0].clone())),
            Phase::AwaitReady => Action::Ask(self.wait_action()),
            Phase::Settle => Action::Ask(Request::Sleep(self.args.wait_after_healthy)),
            Phase::FallbackWait => Action::Ask(Request::Sleep(self.args.wait)),
            Phase::RollbackStop => Action::Ask(Request::Stop(copy_words(&self.new_ids))),
            Phase::RollbackRemove => Action::Ask(Request::Remove(copy_words(&self.new_ids))),
            Phase::PreStop => {
                match &self.args.pre_stop_cmd {
                    Some(template) => Action::Ask(
                        Request::RunShell(
                            pre_stop_command(
                                template.as_str(),
                                self.old_ids[self.cursor].as_str(),
                            ),
                        ),
                    ),
                    None => Action::Ask(Request::Sleep(0)),
                }
            },
            Phase::AwaitUnhealthy => Action::Ask(self.wait_action()),
            Phase::RetireStop => Action::Ask(Request::Stop(copy_words(&self.old_ids))),
            Phase::RetireRemove => Action::Ask(Request::Remove(copy_words(&self.old_ids))),
            Phase::Done => Action::Finish(Ok(())),
            Phase::Failed(failure) => Action::Finish(Err(failure)),
        }
    }

    /// The old instances are retired next.
    fn begin_retire(&mut self)
        ensures
            final(self)@ == retire_begun(old(self)@),
    {
        self.phase = Phase::RetireStop;
    }

    /// Moves on from the wait for the old instances to become unhealthy.
    fn move_unhealthy_wait(&mut self)
        ensures
            final(self)@ == unhealthy_wait_moved(old(self)@),
    {
        match self.waiter.verdict() {
            None => {
                self.phase = Phase::AwaitUnhealthy;
            },
            Some(Verdict::Reached) => {
                self.begin_retire();
            },
            Some(Verdict::TimedOut) => {
                self.unhealthy_wait_timed_out = true;
                self.begin_retire();
            },
        }
    }

    /// Every pre-stop command has run.
    fn finish_pre_stop(&mut self, now: u64)
        ensures
            final(self)@ == pre_stop_done(old(self)@, now),
    {
        if self.args.pre_stop_wait_until_unhealthy {
            self.waiter = Waiter::new(
                0,
                copy_words(&self.old_ids),
                self.args.healthcheck_timeout,
                now,
            );
            self.move_unhealthy_wait();
        } else {
            self.begin_retire();
        }
    }

    /// The new instances count as ready.
    fn begin_pre_stop(&mut self)
        ensures
            final(self)@ == pre_stop_begun(old(self)@),
    {
        if self.args.pre_stop_cmd.is_some() {
            self.cursor = 0;
            self.phase = Phase::PreStop;
        } else {
            self.begin_retire();
        }
    }

    /// The new instances are healthy.
    fn begin_settle(&mut self)
        ensures
            final(self)@ == settle_begun(old(self)@),
    {
        if self.args.wait_after_healthy == 0 {
            self.begin_pre_stop();
        } else {
            self.phase = Phase::Settle;
        }
    }

    /// Moves on from the wait for the new instances.
    fn move_ready_wait(&mut self)
        ensures
            final(self)@ == ready_wait_moved(old(self)@),
    {
        match self.waiter.verdict() {
            None => {
                self.phase = Phase::AwaitReady;
            },
            Some(Verdict::Reached) => {
                self.begin_settle();
            },
            Some(Verdict::TimedOut) => {
                self.phase = Phase::RollbackStop;
            },
        }
    }

    /// The service has a health check: the new instances are waited for.
    fn begin_ready_wait(&mut self, now: u64)
        ensures
            final(self)@ == ready_wait_begun(old(self)@, now),
    {
        assert(self.new_ids.deep_view().len() == self.new_ids.len());
        self.waiter = Waiter::new(
            self.new_ids.len(),
            copy_words(&self.new_ids),
            self.args.healthcheck_timeout,
            now,
        );
        self.move_ready_wait();
    }

    /// Takes the report of the first listing.
    fn take_listing(&mut self, report: &Report)
        requires
            old(self)@.phase == Phase::CheckRunning,
        ensures
            final(self)@ == advanced(old(self)@, report@),
    {
        match failure(report) {
            Some(cause) => {
                self.phase = Phase::Failed(Failure::ListInstances(cause));
            },
            None => {
                let ids = parse_instance_ids(report.stdout.as_str());
                assert(ids.deep_view().len() == ids.len());
                if ids.len() == 0 {
                    self.phase = Phase::StartFresh;
                } else {
                    self.old_ids = ids;
                    self.phase = Phase::ScaleUp;
                }
            },
        }
    }

    /// Takes the report of the listing that follows scaling.
    fn take_recount(&mut self, report: &Report)
        requires
            old(self)@.phase == Phase::Recount,
        ensures
            final(self)@ == advanced(old(self)@, report@),
    {
        match failure(report) {
            Some(cause) => {
                self.phase = Phase::Failed(Failure::ListInstances(cause));
            },
            None => {
                let all_ids = parse_instance_ids(report.stdout.as_str());
                self.new_ids = without(&all_ids, &self.old_ids);
                self.phase = Phase::CheckHealth;
            },
        }
    }

    /// Takes the report of a probe or a pause of the wait that is under way.
    fn take_wait(&mut self, report: &Report)
        requires
            wf(old(self)@),
            old(self)@.phase == Phase::AwaitReady || old(self)@.phase == Phase::AwaitUnhealthy,
        ensures
            final(self)@ == advanced(old(self)@, report@),
    {
        self.waiter.advance(report);
        match self.phase {
            Phase::AwaitReady => self.move_ready_wait(),
            _ => self.move_unhealthy_wait(),
        }
    }

    /// Takes the report of a pre-stop command.
    fn take_pre_stop(&mut self, report: &Report)
        requires
            wf(old(self)@),
            old(self)@.phase == Phase::PreStop,
        ensures
            final(self)@ == advanced(old(self)@, report@),
    {
        assert(self.old_ids.deep_view().len() == self.old_ids.len());
        if self.cursor + 1 < self.old_ids.len() {
            self.cursor = self.cursor + 1;
        } else {
            self.finish_pre_stop(report.now);
        }
    }

    /// Takes the report of a command that only succeeds or fails.
    fn take_exit(&mut self, report: &Report)
        requires
            old(self)@.phase != Phase::CheckRunning,
            old(self)@.phase != Phase::Recount,
            old(self)@.phase != Phase::CheckHealth,
            old(self)@.phase != Phase::AwaitReady,
            old(self)@.phase != Phase::AwaitUnhealthy,
            old(self)@.phase != Phase::PreStop,
        ensures
            final(self)@ == advanced(old(self)@, report@),
    {
        let cause = failure(report);
        match self.phase {
            Phase::StartFresh => {
                if report.ran {
                    self.phase = Phase::Done;
                } else {
                    self.phase = Phase::Failed(Failure::StartService);
                }
            },
            Phase::ScaleUp => {
                self.phase = match cause {
                    Some(cause) => Phase::Failed(Failure::Scale(cause)),
                    None => Phase::Recount,
                };
            },
            Phase::Settle => {
                self.begin_pre_stop();
            },
            Phase::FallbackWait => {
                self.begin_pre_stop();
            },
            Phase::RollbackStop => {
                self.phase = match cause {
                    Some(cause) => Phase::Failed(Failure::Stop(cause)),
                    None => Phase::RollbackRemove,
                };
            },
            Phase::RollbackRemove => {
                self.phase = match cause {
                    Some(cause) => Phase::Failed(Failure::Remove(cause)),
                    None => Phase::Failed(Failure::NotHealthy),
                };
            },
            Phase::RetireStop => {
                self.phase = match cause {
                    Some(cause) => Phase::Failed(Failure::Stop(cause)),
                    None => Phase::RetireRemove,
                };
            },
            Phase::RetireRemove => {
                self.phase = match cause {
                    Some(cause) => Phase::Failed(Failure::Remove(cause)),
                    None => Phase::Done,
                };
            },
            _ => {},
        }
    }

    /// Takes the report of what came of the outstanding request.
    pub fn advance(&mut self, report: &Report)
        requires
            wf(old(self)@),
        ensures
            final(self)@ == advanced(old(self)@, report@),
            wf(final(self)@),
    {
        proof {
            lemma_advanced_wf(self@, report@);
        }
        match self.phase {
            Phase::CheckRunning => self.take_listing(report),
            Phase::Recount => self.take_recount(report),
            Phase::CheckHealth => {
                if report_has_health_check(report) {
                    self.begin_ready_wait(report.now);
                } else {
                    self.phase = Phase::FallbackWait;
                }
            },
            Phase::AwaitReady => self.take_wait(report),
            Phase::AwaitUnhealthy => self.take_wait(report),
            Phase::PreStop => self.take_pre_stop(report),
            _ => self.take_exit(report),
        }
    }

    /// Takes the report of what came of the outstanding request, and says
    /// what is to be done next.
    pub fn step(&mut self, report: &Report) -> (action: Action)
        requires
            wf(old(self)@),
        ensures
            final(self)@ == advanced(old(self)@, report@),
            wf(final(self)@),
            action@ == action_of(final(self)@),
    {
        self.advance(report);
        self.action()
    }
}

/// A restart that is well formed stays so.
pub proof fn lemma_advanced_wf(app: AppView, report: ReportView)
    requires
        wf(app),
    ensures
        wf(advanced(app, report)),
{
    match app.phase {
        Phase::Recount => {
            assert forall|id: Seq<char>|
                fresh_ids(instance_ids(report.stdout), app.old_ids).contains(
                    id,
                ) implies !app.old_ids.contains(id) by {
                lemma_fresh_contains(instance_ids(report.stdout), app.old_ids, id);
            }
        },
        _ => {},
    }
}

/// The phase `after` can follow the phase `before` in one step. These are the
/// paths of a restart: from the check for running instances to a fresh start,
/// or through scaling, the wait for readiness, the pre-stop commands and the
/// retirement of the old instances; from the wait for readiness into the
/// rollback; and from every request that can fail into failure. A waiting
/// phase and the pre-stop phase can last for many steps, and a restart that
/// is over stays as it is.
pub open spec fn follows(before: Phase, after: Phase) -> bool {
    let retiring = after == Phase::RetireStop;
    let pre_retiring = after == Phase::PreStop || retiring;
    match before {
        Phase::CheckRunning => after == Phase::StartFresh || after == Phase::ScaleUp
            || after matches Phase::Failed(Failure::ListInstances(_)),
        Phase::StartFresh => after == Phase::Done || after == Phase::Failed(Failure::StartService),
        Phase::ScaleUp => after == Phase::Recount || after matches Phase::Failed(
            Failure::Scale(_),
        ),
        Phase::Recount => after == Phase::CheckHealth || after matches Phase::Failed(
            Failure::ListInstances(_),
        ),
        Phase::CheckHealth => after == Phase::AwaitReady || after == Phase::FallbackWait || after
            == Phase::Settle || pre_retiring,
        Phase::AwaitReady => after == Phase::AwaitReady || after == Phase::Settle || after
            == Phase::RollbackStop || pre_retiring,
        Phase::Settle => pre_retiring,
        Phase::FallbackWait => pre_retiring,
        Phase::RollbackStop => after == Phase::RollbackRemove || after matches Phase::Failed(
            Failure::Stop(_),
        ),
        Phase::RollbackRemove => after == Phase::Failed(Failure::NotHealthy)
            || after matches Phase::Failed(Failure::Remove(_)),
        Phase::PreStop => after == Phase::PreStop || after == Phase::AwaitUnhealthy || retiring,
        Phase::AwaitUnhealthy => after == Phase::AwaitUnhealthy || retiring,
        Phase::RetireStop => after == Phase::RetireRemove || after matches Phase::Failed(
            Failure::Stop(_),
        ),
        Phase::RetireRemove => after == Phase::Done || after matches Phase::Failed(
            Failure::Remove(_),
        ),
        Phase::Done => after == Phase::Done,
        Phase::Failed(failure) => after == Phase::Failed(failure),
    }
}

/// Every step of a restart follows one of its paths. A wait for the new
/// instances lasts only while its verdict is open, and ends in the rollback
/// exactly if it timed out.
pub proof fn law_steps_follow_paths(app: AppView, report: ReportView)
    requires
        wf(app),
    ensures
        follows(app.phase, advanced(app, report).phase),
        app.phase == Phase::AwaitReady ==> (advanced(app, report).phase == Phase::RollbackStop
            <==> crate::waiter::verdict_of(crate::waiter::advanced(app.waiter, report)) == Some(
            Verdict::TimedOut,
        )),
        app.phase == Phase::AwaitReady ==> (advanced(app, report).phase == Phase::AwaitReady
            <==> crate::waiter::verdict_of(crate::waiter::advanced(app.waiter, report))
            is None),
{
}

/// The words that tell a user of the failure.
pub open spec fn message_of(failure: Failure) -> Seq<char> {
    match failure {
        Failure::ListInstances(Cause::Launch) => "failed to get container ids"@,
        Failure::ListInstances(Cause::ExitStatus) => {
            "failed to get container ids (non-zero exit code)"@
        },
        Failure::StartService => "failed to start service"@,
        Failure::Scale(Cause::Launch) => "failed to scale instances"@,
        Failure::Scale(Cause::ExitStatus) => "failed to scale instances (non-zero exit code)"@,
        Failure::Stop(Cause::Launch) => "failed to stop instances"@,
        Failure::Stop(Cause::ExitStatus) => "failed to stop instances (non-zero exit code)"@,
        Failure::Remove(Cause::Launch) => "failed to remove instances"@,
        Failure::Remove(Cause::ExitStatus) => "failed to remove instances (non-zero exit code)"@,
        Failure::NotHealthy => "new containers weren't healthy after timeout"@,
    }
}

impl Failure {
    /// The words that tell a user of the failure.
    pub fn message(&self) -> (text: String)
        ensures
            text@ == message_of(*self),
    {
        match self {
            Failure::ListInstances(Cause::Launch) => String::from_str(
                "failed to get container ids",
            ),
            Failure::ListInstances(Cause::ExitStatus) => String::from_str(
                "failed to get container ids (non-zero exit code)",
            ),
            Failure::StartService => String::from_str("failed to start service"),
            Failure::Scale(Cause::Launch) => String::from_str("failed to scale instances"),
            Failure::Scale(Cause::ExitStatus) => String::from_str(
                "failed to scale instances (non-zero exit code)",
            ),
            Failure::Stop(Cause::Launch) => String::from_str("failed to stop instances"),
            Failure::Stop(Cause::ExitStatus) => String::from_str(
                "failed to stop instances (non-zero exit code)",
            ),
            Failure::Remove(Cause::Launch) => String::from_str("failed to remove instances"),
            Failure::Remove(Cause::ExitStatus) => String::from_str(
                "failed to remove instances (non-zero exit code)",
            ),
            Failure::NotHealthy => String::from_str(
                "new containers weren't healthy after timeout",
            ),
        }
    }
}

} // verus!
