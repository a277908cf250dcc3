use docker_reroll::app::{Action, App, Cause, Failure, Phase};
use docker_reroll::gateway::{AppArgs, ComposeFlavor, Report, Request};

const SECOND: u64 = 1_000_000_000;

/// A runtime that keeps its instances in memory and names new ones `c1`,
/// `c2` and so on.
struct World {
    running: Vec<String>,
    stopped: Vec<String>,
    made: usize,
    has_health_check: bool,
    /// The clock reading from which on new instances report healthy.
    healthy_from: Option<u64>,
    /// The clock reading from which on old instances report unhealthy.
    unhealthy_from: Option<u64>,
    old: Vec<String>,
    clock: u64,
    fail_scale: bool,
    fail_stop: bool,
    fail_remove: bool,
    log: Vec<String>,
}

fn world(running: &[&str], has_health_check: bool) -> World {
    World {
        running: running.iter().map(|s| s.to_string()).collect(),
        stopped: Vec::new(),
        made: running.len(),
        has_health_check,
        healthy_from: None,
        unhealthy_from: None,
        old: running.iter().map(|s| s.to_string()).collect(),
        clock: 0,
        fail_scale: false,
        fail_stop: false,
        fail_remove: false,
        log: Vec::new(),
    }
}

fn done(world: &World, success: bool, stdout: &str) -> Report {
    Report { ran: true, success, stdout: stdout.to_string(), now: world.clock }
}

fn execute(world: &mut World, request: &Request) -> Report {
    match request {
        Request::ListInstances => {
            world.log.push("list".to_string());
            let mut text = String::new();
            for id in &world.running {
                text.push_str(id);
                text.push('\n');
            }
            done(world, true, &text)
        }
        Request::StartIfAbsent => {
            world.log.push("start".to_string());
            world.made += 1;
            world.running.push(format!("c{}", world.made));
            done(world, true, "")
        }
        Request::ScaleUp(count) => {
            world.log.push(format!("scale {}", count));
            if world.fail_scale {
                return done(world, false, "");
            }
            while (world.running.len() as u128) < *count {
                world.made += 1;
                world.running.push(format!("c{}", world.made));
            }
            done(world, true, "")
        }
        Request::InspectHealth(id) => {
            world.log.push(format!("health {}", id));
            if world.has_health_check {
                done(world, true, "{\"Status\":\"starting\",\"FailingStreak\":0,\"Log\":[]}\n")
            } else {
                done(world, true, "null\n")
            }
        }
        Request::InspectStatus(id) => {
            world.log.push(format!("status {}", id));
            if !world.running.contains(id) {
                return done(world, false, "");
            }
            let healthy = if world.old.contains(id) {
                match world.unhealthy_from {
                    Some(t) => world.clock < t,
                    None => true,
                }
            } else {
                match world.healthy_from {
                    Some(t) => world.clock >= t,
                    None => false,
                }
            };
            if healthy {
                done(world, true, "\"healthy\"\n")
            } else {
                done(world, true, "\"unhealthy\"\n")
            }
        }
        Request::Stop(ids) => {
            world.log.push(format!("stop {}", ids.join(" ")));
            if world.fail_stop {
                return done(world, false, "");
            }
            for id in ids {
                world.stopped.push(id.clone());
            }
            done(world, true, "")
        }
        Request::Remove(ids) => {
            world.log.push(format!("rm {}", ids.join(" ")));
            if world.fail_remove {
                return done(world, false, "");
            }
            world.running.retain(|id| !ids.contains(id));
            done(world, true, "")
        }
        Request::RunShell(text) => {
            world.log.push(format!("sh {}", text));
            done(world, true, "")
        }
        Request::Sleep(seconds) => {
            world.log.push(format!("sleep {}", seconds));
            world.clock += seconds * SECOND;
            done(world, true, "")
        }
    }
}

fn args(service: &str) -> AppArgs {
    AppArgs {
        file: None,
        env_file: None,
        pre_stop_cmd: None,
        pre_stop_wait_until_unhealthy: false,
        healthcheck_timeout: 60,
        wait: 10,
        wait_after_healthy: 0,
        service: service.to_string(),
    }
}

fn drive(app: &mut App, world: &mut World) -> Result<(), Failure> {
    let mut turns = 0;
    loop {
        turns += 1;
        assert!(turns < 10_000, "the restart does not end");
        match app.action() {
            Action::Finish(result) => return result,
            Action::Ask(request) => {
                let report = execute(world, &request);
                // At no moment do fewer instances run than at the start.
                assert!(world.running.len() >= world.old.len());
                app.advance(&report);
            }
        }
    }
}

fn names(ids: &[&str]) -> Vec<String> {
    ids.iter().map(|s| s.to_string()).collect()
}

#[test]
fn scenario_without_health_check() {
    let mut w = world(&["c1"], false);
    let mut app = App::new(args("web"), ComposeFlavor::Plugin, Vec::new());
    assert_eq!(drive(&mut app, &mut w), Ok(()));
    assert_eq!(
        w.log,
        names(&["list", "scale 2", "list", "health c1", "sleep 10", "stop c1", "rm c1"])
    );
    assert_eq!(w.running, names(&["c2"]));
    assert_eq!(app.old_ids(), names(&["c1"]));
    assert_eq!(app.new_ids(), names(&["c2"]));
    assert_eq!(app.phase(), Phase::Done);
    assert!(app.is_finished());
}

#[test]
fn scenario_with_health_check_and_pre_stop() {
    let mut w = world(&["c1", "c2"], true);
    w.healthy_from = Some(2 * SECOND);
    let mut a = args("web");
    a.wait_after_healthy = 3;
    a.pre_stop_cmd = Some("docker exec {id} drain".to_string());
    let mut app = App::new(a, ComposeFlavor::Plugin, Vec::new());
    assert_eq!(drive(&mut app, &mut w), Ok(()));
    assert_eq!(
        w.log,
        names(&[
            "list",
            "scale 4",
            "list",
            "health c1",
            "status c3",
            "status c4",
            "sleep 1",
            "status c3",
            "status c4",
            "sleep 1",
            "status c3",
            "status c4",
            "sleep 3",
            "sh docker exec c1 drain",
            "sh docker exec c2 drain",
            "stop c1 c2",
            "rm c1 c2",
        ])
    );
    assert_eq!(w.running, names(&["c3", "c4"]));
    assert!(!app.unhealthy_wait_timed_out());
}

#[test]
fn scenario_never_healthy_rolls_back() {
    let mut w = world(&["c1", "c2"], true);
    let mut a = args("web");
    a.healthcheck_timeout = 3;
    let mut app = App::new(a, ComposeFlavor::Plugin, Vec::new());
    assert_eq!(drive(&mut app, &mut w), Err(Failure::NotHealthy));
    assert_eq!(w.running, names(&["c1", "c2"]));
    assert_eq!(w.stopped, names(&["c3", "c4"]));
    let tail: Vec<String> = w.log[w.log.len() - 2..].to_vec();
    assert_eq!(tail, names(&["stop c3 c4", "rm c3 c4"]));
    // Four passes: at 0, 1, 2 and 3 seconds; the deadline is met after the
    // fourth.
    assert_eq!(w.log.iter().filter(|l| l.as_str() == "sleep 1").count(), 3);
    assert_eq!(w.log.iter().filter(|l| l.as_str() == "status c3").count(), 4);
    assert_eq!(app.phase(), Phase::Failed(Failure::NotHealthy));
}

#[test]
fn fresh_start_only_starts() {
    let mut w = world(&[], true);
    let mut app = App::new(args("web"), ComposeFlavor::Standalone, Vec::new());
    assert_eq!(drive(&mut app, &mut w), Ok(()));
    assert_eq!(w.log, names(&["list", "start"]));
    assert_eq!(w.running, names(&["c1"]));
}

#[test]
fn fresh_start_ignores_exit_status_but_not_a_failed_launch() {
    let mut app = App::new(args("web"), ComposeFlavor::Plugin, Vec::new());
    app.advance(&Report { ran: true, success: true, stdout: "\n".to_string(), now: 0 });
    assert_eq!(app.phase(), Phase::StartFresh);
    app.advance(&Report { ran: true, success: false, stdout: String::new(), now: 0 });
    assert_eq!(app.phase(), Phase::Done);

    let mut app = App::new(args("web"), ComposeFlavor::Plugin, Vec::new());
    app.advance(&Report { ran: true, success: true, stdout: String::new(), now: 0 });
    app.advance(&Report { ran: false, success: false, stdout: String::new(), now: 0 });
    assert_eq!(app.phase(), Phase::Failed(Failure::StartService));
    assert!(matches!(app.action(), Action::Finish(Err(Failure::StartService))));
}

#[test]
fn listing_that_fails_is_fatal() {
    let mut app = App::new(args("web"), ComposeFlavor::Plugin, Vec::new());
    let report = Report { ran: false, success: false, stdout: String::new(), now: 0 };
    assert!(matches!(
        app.step(&report),
        Action::Finish(Err(Failure::ListInstances(Cause::Launch)))
    ));
    // A restart that is over stays over.
    let report = Report { ran: true, success: true, stdout: "c1\n".to_string(), now: 0 };
    assert!(matches!(
        app.step(&report),
        Action::Finish(Err(Failure::ListInstances(Cause::Launch)))
    ));

    // A listing that ended in failure is not read.
    let mut app = App::new(args("web"), ComposeFlavor::Plugin, Vec::new());
    let report = Report { ran: true, success: false, stdout: "c1\n".to_string(), now: 0 };
    assert!(matches!(
        app.step(&report),
        Action::Finish(Err(Failure::ListInstances(Cause::ExitStatus)))
    ));
    assert_eq!(app.old_ids(), Vec::<String>::new());
}

#[test]
fn second_listing_that_fails_is_fatal() {
    let mut app = App::new(args("web"), ComposeFlavor::Plugin, Vec::new());
    app.advance(&Report { ran: true, success: true, stdout: "c1\n".to_string(), now: 0 });
    app.advance(&Report { ran: true, success: true, stdout: String::new(), now: 0 });
    assert_eq!(app.phase(), Phase::Recount);
    app.advance(&Report { ran: false, success: false, stdout: String::new(), now: 0 });
    assert_eq!(app.phase(), Phase::Failed(Failure::ListInstances(Cause::Launch)));

    let mut app = App::new(args("web"), ComposeFlavor::Plugin, Vec::new());
    app.advance(&Report { ran: true, success: true, stdout: "c1\n".to_string(), now: 0 });
    app.advance(&Report { ran: true, success: true, stdout: String::new(), now: 0 });
    app.advance(&Report { ran: true, success: false, stdout: "c1\nc2\n".to_string(), now: 0 });
    assert_eq!(app.phase(), Phase::Failed(Failure::ListInstances(Cause::ExitStatus)));
}

#[test]
fn scale_failure_is_fatal_and_touches_nothing() {
    let mut w = world(&["c1"], false);
    w.fail_scale = true;
    let mut app = App::new(args("web"), ComposeFlavor::Plugin, Vec::new());
    assert_eq!(drive(&mut app, &mut w), Err(Failure::Scale(Cause::ExitStatus)));
    assert_eq!(w.log, names(&["list", "scale 2"]));
    assert_eq!(w.running, names(&["c1"]));

    let mut app = App::new(args("web"), ComposeFlavor::Plugin, Vec::new());
    app.advance(&Report { ran: true, success: true, stdout: "c1\n".to_string(), now: 0 });
    app.advance(&Report { ran: false, success: false, stdout: String::new(), now: 0 });
    assert_eq!(app.phase(), Phase::Failed(Failure::Scale(Cause::Launch)));
}

#[test]
fn retirement_failures_are_fatal() {
    let mut w = world(&["c1"], false);
    w.fail_stop = true;
    let mut app = App::new(args("web"), ComposeFlavor::Plugin, Vec::new());
    assert_eq!(drive(&mut app, &mut w), Err(Failure::Stop(Cause::ExitStatus)));
    assert_eq!(w.log.last().unwrap(), "stop c1");
    assert_eq!(w.running, names(&["c1", "c2"]));

    let mut w = world(&["c1"], false);
    w.fail_remove = true;
    let mut app = App::new(args("web"), ComposeFlavor::Plugin, Vec::new());
    assert_eq!(drive(&mut app, &mut w), Err(Failure::Remove(Cause::ExitStatus)));
    assert_eq!(w.log.last().unwrap(), "rm c1");
    assert_eq!(w.stopped, names(&["c1"]));
}

#[test]
fn rollback_that_fails_reports_the_step_that_failed() {
    let mut w = world(&["c1"], true);
    w.fail_stop = true;
    let mut a = args("web");
    a.healthcheck_timeout = 0;
    let mut app = App::new(a, ComposeFlavor::Plugin, Vec::new());
    assert_eq!(drive(&mut app, &mut w), Err(Failure::Stop(Cause::ExitStatus)));
    assert_eq!(w.log.last().unwrap(), "stop c2");

    let mut w = world(&["c1"], true);
    w.fail_remove = true;
    let mut a = args("web");
    a.healthcheck_timeout = 0;
    let mut app = App::new(a, ComposeFlavor::Plugin, Vec::new());
    assert_eq!(drive(&mut app, &mut w), Err(Failure::Remove(Cause::ExitStatus)));
    assert_eq!(w.log.last().unwrap(), "rm c2");
}

#[test]
fn timeout_of_zero_still_polls_once() {
    let mut w = world(&["c1"], true);
    w.healthy_from = Some(0);
    let mut a = args("web");
    a.healthcheck_timeout = 0;
    let mut app = App::new(a, ComposeFlavor::Plugin, Vec::new());
    assert_eq!(drive(&mut app, &mut w), Ok(()));
    assert_eq!(
        w.log,
        names(&["list", "scale 2", "list", "health c1", "status c2", "stop c1", "rm c1"])
    );
}

#[test]
fn inspection_failure_means_no_health_check() {
    let mut app = App::new(args("web"), ComposeFlavor::Plugin, Vec::new());
    app.advance(&Report { ran: true, success: true, stdout: "c1\n".to_string(), now: 0 });
    app.advance(&Report { ran: true, success: true, stdout: String::new(), now: 0 });
    app.advance(&Report { ran: true, success: true, stdout: "c1\nc2\n".to_string(), now: 0 });
    assert_eq!(app.phase(), Phase::CheckHealth);
    // The inspection could not be run: the fixed wait takes the place of
    // the health check.
    app.advance(&Report { ran: false, success: false, stdout: String::new(), now: 0 });
    assert_eq!(app.phase(), Phase::FallbackWait);
    assert!(matches!(app.action(), Action::Ask(Request::Sleep(10))));
}

#[test]
fn pre_stop_runs_for_every_instance_whatever_fails() {
    let mut a = args("web");
    a.pre_stop_cmd = Some("notify {id} && echo {id}".to_string());
    let mut app = App::new(a, ComposeFlavor::Plugin, Vec::new());
    app.advance(&Report { ran: true, success: true, stdout: "a\nb\nc\n".to_string(), now: 0 });
    app.advance(&Report { ran: true, success: true, stdout: String::new(), now: 0 });
    app.advance(&Report { ran: true, success: true, stdout: "a\nb\nc\nd\n".to_string(), now: 0 });
    app.advance(&Report { ran: true, success: true, stdout: "null".to_string(), now: 0 });
    app.advance(&Report { ran: true, success: true, stdout: String::new(), now: 0 });
    let mut seen = Vec::new();
    for k in 0..3 {
        match app.action() {
            Action::Ask(Request::RunShell(text)) => seen.push(text),
            other => panic!("unexpected {:?}", other),
        }
        // The first command cannot be run, the second fails.
        app.advance(&Report { ran: k != 0, success: k == 2, stdout: String::new(), now: 0 });
    }
    assert_eq!(seen, names(&["notify a && echo a", "notify b && echo b", "notify c && echo c"]));
    match app.action() {
        Action::Ask(Request::Stop(ids)) => assert_eq!(ids, names(&["a", "b", "c"])),
        other => panic!("unexpected {:?}", other),
    }
}

#[test]
fn unhealthy_wait_reaches_zero() {
    let mut w = world(&["c1", "c2"], true);
    w.healthy_from = Some(0);
    w.unhealthy_from = Some(2 * SECOND);
    let mut a = args("web");
    a.pre_stop_cmd = Some("true".to_string());
    a.pre_stop_wait_until_unhealthy = true;
    let mut app = App::new(a, ComposeFlavor::Plugin, Vec::new());
    assert_eq!(drive(&mut app, &mut w), Ok(()));
    assert!(!app.unhealthy_wait_timed_out());
    assert_eq!(
        w.log,
        names(&[
            "list",
            "scale 4",
            "list",
            "health c1",
            "status c3",
            "status c4",
            "sh true",
            "sh true",
            "status c1",
            "status c2",
            "sleep 1",
            "status c1",
            "status c2",
            "sleep 1",
            "status c1",
            "status c2",
            "stop c1 c2",
            "rm c1 c2",
        ])
    );
    assert_eq!(w.running, names(&["c3", "c4"]));
}

#[test]
fn unhealthy_wait_that_times_out_is_not_fatal() {
    let mut w = world(&["c1"], true);
    w.healthy_from = Some(0);
    let mut a = args("web");
    a.healthcheck_timeout = 2;
    a.pre_stop_cmd = Some("true".to_string());
    a.pre_stop_wait_until_unhealthy = true;
    let mut app = App::new(a, ComposeFlavor::Plugin, Vec::new());
    assert_eq!(drive(&mut app, &mut w), Ok(()));
    assert!(app.unhealthy_wait_timed_out());
    assert_eq!(w.running, names(&["c2"]));
    assert_eq!(w.log.iter().filter(|l| l.as_str() == "status c1").count(), 3);
}

#[test]
fn unhealthy_wait_needs_a_pre_stop_command() {
    let mut w = world(&["c1"], true);
    w.healthy_from = Some(0);
    let mut a = args("web");
    a.pre_stop_wait_until_unhealthy = true;
    let mut app = App::new(a, ComposeFlavor::Plugin, Vec::new());
    assert_eq!(drive(&mut app, &mut w), Ok(()));
    assert_eq!(w.log.iter().filter(|l| l.as_str() == "status c1").count(), 0);
}

#[test]
fn fewer_new_instances_lower_the_target() {
    // Scaling brought one new instance where two were asked for: the wait
    // is for that one.
    let mut app = App::new(args("web"), ComposeFlavor::Plugin, Vec::new());
    app.advance(&Report { ran: true, success: true, stdout: "a\nb\n".to_string(), now: 0 });
    assert!(matches!(app.action(), Action::Ask(Request::ScaleUp(4))));
    app.advance(&Report { ran: true, success: true, stdout: String::new(), now: 0 });
    app.advance(&Report { ran: true, success: true, stdout: "b\nn\na\n".to_string(), now: 0 });
    assert_eq!(app.new_ids(), names(&["n"]));
    app.advance(&Report { ran: true, success: true, stdout: "{\"Status\":\"x\"}".to_string(), now: 5 });
    match app.action() {
        Action::Ask(Request::InspectStatus(id)) => assert_eq!(id, "n"),
        other => panic!("unexpected {:?}", other),
    }
    app.advance(&Report { ran: true, success: true, stdout: "healthy".to_string(), now: 6 });
    assert_eq!(app.phase(), Phase::RetireStop);
}

#[test]
fn no_new_instances_are_ready_at_once() {
    let mut app = App::new(args("web"), ComposeFlavor::Plugin, Vec::new());
    app.advance(&Report { ran: true, success: true, stdout: "a\n".to_string(), now: 0 });
    app.advance(&Report { ran: true, success: true, stdout: String::new(), now: 0 });
    app.advance(&Report { ran: true, success: true, stdout: "a\n".to_string(), now: 0 });
    assert_eq!(app.new_ids(), Vec::<String>::new());
    app.advance(&Report { ran: true, success: true, stdout: "{\"Status\":\"x\"}".to_string(), now: 0 });
    assert_eq!(app.phase(), Phase::RetireStop);
}

#[test]
fn failure_messages() {
    assert_eq!(Failure::ListInstances(Cause::Launch).message(), "failed to get container ids");
    assert_eq!(
        Failure::ListInstances(Cause::ExitStatus).message(),
        "failed to get container ids (non-zero exit code)"
    );
    assert_eq!(Failure::StartService.message(), "failed to start service");
    assert_eq!(Failure::Scale(Cause::Launch).message(), "failed to scale instances");
    assert_eq!(
        Failure::Scale(Cause::ExitStatus).message(),
        "failed to scale instances (non-zero exit code)"
    );
    assert_eq!(Failure::Stop(Cause::Launch).message(), "failed to stop instances");
    assert_eq!(
        Failure::Stop(Cause::ExitStatus).message(),
        "failed to stop instances (non-zero exit code)"
    );
    assert_eq!(Failure::Remove(Cause::Launch).message(), "failed to remove instances");
    assert_eq!(
        Failure::Remove(Cause::ExitStatus).message(),
        "failed to remove instances (non-zero exit code)"
    );
    assert_eq!(Failure::NotHealthy.message(), "new containers weren't healthy after timeout");
}

fn ok(stdout: &str) -> Report {
    Report { ran: true, success: true, stdout: stdout.to_string(), now: 0 }
}

fn not_run() -> Report {
    Report { ran: false, success: false, stdout: String::new(), now: 0 }
}

/// A restart of one instance without a health check, up to the point where
/// the old instance is to be stopped.
fn ready_to_retire() -> App {
    let mut app = App::new(args("web"), ComposeFlavor::Plugin, Vec::new());
    app.advance(&ok("c1\n"));
    app.advance(&ok(""));
    app.advance(&ok("c1\nc2\n"));
    app.advance(&ok("null\n"));
    app.advance(&ok(""));
    assert_eq!(app.phase(), Phase::RetireStop);
    app
}

#[test]
fn commands_that_cannot_be_run_are_fatal() {
    let mut app = ready_to_retire();
    app.advance(&not_run());
    assert_eq!(app.phase(), Phase::Failed(Failure::Stop(Cause::Launch)));

    let mut app = ready_to_retire();
    app.advance(&ok(""));
    assert_eq!(app.phase(), Phase::RetireRemove);
    app.advance(&not_run());
    assert_eq!(app.phase(), Phase::Failed(Failure::Remove(Cause::Launch)));
    assert!(matches!(app.action(), Action::Finish(Err(Failure::Remove(Cause::Launch)))));
}

#[test]
fn the_plan_is_set_once() {
    let mut app = App::new(args("web"), ComposeFlavor::Plugin, Vec::new());
    app.advance(&ok("c1\nc2\n"));
    assert_eq!(app.old_ids(), names(&["c1", "c2"]));
    app.advance(&ok("x\ny\n"));
    assert_eq!(app.old_ids(), names(&["c1", "c2"]));
    // The second listing sets the new instances and leaves the old ones.
    app.advance(&ok("c2\nc3\nc1\nc4\n"));
    assert_eq!(app.old_ids(), names(&["c1", "c2"]));
    assert_eq!(app.new_ids(), names(&["c3", "c4"]));
    for report in [ok("null"), ok("z\n"), ok("z\n"), ok("z\n"), ok("z\n")] {
        app.advance(&report);
        assert_eq!(app.old_ids(), names(&["c1", "c2"]));
        assert_eq!(app.new_ids(), names(&["c3", "c4"]));
    }
    assert_eq!(app.phase(), Phase::Done);
}

#[test]
fn step_is_advance_then_action() {
    let mut one = App::new(args("web"), ComposeFlavor::Plugin, Vec::new());
    let mut two = App::new(args("web"), ComposeFlavor::Plugin, Vec::new());
    for report in [ok("c1\n"), ok(""), ok("c1\nc2\n"), ok("null"), ok(""), ok(""), ok("")] {
        let stepped = one.step(&report);
        two.advance(&report);
        assert_eq!(format!("{:?}", stepped), format!("{:?}", two.action()));
        assert_eq!(one.phase(), two.phase());
    }
    assert!(one.is_finished());
}
