use docker_reroll::detect::{
    begin_detection, detect_compose_command, render_probe, DetectError, Detection,
};
use docker_reroll::gateway::{ComposeFlavor, Report, Stream};
use docker_reroll::invocation::{is_metadata_request, split_invocation};

fn names(ids: &[&str]) -> Vec<String> {
    ids.iter().map(|s| s.to_string()).collect()
}

fn report(ran: bool, success: bool) -> Report {
    Report { ran, success, stdout: String::new(), now: 0 }
}

#[test]
fn metadata_request() {
    assert!(is_metadata_request(&names(&["docker-reroll", "docker-cli-plugin-metadata"])));
    assert!(is_metadata_request(&names(&["x", "docker-cli-plugin-metadata", "y"])));
    assert!(!is_metadata_request(&names(&["docker-cli-plugin-metadata"])));
    assert!(!is_metadata_request(&names(&["x", "y", "docker-cli-plugin-metadata"])));
    assert!(!is_metadata_request(&Vec::new()));
}

#[test]
fn called_on_its_own() {
    let call = split_invocation(&names(&["docker-reroll", "-f", "a.yml", "web"]));
    assert_eq!(call.docker_args, Vec::<String>::new());
    assert_eq!(call.own_args, names(&["docker-reroll", "-f", "a.yml", "web"]));
    let call = split_invocation(&Vec::new());
    assert_eq!(call.docker_args, Vec::<String>::new());
    assert_eq!(call.own_args, Vec::<String>::new());
}

#[test]
fn called_as_a_plugin() {
    let call = split_invocation(&names(&["/p/docker-reroll", "reroll", "web"]));
    assert_eq!(call.docker_args, Vec::<String>::new());
    assert_eq!(call.own_args, names(&["/p/docker-reroll", "web"]));

    let call = split_invocation(&names(&[
        "/p/docker-reroll",
        "--context",
        "prod",
        "reroll",
        "--wait",
        "5",
        "web",
    ]));
    assert_eq!(call.docker_args, names(&["--context", "prod"]));
    assert_eq!(call.own_args, names(&["/p/docker-reroll", "--wait", "5", "web"]));
}

#[test]
fn every_marker_is_dropped() {
    let call = split_invocation(&names(&["p", "a", "reroll", "b", "reroll", "c"]));
    assert_eq!(call.docker_args, names(&["a"]));
    assert_eq!(call.own_args, names(&["p", "b", "c"]));
    let call = split_invocation(&names(&["p", "reroll"]));
    assert_eq!(call.docker_args, Vec::<String>::new());
    assert_eq!(call.own_args, names(&["p"]));
}

#[test]
fn marker_as_the_program_name() {
    let call = split_invocation(&names(&["reroll", "a", "b"]));
    assert_eq!(call.docker_args, names(&["a", "b"]));
    assert_eq!(call.own_args, names(&["reroll"]));
    let call = split_invocation(&names(&["reroll", "a", "reroll", "b"]));
    assert_eq!(call.docker_args, names(&["a"]));
    assert_eq!(call.own_args, names(&["reroll", "b"]));
}

#[test]
fn detection_tries_the_plugin_first() {
    assert_eq!(begin_detection(), Detection::Try(ComposeFlavor::Plugin));
    let c = render_probe(ComposeFlavor::Plugin);
    assert_eq!(c.argv, names(&["docker", "compose"]));
    assert_eq!(c.stdout, Stream::Discard);
    assert_eq!(c.stderr, Stream::Discard);
    let c = render_probe(ComposeFlavor::Standalone);
    assert_eq!(c.argv, names(&["docker-compose"]));
    assert_eq!(c.stdout, Stream::Discard);
    assert_eq!(c.stderr, Stream::Discard);
}

#[test]
fn detection_outcomes() {
    let plugin = ComposeFlavor::Plugin;
    let standalone = ComposeFlavor::Standalone;
    assert_eq!(detect_compose_command(plugin, &report(true, true)), Detection::Found(plugin));
    assert_eq!(detect_compose_command(plugin, &report(true, false)), Detection::Try(standalone));
    assert_eq!(
        detect_compose_command(plugin, &report(false, false)),
        Detection::Failed(DetectError::Launch(plugin))
    );
    assert_eq!(
        detect_compose_command(standalone, &report(true, true)),
        Detection::Found(standalone)
    );
    assert_eq!(
        detect_compose_command(standalone, &report(true, false)),
        Detection::Failed(DetectError::NotFound)
    );
    assert_eq!(
        detect_compose_command(standalone, &report(false, true)),
        Detection::Failed(DetectError::Launch(standalone))
    );
}

#[test]
fn detection_messages() {
    assert_eq!(DetectError::NotFound.message(), "docker compose command not found");
    assert_eq!(DetectError::Launch(ComposeFlavor::Plugin).message(), "failed to run docker compose");
    assert_eq!(
        DetectError::Launch(ComposeFlavor::Standalone).message(),
        "failed to run docker-compose"
    );
}
