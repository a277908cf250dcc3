//! The container runtime as the restart sees it: the requests it can be asked
//! to carry out, the command line that each request stands for, and the report
//! that comes back.
//!
//! Nothing here runs a command. A request is rendered to a `Command`, a plain
//! description that the caller executes, and the caller writes what happened
//! into a `Report`.

use crate::text::{
    decimal, lines, push_decimal, split_lines, to_chars, to_text, trim_chars, trimmed,
};
use vstd::prelude::*;
use vstd::string::*;

verus! {

/// What becomes of an output stream of a command.
#[derive(Clone, Copy, Debug, PartialEq, Eq, Structural)]
pub enum Stream {
    /// It goes where the caller's own stream goes.
    Inherit,
    /// It is thrown away.
    Discard,
    /// It is collected and handed back in the report.
    Capture,
}

/// A command line to execute, with what to do with its output.
#[derive(Debug)]
pub struct Command {
    /// The program, then its arguments.
    pub argv: Vec<String>,
    pub stdout: Stream,
    pub stderr: Stream,
}

/// A `Command` as plain values.
pub struct CommandView {
    pub argv: Seq<Seq<char>>,
    pub stdout: Stream,
    pub stderr: Stream,
}

impl View for Command {
    type V = CommandView;

    open spec fn view(&self) -> CommandView {
        CommandView { argv: self.argv.deep_view(), stdout: self.stdout, stderr: self.stderr }
    }
}

/// The two forms in which the compose tool is installed.
#[derive(Clone, Copy, Debug, PartialEq, Eq, Structural)]
pub enum ComposeFlavor {
    /// A plugin of the docker command line: `docker compose`.
    Plugin,
    /// A program of its own: `docker-compose`.
    Standalone,
}

/// The settings of one restart.
#[derive(Debug)]
pub struct AppArgs {
    /// Compose configuration file.
    pub file: Option<String>,
    /// Alternate environment file.
    pub env_file: Option<String>,
    /// Command to run before an old instance is stopped; `{id}` in it stands
    /// for the instance's id.
    pub pre_stop_cmd: Option<String>,
    /// After the pre-stop commands, wait until no old instance is healthy.
    pub pre_stop_wait_until_unhealthy: bool,
    /// How long to wait for health, in seconds.
    pub healthcheck_timeout: u64,
    /// How long to wait, in seconds, where the service has no health check.
    pub wait: u64,
    /// How long to wait, in seconds, after the new instances became healthy.
    pub wait_after_healthy: u64,
    /// The service to restart.
    pub service: String,
}

/// `AppArgs` as plain values.
pub struct ArgsView {
    pub file: Option<Seq<char>>,
    pub env_file: Option<Seq<char>>,
    pub pre_stop_cmd: Option<Seq<char>>,
    pub pre_stop_wait_until_unhealthy: bool,
    pub healthcheck_timeout: u64,
    pub wait: u64,
    pub wait_after_healthy: u64,
    pub service: Seq<char>,
}

impl View for AppArgs {
    type V = ArgsView;

    open spec fn view(&self) -> ArgsView {
        ArgsView {
            file: self.file.deep_view(),
            env_file: self.env_file.deep_view(),
            pre_stop_cmd: self.pre_stop_cmd.deep_view(),
            pre_stop_wait_until_unhealthy: self.pre_stop_wait_until_unhealthy,
            healthcheck_timeout: self.healthcheck_timeout,
            wait: self.wait,
            wait_after_healthy: self.wait_after_healthy,
            service: self.service@,
        }
    }
}

/// What the runtime can be asked to do.
#[derive(Debug)]
pub enum Request {
    /// List the ids of the service's running instances.
    ListInstances,
    /// Start the service, creating it if it is missing and recreating nothing.
    StartIfAbsent,
    /// Bring the service to this many instances, recreating none.
    ScaleUp(u128),
    /// Print the health state of an instance.
    InspectHealth(String),
    /// Print the health status of an instance.
    InspectStatus(String),
    /// Stop these instances.
    Stop(Vec<String>),
    /// Remove these instances.
    Remove(Vec<String>),
    /// Run this text as a shell command.
    RunShell(String),
    /// Let this many seconds pass.
    Sleep(u64),
}

/// A `Request` as plain values.
pub enum RequestView {
    ListInstances,
    StartIfAbsent,
    ScaleUp(nat),
    InspectHealth(Seq<char>),
    InspectStatus(Seq<char>),
    Stop(Seq<Seq<char>>),
    Remove(Seq<Seq<char>>),
    RunShell(Seq<char>),
    Sleep(u64),
}

impl View for Request {
    type V = RequestView;

    open spec fn view(&self) -> RequestView {
        match self {
            Request::ListInstances => RequestView::ListInstances,
            Request::StartIfAbsent => RequestView::StartIfAbsent,
            Request::ScaleUp(n) => RequestView::ScaleUp(*n as nat),
            Request::InspectHealth(id) => RequestView::InspectHealth(id@),
            Request::InspectStatus(id) => RequestView::InspectStatus(id@),
            Request::Stop(ids) => RequestView::Stop(ids.deep_view()),
            Request::Remove(ids) => RequestView::Remove(ids.deep_view()),
            Request::RunShell(text) => RequestView::RunShell(text@),
            Request::Sleep(seconds) => RequestView::Sleep(*seconds),
        }
    }
}

/// What came of a request. A pause that has passed is reported as a command
/// that ran and succeeded.
#[derive(Debug)]
pub struct Report {
    /// The request could be carried out: its command was started and ended.
    pub ran: bool,
    /// The command ended with exit status zero.
    pub success: bool,
    /// What the command wrote to its standard output, where that was
    /// captured; empty otherwise.
    pub stdout: String,
    /// A monotonic clock, in nanoseconds, read when the request was done.
    pub now: u64,
}

/// A `Report` as plain values.
pub struct ReportView {
    pub ran: bool,
    pub success: bool,
    pub stdout: Seq<char>,
    pub now: u64,
}

impl View for Report {
    type V = ReportView;

    open spec fn view(&self) -> ReportView {
        ReportView { ran: self.ran, success: self.success, stdout: self.stdout@, now: self.now }
    }
}

/// Appends the text `word` to `argv`.
pub fn push_word(argv: &mut Vec<String>, word: &str)
    ensures
        final(argv).deep_view() == old(argv).deep_view().push(word@),
{
    argv.push(String::from_str(word));
    assert(argv.deep_view() =~= old(argv).deep_view().push(word@));
}

/// Appends copies of `words` to `argv`.
pub fn push_words(argv: &mut Vec<String>, words: &Vec<String>)
    ensures
        final(argv).deep_view() == old(argv).deep_view() + words.deep_view(),
{
    let mut k: usize = 0;
    assert(argv.deep_view() =~= old(argv).deep_view() + words.deep_view().take(0));
    while k < words.len()
        invariant
            k <= words.len(),
            argv.deep_view() == old(argv).deep_view() + words.deep_view().take(k as int),
        decreases words.len() - k,
    {
        let ghost before = argv.deep_view();
        argv.push(words[k].clone());
        assert(argv.deep_view() =~= before.push(words@[k as int]@));
        k += 1;
        assert(argv.deep_view() =~= old(argv).deep_view() + words.deep_view().take(k as int));
    }
    assert(words.deep_view().take(words.len() as int) =~= words.deep_view());
}

/// A copy of `words`.
pub fn copy_words(words: &Vec<String>) -> (out: Vec<String>)
    ensures
        out.deep_view() == words.deep_view(),
{
    let mut out: Vec<String> = Vec::new();
    assert(out.deep_view() =~= Seq::<Seq<char>>::empty());
    push_words(&mut out, words);
    assert(Seq::<Seq<char>>::empty() + words.deep_view() =~= words.deep_view());
    out
}

/// The compose tool's command line up to the subcommand: the program, then
/// the configuration file and the environment file where they are set.
pub open spec fn compose_argv(compose: ComposeFlavor, args: ArgsView) -> Seq<Seq<char>> {
    let program = match compose {
        ComposeFlavor::Plugin => seq!["docker"@, "compose"@],
        ComposeFlavor::Standalone => seq!["docker-compose"@],
    };
    let file = match args.file {
        Some(path) => seq!["-f"@, path],
        None => Seq::empty(),
    };
    let env_file = match args.env_file {
        Some(path) => seq!["--env-file"@, path],
        None => Seq::empty(),
    };
    program + file + env_file
}

/// The docker command line up to the subcommand: the program, then the
/// arguments that the caller was itself given for docker.
pub open spec fn docker_argv(docker_args: Seq<Seq<char>>) -> Seq<Seq<char>> {
    seq!["docker"@] + docker_args
}

/// The argument that asks for `count` instances of `service`: the service's
/// name, an equals sign, and the count in decimal.
pub open spec fn scale_word(service: Seq<char>, count: nat) -> Seq<char> {
    service + seq!['='] + decimal(count)
}

/// The command that lists the ids of the service's running instances, one on
/// a line.
pub open spec fn list_command(compose: ComposeFlavor, args: ArgsView) -> CommandView {
    CommandView {
        argv: compose_argv(compose, args) + seq!["ps"@, "--quiet"@, args.service],
        stdout: Stream::Capture,
        stderr: Stream::Discard,
    }
}

/// The command that starts the service and recreates nothing.
pub open spec fn start_command(compose: ComposeFlavor, args: ArgsView) -> CommandView {
    CommandView {
        argv: compose_argv(compose, args) + seq![
            "up"@,
            "--detach"@,
            "--no-recreate"@,
            args.service,
        ],
        stdout: Stream::Inherit,
        stderr: Stream::Inherit,
    }
}

/// The command that brings the service to `count` instances and recreates
/// none.
pub open spec fn scale_command(compose: ComposeFlavor, args: ArgsView, count: nat) -> CommandView {
    CommandView {
        argv: compose_argv(compose, args) + seq![
            "up"@,
            "--detach"@,
            "--scale"@,
            scale_word(args.service, count),
            "--no-recreate"@,
            args.service,
        ],
        stdout: Stream::Inherit,
        stderr: Stream::Inherit,
    }
}

/// The command that prints, as JSON, what `path` holds in the state of the
/// instance `id`.
pub open spec fn inspect_command(
    docker_args: Seq<Seq<char>>,
    path: Seq<char>,
    id: Seq<char>,
) -> CommandView {
    CommandView {
        argv: docker_argv(docker_args) + seq!["inspect"@, "--format"@, path, id],
        stdout: Stream::Capture,
        stderr: Stream::Inherit,
    }
}

/// The command that applies the docker subcommand `verb` to the instances
/// `ids`.
pub open spec fn fleet_command(
    docker_args: Seq<Seq<char>>,
    verb: Seq<char>,
    ids: Seq<Seq<char>>,
) -> CommandView {
    CommandView {
        argv: docker_argv(docker_args) + seq![verb] + ids,
        stdout: Stream::Discard,
        stderr: Stream::Inherit,
    }
}

/// The command line that a request stands for. Running a shell command and
/// sleeping are no command lines of the runtime.
pub open spec fn command_of(
    compose: ComposeFlavor,
    args: ArgsView,
    docker_args: Seq<Seq<char>>,
    request: RequestView,
) -> Option<CommandView> {
    match request {
        RequestView::ListInstances => Some(list_command(compose, args)),
        RequestView::StartIfAbsent => Some(start_command(compose, args)),
        RequestView::ScaleUp(count) => Some(scale_command(compose, args, count)),
        RequestView::InspectHealth(id) => Some(
            inspect_command(docker_args, "{{json .State.Health}}"@, id),
        ),
        RequestView::InspectStatus(id) => Some(
            inspect_command(docker_args, "{{json .State.Health.Status}}"@, id),
        ),
        RequestView::Stop(ids) => Some(fleet_command(docker_args, "stop"@, ids)),
        RequestView::Remove(ids) => Some(fleet_command(docker_args, "rm"@, ids)),
        RequestView::RunShell(_) => None,
        RequestView::Sleep(_) => None,
    }
}

/// The compose tool's command line up to the subcommand.
pub fn compose_command(compose: ComposeFlavor, args: &AppArgs) -> (argv: Vec<String>)
    ensures
        argv.deep_view() == compose_argv(compose, args@),
{
    let mut argv: Vec<String> = Vec::new();
    assert(argv.deep_view() =~= Seq::<Seq<char>>::empty());
    match compose {
        ComposeFlavor::Plugin => {
            push_word(&mut argv, "docker");
            push_word(&mut argv, "compose");
        },
        ComposeFlavor::Standalone => {
            push_word(&mut argv, "docker-compose");
        },
    }
    match &args.file {
        Some(path) => {
            push_word(&mut argv, "-f");
            push_word(&mut argv, path.as_str());
        },
        None => {},
    }
    match &args.env_file {
        Some(path) => {
            push_word(&mut argv, "--env-file");
            push_word(&mut argv, path.as_str());
        },
        None => {},
    }
    assert(argv.deep_view() =~= compose_argv(compose, args@));
    argv
}

/// The docker command line up to the subcommand.
pub fn docker_command(docker_args: &Vec<String>) -> (argv: Vec<String>)
    ensures
        argv.deep_view() == docker_argv(docker_args.deep_view()),
{
    let mut argv: Vec<String> = Vec::new();
    assert(argv.deep_view() =~= Seq::<Seq<char>>::empty());
    push_word(&mut argv, "docker");
    push_words(&mut argv, docker_args);
    assert(argv.deep_view() =~= docker_argv(docker_args.deep_view()));
    argv
}

/// The argument that asks for `count` instances of `service`.
pub fn render_scale_word(service: &str, count: u128) -> (word: String)
    ensures
        word@ == scale_word(service@, count as nat),
{
    let mut chars = to_chars(service);
    chars.push('=');
    push_decimal(&mut chars, count);
    let word = to_text(&chars, 0, chars.len());
    assert(word@ =~= scale_word(service@, count as nat));
    word
}

/// The command that lists the ids of the service's running instances.
pub fn render_list(compose: ComposeFlavor, args: &AppArgs) -> (command: Command)
    ensures
        command@ == list_command(compose, args@),
{
    let mut argv = compose_command(compose, args);
    push_word(&mut argv, "ps");
    push_word(&mut argv, "--quiet");
    push_word(&mut argv, args.service.as_str());
    assert(argv.deep_view() =~= list_command(compose, args@).argv);
    Command { argv, stdout: Stream::Capture, stderr: Stream::Discard }
}

/// The command that starts the service and recreates nothing.
pub fn render_start(compose: ComposeFlavor, args: &AppArgs) -> (command: Command)
    ensures
        command@ == start_command(compose, args@),
{
    let mut argv = compose_command(compose, args);
    push_word(&mut argv, "up");
    push_word(&mut argv, "--detach");
    push_word(&mut argv, "--no-recreate");
    push_word(&mut argv, args.service.as_str());
    assert(argv.deep_view() =~= start_command(compose, args@).argv);
    Command { argv, stdout: Stream::Inherit, stderr: Stream::Inherit }
}

/// The command that brings the service to `count` instances.
pub fn render_scale(compose: ComposeFlavor, args: &AppArgs, count: u128) -> (command: Command)
    ensures
        command@ == scale_command(compose, args@, count as nat),
{
    let mut argv = compose_command(compose, args);
    let word = render_scale_word(args.service.as_str(), count);
    push_word(&mut argv, "up");
    push_word(&mut argv, "--detach");
    push_word(&mut argv, "--scale");
    push_word(&mut argv, word.as_str());
    push_word(&mut argv, "--no-recreate");
    push_word(&mut argv, args.service.as_str());
    assert(argv.deep_view() =~= scale_command(compose, args@, count as nat).argv);
    Command { argv, stdout: Stream::Inherit, stderr: Stream::Inherit }
}

/// The command that prints what `path` holds in the state of the instance
/// `id`.
pub fn render_inspect(docker_args: &Vec<String>, path: &str, id: &str) -> (command: Command)
    ensures
        command@ == inspect_command(docker_args.deep_view(), path@, id@),
{
    let mut argv = docker_command(docker_args);
    push_word(&mut argv, "inspect");
    push_word(&mut argv, "--format");
    push_word(&mut argv, path);
    push_word(&mut argv, id);
    assert(argv.deep_view() =~= inspect_command(docker_args.deep_view(), path@, id@).argv);
    Command { argv, stdout: Stream::Capture, stderr: Stream::Inherit }
}

/// The command that applies the docker subcommand `verb` to the instances
/// `ids`.
pub fn render_fleet(docker_args: &Vec<String>, verb: &str, ids: &Vec<String>) -> (command:
    Command)
    ensures
        command@ == fleet_command(docker_args.deep_view(), verb@, ids.deep_view()),
{
    let mut argv = docker_command(docker_args);
    push_word(&mut argv, verb);
    push_words(&mut argv, ids);
    assert(argv.deep_view() =~= fleet_command(
        docker_args.deep_view(),
        verb@,
        ids.deep_view(),
    ).argv);
    Command { argv, stdout: Stream::Discard, stderr: Stream::Inherit }
}

/// A `Command` inside an option, as plain values.
pub open spec fn command_option_view(command: Option<Command>) -> Option<CommandView> {
    match command {
        Some(c) => Some(c@),
        None => None,
    }
}

/// The command line that `request` stands for, if it stands for one.
pub fn render(
    compose: ComposeFlavor,
    args: &AppArgs,
    docker_args: &Vec<String>,
    request: &Request,
) -> (command: Option<Command>)
    ensures
        command_option_view(command) == command_of(
            compose,
            args@,
            docker_args.deep_view(),
            request@,
        ),
{
    match request {
        Request::ListInstances => Some(render_list(compose, args)),
        Request::StartIfAbsent => Some(render_start(compose, args)),
        Request::ScaleUp(count) => Some(render_scale(compose, args, *count)),
        Request::InspectHealth(id) => Some(
            render_inspect(docker_args, "{{json .State.Health}}", id.as_str()),
        ),
        Request::InspectStatus(id) => Some(
            render_inspect(docker_args, "{{json .State.Health.Status}}", id.as_str()),
        ),
        Request::Stop(ids) => Some(render_fleet(docker_args, "stop", ids)),
        Request::Remove(ids) => Some(render_fleet(docker_args, "rm", ids)),
        Request::RunShell(_) => None,
        Request::Sleep(_) => None,
    }
}

/// The instance ids that a listing holds: the lines of its text, once the
/// white space around the text is taken off.
pub open spec fn instance_ids(stdout: Seq<char>) -> Seq<Seq<char>> {
    lines(trimmed(stdout))
}

/// The instance ids that the listing `stdout` holds.
pub fn parse_instance_ids(stdout: &str) -> (ids: Vec<String>)
    ensures
        ids.deep_view() == instance_ids(stdout@),
{
    let chars = to_chars(stdout);
    let inner = trim_chars(&chars);
    split_lines(&inner)
}

} // verus!
