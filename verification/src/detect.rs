//! Finding the compose tool: the plugin of the docker command line is tried
//! first, then the program of its own. A form is usable if calling it with
//! no arguments ends in success.

use crate::gateway::{push_word, Command, CommandView, ComposeFlavor, Report, ReportView, Stream};
use vstd::prelude::*;
use vstd::string::*;

verus! {

/// Why no compose tool was found.
#[derive(Clone, Copy, Debug, PartialEq, Eq, Structural)]
pub enum DetectError {
    /// This form could not even be called.
    Launch(ComposeFlavor),
    /// Neither form ended in success.
    NotFound,
}

/// What to do next in the search for the compose tool.
#[derive(Clone, Copy, Debug, PartialEq, Eq, Structural)]
pub enum Detection {
    /// Call this form next.
    Try(ComposeFlavor),
    /// This form is usable.
    Found(ComposeFlavor),
    /// The search has failed.
    Failed(DetectError),
}

/// The command line that tries the form `flavor`: the tool without
/// arguments, all output thrown away.
pub open spec fn probe_command(flavor: ComposeFlavor) -> CommandView {
    CommandView {
        argv: match flavor {
            ComposeFlavor::Plugin => seq!["docker"@, "compose"@],
            ComposeFlavor::Standalone => seq!["docker-compose"@],
        },
        stdout: Stream::Discard,
        stderr: Stream::Discard,
    }
}

/// The form that is tried first.
pub open spec fn first_candidate() -> ComposeFlavor {
    ComposeFlavor::Plugin
}

/// What follows from the report of trying `tried`. A form that could not be
/// called ends the search in failure; a form that ended in success is used;
/// after the plugin the program of its own is tried, and after that nothing.
pub open spec fn detected(tried: ComposeFlavor, report: ReportView) -> Detection {
    if !report.ran {
        Detection::Failed(DetectError::Launch(tried))
    } else if report.success {
        Detection::Found(tried)
    } else {
        match tried {
            ComposeFlavor::Plugin => Detection::Try(ComposeFlavor::Standalone),
            ComposeFlavor::Standalone => Detection::Failed(DetectError::NotFound),
        }
    }
}

/// The search for the compose tool at its start.
pub fn begin_detection() -> (next: Detection)
    ensures
        next == Detection::Try(first_candidate()),
{
    Detection::Try(ComposeFlavor::Plugin)
}

/// The command line that tries the form `flavor`.
pub fn render_probe(flavor: ComposeFlavor) -> (command: Command)
    ensures
        command@ == probe_command(flavor),
{
    let mut argv: Vec<String> = Vec::new();
    assert(argv.deep_view() =~= Seq::<Seq<char>>::empty());
    match flavor {
        ComposeFlavor::Plugin => {
            push_word(&mut argv, "docker");
            push_word(&mut argv, "compose");
        },
        ComposeFlavor::Standalone => {
            push_word(&mut argv, "docker-compose");
        },
    }
    assert(argv.deep_view() =~= probe_command(flavor).argv);
    Command { argv, stdout: Stream::Discard, stderr: Stream::Discard }
}

/// What follows from the report of trying `tried`.
pub fn detect_compose_command(tried: ComposeFlavor, report: &Report) -> (next: Detection)
    ensures
        next == detected(tried, report@),
{
    if !report.ran {
        Detection::Failed(DetectError::Launch(tried))
    } else if report.success {
        Detection::Found(tried)
    } else {
        match tried {
            ComposeFlavor::Plugin => Detection::Try(ComposeFlavor::Standalone),
            ComposeFlavor::Standalone => Detection::Failed(DetectError::NotFound),
        }
    }
}

/// The words that tell a user of the failure.
pub open spec fn detect_message_of(error: DetectError) -> Seq<char> {
    match error {
        DetectError::Launch(ComposeFlavor::Plugin) => "failed to run docker compose"@,
        DetectError::Launch(ComposeFlavor::Standalone) => "failed to run docker-compose"@,
        DetectError::NotFound => "docker compose command not found"@,
    }
}

impl DetectError {
    /// The words that tell a user of the failure.
    pub fn message(&self) -> (text: String)
        ensures
            text@ == detect_message_of(*self),
    {
        match self {
            DetectError::Launch(ComposeFlavor::Plugin) => String::from_str(
                "failed to run docker compose",
            ),
            DetectError::Launch(ComposeFlavor::Standalone) => String::from_str(
                "failed to run docker-compose",
            ),
            DetectError::NotFound => String::from_str("docker compose command not found"),
        }
    }
}

} // verus!
