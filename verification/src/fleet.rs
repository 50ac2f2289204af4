//! The steps that every procedure over the hosts of a phase takes: finding
//! the hosts, asking each for its home directory, going on to the next.

use crate::flow::{
    failed, failed_for_phase, finished, has_succeeded, running, succeeded, unexpected, Action,
    ActionView, Event, EventView, Failure, Progress, ProgressView, Stage, Step, StepView,
};
use crate::layout::{home_of, release_dir, get_ssh_home, Release, ReleaseView};
use crate::names::Phase;
use crate::phase_file::{
    find_ssh_user_hosts, phase_file_path, phase_file_path_spec, resolve, PhaseError,
    PhaseErrorView,
};
use crate::remote::{create_ssh_command, home_text, ssh_argv};
use crate::ssh_user_host::{displayed, HostSpec, SshUserHost};
use crate::text::{debug_quoted, quote};
use vstd::prelude::*;
use vstd::string::*;

verus! {

/// What a procedure is asked to work on: a release, the phase whose hosts
/// hold it, and the home directory of the user who asks, under which the
/// phase files lie.
#[derive(Debug, Clone)]
pub struct Target {
    pub release: Release,
    pub phase: Phase,
    pub home: String,
}

/// What a [`Target`] stands for.
pub ghost struct TargetView {
    pub release: ReleaseView,
    pub phase: Seq<char>,
    pub home: Seq<char>,
}

impl View for Target {
    type V = TargetView;

    open spec fn view(&self) -> TargetView {
        TargetView { release: self.release@, phase: self.phase@, home: self.home@ }
    }
}

/// The text of an optional string.
pub open spec fn optional_text(s: Option<String>) -> Option<Seq<char>> {
    match s {
        Some(s) => Some(s@),
        None => None,
    }
}

/// The first step: the phase file is to be read.
pub open spec fn reading_phase(target: TargetView, state: ProgressView) -> StepView {
    StepView {
        state: state.at(Stage::ReadingPhase),
        warning: None,
        action: ActionView::ReadFile { path: phase_file_path_spec(target.home, target.phase) },
    }
}

/// What the phase file says: the hosts to work on, the first of them first;
/// or the end of the procedure, which is a failure where the file is
/// missing, in error or without the project, and a success with the warning
/// `idle` where the project has no hosts.
pub open spec fn phase_read(
    target: TargetView,
    state: ProgressView,
    event: EventView,
    idle: Seq<char>,
) -> Result<ProgressView, StepView> {
    match event {
        EventView::File { content: Some(content) } => match resolve(
            content,
            target.release.project_id,
        ) {
            Ok(hosts) => if hosts.len() == 0 {
                Err(finished(state, Some(idle)))
            } else {
                Ok(ProgressView { hosts, index: 0, ..state })
            },
            Err(e) => Err(failed_for_phase(state, e)),
        },
        EventView::File { content: None } => Err(
            failed_for_phase(state, PhaseErrorView::PhaseNotFound),
        ),
        _ => Err(unexpected(state)),
    }
}

/// The host under work is asked for its home directory.
pub open spec fn asking_home(state: ProgressView, warning: Option<Seq<char>>) -> StepView {
    running(
        state.at(Stage::AskingHome),
        warning,
        ssh_argv(state.hosts[state.index as int], home_text()),
        true,
    )
}

/// What the host has answered: its home directory, or the end of the
/// procedure where it gave none.
pub open spec fn home_read(state: ProgressView, event: EventView) -> Result<
    ProgressView,
    StepView,
> {
    match event {
        EventView::Exited { code, output } => if succeeded(code) {
            Ok(ProgressView { home: home_of(output), ..state })
        } else {
            Err(failed(state, Failure::CannotGetHome, displayed(state.hosts[state.index as int])))
        },
        _ => Err(unexpected(state)),
    }
}

/// The work on one host is done: the next host is asked for its home
/// directory, or the procedure ends well behind the last.
pub open spec fn next_host(state: ProgressView, warning: Option<Seq<char>>) -> StepView {
    if state.index + 1 < state.hosts.len() {
        asking_home(ProgressView { index: state.index + 1, ..state }, warning)
    } else {
        finished(state, warning)
    }
}

/// The directory of the release on the host under work, as the shell of the
/// host is to read it.
pub open spec fn quoted_release_dir(target: TargetView, state: ProgressView) -> Seq<char> {
    debug_quoted(release_dir(state.home, target.release))
}

/// Asks for the phase file.
pub fn read_phase(target: &Target, state: Progress) -> (r: Step)
    ensures
        r@ == reading_phase(target@, state@),
{
    let path = phase_file_path(target.home.as_str(), &target.phase);
    Step { state: state.at(Stage::ReadingPhase), warning: None, action: Action::ReadFile { path } }
}

/// Reads the hosts of the project out of the phase file that was handed in.
pub fn hosts_from(target: &Target, state: Progress, event: &Event, idle: &str) -> (r: Result<
    Progress,
    Step,
>)
    ensures
        match r {
            Ok(next) => phase_read(target@, state@, event@, idle@) == Ok::<ProgressView, StepView>(
                next@,
            ),
            Err(step) => phase_read(target@, state@, event@, idle@) == Err::<
                ProgressView,
                StepView,
            >(step@),
        },
        r matches Ok(next) ==> next.index < next.hosts.len(),
{
    match event {
        Event::File { content: Some(content) } => {
            match find_ssh_user_hosts(content.as_str(), target.release.project_id) {
                Ok(hosts) => {
                    if hosts.len() == 0 {
                        Err(state.finish(Some(String::from_str(idle))))
                    } else {
                        Ok(
                            Progress {
                                stage: state.stage,
                                hosts,
                                index: 0,
                                home: state.home,
                                name: state.name,
                                text: state.text,
                            },
                        )
                    }
                },
                Err(e) => Err(state.fail_for_phase(e)),
            }
        },
        Event::File { content: None } => Err(state.fail_for_phase(PhaseError::PhaseNotFound)),
        _ => Err(state.fail_unexpected()),
    }
}

/// Asks the host under work for its home directory.
pub(crate) fn ask_home(state: Progress, warning: Option<String>) -> (r: Step)
    requires
        state.index < state.hosts.len(),
    ensures
        r@ == asking_home(state@, optional_text(warning)),
{
    let argv = create_ssh_command(&state.hosts[state.index], "echo $HOME");
    state.at(Stage::AskingHome).run(warning, argv, true)
}

/// Reads the home directory out of the answer of the host under work.
pub(crate) fn home_from(state: Progress, event: &Event) -> (r: Result<Progress, Step>)
    requires
        state.index < state.hosts.len(),
    ensures
        match r {
            Ok(next) => home_read(state@, event@) == Ok::<ProgressView, StepView>(next@),
            Err(step) => home_read(state@, event@) == Err::<ProgressView, StepView>(step@),
        },
        r matches Ok(next) ==> next.index == state.index && next.hosts == state.hosts,
{
    match event {
        Event::Exited { code, output } => {
            if has_succeeded(*code) {
                let home = get_ssh_home(output.as_str());
                Ok(
                    Progress {
                        stage: state.stage,
                        hosts: state.hosts,
                        index: state.index,
                        home,
                        name: state.name,
                        text: state.text,
                    },
                )
            } else {
                let host = state.hosts[state.index].display();
                Err(state.fail(Failure::CannotGetHome, host.as_str()))
            }
        },
        _ => Err(state.fail_unexpected()),
    }
}

/// Goes on to the next host, or ends the procedure behind the last.
pub(crate) fn go_on(state: Progress, warning: Option<String>) -> (r: Step)
    requires
        state.index < state.hosts.len(),
    ensures
        r@ == next_host(state@, optional_text(warning)),
{
    if state.index + 1 < state.hosts.len() {
        let next = Progress {
            stage: state.stage,
            hosts: state.hosts,
            index: state.index + 1,
            home: state.home,
            name: state.name,
            text: state.text,
        };
        ask_home(next, warning)
    } else {
        state.finish(warning)
    }
}

/// The one host of a procedure is asked for its home directory.
pub open spec fn asking_home_of(host: HostSpec, state: ProgressView) -> StepView {
    running(state.at(Stage::AskingHome), None, ssh_argv(host, home_text()), true)
}

/// What the one host of a procedure has answered: its home directory, or
/// the end of the procedure where it gave none.
pub open spec fn home_read_of(host: HostSpec, state: ProgressView, event: EventView) -> Result<
    ProgressView,
    StepView,
> {
    match event {
        EventView::Exited { code, output } => if succeeded(code) {
            Ok(ProgressView { home: home_of(output), ..state })
        } else {
            Err(failed(state, Failure::CannotGetHome, displayed(host)))
        },
        _ => Err(unexpected(state)),
    }
}

/// Asks the one host of a procedure for its home directory.
pub fn ask_home_of(host: &SshUserHost, state: Progress) -> (r: Step)
    ensures
        r@ == asking_home_of(host@, state@),
{
    let argv = create_ssh_command(host, "echo $HOME");
    state.at(Stage::AskingHome).run(None, argv, true)
}

/// Reads the home directory out of the answer of the one host of a
/// procedure.
pub fn home_from_host(host: &SshUserHost, state: Progress, event: &Event) -> (r: Result<
    Progress,
    Step,
>)
    ensures
        match r {
            Ok(next) => home_read_of(host@, state@, event@) == Ok::<ProgressView, StepView>(next@),
            Err(step) => home_read_of(host@, state@, event@) == Err::<ProgressView, StepView>(
                step@,
            ),
        },
{
    match event {
        Event::Exited { code, output } => {
            if has_succeeded(*code) {
                let home = get_ssh_home(output.as_str());
                Ok(
                    Progress {
                        stage: state.stage,
                        hosts: state.hosts,
                        index: state.index,
                        home,
                        name: state.name,
                        text: state.text,
                    },
                )
            } else {
                let shown = host.display();
                Err(state.fail(Failure::CannotGetHome, shown.as_str()))
            }
        },
        _ => Err(state.fail_unexpected()),
    }
}

/// The directory of the release on the host under work, quoted for the shell
/// of the host.
pub fn quoted_release_path(target: &Target, state: &Progress) -> (r: String)
    ensures
        r@ == quoted_release_dir(target@, state@),
{
    let dir = target.release.release_dir(state.home.as_str());
    quote(dir.as_str())
}

} // verus!
