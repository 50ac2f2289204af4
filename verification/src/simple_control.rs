//! Running a command of the operator's own on every host of a phase.
//!
//! The command is a row of words. It runs as it is, or with the directory of
//! the release put in as its first argument: behind the first word, or, where
//! the first word is `sudo`, behind the second. Where the command has
//! succeeded, a second shell text records it in the control log; where it has
//! failed, nothing more is run.

use crate::back_control::{audit_command, audit_text};
use crate::clock::current_timestamp;
use crate::fleet::{
    ask_home, asking_home, go_on, home_from, home_read, hosts_from, next_host, phase_read,
    quoted_release_dir, quoted_release_path, read_phase, reading_phase, Target, TargetView,
};
use crate::flow::{
    failed, has_succeeded, running, succeeded, unexpected, Event, EventView, Failure, Progress,
    ProgressView, Stage, Step, StepView,
};
use crate::layout::release_name;
use crate::phase_file::texts;
use crate::remote::{create_ssh_command, ssh_argv};
use crate::text::{concat, debug_quoted, join_words, joined, quote, same_text};
use vstd::prelude::*;
use vstd::string::*;

verus! {

/// The command `command` with the quoted directory `dir` as its first
/// argument. A command that begins with `sudo` gets the directory behind the
/// word that follows `sudo`.
pub open spec fn injected(command: Seq<Seq<char>>, dir: Seq<char>) -> Seq<char> {
    if command[0] == "sudo"@ {
        if command.len() > 1 {
            "sudo "@ + command[1] + " "@ + dir + " "@ + joined(command.skip(2))
        } else {
            "sudo "@
        }
    } else {
        command[0] + " "@ + dir + " "@ + joined(command.skip(1))
    }
}

/// The shell text that runs `command`, with the quoted directory `dir` put
/// in where `inject` asks for it.
pub open spec fn simple_command_text(command: Seq<Seq<char>>, inject: bool, dir: Seq<char>) -> Seq<
    char,
> {
    if inject {
        injected(command, dir)
    } else {
        joined(command)
    }
}

/// The shell text that records `command` in the control log beside the
/// quoted directory `dir`.
pub open spec fn record_text(
    dir: Seq<char>,
    now: Seq<char>,
    command: Seq<Seq<char>>,
    release: Seq<char>,
) -> Seq<char> {
    "cd "@ + dir + " && "@ + audit_text(dir, now, debug_quoted(joined(command)), release)
}

/// What running `command` for the release of `target` does next, at the
/// time `now`, from where `state` stands and after `event`. A command
/// without words fails as soon as it is due.
pub open spec fn simple_control_model(
    target: TargetView,
    command: Seq<Seq<char>>,
    inject: bool,
    state: ProgressView,
    event: EventView,
    now: Seq<char>,
) -> StepView {
    let host = state.hosts[state.index as int];
    match state.stage {
        Stage::Start => reading_phase(target, state),
        Stage::ReadingPhase => match phase_read(
            target,
            state,
            event,
            crate::back_control::no_hosts_to_control(),
        ) {
            Ok(next) => asking_home(next, None),
            Err(step) => step,
        },
        _ => if state.index >= state.hosts.len() {
            unexpected(state)
        } else {
            match (state.stage, event) {
                (Stage::AskingHome, _) => match home_read(state, event) {
                    Ok(next) => if command.len() == 0 {
                        failed(next, Failure::ControlFailed, Seq::empty())
                    } else {
                        running(
                            next.at(Stage::Controlling),
                            None,
                            ssh_argv(
                                host,
                                simple_command_text(
                                    command,
                                    inject,
                                    quoted_release_dir(target, next),
                                ),
                            ),
                            false,
                        )
                    },
                    Err(step) => step,
                },
                (Stage::Controlling, EventView::Exited { code, output }) => if succeeded(code) {
                    running(
                        state.at(Stage::Recording),
                        None,
                        ssh_argv(
                            host,
                            record_text(
                                quoted_release_dir(target, state),
                                now,
                                command,
                                release_name(target.release),
                            ),
                        ),
                        false,
                    )
                } else {
                    failed(state, Failure::ControlFailed, Seq::empty())
                },
                (Stage::Recording, EventView::Exited { code, output }) => if succeeded(code) {
                    next_host(state, None)
                } else {
                    failed(state, Failure::ControlFailed, Seq::empty())
                },
                _ => unexpected(state),
            }
        },
    }
}

/// A command that has failed ends the procedure: the shell text that would
/// record it is not run.
pub proof fn failed_command_is_not_recorded(
    target: TargetView,
    command: Seq<Seq<char>>,
    inject: bool,
    state: ProgressView,
    code: Option<i32>,
    output: Seq<char>,
    now: Seq<char>,
)
    requires
        state.stage == Stage::Controlling,
        state.index < state.hosts.len(),
        !succeeded(code),
    ensures
        simple_control_model(
            target,
            command,
            inject,
            state,
            EventView::Exited { code, output },
            now,
        ) == failed(state, Failure::ControlFailed, Seq::empty()),
{
}

/// The shell text that runs `command`, which has a word at least.
pub fn simple_command(command: &Vec<String>, inject: bool, dir: &str) -> (r: String)
    requires
        command.len() > 0,
    ensures
        r@ == simple_command_text(texts(command@), inject, dir@),
{
    if !inject {
        assert(texts(command@).skip(0) =~= texts(command@));
        return join_words(command, 0);
    }
    if same_text(command[0].as_str(), "sudo") {
        let mut r = String::from_str("sudo ");
        if command.len() > 1 {
            r.append(command[1].as_str());
            r.append(" ");
            r.append(dir);
            r.append(" ");
            let rest = join_words(command, 2);
            r.append(rest.as_str());
        }
        r
    } else {
        let mut r = concat(command[0].as_str(), " ");
        r.append(dir);
        r.append(" ");
        let rest = join_words(command, 1);
        r.append(rest.as_str());
        r
    }
}

/// The shell text that records `command` in the control log beside `dir`.
pub fn record_command(dir: &str, now: &str, command: &Vec<String>, release: &str) -> (r: String)
    ensures
        r@ == record_text(dir@, now@, texts(command@), release@),
{
    assert(texts(command@).skip(0) =~= texts(command@));
    let words = join_words(command, 0);
    let what = quote(words.as_str());
    let mut r = concat("cd ", dir);
    r.append(" && ");
    let audit = audit_command(dir, now, what.as_str(), release);
    r.append(audit.as_str());
    r
}

/// The next step of running `command` for the release of `target`, as it
/// would be at the time `now`.
pub fn simple_control_at(
    target: &Target,
    command: &Vec<String>,
    inject: bool,
    state: Progress,
    event: &Event,
    now: &str,
) -> (r: Step)
    ensures
        r@ == simple_control_model(target@, texts(command@), inject, state@, event@, now@),
{
    match state.stage {
        Stage::Start => {
            return read_phase(target, state);
        },
        Stage::ReadingPhase => {
            return match hosts_from(target, state, event, "No hosts to control!") {
                Ok(next) => ask_home(next, None),
                Err(step) => step,
            };
        },
        _ => {},
    }
    if state.index >= state.hosts.len() {
        return state.fail_unexpected();
    }
    match (state.stage, event) {
        (Stage::AskingHome, _) => match home_from(state, event) {
            Ok(next) => {
                if command.len() == 0 {
                    next.fail_plainly(Failure::ControlFailed)
                } else {
                    let dir = quoted_release_path(target, &next);
                    let text = simple_command(command, inject, dir.as_str());
                    let argv = create_ssh_command(&next.hosts[next.index], text.as_str());
                    next.at(Stage::Controlling).run(None, argv, false)
                }
            },
            Err(step) => step,
        },
        (Stage::Controlling, Event::Exited { code, output }) => {
            if has_succeeded(*code) {
                let dir = quoted_release_path(target, &state);
                let release = target.release.name();
                let text = record_command(dir.as_str(), now, command, release.as_str());
                let argv = create_ssh_command(&state.hosts[state.index], text.as_str());
                state.at(Stage::Recording).run(None, argv, false)
            } else {
                state.fail_plainly(Failure::ControlFailed)
            }
        },
        (Stage::Recording, Event::Exited { code, output }) => {
            if has_succeeded(*code) {
                go_on(state, None)
            } else {
                state.fail_plainly(Failure::ControlFailed)
            }
        },
        _ => state.fail_unexpected(),
    }
}

/// The next step of running `command` for the release of `target`: what
/// [`simple_control_at`] answers at the present time.
pub fn simple_control(
    target: &Target,
    command: &Vec<String>,
    inject: bool,
    state: Progress,
    event: &Event,
) -> (r: Step)
    ensures
        exists|now: Seq<char>|
            r@ == simple_control_model(target@, texts(command@), inject, state@, event@, now),
{
    let now = current_timestamp();
    simple_control_at(target, command, inject, state, event, now.as_str())
}

/// The procedure ends where it fails or succeeds, and only there; once it
/// has ended it asks for nothing more, whatever it is told.
pub proof fn procedure_ends_for_good(
    target: TargetView,
    command: Seq<Seq<char>>,
    inject: bool,
    state: ProgressView,
    event: EventView,
    now: Seq<char>,
)
    ensures
        ({
            let step = simple_control_model(target, command, inject, state, event, now);
            (step.action is Fail || step.action is Succeed) <==> step.state.stage == Stage::Done
        }),
        state.stage == Stage::Done ==> simple_control_model(
            target,
            command,
            inject,
            state,
            event,
            now,
        ) == unexpected(state),
{
}

} // verus!
