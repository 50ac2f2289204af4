//! Giving a lifecycle command to a release on every host of a phase.
//!
//! On each host the command runs inside the directory of the release, and a
//! line in the control log beside the releases records it: the line is
//! written by the same shell text, behind the command and `&&`, so it is
//! written only where the command has succeeded. A release that has been
//! started is noted as the one started last. The handover first shuts down
//! the release noted there, if it is another one, and starts this one
//! whether or not that went well.

use crate::clock::current_timestamp;
use crate::command::{command_name, command_text, Command};
use crate::fleet::{
    ask_home, asking_home, go_on, home_from, home_read, hosts_from, next_host, optional_text,
    phase_read, quoted_release_dir, quoted_release_path, read_phase, reading_phase, Target,
    TargetView,
};
use crate::flow::{
    failed, has_succeeded, running, succeeded, unexpected, Event, EventView, Failure, Progress,
    ProgressView, Stage, Step, StepView,
};
use crate::layout::release_name;
use crate::remote::{create_ssh_command, ssh_argv};
use crate::text::{concat, same_text, trim_in_place, trimmed};
use vstd::prelude::*;
use vstd::string::*;

verus! {

/// The warning given where a project has no hosts to control.
pub open spec fn no_hosts_to_control() -> Seq<char> {
    "No hosts to control!"@
}

/// The warning given where the release started last did not shut down.
pub open spec fn not_shut_down(folder: Seq<char>) -> Seq<char> {
    folder + " cannot be fully shut down"@
}

/// The warning given where the release could not be noted as started last.
pub open spec fn not_marked() -> Seq<char> {
    "The latest version information cannot be written"@
}

/// The shell text that shows the note of the release started last, which
/// lies beside the quoted directory `dir`.
pub open spec fn last_up_text(dir: Seq<char>) -> Seq<char> {
    "cat "@ + dir + "/../last-up"@
}

/// The shell text that shuts down the release `folder`, which lies beside
/// the quoted directory `dir`.
pub open spec fn shut_down_text(dir: Seq<char>, folder: Seq<char>) -> Seq<char> {
    "cd "@ + dir + "/../"@ + folder + " && "@ + command_text(Command::Down)
}

/// The shell text that adds a line to the control log beside the quoted
/// directory `dir`: the time `now`, what was done, and to which release.
pub open spec fn audit_text(
    dir: Seq<char>,
    now: Seq<char>,
    what: Seq<char>,
    release: Seq<char>,
) -> Seq<char> {
    "echo \""@ + now + " "@ + what + " "@ + release + "\" >> "@ + dir + "/../control.log"@
}

/// The shell text that carries out `command` in the quoted directory `dir`
/// and then, if that went well, records it in the control log.
pub open spec fn control_text(
    dir: Seq<char>,
    command: Command,
    now: Seq<char>,
    release: Seq<char>,
) -> Seq<char> {
    "cd "@ + dir + " && "@ + command_text(command) + " && "@ + audit_text(
        dir,
        now,
        command_name(command),
        release,
    )
}

/// The shell text that notes `release` as the one started last, beside the
/// quoted directory `dir`.
pub open spec fn mark_text(dir: Seq<char>, release: Seq<char>) -> Seq<char> {
    "cd "@ + dir + " && echo \""@ + release + "\" > "@ + dir + "/../last-up"@
}

/// The release that is to be shut down before `release` starts: the one
/// that the note names, where the note could be read, is not empty and
/// names another release.
pub open spec fn release_to_shut_down(
    release: Seq<char>,
    code: Option<i32>,
    output: Seq<char>,
) -> Option<Seq<char>> {
    if succeeded(code) && trimmed(output).len() > 0 && trimmed(output) != release {
        Some(trimmed(output))
    } else {
        None
    }
}

/// Whether a command starts the release, which is then noted as started last.
pub open spec fn starts_release(command: Command) -> bool {
    command == Command::Up || command == Command::DownAndUp
}

/// The command is carried out on the host under work.
pub open spec fn controlling(
    target: TargetView,
    command: Command,
    state: ProgressView,
    warning: Option<Seq<char>>,
    now: Seq<char>,
) -> StepView {
    running(
        state.at(Stage::Controlling),
        warning,
        ssh_argv(
            state.hosts[state.index as int],
            control_text(
                quoted_release_dir(target, state),
                command,
                now,
                release_name(target.release),
            ),
        ),
        false,
    )
}

/// What giving `command` to the release of `target` does next, at the time
/// `now`, from where `state` stands and after `event`.
pub open spec fn back_control_model(
    target: TargetView,
    command: Command,
    state: ProgressView,
    event: EventView,
    now: Seq<char>,
) -> StepView {
    let host = state.hosts[state.index as int];
    let dir = quoted_release_dir(target, state);
    match state.stage {
        Stage::Start => reading_phase(target, state),
        Stage::ReadingPhase => match phase_read(target, state, event, no_hosts_to_control()) {
            Ok(next) => asking_home(next, None),
            Err(step) => step,
        },
        _ => if state.index >= state.hosts.len() {
            unexpected(state)
        } else {
            match (state.stage, event) {
                (Stage::AskingHome, _) => match home_read(state, event) {
                    Ok(next) => if command == Command::DownAndUp {
                        running(
                            next.at(Stage::ReadingLastUp),
                            None,
                            ssh_argv(host, last_up_text(quoted_release_dir(target, next))),
                            true,
                        )
                    } else {
                        controlling(target, command, next, None, now)
                    },
                    Err(step) => step,
                },
                (Stage::ReadingLastUp, EventView::Exited { code, output }) => {
                    match release_to_shut_down(release_name(target.release), code, output) {
                        Some(folder) => running(
                            ProgressView { name: folder, ..state }.at(Stage::ShuttingDown),
                            None,
                            ssh_argv(host, shut_down_text(dir, folder)),
                            false,
                        ),
                        None => controlling(target, command, state, None, now),
                    }
                },
                (Stage::ShuttingDown, EventView::Exited { code, output }) => controlling(
                    target,
                    command,
                    state,
                    if succeeded(code) {
                        None
                    } else {
                        Some(not_shut_down(state.name))
                    },
                    now,
                ),
                (Stage::Controlling, EventView::Exited { code, output }) => if !succeeded(code) {
                    failed(state, Failure::ControlFailed, Seq::empty())
                } else if starts_release(command) {
                    running(
                        state.at(Stage::Marking),
                        None,
                        ssh_argv(host, mark_text(dir, release_name(target.release))),
                        false,
                    )
                } else {
                    next_host(state, None)
                },
                (Stage::Marking, EventView::Exited { code, output }) => next_host(
                    state,
                    if succeeded(code) {
                        None
                    } else {
                        Some(not_marked())
                    },
                ),
                _ => unexpected(state),
            }
        },
    }
}

/// In a handover, where the host has no note of a release started last, or
/// an empty one, nothing is shut down: the next thing to run starts the
/// release.
pub proof fn handover_without_note_starts_at_once(
    target: TargetView,
    state: ProgressView,
    code: Option<i32>,
    output: Seq<char>,
    now: Seq<char>,
)
    requires
        state.stage == Stage::ReadingLastUp,
        state.index < state.hosts.len(),
        !succeeded(code) || trimmed(output).len() == 0,
    ensures
        back_control_model(
            target,
            Command::DownAndUp,
            state,
            EventView::Exited { code, output },
            now,
        ) == controlling(target, Command::DownAndUp, state, None, now),
        command_text(Command::DownAndUp) == command_text(Command::Up),
{
}

/// In a handover, where the note names another release, that release is
/// shut down first, in its own directory beside this one.
pub proof fn handover_shuts_down_the_other_release(
    target: TargetView,
    state: ProgressView,
    output: Seq<char>,
    now: Seq<char>,
)
    requires
        state.stage == Stage::ReadingLastUp,
        state.index < state.hosts.len(),
        trimmed(output).len() > 0,
        trimmed(output) != release_name(target.release),
    ensures
        back_control_model(
            target,
            Command::DownAndUp,
            state,
            EventView::Exited { code: Some(0i32), output },
            now,
        ) == running(
            ProgressView { name: trimmed(output), ..state }.at(Stage::ShuttingDown),
            None,
            ssh_argv(
                state.hosts[state.index as int],
                shut_down_text(quoted_release_dir(target, state), trimmed(output)),
            ),
            false,
        ),
{
}

/// In a handover, however the shutdown of the other release has ended, the
/// next thing to run starts this release; a shutdown that failed is warned
/// of and no more.
pub proof fn handover_starts_the_release_whatever_the_shutdown_did(
    target: TargetView,
    state: ProgressView,
    code: Option<i32>,
    output: Seq<char>,
    now: Seq<char>,
)
    requires
        state.stage == Stage::ShuttingDown,
        state.index < state.hosts.len(),
    ensures
        back_control_model(
            target,
            Command::DownAndUp,
            state,
            EventView::Exited { code, output },
            now,
        ).action == controlling(target, Command::DownAndUp, state, None, now).action,
        back_control_model(
            target,
            Command::DownAndUp,
            state,
            EventView::Exited { code, output },
            now,
        ).state.stage == Stage::Controlling,
{
}

/// A command that has failed ends the procedure: nothing more is run, so
/// nothing is written behind it, on this host or on another.
pub proof fn failed_command_ends_the_procedure(
    target: TargetView,
    command: Command,
    state: ProgressView,
    code: Option<i32>,
    output: Seq<char>,
    now: Seq<char>,
)
    requires
        state.stage == Stage::Controlling,
        state.index < state.hosts.len(),
        !succeeded(code),
    ensures
        back_control_model(target, command, state, EventView::Exited { code, output }, now)
            == failed(state, Failure::ControlFailed, Seq::empty()),
{
}

/// The shell text that shows the note of the release started last.
pub fn last_up_command(dir: &str) -> (r: String)
    ensures
        r@ == last_up_text(dir@),
{
    let mut r = concat("cat ", dir);
    r.append("/../last-up");
    r
}

/// The shell text that shuts down the release `folder` beside `dir`.
pub fn shut_down_command(dir: &str, folder: &str) -> (r: String)
    ensures
        r@ == shut_down_text(dir@, folder@),
{
    let mut r = concat("cd ", dir);
    r.append("/../");
    r.append(folder);
    r.append(" && ");
    r.append(Command::Down.get_command_str());
    r
}

/// The shell text that adds a line to the control log beside `dir`.
pub fn audit_command(dir: &str, now: &str, what: &str, release: &str) -> (r: String)
    ensures
        r@ == audit_text(dir@, now@, what@, release@),
{
    let mut r = concat("echo \"", now);
    r.append(" ");
    r.append(what);
    r.append(" ");
    r.append(release);
    r.append("\" >> ");
    r.append(dir);
    r.append("/../control.log");
    r
}

/// The shell text that carries out `command` in `dir` and records it.
pub fn control_command(dir: &str, command: Command, now: &str, release: &str) -> (r: String)
    ensures
        r@ == control_text(dir@, command, now@, release@),
{
    let mut r = concat("cd ", dir);
    r.append(" && ");
    r.append(command.get_command_str());
    r.append(" && ");
    let audit = audit_command(dir, now, command.as_str(), release);
    r.append(audit.as_str());
    r
}

/// The shell text that notes `release` as the one started last.
pub fn mark_command(dir: &str, release: &str) -> (r: String)
    ensures
        r@ == mark_text(dir@, release@),
{
    let mut r = concat("cd ", dir);
    r.append(" && echo \"");
    r.append(release);
    r.append("\" > ");
    r.append(dir);
    r.append("/../last-up");
    r
}

/// Finds in the answer of a host the release to shut down before `release`
/// starts.
pub fn previous_release(release: &str, code: Option<i32>, output: &str) -> (r: Option<String>)
    ensures
        optional_text(r) == release_to_shut_down(release@, code, output@),
{
    if !has_succeeded(code) {
        return None;
    }
    let mut folder = String::from_str(output);
    trim_in_place(&mut folder);
    if folder.as_str().unicode_len() == 0 || same_text(folder.as_str(), release) {
        None
    } else {
        Some(folder)
    }
}

fn control(
    target: &Target,
    command: Command,
    state: Progress,
    warning: Option<String>,
    now: &str,
) -> (r: Step)
    requires
        state.index < state.hosts.len(),
    ensures
        r@ == controlling(target@, command, state@, optional_text(warning), now@),
{
    let dir = quoted_release_path(target, &state);
    let release = target.release.name();
    let text = control_command(dir.as_str(), command, now, release.as_str());
    let argv = create_ssh_command(&state.hosts[state.index], text.as_str());
    state.at(Stage::Controlling).run(warning, argv, false)
}

/// The next step of giving `command` to the release of `target`, as it
/// would be at the time `now`.
pub fn back_control_at(
    target: &Target,
    command: Command,
    state: Progress,
    event: &Event,
    now: &str,
) -> (r: Step)
    ensures
        r@ == back_control_model(target@, command, state@, event@, now@),
{
    match state.stage {
        Stage::Start => {
            return read_phase(target, state);
        },
        Stage::ReadingPhase => {
            return match hosts_from(target, state, event, "No hosts to control!") {
                Ok(next) => ask_home(next, None),
                Err(step) => step,
            };
        },
        _ => {},
    }
    if state.index >= state.hosts.len() {
        return state.fail_unexpected();
    }
    match (state.stage, event) {
        (Stage::AskingHome, _) => match home_from(state, event) {
            Ok(next) => {
                if command == Command::DownAndUp {
                    let dir = quoted_release_path(target, &next);
                    let text = last_up_command(dir.as_str());
                    let argv = create_ssh_command(&next.hosts[next.index], text.as_str());
                    next.at(Stage::ReadingLastUp).run(None, argv, true)
                } else {
                    control(target, command, next, None, now)
                }
            },
            Err(step) => step,
        },
        (Stage::ReadingLastUp, Event::Exited { code, output }) => {
            let release = target.release.name();
            match previous_release(release.as_str(), *code, output.as_str()) {
                Some(folder) => {
                    let dir = quoted_release_path(target, &state);
                    let text = shut_down_command(dir.as_str(), folder.as_str());
                    let argv = create_ssh_command(&state.hosts[state.index], text.as_str());
                    let next = Progress {
                        stage: Stage::ShuttingDown,
                        hosts: state.hosts,
                        index: state.index,
                        home: state.home,
                        name: folder,
                        text: state.text,
                    };
                    next.run(None, argv, false)
                },
                None => control(target, command, state, None, now),
            }
        },
        (Stage::ShuttingDown, Event::Exited { code, output }) => {
            let warning = if has_succeeded(*code) {
                None
            } else {
                Some(concat(state.name.as_str(), " cannot be fully shut down"))
            };
            control(target, command, state, warning, now)
        },
        (Stage::Controlling, Event::Exited { code, output }) => {
            if !has_succeeded(*code) {
                state.fail_plainly(Failure::ControlFailed)
            } else if command == Command::Up || command == Command::DownAndUp {
                let dir = quoted_release_path(target, &state);
                let release = target.release.name();
                let text = mark_command(dir.as_str(), release.as_str());
                let argv = create_ssh_command(&state.hosts[state.index], text.as_str());
                state.at(Stage::Marking).run(None, argv, false)
            } else {
                go_on(state, None)
            }
        },
        (Stage::Marking, Event::Exited { code, output }) => {
            let warning = if has_succeeded(*code) {
                None
            } else {
                Some(String::from_str("The latest version information cannot be written"))
            };
            go_on(state, warning)
        },
        _ => state.fail_unexpected(),
    }
}

/// The next step of giving `command` to the release of `target`: what
/// [`back_control_at`] answers at the present time.
pub fn back_control(target: &Target, command: Command, state: Progress, event: &Event) -> (r: Step)
    ensures
        exists|now: Seq<char>| r@ == back_control_model(target@, command, state@, event@, now),
{
    let now = current_timestamp();
    back_control_at(target, command, state, event, now.as_str())
}

/// The procedure ends where it fails or succeeds, and only there; once it
/// has ended it asks for nothing more, whatever it is told.
pub proof fn procedure_ends_for_good(
    target: TargetView,
    command: Command,
    state: ProgressView,
    event: EventView,
    now: Seq<char>,
)
    ensures
        ({
            let step = back_control_model(target, command, state, event, now);
            (step.action is Fail || step.action is Succeed) <==> step.state.stage == Stage::Done
        }),
        state.stage == Stage::Done ==> back_control_model(
            target,
            command,
            state,
            event,
            now,
        ) == unexpected(state),
{
}

} // verus!
