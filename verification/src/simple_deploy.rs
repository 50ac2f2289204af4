//! Deploying the files of a project, as they are, to every host of a phase.
//!
//! The plain archive of the commit is saved once. On each host the directory
//! of the release is made and the archive is unpacked into it, without the
//! directory that the archive wraps everything in.

use crate::deploy::{make_directory, making_directory, no_hosts_to_deploy};
use crate::fetch::{archive_file, archive_url, download_archive, wget_argv, Source, SourceView};
use crate::fleet::{
    ask_home, asking_home, go_on, home_from, home_read, hosts_from, next_host, phase_read,
    quoted_release_dir, quoted_release_path, read_phase, reading_phase, Target, TargetView,
};
use crate::flow::{
    failed, has_succeeded, running_in_project, running_with_input, succeeded, unexpected, Event,
    EventView, Failure, Input, InputView, Progress, ProgressView, Stage, Step, StepView,
};
use crate::layout::release_dir;
use crate::remote::{create_ssh_command, ssh_argv};
use crate::text::concat;
use vstd::prelude::*;
use vstd::string::*;

verus! {

/// The shell text that unpacks the archive that it reads into the quoted
/// directory `dir`.
pub open spec fn unpack_text(dir: Seq<char>) -> Seq<char> {
    "tar --strip-components 1 -x -v -f - -C "@ + dir
}

/// What deploying the files of the release of `target` does next, from
/// where `state` stands and after `event`.
pub open spec fn simple_deploy_model(
    target: TargetView,
    source: SourceView,
    state: ProgressView,
    event: EventView,
) -> StepView {
    match state.stage {
        Stage::Start => reading_phase(target, state),
        Stage::ReadingPhase => match phase_read(target, state, event, no_hosts_to_deploy()) {
            Ok(next) => running_in_project(
                next.at(Stage::Fetching),
                wget_argv(
                    archive_url(
                        source.api_url_prefix,
                        target.release.project_id,
                        "archive.tar"@,
                        target.release.commit_sha,
                    ),
                    source.api_token,
                    archive_file(),
                ),
            ),
            Err(step) => step,
        },
        _ => if state.index >= state.hosts.len() {
            unexpected(state)
        } else {
            match (state.stage, event) {
                (Stage::Fetching, EventView::Exited { code, output }) => if succeeded(code) {
                    asking_home(state, None)
                } else {
                    failed(state, Failure::FetchFailed, Seq::empty())
                },
                (Stage::AskingHome, _) => match home_read(state, event) {
                    Ok(next) => making_directory(target, next),
                    Err(step) => step,
                },
                (Stage::MakingDirectory, EventView::Exited { code, output }) => if succeeded(
                    code,
                ) {
                    running_with_input(
                        state.at(Stage::Unpacking),
                        ssh_argv(
                            state.hosts[state.index as int],
                            unpack_text(quoted_release_dir(target, state)),
                        ),
                        InputView::File(archive_file()),
                    )
                } else {
                    failed(
                        state,
                        Failure::CannotCreateDirectory,
                        release_dir(state.home, target.release),
                    )
                },
                (Stage::Unpacking, EventView::Exited { code, output }) => if succeeded(code) {
                    next_host(state, None)
                } else {
                    failed(state, Failure::CannotUnpack, Seq::empty())
                },
                _ => unexpected(state),
            }
        },
    }
}

/// The next step of deploying the files of the release of `target`, fetched
/// from `source`.
pub fn simple_deploy(target: &Target, source: &Source, state: Progress, event: &Event) -> (r: Step)
    ensures
        r@ == simple_deploy_model(target@, source@, state@, event@),
{
    match state.stage {
        Stage::Start => {
            return read_phase(target, state);
        },
        Stage::ReadingPhase => {
            return match hosts_from(target, state, event, "No hosts to deploy!") {
                Ok(next) => {
                    let argv = download_archive(
                        source,
                        target.release.project_id,
                        &target.release.commit_sha,
                    );
                    next.at(Stage::Fetching).run_in_project(argv)
                },
                Err(step) => step,
            };
        },
        _ => {},
    }
    if state.index >= state.hosts.len() {
        return state.fail_unexpected();
    }
    match (state.stage, event) {
        (Stage::Fetching, Event::Exited { code, output }) => {
            if has_succeeded(*code) {
                ask_home(state, None)
            } else {
                state.fail_plainly(Failure::FetchFailed)
            }
        },
        (Stage::AskingHome, _) => match home_from(state, event) {
            Ok(next) => make_directory(target, next),
            Err(step) => step,
        },
        (Stage::MakingDirectory, Event::Exited { code, output }) => {
            if has_succeeded(*code) {
                let dir = quoted_release_path(target, &state);
                let text = concat("tar --strip-components 1 -x -v -f - -C ", dir.as_str());
                let argv = create_ssh_command(&state.hosts[state.index], text.as_str());
                let input = Input::File(String::from_str("archive.tar"));
                state.at(Stage::Unpacking).run_with_input(argv, input)
            } else {
                let dir = target.release.release_dir(state.home.as_str());
                state.fail(Failure::CannotCreateDirectory, dir.as_str())
            }
        },
        (Stage::Unpacking, Event::Exited { code, output }) => {
            if has_succeeded(*code) {
                go_on(state, None)
            } else {
                state.fail_plainly(Failure::CannotUnpack)
            }
        },
        _ => state.fail_unexpected(),
    }
}

/// The procedure ends where it fails or succeeds, and only there; once it
/// has ended it asks for nothing more, whatever it is told.
pub proof fn procedure_ends_for_good(
    target: TargetView,
    source: SourceView,
    state: ProgressView,
    event: EventView,
)
    ensures
        ({
            let step = simple_deploy_model(target, source, state, event);
            (step.action is Fail || step.action is Succeed) <==> step.state.stage == Stage::Done
        }),
        state.stage == Stage::Done ==> simple_deploy_model(
            target,
            source,
            state,
            event,
        ) == unexpected(state),
{
}

} // verus!
