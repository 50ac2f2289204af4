//! Deploying the public files of a frontend project to every host of a phase.
//!
//! The project is fetched, must hold its build script and name its public
//! files, and is built. On each host the directory of the release is made and
//! the archive of the public files is copied into it. Putting the files in
//! place is a separate procedure.

use crate::compose::check_front_deploy;
use crate::deploy::{
    archive_path, copy, copying, fetch, fetching, local_archive, make_directory,
    making_directory, no_hosts_to_deploy,
};
use crate::fetch::{front_build_argv, run_front_build, Source, SourceView};
use crate::fleet::{
    ask_home, asking_home, go_on, home_from, home_read, hosts_from, next_host, phase_read,
    read_phase, reading_phase, Target, TargetView,
};
use crate::flow::{
    failed, has_succeeded, probing, reading, running_in_project, succeeded, unexpected, Event,
    EventView, Failure, Progress, ProgressView, Stage, Step, StepView,
};
use crate::layout::release_dir;
use crate::names::{is_word, Alphabet, BuildTarget};
use crate::text::trimmed;
use vstd::prelude::*;
use vstd::string::*;

verus! {

/// What deploying the frontend release of `target` does next, from where
/// `state` stands and after `event`.
pub open spec fn front_deploy_model(
    target: TargetView,
    source: SourceView,
    build_target: Seq<char>,
    state: ProgressView,
    event: EventView,
) -> StepView {
    match state.stage {
        Stage::Start => reading_phase(target, state),
        Stage::ReadingPhase => match phase_read(target, state, event, no_hosts_to_deploy()) {
            Ok(next) => fetching(target, source, next),
            Err(step) => step,
        },
        _ => if state.index >= state.hosts.len() {
            unexpected(state)
        } else {
            match (state.stage, event) {
                (Stage::Fetching, EventView::Exited { code, output }) => if succeeded(code) {
                    probing(state.at(Stage::ProbingBuildScript), "deploy/build.sh"@)
                } else {
                    failed(state, Failure::FetchFailed, Seq::empty())
                },
                (Stage::ProbingBuildScript, EventView::Probed { exists }) => if exists {
                    reading(state.at(Stage::ReadingPublicName), "deploy/public-name.txt"@)
                } else {
                    failed(state, Failure::MissingProjectFile, "deploy/build.sh"@)
                },
                (Stage::ReadingPublicName, EventView::File { content }) => match content {
                    None => failed(state, Failure::MissingProjectFile, "deploy/public-name.txt"@),
                    Some(text) => if is_word(Alphabet::Name, trimmed(text)) {
                        running_in_project(
                            ProgressView { name: trimmed(text), ..state }.at(Stage::Building),
                            front_build_argv(build_target),
                        )
                    } else {
                        failed(state, Failure::IncorrectProjectFile, "deploy/public-name.txt"@)
                    },
                },
                (Stage::Building, EventView::Exited { code, output }) => if succeeded(code) {
                    asking_home(state, None)
                } else {
                    failed(state, Failure::BuildFailed, Seq::empty())
                },
                (Stage::AskingHome, _) => match home_read(state, event) {
                    Ok(next) => making_directory(target, next),
                    Err(step) => step,
                },
                (Stage::MakingDirectory, EventView::Exited { code, output }) => if succeeded(
                    code,
                ) {
                    copying(target, state, state.name)
                } else {
                    failed(
                        state,
                        Failure::CannotCreateDirectory,
                        release_dir(state.home, target.release),
                    )
                },
                (Stage::Copying, EventView::Exited { code, output }) => if succeeded(code) {
                    next_host(state, None)
                } else {
                    failed(state, Failure::CannotCopy, archive_path(state.name))
                },
                _ => unexpected(state),
            }
        },
    }
}

/// The next step of deploying the frontend release of `target`, fetched from
/// `source` and built for `build_target`.
pub fn front_deploy(
    target: &Target,
    source: &Source,
    build_target: &BuildTarget,
    state: Progress,
    event: &Event,
) -> (r: Step)
    ensures
        r@ == front_deploy_model(target@, source@, build_target@, state@, event@),
{
    match state.stage {
        Stage::Start => {
            return read_phase(target, state);
        },
        Stage::ReadingPhase => {
            return match hosts_from(target, state, event, "No hosts to deploy!") {
                Ok(next) => fetch(target, source, next),
                Err(step) => step,
            };
        },
        _ => {},
    }
    if state.index >= state.hosts.len() {
        return state.fail_unexpected();
    }
    match (state.stage, event) {
        (Stage::Fetching, Event::Exited { code, output }) => {
            if has_succeeded(*code) {
                state.at(Stage::ProbingBuildScript).probe("deploy/build.sh")
            } else {
                state.fail_plainly(Failure::FetchFailed)
            }
        },
        (Stage::ProbingBuildScript, Event::Probed { exists }) => {
            if *exists {
                state.at(Stage::ReadingPublicName).read("deploy/public-name.txt")
            } else {
                state.fail(Failure::MissingProjectFile, "deploy/build.sh")
            }
        },
        (Stage::ReadingPublicName, Event::File { content }) => match content {
            None => state.fail(Failure::MissingProjectFile, "deploy/public-name.txt"),
            Some(text) => match check_front_deploy(text.as_str()) {
                Ok(name) => {
                    let argv = run_front_build(build_target);
                    state.named(String::from_str(name.as_ref())).at(
                        Stage::Building,
                    ).run_in_project(argv)
                },
                Err(_) => state.fail(Failure::IncorrectProjectFile, "deploy/public-name.txt"),
            },
        },
        (Stage::Building, Event::Exited { code, output }) => {
            if has_succeeded(*code) {
                ask_home(state, None)
            } else {
                state.fail_plainly(Failure::BuildFailed)
            }
        },
        (Stage::AskingHome, _) => match home_from(state, event) {
            Ok(next) => make_directory(target, next),
            Err(step) => step,
        },
        (Stage::MakingDirectory, Event::Exited { code, output }) => {
            if has_succeeded(*code) {
                let name = state.name.clone();
                copy(target, state, name.as_str())
            } else {
                let dir = target.release.release_dir(state.home.as_str());
                state.fail(Failure::CannotCreateDirectory, dir.as_str())
            }
        },
        (Stage::Copying, Event::Exited { code, output }) => {
            if has_succeeded(*code) {
                go_on(state, None)
            } else {
                let archive = local_archive(state.name.as_str());
                state.fail(Failure::CannotCopy, archive.as_str())
            }
        },
        _ => state.fail_unexpected(),
    }
}

/// The procedure ends where it fails or succeeds, and only there; once it
/// has ended it asks for nothing more, whatever it is told.
pub proof fn procedure_ends_for_good(
    target: TargetView,
    source: SourceView,
    build_target: Seq<char>,
    state: ProgressView,
    event: EventView,
)
    ensures
        ({
            let step = front_deploy_model(target, source, build_target, state, event);
            (step.action is Fail || step.action is Succeed) <==> step.state.stage == Stage::Done
        }),
        state.stage == Stage::Done ==> front_deploy_model(
            target,
            source,
            build_target,
            state,
            event,
        ) == unexpected(state),
{
}

} // verus!
