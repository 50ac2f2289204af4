//! Deploying the docker image of a backend project to every host of a phase.
//!
//! The project is fetched and checked first: it must hold its build script,
//! name its image, and name the same image in its docker compose file. Only
//! then is it built, and only then is the first host reached. On each host
//! the directory of the release is made, the docker compose file pinned to
//! the commit is written into it, the archive of the image is copied there,
//! and the image is loaded. The first failure ends the procedure; what was
//! done on earlier hosts stays done.

use crate::compose::{
    check_back_deploy, checked_back_deploy, compose_file_name, compose_name, names_image,
    read_image_name,
};
use crate::deploy::{
    archive_path, copy, copying, fetch, fetching, local_archive, make_directory,
    making_directory, no_hosts_to_deploy,
};
use crate::fetch::{
    back_build_argv, run_back_build, unzstd_argv, unzstd_command, Source, SourceView,
};
use crate::fleet::{
    ask_home, asking_home, go_on, home_from, home_read, hosts_from, next_host, phase_read,
    read_phase, reading_phase, Target, TargetView,
};
use crate::flow::{
    failed, has_succeeded, piping, probing, reading, running_in_project, running_with_input,
    succeeded, unexpected, ActionView, Event, EventView, Failure, Input, InputView, Progress,
    ProgressView, Stage, Step, StepView,
};
use crate::layout::release_dir;
use crate::names::{in_alphabet, is_word, Alphabet, BuildTarget};
use crate::remote::{create_ssh_command, ssh_argv};
use crate::text::{bare_text_is_trimmed_as_it_is, concat, trimmed};
use vstd::prelude::*;
use vstd::string::*;

verus! {

/// Where the docker compose file of a project lies, seen from its directory.
pub open spec fn compose_path(build_target: Option<Seq<char>>) -> Seq<char> {
    "deploy/"@ + compose_name(build_target)
}

/// Where the docker compose file goes in the directory `dir` of a release.
pub open spec fn remote_compose_path(dir: Seq<char>) -> Seq<char> {
    dir + "/docker-compose.yml"@
}

/// The shell text that writes what it reads to `path`.
pub open spec fn write_file_text(path: Seq<char>) -> Seq<char> {
    "cat - > "@ + path
}

/// The shell text that loads a docker image from what it reads.
pub open spec fn load_image_text() -> Seq<char> {
    "docker image load"@
}

/// Where the file that names the image lies, seen from the project.
pub open spec fn image_name_path() -> Seq<char> {
    "deploy/image-name.txt"@
}

/// The file that a check of the project has failed on: the docker compose
/// file where it names another image, else the file that names the image.
pub open spec fn unfit_file(kind: Failure, build_target: Option<Seq<char>>) -> Seq<char> {
    if kind == Failure::ImageNameMismatch {
        compose_path(build_target)
    } else {
        image_name_path()
    }
}

/// The view of an optional build target.
pub open spec fn optional_target(build_target: Option<&BuildTarget>) -> Option<Seq<char>> {
    match build_target {
        Some(t) => Some(t@),
        None => None,
    }
}

/// Whether an action reaches a host: it runs `ssh` or `scp`.
pub open spec fn reaches_host(action: ActionView) -> bool {
    match action {
        ActionView::Run { argv, .. } => argv.len() > 0 && (argv[0] == "ssh"@ || argv[0] == "scp"@),
        ActionView::Pipe { first, second, .. } => (first.len() > 0 && (first[0] == "ssh"@
            || first[0] == "scp"@)) || (second.len() > 0 && (second[0] == "ssh"@ || second[0]
            == "scp"@)),
        _ => false,
    }
}

/// What deploying the backend release of `target` does next, from where
/// `state` stands and after `event`.
pub open spec fn back_deploy_model(
    target: TargetView,
    source: SourceView,
    build_target: Option<Seq<char>>,
    state: ProgressView,
    event: EventView,
) -> StepView {
    let host = state.hosts[state.index as int];
    let dir = release_dir(state.home, target.release);
    match state.stage {
        Stage::Start => reading_phase(target, state),
        Stage::ReadingPhase => match phase_read(target, state, event, no_hosts_to_deploy()) {
            Ok(next) => fetching(target, source, next),
            Err(step) => step,
        },
        _ => if state.index >= state.hosts.len() {
            unexpected(state)
        } else {
            match (state.stage, event) {
                (Stage::Fetching, EventView::Exited { code, output }) => if succeeded(code) {
                    probing(state.at(Stage::ProbingBuildScript), "deploy/build.sh"@)
                } else {
                    failed(state, Failure::FetchFailed, Seq::empty())
                },
                (Stage::ProbingBuildScript, EventView::Probed { exists }) => if exists {
                    reading(state.at(Stage::ReadingImageName), image_name_path())
                } else {
                    failed(state, Failure::MissingProjectFile, "deploy/build.sh"@)
                },
                (Stage::ReadingImageName, EventView::File { content }) => match content {
                    None => failed(state, Failure::MissingProjectFile, image_name_path()),
                    Some(text) => if is_word(Alphabet::Slug, trimmed(text)) {
                        reading(
                            ProgressView { name: trimmed(text), ..state }.at(Stage::ReadingCompose),
                            compose_path(build_target),
                        )
                    } else {
                        failed(state, Failure::IncorrectProjectFile, image_name_path())
                    },
                },
                (Stage::ReadingCompose, EventView::File { content }) => match content {
                    None => failed(state, Failure::MissingProjectFile, compose_path(build_target)),
                    Some(text) => match checked_back_deploy(
                        state.name,
                        text,
                        target.release.commit_sha,
                    ) {
                        Ok((name, compose)) => running_in_project(
                            ProgressView { name, text: compose, ..state }.at(Stage::Building),
                            back_build_argv(target.release.commit_sha, build_target),
                        ),
                        Err(kind) => failed(state, kind, unfit_file(kind, build_target)),
                    },
                },
                (Stage::Building, EventView::Exited { code, output }) => if succeeded(code) {
                    asking_home(state, None)
                } else {
                    failed(state, Failure::BuildFailed, Seq::empty())
                },
                (Stage::AskingHome, _) => match home_read(state, event) {
                    Ok(next) => making_directory(target, next),
                    Err(step) => step,
                },
                (Stage::MakingDirectory, EventView::Exited { code, output }) => if succeeded(
                    code,
                ) {
                    running_with_input(
                        state.at(Stage::WritingCompose),
                        ssh_argv(host, write_file_text(remote_compose_path(dir))),
                        InputView::Text(state.text),
                    )
                } else {
                    failed(state, Failure::CannotCreateDirectory, dir)
                },
                (Stage::WritingCompose, EventView::Exited { code, output }) => if succeeded(code) {
                    copying(target, state, state.name)
                } else {
                    failed(state, Failure::CannotWriteComposeFile, remote_compose_path(dir))
                },
                (Stage::Copying, EventView::Exited { code, output }) => if succeeded(code) {
                    piping(
                        state.at(Stage::Loading),
                        unzstd_argv(archive_path(state.name), false),
                        true,
                        ssh_argv(host, load_image_text()),
                        false,
                    )
                } else {
                    failed(state, Failure::CannotCopy, archive_path(state.name))
                },
                (Stage::Loading, EventView::Exited { code, output }) => if succeeded(code) {
                    next_host(state, None)
                } else {
                    failed(state, Failure::CannotLoadImage, Seq::empty())
                },
                _ => unexpected(state),
            }
        },
    }
}

/// Whether a backend deploy has not yet come to its first host: it is still
/// finding its hosts, fetching the project or checking it.
pub open spec fn before_first_host(stage: Stage) -> bool {
    stage == Stage::Start || stage == Stage::ReadingPhase || stage == Stage::Fetching || stage
        == Stage::ProbingBuildScript || stage == Stage::ReadingImageName || stage
        == Stage::ReadingCompose
}

/// A project that holds its build script goes on to be checked for its
/// image: nothing else is looked for in it, and the scripts of the develop
/// procedure are not asked of it.
pub proof fn build_script_is_the_only_script_looked_for(
    target: TargetView,
    source: SourceView,
    build_target: Option<Seq<char>>,
    state: ProgressView,
)
    requires
        state.stage == Stage::ProbingBuildScript,
        state.index < state.hosts.len(),
    ensures
        back_deploy_model(
            target,
            source,
            build_target,
            state,
            EventView::Probed { exists: true },
        ) == reading(state.at(Stage::ReadingImageName), image_name_path()),
{
}

/// Wherever a backend deploy stands and whatever it is told, the only file
/// that it asks to be looked for is the build script.
pub proof fn no_other_file_is_looked_for(
    target: TargetView,
    source: SourceView,
    build_target: Option<Seq<char>>,
    state: ProgressView,
    event: EventView,
)
    ensures
        ({
            let step = back_deploy_model(target, source, build_target, state, event);
            step.action matches ActionView::ProbeFile { path } ==> path == "deploy/build.sh"@
        }),
{
}

/// A docker compose file that does not name the image of the project ends
/// the deploy.
pub proof fn mismatch_ends_the_deploy(
    target: TargetView,
    source: SourceView,
    build_target: Option<Seq<char>>,
    state: ProgressView,
    compose: Seq<char>,
)
    requires
        state.stage == Stage::ReadingCompose,
        state.index < state.hosts.len(),
        is_word(Alphabet::Slug, state.name),
        !names_image(trimmed(compose), state.name),
    ensures
        back_deploy_model(
            target,
            source,
            build_target,
            state,
            EventView::File { content: Some(compose) },
        ) == failed(state, Failure::ImageNameMismatch, compose_path(build_target)),
{
    assert(in_alphabet(Alphabet::Slug, state.name[0]));
    assert(in_alphabet(Alphabet::Slug, state.name.last()));
    bare_text_is_trimmed_as_it_is(state.name);
}

/// The two files of a project are checked against each other as a whole:
/// reading the file that names the image and then the docker compose file
/// ends as the check of the two texts does. Where the check fails, the
/// deploy fails in the same way, on the file at fault; where it passes, the
/// project is built next, and the deploy keeps the name of the image and the
/// docker compose file pinned to the commit.
pub proof fn project_is_checked_as_a_whole(
    target: TargetView,
    source: SourceView,
    build_target: Option<Seq<char>>,
    state: ProgressView,
    image_name: Seq<char>,
    compose: Seq<char>,
)
    requires
        state.stage == Stage::ReadingImageName,
        state.index < state.hosts.len(),
    ensures
        ({
            let first = back_deploy_model(
                target,
                source,
                build_target,
                state,
                EventView::File { content: Some(image_name) },
            );
            let second = back_deploy_model(
                target,
                source,
                build_target,
                first.state,
                EventView::File { content: Some(compose) },
            );
            match checked_back_deploy(image_name, compose, target.release.commit_sha) {
                Ok((name, text)) => second == running_in_project(
                    ProgressView { name, text, ..state }.at(Stage::Building),
                    back_build_argv(target.release.commit_sha, build_target),
                ),
                Err(kind) => if kind == Failure::ImageNameMismatch {
                    second == failed(first.state, kind, compose_path(build_target))
                } else {
                    first == failed(state, kind, image_name_path())
                },
            }
        }),
{
    let name = trimmed(image_name);
    if is_word(Alphabet::Slug, name) {
        assert(in_alphabet(Alphabet::Slug, name[0]));
        assert(in_alphabet(Alphabet::Slug, name.last()));
        bare_text_is_trimmed_as_it_is(name);
    }
}

/// Until the project is checked no host is reached: whatever happens while
/// the deploy is finding its hosts, fetching or checking the project, what it
/// asks for next runs neither `ssh` nor `scp`. Nor does a deploy that has ended.
pub proof fn no_host_is_reached_before_the_project_is_checked(
    target: TargetView,
    source: SourceView,
    build_target: Option<Seq<char>>,
    state: ProgressView,
    event: EventView,
)
    requires
        before_first_host(state.stage) || state.stage == Stage::Done,
    ensures
        !reaches_host(back_deploy_model(target, source, build_target, state, event).action),
{
    reveal_strlit("ssh");
    reveal_strlit("scp");
    reveal_strlit("wget");
    reveal_strlit("bash");
    let step = back_deploy_model(target, source, build_target, state, event);
    match step.action {
        ActionView::Run { argv, .. } => {
            assert(argv[0] == "bash"@);
        },
        ActionView::Pipe { first, second, .. } => {
            assert(first[0] == "wget"@);
            reveal_strlit("tar");
            assert("tar"@[0] == 't');
        },
        _ => {},
    }
}

/// The next step of deploying the backend release of `target`, fetched from
/// `source` and built for `build_target`.
pub fn back_deploy(
    target: &Target,
    source: &Source,
    build_target: Option<&BuildTarget>,
    state: Progress,
    event: &Event,
) -> (r: Step)
    ensures
        r@ == back_deploy_model(target@, source@, optional_target(build_target), state@, event@),
{
    match state.stage {
        Stage::Start => {
            return read_phase(target, state);
        },
        Stage::ReadingPhase => {
            return match hosts_from(target, state, event, "No hosts to deploy!") {
                Ok(next) => fetch(target, source, next),
                Err(step) => step,
            };
        },
        _ => {},
    }
    if state.index >= state.hosts.len() {
        return state.fail_unexpected();
    }
    match (state.stage, event) {
        (Stage::Fetching, Event::Exited { code, output }) => {
            if has_succeeded(*code) {
                state.at(Stage::ProbingBuildScript).probe("deploy/build.sh")
            } else {
                state.fail_plainly(Failure::FetchFailed)
            }
        },
        (Stage::ProbingBuildScript, Event::Probed { exists }) => {
            if *exists {
                state.at(Stage::ReadingImageName).read("deploy/image-name.txt")
            } else {
                state.fail(Failure::MissingProjectFile, "deploy/build.sh")
            }
        },
        (Stage::ReadingImageName, Event::File { content }) => match content {
            None => state.fail(Failure::MissingProjectFile, "deploy/image-name.txt"),
            Some(text) => match read_image_name(text.as_str()) {
                Ok(name) => {
                    let file = compose_file_name(build_target);
                    let path = concat("deploy/", file.as_str());
                    state.named(String::from_str(name.as_ref())).at(Stage::ReadingCompose).read(
                        path.as_str(),
                    )
                },
                Err(_) => state.fail(Failure::IncorrectProjectFile, "deploy/image-name.txt"),
            },
        },
        (Stage::ReadingCompose, Event::File { content }) => {
            let file = compose_file_name(build_target);
            let path = concat("deploy/", file.as_str());
            match content {
                None => state.fail(Failure::MissingProjectFile, path.as_str()),
                Some(text) => {
                    match check_back_deploy(
                        state.name.as_str(),
                        text.as_str(),
                        &target.release.commit_sha,
                    ) {
                        Ok((name, compose)) => {
                            let argv = run_back_build(&target.release.commit_sha, build_target);
                            state.named(String::from_str(name.as_ref())).holding(compose).at(
                                Stage::Building,
                            ).run_in_project(argv)
                        },
                        Err(Failure::ImageNameMismatch) => state.fail(
                            Failure::ImageNameMismatch,
                            path.as_str(),
                        ),
                        Err(kind) => state.fail(kind, "deploy/image-name.txt"),
                    }
                },
            }
        },
        (Stage::Building, Event::Exited { code, output }) => {
            if has_succeeded(*code) {
                ask_home(state, None)
            } else {
                state.fail_plainly(Failure::BuildFailed)
            }
        },
        (Stage::AskingHome, _) => match home_from(state, event) {
            Ok(next) => make_directory(target, next),
            Err(step) => step,
        },
        (Stage::MakingDirectory, Event::Exited { code, output }) => {
            let dir = target.release.release_dir(state.home.as_str());
            if has_succeeded(*code) {
                let path = concat(dir.as_str(), "/docker-compose.yml");
                let text = concat("cat - > ", path.as_str());
                let argv = create_ssh_command(&state.hosts[state.index], text.as_str());
                let input = Input::Text(state.text.clone());
                state.at(Stage::WritingCompose).run_with_input(argv, input)
            } else {
                state.fail(Failure::CannotCreateDirectory, dir.as_str())
            }
        },
        (Stage::WritingCompose, Event::Exited { code, output }) => {
            if has_succeeded(*code) {
                let name = state.name.clone();
                copy(target, state, name.as_str())
            } else {
                let dir = target.release.release_dir(state.home.as_str());
                let path = concat(dir.as_str(), "/docker-compose.yml");
                state.fail(Failure::CannotWriteComposeFile, path.as_str())
            }
        },
        (Stage::Copying, Event::Exited { code, output }) => {
            let archive = local_archive(state.name.as_str());
            if has_succeeded(*code) {
                let first = unzstd_command(archive.as_str(), false);
                let second = create_ssh_command(&state.hosts[state.index], "docker image load");
                state.at(Stage::Loading).pipe(first, true, second, false)
            } else {
                state.fail(Failure::CannotCopy, archive.as_str())
            }
        },
        (Stage::Loading, Event::Exited { code, output }) => {
            if has_succeeded(*code) {
                go_on(state, None)
            } else {
                state.fail_plainly(Failure::CannotLoadImage)
            }
        },
        _ => state.fail_unexpected(),
    }
}

/// The procedure ends where it fails or succeeds, and only there; once it
/// has ended it asks for nothing more, whatever it is told.
pub proof fn procedure_ends_for_good(
    target: TargetView,
    source: SourceView,
    build_target: Option<Seq<char>>,
    state: ProgressView,
    event: EventView,
)
    ensures
        ({
            let step = back_deploy_model(target, source, build_target, state, event);
            (step.action is Fail || step.action is Succeed) <==> step.state.stage == Stage::Done
        }),
        state.stage == Stage::Done ==> back_deploy_model(
            target,
            source,
            build_target,
            state,
            event,
        ) == unexpected(state),
{
}

} // verus!
