//! The steps that the deploy procedures share: fetching the project, making
//! the directory of the release on a host, copying the archive there.

use crate::fetch::{
    archive_url, download_and_extract_archive, untar_argv, wget_argv, Source, SourceView,
};
use crate::fleet::{quoted_release_dir, quoted_release_path, Target, TargetView};
use crate::flow::{
    piping, running, ActionView, InputView, Progress, ProgressView, Stage, Step, StepView,
};
use crate::layout::release_dir;
use crate::remote::{
    create_scp_command, create_ssh_command, make_directory_command, make_directory_text, scp_argv,
    ssh_argv,
};
use crate::text::concat;
use vstd::prelude::*;
use vstd::string::*;

verus! {

/// The warning given where a project has no hosts to deploy to.
pub open spec fn no_hosts_to_deploy() -> Seq<char> {
    "No hosts to deploy!"@
}

/// Where the build leaves the archive named `name`, seen from the directory
/// of the project.
pub open spec fn archive_path(name: Seq<char>) -> Seq<char> {
    "deploy/"@ + name + ".tar.zst"@
}

/// Where the archive named `name` goes in the directory `dir` of a release.
pub open spec fn remote_archive_path(dir: Seq<char>, name: Seq<char>) -> Seq<char> {
    dir + "/"@ + name + ".tar.zst"@
}

/// The compressed archive of the commit is fetched and unpacked into the
/// directory of the project.
pub open spec fn fetching(target: TargetView, source: SourceView, state: ProgressView) -> StepView {
    piping(
        state.at(Stage::Fetching),
        wget_argv(
            archive_url(
                source.api_url_prefix,
                target.release.project_id,
                "archive"@,
                target.release.commit_sha,
            ),
            source.api_token,
            "-"@,
        ),
        false,
        untar_argv(),
        true,
    )
}

/// The directory of the release is made on the host under work.
pub open spec fn making_directory(target: TargetView, state: ProgressView) -> StepView {
    running(
        state.at(Stage::MakingDirectory),
        None,
        ssh_argv(
            state.hosts[state.index as int],
            make_directory_text(quoted_release_dir(target, state)),
        ),
        false,
    )
}

/// The archive named `name` is copied from the directory of the project
/// into the directory of the release on the host under work.
pub open spec fn copying(target: TargetView, state: ProgressView, name: Seq<char>) -> StepView {
    StepView {
        state: state.at(Stage::Copying),
        warning: None,
        action: ActionView::Run {
            argv: scp_argv(
                state.hosts[state.index as int],
                archive_path(name),
                remote_archive_path(release_dir(state.home, target.release), name),
            ),
            in_project: true,
            capture: false,
            input: InputView::Inherited,
        },
    }
}

/// Where the build leaves the archive named `name`.
pub fn local_archive(name: &str) -> (r: String)
    ensures
        r@ == archive_path(name@),
{
    let mut r = concat("deploy/", name);
    r.append(".tar.zst");
    r
}

/// Asks for the project to be fetched and unpacked.
pub fn fetch(target: &Target, source: &Source, state: Progress) -> (r: Step)
    ensures
        r@ == fetching(target@, source@, state@),
{
    let (first, second) = download_and_extract_archive(
        source,
        target.release.project_id,
        &target.release.commit_sha,
    );
    state.at(Stage::Fetching).pipe(first, false, second, true)
}

/// Asks for the directory of the release to be made on the host under work.
pub(crate) fn make_directory(target: &Target, state: Progress) -> (r: Step)
    requires
        state.index < state.hosts.len(),
    ensures
        r@ == making_directory(target@, state@),
{
    let dir = quoted_release_path(target, &state);
    let text = make_directory_command(dir.as_str());
    let argv = create_ssh_command(&state.hosts[state.index], text.as_str());
    state.at(Stage::MakingDirectory).run(None, argv, false)
}

/// Asks for the archive named `name` to be copied to the host under work.
pub(crate) fn copy(target: &Target, state: Progress, name: &str) -> (r: Step)
    requires
        state.index < state.hosts.len(),
    ensures
        r@ == copying(target@, state@, name@),
{
    let from = local_archive(name);
    let mut to = target.release.release_dir(state.home.as_str());
    to.append("/");
    to.append(name);
    to.append(".tar.zst");
    let argv = create_scp_command(&state.hosts[state.index], from.as_str(), to.as_str());
    state.at(Stage::Copying).run_in_project(argv)
}

} // verus!
