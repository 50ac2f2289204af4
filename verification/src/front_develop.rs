//! Building a frontend project and serving its public files from the
//! development host.
//!
//! The project is fetched, checked and built as for a deploy. On the host the
//! directory from which the files are served is emptied and made anew, the
//! archive of the public files is unpacked straight into it, and the files
//! are listed; a listing that fails is warned of and no more.

use crate::compose::check_front_deploy;
use crate::deploy::{archive_path, local_archive};
use crate::fetch::{
    archive_url, download_and_extract_archive, front_build_argv, run_front_build, untar_argv,
    unzstd_argv, unzstd_command, wget_argv, Source, SourceView,
};
use crate::fleet::{ask_home_of, asking_home_of, home_from_host, home_read_of};
use crate::flow::{
    failed, finished, has_succeeded, piping, probing, reading, running, running_in_project,
    succeeded, unexpected, Event, EventView, Failure, Progress, ProgressView, Stage, Step,
    StepView,
};
use crate::front_control::not_listed;
use crate::layout::{html_dir, html_path, public_root, public_root_path};
use crate::names::{is_word, Alphabet, BuildTarget, CommitSha};
use crate::remote::{create_ssh_command, list_command, list_text, ssh_argv};
use crate::ssh_user_host::{HostSpec, SshUserHost};
use crate::text::{concat, debug_quoted, quote, trimmed};
use vstd::prelude::*;
use vstd::string::*;

verus! {

/// What is to be served from the development host: the commit of the
/// project, the target of its build, where it is fetched from, and the host.
#[derive(Debug, Clone)]
pub struct FrontDevelop {
    pub project_id: u64,
    pub commit_sha: CommitSha,
    pub build_target: BuildTarget,
    pub source: Source,
    pub host: SshUserHost,
}

/// What a [`FrontDevelop`] stands for.
pub ghost struct FrontDevelopView {
    pub project_id: u64,
    pub commit_sha: Seq<char>,
    pub build_target: Seq<char>,
    pub source: SourceView,
    pub host: HostSpec,
}

impl View for FrontDevelop {
    type V = FrontDevelopView;

    open spec fn view(&self) -> FrontDevelopView {
        FrontDevelopView {
            project_id: self.project_id,
            commit_sha: self.commit_sha@,
            build_target: self.build_target@,
            source: self.source@,
            host: self.host@,
        }
    }
}

/// The shell text that makes the quoted directory `root` and, empty, the
/// quoted directory `html` in it.
pub open spec fn prepare_text(root: Seq<char>, html: Seq<char>) -> Seq<char> {
    "mkdir -p "@ + root + " && ((test -d "@ + html + " && rm -r "@ + html
        + ") || true) && mkdir -p "@ + html
}

/// The shell text that unpacks the archive that it reads into the quoted
/// directory `html`.
pub open spec fn extract_text(html: Seq<char>) -> Seq<char> {
    "tar -xf - -C "@ + html
}

/// What serving the project from the development host does next, from where
/// `state` stands and after `event`.
pub open spec fn front_develop_model(
    request: FrontDevelopView,
    state: ProgressView,
    event: EventView,
) -> StepView {
    let html = html_dir(state.home, state.name);
    match (state.stage, event) {
        (Stage::Start, _) => piping(
            state.at(Stage::Fetching),
            wget_argv(
                archive_url(
                    request.source.api_url_prefix,
                    request.project_id,
                    "archive"@,
                    request.commit_sha,
                ),
                request.source.api_token,
                "-"@,
            ),
            false,
            untar_argv(),
            true,
        ),
        (Stage::Fetching, EventView::Exited { code, output }) => if succeeded(code) {
            probing(state.at(Stage::ProbingBuildScript), "deploy/build.sh"@)
        } else {
            failed(state, Failure::FetchFailed, Seq::empty())
        },
        (Stage::ProbingBuildScript, EventView::Probed { exists }) => if exists {
            reading(state.at(Stage::ReadingPublicName), "deploy/public-name.txt"@)
        } else {
            failed(state, Failure::MissingProjectFile, "deploy/build.sh"@)
        },
        (Stage::ReadingPublicName, EventView::File { content }) => match content {
            None => failed(state, Failure::MissingProjectFile, "deploy/public-name.txt"@),
            Some(text) => if is_word(Alphabet::Name, trimmed(text)) {
                running_in_project(
                    ProgressView { name: trimmed(text), ..state }.at(Stage::Building),
                    front_build_argv(request.build_target),
                )
            } else {
                failed(state, Failure::IncorrectProjectFile, "deploy/public-name.txt"@)
            },
        },
        (Stage::Building, EventView::Exited { code, output }) => if succeeded(code) {
            asking_home_of(request.host, state)
        } else {
            failed(state, Failure::BuildFailed, Seq::empty())
        },
        (Stage::AskingHome, _) => match home_read_of(request.host, state, event) {
            Ok(next) => running(
                next.at(Stage::MakingDirectory),
                None,
                ssh_argv(
                    request.host,
                    prepare_text(
                        debug_quoted(public_root(next.home, next.name)),
                        debug_quoted(html_dir(next.home, next.name)),
                    ),
                ),
                false,
            ),
            Err(step) => step,
        },
        (Stage::MakingDirectory, EventView::Exited { code, output }) => if succeeded(code) {
            piping(
                state.at(Stage::Unpacking),
                unzstd_argv(archive_path(state.name), true),
                true,
                ssh_argv(request.host, extract_text(debug_quoted(html))),
                false,
            )
        } else {
            failed(state, Failure::CannotCreateDirectory, html)
        },
        (Stage::Unpacking, EventView::Exited { code, output }) => if succeeded(code) {
            running(
                state.at(Stage::Listing),
                None,
                ssh_argv(request.host, list_text(debug_quoted(html))),
                false,
            )
        } else {
            failed(state, Failure::ExtractFailed, Seq::empty())
        },
        (Stage::Listing, EventView::Exited { code, output }) => finished(
            state,
            if succeeded(code) {
                None
            } else {
                Some(not_listed())
            },
        ),
        _ => unexpected(state),
    }
}

/// The shell text that makes `root` and, empty, `html` in it.
pub fn prepare_command(root: &str, html: &str) -> (r: String)
    ensures
        r@ == prepare_text(root@, html@),
{
    let mut r = concat("mkdir -p ", root);
    r.append(" && ((test -d ");
    r.append(html);
    r.append(" && rm -r ");
    r.append(html);
    r.append(") || true) && mkdir -p ");
    r.append(html);
    r
}

/// The next step of serving the project from the development host.
pub fn front_develop(request: &FrontDevelop, state: Progress, event: &Event) -> (r: Step)
    ensures
        r@ == front_develop_model(request@, state@, event@),
{
    match (state.stage, event) {
        (Stage::Start, _) => {
            let (first, second) = download_and_extract_archive(
                &request.source,
                request.project_id,
                &request.commit_sha,
            );
            state.at(Stage::Fetching).pipe(first, false, second, true)
        },
        (Stage::Fetching, Event::Exited { code, output }) => {
            if has_succeeded(*code) {
                state.at(Stage::ProbingBuildScript).probe("deploy/build.sh")
            } else {
                state.fail_plainly(Failure::FetchFailed)
            }
        },
        (Stage::ProbingBuildScript, Event::Probed { exists }) => {
            if *exists {
                state.at(Stage::ReadingPublicName).read("deploy/public-name.txt")
            } else {
                state.fail(Failure::MissingProjectFile, "deploy/build.sh")
            }
        },
        (Stage::ReadingPublicName, Event::File { content }) => match content {
            None => state.fail(Failure::MissingProjectFile, "deploy/public-name.txt"),
            Some(text) => match check_front_deploy(text.as_str()) {
                Ok(name) => {
                    let argv = run_front_build(&request.build_target);
                    state.named(String::from_str(name.as_ref())).at(
                        Stage::Building,
                    ).run_in_project(argv)
                },
                Err(_) => state.fail(Failure::IncorrectProjectFile, "deploy/public-name.txt"),
            },
        },
        (Stage::Building, Event::Exited { code, output }) => {
            if has_succeeded(*code) {
                ask_home_of(&request.host, state)
            } else {
                state.fail_plainly(Failure::BuildFailed)
            }
        },
        (Stage::AskingHome, _) => match home_from_host(&request.host, state, event) {
            Ok(next) => {
                let root = public_root_path(next.home.as_str(), next.name.as_str());
                let html = html_path(next.home.as_str(), next.name.as_str());
                let quoted_root = quote(root.as_str());
                let quoted_html = quote(html.as_str());
                let text = prepare_command(quoted_root.as_str(), quoted_html.as_str());
                let argv = create_ssh_command(&request.host, text.as_str());
                next.at(Stage::MakingDirectory).run(None, argv, false)
            },
            Err(step) => step,
        },
        (Stage::MakingDirectory, Event::Exited { code, output }) => {
            let html = html_path(state.home.as_str(), state.name.as_str());
            if has_succeeded(*code) {
                let archive = local_archive(state.name.as_str());
                let first = unzstd_command(archive.as_str(), true);
                let quoted_html = quote(html.as_str());
                let text = concat("tar -xf - -C ", quoted_html.as_str());
                let second = create_ssh_command(&request.host, text.as_str());
                state.at(Stage::Unpacking).pipe(first, true, second, false)
            } else {
                state.fail(Failure::CannotCreateDirectory, html.as_str())
            }
        },
        (Stage::Unpacking, Event::Exited { code, output }) => {
            if has_succeeded(*code) {
                let html = html_path(state.home.as_str(), state.name.as_str());
                let quoted_html = quote(html.as_str());
                let text = list_command(quoted_html.as_str());
                let argv = create_ssh_command(&request.host, text.as_str());
                state.at(Stage::Listing).run(None, argv, false)
            } else {
                state.fail_plainly(Failure::ExtractFailed)
            }
        },
        (Stage::Listing, Event::Exited { code, output }) => {
            let warning = if has_succeeded(*code) {
                None
            } else {
                Some(String::from_str("The public static files cannot be listed"))
            };
            state.finish(warning)
        },
        _ => state.fail_unexpected(),
    }
}

/// The procedure ends where it fails or succeeds, and only there; once it
/// has ended it asks for nothing more, whatever it is told.
pub proof fn procedure_ends_for_good(
    request: FrontDevelopView,
    state: ProgressView,
    event: EventView,
)
    ensures
        ({
            let step = front_develop_model(request, state, event);
            (step.action is Fail || step.action is Succeed) <==> step.state.stage == Stage::Done
        }),
        state.stage == Stage::Done ==> front_develop_model(
            request,
            state,
            event,
        ) == unexpected(state),
{
}

} // verus!
