//! Bringing the working copy of a backend project on the development host
//! up to a reference, and starting its service there.
//!
//! Where the host holds the repository, the service is stopped, the
//! reference is checked out and pulled. Where it does not, the repository is
//! cloned and the reference checked out. Either way the project must hold its
//! two develop scripts, and the service is started with the first of them.

use crate::fleet::{ask_home_of, asking_home_of, home_from_host, home_read_of};
use crate::flow::{
    failed, finished, has_succeeded, running, succeeded, unexpected, Event, EventView, Failure,
    Progress, ProgressView, Stage, Step, StepView,
};
use crate::layout::{project_root, project_root_path};
use crate::names::Name;
use crate::remote::{
    check_exist, create_ssh_command, existence, ssh_argv, test_directory_command,
    test_directory_text, test_file_command, test_file_text,
};
use crate::ssh_url_prefix::SshUrlPrefix;
use crate::ssh_user_host::{HostSpec, SshUserHost};
use crate::text::{concat, debug_quoted, quote};
use vstd::prelude::*;
use vstd::string::*;

verus! {

/// What is to be brought up on the development host: the project, its path
/// on the repository host, the reference, the address under which the
/// repository host is reached over SSH, and the development host.
#[derive(Debug, Clone)]
pub struct BackDevelop {
    pub project_id: u64,
    pub project_name: Name,
    pub project_path: String,
    pub reference: String,
    pub ssh_url_prefix: SshUrlPrefix,
    pub host: SshUserHost,
}

/// What a [`BackDevelop`] stands for.
pub ghost struct BackDevelopView {
    pub project_id: u64,
    pub project_name: Seq<char>,
    pub project_path: Seq<char>,
    pub reference: Seq<char>,
    pub ssh_url_prefix: Seq<char>,
    pub host: HostSpec,
}

impl View for BackDevelop {
    type V = BackDevelopView;

    open spec fn view(&self) -> BackDevelopView {
        BackDevelopView {
            project_id: self.project_id,
            project_name: self.project_name@,
            project_path: self.project_path@,
            reference: self.reference@,
            ssh_url_prefix: self.ssh_url_prefix@,
            host: self.host@,
        }
    }
}

/// The address from which the repository is cloned.
pub open spec fn ssh_url(prefix: Seq<char>, project_path: Seq<char>) -> Seq<char> {
    prefix + "/"@ + project_path + ".git"@
}

/// Where the script that starts the service lies, seen from the project.
pub open spec fn up_script() -> Seq<char> {
    "deploy/develop-up.sh"@
}

/// Where the script that stops the service lies, seen from the project.
pub open spec fn down_script() -> Seq<char> {
    "deploy/develop-down.sh"@
}

/// The shell text that stops the service in the quoted directory `root`.
pub open spec fn stop_text(root: Seq<char>) -> Seq<char> {
    "cd "@ + root + " && bash 'deploy/develop-down.sh'"@
}

/// The shell text that starts the service in the quoted directory `root`.
pub open spec fn start_text(root: Seq<char>) -> Seq<char> {
    "cd "@ + root + " && bash 'deploy/develop-up.sh'"@
}

/// The shell text that checks the quoted reference out in the quoted
/// directory `root` and pulls it.
pub open spec fn pull_text(root: Seq<char>, reference: Seq<char>) -> Seq<char> {
    "cd "@ + root + " && git checkout "@ + reference + " && git pull origin "@ + reference
}

/// The shell text that clones the repository at the quoted address `url`
/// into the quoted directory `root` and checks the quoted reference out.
pub open spec fn clone_text(root: Seq<char>, url: Seq<char>, reference: Seq<char>) -> Seq<char> {
    "mkdir -p "@ + root + " && cd "@ + root + " && git clone --recursive "@ + url
        + " . && git checkout "@ + reference
}

/// The directory of the project on the development host.
pub open spec fn develop_root(request: BackDevelopView, state: ProgressView) -> Seq<char> {
    project_root(state.home, request.project_name, request.project_id)
}

/// The host is asked whether it holds the file `path` of the project; the
/// procedure then stands at `stage`.
pub open spec fn checking_file(
    request: BackDevelopView,
    state: ProgressView,
    stage: Stage,
    path: Seq<char>,
) -> StepView {
    running(
        state.at(stage),
        None,
        ssh_argv(
            request.host,
            test_file_text(debug_quoted(develop_root(request, state) + "/"@ + path)),
        ),
        true,
    )
}

/// What the host has answered about the file `path` of the project: the
/// step `then` where it holds the file, else a failure.
pub open spec fn file_checked(
    request: BackDevelopView,
    state: ProgressView,
    code: Option<i32>,
    path: Seq<char>,
    then: StepView,
) -> StepView {
    match existence(code) {
        Some(true) => then,
        Some(false) => failed(state, Failure::MissingProjectFile, path),
        None => failed(
            state,
            Failure::RemoteCheckFailed,
            develop_root(request, state) + "/"@ + path,
        ),
    }
}

/// What bringing the project up on the development host does next, from
/// where `state` stands and after `event`.
pub open spec fn back_develop_model(
    request: BackDevelopView,
    state: ProgressView,
    event: EventView,
) -> StepView {
    let root = develop_root(request, state);
    let quoted = debug_quoted(root);
    match (state.stage, event) {
        (Stage::Start, _) => asking_home_of(request.host, state),
        (Stage::AskingHome, _) => match home_read_of(request.host, state, event) {
            Ok(next) => running(
                next.at(Stage::CheckingRepository),
                None,
                ssh_argv(
                    request.host,
                    test_directory_text(debug_quoted(develop_root(request, next) + "/.git"@)),
                ),
                true,
            ),
            Err(step) => step,
        },
        (Stage::CheckingRepository, EventView::Exited { code, output }) => match existence(code) {
            Some(true) => checking_file(request, state, Stage::CheckingUpScriptFirst, up_script()),
            Some(false) => running(
                state.at(Stage::Cloning),
                None,
                ssh_argv(
                    request.host,
                    clone_text(
                        quoted,
                        debug_quoted(ssh_url(request.ssh_url_prefix, request.project_path)),
                        debug_quoted(request.reference),
                    ),
                ),
                false,
            ),
            None => failed(state, Failure::RemoteCheckFailed, root + "/.git"@),
        },
        (Stage::CheckingUpScriptFirst, EventView::Exited { code, output }) => file_checked(
            request,
            state,
            code,
            up_script(),
            checking_file(request, state, Stage::CheckingDownScriptFirst, down_script()),
        ),
        (Stage::CheckingDownScriptFirst, EventView::Exited { code, output }) => file_checked(
            request,
            state,
            code,
            down_script(),
            running(
                state.at(Stage::StoppingService),
                None,
                ssh_argv(request.host, stop_text(quoted)),
                false,
            ),
        ),
        (Stage::StoppingService, EventView::Exited { code, output }) => running(
            state.at(Stage::Pulling),
            None,
            ssh_argv(request.host, pull_text(quoted, debug_quoted(request.reference))),
            false,
        ),
        (Stage::Pulling, EventView::Exited { code, output }) => if succeeded(code) {
            checking_file(request, state, Stage::CheckingUpScript, up_script())
        } else {
            failed(state, Failure::CannotPull, request.reference)
        },
        (Stage::Cloning, EventView::Exited { code, output }) => if succeeded(code) {
            checking_file(request, state, Stage::CheckingUpScript, up_script())
        } else {
            failed(
                state,
                Failure::CannotClone,
                ssh_url(request.ssh_url_prefix, request.project_path),
            )
        },
        (Stage::CheckingUpScript, EventView::Exited { code, output }) => file_checked(
            request,
            state,
            code,
            up_script(),
            checking_file(request, state, Stage::CheckingDownScript, down_script()),
        ),
        (Stage::CheckingDownScript, EventView::Exited { code, output }) => file_checked(
            request,
            state,
            code,
            down_script(),
            running(
                state.at(Stage::StartingService),
                None,
                ssh_argv(request.host, start_text(quoted)),
                false,
            ),
        ),
        (Stage::StartingService, EventView::Exited { code, output }) => if succeeded(code) {
            finished(state, None)
        } else {
            failed(state, Failure::CannotStart, Seq::empty())
        },
        _ => unexpected(state),
    }
}

/// The address from which the repository is cloned.
pub fn clone_address(prefix: &str, project_path: &str) -> (r: String)
    ensures
        r@ == ssh_url(prefix@, project_path@),
{
    let mut r = concat(prefix, "/");
    r.append(project_path);
    r.append(".git");
    r
}

/// The shell text that checks `reference` out in `root` and pulls it.
pub fn pull_command(root: &str, reference: &str) -> (r: String)
    ensures
        r@ == pull_text(root@, reference@),
{
    let mut r = concat("cd ", root);
    r.append(" && git checkout ");
    r.append(reference);
    r.append(" && git pull origin ");
    r.append(reference);
    r
}

/// The shell text that clones the repository at `url` into `root` and checks
/// `reference` out.
pub fn clone_command(root: &str, url: &str, reference: &str) -> (r: String)
    ensures
        r@ == clone_text(root@, url@, reference@),
{
    let mut r = concat("mkdir -p ", root);
    r.append(" && cd ");
    r.append(root);
    r.append(" && git clone --recursive ");
    r.append(url);
    r.append(" . && git checkout ");
    r.append(reference);
    r
}

fn root_path(request: &BackDevelop, state: &Progress) -> (r: String)
    ensures
        r@ == develop_root(request@, state@),
{
    project_root_path(state.home.as_str(), &request.project_name, request.project_id)
}

/// Asks the development host whether it holds the file `path` of the
/// project.
pub fn check_back_deploy_via_ssh(
    request: &BackDevelop,
    state: Progress,
    stage: Stage,
    path: &str,
) -> (r: Step)
    ensures
        r@ == checking_file(request@, state@, stage, path@),
{
    let mut file = root_path(request, &state);
    file.append("/");
    file.append(path);
    let quoted = quote(file.as_str());
    let text = test_file_command(quoted.as_str());
    let argv = create_ssh_command(&request.host, text.as_str());
    state.at(stage).run(None, argv, true)
}

fn check_file(request: &BackDevelop, state: Progress, code: Option<i32>, path: &str) -> (r: Result<
    Progress,
    Step,
>)
    ensures
        match r {
            Ok(same) => same@ == state@ && existence(code) == Some(true),
            Err(step) => existence(code) != Some(true) && forall|then: StepView|
                step@ == #[trigger] file_checked(request@, state@, code, path@, then),
        },
{
    match check_exist(code) {
        Some(true) => Ok(state),
        Some(false) => Err(state.fail(Failure::MissingProjectFile, path)),
        None => {
            let mut file = root_path(request, &state);
            file.append("/");
            file.append(path);
            Err(state.fail(Failure::RemoteCheckFailed, file.as_str()))
        },
    }
}

/// The next step of bringing the project up on the development host.
pub fn back_develop(request: &BackDevelop, state: Progress, event: &Event) -> (r: Step)
    ensures
        r@ == back_develop_model(request@, state@, event@),
{
    match (state.stage, event) {
        (Stage::Start, _) => ask_home_of(&request.host, state),
        (Stage::AskingHome, _) => match home_from_host(&request.host, state, event) {
            Ok(next) => {
                let mut git = root_path(request, &next);
                git.append("/.git");
                let quoted = quote(git.as_str());
                let text = test_directory_command(quoted.as_str());
                let argv = create_ssh_command(&request.host, text.as_str());
                next.at(Stage::CheckingRepository).run(None, argv, true)
            },
            Err(step) => step,
        },
        (Stage::CheckingRepository, Event::Exited { code, output }) => {
            let root = root_path(request, &state);
            match check_exist(*code) {
                Some(true) => check_back_deploy_via_ssh(
                    request,
                    state,
                    Stage::CheckingUpScriptFirst,
                    "deploy/develop-up.sh",
                ),
                Some(false) => {
                    let quoted = quote(root.as_str());
                    let url = clone_address(
                        request.ssh_url_prefix.as_ref(),
                        request.project_path.as_str(),
                    );
                    let quoted_url = quote(url.as_str());
                    let reference = quote(request.reference.as_str());
                    let text = clone_command(
                        quoted.as_str(),
                        quoted_url.as_str(),
                        reference.as_str(),
                    );
                    let argv = create_ssh_command(&request.host, text.as_str());
                    state.at(Stage::Cloning).run(None, argv, false)
                },
                None => {
                    let git = concat(root.as_str(), "/.git");
                    state.fail(Failure::RemoteCheckFailed, git.as_str())
                },
            }
        },
        (Stage::CheckingUpScriptFirst, Event::Exited { code, output }) => {
            match check_file(request, state, *code, "deploy/develop-up.sh") {
                Ok(state) => check_back_deploy_via_ssh(
                    request,
                    state,
                    Stage::CheckingDownScriptFirst,
                    "deploy/develop-down.sh",
                ),
                Err(step) => step,
            }
        },
        (Stage::CheckingDownScriptFirst, Event::Exited { code, output }) => {
            match check_file(request, state, *code, "deploy/develop-down.sh") {
                Ok(state) => {
                    let root = root_path(request, &state);
                    let quoted = quote(root.as_str());
                    let text = concat(quoted.as_str(), " && bash 'deploy/develop-down.sh'");
                    let text = concat("cd ", text.as_str());
                    let argv = create_ssh_command(&request.host, text.as_str());
                    proof {
                        assert(text@ =~= stop_text(quoted@));
                    }
                    state.at(Stage::StoppingService).run(None, argv, false)
                },
                Err(step) => step,
            }
        },
        (Stage::StoppingService, Event::Exited { code, output }) => {
            let root = root_path(request, &state);
            let quoted = quote(root.as_str());
            let reference = quote(request.reference.as_str());
            let text = pull_command(quoted.as_str(), reference.as_str());
            let argv = create_ssh_command(&request.host, text.as_str());
            state.at(Stage::Pulling).run(None, argv, false)
        },
        (Stage::Pulling, Event::Exited { code, output }) => {
            if has_succeeded(*code) {
                check_back_deploy_via_ssh(
                    request,
                    state,
                    Stage::CheckingUpScript,
                    "deploy/develop-up.sh",
                )
            } else {
                state.fail(Failure::CannotPull, request.reference.as_str())
            }
        },
        (Stage::Cloning, Event::Exited { code, output }) => {
            if has_succeeded(*code) {
                check_back_deploy_via_ssh(
                    request,
                    state,
                    Stage::CheckingUpScript,
                    "deploy/develop-up.sh",
                )
            } else {
                let url = clone_address(
                    request.ssh_url_prefix.as_ref(),
                    request.project_path.as_str(),
                );
                state.fail(Failure::CannotClone, url.as_str())
            }
        },
        (Stage::CheckingUpScript, Event::Exited { code, output }) => {
            match check_file(request, state, *code, "deploy/develop-up.sh") {
                Ok(state) => check_back_deploy_via_ssh(
                    request,
                    state,
                    Stage::CheckingDownScript,
                    "deploy/develop-down.sh",
                ),
                Err(step) => step,
            }
        },
        (Stage::CheckingDownScript, Event::Exited { code, output }) => {
            match check_file(request, state, *code, "deploy/develop-down.sh") {
                Ok(state) => {
                    let root = root_path(request, &state);
                    let quoted = quote(root.as_str());
                    let text = concat(quoted.as_str(), " && bash 'deploy/develop-up.sh'");
                    let text = concat("cd ", text.as_str());
                    let argv = create_ssh_command(&request.host, text.as_str());
                    proof {
                        assert(text@ =~= start_text(quoted@));
                    }
                    state.at(Stage::StartingService).run(None, argv, false)
                },
                Err(step) => step,
            }
        },
        (Stage::StartingService, Event::Exited { code, output }) => {
            if has_succeeded(*code) {
                state.finish(None)
            } else {
                state.fail_plainly(Failure::CannotStart)
            }
        },
        _ => state.fail_unexpected(),
    }
}

/// The procedure ends where it fails or succeeds, and only there; once it
/// has ended it asks for nothing more, whatever it is told.
pub proof fn procedure_ends_for_good(
    request: BackDevelopView,
    state: ProgressView,
    event: EventView,
)
    ensures
        ({
            let step = back_develop_model(request, state, event);
            (step.action is Fail || step.action is Succeed) <==> step.state.stage == Stage::Done
        }),
        state.stage == Stage::Done ==> back_develop_model(
            request,
            state,
            event,
        ) == unexpected(state),
{
}

} // verus!
