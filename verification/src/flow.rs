//! What a procedure and its caller say to each other.
//!
//! A procedure of this library does no work outside the process. It is a
//! function from where it stands and what just happened to where it stands
//! next and what is to be done: the caller does that, and comes back with
//! what happened.

use crate::phase_file::{host_specs, texts, PhaseError, PhaseErrorView};
use crate::ssh_user_host::{HostSpec, SshUserHost};
use vstd::prelude::*;
use vstd::string::*;

verus! {

/// The step of a procedure that is under way.
#[derive(Debug, Clone, Copy, PartialEq, Eq, Structural)]
pub enum Stage {
    /// Nothing was done yet.
    Start,
    /// The phase file is being read.
    ReadingPhase,
    /// The project is being fetched.
    Fetching,
    /// `deploy/build.sh` is being looked for.
    ProbingBuildScript,
    /// `deploy/public-name.txt` is being read.
    ReadingPublicName,
    /// `deploy/image-name.txt` is being read.
    ReadingImageName,
    /// The docker compose file is being read.
    ReadingCompose,
    /// The project is being built.
    Building,
    /// The host is asked for its home directory.
    AskingHome,
    /// The directory of the release is being made on the host.
    MakingDirectory,
    /// The docker compose file is being written on the host.
    WritingCompose,
    /// The archive is being copied to the host.
    Copying,
    /// The docker image is being loaded on the host.
    Loading,
    /// The archive is being unpacked on the host.
    Unpacking,
    /// The host is asked which release was started last.
    ReadingLastUp,
    /// The release that was started last is being shut down.
    ShuttingDown,
    /// The command is being carried out.
    Controlling,
    /// The release is being noted as the one started last.
    Marking,
    /// The command is being written to the control log.
    Recording,
    /// The archive of the release is being looked for on the host.
    FindingArchive,
    /// The public files are being put in place.
    Applying,
    /// The public files are being listed.
    Listing,
    /// The host is asked whether it holds the repository.
    CheckingRepository,
    /// The host is asked for `deploy/develop-up.sh`, before the service stops.
    CheckingUpScriptFirst,
    /// The host is asked for `deploy/develop-down.sh`, before the service stops.
    CheckingDownScriptFirst,
    /// The service is being stopped.
    StoppingService,
    /// The branch is being pulled.
    Pulling,
    /// The repository is being cloned.
    Cloning,
    /// The host is asked for `deploy/develop-up.sh`.
    CheckingUpScript,
    /// The host is asked for `deploy/develop-down.sh`.
    CheckingDownScript,
    /// The service is being started.
    StartingService,
    /// The procedure has ended.
    Done,
}

/// What can go wrong on the way.
#[derive(Debug, Clone, Copy, PartialEq, Eq, Structural)]
pub enum Failure {
    /// The caller came back with something that was not asked for.
    UnexpectedEvent,
    /// The home directory of the host is not known.
    CannotGetHome,
    /// Whether the path exists on the host could not be found out.
    RemoteCheckFailed,
    /// The project lacks the file.
    MissingProjectFile,
    /// The file of the project does not hold what it should.
    IncorrectProjectFile,
    /// The docker compose file names no image as the image name file does.
    ImageNameMismatch,
    /// The project could not be fetched.
    FetchFailed,
    /// The build failed.
    BuildFailed,
    /// The directory could not be made on the host.
    CannotCreateDirectory,
    /// The docker compose file could not be written on the host.
    CannotWriteComposeFile,
    /// The archive could not be copied to the host.
    CannotCopy,
    /// The docker image could not be loaded on the host.
    CannotLoadImage,
    /// The archive could not be unpacked on the host.
    CannotUnpack,
    /// The release holds no archive.
    ArchiveNotFound,
    /// The public files could not be put in place.
    CannotApply,
    /// The command failed.
    ControlFailed,
    /// The branch could not be checked out and pulled.
    CannotPull,
    /// The repository could not be cloned.
    CannotClone,
    /// The service could not be started.
    CannotStart,
    /// The public files could not be extracted.
    ExtractFailed,
}

/// Why a procedure ended without success.
#[derive(Debug, Clone, PartialEq, Eq)]
pub enum FlowError {
    /// The hosts of the project could not be found.
    Phase(PhaseError),
    /// A step failed; `subject` is the path, host or reference it was about.
    Step { kind: Failure, subject: String },
}

/// What a [`FlowError`] stands for.
pub ghost enum FlowErrorView {
    Phase(PhaseErrorView),
    Step { kind: Failure, subject: Seq<char> },
}

impl View for FlowError {
    type V = FlowErrorView;

    open spec fn view(&self) -> FlowErrorView {
        match self {
            FlowError::Phase(e) => FlowErrorView::Phase(e@),
            FlowError::Step { kind, subject } => FlowErrorView::Step {
                kind: *kind,
                subject: subject@,
            },
        }
    }
}

/// The kinds of error, by where they arise.
#[derive(Debug, Clone, Copy, PartialEq, Eq, Structural)]
pub enum ErrorClass {
    /// The phase file breaks its grammar.
    ConfigParse,
    /// The phase or the project in it is not there.
    Resolution,
    /// A program ended with another exit code than 0, or by a signal.
    RemoteExecution,
    /// The project lacks a file, or its files do not fit each other.
    ArtifactValidation,
    /// Something could not be fetched, copied or unpacked.
    Transfer,
    /// The caller did not keep to the order of the procedure.
    Protocol,
}

/// The class of a failure.
pub open spec fn failure_class(kind: Failure) -> ErrorClass {
    match kind {
        Failure::UnexpectedEvent => ErrorClass::Protocol,
        Failure::MissingProjectFile | Failure::IncorrectProjectFile | Failure::ImageNameMismatch
        | Failure::ArchiveNotFound => ErrorClass::ArtifactValidation,
        Failure::FetchFailed | Failure::CannotWriteComposeFile | Failure::CannotCopy
        | Failure::CannotLoadImage | Failure::CannotUnpack | Failure::ExtractFailed => {
            ErrorClass::Transfer
        },
        _ => ErrorClass::RemoteExecution,
    }
}

/// The class of an error of the phase file.
pub open spec fn phase_error_class(error: PhaseErrorView) -> ErrorClass {
    match error {
        PhaseErrorView::PhaseNotFound | PhaseErrorView::ProjectNotConfiguredForPhase => {
            ErrorClass::Resolution
        },
        _ => ErrorClass::ConfigParse,
    }
}

/// The class of an error.
pub open spec fn error_class(error: FlowErrorView) -> ErrorClass {
    match error {
        FlowErrorView::Phase(e) => phase_error_class(e),
        FlowErrorView::Step { kind, .. } => failure_class(kind),
    }
}

impl FlowError {
    /// The class of the error.
    pub fn class(&self) -> (r: ErrorClass)
        ensures
            r == error_class(self@),
    {
        match self {
            FlowError::Phase(e) => match e {
                PhaseError::PhaseNotFound | PhaseError::ProjectNotConfiguredForPhase => {
                    ErrorClass::Resolution
                },
                _ => ErrorClass::ConfigParse,
            },
            FlowError::Step { kind, .. } => match kind {
                Failure::UnexpectedEvent => ErrorClass::Protocol,
                Failure::MissingProjectFile
                | Failure::IncorrectProjectFile
                | Failure::ImageNameMismatch
                | Failure::ArchiveNotFound => ErrorClass::ArtifactValidation,
                Failure::FetchFailed
                | Failure::CannotWriteComposeFile
                | Failure::CannotCopy
                | Failure::CannotLoadImage
                | Failure::CannotUnpack
                | Failure::ExtractFailed => ErrorClass::Transfer,
                _ => ErrorClass::RemoteExecution,
            },
        }
    }
}

/// What a process reads.
#[derive(Debug, Clone, PartialEq, Eq)]
pub enum Input {
    /// What the caller's own process reads.
    Inherited,
    /// The text.
    Text(String),
    /// The file at the path, which lies in the directory of the project.
    File(String),
}

/// What an [`Input`] stands for.
pub ghost enum InputView {
    Inherited,
    Text(Seq<char>),
    File(Seq<char>),
}

impl View for Input {
    type V = InputView;

    open spec fn view(&self) -> InputView {
        match self {
            Input::Inherited => InputView::Inherited,
            Input::Text(s) => InputView::Text(s@),
            Input::File(s) => InputView::File(s@),
        }
    }
}

/// What the caller is to do next.
#[derive(Debug, Clone, PartialEq, Eq)]
pub enum Action {
    /// Read the text of the file at `path`; a path that does not start at
    /// the root lies in the directory of the project.
    ReadFile { path: String },
    /// Find out whether the directory of the project holds a file at `path`.
    ProbeFile { path: String },
    /// Run the program `argv[0]` with the arguments that follow it and wait
    /// for its end. `in_project`: in the directory of the project.
    /// `capture`: collect what it writes, to hand it back.
    Run { argv: Vec<String>, in_project: bool, capture: bool, input: Input },
    /// Run the two programs, the second reading what the first writes, and
    /// wait for the end of the second.
    Pipe {
        first: Vec<String>,
        first_in_project: bool,
        second: Vec<String>,
        second_in_project: bool,
    },
    /// Nothing: the procedure has ended well.
    Succeed,
    /// Nothing: the procedure has failed.
    Fail { error: FlowError },
}

/// What an [`Action`] stands for.
pub ghost enum ActionView {
    ReadFile { path: Seq<char> },
    ProbeFile { path: Seq<char> },
    Run { argv: Seq<Seq<char>>, in_project: bool, capture: bool, input: InputView },
    Pipe {
        first: Seq<Seq<char>>,
        first_in_project: bool,
        second: Seq<Seq<char>>,
        second_in_project: bool,
    },
    Succeed,
    Fail { error: FlowErrorView },
}

impl View for Action {
    type V = ActionView;

    open spec fn view(&self) -> ActionView {
        match self {
            Action::ReadFile { path } => ActionView::ReadFile { path: path@ },
            Action::ProbeFile { path } => ActionView::ProbeFile { path: path@ },
            Action::Run { argv, in_project, capture, input } => ActionView::Run {
                argv: texts(argv@),
                in_project: *in_project,
                capture: *capture,
                input: input@,
            },
            Action::Pipe { first, first_in_project, second, second_in_project } => {
                ActionView::Pipe {
                    first: texts(first@),
                    first_in_project: *first_in_project,
                    second: texts(second@),
                    second_in_project: *second_in_project,
                }
            },
            Action::Succeed => ActionView::Succeed,
            Action::Fail { error } => ActionView::Fail { error: error@ },
        }
    }
}

/// What happened when the caller did what it was asked to.
#[derive(Debug, Clone, PartialEq, Eq)]
pub enum Event {
    /// Nothing yet: the procedure begins.
    Begin,
    /// The file was read, or there is no such file.
    File { content: Option<String> },
    /// The file was looked for.
    Probed { exists: bool },
    /// The program, or the second of two, ended with the exit code `code`
    /// (none where a signal ended it) after writing `output`, which is empty
    /// where nothing was to be collected.
    Exited { code: Option<i32>, output: String },
}

/// What an [`Event`] stands for.
pub ghost enum EventView {
    Begin,
    File { content: Option<Seq<char>> },
    Probed { exists: bool },
    Exited { code: Option<i32>, output: Seq<char> },
}

impl View for Event {
    type V = EventView;

    open spec fn view(&self) -> EventView {
        match self {
            Event::Begin => EventView::Begin,
            Event::File { content } => EventView::File {
                content: match content {
                    Some(s) => Some(s@),
                    None => None,
                },
            },
            Event::Probed { exists } => EventView::Probed { exists: *exists },
            Event::Exited { code, output } => EventView::Exited { code: *code, output: output@ },
        }
    }
}

/// Where a procedure stands.
#[derive(Debug, Clone, PartialEq, Eq)]
pub struct Progress {
    /// The step under way.
    pub stage: Stage,
    /// The hosts of the project.
    pub hosts: Vec<SshUserHost>,
    /// Which of the hosts is being worked on.
    pub index: usize,
    /// The home directory on that host.
    pub home: String,
    /// A name found on the way: of the image, of the public files, or of the
    /// release that was started last.
    pub name: String,
    /// A text found on the way: the docker compose file.
    pub text: String,
}

/// What a [`Progress`] stands for.
pub ghost struct ProgressView {
    pub stage: Stage,
    pub hosts: Seq<HostSpec>,
    pub index: nat,
    pub home: Seq<char>,
    pub name: Seq<char>,
    pub text: Seq<char>,
}

impl View for Progress {
    type V = ProgressView;

    open spec fn view(&self) -> ProgressView {
        ProgressView {
            stage: self.stage,
            hosts: host_specs(self.hosts@),
            index: self.index as nat,
            home: self.home@,
            name: self.name@,
            text: self.text@,
        }
    }
}

impl ProgressView {
    /// The same, at another step.
    pub open spec fn at(self, stage: Stage) -> ProgressView {
        ProgressView { stage, ..self }
    }
}

/// The answer of a procedure: where it stands now, what the caller should
/// warn of, and what the caller is to do next.
#[derive(Debug, Clone, PartialEq, Eq)]
pub struct Step {
    pub state: Progress,
    pub warning: Option<String>,
    pub action: Action,
}

/// What a [`Step`] stands for.
pub ghost struct StepView {
    pub state: ProgressView,
    pub warning: Option<Seq<char>>,
    pub action: ActionView,
}

impl View for Step {
    type V = StepView;

    open spec fn view(&self) -> StepView {
        StepView {
            state: self.state@,
            warning: match self.warning {
                Some(s) => Some(s@),
                None => None,
            },
            action: self.action@,
        }
    }
}

/// Whether a program ended well: with the exit code 0.
pub open spec fn succeeded(code: Option<i32>) -> bool {
    code == Some(0i32)
}

/// Decides [`succeeded`].
pub fn has_succeeded(code: Option<i32>) -> (r: bool)
    ensures
        r == succeeded(code),
{
    match code {
        Some(c) => c == 0,
        None => false,
    }
}

/// The end of a procedure that has failed.
pub open spec fn failed(state: ProgressView, kind: Failure, subject: Seq<char>) -> StepView {
    StepView {
        state: state.at(Stage::Done),
        warning: None,
        action: ActionView::Fail { error: FlowErrorView::Step { kind, subject } },
    }
}

/// The end of a procedure whose caller came back with something that was
/// not asked for.
pub open spec fn unexpected(state: ProgressView) -> StepView {
    failed(state, Failure::UnexpectedEvent, Seq::empty())
}

/// The end of a procedure for want of hosts.
pub open spec fn failed_for_phase(state: ProgressView, error: PhaseErrorView) -> StepView {
    StepView {
        state: state.at(Stage::Done),
        warning: None,
        action: ActionView::Fail { error: FlowErrorView::Phase(error) },
    }
}

/// The end of a procedure that has done its work.
pub open spec fn finished(state: ProgressView, warning: Option<Seq<char>>) -> StepView {
    StepView { state: state.at(Stage::Done), warning, action: ActionView::Succeed }
}

/// One program to run outside the directory of the project, reading what the
/// caller reads.
pub open spec fn running(
    state: ProgressView,
    warning: Option<Seq<char>>,
    argv: Seq<Seq<char>>,
    capture: bool,
) -> StepView {
    StepView {
        state,
        warning,
        action: ActionView::Run { argv, in_project: false, capture, input: InputView::Inherited },
    }
}

/// One program to run in the directory of the project.
pub open spec fn running_in_project(state: ProgressView, argv: Seq<Seq<char>>) -> StepView {
    StepView {
        state,
        warning: None,
        action: ActionView::Run {
            argv,
            in_project: true,
            capture: false,
            input: InputView::Inherited,
        },
    }
}

/// One program to run outside the directory of the project, reading `input`.
pub open spec fn running_with_input(
    state: ProgressView,
    argv: Seq<Seq<char>>,
    input: InputView,
) -> StepView {
    StepView {
        state,
        warning: None,
        action: ActionView::Run { argv, in_project: false, capture: false, input },
    }
}

/// Two programs to run, the second reading what the first writes.
pub open spec fn piping(
    state: ProgressView,
    first: Seq<Seq<char>>,
    first_in_project: bool,
    second: Seq<Seq<char>>,
    second_in_project: bool,
) -> StepView {
    StepView {
        state,
        warning: None,
        action: ActionView::Pipe { first, first_in_project, second, second_in_project },
    }
}

/// A file of the project to look for.
pub open spec fn probing(state: ProgressView, path: Seq<char>) -> StepView {
    StepView { state, warning: None, action: ActionView::ProbeFile { path } }
}

/// A file to read.
pub open spec fn reading(state: ProgressView, path: Seq<char>) -> StepView {
    StepView { state, warning: None, action: ActionView::ReadFile { path } }
}

impl Progress {
    /// Asks for one program to be run in the directory of the project.
    pub fn run_in_project(self, argv: Vec<String>) -> (r: Step)
        ensures
            r@ == running_in_project(self@, texts(argv@)),
    {
        Step {
            state: self,
            warning: None,
            action: Action::Run { argv, in_project: true, capture: false, input: Input::Inherited },
        }
    }

    /// Asks for one program to be run that reads `input`.
    pub fn run_with_input(self, argv: Vec<String>, input: Input) -> (r: Step)
        ensures
            r@ == running_with_input(self@, texts(argv@), input@),
    {
        Step {
            state: self,
            warning: None,
            action: Action::Run { argv, in_project: false, capture: false, input },
        }
    }

    /// Asks for two programs to be run, the second reading what the first
    /// writes.
    pub fn pipe(
        self,
        first: Vec<String>,
        first_in_project: bool,
        second: Vec<String>,
        second_in_project: bool,
    ) -> (r: Step)
        ensures
            r@ == piping(self@, texts(first@), first_in_project, texts(second@), second_in_project),
    {
        Step {
            state: self,
            warning: None,
            action: Action::Pipe { first, first_in_project, second, second_in_project },
        }
    }

    /// Asks whether the project holds a file.
    pub fn probe(self, path: &str) -> (r: Step)
        ensures
            r@ == probing(self@, path@),
    {
        Step {
            state: self,
            warning: None,
            action: Action::ProbeFile { path: String::from_str(path) },
        }
    }

    /// Asks for the text of a file.
    pub fn read(self, path: &str) -> (r: Step)
        ensures
            r@ == reading(self@, path@),
    {
        Step {
            state: self,
            warning: None,
            action: Action::ReadFile { path: String::from_str(path) },
        }
    }

    /// The same, with another name kept.
    pub fn named(self, name: String) -> (r: Progress)
        ensures
            r@ == (ProgressView { name: name@, ..self@ }),
    {
        Progress {
            stage: self.stage,
            hosts: self.hosts,
            index: self.index,
            home: self.home,
            name,
            text: self.text,
        }
    }

    /// The same, with another text kept.
    pub fn holding(self, text: String) -> (r: Progress)
        ensures
            r@ == (ProgressView { text: text@, ..self@ }),
    {
        Progress {
            stage: self.stage,
            hosts: self.hosts,
            index: self.index,
            home: self.home,
            name: self.name,
            text,
        }
    }

    /// Where every procedure begins.
    pub fn new() -> (r: Progress)
        ensures
            r@ == (ProgressView {
                stage: Stage::Start,
                hosts: Seq::empty(),
                index: 0,
                home: Seq::empty(),
                name: Seq::empty(),
                text: Seq::empty(),
            }),
    {
        let r = Progress {
            stage: Stage::Start,
            hosts: Vec::new(),
            index: 0,
            home: String::new(),
            name: String::new(),
            text: String::new(),
        };
        assert(host_specs(r.hosts@) =~= Seq::<HostSpec>::empty());
        r
    }

    /// The same, at another step.
    pub fn at(self, stage: Stage) -> (r: Progress)
        ensures
            r@ == self@.at(stage),
    {
        Progress {
            stage,
            hosts: self.hosts,
            index: self.index,
            home: self.home,
            name: self.name,
            text: self.text,
        }
    }

    /// Ends the procedure with a failure.
    pub fn fail(self, kind: Failure, subject: &str) -> (r: Step)
        ensures
            r@ == failed(self@, kind, subject@),
    {
        Step {
            state: self.at(Stage::Done),
            warning: None,
            action: Action::Fail {
                error: FlowError::Step { kind, subject: String::from_str(subject) },
            },
        }
    }

    /// Ends the procedure with a failure that is about nothing in particular.
    pub fn fail_plainly(self, kind: Failure) -> (r: Step)
        ensures
            r@ == failed(self@, kind, Seq::empty()),
    {
        Step {
            state: self.at(Stage::Done),
            warning: None,
            action: Action::Fail { error: FlowError::Step { kind, subject: String::new() } },
        }
    }

    /// Ends the procedure because the caller came back with something that
    /// was not asked for.
    pub fn fail_unexpected(self) -> (r: Step)
        ensures
            r@ == unexpected(self@),
    {
        self.fail_plainly(Failure::UnexpectedEvent)
    }

    /// Ends the procedure for want of hosts.
    pub fn fail_for_phase(self, error: PhaseError) -> (r: Step)
        ensures
            r@ == failed_for_phase(self@, error@),
    {
        Step {
            state: self.at(Stage::Done),
            warning: None,
            action: Action::Fail { error: FlowError::Phase(error) },
        }
    }

    /// Ends the procedure with success.
    pub fn finish(self, warning: Option<String>) -> (r: Step)
        ensures
            r@ == finished(
                self@,
                match warning {
                    Some(s) => Some(s@),
                    None => None,
                },
            ),
    {
        Step { state: self.at(Stage::Done), warning, action: Action::Succeed }
    }

    /// Asks for one program to be run.
    pub fn run(self, warning: Option<String>, argv: Vec<String>, capture: bool) -> (r: Step)
        ensures
            r@ == running(
                self@,
                match warning {
                    Some(s) => Some(s@),
                    None => None,
                },
                texts(argv@),
                capture,
            ),
    {
        Step {
            state: self,
            warning,
            action: Action::Run { argv, in_project: false, capture, input: Input::Inherited },
        }
    }
}

} // verus!
