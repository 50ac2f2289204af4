use gitlab_deploy::back_deploy::back_deploy;
use gitlab_deploy::fetch::Source;
use gitlab_deploy::fleet::Target;
use gitlab_deploy::flow::{
    Action, ErrorClass, Event, Failure, FlowError, Input, Progress, Stage, Step,
};
use gitlab_deploy::front_deploy::front_deploy;
use gitlab_deploy::layout::Release;
use gitlab_deploy::names::{ApiToken, BuildTarget, CommitSha, Name, Phase};
use gitlab_deploy::phase_file::PhaseError;
use gitlab_deploy::simple_deploy::simple_deploy;

const SHA: &str = "0b14cd4fdec3bdffffdaf1de6fe13aaa01c4827f";
const DIR: &str = "/home/a/.gitlab-deploy/projects/website-123/pre-release-0b14cd4f";

fn target() -> Target {
    Target {
        release: Release {
            project_id: 123,
            commit_sha: CommitSha::parse_str(SHA).unwrap(),
            project_name: Name::parse_str("website").unwrap(),
            reference_name: Name::parse_str("pre-release").unwrap(),
        },
        phase: Phase::parse_str("test").unwrap(),
        home: String::from("/home/ci/"),
    }
}

fn source() -> Source {
    Source {
        api_url_prefix: String::from("https://git.example.org/api/v4"),
        api_token: ApiToken::parse_str("SECRET-REDACTED").unwrap(),
    }
}

fn words(v: &[&str]) -> Vec<String> {
    v.iter().map(|s| String::from(*s)).collect()
}

fn ssh(port: &str, host: &str, command: &str) -> Vec<String> {
    words(&[
        "ssh",
        "-o",
        "StrictHostKeyChecking=no",
        "-o",
        "BatchMode=yes",
        "-p",
        port,
        host,
        command,
    ])
}

fn scp(port: &str, from: &str, to: &str) -> Vec<String> {
    words(&["scp", "-o", "StrictHostKeyChecking=no", "-o", "BatchMode=yes", "-P", port, from, to])
}

fn run(argv: Vec<String>, capture: bool) -> Action {
    Action::Run { argv, in_project: false, capture, input: Input::Inherited }
}

fn run_in_project(argv: Vec<String>) -> Action {
    Action::Run { argv, in_project: true, capture: false, input: Input::Inherited }
}

fn exited(code: i32, output: &str) -> Event {
    Event::Exited { code: Some(code), output: String::from(output) }
}

fn file(content: &str) -> Event {
    Event::File { content: Some(String::from(content)) }
}

fn fail(kind: Failure, subject: &str) -> Action {
    Action::Fail { error: FlowError::Step { kind, subject: String::from(subject) } }
}

fn reaches_host(action: &Action) -> bool {
    let remote = |argv: &Vec<String>| argv[0] == "ssh" || argv[0] == "scp";
    match action {
        Action::Run { argv, .. } => remote(argv),
        Action::Pipe { first, second, .. } => remote(first) || remote(second),
        _ => false,
    }
}

fn fetch_action() -> Action {
    Action::Pipe {
        first: words(&[
            "wget",
            "--no-check-certificate",
            &format!("https://git.example.org/api/v4/projects/123/repository/archive?sha={SHA}"),
            "--header",
            "PRIVATE-TOKEN: SECRET-REDACTED",
            "-O",
            "-",
        ]),
        first_in_project: false,
        second: words(&["tar", "--strip-components", "1", "-z", "-x", "-v", "-f", "-"]),
        second_in_project: true,
    }
}

/// Drives a backend deploy with the events given and returns every step.
fn back(build_target: Option<&BuildTarget>, events: &[Event]) -> Vec<Step> {
    let t = target();
    let s = source();
    let mut steps = Vec::new();
    let mut state = Progress::new();
    for event in events {
        let step = back_deploy(&t, &s, build_target, state, event);
        state = step.state.clone();
        steps.push(step);
    }
    steps
}

fn back_prelude(compose: &str) -> Vec<Event> {
    vec![
        Event::Begin,
        file("# test\n123 a@h1 b@h2:2200\n"),
        exited(0, ""),
        Event::Probed { exists: true },
        file("web-api\n"),
        file(compose),
    ]
}

#[test]
fn backend_deploy_checks_the_project_then_works_host_by_host() {
    let mut events = back_prelude("services:\n  api:\n    image: web-api\n");
    events.extend([
        exited(0, ""),
        exited(0, "/home/a\n"),
        exited(0, ""),
        exited(0, ""),
        exited(0, ""),
        exited(0, ""),
        exited(0, "/srv/b/\n"),
    ]);
    let steps = back(None, &events);
    let actions: Vec<Action> = steps.iter().map(|s| s.action.clone()).collect();
    assert_eq!(
        actions[0],
        Action::ReadFile { path: String::from("/home/ci/.gitlab-deploy/phases/test") }
    );
    assert_eq!(actions[1], fetch_action());
    assert_eq!(actions[2], Action::ProbeFile { path: String::from("deploy/build.sh") });
    assert_eq!(actions[3], Action::ReadFile { path: String::from("deploy/image-name.txt") });
    assert_eq!(actions[4], Action::ReadFile { path: String::from("deploy/docker-compose.yml") });
    assert_eq!(actions[5], run_in_project(words(&["bash", "deploy/build.sh", "0b14cd4f"])));
    assert_eq!(steps[5].state.name, "web-api");
    assert_eq!(steps[5].state.text, "services:\n  api:\n    image: web-api:0b14cd4f");
    assert_eq!(actions[6], run(ssh("22", "a@h1", "echo $HOME"), true));
    assert_eq!(actions[7], run(ssh("22", "a@h1", &format!("mkdir -p \"{DIR}\"")), false));
    assert_eq!(
        actions[8],
        Action::Run {
            argv: ssh("22", "a@h1", &format!("cat - > {DIR}/docker-compose.yml")),
            in_project: false,
            capture: false,
            input: Input::Text(String::from("services:\n  api:\n    image: web-api:0b14cd4f")),
        }
    );
    assert_eq!(
        actions[9],
        run_in_project(scp(
            "22",
            "deploy/web-api.tar.zst",
            &format!("a@h1:{DIR}/web-api.tar.zst")
        ))
    );
    assert_eq!(
        actions[10],
        Action::Pipe {
            first: words(&["zstd", "-d", "-c", "-f", "deploy/web-api.tar.zst"]),
            first_in_project: true,
            second: ssh("22", "a@h1", "docker image load"),
            second_in_project: false,
        }
    );
    assert_eq!(actions[11], run(ssh("2200", "b@h2", "echo $HOME"), true));
    assert_eq!(
        actions[12],
        run(
            ssh(
                "2200",
                "b@h2",
                "mkdir -p \"/srv/b/.gitlab-deploy/projects/website-123/pre-release-0b14cd4f\""
            ),
            false
        )
    );
    assert!(steps.iter().all(|s| s.warning.is_none()));
    let rest = back(None, &{
        let mut all = events.clone();
        all.extend([exited(0, ""), exited(0, ""), exited(0, ""), exited(0, "")]);
        all
    });
    assert_eq!(rest.last().unwrap().action, Action::Succeed);
    assert_eq!(rest.last().unwrap().state.stage, Stage::Done);
}

#[test]
fn backend_deploy_reads_the_compose_file_of_the_build_target() {
    let target = BuildTarget::parse_str("staging").unwrap();
    let steps = back(Some(&target), &back_prelude("image: web-api"));
    assert_eq!(
        steps[4].action,
        Action::ReadFile { path: String::from("deploy/docker-compose.staging.yml") }
    );
    assert_eq!(
        steps[5].action,
        run_in_project(words(&["bash", "deploy/build.sh", "0b14cd4f", "staging"]))
    );
}

#[test]
fn compose_file_that_names_another_image_fails_before_any_host_is_reached() {
    let steps = back(None, &back_prelude("services:\n  api:\n    image: other-api\n"));
    assert_eq!(
        steps.last().unwrap().action,
        fail(Failure::ImageNameMismatch, "deploy/docker-compose.yml")
    );
    assert_eq!(steps.last().unwrap().state.stage, Stage::Done);
    assert!(steps.iter().all(|s| !reaches_host(&s.action)));
    let t = target();
    let after =
        back_deploy(&t, &source(), None, steps.last().unwrap().state.clone(), &exited(0, ""));
    assert_eq!(after.action, fail(Failure::UnexpectedEvent, ""));
    assert!(!reaches_host(&after.action));
    match &steps.last().unwrap().action {
        Action::Fail { error } => assert_eq!(error.class(), ErrorClass::ArtifactValidation),
        other => panic!("{:?}", other),
    }
}

#[test]
fn backend_project_must_hold_its_files() {
    let cut = |n: usize, last: Event| {
        let mut events: Vec<Event> = back_prelude("image: web-api").into_iter().take(n).collect();
        events.push(last);
        back(None, &events).last().unwrap().action.clone()
    };
    assert_eq!(cut(2, exited(4, "")), fail(Failure::FetchFailed, ""));
    assert_eq!(
        cut(3, Event::Probed { exists: false }),
        fail(Failure::MissingProjectFile, "deploy/build.sh")
    );
    assert_eq!(
        cut(4, Event::File { content: None }),
        fail(Failure::MissingProjectFile, "deploy/image-name.txt")
    );
    assert_eq!(
        cut(4, file("Web Api\n")),
        fail(Failure::IncorrectProjectFile, "deploy/image-name.txt")
    );
    assert_eq!(
        cut(5, Event::File { content: None }),
        fail(Failure::MissingProjectFile, "deploy/docker-compose.yml")
    );
    assert_eq!(cut(6, exited(1, "")), fail(Failure::BuildFailed, ""));
    assert_eq!(cut(3, exited(0, "")), fail(Failure::UnexpectedEvent, ""));
}

#[test]
fn backend_deploy_does_not_ask_for_the_develop_scripts() {
    let steps = back(None, &back_prelude("services:\n  api:\n    image: web-api\n"));
    for step in &steps {
        match &step.action {
            Action::ProbeFile { path } => assert_eq!(path, "deploy/build.sh"),
            Action::ReadFile { path } => assert!(!path.contains("develop"), "{:?}", path),
            _ => {},
        }
    }
    assert_eq!(
        steps.last().unwrap().action,
        run_in_project(words(&["bash", "deploy/build.sh", "0b14cd4f"]))
    );
    assert_eq!(steps.last().unwrap().state.stage, Stage::Building);
}

#[test]
fn failure_on_a_host_ends_the_backend_deploy() {
    let after = |n: usize| {
        let mut events = back_prelude("image: web-api");
        events.extend([exited(0, ""), exited(0, "/home/a\n")]);
        for _ in 0..n {
            events.push(exited(0, ""));
        }
        events.push(exited(1, ""));
        back(None, &events).last().unwrap().action.clone()
    };
    assert_eq!(after(0), fail(Failure::CannotCreateDirectory, DIR));
    assert_eq!(
        after(1),
        fail(Failure::CannotWriteComposeFile, &format!("{DIR}/docker-compose.yml"))
    );
    assert_eq!(after(2), fail(Failure::CannotCopy, "deploy/web-api.tar.zst"));
    assert_eq!(after(3), fail(Failure::CannotLoadImage, ""));
}

#[test]
fn deploy_without_hosts_ends_well_with_a_warning() {
    let steps = back(None, &[Event::Begin, file("123\n")]);
    assert_eq!(steps[1].action, Action::Succeed);
    assert_eq!(steps[1].warning, Some(String::from("No hosts to deploy!")));
    let steps = back(None, &[Event::Begin, file("124 a@h\n")]);
    assert_eq!(
        steps[1].action,
        Action::Fail { error: FlowError::Phase(PhaseError::ProjectNotConfiguredForPhase) }
    );
    match &steps[1].action {
        Action::Fail { error } => assert_eq!(error.class(), ErrorClass::Resolution),
        other => panic!("{:?}", other),
    }
    let steps = back(None, &[Event::Begin, file("x a@h\n")]);
    match &steps[1].action {
        Action::Fail { error } => assert_eq!(error.class(), ErrorClass::ConfigParse),
        other => panic!("{:?}", other),
    }
}

#[test]
fn frontend_deploy_copies_the_archive_of_the_public_files() {
    let t = target();
    let s = source();
    let build = BuildTarget::parse_str("test").unwrap();
    let events = [
        Event::Begin,
        file("123 a@h1\n"),
        exited(0, ""),
        Event::Probed { exists: true },
        file(" Site.v2 \n"),
        exited(0, ""),
        exited(0, "/home/a"),
        exited(0, ""),
        exited(0, ""),
    ];
    let mut state = Progress::new();
    let mut actions = Vec::new();
    for event in &events {
        let step = front_deploy(&t, &s, &build, state, event);
        state = step.state;
        actions.push(step.action);
    }
    assert_eq!(actions[1], fetch_action());
    assert_eq!(actions[2], Action::ProbeFile { path: String::from("deploy/build.sh") });
    assert_eq!(actions[3], Action::ReadFile { path: String::from("deploy/public-name.txt") });
    assert_eq!(actions[4], run_in_project(words(&["bash", "deploy/build.sh", "test"])));
    assert_eq!(actions[5], run(ssh("22", "a@h1", "echo $HOME"), true));
    assert_eq!(actions[6], run(ssh("22", "a@h1", &format!("mkdir -p \"{DIR}\"")), false));
    assert_eq!(
        actions[7],
        run_in_project(scp(
            "22",
            "deploy/Site.v2.tar.zst",
            &format!("a@h1:{DIR}/Site.v2.tar.zst")
        ))
    );
    assert_eq!(actions[8], Action::Succeed);
}

#[test]
fn frontend_deploy_fails_on_what_the_project_lacks() {
    let t = target();
    let s = source();
    let build = BuildTarget::parse_str("test").unwrap();
    let drive = |events: &[Event]| {
        let mut state = Progress::new();
        let mut last = Action::Succeed;
        for event in events {
            let step = front_deploy(&t, &s, &build, state, event);
            state = step.state;
            last = step.action;
        }
        last
    };
    let start = [Event::Begin, file("123 a@h1\n"), exited(0, "")];
    let with = |more: &[Event]| {
        let mut all = start.to_vec();
        all.extend_from_slice(more);
        drive(&all)
    };
    assert_eq!(
        with(&[Event::Probed { exists: false }]),
        fail(Failure::MissingProjectFile, "deploy/build.sh")
    );
    assert_eq!(
        with(&[Event::Probed { exists: true }, Event::File { content: None }]),
        fail(Failure::MissingProjectFile, "deploy/public-name.txt")
    );
    assert_eq!(
        with(&[Event::Probed { exists: true }, file("a b")]),
        fail(Failure::IncorrectProjectFile, "deploy/public-name.txt")
    );
    assert_eq!(
        with(&[Event::Probed { exists: true }, file("site"), exited(2, "")]),
        fail(Failure::BuildFailed, "")
    );
    assert_eq!(
        with(&[
            Event::Probed { exists: true },
            file("site"),
            exited(0, ""),
            exited(0, "/home/a"),
            exited(0, ""),
            exited(1, "")
        ]),
        fail(Failure::CannotCopy, "deploy/site.tar.zst")
    );
}

#[test]
fn simple_deploy_unpacks_the_plain_archive_on_each_host() {
    let t = target();
    let s = source();
    let events = [
        Event::Begin,
        file("123 a@h1\n"),
        exited(0, ""),
        exited(0, "/home/a"),
        exited(0, ""),
        exited(0, ""),
    ];
    let mut state = Progress::new();
    let mut actions = Vec::new();
    for event in &events {
        let step = simple_deploy(&t, &s, state, event);
        state = step.state;
        actions.push(step.action);
    }
    assert_eq!(
        actions[1],
        run_in_project(words(&[
            "wget",
            "--no-check-certificate",
            &format!(
                "https://git.example.org/api/v4/projects/123/repository/archive.tar?sha={SHA}"
            ),
            "--header",
            "PRIVATE-TOKEN: SECRET-REDACTED",
            "-O",
            "archive.tar",
        ]))
    );
    assert_eq!(actions[2], run(ssh("22", "a@h1", "echo $HOME"), true));
    assert_eq!(actions[3], run(ssh("22", "a@h1", &format!("mkdir -p \"{DIR}\"")), false));
    assert_eq!(
        actions[4],
        Action::Run {
            argv: ssh(
                "22",
                "a@h1",
                &format!("tar --strip-components 1 -x -v -f - -C \"{DIR}\"")
            ),
            in_project: false,
            capture: false,
            input: Input::File(String::from("archive.tar")),
        }
    );
    assert_eq!(actions[5], Action::Succeed);
}

#[test]
fn simple_deploy_ends_at_the_first_failure() {
    let t = target();
    let s = source();
    let drive = |events: &[Event]| {
        let mut state = Progress::new();
        let mut last = Action::Succeed;
        for event in events {
            let step = simple_deploy(&t, &s, state, event);
            state = step.state;
            last = step.action;
        }
        last
    };
    assert_eq!(
        drive(&[Event::Begin, file("123 a@h1\n"), exited(8, "")]),
        fail(Failure::FetchFailed, "")
    );
    assert_eq!(
        drive(&[Event::Begin, file("123 a@h1\n"), exited(0, ""), exited(1, "")]),
        fail(Failure::CannotGetHome, "a@h1")
    );
    assert_eq!(
        drive(&[Event::Begin, file("123 a@h1\n"), exited(0, ""), exited(0, "/home/a"), exited(1, "")]),
        fail(Failure::CannotCreateDirectory, DIR)
    );
    assert_eq!(
        drive(&[
            Event::Begin,
            file("123 a@h1\n"),
            exited(0, ""),
            exited(0, "/home/a"),
            exited(0, ""),
            exited(1, "")
        ]),
        fail(Failure::CannotUnpack, "")
    );
}

#[test]
fn paths_with_quotes_are_escaped_for_the_shell_of_the_host() {
    let t = target();
    let s = source();
    let events =
        [Event::Begin, file("123 a@h1\n"), exited(0, ""), exited(0, "/home/my \"dir\"\\x\n")];
    let mut state = Progress::new();
    let mut last = Action::Succeed;
    for event in &events {
        let step = simple_deploy(&t, &s, state, event);
        state = step.state;
        last = step.action;
    }
    assert_eq!(
        last,
        run(
            ssh(
                "22",
                "a@h1",
                "mkdir -p \"/home/my \\\"dir\\\"\\\\x/.gitlab-deploy/projects/website-123/pre-release-0b14cd4f\""
            ),
            false
        )
    );
}
