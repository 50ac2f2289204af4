use gitlab_deploy::back_control::{
    audit_command, back_control, back_control_at, control_command, last_up_command, mark_command,
    previous_release, shut_down_command,
};
use gitlab_deploy::command::Command;
use gitlab_deploy::fleet::Target;
use gitlab_deploy::flow::{Action, Event, Failure, FlowError, Input, Progress, Stage, Step};
use gitlab_deploy::layout::Release;
use gitlab_deploy::names::{CommitSha, Name, Phase};
use gitlab_deploy::phase_file::PhaseError;

const NOW: &str = "[2024-05-06-07-08-09]";
const DIR: &str = "\"/home/a/.gitlab-deploy/projects/website-123/pre-release-0b14cd4f\"";

fn target() -> Target {
    Target {
        release: Release {
            project_id: 123,
            commit_sha: CommitSha::parse_str("0b14cd4fdec3bdffffdaf1de6fe13aaa01c4827f").unwrap(),
            project_name: Name::parse_str("website").unwrap(),
            reference_name: Name::parse_str("pre-release").unwrap(),
        },
        phase: Phase::parse_str("test").unwrap(),
        home: String::from("/home/ci"),
    }
}

fn ssh(port: &str, host: &str, command: &str) -> Vec<String> {
    vec![
        String::from("ssh"),
        String::from("-o"),
        String::from("StrictHostKeyChecking=no"),
        String::from("-o"),
        String::from("BatchMode=yes"),
        String::from("-p"),
        String::from(port),
        String::from(host),
        String::from(command),
    ]
}

fn run(argv: Vec<String>, capture: bool) -> Action {
    Action::Run { argv, in_project: false, capture, input: Input::Inherited }
}

fn exited(code: i32, output: &str) -> Event {
    Event::Exited { code: Some(code), output: String::from(output) }
}

fn file(content: &str) -> Event {
    Event::File { content: Some(String::from(content)) }
}

/// Walks from the start to the answer about the home directory of the first host.
fn at_home(command: Command, phase_file: &str) -> Step {
    let t = target();
    let step = back_control_at(&t, command, Progress::new(), &Event::Begin, NOW);
    assert_eq!(
        step.action,
        Action::ReadFile { path: String::from("/home/ci/.gitlab-deploy/phases/test") }
    );
    let step = back_control_at(&t, command, step.state, &file(phase_file), NOW);
    assert_eq!(step.action, run(ssh("22", "a@h1", "echo $HOME"), true));
    assert_eq!(step.state.stage, Stage::AskingHome);
    back_control_at(&t, command, step.state, &exited(0, "/home/a/\n"), NOW)
}

#[test]
fn control_texts_are_exact() {
    assert_eq!(last_up_command("\"/d\""), "cat \"/d\"/../last-up");
    assert_eq!(
        shut_down_command("\"/d\"", "old-12345678"),
        "cd \"/d\"/../old-12345678 && docker-compose down"
    );
    assert_eq!(
        audit_command("\"/d\"", NOW, "stop", "main-0b14cd4f"),
        "echo \"[2024-05-06-07-08-09] stop main-0b14cd4f\" >> \"/d\"/../control.log"
    );
    assert_eq!(
        control_command("\"/d\"", Command::Stop, NOW, "main-0b14cd4f"),
        "cd \"/d\" && docker-compose stop && echo \"[2024-05-06-07-08-09] stop main-0b14cd4f\" >> \"/d\"/../control.log"
    );
    assert_eq!(
        control_command("\"/d\"", Command::DownAndUp, NOW, "main-0b14cd4f"),
        "cd \"/d\" && docker-compose up -d --build && (timeout 10 docker-compose logs -f || true) && echo \"[2024-05-06-07-08-09] down_up main-0b14cd4f\" >> \"/d\"/../control.log"
    );
    assert_eq!(
        mark_command("\"/d\"", "main-0b14cd4f"),
        "cd \"/d\" && echo \"main-0b14cd4f\" > \"/d\"/../last-up"
    );
}

#[test]
fn previous_release_is_another_release_named_by_the_note() {
    assert_eq!(
        previous_release("main-0b14cd4f", Some(0), " old-12345678\n"),
        Some(String::from("old-12345678"))
    );
    assert_eq!(previous_release("main-0b14cd4f", Some(0), "main-0b14cd4f\n"), None);
    assert_eq!(previous_release("main-0b14cd4f", Some(0), "\n"), None);
    assert_eq!(previous_release("main-0b14cd4f", Some(1), "old-12345678\n"), None);
    assert_eq!(previous_release("main-0b14cd4f", None, "old-12345678\n"), None);
}

#[test]
fn stop_runs_on_every_host_in_turn() {
    let t = target();
    let step = at_home(Command::Stop, "123 a@h1 b@h2:2200\n");
    let text = format!(
        "cd {DIR} && docker-compose stop && echo \"{NOW} stop pre-release-0b14cd4f\" >> {DIR}/../control.log"
    );
    assert_eq!(step.action, run(ssh("22", "a@h1", &text), false));
    assert_eq!(step.warning, None);
    let step = back_control_at(&t, Command::Stop, step.state, &exited(0, ""), NOW);
    assert_eq!(step.action, run(ssh("2200", "b@h2", "echo $HOME"), true));
    let step = back_control_at(&t, Command::Stop, step.state, &exited(0, "/srv/b"), NOW);
    let text = format!(
        "cd \"/srv/b/.gitlab-deploy/projects/website-123/pre-release-0b14cd4f\" && docker-compose stop && echo \"{NOW} stop pre-release-0b14cd4f\" >> \"/srv/b/.gitlab-deploy/projects/website-123/pre-release-0b14cd4f\"/../control.log"
    );
    assert_eq!(step.action, run(ssh("2200", "b@h2", &text), false));
    let step = back_control_at(&t, Command::Stop, step.state, &exited(0, ""), NOW);
    assert_eq!(step.action, Action::Succeed);
    assert_eq!(step.state.stage, Stage::Done);
}

#[test]
fn up_notes_the_release_as_started_last() {
    let t = target();
    let step = at_home(Command::Up, "123 a@h1\n");
    assert_eq!(step.state.stage, Stage::Controlling);
    let step = back_control_at(&t, Command::Up, step.state, &exited(0, ""), NOW);
    let text = format!("cd {DIR} && echo \"pre-release-0b14cd4f\" > {DIR}/../last-up");
    assert_eq!(step.action, run(ssh("22", "a@h1", &text), false));
    let step = back_control_at(&t, Command::Up, step.state, &exited(1, ""), NOW);
    assert_eq!(
        step.warning,
        Some(String::from("The latest version information cannot be written"))
    );
    assert_eq!(step.action, Action::Succeed);
}

#[test]
fn handover_without_note_runs_one_command_sequence() {
    let t = target();
    let step = at_home(Command::DownAndUp, "123 a@h1\n");
    assert_eq!(
        step.action,
        run(ssh("22", "a@h1", &format!("cat {DIR}/../last-up")), true)
    );
    let up = format!(
        "cd {DIR} && docker-compose up -d --build && (timeout 10 docker-compose logs -f || true) && echo \"{NOW} down_up pre-release-0b14cd4f\" >> {DIR}/../control.log"
    );
    let missing =
        back_control_at(&t, Command::DownAndUp, step.state.clone(), &exited(1, ""), NOW);
    assert_eq!(missing.action, run(ssh("22", "a@h1", &up), false));
    assert_eq!(missing.warning, None);
    let empty = back_control_at(&t, Command::DownAndUp, step.state, &exited(0, "\n"), NOW);
    assert_eq!(empty.action, run(ssh("22", "a@h1", &up), false));
    assert_eq!(empty.state.stage, Stage::Controlling);
}

#[test]
fn handover_shuts_down_the_old_release_and_starts_the_new_one() {
    let t = target();
    let step = at_home(Command::DownAndUp, "123 a@h1\n");
    let step =
        back_control_at(&t, Command::DownAndUp, step.state, &exited(0, "old-ref-12345678\n"), NOW);
    assert_eq!(
        step.action,
        run(
            ssh("22", "a@h1", &format!("cd {DIR}/../old-ref-12345678 && docker-compose down")),
            false
        )
    );
    let up = format!(
        "cd {DIR} && docker-compose up -d --build && (timeout 10 docker-compose logs -f || true) && echo \"{NOW} down_up pre-release-0b14cd4f\" >> {DIR}/../control.log"
    );
    let failed = back_control_at(&t, Command::DownAndUp, step.state.clone(), &exited(1, ""), NOW);
    assert_eq!(failed.action, run(ssh("22", "a@h1", &up), false));
    assert_eq!(
        failed.warning,
        Some(String::from("old-ref-12345678 cannot be fully shut down"))
    );
    let went_well = back_control_at(&t, Command::DownAndUp, step.state, &exited(0, ""), NOW);
    assert_eq!(went_well.action, run(ssh("22", "a@h1", &up), false));
    assert_eq!(went_well.warning, None);
}

#[test]
fn handover_onto_the_release_already_up_shuts_nothing_down() {
    let t = target();
    let step = at_home(Command::DownAndUp, "123 a@h1\n");
    let step = back_control_at(
        &t,
        Command::DownAndUp,
        step.state,
        &exited(0, "pre-release-0b14cd4f\n"),
        NOW,
    );
    assert_eq!(step.state.stage, Stage::Controlling);
}

#[test]
fn failed_command_ends_the_run_without_another_command() {
    let t = target();
    let step = at_home(Command::Down, "123 a@h1 b@h2\n");
    let step = back_control_at(&t, Command::Down, step.state, &exited(2, ""), NOW);
    assert_eq!(
        step.action,
        Action::Fail {
            error: FlowError::Step { kind: Failure::ControlFailed, subject: String::new() }
        }
    );
    assert_eq!(step.state.stage, Stage::Done);
    let after = back_control_at(&t, Command::Down, step.state, &exited(0, ""), NOW);
    assert_eq!(
        after.action,
        Action::Fail {
            error: FlowError::Step { kind: Failure::UnexpectedEvent, subject: String::new() }
        }
    );
}

#[test]
fn signal_death_counts_as_failure() {
    let t = target();
    let step = at_home(Command::Logs, "123 a@h1\n");
    let step = back_control_at(
        &t,
        Command::Logs,
        step.state,
        &Event::Exited { code: None, output: String::new() },
        NOW,
    );
    assert_eq!(
        step.action,
        Action::Fail {
            error: FlowError::Step { kind: Failure::ControlFailed, subject: String::new() }
        }
    );
}

#[test]
fn missing_phase_file_and_missing_project_fail_before_any_host_is_reached() {
    let t = target();
    let step = back_control_at(&t, Command::Up, Progress::new(), &Event::Begin, NOW);
    let missing = back_control_at(
        &t,
        Command::Up,
        step.state.clone(),
        &Event::File { content: None },
        NOW,
    );
    assert_eq!(missing.action, Action::Fail { error: FlowError::Phase(PhaseError::PhaseNotFound) });
    let other = back_control_at(&t, Command::Up, step.state.clone(), &file("124 a@h1\n"), NOW);
    assert_eq!(
        other.action,
        Action::Fail { error: FlowError::Phase(PhaseError::ProjectNotConfiguredForPhase) }
    );
    let broken = back_control_at(&t, Command::Up, step.state, &file("123 a@h1 a@h1\n"), NOW);
    assert_eq!(
        broken.action,
        Action::Fail {
            error: FlowError::Phase(PhaseError::DuplicateHost {
                line: 1,
                token: String::from("a@h1")
            })
        }
    );
}

#[test]
fn project_without_hosts_ends_well_with_a_warning() {
    let t = target();
    let step = back_control_at(&t, Command::Up, Progress::new(), &Event::Begin, NOW);
    let step = back_control_at(&t, Command::Up, step.state, &file("123\n"), NOW);
    assert_eq!(step.action, Action::Succeed);
    assert_eq!(step.warning, Some(String::from("No hosts to control!")));
}

#[test]
fn host_without_home_ends_the_run() {
    let t = target();
    let step = back_control_at(&t, Command::Up, Progress::new(), &Event::Begin, NOW);
    let step = back_control_at(&t, Command::Up, step.state, &file("123 a@h1:2200\n"), NOW);
    let step = back_control_at(&t, Command::Up, step.state, &exited(255, ""), NOW);
    assert_eq!(
        step.action,
        Action::Fail {
            error: FlowError::Step {
                kind: Failure::CannotGetHome,
                subject: String::from("a@h1:2200")
            }
        }
    );
}

#[test]
fn present_time_has_the_shape_of_a_timestamp() {
    let t = target();
    let step = at_home_now();
    match step.action {
        Action::Run { argv, .. } => {
            let text = &argv[8];
            let start = text.find("echo \"[").unwrap() + 6;
            let stamp = &text[start..start + 21];
            let shape: Vec<bool> = stamp.chars().map(|c| c.is_ascii_digit()).collect();
            let digits = "[dddd-dd-dd-dd-dd-dd]";
            let expected: Vec<bool> = digits.chars().map(|c| c == 'd').collect();
            assert_eq!(shape, expected);
            assert!(text.starts_with(&format!("cd {DIR} && docker-compose stop && echo \"[")));
            assert!(text.ends_with(&format!(
                "] stop pre-release-0b14cd4f\" >> {DIR}/../control.log"
            )));
        },
        other => panic!("{:?}", other),
    }
    let _ = t;
}

fn at_home_now() -> Step {
    let t = target();
    let step = back_control(&t, Command::Stop, Progress::new(), &Event::Begin);
    let step = back_control(&t, Command::Stop, step.state, &file("123 a@h1\n"));
    back_control(&t, Command::Stop, step.state, &exited(0, "/home/a"))
}
