use gitlab_deploy::command::Command;
use gitlab_deploy::fetch::{
    archive_address, download_and_extract_archive, download_archive, run_back_build,
    run_front_build, unzstd_command, Source,
};
use gitlab_deploy::flow::{ErrorClass, Failure, FlowError};
use gitlab_deploy::layout::{
    get_ssh_home, html_path, project_root_path, public_root_path, Release,
};
use gitlab_deploy::phase_file::PhaseError;
use gitlab_deploy::names::{ApiToken, BuildTarget, CommitSha, Name};
use gitlab_deploy::remote::{
    check_exist, create_scp_command, create_ssh_command, list_command, make_directory_command,
    test_directory_command, test_file_command,
};
use gitlab_deploy::ssh_user_host::SshUserHost;

const SHA: &str = "0b14cd4fdec3bdffffdaf1de6fe13aaa01c4827f";

fn release(sha: &str) -> Release {
    Release {
        project_id: 123,
        commit_sha: CommitSha::parse_str(sha).unwrap(),
        project_name: Name::parse_str("website").unwrap(),
        reference_name: Name::parse_str("pre-release").unwrap(),
    }
}

fn words(v: &[&str]) -> Vec<String> {
    v.iter().map(|s| String::from(*s)).collect()
}

#[test]
fn release_lies_under_project_under_home() {
    let r = release(SHA);
    assert_eq!(r.name(), "pre-release-0b14cd4f");
    assert_eq!(r.project_dir("/home/a"), "/home/a/.gitlab-deploy/projects/website-123");
    assert_eq!(
        r.release_dir("/home/a"),
        "/home/a/.gitlab-deploy/projects/website-123/pre-release-0b14cd4f"
    );
    assert_eq!(
        project_root_path("/srv", &Name::parse_str("api").unwrap(), 0),
        "/srv/.gitlab-deploy/projects/api-0"
    );
}

#[test]
fn release_directories_differ_in_the_short_hash_only() {
    let a = release(SHA).release_dir("/home/a");
    let same_start = release("0b14cd4f00000000000000000000000000000000").release_dir("/home/a");
    let other = release("1b14cd4fdec3bdffffdaf1de6fe13aaa01c4827f").release_dir("/home/a");
    assert_eq!(a, release(SHA).release_dir("/home/a"));
    assert_eq!(a, same_start);
    assert_ne!(a, other);
    assert_eq!(a.len(), other.len());
    assert_eq!(a[..a.len() - 8], other[..other.len() - 8]);
    assert_eq!(&other[other.len() - 8..], "1b14cd4f");
}

#[test]
fn public_files_are_served_from_the_service_directory() {
    assert_eq!(public_root_path("/home/a", "site"), "/home/a/.gitlab-deploy/services/www/site");
    assert_eq!(html_path("/home/a", "site"), "/home/a/.gitlab-deploy/services/www/site/html");
}

#[test]
fn home_is_the_answer_without_white_space_and_ending_slash() {
    assert_eq!(get_ssh_home("/home/a\n"), "/home/a");
    assert_eq!(get_ssh_home("  /home/a/ \r\n"), "/home/a");
    assert_eq!(get_ssh_home("/\n"), "/");
    assert_eq!(get_ssh_home("/a//\n"), "/a/");
    assert_eq!(get_ssh_home("\n"), "");
    assert_eq!(get_ssh_home("/home/my dir\n"), "/home/my dir");
}

#[test]
fn ssh_runs_one_shell_text_without_prompt_on_the_port_of_the_host() {
    let host = SshUserHost::parse_str("deploy@example.org:2200").unwrap();
    assert_eq!(
        create_ssh_command(&host, "echo $HOME"),
        words(&[
            "ssh",
            "-o",
            "StrictHostKeyChecking=no",
            "-o",
            "BatchMode=yes",
            "-p",
            "2200",
            "deploy@example.org",
            "echo $HOME"
        ])
    );
    let host = SshUserHost::parse_str("a@b").unwrap();
    assert_eq!(create_ssh_command(&host, "")[6], "22");
    assert_eq!(create_ssh_command(&host, "a b  c")[8], "a b  c");
}

#[test]
fn scp_copies_to_user_at_host_and_path() {
    let host = SshUserHost::parse_str("deploy@example.org:2200").unwrap();
    assert_eq!(
        create_scp_command(&host, "deploy/site.tar.zst", "/srv/r/site.tar.zst"),
        words(&[
            "scp",
            "-o",
            "StrictHostKeyChecking=no",
            "-o",
            "BatchMode=yes",
            "-P",
            "2200",
            "deploy/site.tar.zst",
            "deploy@example.org:/srv/r/site.tar.zst"
        ])
    );
}

#[test]
fn existence_is_read_from_the_exit_code() {
    assert_eq!(check_exist(Some(0)), Some(true));
    assert_eq!(check_exist(Some(1)), Some(false));
    assert_eq!(check_exist(Some(2)), None);
    assert_eq!(check_exist(Some(255)), None);
    assert_eq!(check_exist(Some(-1)), None);
    assert_eq!(check_exist(None), None);
}

#[test]
fn small_shell_texts_are_exact() {
    assert_eq!(test_file_command("\"/a/b\""), "test -f \"/a/b\"");
    assert_eq!(test_directory_command("\"/a/.git\""), "test -d \"/a/.git\"");
    assert_eq!(list_command("\"/a\""), "ls \"/a\"");
    assert_eq!(make_directory_command("\"/a\""), "mkdir -p \"/a\"");
}

#[test]
fn archive_is_fetched_with_the_token_in_a_header() {
    let source = Source {
        api_url_prefix: String::from("https://git.example.org/api/v4"),
        api_token: ApiToken::parse_str("SECRET-REDACTED").unwrap(),
    };
    let sha = CommitSha::parse_str(SHA).unwrap();
    assert_eq!(
        archive_address("https://g/api/v4", 7, "archive", &sha),
        format!("https://g/api/v4/projects/7/repository/archive?sha={SHA}")
    );
    let (first, second) = download_and_extract_archive(&source, 123, &sha);
    assert_eq!(
        first,
        words(&[
            "wget",
            "--no-check-certificate",
            &format!("https://git.example.org/api/v4/projects/123/repository/archive?sha={SHA}"),
            "--header",
            "PRIVATE-TOKEN: SECRET-REDACTED",
            "-O",
            "-"
        ])
    );
    assert_eq!(second, words(&["tar", "--strip-components", "1", "-z", "-x", "-v", "-f", "-"]));
    assert_eq!(
        download_archive(&source, 123, &sha),
        words(&[
            "wget",
            "--no-check-certificate",
            &format!(
                "https://git.example.org/api/v4/projects/123/repository/archive.tar?sha={SHA}"
            ),
            "--header",
            "PRIVATE-TOKEN: SECRET-REDACTED",
            "-O",
            "archive.tar"
        ])
    );
}

#[test]
fn builds_run_the_build_script_of_the_project() {
    let sha = CommitSha::parse_str(SHA).unwrap();
    let target = BuildTarget::parse_str("test").unwrap();
    assert_eq!(run_front_build(&target), words(&["bash", "deploy/build.sh", "test"]));
    assert_eq!(run_back_build(&sha, None), words(&["bash", "deploy/build.sh", "0b14cd4f"]));
    assert_eq!(
        run_back_build(&sha, Some(&target)),
        words(&["bash", "deploy/build.sh", "0b14cd4f", "test"])
    );
    assert_eq!(
        unzstd_command("deploy/a.tar.zst", false),
        words(&["zstd", "-d", "-c", "-f", "deploy/a.tar.zst"])
    );
    assert_eq!(
        unzstd_command("deploy/a.tar.zst", true),
        words(&["zstd", "-T0", "-d", "-c", "deploy/a.tar.zst"])
    );
}

#[test]
fn commands_have_names_and_shell_texts() {
    for (word, command) in [
        ("up", Command::Up),
        ("START", Command::Up),
        ("Stop", Command::Stop),
        ("down", Command::Down),
        ("log", Command::Logs),
        ("logs", Command::Logs),
        ("down_up", Command::DownAndUp),
        ("ReStart", Command::DownAndUp),
    ] {
        assert_eq!(Command::parse_str(word), Ok(command));
    }
    for word in ["", "ups", " up", "up ", "downup", "down-up", "lógs"] {
        assert_eq!(Command::parse_str(word), Err(()));
    }
    assert_eq!(Command::Up.as_str(), "up");
    assert_eq!(Command::Stop.as_str(), "stop");
    assert_eq!(Command::Down.as_str(), "down");
    assert_eq!(Command::Logs.as_str(), "logs");
    assert_eq!(Command::DownAndUp.as_str(), "down_up");
    assert_eq!(
        Command::Up.get_command_str(),
        "docker-compose up -d --build && (timeout 10 docker-compose logs -f || true)"
    );
    assert_eq!(Command::DownAndUp.get_command_str(), Command::Up.get_command_str());
    assert_eq!(Command::Stop.get_command_str(), "docker-compose stop");
    assert_eq!(Command::Down.get_command_str(), "docker-compose down");
    assert_eq!(Command::Logs.get_command_str(), "docker-compose logs");
    for command in [Command::Up, Command::Stop, Command::Down, Command::Logs, Command::DownAndUp] {
        assert_eq!(Command::parse_str(command.as_str()), Ok(command));
    }
}

#[test]
fn errors_are_classed_by_where_they_arise() {
    let class = |kind: Failure| FlowError::Step { kind, subject: String::new() }.class();
    assert_eq!(class(Failure::UnexpectedEvent), ErrorClass::Protocol);
    for kind in [
        Failure::CannotGetHome,
        Failure::RemoteCheckFailed,
        Failure::BuildFailed,
        Failure::CannotCreateDirectory,
        Failure::CannotApply,
        Failure::ControlFailed,
        Failure::CannotPull,
        Failure::CannotClone,
        Failure::CannotStart,
    ] {
        assert_eq!(class(kind), ErrorClass::RemoteExecution);
    }
    for kind in [
        Failure::MissingProjectFile,
        Failure::IncorrectProjectFile,
        Failure::ImageNameMismatch,
        Failure::ArchiveNotFound,
    ] {
        assert_eq!(class(kind), ErrorClass::ArtifactValidation);
    }
    for kind in [
        Failure::FetchFailed,
        Failure::CannotWriteComposeFile,
        Failure::CannotCopy,
        Failure::CannotLoadImage,
        Failure::CannotUnpack,
        Failure::ExtractFailed,
    ] {
        assert_eq!(class(kind), ErrorClass::Transfer);
    }
    for error in [PhaseError::PhaseNotFound, PhaseError::ProjectNotConfiguredForPhase] {
        assert_eq!(FlowError::Phase(error).class(), ErrorClass::Resolution);
    }
    for error in [
        PhaseError::MalformedProjectId { line: 1 },
        PhaseError::MalformedBackReference { line: 2 },
        PhaseError::DanglingBackReference { line: 3 },
        PhaseError::DuplicateHost { line: 4, token: String::from("a@b") },
        PhaseError::InvalidHostSpec { line: 5, token: String::from("x") },
    ] {
        assert_eq!(FlowError::Phase(error).class(), ErrorClass::ConfigParse);
    }
}
