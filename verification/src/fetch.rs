//! The programs that fetch a project from its archive and build it.

use crate::names::{short_sha, ApiToken, BuildTarget, CommitSha};
use crate::phase_file::texts;
use crate::remote::push_arg;
use crate::text::{concat, decimal, decimal_string};
use vstd::prelude::*;
use vstd::string::*;

verus! {

/// Where a project is fetched from: the address under which the API of the
/// repository host answers, written without a slash at its end, and the
/// token that opens it.
#[derive(Debug, Clone)]
pub struct Source {
    pub api_url_prefix: String,
    pub api_token: ApiToken,
}

/// What a [`Source`] stands for.
pub ghost struct SourceView {
    pub api_url_prefix: Seq<char>,
    pub api_token: Seq<char>,
}

impl View for Source {
    type V = SourceView;

    open spec fn view(&self) -> SourceView {
        SourceView { api_url_prefix: self.api_url_prefix@, api_token: self.api_token@ }
    }
}

/// The address of the archive of a commit of a project; `kind` is the name
/// of the archive, with its suffix where one is wanted.
pub open spec fn archive_url(
    prefix: Seq<char>,
    project_id: u64,
    kind: Seq<char>,
    sha: Seq<char>,
) -> Seq<char> {
    prefix + "/projects/"@ + decimal(project_id as nat) + "/repository/"@ + kind + "?sha="@ + sha
}

/// The header that carries the token.
pub open spec fn token_header(token: Seq<char>) -> Seq<char> {
    "PRIVATE-TOKEN: "@ + token
}

/// The arguments that fetch `url` with `wget` into `to`, where `-` stands
/// for what the program writes.
pub open spec fn wget_argv(url: Seq<char>, token: Seq<char>, to: Seq<char>) -> Seq<Seq<char>> {
    seq!["wget"@, "--no-check-certificate"@, url, "--header"@, token_header(token), "-O"@, to]
}

/// The arguments that unpack a compressed archive that `tar` reads, without
/// the directory that the archive wraps everything in.
pub open spec fn untar_argv() -> Seq<Seq<char>> {
    seq!["tar"@, "--strip-components"@, "1"@, "-z"@, "-x"@, "-v"@, "-f"@, "-"@]
}

/// The name under which the plain archive of a project is saved.
pub open spec fn archive_file() -> Seq<char> {
    "archive.tar"@
}

/// The arguments that build a frontend project for `target`.
pub open spec fn front_build_argv(target: Seq<char>) -> Seq<Seq<char>> {
    seq!["bash"@, "deploy/build.sh"@, target]
}

/// The arguments that build the image of a backend project for the commit
/// `sha` and, where one is given, the build target.
pub open spec fn back_build_argv(sha: Seq<char>, target: Option<Seq<char>>) -> Seq<Seq<char>> {
    match target {
        Some(t) => seq!["bash"@, "deploy/build.sh"@, short_sha(sha), t],
        None => seq!["bash"@, "deploy/build.sh"@, short_sha(sha)],
    }
}

/// The arguments that decompress the archive at `path` with `zstd` and write
/// what it holds; `threads` lets the program use every core.
pub open spec fn unzstd_argv(path: Seq<char>, threads: bool) -> Seq<Seq<char>> {
    if threads {
        seq!["zstd"@, "-T0"@, "-d"@, "-c"@, path]
    } else {
        seq!["zstd"@, "-d"@, "-c"@, "-f"@, path]
    }
}

/// The address of an archive of a commit of a project.
pub fn archive_address(prefix: &str, project_id: u64, kind: &str, sha: &CommitSha) -> (r: String)
    ensures
        r@ == archive_url(prefix@, project_id, kind@, sha@),
{
    let mut r = concat(prefix, "/projects/");
    let id = decimal_string(project_id);
    r.append(id.as_str());
    r.append("/repository/");
    r.append(kind);
    r.append("?sha=");
    r.append(sha.get_sha());
    r
}

fn wget_command(url: &str, token: &ApiToken, to: &str) -> (argv: Vec<String>)
    ensures
        texts(argv@) == wget_argv(url@, token@, to@),
{
    let mut argv: Vec<String> = Vec::new();
    push_arg(&mut argv, "wget");
    push_arg(&mut argv, "--no-check-certificate");
    push_arg(&mut argv, url);
    push_arg(&mut argv, "--header");
    let header = concat("PRIVATE-TOKEN: ", token.as_ref());
    push_arg(&mut argv, header.as_str());
    push_arg(&mut argv, "-O");
    push_arg(&mut argv, to);
    argv
}

/// The program that saves the plain archive of a commit in the directory of
/// the project, to be run there.
pub fn download_archive(source: &Source, project_id: u64, sha: &CommitSha) -> (argv: Vec<String>)
    ensures
        texts(argv@) == wget_argv(
            archive_url(source@.api_url_prefix, project_id, "archive.tar"@, sha@),
            source@.api_token,
            archive_file(),
        ),
{
    let url = archive_address(source.api_url_prefix.as_str(), project_id, "archive.tar", sha);
    wget_command(url.as_str(), &source.api_token, "archive.tar")
}

/// The two programs that fetch the compressed archive of a commit and unpack
/// it: the second reads what the first writes, and runs in the directory of
/// the project.
pub fn download_and_extract_archive(source: &Source, project_id: u64, sha: &CommitSha) -> (r: (
    Vec<String>,
    Vec<String>,
))
    ensures
        texts(r.0@) == wget_argv(
            archive_url(source@.api_url_prefix, project_id, "archive"@, sha@),
            source@.api_token,
            "-"@,
        ),
        texts(r.1@) == untar_argv(),
{
    let url = archive_address(source.api_url_prefix.as_str(), project_id, "archive", sha);
    let first = wget_command(url.as_str(), &source.api_token, "-");
    let mut second: Vec<String> = Vec::new();
    push_arg(&mut second, "tar");
    push_arg(&mut second, "--strip-components");
    push_arg(&mut second, "1");
    push_arg(&mut second, "-z");
    push_arg(&mut second, "-x");
    push_arg(&mut second, "-v");
    push_arg(&mut second, "-f");
    push_arg(&mut second, "-");
    (first, second)
}

/// The program that builds a frontend project, to be run in its directory.
pub fn run_front_build(target: &BuildTarget) -> (argv: Vec<String>)
    ensures
        texts(argv@) == front_build_argv(target@),
{
    let mut argv: Vec<String> = Vec::new();
    push_arg(&mut argv, "bash");
    push_arg(&mut argv, "deploy/build.sh");
    push_arg(&mut argv, target.as_ref());
    argv
}

/// The program that builds the image of a backend project, to be run in its
/// directory.
pub fn run_back_build(sha: &CommitSha, target: Option<&BuildTarget>) -> (argv: Vec<String>)
    ensures
        texts(argv@) == back_build_argv(
            sha@,
            match target {
                Some(t) => Some(t@),
                None => None,
            },
        ),
{
    let mut argv: Vec<String> = Vec::new();
    push_arg(&mut argv, "bash");
    push_arg(&mut argv, "deploy/build.sh");
    push_arg(&mut argv, sha.get_short_sha());
    if let Some(t) = target {
        push_arg(&mut argv, t.as_ref());
    }
    argv
}

/// The program that decompresses the archive at `path`, to be run in the
/// directory of the project.
pub fn unzstd_command(path: &str, threads: bool) -> (argv: Vec<String>)
    ensures
        texts(argv@) == unzstd_argv(path@, threads),
{
    let mut argv: Vec<String> = Vec::new();
    push_arg(&mut argv, "zstd");
    if threads {
        push_arg(&mut argv, "-T0");
        push_arg(&mut argv, "-d");
        push_arg(&mut argv, "-c");
    } else {
        push_arg(&mut argv, "-d");
        push_arg(&mut argv, "-c");
        push_arg(&mut argv, "-f");
    }
    push_arg(&mut argv, path);
    argv
}

} // verus!
