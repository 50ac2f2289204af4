//! Where a release lies on a host.
//!
//! Under the home directory of the SSH user, the project directory holds one
//! directory for each project, named by the project's name and id. That one
//! holds the control log, the note of the release started last, and one
//! directory for each release, named by the reference and the short commit
//! hash.

use crate::names::{is_commit_sha, short_sha, CommitSha, Name};
use crate::text::{
    concat, decimal, decimal_string, delete_end_slash_in_place, trim_in_place, trimmed,
    without_end_slash,
};
use vstd::prelude::*;
use vstd::string::*;

verus! {

/// The directory under the home directory that holds the projects.
pub const PROJECT_DIRECTORY: &'static str = ".gitlab-deploy/projects";

/// The directory under the home directory that holds what is served.
pub const SERVICE_DIRECTORY: &'static str = ".gitlab-deploy/services";

/// Which release of which project.
#[derive(Debug, Clone)]
pub struct Release {
    pub project_id: u64,
    pub commit_sha: CommitSha,
    pub project_name: Name,
    pub reference_name: Name,
}

/// What a [`Release`] stands for.
pub ghost struct ReleaseView {
    pub project_id: u64,
    pub commit_sha: Seq<char>,
    pub project_name: Seq<char>,
    pub reference_name: Seq<char>,
}

impl View for Release {
    type V = ReleaseView;

    open spec fn view(&self) -> ReleaseView {
        ReleaseView {
            project_id: self.project_id,
            commit_sha: self.commit_sha@,
            project_name: self.project_name@,
            reference_name: self.reference_name@,
        }
    }
}

/// The home directory that a host has answered with: its answer without the
/// white space around it and without a slash at its end.
pub open spec fn home_of(answer: Seq<char>) -> Seq<char> {
    without_end_slash(trimmed(answer))
}

/// The directory of all projects under the home directory `home`.
pub open spec fn projects_root(home: Seq<char>) -> Seq<char> {
    home + "/"@ + PROJECT_DIRECTORY@
}

/// The directory of the project with the name `name` and the id `id`.
pub open spec fn project_root(home: Seq<char>, name: Seq<char>, id: u64) -> Seq<char> {
    projects_root(home) + "/"@ + name + "-"@ + decimal(id as nat)
}

/// The directory of the project of `release`.
pub open spec fn project_dir(home: Seq<char>, release: ReleaseView) -> Seq<char> {
    project_root(home, release.project_name, release.project_id)
}

/// The name of a release among those of its project: the reference, `-`, and
/// the short commit hash.
pub open spec fn release_name(release: ReleaseView) -> Seq<char> {
    release.reference_name + "-"@ + short_sha(release.commit_sha)
}

/// The directory of `release`.
pub open spec fn release_dir(home: Seq<char>, release: ReleaseView) -> Seq<char> {
    project_dir(home, release) + "/"@ + release_name(release)
}

/// The directory from which the public files named `public_name` are served.
pub open spec fn html_dir(home: Seq<char>, public_name: Seq<char>) -> Seq<char> {
    public_root(home, public_name) + "/html"@
}

/// The directory that holds what is served under `public_name`.
pub open spec fn public_root(home: Seq<char>, public_name: Seq<char>) -> Seq<char> {
    home + "/"@ + SERVICE_DIRECTORY@ + "/www/"@ + public_name
}

/// Reads the home directory out of what a host has answered.
pub fn get_ssh_home(answer: &str) -> (home: String)
    ensures
        home@ == home_of(answer@),
{
    let mut home = String::from_str(answer);
    trim_in_place(&mut home);
    delete_end_slash_in_place(&mut home);
    home
}

/// The directory of the project with the name `name` and the id `id` under
/// the home directory `home`.
pub fn project_root_path(home: &str, name: &Name, id: u64) -> (r: String)
    ensures
        r@ == project_root(home@, name@, id),
{
    let mut r = concat(home, "/");
    r.append(PROJECT_DIRECTORY);
    r.append("/");
    r.append(name.as_ref());
    r.append("-");
    let id = decimal_string(id);
    r.append(id.as_str());
    r
}

impl Release {
    /// The name of the release among those of its project.
    pub fn name(&self) -> (r: String)
        ensures
            r@ == release_name(self@),
    {
        let mut r = concat(self.reference_name.as_ref(), "-");
        r.append(self.commit_sha.get_short_sha());
        r
    }

    /// The directory of the project under the home directory `home`.
    pub fn project_dir(&self, home: &str) -> (r: String)
        ensures
            r@ == project_dir(home@, self@),
    {
        project_root_path(home, &self.project_name, self.project_id)
    }

    /// The directory of the release under the home directory `home`.
    pub fn release_dir(&self, home: &str) -> (r: String)
        ensures
            r@ == release_dir(home@, self@),
    {
        let mut r = self.project_dir(home);
        r.append("/");
        let name = self.name();
        r.append(name.as_str());
        r
    }
}

/// The directory from which the public files named `public_name` are served.
pub fn html_path(home: &str, public_name: &str) -> (r: String)
    ensures
        r@ == html_dir(home@, public_name@),
{
    let mut r = public_root_path(home, public_name);
    r.append("/html");
    r
}

/// The directory that holds what is served under `public_name`.
pub fn public_root_path(home: &str, public_name: &str) -> (r: String)
    ensures
        r@ == public_root(home@, public_name@),
{
    let mut r = concat(home, "/");
    r.append(SERVICE_DIRECTORY);
    r.append("/www/");
    r.append(public_name);
    r
}

/// Two releases of one project and one reference lie in directories that
/// differ in their last eight characters at most, which are the short hashes
/// of their commits: the directories are the same exactly when the first
/// eight digits of the two commits are.
pub proof fn release_dirs_differ_in_short_sha_only(home: Seq<char>, a: ReleaseView, b: ReleaseView)
    requires
        is_commit_sha(a.commit_sha),
        is_commit_sha(b.commit_sha),
        a.project_id == b.project_id,
        a.project_name == b.project_name,
        a.reference_name == b.reference_name,
    ensures
        release_dir(home, a).len() == release_dir(home, b).len(),
        release_dir(home, a).len() >= 8,
        release_dir(home, a).take(release_dir(home, a).len() - 8) == release_dir(home, b).take(
            release_dir(home, b).len() - 8,
        ),
        release_dir(home, a).skip(release_dir(home, a).len() - 8) == short_sha(a.commit_sha),
        release_dir(home, b).skip(release_dir(home, b).len() - 8) == short_sha(b.commit_sha),
        release_dir(home, a) == release_dir(home, b) <==> short_sha(a.commit_sha) == short_sha(
            b.commit_sha,
        ),
{
    let stem = project_dir(home, a) + "/"@ + a.reference_name + "-"@;
    assert(release_dir(home, a) =~= stem + short_sha(a.commit_sha));
    assert(release_dir(home, b) =~= stem + short_sha(b.commit_sha));
    assert(release_dir(home, a).skip(stem.len() as int) =~= short_sha(a.commit_sha));
    assert(release_dir(home, b).skip(stem.len() as int) =~= short_sha(b.commit_sha));
}

} // verus!
