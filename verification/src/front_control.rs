//! Putting the public files of a frontend release in place on every host of
//! a phase.
//!
//! On each host the archive of the release is looked for in its directory;
//! its name, without `.tar.zst`, names the public files. One shell text then
//! unpacks the archive, replaces the directory from which the files are
//! served, and records the step in the control log at its very end, so that
//! the record is written only where all went well. The files are listed
//! afterwards; a listing that fails is warned of and no more.

use crate::back_control::{audit_command, audit_text};
use crate::clock::current_timestamp;
use crate::fleet::{
    ask_home, asking_home, go_on, home_from, home_read, hosts_from, next_host, phase_read,
    quoted_release_dir, quoted_release_path, read_phase, reading_phase, Target, TargetView,
};
use crate::flow::{
    failed, has_succeeded, running, succeeded, unexpected, Event, EventView, Failure, Progress,
    ProgressView, Stage, Step, StepView,
};
use crate::layout::{html_dir, html_path, release_dir, release_name};
use crate::remote::{create_ssh_command, list_command, list_text, ssh_argv};
use crate::text::{
    chars_of, concat, debug_quoted, quote, string_of, trim_in_place, trimmed,
};
use vstd::prelude::*;
use vstd::string::*;

verus! {

/// The suffix of the archive of a release.
pub open spec fn archive_suffix() -> Seq<char> {
    ".tar.zst"@
}

/// The shell text that shows the first archive in the quoted directory `dir`.
pub open spec fn find_archive_text(dir: Seq<char>) -> Seq<char> {
    "find "@ + dir + " -mindepth 1 -maxdepth 1 -iname '*.tar.zst' | head -1"@
}

/// Where the last `/` of `s` stands, or -1 if it holds none.
pub open spec fn last_slash(s: Seq<char>) -> int
    decreases s.len(),
{
    if s.len() == 0 {
        -1
    } else if s.last() == '/' {
        s.len() - 1
    } else {
        last_slash(s.drop_last())
    }
}

/// The name of the file at `path`: what stands behind its last `/`.
pub open spec fn file_name(path: Seq<char>) -> Seq<char> {
    path.skip(last_slash(path) + 1)
}

/// Whether `s` ends with `suffix`.
pub open spec fn ends_with(s: Seq<char>, suffix: Seq<char>) -> bool {
    s.len() >= suffix.len() && s.skip(s.len() - suffix.len()) == suffix
}

/// The archive that a host has found: the name of the file that its answer
/// names, where the host has answered and the name is an archive's with
/// something before the suffix.
pub open spec fn found_archive(code: Option<i32>, output: Seq<char>) -> Option<Seq<char>> {
    let name = file_name(trimmed(output));
    if succeeded(code) && ends_with(name, archive_suffix()) && name.len() > archive_suffix().len() {
        Some(name)
    } else {
        None
    }
}

/// The name of the public files that the archive named `archive` holds.
pub open spec fn public_name_of(archive: Seq<char>) -> Seq<char> {
    archive.take(archive.len() - archive_suffix().len())
}

/// The shell text that puts the public files in place: in the quoted
/// directory `dir` of the release, the quoted archive `archive` is unpacked
/// into a directory of its own, which replaces the quoted directory `html`;
/// the last thing it does is to record the step.
pub open spec fn apply_text(
    dir: Seq<char>,
    archive: Seq<char>,
    html: Seq<char>,
    now: Seq<char>,
    release: Seq<char>,
) -> Seq<char> {
    "cd "@ + dir + " && (([ ! -d public ] && mkdir public) || true) && (zstd -T0 -d -c "@ + archive
        + " | tar -xf - -C public) && mkdir -p "@ + html + " && (([ -d "@ + html + " ] && rm -r "@
        + html + ") || true) && cp -r public "@ + html + " && rm -r public && "@ + audit_text(
        dir,
        now,
        "apply"@,
        release,
    )
}

/// The warning given where the public files could not be listed.
pub open spec fn not_listed() -> Seq<char> {
    "The public static files cannot be listed"@
}

/// What putting the public files of the release of `target` in place does
/// next, at the time `now`, from where `state` stands and after `event`.
pub open spec fn front_control_model(
    target: TargetView,
    state: ProgressView,
    event: EventView,
    now: Seq<char>,
) -> StepView {
    let host = state.hosts[state.index as int];
    let dir = quoted_release_dir(target, state);
    match state.stage {
        Stage::Start => reading_phase(target, state),
        Stage::ReadingPhase => match phase_read(
            target,
            state,
            event,
            crate::back_control::no_hosts_to_control(),
        ) {
            Ok(next) => asking_home(next, None),
            Err(step) => step,
        },
        _ => if state.index >= state.hosts.len() {
            unexpected(state)
        } else {
            match (state.stage, event) {
                (Stage::AskingHome, _) => match home_read(state, event) {
                    Ok(next) => running(
                        next.at(Stage::FindingArchive),
                        None,
                        ssh_argv(host, find_archive_text(quoted_release_dir(target, next))),
                        true,
                    ),
                    Err(step) => step,
                },
                (Stage::FindingArchive, EventView::Exited { code, output }) => {
                    match found_archive(code, output) {
                        Some(archive) => running(
                            ProgressView { name: public_name_of(archive), ..state }.at(
                                Stage::Applying,
                            ),
                            None,
                            ssh_argv(
                                host,
                                apply_text(
                                    dir,
                                    debug_quoted(archive),
                                    debug_quoted(html_dir(state.home, public_name_of(archive))),
                                    now,
                                    release_name(target.release),
                                ),
                            ),
                            false,
                        ),
                        None => failed(
                            state,
                            Failure::ArchiveNotFound,
                            release_dir(state.home, target.release),
                        ),
                    }
                },
                (Stage::Applying, EventView::Exited { code, output }) => if succeeded(code) {
                    running(
                        state.at(Stage::Listing),
                        None,
                        ssh_argv(host, list_text(debug_quoted(html_dir(state.home, state.name)))),
                        false,
                    )
                } else {
                    failed(state, Failure::CannotApply, Seq::empty())
                },
                (Stage::Listing, EventView::Exited { code, output }) => next_host(
                    state,
                    if succeeded(code) {
                        None
                    } else {
                        Some(not_listed())
                    },
                ),
                _ => unexpected(state),
            }
        },
    }
}

/// Where the last `/` of `v` stands, counted from 1, or 0 if it holds none.
fn after_last_slash(v: &Vec<char>) -> (at: usize)
    ensures
        at == last_slash(v@) + 1,
        at <= v.len(),
{
    let mut at: usize = v.len();
    assert(v@.take(at as int) =~= v@);
    while at > 0 && v[at - 1] != '/'
        invariant
            at <= v.len(),
            last_slash(v@) == last_slash(v@.take(at as int)),
        decreases at,
    {
        assert(v@.take(at as int).drop_last() =~= v@.take(at - 1));
        at -= 1;
    }
    at
}

/// Whether `v[from..]` ends with `suffix` and holds more than it.
fn is_archive_name(v: &Vec<char>, from: usize, suffix: &Vec<char>) -> (r: bool)
    requires
        from <= v.len(),
    ensures
        r == (ends_with(v@.skip(from as int), suffix@) && v@.skip(from as int).len()
            > suffix@.len()),
{
    let n: usize = v.len() - from;
    if n <= suffix.len() {
        return false;
    }
    let start: usize = v.len() - suffix.len();
    let ghost name = v@.skip(from as int);
    let ghost tail = name.skip(name.len() - suffix@.len());
    let mut i: usize = 0;
    while i < suffix.len()
        invariant
            i <= suffix.len(),
            start == v.len() - suffix.len(),
            from < start,
            name == v@.skip(from as int),
            tail == name.skip(name.len() - suffix@.len()),
            forall|k: int| 0 <= k < i ==> tail[k] == suffix@[k],
        decreases suffix.len() - i,
    {
        if v[start + i] != suffix[i] {
            return false;
        }
        i += 1;
    }
    assert(tail =~= suffix@);
    true
}

/// Reads the archive that a host has found out of its answer: the name of
/// the archive and the name of the public files that it holds.
pub fn archive_from(code: Option<i32>, output: &str) -> (r: Option<(String, String)>)
    ensures
        match r {
            Some((archive, name)) => found_archive(code, output@) == Some(archive@) && name@
                == public_name_of(archive@),
            None => found_archive(code, output@) is None,
        },
{
    if !has_succeeded(code) {
        return None;
    }
    let mut path = String::from_str(output);
    trim_in_place(&mut path);
    let v = chars_of(path.as_str());
    let suffix = chars_of(".tar.zst");
    let from = after_last_slash(&v);
    if !is_archive_name(&v, from, &suffix) {
        return None;
    }
    let archive = string_of(&v, from, v.len());
    let name = string_of(&v, from, v.len() - suffix.len());
    assert(archive@ =~= v@.skip(from as int));
    Some((archive, name))
}

/// The shell text that shows the first archive in `dir`.
pub fn find_archive_command(dir: &str) -> (r: String)
    ensures
        r@ == find_archive_text(dir@),
{
    let mut r = concat("find ", dir);
    r.append(" -mindepth 1 -maxdepth 1 -iname '*.tar.zst' | head -1");
    r
}

/// The shell text that puts the public files in place.
pub fn apply_command(dir: &str, archive: &str, html: &str, now: &str, release: &str) -> (r: String)
    ensures
        r@ == apply_text(dir@, archive@, html@, now@, release@),
{
    let mut r = concat("cd ", dir);
    r.append(" && (([ ! -d public ] && mkdir public) || true) && (zstd -T0 -d -c ");
    r.append(archive);
    r.append(" | tar -xf - -C public) && mkdir -p ");
    r.append(html);
    r.append(" && (([ -d ");
    r.append(html);
    r.append(" ] && rm -r ");
    r.append(html);
    r.append(") || true) && cp -r public ");
    r.append(html);
    r.append(" && rm -r public && ");
    let audit = audit_command(dir, now, "apply", release);
    r.append(audit.as_str());
    r
}

/// The next step of putting the public files of the release of `target` in
/// place, as it would be at the time `now`.
pub fn front_control_at(target: &Target, state: Progress, event: &Event, now: &str) -> (r: Step)
    ensures
        r@ == front_control_model(target@, state@, event@, now@),
{
    match state.stage {
        Stage::Start => {
            return read_phase(target, state);
        },
        Stage::ReadingPhase => {
            return match hosts_from(target, state, event, "No hosts to control!") {
                Ok(next) => ask_home(next, None),
                Err(step) => step,
            };
        },
        _ => {},
    }
    if state.index >= state.hosts.len() {
        return state.fail_unexpected();
    }
    match (state.stage, event) {
        (Stage::AskingHome, _) => match home_from(state, event) {
            Ok(next) => {
                let dir = quoted_release_path(target, &next);
                let text = find_archive_command(dir.as_str());
                let argv = create_ssh_command(&next.hosts[next.index], text.as_str());
                next.at(Stage::FindingArchive).run(None, argv, true)
            },
            Err(step) => step,
        },
        (Stage::FindingArchive, Event::Exited { code, output }) => {
            match archive_from(*code, output.as_str()) {
                Some((archive, name)) => {
                    let dir = quoted_release_path(target, &state);
                    let html = html_path(state.home.as_str(), name.as_str());
                    let release = target.release.name();
                    let quoted_archive = quote(archive.as_str());
                    let quoted_html = quote(html.as_str());
                    let text = apply_command(
                        dir.as_str(),
                        quoted_archive.as_str(),
                        quoted_html.as_str(),
                        now,
                        release.as_str(),
                    );
                    let argv = create_ssh_command(&state.hosts[state.index], text.as_str());
                    state.named(name).at(Stage::Applying).run(None, argv, false)
                },
                None => {
                    let dir = target.release.release_dir(state.home.as_str());
                    state.fail(Failure::ArchiveNotFound, dir.as_str())
                },
            }
        },
        (Stage::Applying, Event::Exited { code, output }) => {
            if has_succeeded(*code) {
                let html = html_path(state.home.as_str(), state.name.as_str());
                let quoted_html = quote(html.as_str());
                let text = list_command(quoted_html.as_str());
                let argv = create_ssh_command(&state.hosts[state.index], text.as_str());
                state.at(Stage::Listing).run(None, argv, false)
            } else {
                state.fail_plainly(Failure::CannotApply)
            }
        },
        (Stage::Listing, Event::Exited { code, output }) => {
            let warning = if has_succeeded(*code) {
                None
            } else {
                Some(String::from_str("The public static files cannot be listed"))
            };
            go_on(state, warning)
        },
        _ => state.fail_unexpected(),
    }
}

/// The next step of putting the public files of the release of `target` in
/// place: what [`front_control_at`] answers at the present time.
pub fn front_control(target: &Target, state: Progress, event: &Event) -> (r: Step)
    ensures
        exists|now: Seq<char>| r@ == front_control_model(target@, state@, event@, now),
{
    let now = current_timestamp();
    front_control_at(target, state, event, now.as_str())
}

/// The procedure ends where it fails or succeeds, and only there; once it
/// has ended it asks for nothing more, whatever it is told.
pub proof fn procedure_ends_for_good(
    target: TargetView,
    state: ProgressView,
    event: EventView,
    now: Seq<char>,
)
    ensures
        ({
            let step = front_control_model(target, state, event, now);
            (step.action is Fail || step.action is Succeed) <==> step.state.stage == Stage::Done
        }),
        state.stage == Stage::Done ==> front_control_model(
            target,
            state,
            event,
            now,
        ) == unexpected(state),
{
}

} // verus!
