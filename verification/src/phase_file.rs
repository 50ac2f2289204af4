//! The phase file: which hosts each project is deployed to in one phase.
//!
//! A phase file is read line by line. What stands behind the first `#` of a
//! line is a comment. A line that holds anything else is a record: a project
//! id, then the hosts of the project, each written `user@host[:port]`, or a
//! single `.` for the hosts of the record before it.

use crate::names::Phase;
use crate::ssh_user_host::{parse_host_spec, HostSpec, SshUserHost};
use crate::text::{
    chars_of, delete_end_slash_in_place, find_char, index_of, index_of_is_first, join_path,
    joined_path, parse_u64, parse_u64_spec, same_text, string_of, without_end_slash,
};
use scanner_rust::ScannerStr;
use std::collections::HashMap;
use vstd::prelude::*;
use vstd::std_specs::hash::*;
use vstd::string::*;

verus! {

/// The directory under the home directory that holds one file for each phase.
pub const PHASE_DIRECTORY: &'static str = ".gitlab-deploy/phases";

/// Why no hosts were found for a project.
#[derive(Debug, Clone, PartialEq, Eq)]
pub enum PhaseError {
    /// There is no file for the phase.
    PhaseNotFound,
    /// The file holds no record for the project.
    ProjectNotConfiguredForPhase,
    /// The first word of the line is no project id.
    MalformedProjectId { line: usize },
    /// The line holds more behind a `.` that stands for the record before.
    MalformedBackReference { line: usize },
    /// The line refers to the record before, and there is none.
    DanglingBackReference { line: usize },
    /// The line names the host `token` twice.
    DuplicateHost { line: usize, token: String },
    /// The word `token` of the line is no host.
    InvalidHostSpec { line: usize, token: String },
}

/// What a [`PhaseError`] stands for.
pub ghost enum PhaseErrorView {
    PhaseNotFound,
    ProjectNotConfiguredForPhase,
    MalformedProjectId { line: nat },
    MalformedBackReference { line: nat },
    DanglingBackReference { line: nat },
    DuplicateHost { line: nat, token: Seq<char> },
    InvalidHostSpec { line: nat, token: Seq<char> },
}

impl View for PhaseError {
    type V = PhaseErrorView;

    open spec fn view(&self) -> PhaseErrorView {
        match self {
            PhaseError::PhaseNotFound => PhaseErrorView::PhaseNotFound,
            PhaseError::ProjectNotConfiguredForPhase => {
                PhaseErrorView::ProjectNotConfiguredForPhase
            },
            PhaseError::MalformedProjectId { line } => PhaseErrorView::MalformedProjectId {
                line: *line as nat,
            },
            PhaseError::MalformedBackReference { line } => PhaseErrorView::MalformedBackReference {
                line: *line as nat,
            },
            PhaseError::DanglingBackReference { line } => PhaseErrorView::DanglingBackReference {
                line: *line as nat,
            },
            PhaseError::DuplicateHost { line, token } => PhaseErrorView::DuplicateHost {
                line: *line as nat,
                token: token@,
            },
            PhaseError::InvalidHostSpec { line, token } => PhaseErrorView::InvalidHostSpec {
                line: *line as nat,
                token: token@,
            },
        }
    }
}

/// What each of the targets `v` stands for.
pub open spec fn host_specs(v: Seq<SshUserHost>) -> Seq<HostSpec> {
    v.map_values(|h: SshUserHost| h@)
}

/// The text of each of the strings `v`.
pub open spec fn texts(v: Seq<String>) -> Seq<Seq<char>> {
    v.map_values(|s: String| s@)
}

/// The words that `scanner_rust::ScannerStr` cuts a text into.
pub uninterp spec fn tokens_of(text: Seq<char>) -> Seq<Seq<char>>;

/// The words that a scanner has still to give, in the order of its text.
pub uninterp spec fn pending_tokens(scanner: ScannerStr<'_>) -> Seq<Seq<char>>;

/// `scanner_rust::ScannerStr`, which walks over a text that it borrows.
#[verifier::external_type_specification]
#[verifier::external_body]
pub struct ExScannerStr<'a>(ScannerStr<'a>);

/// Calls `ScannerStr::new`: a scanner at the start of `text`, with all the
/// words of `text` still to give.
#[verifier::external_body]
fn scanner_new<'a>(text: &'a str) -> (scanner: ScannerStr<'a>)
    ensures
        pending_tokens(scanner) == tokens_of(text@),
{
    ScannerStr::new(text)
}

/// Calls `ScannerStr::next`: the next word of the text, if one is left; the
/// scanner then stands behind it. On a text in memory the call does not fail.
#[verifier::external_body]
fn scanner_next<'a>(scanner: &mut ScannerStr<'a>) -> (word: Option<&'a str>)
    ensures
        pending_tokens(*old(scanner)).len() == 0 ==> word is None && pending_tokens(
            *final(scanner),
        ) == pending_tokens(*old(scanner)),
        pending_tokens(*old(scanner)).len() > 0 ==> word is Some && word->0@ == pending_tokens(
            *old(scanner),
        )[0] && pending_tokens(*final(scanner)) == pending_tokens(*old(scanner)).drop_first(),
{
    match scanner.next() {
        Ok(word) => word,
        Err(_) => None,
    }
}

/// The words of `line`, in order.
pub fn line_tokens(line: &str) -> (words: Vec<String>)
    ensures
        texts(words@) == tokens_of(line@),
{
    let mut scanner = scanner_new(line);
    let mut words: Vec<String> = Vec::new();
    let ghost all = tokens_of(line@);
    loop
        invariant
            all == tokens_of(line@),
            words@.len() + pending_tokens(scanner).len() == all.len(),
            texts(words@) == all.take(words@.len() as int),
            pending_tokens(scanner) == all.skip(words@.len() as int),
        ensures
            texts(words@) == all,
        decreases pending_tokens(scanner).len(),
    {
        match scanner_next(&mut scanner) {
            None => {
                break;
            },
            Some(word) => {
                words.push(String::from_str(word));
            },
        }
    }
    words
}

/// The lines of a text: each ends before a line feed or at the end of the
/// text, and a line feed at the very end starts no further line.
pub open spec fn lines_of(s: Seq<char>) -> Seq<Seq<char>>
    decreases s.len(),
{
    let n = index_of(s, '\n');
    if s.len() == 0 {
        Seq::empty()
    } else if 0 <= n < s.len() {
        seq![s.take(n)] + lines_of(s.skip(n + 1))
    } else {
        seq![s]
    }
}

/// What stands on a line before its comment.
pub open spec fn before_comment(line: Seq<char>) -> Seq<char> {
    line.take(index_of(line, '#'))
}

/// The word that stands for the hosts of the record before.
pub open spec fn back_reference() -> Seq<char> {
    "."@
}

/// The hosts that the words `tokens` of line `line` name, in the order in
/// which they are written; the first word that is no host, or names a host
/// again, is an error.
pub open spec fn hosts_of(tokens: Seq<Seq<char>>, line: nat) -> Result<
    Seq<HostSpec>,
    PhaseErrorView,
>
    decreases tokens.len(),
{
    if tokens.len() == 0 {
        Ok(Seq::empty())
    } else {
        match hosts_of(tokens.drop_last(), line) {
            Err(e) => Err(e),
            Ok(hosts) => match parse_host_spec(tokens.last()) {
                None => Err(PhaseErrorView::InvalidHostSpec { line, token: tokens.last() }),
                Some(h) => if hosts.contains(h) {
                    Err(PhaseErrorView::DuplicateHost { line, token: tokens.last() })
                } else {
                    Ok(hosts.push(h))
                },
            },
        }
    }
}

/// What the words `tokens` of line `line` record, `last` being the hosts of
/// the record before: nothing where there is no word, else a project id and
/// its hosts.
pub open spec fn record_of(
    tokens: Seq<Seq<char>>,
    line: nat,
    last: Option<Seq<HostSpec>>,
) -> Result<Option<(u64, Seq<HostSpec>)>, PhaseErrorView> {
    if tokens.len() == 0 {
        Ok(None)
    } else {
        match parse_u64_spec(tokens[0]) {
            None => Err(PhaseErrorView::MalformedProjectId { line }),
            Some(id) => if tokens.len() > 1 && tokens[1] == back_reference() {
                if tokens.len() > 2 {
                    Err(PhaseErrorView::MalformedBackReference { line })
                } else {
                    match last {
                        None => Err(PhaseErrorView::DanglingBackReference { line }),
                        Some(hosts) => Ok(Some((id, hosts))),
                    }
                }
            } else {
                match hosts_of(tokens.skip(1), line) {
                    Err(e) => Err(e),
                    Ok(hosts) => Ok(Some((id, hosts))),
                }
            },
        }
    }
}

/// What has been read of a phase file: the hosts of each project, and those
/// of the most recent record.
pub ghost struct PhaseTable {
    pub records: Map<u64, Seq<HostSpec>>,
    pub last: Option<Seq<HostSpec>>,
}

/// The table that the lines `lines` make, read from the first to the last. A
/// later record of a project replaces an earlier one; the first line in
/// error ends the reading. Lines count from 1.
pub open spec fn parse_lines(lines: Seq<Seq<char>>) -> Result<PhaseTable, PhaseErrorView>
    decreases lines.len(),
{
    if lines.len() == 0 {
        Ok(PhaseTable { records: Map::empty(), last: None })
    } else {
        match parse_lines(lines.drop_last()) {
            Err(e) => Err(e),
            Ok(table) => match record_of(
                tokens_of(before_comment(lines.last())),
                lines.len(),
                table.last,
            ) {
                Err(e) => Err(e),
                Ok(None) => Ok(table),
                Ok(Some((id, hosts))) => Ok(
                    PhaseTable { records: table.records.insert(id, hosts), last: Some(hosts) },
                ),
            },
        }
    }
}

/// The hosts of the project `project_id` in the phase file `content`.
pub open spec fn resolve(content: Seq<char>, project_id: u64) -> Result<
    Seq<HostSpec>,
    PhaseErrorView,
> {
    match parse_lines(lines_of(content)) {
        Err(e) => Err(e),
        Ok(table) => if table.records.dom().contains(project_id) {
            Ok(table.records[project_id])
        } else {
            Err(PhaseErrorView::ProjectNotConfiguredForPhase)
        },
    }
}

/// Whether a line is a record of the project `project_id`.
pub open spec fn line_defines(line: Seq<char>, project_id: u64) -> bool {
    let tokens = tokens_of(before_comment(line));
    tokens.len() > 0 && parse_u64_spec(tokens[0]) == Some(project_id)
}

/// A project is in the table only if one of the lines is a record of it.
pub proof fn records_come_from_lines(lines: Seq<Seq<char>>, project_id: u64)
    requires
        parse_lines(lines) is Ok,
        parse_lines(lines)->Ok_0.records.dom().contains(project_id),
    ensures
        exists|i: int| 0 <= i < lines.len() && line_defines(#[trigger] lines[i], project_id),
    decreases lines.len(),
{
    if lines.len() > 0 {
        let before = parse_lines(lines.drop_last())->Ok_0;
        if before.records.dom().contains(project_id) {
            records_come_from_lines(lines.drop_last(), project_id);
            let i = choose|i: int|
                0 <= i < lines.drop_last().len() && line_defines(
                    #[trigger] lines.drop_last()[i],
                    project_id,
                );
            assert(line_defines(lines[i], project_id));
        } else {
            assert(line_defines(lines[lines.len() - 1], project_id));
        }
    }
}

/// In a phase file without an error, a project of which no line is a record
/// is not configured for the phase.
pub proof fn project_without_record_is_not_configured(content: Seq<char>, project_id: u64)
    requires
        parse_lines(lines_of(content)) is Ok,
        forall|i: int|
            0 <= i < lines_of(content).len() ==> !line_defines(
                #[trigger] lines_of(content)[i],
                project_id,
            ),
    ensures
        resolve(content, project_id) == Err::<Seq<HostSpec>, PhaseErrorView>(
            PhaseErrorView::ProjectNotConfiguredForPhase,
        ),
{
    if parse_lines(lines_of(content))->Ok_0.records.dom().contains(project_id) {
        records_come_from_lines(lines_of(content), project_id);
    }
}

/// The hosts of one record are distinct.
pub proof fn hosts_of_are_distinct(tokens: Seq<Seq<char>>, line: nat)
    ensures
        hosts_of(tokens, line) matches Ok(hosts) ==> hosts.no_duplicates(),
    decreases tokens.len(),
{
    if tokens.len() > 0 {
        hosts_of_are_distinct(tokens.drop_last(), line);
    }
}

/// Every list of hosts in the table holds each host once.
pub proof fn tables_hold_distinct_hosts(lines: Seq<Seq<char>>)
    ensures
        parse_lines(lines) matches Ok(table) ==> {
            &&& table.last matches Some(hosts) ==> hosts.no_duplicates()
            &&& forall|id: u64| #[trigger]
                table.records.dom().contains(id) ==> table.records[id].no_duplicates()
        },
    decreases lines.len(),
{
    if lines.len() > 0 {
        tables_hold_distinct_hosts(lines.drop_last());
        hosts_of_are_distinct(tokens_of(before_comment(lines.last())).skip(1), lines.len());
    }
}

/// The hosts found for a project are distinct: they are a set, kept in the
/// order in which the record names them.
pub proof fn resolved_hosts_are_distinct(content: Seq<char>, project_id: u64)
    ensures
        resolve(content, project_id) matches Ok(hosts) ==> hosts.no_duplicates(),
{
    tables_hold_distinct_hosts(lines_of(content));
}

/// Whether a line records nothing: it holds no word before its comment.
pub open spec fn is_blank(line: Seq<char>) -> bool {
    tokens_of(before_comment(line)).len() == 0
}

/// Whether a line is the record of the project `project_id` that refers to
/// the record before it: the id, a `.`, and nothing more.
pub open spec fn refers_back(line: Seq<char>, project_id: u64) -> bool {
    let tokens = tokens_of(before_comment(line));
    tokens.len() == 2 && parse_u64_spec(tokens[0]) == Some(project_id) && tokens[1]
        == back_reference()
}

/// Where all the lines are read without an error, so are the first `n`.
pub proof fn first_lines_are_read(lines: Seq<Seq<char>>, n: int)
    requires
        parse_lines(lines) is Ok,
        0 <= n <= lines.len(),
    ensures
        parse_lines(lines.take(n)) is Ok,
{
    parse_lines_prefix_error(lines, n);
}

/// Lines that record nothing leave the table as it is.
pub proof fn blank_lines_keep_the_table(lines: Seq<Seq<char>>, from: int, to: int)
    requires
        0 <= from <= to <= lines.len(),
        forall|k: int| from <= k < to ==> is_blank(#[trigger] lines[k]),
    ensures
        parse_lines(lines.take(to)) == parse_lines(lines.take(from)),
    decreases to - from,
{
    if from < to {
        blank_lines_keep_the_table(lines, from, to - 1);
        assert(lines.take(to).drop_last() =~= lines.take(to - 1));
        assert(lines.take(to).last() == lines[to - 1]);
        assert(is_blank(lines[to - 1]));
    }
}

/// Lines that are no record of a project leave its hosts as they are.
pub proof fn other_lines_keep_the_hosts(lines: Seq<Seq<char>>, from: int, to: int, id: u64)
    requires
        parse_lines(lines.take(to)) is Ok,
        0 <= from <= to <= lines.len(),
        forall|k: int| from <= k < to ==> !line_defines(#[trigger] lines[k], id),
    ensures
        parse_lines(lines.take(from)) is Ok,
        parse_lines(lines.take(to))->Ok_0.records.dom().contains(id) == parse_lines(
            lines.take(from),
        )->Ok_0.records.dom().contains(id),
        parse_lines(lines.take(to))->Ok_0.records[id] == parse_lines(
            lines.take(from),
        )->Ok_0.records[id],
    decreases to - from,
{
    if from < to {
        assert(lines.take(to).drop_last() =~= lines.take(to - 1));
        assert(lines.take(to).last() == lines[to - 1]);
        assert(!line_defines(lines[to - 1], id));
        other_lines_keep_the_hosts(lines, from, to - 1, id);
    }
}

/// A record that refers to the record before it has the hosts of the
/// nearest record above it, as they stood when it was read.
///
/// The line `above` is a record of the project `a`; the lines between it and
/// the line `at` record nothing; the line `at` holds the id of the project
/// `b` and a `.`; no line behind it is a record of `b`. Then `b` has the
/// hosts that `a` had behind the line `above`. Where no line behind `at` is
/// a record of `a` either, the two projects have the same hosts.
pub proof fn back_reference_takes_the_hosts_of_the_record_above(
    lines: Seq<Seq<char>>,
    above: int,
    at: int,
    a: u64,
    b: u64,
)
    requires
        parse_lines(lines) is Ok,
        0 <= above < at < lines.len(),
        line_defines(lines[above], a),
        forall|k: int| above < k < at ==> is_blank(#[trigger] lines[k]),
        refers_back(lines[at], b),
        forall|k: int| at < k < lines.len() ==> !line_defines(#[trigger] lines[k], b),
    ensures
        parse_lines(lines.take(above + 1)) matches Ok(then) && parse_lines(lines) matches Ok(
            table,
        ) && {
            &&& then.records.dom().contains(a)
            &&& table.records.dom().contains(b)
            &&& table.records[b] == then.records[a]
            &&& (forall|k: int| at < k < lines.len() ==> !line_defines(#[trigger] lines[k], a))
                ==> table.records.dom().contains(a) && table.records[a] == table.records[b]
        },
{
    let n = lines.len() as int;
    assert(lines.take(n) =~= lines);
    first_lines_are_read(lines, above);
    first_lines_are_read(lines, above + 1);
    first_lines_are_read(lines, at + 1);
    // The record above: its hosts are the last that were read.
    assert(lines.take(above + 1).drop_last() =~= lines.take(above));
    assert(lines.take(above + 1).last() == lines[above]);
    let then = parse_lines(lines.take(above + 1))->Ok_0;
    assert(then.last is Some);
    let hosts = then.last->Some_0;
    assert(then.records.dom().contains(a) && then.records[a] == hosts);
    // Nothing is read between the two lines.
    blank_lines_keep_the_table(lines, above + 1, at);
    // The record that refers back takes these hosts.
    assert(lines.take(at + 1).drop_last() =~= lines.take(at));
    assert(lines.take(at + 1).last() == lines[at]);
    let here = parse_lines(lines.take(at + 1))->Ok_0;
    assert(here.records == then.records.insert(b, hosts));
    // No line behind it gives the project other hosts.
    other_lines_keep_the_hosts(lines, at + 1, n, b);
    if forall|k: int| at < k < lines.len() ==> !line_defines(#[trigger] lines[k], a) {
        other_lines_keep_the_hosts(lines, at + 1, n, a);
    }
}

/// In a phase file, a project whose record refers to the record before it is
/// found with the hosts of the project of the nearest record above, where no
/// later line is a record of either.
pub proof fn back_reference_resolves_as_the_record_above(
    content: Seq<char>,
    above: int,
    at: int,
    a: u64,
    b: u64,
)
    requires
        parse_lines(lines_of(content)) is Ok,
        0 <= above < at < lines_of(content).len(),
        line_defines(lines_of(content)[above], a),
        forall|k: int| above < k < at ==> is_blank(#[trigger] lines_of(content)[k]),
        refers_back(lines_of(content)[at], b),
        forall|k: int|
            at < k < lines_of(content).len() ==> !line_defines(#[trigger] lines_of(content)[k], a)
                && !line_defines(lines_of(content)[k], b),
    ensures
        resolve(content, b) is Ok,
        resolve(content, b) == resolve(content, a),
{
    back_reference_takes_the_hosts_of_the_record_above(lines_of(content), above, at, a, b);
}

/// A record that refers to the record before it, where no record stands
/// before it, is an error of its line.
pub proof fn back_reference_without_record_is_dangling(head: Seq<Seq<char>>, line: Seq<char>)
    requires
        parse_lines(head) matches Ok(table) && table.last is None,
        tokens_of(before_comment(line)).len() == 2,
        parse_u64_spec(tokens_of(before_comment(line))[0]) is Some,
        tokens_of(before_comment(line))[1] == back_reference(),
    ensures
        parse_lines(head.push(line)) == Err::<PhaseTable, PhaseErrorView>(
            PhaseErrorView::DanglingBackReference { line: head.len() + 1 },
        ),
{
    assert(head.push(line).drop_last() =~= head);
}

/// The exec form of an optional list of hosts, as a list of what they stand for.
pub open spec fn optional_host_specs(hosts: Option<&Vec<SshUserHost>>) -> Option<Seq<HostSpec>> {
    match hosts {
        None => None,
        Some(v) => Some(host_specs(v@)),
    }
}

/// The exec form of a record, as what it stands for.
pub open spec fn record_view(record: Option<(u64, Vec<SshUserHost>)>) -> Option<
    (u64, Seq<HostSpec>),
> {
    match record {
        None => None,
        Some((id, hosts)) => Some((id, host_specs(hosts@))),
    }
}

/// A copy of the hosts `hosts`.
pub fn clone_hosts(hosts: &Vec<SshUserHost>) -> (r: Vec<SshUserHost>)
    ensures
        host_specs(r@) == host_specs(hosts@),
{
    let mut r: Vec<SshUserHost> = Vec::new();
    let mut i: usize = 0;
    while i < hosts.len()
        invariant
            i <= hosts.len(),
            host_specs(r@) == host_specs(hosts@).take(i as int),
        decreases hosts.len() - i,
    {
        let ghost before = r@;
        let host = hosts[i].clone();
        r.push(host);
        i += 1;
        assert(host_specs(r@) =~= host_specs(before).push(host@));
    }
    r
}

/// Whether `hosts` holds a target equal to `host`.
fn holds(hosts: &Vec<SshUserHost>, host: &SshUserHost) -> (r: bool)
    ensures
        r == host_specs(hosts@).contains(host@),
{
    let mut i: usize = 0;
    while i < hosts.len()
        invariant
            i <= hosts.len(),
            forall|k: int| 0 <= k < i ==> host_specs(hosts@)[k] != host@,
        decreases hosts.len() - i,
    {
        if hosts[i].same(host) {
            assert(host_specs(hosts@)[i as int] == host@);
            return true;
        }
        i += 1;
    }
    false
}

/// Reads the hosts that the words `tokens[from..]` name.
fn parse_hosts(tokens: &Vec<String>, from: usize, line: usize) -> (r: Result<
    Vec<SshUserHost>,
    PhaseError,
>)
    requires
        from <= tokens.len(),
    ensures
        match r {
            Ok(hosts) => hosts_of(texts(tokens@).skip(from as int), line as nat) == Ok::<
                Seq<HostSpec>,
                PhaseErrorView,
            >(host_specs(hosts@)),
            Err(e) => hosts_of(texts(tokens@).skip(from as int), line as nat) == Err::<
                Seq<HostSpec>,
                PhaseErrorView,
            >(e@),
        },
{
    let ghost words = texts(tokens@).skip(from as int);
    let mut hosts: Vec<SshUserHost> = Vec::new();
    let mut i: usize = from;
    assert(host_specs(hosts@) =~= Seq::<HostSpec>::empty());
    while i < tokens.len()
        invariant
            from <= i <= tokens.len(),
            words == texts(tokens@).skip(from as int),
            hosts_of(words.take(i - from), line as nat) == Ok::<Seq<HostSpec>, PhaseErrorView>(
                host_specs(hosts@),
            ),
        decreases tokens.len() - i,
    {
        let token = tokens[i].as_str();
        let ghost prefix = words.take(i - from + 1);
        proof {
            assert(prefix.drop_last() =~= words.take(i - from));
            hosts_of_prefix_error(words, i - from + 1, line as nat);
        }
        match SshUserHost::parse_str(token) {
            Err(_) => {
                return Err(PhaseError::InvalidHostSpec { line, token: String::from_str(token) });
            },
            Ok(host) => {
                if holds(&hosts, &host) {
                    return Err(
                        PhaseError::DuplicateHost { line, token: String::from_str(token) },
                    );
                }
                let ghost before = hosts@;
                hosts.push(host);
                assert(host_specs(hosts@) =~= host_specs(before).push(host@));
            },
        }
        i += 1;
    }
    assert(words.take(tokens.len() - from) =~= words);
    Ok(hosts)
}

/// An error among the first `n` words is the error of all the words.
pub proof fn hosts_of_prefix_error(tokens: Seq<Seq<char>>, n: int, line: nat)
    requires
        0 <= n <= tokens.len(),
    ensures
        hosts_of(tokens.take(n), line) is Err ==> hosts_of(tokens, line) == hosts_of(
            tokens.take(n),
            line,
        ),
    decreases tokens.len() - n,
{
    if n == tokens.len() {
        assert(tokens.take(n) =~= tokens);
    } else {
        hosts_of_prefix_error(tokens.drop_last(), n, line);
        assert(tokens.drop_last().take(n) =~= tokens.take(n));
    }
}

/// Reads what the words `tokens` of line `line` record, `last` being the
/// hosts of the record before.
pub fn parse_record(tokens: &Vec<String>, line: usize, last: Option<&Vec<SshUserHost>>) -> (r:
    Result<Option<(u64, Vec<SshUserHost>)>, PhaseError>)
    ensures
        match r {
            Ok(record) => record_of(texts(tokens@), line as nat, optional_host_specs(last))
                == Ok::<Option<(u64, Seq<HostSpec>)>, PhaseErrorView>(record_view(record)),
            Err(e) => record_of(texts(tokens@), line as nat, optional_host_specs(last)) == Err::<
                Option<(u64, Seq<HostSpec>)>,
                PhaseErrorView,
            >(e@),
        },
{
    if tokens.len() == 0 {
        return Ok(None);
    }
    let id = match parse_u64(tokens[0].as_str()) {
        None => {
            return Err(PhaseError::MalformedProjectId { line });
        },
        Some(id) => id,
    };
    if tokens.len() > 1 && same_text(tokens[1].as_str(), ".") {
        if tokens.len() > 2 {
            return Err(PhaseError::MalformedBackReference { line });
        }
        return match last {
            None => Err(PhaseError::DanglingBackReference { line }),
            Some(hosts) => Ok(Some((id, clone_hosts(hosts)))),
        };
    }
    match parse_hosts(tokens, 1, line) {
        Err(e) => Err(e),
        Ok(hosts) => Ok(Some((id, hosts))),
    }
}

/// Taking the first `n` characters leaves the first `c` where it stood, or
/// none.
pub proof fn index_of_take(s: Seq<char>, n: int, c: char)
    requires
        0 <= n <= s.len(),
    ensures
        index_of(s.take(n), c) == if index_of(s, c) < n {
            index_of(s, c)
        } else {
            n
        },
    decreases s.len(),
{
    index_of_is_first(s, c);
    if n > 0 && s[0] != c {
        index_of_take(s.drop_first(), n - 1, c);
        assert(s.take(n).drop_first() =~= s.drop_first().take(n - 1));
    }
}

/// Whether the map `map` and the id `last` of the project of the most recent
/// record hold what the table `table` holds.
pub open spec fn holds_table(
    map: Map<u64, Vec<SshUserHost>>,
    last: Option<u64>,
    table: PhaseTable,
) -> bool {
    &&& map.dom() == table.records.dom()
    &&& forall|id: u64| #[trigger]
        map.contains_key(id) ==> host_specs(map[id]@) == table.records[id]
    &&& match last {
        Some(id) => map.contains_key(id) && table.last == Some(host_specs(map[id]@)),
        None => table.last is None,
    }
}

/// Finds the hosts of the project `project_id` in the text `content` of a
/// phase file.
///
/// The whole file is read, so an error on any line is reported, the first
/// one first. A project without a record is an error too. The hosts come in
/// the order in which the record names them, each of them once.
pub fn find_ssh_user_hosts(content: &str, project_id: u64) -> (r: Result<
    Vec<SshUserHost>,
    PhaseError,
>)
    ensures
        match r {
            Ok(hosts) => resolve(content@, project_id) == Ok::<Seq<HostSpec>, PhaseErrorView>(
                host_specs(hosts@),
            ),
            Err(e) => resolve(content@, project_id) == Err::<Seq<HostSpec>, PhaseErrorView>(e@),
        },
        r matches Ok(hosts) ==> host_specs(hosts@).no_duplicates(),
{
    broadcast use group_hash_axioms;

    proof {
        resolved_hosts_are_distinct(content@, project_id);
    }
    let v = chars_of(content);
    let mut pos: usize = 0;
    let mut line: usize = 0;
    let mut map: HashMap<u64, Vec<SshUserHost>> = HashMap::new();
    let mut last_project_id: Option<u64> = None;
    let ghost mut done: Seq<Seq<char>> = Seq::empty();
    let ghost mut table = PhaseTable { records: Map::empty(), last: None };
    assert(v@.skip(0) =~= v@);
    while pos < v.len()
        invariant
            pos <= v.len(),
            v@ == content@,
            lines_of(content@) == done + lines_of(v@.skip(pos as int)),
            line == done.len(),
            line <= pos,
            parse_lines(done) == Ok::<PhaseTable, PhaseErrorView>(table),
            holds_table(map@, last_project_id, table),
        decreases v.len() - pos,
    {
        let ghost rest = v@.skip(pos as int);
        let end = find_char(&v, pos, '\n');
        let hash = find_char(&v, pos, '#');
        let cut = if hash < end {
            hash
        } else {
            end
        };
        let text = string_of(&v, pos, cut);
        let next: usize = if end < v.len() {
            end + 1
        } else {
            end
        };
        let ghost this = rest.take(end - pos);
        proof {
            index_of_is_first(rest, '\n');
            index_of_take(rest, end - pos, '#');
            assert(v@.subrange(pos as int, cut as int) =~= before_comment(this));
            if end < v.len() {
                assert(rest.skip(end - pos + 1) =~= v@.skip(next as int));
            } else {
                assert(this =~= rest);
            }
            assert(done.push(this).drop_last() =~= done);
        }
        line += 1;
        let tokens = line_tokens(text.as_str());
        let last = match last_project_id {
            Some(id) => map.get(&id),
            None => None,
        };
        match parse_record(&tokens, line, last) {
            Err(e) => {
                proof {
                    parse_lines_prefix_error(lines_of(content@), done.len() as int + 1);
                    assert(lines_of(content@).take(done.len() as int + 1) =~= done.push(this));
                }
                return Err(e);
            },
            Ok(None) => {},
            Ok(Some((id, hosts))) => {
                proof {
                    table = PhaseTable {
                        records: table.records.insert(id, host_specs(hosts@)),
                        last: Some(host_specs(hosts@)),
                    };
                }
                map.insert(id, hosts);
                last_project_id = Some(id);
            },
        }
        proof {
            done = done.push(this);
        }
        pos = next;
    }
    match map.remove(&project_id) {
        Some(hosts) => Ok(hosts),
        None => Err(PhaseError::ProjectNotConfiguredForPhase),
    }
}

/// An error among the first `n` lines is the error of all the lines.
pub proof fn parse_lines_prefix_error(lines: Seq<Seq<char>>, n: int)
    requires
        0 <= n <= lines.len(),
    ensures
        parse_lines(lines.take(n)) is Err ==> parse_lines(lines) == parse_lines(lines.take(n)),
    decreases lines.len() - n,
{
    if n == lines.len() {
        assert(lines.take(n) =~= lines);
    } else {
        parse_lines_prefix_error(lines.drop_last(), n);
        assert(lines.drop_last().take(n) =~= lines.take(n));
    }
}

/// Where the file of a phase lies under the home directory `home`: in the
/// phase directory, under the phase's name. One slash at the end of `home` is
/// not counted.
pub open spec fn phase_file_path_spec(home: Seq<char>, phase: Seq<char>) -> Seq<char> {
    joined_path(joined_path(without_end_slash(home), PHASE_DIRECTORY@), phase)
}

/// The path of the file of `phase` for the user whose home directory is
/// `home`.
pub fn phase_file_path(home: &str, phase: &Phase) -> (r: String)
    ensures
        r@ == phase_file_path_spec(home@, phase@),
{
    let mut base = String::from_str(home);
    delete_end_slash_in_place(&mut base);
    let directory = join_path(base.as_str(), PHASE_DIRECTORY);
    join_path(directory.as_str(), phase.as_ref())
}

} // verus!
