//! The programs that reach a host, and the shell texts that they carry.
//!
//! A shell text is read by the shell of the host. Where a path is put into
//! one, the caller hands it in already quoted; these functions add nothing
//! to it and take nothing away.

use crate::phase_file::texts;
use crate::ssh_user_host::{user_at_host, HostSpec, SshUserHost};
use crate::text::{concat, decimal, decimal_string};
use vstd::prelude::*;
use vstd::string::*;

verus! {

/// The arguments that run `command` on `host` through `ssh`: without a
/// prompt, without checking the host key, on the port of the host. The whole
/// of `command` is one argument.
pub open spec fn ssh_argv(host: HostSpec, command: Seq<char>) -> Seq<Seq<char>> {
    seq![
        "ssh"@,
        "-o"@,
        "StrictHostKeyChecking=no"@,
        "-o"@,
        "BatchMode=yes"@,
        "-p"@,
        decimal(host.port as nat),
        user_at_host(host),
        command,
    ]
}

/// The arguments that copy the local file `from` to the path `to` on `host`
/// through `scp`, under the same conditions.
pub open spec fn scp_argv(host: HostSpec, from: Seq<char>, to: Seq<char>) -> Seq<Seq<char>> {
    seq![
        "scp"@,
        "-o"@,
        "StrictHostKeyChecking=no"@,
        "-o"@,
        "BatchMode=yes"@,
        "-P"@,
        decimal(host.port as nat),
        from,
        user_at_host(host) + ":"@ + to,
    ]
}

/// Adds one argument.
pub fn push_arg(argv: &mut Vec<String>, arg: &str)
    ensures
        texts(final(argv)@) == texts(old(argv)@).push(arg@),
{
    argv.push(String::from_str(arg));
}

/// The `ssh` invocation that runs `command` on `host`.
pub fn create_ssh_command(host: &SshUserHost, command: &str) -> (argv: Vec<String>)
    ensures
        texts(argv@) == ssh_argv(host@, command@),
{
    let mut argv: Vec<String> = Vec::new();
    push_arg(&mut argv, "ssh");
    push_arg(&mut argv, "-o");
    push_arg(&mut argv, "StrictHostKeyChecking=no");
    push_arg(&mut argv, "-o");
    push_arg(&mut argv, "BatchMode=yes");
    push_arg(&mut argv, "-p");
    let port = decimal_string(host.get_port() as u64);
    push_arg(&mut argv, port.as_str());
    let target = host.user_host();
    push_arg(&mut argv, target.as_str());
    push_arg(&mut argv, command);
    argv
}

/// The `scp` invocation that copies the local file `from` to `to` on `host`.
pub fn create_scp_command(host: &SshUserHost, from: &str, to: &str) -> (argv: Vec<String>)
    ensures
        texts(argv@) == scp_argv(host@, from@, to@),
{
    let mut argv: Vec<String> = Vec::new();
    push_arg(&mut argv, "scp");
    push_arg(&mut argv, "-o");
    push_arg(&mut argv, "StrictHostKeyChecking=no");
    push_arg(&mut argv, "-o");
    push_arg(&mut argv, "BatchMode=yes");
    push_arg(&mut argv, "-P");
    let port = decimal_string(host.get_port() as u64);
    push_arg(&mut argv, port.as_str());
    push_arg(&mut argv, from);
    let mut target = host.user_host();
    target.append(":");
    target.append(to);
    push_arg(&mut argv, target.as_str());
    argv
}

/// The shell text that asks a host for the home directory.
pub open spec fn home_text() -> Seq<char> {
    "echo $HOME"@
}

/// The shell text that tests whether the quoted path is a file.
pub open spec fn test_file_text(quoted: Seq<char>) -> Seq<char> {
    "test -f "@ + quoted
}

/// The shell text that tests whether the quoted path is a directory.
pub open spec fn test_directory_text(quoted: Seq<char>) -> Seq<char> {
    "test -d "@ + quoted
}

/// The shell text that lists the quoted path.
pub open spec fn list_text(quoted: Seq<char>) -> Seq<char> {
    "ls "@ + quoted
}

/// The shell text that makes the quoted directory and those above it.
pub open spec fn make_directory_text(quoted: Seq<char>) -> Seq<char> {
    "mkdir -p "@ + quoted
}

/// What a test of existence has found: exit code 0 says yes, 1 says no, and
/// anything else says nothing.
pub open spec fn existence(code: Option<i32>) -> Option<bool> {
    match code {
        Some(c) => if c == 0 {
            Some(true)
        } else if c == 1 {
            Some(false)
        } else {
            None
        },
        None => None,
    }
}

/// Reads the exit code of a test of existence.
pub fn check_exist(code: Option<i32>) -> (r: Option<bool>)
    ensures
        r == existence(code),
{
    match code {
        Some(c) => if c == 0 {
            Some(true)
        } else if c == 1 {
            Some(false)
        } else {
            None
        },
        None => None,
    }
}

/// The shell text that tests whether the quoted path is a file.
pub fn test_file_command(quoted: &str) -> (r: String)
    ensures
        r@ == test_file_text(quoted@),
{
    concat("test -f ", quoted)
}

/// The shell text that tests whether the quoted path is a directory.
pub fn test_directory_command(quoted: &str) -> (r: String)
    ensures
        r@ == test_directory_text(quoted@),
{
    concat("test -d ", quoted)
}

/// The shell text that lists the quoted path.
pub fn list_command(quoted: &str) -> (r: String)
    ensures
        r@ == list_text(quoted@),
{
    concat("ls ", quoted)
}

/// The shell text that makes the quoted directory and those above it.
pub fn make_directory_command(quoted: &str) -> (r: String)
    ensures
        r@ == make_directory_text(quoted@),
{
    concat("mkdir -p ", quoted)
}

} // verus!
