//! The address under which a repository host is reached over SSH, written
//! `user@host`, `user@host:port` or one of the two behind `ssh://`.

use crate::ssh_user_host::{
    first_colon, host_char, is_host_char, is_user_char, user_char, valid_host, valid_user,
};
use crate::text::{chars_of, find_char, has_at, holds_at, index_of_is_first, slice_of};
use vstd::prelude::*;
use vstd::string::*;

verus! {

/// The scheme that an address may begin with.
pub open spec fn scheme() -> Seq<char> {
    "ssh://"@
}

/// An address without the scheme, if it begins with it.
pub open spec fn without_scheme(s: Seq<char>) -> Seq<char> {
    if has_at(s, 0, scheme()) {
        s.skip(scheme().len() as int)
    } else {
        s
    }
}

/// `s` is a host name, or a host name, a `:` and one or more characters that
/// are neither `/` nor white space.
pub open spec fn is_host_and_rest(s: Seq<char>) -> bool {
    let colon = first_colon(s);
    &&& valid_host(s.take(colon))
    &&& colon < s.len() ==> valid_user(s.skip(colon + 1))
}

/// The `@` at index `at` parts a user name from a host with what may follow
/// it.
pub open spec fn parts_at(s: Seq<char>, at: int) -> bool {
    &&& 0 < at < s.len()
    &&& s[at] == '@'
    &&& valid_user(s.take(at))
    &&& is_host_and_rest(s.skip(at + 1))
}

/// `s` is an address: behind the scheme, if there is one, some `@` parts a
/// user name from a host.
pub open spec fn is_ssh_url_prefix(s: Seq<char>) -> bool {
    exists|at: int| parts_at(without_scheme(s), at)
}

/// Whether `v[from..to]` holds user characters only.
fn users_only(v: &Vec<char>, from: usize, to: usize) -> (b: bool)
    requires
        from <= to <= v.len(),
    ensures
        b == forall|k: int| from <= k < to ==> is_user_char(#[trigger] v@[k]),
{
    let mut i: usize = from;
    while i < to
        invariant
            from <= i <= to <= v.len(),
            forall|k: int| from <= k < i ==> is_user_char(#[trigger] v@[k]),
        decreases to - i,
    {
        if !user_char(v[i]) {
            return false;
        }
        i += 1;
    }
    true
}

/// Whether `v[from..to]` holds host characters only.
fn hosts_only(v: &Vec<char>, from: usize, to: usize) -> (b: bool)
    requires
        from <= to <= v.len(),
    ensures
        b == forall|k: int| from <= k < to ==> is_host_char(#[trigger] v@[k]),
{
    let mut i: usize = from;
    while i < to
        invariant
            from <= i <= to <= v.len(),
            forall|k: int| from <= k < i ==> is_host_char(#[trigger] v@[k]),
        decreases to - i,
    {
        if !host_char(v[i]) {
            return false;
        }
        i += 1;
    }
    true
}

/// Whether the `@` at `at` parts `v` into a user name and a host with what
/// may follow it.
fn check_parts(v: &Vec<char>, at: usize) -> (b: bool)
    requires
        0 < at < v.len(),
        v@[at as int] == '@',
    ensures
        b == parts_at(v@, at as int),
{
    let ghost rest = v@.skip(at + 1);
    let colon = find_char(v, at + 1, ':');
    proof {
        index_of_is_first(rest, ':');
    }
    let user = users_only(v, 0, at);
    let host = colon > at + 1 && hosts_only(v, at + 1, colon);
    let more = colon == v.len() || (colon + 1 < v.len() && users_only(v, colon + 1, v.len()));
    proof {
        if !user {
            let k = choose|k: int| 0 <= k < at && !is_user_char(#[trigger] v@[k]);
            assert(!is_user_char(v@.take(at as int)[k]));
        }
        if !host && colon > at + 1 {
            let k = choose|k: int| at + 1 <= k < colon && !is_host_char(#[trigger] v@[k]);
            assert(!is_host_char(rest.take(colon - at - 1)[k - at - 1]));
        }
        if !more && colon + 1 < v.len() {
            let k = choose|k: int| colon + 1 <= k < v.len() && !is_user_char(#[trigger] v@[k]);
            assert(!is_user_char(rest.skip(colon - at)[k - colon - 1]));
        }
    }
    user && host && more
}

/// An address under which a repository host is reached over SSH.
#[derive(Debug, Hash)]
pub struct SshUrlPrefix(String);

impl View for SshUrlPrefix {
    type V = Seq<char>;

    closed spec fn view(&self) -> Seq<char> {
        self.0@
    }
}

impl Clone for SshUrlPrefix {
    fn clone(&self) -> (r: Self)
        ensures
            r@ == self@,
    {
        proof {
            use_type_invariant(self);
        }
        SshUrlPrefix(self.0.clone())
    }
}

impl SshUrlPrefix {
    #[verifier::type_invariant]
    closed spec fn well_formed(self) -> bool {
        is_ssh_url_prefix(self.0@)
    }

    /// Accepts an address and nothing else.
    pub fn parse_str(s: &str) -> (r: Result<SshUrlPrefix, ()>)
        ensures
            r is Ok == is_ssh_url_prefix(s@),
            r matches Ok(p) ==> p@ == s@,
    {
        let whole = chars_of(s);
        let scheme = chars_of("ssh://");
        let start: usize = if holds_at(&whole, 0, &scheme) {
            scheme.len()
        } else {
            0
        };
        let v = slice_of(&whole, start, whole.len());
        let mut at: usize = 1;
        while at < v.len()
            invariant
                1 <= at,
                v@ == without_scheme(s@),
                forall|k: int| 0 < k < at ==> !parts_at(v@, k),
            decreases v.len() - at,
        {
            if v[at] == '@' && check_parts(&v, at) {
                return Ok(SshUrlPrefix(String::from_str(s)));
            }
            at += 1;
        }
        Err(())
    }

    /// The address as text.
    pub fn as_ref(&self) -> (r: &str)
        ensures
            r@ == self@,
            is_ssh_url_prefix(self@),
    {
        proof {
            use_type_invariant(self);
        }
        self.0.as_str()
    }
}

} // verus!
