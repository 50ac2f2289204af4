//! The user, host and port of one SSH target, and the grammar
//! `user@host[:port]` that it is written in.

use crate::text::{
    all_digits, chars_of, decimal, decimal_below_100000_is_short, decimal_is_read_back,
    decimal_string, decimal_value, digit, index_of, index_of_behind, index_of_is_first, is_digit,
    is_whitespace, same_text, string_of, whitespace,
};
use vstd::prelude::*;
use vstd::string::*;

verus! {

/// The port used when a target names none.
pub const DEFAULT_PORT: u16 = 22;

/// One SSH target.
#[derive(Debug, Hash, PartialEq, Eq, PartialOrd, Ord)]
pub struct SshUserHost {
    user: String,
    host: String,
    port: u16,
}

impl Clone for SshUserHost {
    fn clone(&self) -> (r: Self)
        ensures
            r@ == self@,
    {
        SshUserHost { user: self.user.clone(), host: self.host.clone(), port: self.port }
    }
}

/// What an [`SshUserHost`] stands for.
pub ghost struct HostSpec {
    pub user: Seq<char>,
    pub host: Seq<char>,
    pub port: u16,
}

impl View for SshUserHost {
    type V = HostSpec;

    closed spec fn view(&self) -> HostSpec {
        HostSpec { user: self.user@, host: self.host@, port: self.port }
    }
}

/// A character that a user name may hold: any but `/` and white space.
pub open spec fn is_user_char(c: char) -> bool {
    c != '/' && !is_whitespace(c)
}

/// A character that a host name may hold: any but `/`, `:` and white space.
pub open spec fn is_host_char(c: char) -> bool {
    c != '/' && c != ':' && !is_whitespace(c)
}

/// One or more user characters.
pub open spec fn valid_user(s: Seq<char>) -> bool {
    s.len() > 0 && forall|i: int| 0 <= i < s.len() ==> is_user_char(#[trigger] s[i])
}

/// One or more host characters.
pub open spec fn valid_host(s: Seq<char>) -> bool {
    s.len() > 0 && forall|i: int| 0 <= i < s.len() ==> is_host_char(#[trigger] s[i])
}

/// One to five decimal digits.
pub open spec fn valid_port_digits(s: Seq<char>) -> bool {
    1 <= s.len() <= 5 && all_digits(s)
}

/// Where the first `:` of `s` stands, or the length of `s` if it holds none.
pub open spec fn first_colon(s: Seq<char>) -> int {
    index_of(s, ':')
}

/// `s` is a host name, or a host name, a `:` and port digits.
pub open spec fn is_host_port(s: Seq<char>) -> bool {
    let colon = first_colon(s);
    &&& valid_host(s.take(colon))
    &&& colon < s.len() ==> valid_port_digits(s.skip(colon + 1))
}

/// The `@` at index `at` parts a user name from a host with its optional port.
pub open spec fn splits_at(s: Seq<char>, at: int) -> bool {
    &&& 0 < at < s.len()
    &&& s[at] == '@'
    &&& valid_user(s.take(at))
    &&& is_host_port(s.skip(at + 1))
}

/// The greatest index up to `upto` at which `s` splits, or -1.
pub open spec fn last_split(s: Seq<char>, upto: int) -> int
    decreases upto,
{
    if upto <= 0 {
        -1
    } else if splits_at(s, upto) {
        upto
    } else {
        last_split(s, upto - 1)
    }
}

/// The target that `s` is the text of, if it is one: the user name is the
/// longest that leaves a host behind its `@`, the port is 22 where none is
/// written, and a port above 65535 makes no target.
pub open spec fn parse_host_spec(s: Seq<char>) -> Option<HostSpec> {
    let at = last_split(s, s.len() - 1);
    let rest = s.skip(at + 1);
    let colon = first_colon(rest);
    if at < 0 {
        None
    } else if colon == rest.len() {
        Some(HostSpec { user: s.take(at), host: rest, port: DEFAULT_PORT })
    } else if decimal_value(rest.skip(colon + 1)) > u16::MAX {
        None
    } else {
        Some(
            HostSpec {
                user: s.take(at),
                host: rest.take(colon),
                port: decimal_value(rest.skip(colon + 1)) as u16,
            },
        )
    }
}

/// `last_split` finds a split, the greatest one, exactly when there is one.
pub proof fn last_split_is_greatest(s: Seq<char>, upto: int)
    ensures
        last_split(s, upto) == -1 || (0 < last_split(s, upto) <= upto && splits_at(
            s,
            last_split(s, upto),
        )),
        forall|k: int| last_split(s, upto) < k <= upto ==> !splits_at(s, k),
    decreases upto,
{
    if upto > 0 && !splits_at(s, upto) {
        last_split_is_greatest(s, upto - 1);
    }
}

/// The text of a target with its port left out.
pub open spec fn user_at_host(h: HostSpec) -> Seq<char> {
    h.user + seq!['@'] + h.host
}

/// The text of a target as it is shown: the port is left out when it is 22.
pub open spec fn displayed(h: HostSpec) -> Seq<char> {
    if h.port != DEFAULT_PORT {
        user_at_host(h) + seq![':'] + decimal(h.port as nat)
    } else {
        user_at_host(h)
    }
}

/// Decides [`is_user_char`].
pub fn user_char(c: char) -> (b: bool)
    ensures
        b == is_user_char(c),
{
    c != '/' && !whitespace(c)
}

/// Decides [`is_host_char`].
pub fn host_char(c: char) -> (b: bool)
    ensures
        b == is_host_char(c),
{
    c != '/' && c != ':' && !whitespace(c)
}

/// Whether `v[..to]` is a user name.
fn check_user(v: &Vec<char>, to: usize) -> (b: bool)
    requires
        to <= v.len(),
    ensures
        b == valid_user(v@.take(to as int)),
{
    if to == 0 {
        return false;
    }
    let mut i: usize = 0;
    while i < to
        invariant
            i <= to <= v.len(),
            forall|k: int| 0 <= k < i ==> is_user_char(#[trigger] v@.take(to as int)[k]),
        decreases to - i,
    {
        if !user_char(v[i]) {
            assert(!is_user_char(v@.take(to as int)[i as int]));
            return false;
        }
        i += 1;
    }
    true
}

/// The port that the digits `v[from..]` stand for, when they are one to five
/// digits; what they stand for fits in a `u32`.
fn check_port(v: &Vec<char>, from: usize) -> (r: Option<u32>)
    requires
        from <= v.len(),
    ensures
        r is Some == valid_port_digits(v@.skip(from as int)),
        r matches Some(n) ==> n == decimal_value(v@.skip(from as int)),
{
    let n: usize = v.len() - from;
    if n < 1 || n > 5 {
        return None;
    }
    let ghost s = v@.skip(from as int);
    let mut value: u32 = 0;
    let mut i: usize = 0;
    while i < n
        invariant
            i <= n <= 5,
            n == v.len() - from,
            s == v@.skip(from as int),
            forall|k: int| 0 <= k < i ==> is_digit(#[trigger] s[k]),
            value == decimal_value(s.take(i as int)),
            value < pow10(i as nat),
        decreases n - i,
    {
        let c = v[from + i];
        if !digit(c) {
            assert(!is_digit(s[i as int]));
            return None;
        }
        proof {
            assert(s.take(i + 1).drop_last() =~= s.take(i as int));
            reveal_with_fuel(pow10, 6);
        }
        value = value * 10 + (c as u32 - '0' as u32);
        i += 1;
    }
    assert(s.take(n as int) =~= s);
    Some(value)
}

/// Ten to the power `n`.
pub open spec fn pow10(n: nat) -> nat
    decreases n,
{
    if n == 0 {
        1
    } else {
        10 * pow10((n - 1) as nat)
    }
}

/// What stands behind the `@` at `at`, when `v` splits there: where the host
/// ends, and the port digits' value if a port is written.
fn check_host_port(v: &Vec<char>, from: usize) -> (r: Option<(usize, Option<u32>)>)
    requires
        from <= v.len(),
    ensures
        r is Some == is_host_port(v@.skip(from as int)),
        r matches Some((end, port)) ==> {
            let rest = v@.skip(from as int);
            &&& end == from + first_colon(rest)
            &&& from < end <= v.len()
            &&& port is Some == (end < v.len())
            &&& port matches Some(n) ==> n == decimal_value(rest.skip(first_colon(rest) + 1))
        },
{
    let ghost rest = v@.skip(from as int);
    let mut end: usize = from;
    let mut ok: bool = true;
    assert(rest.skip(0) =~= rest);
    while end < v.len() && v[end] != ':'
        invariant
            from <= end <= v.len(),
            rest == v@.skip(from as int),
            first_colon(rest) == (end - from) + first_colon(rest.skip(end - from)),
            ok == forall|k: int| 0 <= k < end - from ==> is_host_char(#[trigger] rest[k]),
        decreases v.len() - end,
    {
        assert(rest.skip(end - from).drop_first() =~= rest.skip(end - from + 1));
        if !host_char(v[end]) {
            ok = false;
        }
        end += 1;
    }
    if !ok || end == from {
        return None;
    }
    if end == v.len() {
        return Some((end, None));
    }
    assert(rest.skip(end - from + 1) =~= v@.skip(end + 1));
    match check_port(v, end + 1) {
        Some(n) => Some((end, Some(n))),
        None => None,
    }
}

impl SshUserHost {
    /// Reads a target written as `user@host` or `user@host:port`.
    pub fn parse_str(s: &str) -> (r: Result<SshUserHost, ()>)
        ensures
            r is Ok == parse_host_spec(s@) is Some,
            r matches Ok(h) ==> Some(h@) == parse_host_spec(s@),
    {
        let v = chars_of(s);
        if v.len() == 0 {
            return Err(());
        }
        let mut at: usize = v.len() - 1;
        while at > 0
            invariant
                at < v.len(),
                v@ == s@,
                last_split(s@, s@.len() - 1) == last_split(s@, at as int),
            decreases at,
        {
            if v[at] == '@' && check_user(&v, at) {
                if let Some((end, digits)) = check_host_port(&v, at + 1) {
                    let ghost rest = s@.skip(at + 1);
                    match digits {
                        None => {
                            let user = string_of(&v, 0, at);
                            let host = string_of(&v, at + 1, v.len());
                            return Ok(SshUserHost { user, host, port: DEFAULT_PORT });
                        },
                        Some(n) => {
                            if n > 65535 {
                                return Err(());
                            }
                            let user = string_of(&v, 0, at);
                            let host = string_of(&v, at + 1, end);
                            assert(v@.subrange(at + 1, end as int) =~= rest.take(
                                first_colon(rest),
                            ));
                            return Ok(SshUserHost { user, host, port: n as u16 });
                        },
                    }
                }
            }
            at -= 1;
        }
        Err(())
    }

    /// The user name.
    pub fn get_user(&self) -> (r: &str)
        ensures
            r@ == self@.user,
    {
        self.user.as_str()
    }

    /// The host name.
    pub fn get_host(&self) -> (r: &str)
        ensures
            r@ == self@.host,
    {
        self.host.as_str()
    }

    /// The port.
    pub fn get_port(&self) -> (r: u16)
        ensures
            r == self@.port,
    {
        self.port
    }

    /// The target as `user@host`, whatever its port.
    pub fn user_host(&self) -> (r: String)
        ensures
            r@ == user_at_host(self@),
    {
        let mut r = self.user.clone();
        r.push('@');
        r.append(self.host.as_str());
        r
    }

    /// The target as it is shown: `user@host`, followed by `:` and the port
    /// unless the port is 22.
    pub fn display(&self) -> (r: String)
        ensures
            r@ == displayed(self@),
    {
        let mut r = self.user_host();
        if self.port != DEFAULT_PORT {
            r.push(':');
            let port = decimal_string(self.port as u64);
            r.append(port.as_str());
        }
        r
    }

    /// Whether two targets have the same user, host and port.
    pub fn same(&self, other: &SshUserHost) -> (r: bool)
        ensures
            r == (self@ == other@),
    {
        self.port == other.port && same_text(self.user.as_str(), other.user.as_str()) && same_text(
            self.host.as_str(),
            other.host.as_str(),
        )
    }
}

/// Where `s` splits at `at` and at no greater index up to `upto`, `at` is
/// what `last_split` finds.
pub proof fn last_split_is_the_only_greatest(s: Seq<char>, at: int, upto: int)
    requires
        at <= upto,
        splits_at(s, at),
        forall|k: int| at < k <= upto ==> !splits_at(s, k),
    ensures
        last_split(s, upto) == at,
    decreases upto - at,
{
    if at < upto {
        last_split_is_the_only_greatest(s, at, upto - 1);
    }
}

/// What is shown of a target that was read is read as the same target: the
/// text may differ from the one that was read, in the port that it leaves
/// out or writes without zeros before it, but not in what it stands for.
pub proof fn display_is_read_back(s: Seq<char>)
    requires
        parse_host_spec(s) is Some,
    ensures
        parse_host_spec(displayed(parse_host_spec(s)->0)) == parse_host_spec(s),
{
    let h = parse_host_spec(s)->0;
    let at = last_split(s, s.len() - 1);
    last_split_is_greatest(s, s.len() - 1);
    let rest = s.skip(at + 1);
    let colon = first_colon(rest);
    index_of_is_first(rest, ':');
    let user = s.take(at);
    let host = rest.take(colon);
    assert(colon == rest.len() ==> host =~= rest);
    let tail = if h.port != DEFAULT_PORT {
        seq![':'] + decimal(h.port as nat)
    } else {
        Seq::<char>::empty()
    };
    let d = displayed(h);
    assert(d =~= user + seq!['@'] + host + tail);
    decimal_is_read_back(h.port as nat);
    decimal_below_100000_is_short(h.port as nat);
    // What is shown splits where what was read splits.
    assert(d.take(at) =~= user);
    assert(d.skip(at + 1) =~= host + tail);
    index_of_behind(host, tail, ':');
    assert(first_colon(d.skip(at + 1)) == host.len());
    assert(d.skip(at + 1).take(host.len() as int) =~= host);
    if h.port != DEFAULT_PORT {
        assert(d.skip(at + 1).skip(host.len() as int + 1) =~= decimal(h.port as nat));
    }
    assert(splits_at(d, at));
    // It splits nowhere behind that: a split there would split what was read.
    assert forall|k: int| at < k <= d.len() - 1 implies !splits_at(d, k) by {
        if splits_at(d, k) {
            let j = k - at - 1;
            if j >= host.len() {
                assert(d[k] == tail[j - host.len()]);
                assert(is_digit(d[k]) || d[k] == ':');
            } else {
                let behind = host.skip(j + 1);
                let end = rest.skip(colon);
                assert(d.skip(k + 1) =~= behind + tail);
                assert(s.skip(k + 1) =~= behind + end);
                assert(s.take(k) =~= d.take(k));
                index_of_behind(behind, tail, ':');
                index_of_behind(behind, end, ':');
                assert(first_colon(end) == 0);
                assert(d.skip(k + 1).take(behind.len() as int) =~= behind);
                assert(s.skip(k + 1).take(behind.len() as int) =~= behind);
                if colon < rest.len() {
                    assert(s.skip(k + 1).skip(behind.len() as int + 1) =~= rest.skip(colon + 1));
                }
                assert(splits_at(s, k));
            }
        }
    }
    last_split_is_the_only_greatest(d, at, d.len() - 1);
}

} // verus!
