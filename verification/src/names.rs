//! The checked words that name a release: commit, project, reference, phase,
//! build target, image.

use crate::text::{chars_of, is_whitespace, whitespace};
use vstd::prelude::*;
use vstd::string::*;

verus! {

/// The longest name accepted.
pub const MAX_NAME_LEN: usize = 80;

/// The length of a commit hash.
pub const SHA_LEN: usize = 40;

/// The length of the short form of a commit hash.
pub const SHORT_SHA_LEN: usize = 8;

/// The alphabets that the checked words are written in.
#[derive(Debug, Clone, Copy, PartialEq, Eq, Structural)]
pub enum Alphabet {
    /// ASCII letters and digits, `-`, `_` and `.`.
    Name,
    /// ASCII lower-case letters and digits, `-` and `_`.
    Slug,
    /// Hexadecimal digits of either case.
    Hex,
    /// Anything but white space.
    Token,
}

/// Whether `c` belongs to the alphabet `a`.
pub open spec fn in_alphabet(a: Alphabet, c: char) -> bool {
    match a {
        Alphabet::Name => ('a' <= c <= 'z') || ('A' <= c <= 'Z') || ('0' <= c <= '9') || c == '-'
            || c == '_' || c == '.',
        Alphabet::Slug => ('a' <= c <= 'z') || ('0' <= c <= '9') || c == '-' || c == '_',
        Alphabet::Hex => ('0' <= c <= '9') || ('a' <= c <= 'f') || ('A' <= c <= 'F'),
        Alphabet::Token => !is_whitespace(c),
    }
}

/// Every character of `s` belongs to `a`.
pub open spec fn all_in(a: Alphabet, s: Seq<char>) -> bool {
    forall|i: int| 0 <= i < s.len() ==> in_alphabet(a, #[trigger] s[i])
}

/// One to eighty characters of the alphabet `a`.
pub open spec fn is_word(a: Alphabet, s: Seq<char>) -> bool {
    1 <= s.len() <= MAX_NAME_LEN && all_in(a, s)
}

/// Forty hexadecimal digits.
pub open spec fn is_commit_sha(s: Seq<char>) -> bool {
    s.len() == SHA_LEN && all_in(Alphabet::Hex, s)
}

/// One or more characters, none of them white space.
pub open spec fn is_token(s: Seq<char>) -> bool {
    s.len() >= 1 && all_in(Alphabet::Token, s)
}

/// The first eight characters of a commit hash.
pub open spec fn short_sha(s: Seq<char>) -> Seq<char> {
    s.take(SHORT_SHA_LEN as int)
}

fn alphabet_has(a: Alphabet, c: char) -> (b: bool)
    ensures
        b == in_alphabet(a, c),
{
    match a {
        Alphabet::Name => (c >= 'a' && c <= 'z') || (c >= 'A' && c <= 'Z') || (c >= '0' && c
            <= '9') || c == '-' || c == '_' || c == '.',
        Alphabet::Slug => (c >= 'a' && c <= 'z') || (c >= '0' && c <= '9') || c == '-' || c
            == '_',
        Alphabet::Hex => (c >= '0' && c <= '9') || (c >= 'a' && c <= 'f') || (c >= 'A' && c
            <= 'F'),
        Alphabet::Token => !whitespace(c),
    }
}

/// Whether `s` has between `min` and `max` characters, all of the alphabet `a`.
pub fn check_word(a: Alphabet, s: &str, min: usize, max: usize) -> (b: bool)
    ensures
        b == (min <= s@.len() <= max && all_in(a, s@)),
        s@.len() <= usize::MAX,
{
    let v = chars_of(s);
    if v.len() < min || v.len() > max {
        return false;
    }
    let mut i: usize = 0;
    while i < v.len()
        invariant
            i <= v.len(),
            v@ == s@,
            forall|k: int| 0 <= k < i ==> in_alphabet(a, #[trigger] s@[k]),
        decreases v.len() - i,
    {
        if !alphabet_has(a, v[i]) {
            return false;
        }
        i += 1;
    }
    true
}

/// A commit hash: forty hexadecimal digits.
#[derive(Debug, Hash)]
pub struct CommitSha(String);

impl View for CommitSha {
    type V = Seq<char>;

    closed spec fn view(&self) -> Seq<char> {
        self.0@
    }
}

impl Clone for CommitSha {
    fn clone(&self) -> (r: Self)
        ensures
            r@ == self@,
    {
        proof {
            use_type_invariant(self);
        }
        CommitSha(self.0.clone())
    }
}

impl CommitSha {
    #[verifier::type_invariant]
    closed spec fn well_formed(self) -> bool {
        is_commit_sha(self.0@)
    }

    /// Accepts forty hexadecimal digits and nothing else.
    pub fn parse_str(s: &str) -> (r: Result<CommitSha, ()>)
        ensures
            r is Ok == is_commit_sha(s@),
            r matches Ok(sha) ==> sha@ == s@,
    {
        if check_word(Alphabet::Hex, s, SHA_LEN, SHA_LEN) {
            Ok(CommitSha(String::from_str(s)))
        } else {
            Err(())
        }
    }

    /// The whole hash.
    pub fn get_sha(&self) -> (r: &str)
        ensures
            r@ == self@,
            is_commit_sha(self@),
    {
        proof {
            use_type_invariant(self);
        }
        self.0.as_str()
    }

    /// The short form of the hash: its first eight digits.
    pub fn get_short_sha(&self) -> (r: &str)
        ensures
            r@ == short_sha(self@),
            is_commit_sha(self@),
    {
        proof {
            use_type_invariant(self);
        }
        self.0.as_str().substring_char(0, 8)
    }

    /// The whole hash.
    pub fn as_ref(&self) -> (r: &str)
        ensures
            r@ == self@,
            is_commit_sha(self@),
    {
        self.get_sha()
    }
}

/// The name of a project, of a reference or of a set of public files: one to
/// eighty ASCII letters, digits, `-`, `_` or `.`.
#[derive(Debug, Hash)]
pub struct Name(String);

impl View for Name {
    type V = Seq<char>;

    closed spec fn view(&self) -> Seq<char> {
        self.0@
    }
}

impl Clone for Name {
    fn clone(&self) -> (r: Self)
        ensures
            r@ == self@,
    {
        proof {
            use_type_invariant(self);
        }
        Name(self.0.clone())
    }
}

impl Name {
    #[verifier::type_invariant]
    closed spec fn well_formed(self) -> bool {
        is_word(Alphabet::Name, self.0@)
    }

    /// Accepts a name and nothing else.
    pub fn parse_str(s: &str) -> (r: Result<Name, ()>)
        ensures
            r is Ok == is_word(Alphabet::Name, s@),
            r matches Ok(n) ==> n@ == s@,
    {
        if check_word(Alphabet::Name, s, 1, MAX_NAME_LEN) {
            Ok(Name(String::from_str(s)))
        } else {
            Err(())
        }
    }

    /// The name as text.
    pub fn as_ref(&self) -> (r: &str)
        ensures
            r@ == self@,
            is_word(Alphabet::Name, self@),
    {
        proof {
            use_type_invariant(self);
        }
        self.0.as_str()
    }
}

/// The name of a phase: one to eighty ASCII letters, digits, `-`, `_` or `.`.
#[derive(Debug, Hash)]
pub struct Phase(String);

impl View for Phase {
    type V = Seq<char>;

    closed spec fn view(&self) -> Seq<char> {
        self.0@
    }
}

impl Clone for Phase {
    fn clone(&self) -> (r: Self)
        ensures
            r@ == self@,
    {
        proof {
            use_type_invariant(self);
        }
        Phase(self.0.clone())
    }
}

impl Phase {
    #[verifier::type_invariant]
    closed spec fn well_formed(self) -> bool {
        is_word(Alphabet::Name, self.0@)
    }

    /// Accepts a phase name and nothing else.
    pub fn parse_str(s: &str) -> (r: Result<Phase, ()>)
        ensures
            r is Ok == is_word(Alphabet::Name, s@),
            r matches Ok(n) ==> n@ == s@,
    {
        if check_word(Alphabet::Name, s, 1, MAX_NAME_LEN) {
            Ok(Phase(String::from_str(s)))
        } else {
            Err(())
        }
    }

    /// The phase name as text.
    pub fn as_ref(&self) -> (r: &str)
        ensures
            r@ == self@,
            is_word(Alphabet::Name, self@),
    {
        proof {
            use_type_invariant(self);
        }
        self.0.as_str()
    }
}

/// The name of a docker image: one to eighty ASCII lower-case letters,
/// digits, `-` or `_`.
#[derive(Debug, Hash)]
pub struct ImageName(String);

impl View for ImageName {
    type V = Seq<char>;

    closed spec fn view(&self) -> Seq<char> {
        self.0@
    }
}

impl Clone for ImageName {
    fn clone(&self) -> (r: Self)
        ensures
            r@ == self@,
    {
        proof {
            use_type_invariant(self);
        }
        ImageName(self.0.clone())
    }
}

impl ImageName {
    #[verifier::type_invariant]
    closed spec fn well_formed(self) -> bool {
        is_word(Alphabet::Slug, self.0@)
    }

    /// Accepts an image name and nothing else.
    pub fn parse_str(s: &str) -> (r: Result<ImageName, ()>)
        ensures
            r is Ok == is_word(Alphabet::Slug, s@),
            r matches Ok(n) ==> n@ == s@,
    {
        if check_word(Alphabet::Slug, s, 1, MAX_NAME_LEN) {
            Ok(ImageName(String::from_str(s)))
        } else {
            Err(())
        }
    }

    /// The image name as text.
    pub fn as_ref(&self) -> (r: &str)
        ensures
            r@ == self@,
            is_word(Alphabet::Slug, self@),
    {
        proof {
            use_type_invariant(self);
        }
        self.0.as_str()
    }
}

/// The target of a build: one to eighty ASCII lower-case letters, digits, `-`
/// or `_`.
#[derive(Debug, Hash)]
pub struct BuildTarget(String);

impl View for BuildTarget {
    type V = Seq<char>;

    closed spec fn view(&self) -> Seq<char> {
        self.0@
    }
}

impl Clone for BuildTarget {
    fn clone(&self) -> (r: Self)
        ensures
            r@ == self@,
    {
        proof {
            use_type_invariant(self);
        }
        BuildTarget(self.0.clone())
    }
}

impl BuildTarget {
    #[verifier::type_invariant]
    closed spec fn well_formed(self) -> bool {
        is_word(Alphabet::Slug, self.0@)
    }

    /// Accepts a build target and nothing else.
    pub fn parse_str(s: &str) -> (r: Result<BuildTarget, ()>)
        ensures
            r is Ok == is_word(Alphabet::Slug, s@),
            r matches Ok(n) ==> n@ == s@,
    {
        if check_word(Alphabet::Slug, s, 1, MAX_NAME_LEN) {
            Ok(BuildTarget(String::from_str(s)))
        } else {
            Err(())
        }
    }

    /// The build target as text.
    pub fn as_ref(&self) -> (r: &str)
        ensures
            r@ == self@,
            is_word(Alphabet::Slug, self@),
    {
        proof {
            use_type_invariant(self);
        }
        self.0.as_str()
    }
}

/// An access token: one or more characters, none of them white space.
#[derive(Debug, Hash)]
pub struct ApiToken(String);

impl View for ApiToken {
    type V = Seq<char>;

    closed spec fn view(&self) -> Seq<char> {
        self.0@
    }
}

impl Clone for ApiToken {
    fn clone(&self) -> (r: Self)
        ensures
            r@ == self@,
    {
        proof {
            use_type_invariant(self);
        }
        ApiToken(self.0.clone())
    }
}

impl ApiToken {
    #[verifier::type_invariant]
    closed spec fn well_formed(self) -> bool {
        is_token(self.0@)
    }

    /// Accepts a token and nothing else.
    pub fn parse_str(s: &str) -> (r: Result<ApiToken, ()>)
        ensures
            r is Ok == is_token(s@),
            r matches Ok(n) ==> n@ == s@,
    {
        if check_word(Alphabet::Token, s, 1, usize::MAX) {
            Ok(ApiToken(String::from_str(s)))
        } else {
            Err(())
        }
    }

    /// The token as text.
    pub fn as_ref(&self) -> (r: &str)
        ensures
            r@ == self@,
            is_token(self@),
    {
        proof {
            use_type_invariant(self);
        }
        self.0.as_str()
    }
}

} // verus!
