//! What a project says of itself in its `deploy` directory, and the docker
//! compose file that is sent to the hosts.
//!
//! A backend project names its docker image in `deploy/image-name.txt`. Its
//! docker compose file must name the same image on a line of its own, as
//! `image: name`, with spaces before, between and behind at will. On every
//! such line the short commit hash is put behind the name as the image's tag,
//! and the spaces behind the name go.

use crate::flow::Failure;
use crate::names::{is_word, short_sha, Alphabet, BuildTarget, CommitSha, ImageName, Name};
use crate::text::{
    chars_of, concat, find_char, has_at, holds_at, index_of, index_of_is_first, slice_of,
    string_of, trim_in_place, trimmed,
};
use vstd::prelude::*;
use vstd::string::*;

verus! {

/// The key of the line that names the image.
pub open spec fn image_key() -> Seq<char> {
    "image:"@
}

/// How many spaces `s` begins with.
pub open spec fn leading_spaces(s: Seq<char>) -> int
    decreases s.len(),
{
    if s.len() > 0 && s[0] == ' ' {
        1 + leading_spaces(s.drop_first())
    } else {
        0
    }
}

/// Where the name ends on a line that names the image `name`: the line is
/// spaces, the key, one space or more, the name, and spaces to its end.
pub open spec fn image_stem(line: Seq<char>, name: Seq<char>) -> Option<int> {
    let key_at = leading_spaces(line);
    let key_end = key_at + image_key().len();
    let gap = leading_spaces(line.skip(key_end));
    let name_end = key_end + gap + name.len();
    if has_at(line, key_at, image_key()) && gap >= 1 && has_at(line, key_end + gap, name)
        && leading_spaces(line.skip(name_end)) == line.len() - name_end {
        Some(name_end)
    } else {
        None
    }
}

/// The line with the tag behind the image name, if it names the image
/// `name`; any other line as it is.
pub open spec fn pinned_line(line: Seq<char>, name: Seq<char>, tag: Seq<char>) -> Seq<char> {
    match image_stem(line, name) {
        Some(end) => line.take(end) + ":"@ + tag,
        None => line,
    }
}

/// The text with every line that names the image `name` pinned to `tag`.
/// Lines end at a line feed.
pub open spec fn pinned(text: Seq<char>, name: Seq<char>, tag: Seq<char>) -> Seq<char>
    decreases text.len(),
{
    let n = index_of(text, '\n');
    if 0 <= n < text.len() {
        pinned_line(text.take(n), name, tag) + seq!['\n'] + pinned(text.skip(n + 1), name, tag)
    } else {
        pinned_line(text, name, tag)
    }
}

/// Whether some line of the text names the image `name`.
pub open spec fn names_image(text: Seq<char>, name: Seq<char>) -> bool
    decreases text.len(),
{
    let n = index_of(text, '\n');
    if 0 <= n < text.len() {
        image_stem(text.take(n), name) is Some || names_image(text.skip(n + 1), name)
    } else {
        image_stem(text, name) is Some
    }
}

/// The name of the docker compose file of a project: that of the build
/// target where one is given.
pub open spec fn compose_name(target: Option<Seq<char>>) -> Seq<char> {
    match target {
        Some(t) => "docker-compose."@ + t + ".yml"@,
        None => "docker-compose.yml"@,
    }
}

/// What the two files of a backend project give: the name of the image and
/// the docker compose file pinned to the commit; or why they give nothing.
pub open spec fn checked_back_deploy(
    image_name: Seq<char>,
    compose: Seq<char>,
    sha: Seq<char>,
) -> Result<(Seq<char>, Seq<char>), Failure> {
    if !is_word(Alphabet::Slug, trimmed(image_name)) {
        Err(Failure::IncorrectProjectFile)
    } else if !names_image(trimmed(compose), trimmed(image_name)) {
        Err(Failure::ImageNameMismatch)
    } else {
        Ok((trimmed(image_name), pinned(trimmed(compose), trimmed(image_name), short_sha(sha))))
    }
}

/// The first index from `from` on at which `v` holds no space.
fn skip_spaces(v: &Vec<char>, from: usize) -> (to: usize)
    requires
        from <= v.len(),
    ensures
        from <= to <= v.len(),
        to - from == leading_spaces(v@.skip(from as int)),
{
    let ghost rest = v@.skip(from as int);
    let mut to: usize = from;
    assert(rest.skip(0) =~= rest);
    while to < v.len() && v[to] == ' '
        invariant
            from <= to <= v.len(),
            rest == v@.skip(from as int),
            leading_spaces(rest) == (to - from) + leading_spaces(rest.skip(to - from)),
        decreases v.len() - to,
    {
        assert(rest.skip(to - from).drop_first() =~= rest.skip(to - from + 1));
        to += 1;
    }
    to
}

/// Where the name ends on the line, if the line names the image `name`.
fn find_image_stem(line: &Vec<char>, name: &Vec<char>) -> (r: Option<usize>)
    ensures
        match r {
            Some(end) => image_stem(line@, name@) == Some(end as int) && end <= line.len(),
            None => image_stem(line@, name@) is None,
        },
{
    let key = chars_of("image:");
    let key_at = skip_spaces(line, 0);
    assert(line@.skip(0) =~= line@);
    if !holds_at(line, key_at, &key) {
        return None;
    }
    let key_end = key_at + key.len();
    let name_at = skip_spaces(line, key_end);
    if name_at == key_end {
        return None;
    }
    if !holds_at(line, name_at, name) {
        return None;
    }
    let name_end = name_at + name.len();
    let end = skip_spaces(line, name_end);
    if end == line.len() {
        Some(name_end)
    } else {
        None
    }
}

/// Pins every line of `compose` that names the image `name` to `tag`.
/// Nothing comes back where no line names the image.
pub fn pin_image(compose: &str, name: &str, tag: &str) -> (r: Option<String>)
    ensures
        r is Some == names_image(compose@, name@),
        r matches Some(text) ==> text@ == pinned(compose@, name@, tag@),
{
    let v = chars_of(compose);
    let image = chars_of(name);
    let mut out = String::new();
    let mut found = false;
    let mut pos: usize = 0;
    assert(v@.skip(0) =~= v@);
    loop
        invariant_except_break
            pos <= v.len(),
            v@ == compose@,
            image@ == name@,
            pinned(compose@, name@, tag@) == out@ + pinned(v@.skip(pos as int), name@, tag@),
            names_image(compose@, name@) == (found || names_image(v@.skip(pos as int), name@)),
        ensures
            out@ == pinned(compose@, name@, tag@),
            found == names_image(compose@, name@),
        decreases v.len() - pos,
    {
        let ghost rest = v@.skip(pos as int);
        let end = find_char(&v, pos, '\n');
        let line = slice_of(&v, pos, end);
        proof {
            index_of_is_first(rest, '\n');
            assert(line@ =~= rest.take(end - pos));
        }
        match find_image_stem(&line, &image) {
            Some(stem) => {
                found = true;
                let head = string_of(&line, 0, stem);
                out.append(head.as_str());
                out.push(':');
                out.append(tag);
                proof {
                    reveal_strlit(":");
                }
            },
            None => {
                let whole = string_of(&line, 0, line.len());
                out.append(whole.as_str());
            },
        }
        if end == v.len() {
            break;
        }
        out.push('\n');
        assert(rest.skip(end - pos + 1) =~= v@.skip(end + 1));
        pos = end + 1;
    }
    if found {
        Some(out)
    } else {
        None
    }
}

/// The name of the docker compose file of a project for a build target.
pub fn compose_file_name(target: Option<&BuildTarget>) -> (r: String)
    ensures
        r@ == compose_name(
            match target {
                Some(t) => Some(t@),
                None => None,
            },
        ),
{
    match target {
        Some(t) => {
            let mut r = concat("docker-compose.", t.as_ref());
            r.append(".yml");
            r
        },
        None => String::from_str("docker-compose.yml"),
    }
}

/// Reads the name of the image out of the text of `deploy/image-name.txt`:
/// the text without the white space around it, if that is an image name.
pub fn read_image_name(text: &str) -> (r: Result<ImageName, ()>)
    ensures
        r is Ok == is_word(Alphabet::Slug, trimmed(text@)),
        r matches Ok(name) ==> name@ == trimmed(text@),
{
    let mut name = String::from_str(text);
    trim_in_place(&mut name);
    ImageName::parse_str(name.as_str())
}

/// Reads the name of the public files out of the text of
/// `deploy/public-name.txt`: the text without the white space around it, if
/// that is a name.
pub fn check_front_deploy(text: &str) -> (r: Result<Name, ()>)
    ensures
        r is Ok == is_word(Alphabet::Name, trimmed(text@)),
        r matches Ok(name) ==> name@ == trimmed(text@),
{
    let mut name = String::from_str(text);
    trim_in_place(&mut name);
    Name::parse_str(name.as_str())
}

/// Checks the two files of a backend project against each other: the text
/// `image_name` of `deploy/image-name.txt` must be an image name, and the
/// docker compose file `compose` must name that image. What comes back is the
/// name, and the docker compose file without the white space around it and
/// with the image pinned to the short hash of the commit.
pub fn check_back_deploy(image_name: &str, compose: &str, commit_sha: &CommitSha) -> (r: Result<
    (ImageName, String),
    Failure,
>)
    ensures
        match r {
            Ok((name, text)) => checked_back_deploy(image_name@, compose@, commit_sha@) == Ok::<
                (Seq<char>, Seq<char>),
                Failure,
            >((name@, text@)),
            Err(e) => checked_back_deploy(image_name@, compose@, commit_sha@) == Err::<
                (Seq<char>, Seq<char>),
                Failure,
            >(e),
        },
{
    let name = match read_image_name(image_name) {
        Ok(name) => name,
        Err(_) => {
            return Err(Failure::IncorrectProjectFile);
        },
    };
    let mut text = String::from_str(compose);
    trim_in_place(&mut text);
    match pin_image(text.as_str(), name.as_ref(), commit_sha.get_short_sha()) {
        Some(pinned) => Ok((name, pinned)),
        None => Err(Failure::ImageNameMismatch),
    }
}

} // verus!
