use gitlab_deploy::names::{
    check_word, Alphabet, ApiToken, BuildTarget, CommitSha, ImageName, Name, Phase,
};
use gitlab_deploy::ssh_url_prefix::SshUrlPrefix;
use regex::Regex;

const SHA: &str = "0b14cd4fdec3bdffffdaf1de6fe13aaa01c4827f";

#[test]
fn commit_hash_is_forty_hex_digits() {
    let sha = CommitSha::parse_str(SHA).unwrap();
    assert_eq!(sha.get_sha(), SHA);
    assert_eq!(sha.as_ref(), SHA);
    assert_eq!(sha.get_short_sha(), "0b14cd4f");
    assert!(CommitSha::parse_str("0B14CD4FDEC3BDFFFFDAF1DE6FE13AAA01C4827F").is_ok());
    assert!(CommitSha::parse_str("").is_err());
    assert!(CommitSha::parse_str(&SHA[..39]).is_err());
    assert!(CommitSha::parse_str(&format!("{SHA}0")).is_err());
    assert!(CommitSha::parse_str(&format!("{}g", &SHA[..39])).is_err());
    assert!(CommitSha::parse_str(&format!("{}\n", &SHA[..39])).is_err());
    assert!(CommitSha::parse_str(&format!("{} ", SHA)).is_err());
}

#[test]
fn short_hash_is_the_first_eight_digits() {
    let a = CommitSha::parse_str("aaaaaaaabbbbbbbbccccccccddddddddeeeeeeee").unwrap();
    let b = CommitSha::parse_str("aaaaaaaa00000000111111112222222233333333").unwrap();
    assert_eq!(a.get_short_sha(), "aaaaaaaa");
    assert_eq!(a.get_short_sha(), b.get_short_sha());
    assert_eq!(a.clone().get_sha(), a.get_sha());
}

#[test]
fn names_hold_letters_digits_hyphen_underscore_and_dot() {
    assert_eq!(Name::parse_str("Web-site_1.0").unwrap().as_ref(), "Web-site_1.0");
    assert!(Name::parse_str(".").is_ok());
    assert!(Name::parse_str(&"a".repeat(80)).is_ok());
    assert!(Name::parse_str(&"a".repeat(81)).is_err());
    assert!(Name::parse_str("").is_err());
    assert!(Name::parse_str("a b").is_err());
    assert!(Name::parse_str("a/b").is_err());
    assert!(Name::parse_str("a\n").is_err());
    assert!(Name::parse_str("é").is_err());
    assert_eq!(Phase::parse_str("production").unwrap().as_ref(), "production");
    assert!(Phase::parse_str("pre prod").is_err());
}

#[test]
fn image_names_and_build_targets_are_lower_case() {
    assert_eq!(ImageName::parse_str("web-api_2").unwrap().as_ref(), "web-api_2");
    assert!(ImageName::parse_str("Web").is_err());
    assert!(ImageName::parse_str("web.api").is_err());
    assert!(ImageName::parse_str("").is_err());
    assert!(ImageName::parse_str(&"a".repeat(81)).is_err());
    assert_eq!(BuildTarget::parse_str("test").unwrap().as_ref(), "test");
    assert!(BuildTarget::parse_str("Test").is_err());
}

#[test]
fn tokens_hold_no_white_space() {
    assert_eq!(ApiToken::parse_str("glpat-Abc/123=").unwrap().as_ref(), "glpat-Abc/123=");
    assert!(ApiToken::parse_str(&"x".repeat(500)).is_ok());
    assert!(ApiToken::parse_str("").is_err());
    assert!(ApiToken::parse_str("a b").is_err());
    assert!(ApiToken::parse_str("a\u{a0}b").is_err());
    assert!(ApiToken::parse_str("ab\n").is_err());
}

fn grow(alphabet: &[char], length: usize, word: &mut String, check: &mut dyn FnMut(&str)) {
    check(word);
    if length == 0 {
        return;
    }
    for c in alphabet {
        word.push(*c);
        grow(alphabet, length - 1, word, check);
        word.pop();
    }
}

#[test]
fn words_agree_with_their_patterns() {
    let name = Regex::new(r"^[a-zA-Z0-9\-_.]{1,80}$").unwrap();
    let slug = Regex::new(r"^[a-z0-9\-_]{1,80}$").unwrap();
    let token = Regex::new(r"^\S+$").unwrap();
    let alphabet = ['a', 'Z', '0', '-', '_', '.', ' ', '\n', '/', '\u{2003}'];
    grow(&alphabet, 4, &mut String::new(), &mut |s| {
        assert_eq!(Name::parse_str(s).is_ok(), name.is_match(s), "{:?}", s);
        assert_eq!(Phase::parse_str(s).is_ok(), name.is_match(s), "{:?}", s);
        assert_eq!(ImageName::parse_str(s).is_ok(), slug.is_match(s), "{:?}", s);
        assert_eq!(BuildTarget::parse_str(s).is_ok(), slug.is_match(s), "{:?}", s);
        assert_eq!(ApiToken::parse_str(s).is_ok(), token.is_match(s), "{:?}", s);
    });
    for code in 0u32..0x3100 {
        if let Some(c) = char::from_u32(code) {
            let s = format!("a{c}");
            assert_eq!(Name::parse_str(&s).is_ok(), name.is_match(&s), "{:?}", s);
            assert_eq!(ImageName::parse_str(&s).is_ok(), slug.is_match(&s), "{:?}", s);
            assert_eq!(ApiToken::parse_str(&s).is_ok(), token.is_match(&s), "{:?}", s);
        }
    }
}

#[test]
fn lengths_are_counted_in_characters() {
    assert!(check_word(Alphabet::Token, "日本語", 3, 3));
    assert!(!check_word(Alphabet::Token, "日本語", 4, 9));
    assert!(check_word(Alphabet::Hex, "", 0, 0));
    assert!(!check_word(Alphabet::Hex, "g", 0, 5));
}

#[test]
fn ssh_addresses_are_user_at_host_with_an_optional_scheme() {
    for s in [
        "git@git.example.org",
        "ssh://git@git.example.org",
        "ssh://git@git.example.org:2222",
        "git@git.example.org:group",
        "a@b:c:d@e",
        "a@b@c",
        "ssh:@b",
    ] {
        assert_eq!(
            SshUrlPrefix::parse_str(s).map(|p| String::from(p.as_ref())),
            Ok(String::from(s))
        );
    }
    for s in [
        "",
        "ssh://ssh://a@b",
        "git.example.org",
        "ssh://git.example.org",
        "ssh://",
        "git@",
        "@host",
        "git@host:",
        "git@:22",
        "git@host/path",
        "ssh:/git@host",
        "git@ho st",
        "http://git@host",
        "git@host:a/b",
        "git@host\n",
    ] {
        assert!(SshUrlPrefix::parse_str(s).is_err(), "{:?}", s);
    }
}

#[test]
fn ssh_addresses_agree_with_their_pattern() {
    let pattern = Regex::new(r"^(ssh://)?[^/\s]+@[^/\s:]+(?::[^/\s]+)?$").unwrap();
    let pieces = ["ssh://", "a", "@", ":", "/", " ", "s", "\u{3000}"];
    let mut count = 0usize;
    grow_text(&pieces, 6, &mut String::new(), &mut |s| {
        count += 1;
        assert_eq!(SshUrlPrefix::parse_str(s).is_ok(), pattern.is_match(s), "{:?}", s);
    });
    assert!(count > 200_000);
}

fn grow_text(pieces: &[&str], length: usize, text: &mut String, check: &mut dyn FnMut(&str)) {
    check(text);
    if length == 0 {
        return;
    }
    for piece in pieces {
        let before = text.len();
        text.push_str(piece);
        grow_text(pieces, length - 1, text, check);
        text.truncate(before);
    }
}
