use gitlab_deploy::ssh_user_host::SshUserHost;
use regex::Regex;

fn parts(s: &str) -> Option<(String, String, u16)> {
    SshUserHost::parse_str(s)
        .ok()
        .map(|h| (String::from(h.get_user()), String::from(h.get_host()), h.get_port()))
}

fn some(user: &str, host: &str, port: u16) -> Option<(String, String, u16)> {
    Some((String::from(user), String::from(host), port))
}

/// The same grammar, written as a pattern and read by the regex crate.
fn by_pattern(pattern: &Regex, s: &str) -> Option<(String, String, u16)> {
    let found = pattern.captures(s)?;
    let user = found.get(1).unwrap().as_str();
    let host = found.get(2).unwrap().as_str();
    let port = match found.get(3) {
        Some(port) => port.as_str().parse::<u16>().ok()?,
        None => 22,
    };
    Some((String::from(user), String::from(host), port))
}

#[test]
fn parses_user_and_host_with_default_port() {
    let h = SshUserHost::parse_str("user@host").unwrap();
    assert_eq!(h.get_user(), "user");
    assert_eq!(h.get_host(), "host");
    assert_eq!(h.get_port(), 22);
    assert_eq!(h.user_host(), "user@host");
}

#[test]
fn parses_port() {
    assert_eq!(parts("deploy@10.0.0.1:2200"), some("deploy", "10.0.0.1", 2200));
    assert_eq!(parts("a@b:0"), some("a", "b", 0));
    assert_eq!(parts("a@b:00022"), some("a", "b", 22));
    assert_eq!(parts("a@b:65535"), some("a", "b", 65535));
}

#[test]
fn display_elides_port_22() {
    let h = SshUserHost::parse_str("user@host:22").unwrap();
    assert_eq!(h.display(), "user@host");
    let h = SshUserHost::parse_str("user@host:2200").unwrap();
    assert_eq!(h.display(), "user@host:2200");
    let h = SshUserHost::parse_str("user@host").unwrap();
    assert_eq!(h.display(), "user@host");
    let h = SshUserHost::parse_str("user@host:0").unwrap();
    assert_eq!(h.display(), "user@host:0");
    let h = SshUserHost::parse_str("user@host:65535").unwrap();
    assert_eq!(h.display(), "user@host:65535");
    assert_eq!(h.user_host(), "user@host");
}

#[test]
fn port_above_65535_is_refused() {
    assert_eq!(parts("a@b:65536"), None);
    assert_eq!(parts("a@b:99999"), None);
}

#[test]
fn port_needs_one_to_five_digits() {
    assert_eq!(parts("a@b:"), None);
    assert_eq!(parts("a@b:123456"), None);
    assert_eq!(parts("a@b:000022"), None);
    assert_eq!(parts("a@b:2x"), None);
    assert_eq!(parts("a@b:+22"), None);
    assert_eq!(parts("a@b:22:23"), None);
}

#[test]
fn user_and_host_are_needed() {
    assert_eq!(parts(""), None);
    assert_eq!(parts("@"), None);
    assert_eq!(parts("a@"), None);
    assert_eq!(parts("@b"), None);
    assert_eq!(parts("ab"), None);
    assert_eq!(parts("."), None);
    assert_eq!(parts("a@:22"), None);
}

#[test]
fn slash_and_white_space_are_refused() {
    assert_eq!(parts("a/b@c"), None);
    assert_eq!(parts("a@b/c"), None);
    assert_eq!(parts("a @b"), None);
    assert_eq!(parts("a@b "), None);
    assert_eq!(parts(" a@b"), None);
    assert_eq!(parts("a@b\n"), None);
    assert_eq!(parts("a\u{3000}@b"), None);
    assert_eq!(parts("a@b\u{a0}c"), None);
    assert_eq!(parts("a@b\u{85}"), None);
}

#[test]
fn user_is_the_longest_that_leaves_a_host() {
    assert_eq!(parts("a@b@c"), some("a@b", "c", 22));
    assert_eq!(parts("a@b@"), some("a", "b@", 22));
    assert_eq!(parts("a@@"), some("a", "@", 22));
    assert_eq!(parts("a@@@"), some("a@", "@", 22));
    assert_eq!(parts("@@"), None);
    assert_eq!(parts("a:b@c"), some("a:b", "c", 22));
    assert_eq!(parts("a@b@:22"), some("a", "b@", 22));
    assert_eq!(parts("a@b:1@c"), some("a@b:1", "c", 22));
    assert_eq!(parts("a@b@c:70000"), None);
}

#[test]
fn other_scripts_are_accepted() {
    assert_eq!(parts("用户@主机:2222"), some("用户", "主机", 2222));
    assert_eq!(parts("a@b:２２"), None);
}

#[test]
fn equal_targets_are_equal() {
    let a = SshUserHost::parse_str("a@b").unwrap();
    let b = SshUserHost::parse_str("a@b:22").unwrap();
    let c = SshUserHost::parse_str("a@b:23").unwrap();
    assert!(a.same(&b));
    assert!(!a.same(&c));
    assert_eq!(a, b);
    assert_ne!(a, c);
    assert_eq!(a.clone(), a);
}

#[test]
fn what_is_shown_is_read_as_the_same_target() {
    for s in ["a@b", "a@b:22", "a@b:00022", "a@b:0", "a@b:2200", "a@b@c:65535", "a@b@", "a@@:7"] {
        let h = SshUserHost::parse_str(s).unwrap();
        assert_eq!(SshUserHost::parse_str(&h.display()), Ok(h));
    }
    let alphabet = ['a', '@', ':', '2', '0'];
    grow(&alphabet, 7, &mut String::new(), &mut |s| {
        if let Ok(h) = SshUserHost::parse_str(s) {
            assert_eq!(SshUserHost::parse_str(&h.display()), Ok(h), "{:?}", s);
        }
    });
}

fn grow(alphabet: &[char], length: usize, word: &mut String, check: &mut dyn FnMut(&str)) {
    check(word);
    if length == 0 {
        return;
    }
    for c in alphabet {
        word.push(*c);
        grow(alphabet, length - 1, word, check);
        word.pop();
    }
}

#[test]
fn target_agrees_with_the_pattern_on_every_short_text() {
    let pattern = Regex::new(r"^([^/\s]+)@([^/\s:]+)(?::([0-9]{1,5}))?$").unwrap();
    let alphabet = ['a', '@', ':', '/', ' ', '7', '\u{3000}'];
    let mut count = 0usize;
    grow(&alphabet, 6, &mut String::new(), &mut |s| {
        count += 1;
        assert_eq!(parts(s), by_pattern(&pattern, s), "{:?}", s);
    });
    assert!(count > 100_000);
}

#[test]
fn agrees_with_the_pattern_on_ports() {
    let pattern = Regex::new(r"^([^/\s]+)@([^/\s:]+)(?::([0-9]{1,5}))?$").unwrap();
    let alphabet = ['0', '6', '5', '9', '@', ':', 'x'];
    grow(&alphabet, 5, &mut String::from("u@h:"), &mut |s| {
        assert_eq!(parts(s), by_pattern(&pattern, s), "{:?}", s);
    });
    for port in [0u32, 1, 22, 65534, 65535, 65536, 65540, 70000, 99999, 100000] {
        let s = format!("u@h:{port}");
        assert_eq!(parts(&s), by_pattern(&pattern, &s), "{:?}", s);
    }
}

#[test]
fn agrees_with_the_pattern_on_white_space() {
    let pattern = Regex::new(r"^([^/\s]+)@([^/\s:]+)(?::([0-9]{1,5}))?$").unwrap();
    for code in 0u32..0x3100 {
        if let Some(c) = char::from_u32(code) {
            for s in [format!("{c}@h"), format!("u@{c}"), format!("u{c}@h{c}:1")] {
                assert_eq!(parts(&s), by_pattern(&pattern, &s), "{:?}", s);
            }
        }
    }
}
