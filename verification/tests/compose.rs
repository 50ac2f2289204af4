use gitlab_deploy::compose::{
    check_back_deploy, check_front_deploy, compose_file_name, pin_image, read_image_name,
};
use gitlab_deploy::flow::Failure;
use gitlab_deploy::names::{BuildTarget, CommitSha};
use regex::Regex;

const SHA: &str = "0b14cd4fdec3bdffffdaf1de6fe13aaa01c4827f";

/// The same rule, written as a pattern and applied by the regex crate.
fn pattern_for(name: &str) -> Regex {
    Regex::new(&format!("(?m)^( *image: +{name}) *$")).unwrap()
}

fn by_pattern(pattern: &Regex, compose: &str, tag: &str) -> Option<String> {
    if !pattern.is_match(compose) {
        return None;
    }
    Some(pattern.replace_all(compose, format!("$1:{tag}")).into_owned())
}

#[test]
fn image_line_gets_the_tag() {
    let compose = "services:\n  api:\n    image: website-api\n    ports:\n      - 80:80";
    assert_eq!(
        pin_image(compose, "website-api", "0b14cd4f"),
        Some(String::from(
            "services:\n  api:\n    image: website-api:0b14cd4f\n    ports:\n      - 80:80"
        ))
    );
}

#[test]
fn every_image_line_gets_the_tag_and_loses_its_trailing_spaces() {
    assert_eq!(
        pin_image("image: app  \nx\n  image:   app", "app", "12345678"),
        Some(String::from("image: app:12345678\nx\n  image:   app:12345678"))
    );
}

#[test]
fn other_lines_stay_as_they_are() {
    assert_eq!(pin_image("image: app\n\n  \r\n", "app", "t"), Some(String::from("image: app:t\n\n  \r\n")));
}

#[test]
fn compose_file_without_the_image_gives_nothing() {
    assert_eq!(pin_image("", "app", "t"), None);
    assert_eq!(pin_image("image: other", "app", "t"), None);
    assert_eq!(pin_image("image: app2", "app", "t"), None);
    assert_eq!(pin_image("image:app", "app", "t"), None);
    assert_eq!(pin_image("image: app:latest", "app", "t"), None);
    assert_eq!(pin_image("image: app\r\n", "app", "t"), None);
    assert_eq!(pin_image("\timage: app", "app", "t"), None);
    assert_eq!(pin_image("# image: app", "app", "t"), None);
    assert_eq!(pin_image("image: app # x", "app", "t"), None);
    assert_eq!(pin_image("Image: app", "app", "t"), None);
}

#[test]
fn image_name_is_read_without_the_white_space_around_it() {
    assert_eq!(read_image_name(" website-api\n").unwrap().as_ref(), "website-api");
    assert!(read_image_name("Website").is_err());
    assert!(read_image_name("").is_err());
    assert!(read_image_name("a b").is_err());
}

#[test]
fn public_name_is_read_without_the_white_space_around_it() {
    assert_eq!(check_front_deploy("Website.v2\n").unwrap().as_ref(), "Website.v2");
    assert!(check_front_deploy("\n").is_err());
    assert!(check_front_deploy("a/b").is_err());
}

#[test]
fn compose_file_is_named_after_the_build_target() {
    assert_eq!(compose_file_name(None), "docker-compose.yml");
    let target = BuildTarget::parse_str("test").unwrap();
    assert_eq!(compose_file_name(Some(&target)), "docker-compose.test.yml");
}

#[test]
fn backend_project_is_checked_as_a_whole() {
    let sha = CommitSha::parse_str(SHA).unwrap();
    let (name, text) =
        check_back_deploy("api\n", "\nversion: '3'\nservices:\n  a:\n    image: api \n\n", &sha)
            .unwrap();
    assert_eq!(name.as_ref(), "api");
    assert_eq!(text, "version: '3'\nservices:\n  a:\n    image: api:0b14cd4f");
    assert_eq!(
        check_back_deploy("api\n", "services:\n  a:\n    image: web\n", &sha).err(),
        Some(Failure::ImageNameMismatch)
    );
    assert_eq!(
        check_back_deploy("API\n", "image: API\n", &sha).err(),
        Some(Failure::IncorrectProjectFile)
    );
}

fn grow(pieces: &[&str], length: usize, text: &mut String, check: &mut dyn FnMut(&str)) {
    check(text);
    if length == 0 {
        return;
    }
    for piece in pieces {
        let before = text.len();
        text.push_str(piece);
        grow(pieces, length - 1, text, check);
        text.truncate(before);
    }
}

#[test]
fn pinning_agrees_with_the_pattern_on_every_short_text() {
    let pieces = [" ", "image:", "app", "\n", "x", "\r", "image: app"];
    let pattern = pattern_for("app");
    let mut count = 0usize;
    grow(&pieces, 5, &mut String::new(), &mut |s| {
        count += 1;
        assert_eq!(pin_image(s, "app", "0b14cd4f"), by_pattern(&pattern, s, "0b14cd4f"), "{:?}", s);
    });
    assert!(count > 19_000);
}

#[test]
fn agrees_with_the_pattern_on_names_with_hyphens() {
    let pieces = ["  ", "image: ", "a-b_1", "\n", "a-b", "_1", "\t"];
    let pattern = pattern_for("a-b_1");
    grow(&pieces, 5, &mut String::new(), &mut |s| {
        assert_eq!(pin_image(s, "a-b_1", "ffffffff"), by_pattern(&pattern, s, "ffffffff"), "{:?}", s);
    });
}
