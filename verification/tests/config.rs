use gitwrap::config::{Config, Reader};
use gitwrap::line::Line;

fn parse(text: &str, current: &str) -> Config {
    Config::parse(&text.to_string(), &current.to_string())
}

#[test]
fn one_remote_section_gives_one_remote() {
    let config = parse("[remote \"origin\"]\n\turl = https://example.com/repo.git\n", "main");
    assert_eq!(config.remotes().len(), 1);
    assert_eq!(config.remotes()[0].name, "origin");
    assert_eq!(config.remotes()[0].url, "https://example.com/repo.git");
    assert_eq!(config.branches().len(), 0);
}

#[test]
fn branch_section_records_its_remote_and_is_current_by_name() {
    let text = "[branch \"main\"]\n\tremote = origin\n";
    let config = parse(text, "main");
    assert_eq!(config.branches().len(), 1);
    assert_eq!(config.branches()[0].name, "main");
    assert_eq!(config.branches()[0].remote, Some("origin".to_string()));
    assert!(config.branches()[0].current);
    assert_eq!(config.remotes().len(), 0);

    let elsewhere = parse(text, "develop");
    assert_eq!(elsewhere.branches().len(), 1);
    assert_eq!(elsewhere.branches()[0].name, "main");
    assert!(!elsewhere.branches()[0].current);
}

#[test]
fn key_value_before_any_section_is_ignored() {
    let config = parse("url = https://example.com/a.git\nremote = origin\n", "main");
    assert_eq!(config.remotes().len(), 0);
    assert_eq!(config.branches().len(), 0);

    let config = parse("url = lost\n[remote \"origin\"]\n", "main");
    assert_eq!(config.remotes().len(), 1);
    assert_eq!(config.remotes()[0].name, "origin");
    assert_eq!(config.remotes()[0].url, "");
}

#[test]
fn consecutive_remote_headers_give_two_remotes() {
    let config = parse("[remote \"a\"]\n[remote \"b\"]\nurl = second\n", "main");
    assert_eq!(config.remotes().len(), 2);
    assert_eq!(config.remotes()[0].name, "a");
    assert_eq!(config.remotes()[0].url, "");
    assert_eq!(config.remotes()[1].name, "b");
    assert_eq!(config.remotes()[1].url, "second");
}

#[test]
fn consecutive_branch_headers_give_two_branches() {
    let config = parse("[branch \"a\"]\n[branch \"b\"]\nremote = origin\n", "b");
    assert_eq!(config.branches().len(), 2);
    assert_eq!(config.branches()[0].name, "a");
    assert_eq!(config.branches()[0].remote, None);
    assert!(!config.branches()[0].current);
    assert_eq!(config.branches()[1].name, "b");
    assert_eq!(config.branches()[1].remote, Some("origin".to_string()));
    assert!(config.branches()[1].current);
}

#[test]
fn a_typical_configuration_is_read_in_order() {
    let text = "[core]\n\trepositoryformatversion = 0\n\tfilemode = true\n\
                [remote \"origin\"]\n\turl = git@example.com:me/repo.git\n\
                \tfetch = +refs/heads/*:refs/remotes/origin/*\n\
                [branch \"main\"]\n\tremote = origin\n\tmerge = refs/heads/main\n\
                [remote \"backup\"]\n\turl = https://backup.example.com/repo.git\n\
                [branch \"feature\"]\n\tmerge = refs/heads/feature\n";
    let config = parse(text, "feature");
    assert_eq!(config.remotes().len(), 2);
    assert_eq!(config.remotes()[0].name, "origin");
    assert_eq!(config.remotes()[0].url, "git@example.com:me/repo.git");
    assert_eq!(config.remotes()[1].name, "backup");
    assert_eq!(config.remotes()[1].url, "https://backup.example.com/repo.git");
    assert_eq!(config.branches().len(), 2);
    assert_eq!(config.branches()[0].name, "main");
    assert_eq!(config.branches()[0].remote, Some("origin".to_string()));
    assert!(!config.branches()[0].current);
    assert_eq!(config.branches()[1].name, "feature");
    assert_eq!(config.branches()[1].remote, None);
    assert!(config.branches()[1].current);
}

#[test]
fn keys_of_the_other_kind_of_section_are_ignored() {
    let config = parse("[remote \"origin\"]\nremote = x\n[branch \"main\"]\nurl = y\n", "main");
    assert_eq!(config.remotes().len(), 1);
    assert_eq!(config.remotes()[0].url, "");
    assert_eq!(config.branches().len(), 1);
    assert_eq!(config.branches()[0].remote, None);
}

#[test]
fn keys_are_matched_exactly() {
    let config = parse("[remote \"origin\"]\nURL = x\nurls = y\n", "main");
    assert_eq!(config.remotes().len(), 1);
    assert_eq!(config.remotes()[0].url, "");
}

#[test]
fn a_later_value_replaces_an_earlier_one() {
    let config = parse("[remote \"origin\"]\nurl = first\nurl=second\n", "main");
    assert_eq!(config.remotes().len(), 1);
    assert_eq!(config.remotes()[0].url, "second");
}

#[test]
fn duplicate_sections_give_duplicate_entries() {
    let config = parse("[remote \"o\"]\nurl = 1\n[remote \"o\"]\nurl = 2\n", "main");
    assert_eq!(config.remotes().len(), 2);
    assert_eq!(config.remotes()[0].name, "o");
    assert_eq!(config.remotes()[0].url, "1");
    assert_eq!(config.remotes()[1].name, "o");
    assert_eq!(config.remotes()[1].url, "2");
}

#[test]
fn empty_and_malformed_texts_give_an_empty_configuration() {
    for text in ["", "\n\n", "nonsense", "[remote origin]\n", "[remote \"\"]\n", "= x\nurl =\n"] {
        let config = parse(text, "main");
        assert_eq!(config.remotes().len(), 0);
        assert_eq!(config.branches().len(), 0);
    }
}

#[test]
fn carriage_returns_and_indentation_are_trimmed() {
    let config = parse("  [remote \"origin\"]  \r\n   url   =   a b  \r\n", "main");
    assert_eq!(config.remotes().len(), 1);
    assert_eq!(config.remotes()[0].name, "origin");
    assert_eq!(config.remotes()[0].url, "a b");
}

#[test]
fn a_key_runs_up_to_the_last_equals_sign() {
    let config = parse("[remote \"origin\"]\nurl = https://example.com/?a=b\n", "main");
    assert_eq!(config.remotes().len(), 1);
    // The key is `url = https://example.com/?a`, which is no key of a remote.
    assert_eq!(config.remotes()[0].url, "");
    let config = parse("[remote \"origin\"]\nurl = x\nurl = =\n", "main");
    assert_eq!(config.remotes()[0].url, "=");
}

#[test]
fn classify_tells_the_kinds_of_line_apart() {
    assert!(matches!(Line::classify("[remote \"origin\"]"),
        Line::RemoteHeader { name } if name == "origin"));
    assert!(matches!(Line::classify("[branch \"feature/x\"]"),
        Line::BranchHeader { name } if name == "feature/x"));
    assert!(matches!(Line::classify("merge = refs/heads/main"),
        Line::KeyValue { key, value } if key == "merge" && value == "refs/heads/main"));
    assert!(matches!(Line::classify("a=b"),
        Line::KeyValue { key, value } if key == "a" && value == "b"));
    assert!(matches!(Line::classify("[core]"), Line::Other));
    assert!(matches!(Line::classify(""), Line::Other));
    assert!(matches!(Line::classify("[remote \"origin\"] trailing"), Line::Other));
    assert!(matches!(Line::classify("x [remote \"origin\"]"), Line::Other));
}

#[test]
fn a_header_name_may_hold_quotes() {
    assert!(matches!(Line::classify("[remote \"a\"b\"]"),
        Line::RemoteHeader { name } if name == "a\"b"));
}

#[test]
fn reader_steps_follow_the_sections() {
    let reader = Reader::new();
    let reader = reader.step(Line::KeyValue { key: "url".into(), value: "lost".into() }, "main");
    let reader = reader.step(Line::BranchHeader { name: "main".into() }, "main");
    let reader = reader.step(Line::Other, "main");
    let reader = reader.step(Line::KeyValue { key: "remote".into(), value: "up".into() }, "main");
    let reader = reader.step(Line::RemoteHeader { name: "up".into() }, "main");
    let reader = reader.step(Line::KeyValue { key: "url".into(), value: "u".into() }, "main");
    let config = reader.finish();
    assert_eq!(config.branches().len(), 1);
    assert_eq!(config.branches()[0].name, "main");
    assert_eq!(config.branches()[0].remote, Some("up".to_string()));
    assert!(config.branches()[0].current);
    assert_eq!(config.remotes().len(), 1);
    assert_eq!(config.remotes()[0].name, "up");
    assert_eq!(config.remotes()[0].url, "u");
}

#[test]
fn names_branch_finds_branch_headers_only() {
    assert!(!Config::names_branch(&"".to_string()));
    assert!(!Config::names_branch(&"[remote \"origin\"]\nurl = x\n".to_string()));
    assert!(Config::names_branch(&"[remote \"origin\"]\n  [branch \"main\"]\n".to_string()));
}

#[test]
fn current_branch_name_is_unused_without_branch_sections() {
    let text = "[remote \"origin\"]\nurl = x\n";
    let one = parse(text, "main");
    let other = parse(text, "");
    assert_eq!(one.remotes().len(), other.remotes().len());
    assert_eq!(one.remotes()[0].name, other.remotes()[0].name);
    assert_eq!(one.remotes()[0].url, other.remotes()[0].url);
}

#[test]
fn from_groups_tries_remote_then_branch_then_key_value() {
    let text = |s: &str| Some(s.to_string());
    assert!(matches!(Line::from_groups(text("r"), text("b"), text("k"), text("v")),
        Line::RemoteHeader { name } if name == "r"));
    assert!(matches!(Line::from_groups(None, text("b"), text("k"), text("v")),
        Line::BranchHeader { name } if name == "b"));
    assert!(matches!(Line::from_groups(None, None, text(" k "), text("\tv ")),
        Line::KeyValue { key, value } if key == "k" && value == "v"));
    assert!(matches!(Line::from_groups(None, None, text("k"), None), Line::Other));
    assert!(matches!(Line::from_groups(None, None, None, text("v")), Line::Other));
    assert!(matches!(Line::from_groups(None, None, None, None), Line::Other));
}
