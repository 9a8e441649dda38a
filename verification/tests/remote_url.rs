use github_actions_ls::remote::{parse_github_path, parse_github_url};

fn pair(owner: &str, name: &str) -> Option<(String, String)> {
    Some((owner.to_string(), name.to_string()))
}

#[test]
fn ssh_url_with_git_suffix() {
    assert_eq!(parse_github_url("git@github.com:acme/widgets.git"), pair("acme", "widgets"));
}

#[test]
fn ssh_url_without_git_suffix() {
    assert_eq!(parse_github_url("git@github.com:acme/widgets"), pair("acme", "widgets"));
}

#[test]
fn https_url_without_git_suffix() {
    assert_eq!(parse_github_url("https://github.com/acme/widgets"), pair("acme", "widgets"));
}

#[test]
fn https_url_with_git_suffix() {
    assert_eq!(parse_github_url("https://github.com/acme/widgets.git"), pair("acme", "widgets"));
}

#[test]
fn http_url_is_understood() {
    assert_eq!(parse_github_url("http://github.com/acme/widgets.git"), pair("acme", "widgets"));
    assert_eq!(parse_github_url("http://github.com/acme/widgets"), pair("acme", "widgets"));
}

#[test]
fn other_hosts_and_schemes_give_nothing() {
    assert_eq!(parse_github_url("ssh://git@gitlab.com/acme/widgets.git"), None);
    assert_eq!(parse_github_url("ssh://git@github.com/acme/widgets.git"), None);
    assert_eq!(parse_github_url("https://gitlab.com/acme/widgets"), None);
    assert_eq!(parse_github_url("git@gitlab.com:acme/widgets.git"), None);
    assert_eq!(parse_github_url("file:///srv/git/widgets.git"), None);
    assert_eq!(parse_github_url(""), None);
    assert_eq!(parse_github_url("acme/widgets"), None);
}

#[test]
fn host_part_must_come_first() {
    assert_eq!(parse_github_url(" git@github.com:acme/widgets.git"), None);
    assert_eq!(parse_github_url("xhttps://github.com/acme/widgets"), None);
    assert_eq!(parse_github_url("HTTPS://github.com/acme/widgets"), None);
}

#[test]
fn url_without_a_slash_after_the_host_gives_nothing() {
    assert_eq!(parse_github_url("git@github.com:widgets.git"), None);
    assert_eq!(parse_github_url("https://github.com/acme"), None);
    assert_eq!(parse_github_url("https://github.com/"), None);
    assert_eq!(parse_github_url("git@github.com:"), None);
}

#[test]
fn git_suffix_is_removed_exactly_once() {
    assert_eq!(
        parse_github_url("git@github.com:acme/widgets.git.git"),
        pair("acme", "widgets.git")
    );
    assert_eq!(parse_github_url("https://github.com/acme/.git"), pair("acme", ""));
}

#[test]
fn host_part_is_removed_exactly_once() {
    assert_eq!(
        parse_github_url("git@github.com:git@github.com:acme/widgets"),
        pair("git@github.com:acme", "widgets")
    );
    assert_eq!(
        parse_github_url("https://github.com/https://github.com/acme/widgets"),
        pair("https:", "")
    );
}

#[test]
fn only_the_first_two_segments_count() {
    assert_eq!(
        parse_github_url("https://github.com/acme/widgets/tree/main"),
        pair("acme", "widgets")
    );
    assert_eq!(parse_github_url("https://github.com/acme/widgets/"), pair("acme", "widgets"));
}

#[test]
fn empty_segments_are_kept() {
    assert_eq!(parse_github_url("git@github.com:/widgets.git"), pair("", "widgets"));
    assert_eq!(parse_github_url("git@github.com:acme/"), pair("acme", ""));
    assert_eq!(parse_github_url("git@github.com:acme/.git"), pair("acme", ""));
}

#[test]
fn suffix_is_removed_before_the_path_is_split() {
    assert_eq!(parse_github_url("https://github.com/acme/widgets/x.git"), pair("acme", "widgets"));
    assert_eq!(parse_github_url("https://github.com/acme.git"), None);
}

#[test]
fn names_beyond_ascii_are_read_by_character() {
    assert_eq!(
        parse_github_url("https://github.com/acmé/wïdgets.git"),
        pair("acmé", "wïdgets")
    );
}

#[test]
fn path_is_split_at_its_first_two_slashes() {
    assert_eq!(parse_github_path("acme/widgets"), pair("acme", "widgets"));
    assert_eq!(parse_github_path("acme/widgets.git"), pair("acme", "widgets"));
    assert_eq!(parse_github_path("acme/widgets/more.git"), pair("acme", "widgets"));
    assert_eq!(parse_github_path("acme"), None);
    assert_eq!(parse_github_path(""), None);
    assert_eq!(parse_github_path(".git"), None);
    assert_eq!(parse_github_path("/"), pair("", ""));
}

#[test]
fn every_owner_and_name_of_a_small_alphabet_round_trips() {
    let parts = ["", "a", "git", ".git", "a.b", "x.gi", "t"];
    let prefixes = ["git@github.com:", "https://github.com/", "http://github.com/"];
    for prefix in prefixes {
        for owner in parts {
            for name in parts {
                let with_suffix = format!("{prefix}{owner}/{name}.git");
                assert_eq!(parse_github_url(&with_suffix), pair(owner, name));
                if !name.ends_with(".git") {
                    let without = format!("{prefix}{owner}/{name}");
                    assert_eq!(parse_github_url(&without), pair(owner, name));
                }
            }
        }
    }
}
