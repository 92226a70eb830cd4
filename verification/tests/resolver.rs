use suggested_issues::model::Repository;

#[test]
fn resolves_canonical_https_url() {
    let r = Repository::from_url("https://github.com/rust-lang/rust").unwrap();
    assert_eq!(r.owner, "rust-lang");
    assert_eq!(r.name, "rust");
}

#[test]
fn resolves_short_owner_and_name() {
    let r = Repository::from_url("https://github.com/a/b").unwrap();
    assert_eq!(r.owner, "a");
    assert_eq!(r.name, "b");
}

#[test]
fn resolves_http_scheme_on_forge_host() {
    let r = Repository::from_url("http://github.com/serde-rs/serde").unwrap();
    assert_eq!(r.owner, "serde-rs");
    assert_eq!(r.name, "serde");
}

#[test]
fn keeps_git_suffix_in_name() {
    let r = Repository::from_url("https://github.com/owner/repo.git").unwrap();
    assert_eq!(r.owner, "owner");
    assert_eq!(r.name, "repo.git");
}

#[test]
fn query_string_does_not_change_segments() {
    let r = Repository::from_url("https://github.com/owner/repo?tab=issues").unwrap();
    assert_eq!(r.owner, "owner");
    assert_eq!(r.name, "repo");
}

#[test]
fn rejects_subdomain_host() {
    assert!(Repository::from_url("https://gist.github.com/a/b").is_none());
    assert!(Repository::from_url("https://www.github.com/a/b").is_none());
}

#[test]
fn rejects_other_domains() {
    assert!(Repository::from_url("https://gitlab.com/a/b").is_none());
    assert!(Repository::from_url("https://example.com/a/b").is_none());
    assert!(Repository::from_url("https://github.com.evil.org/a/b").is_none());
}

#[test]
fn rejects_ip_hosts() {
    assert!(Repository::from_url("https://140.82.112.3/a/b").is_none());
    assert!(Repository::from_url("https://[2606:50c0:8000::153]/a/b").is_none());
}

#[test]
fn rejects_zero_or_one_segment() {
    assert!(Repository::from_url("https://github.com").is_none());
    assert!(Repository::from_url("https://github.com/").is_none());
    assert!(Repository::from_url("https://github.com/onlyowner").is_none());
}

#[test]
fn rejects_extra_segments() {
    assert!(Repository::from_url("https://github.com/owner/repo/issues").is_none());
    assert!(Repository::from_url("https://github.com/owner/repo/tree/main").is_none());
}

#[test]
fn rejects_trailing_slash() {
    assert!(Repository::from_url("https://github.com/owner/repo/").is_none());
}

#[test]
fn rejects_empty_segments() {
    assert!(Repository::from_url("https://github.com//repo").is_none());
}

#[test]
fn rejects_unparsable_strings() {
    assert!(Repository::from_url("not a url").is_none());
    assert!(Repository::from_url("").is_none());
    assert!(Repository::from_url("github.com/owner/repo").is_none());
}

#[test]
fn rejects_hostless_schemes() {
    assert!(Repository::from_url("mailto:someone@github.com").is_none());
    assert!(Repository::from_url("data:text/plain,github.com/a/b").is_none());
}

#[test]
fn canonical_url_has_canonical_form() {
    let r = Repository::new("rust-lang", "rust");
    assert_eq!(r.canonical_url(), "https://github.com/rust-lang/rust");
}

#[test]
fn canonical_url_round_trips() {
    let original = Repository::new("rust-lang", "rust");
    let back = Repository::from_url(original.canonical_url().as_str()).unwrap();
    assert_eq!(back.owner, original.owner);
    assert_eq!(back.name, original.name);
}

#[test]
fn canonical_url_round_trips_with_digits_and_dashes() {
    let original = Repository::new("team-42", "parser.rs");
    let back = Repository::from_url(original.canonical_url().as_str()).unwrap();
    assert_eq!(back.owner, original.owner);
    assert_eq!(back.name, original.name);
}
