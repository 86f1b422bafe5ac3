use nixpr::config::Config;
use nixpr::github::{
    describes_change, extract_package_name, filter_prs, is_package_pr, listing_line, page_request,
    passes_filters, FetchError, PullRequest, User,
};

fn make_pr(number: u64, title: &str, login: &str) -> PullRequest {
    PullRequest {
        number,
        title: title.to_string(),
        user: User { login: login.to_string() },
    }
}

fn pair(name: &str, value: &str) -> (String, String) {
    (name.to_string(), value.to_string())
}

#[test]
fn test_is_package_pr() {
    assert!(is_package_pr("fastfetch-rs: init at 0.1.6"));
    assert!(is_package_pr("rundeck: 5.18.0 -> 5.19.0"));
    assert!(is_package_pr("python312Packages.foo: 1.0 -> 2.0"));
    assert!(!is_package_pr("nixos/nginx: add option"));
    assert!(!is_package_pr("treewide: update something"));
    assert!(!is_package_pr("Fix typo in readme"));
}

#[test]
fn test_extract_package_name() {
    assert_eq!(
        extract_package_name("rundeck: 5.18.0 -> 5.19.0"),
        Some("rundeck")
    );
    assert_eq!(
        extract_package_name("fastfetch-rs: init at 0.1.6"),
        Some("fastfetch-rs")
    );
    assert_eq!(extract_package_name("No colon here"), None);
}

#[test]
fn init_at_matches_in_any_case() {
    assert!(is_package_pr("foo: INIT AT 1.0"));
    assert!(is_package_pr("foo: Init At 1.0"));
    assert!(is_package_pr("foo:init at 1"));
    assert!(!is_package_pr("foo: initat 1.0"));
    assert!(!is_package_pr("foo: init  at 1.0"));
}

#[test]
fn only_the_first_colon_separates() {
    assert!(is_package_pr("a: b: 1 -> 2"));
    assert!(is_package_pr("a: init at 1: more"));
    assert_eq!(extract_package_name("a: b: 1 -> 2"), Some("a"));
    assert!(!is_package_pr("init at 1.0: nothing"));
    assert!(!is_package_pr("1 -> 2: nothing"));
}

#[test]
fn arrow_is_found_next_to_whitespace_and_at_the_ends() {
    assert!(is_package_pr("a:->"));
    assert!(is_package_pr("a:   ->   "));
    assert!(is_package_pr("a: 1->2"));
    assert!(!is_package_pr("a: - >"));
    assert!(!is_package_pr("a: >-"));
}

#[test]
fn titles_without_colon_are_no_package_change() {
    assert!(!is_package_pr(""));
    assert!(!is_package_pr("foo 1.0 -> 2.0"));
    assert!(!is_package_pr("foo init at 2.0"));
    assert_eq!(extract_package_name(""), None);
    assert_eq!(extract_package_name("foo 1.0 -> 2.0"), None);
}

#[test]
fn package_name_is_trimmed_and_absent_when_empty() {
    assert_eq!(extract_package_name("  spaced \t: 1 -> 2"), Some("spaced"));
    assert_eq!(extract_package_name(": 1 -> 2"), None);
    assert_eq!(extract_package_name("   : 1 -> 2"), None);
    assert_eq!(extract_package_name("\u{a0}\u{3000}x\u{2003}: y"), Some("x"));
    assert_eq!(extract_package_name("a b: y"), Some("a b"));
    assert_eq!(extract_package_name("héllo: y"), Some("héllo"));
    assert!(is_package_pr(": 1 -> 2"));
}

#[test]
fn describes_change_reads_the_arrow_literally_and_init_at_lowered() {
    assert!(describes_change("1 -> 2", "anything"));
    assert!(describes_change("INIT AT 1", "init at 1"));
    assert!(!describes_change("INIT AT 1", "INIT AT 1"));
    assert!(!describes_change("", ""));
    assert!(!describes_change("nothing", "->"));
}

#[test]
fn filter_keeps_candidates_in_order() {
    let config = Config::default();
    let prs = vec![
        make_pr(1, "rundeck: 5.18.0 -> 5.19.0", "alice"),
        make_pr(2, "rundeck: 5.18.0 -> 5.19.0", "r-ryantm"),
        make_pr(3, "nixos/nginx: 1 -> 2", "alice"),
        make_pr(4, "Fix typo in readme", "alice"),
        make_pr(5, "fastfetch-rs: init at 0.1.6", "bob"),
        make_pr(6, "Treewide: init at 1", "bob"),
        make_pr(7, "foo: 1 -> 2", "R-RyanTM"),
    ];
    let kept = filter_prs(&config, prs);
    let numbers: Vec<u64> = kept.iter().map(|pr| pr.number).collect();
    assert_eq!(numbers, vec![1, 5]);
    assert_eq!(kept[0], make_pr(1, "rundeck: 5.18.0 -> 5.19.0", "alice"));
}

#[test]
fn exclusion_and_classification_are_independent() {
    let config = Config::default();
    let excluded = make_pr(1, "nixos/nginx: add option", "alice");
    assert!(config.is_title_excluded(&excluded.title));
    assert!(!is_package_pr(&excluded.title));
    let excluded_change = make_pr(2, "nixos/nginx: 1 -> 2", "alice");
    assert!(is_package_pr(&excluded_change.title));
    assert!(!passes_filters(&config, &excluded_change));
    assert!(passes_filters(&config, &make_pr(3, "nginx: 1 -> 2", "alice")));
    assert!(!passes_filters(&config, &make_pr(3, "nginx: 1 -> 2", "r-ryantm")));
    assert!(!passes_filters(&config, &make_pr(3, "nginx: add option", "alice")));
}

#[test]
fn filter_of_nothing_is_nothing() {
    assert!(filter_prs(&Config::default(), Vec::new()).is_empty());
}

#[test]
fn listing_line_names_package_or_unknown() {
    assert_eq!(
        listing_line(&make_pr(42, "rundeck: 5.18.0 -> 5.19.0", "alice")),
        "  #42 [rundeck] rundeck: 5.18.0 -> 5.19.0 (by @alice)"
    );
    assert_eq!(
        listing_line(&make_pr(7, ": init at 1", "bob")),
        "  #7 [unknown] : init at 1 (by @bob)"
    );
}

#[test]
fn page_request_without_token() {
    let request = page_request(&Config::default(), 100, 3);
    assert_eq!(request.url, "https://api.github.com/repos/NixOS/nixpkgs/pulls");
    assert_eq!(
        request.query,
        vec![
            pair("state", "open"),
            pair("sort", "created"),
            pair("direction", "desc"),
            pair("per_page", "100"),
            pair("page", "3"),
        ]
    );
    assert_eq!(
        request.headers,
        vec![
            pair("User-Agent", "nixpr"),
            pair("Accept", "application/vnd.github.v3+json"),
        ]
    );
}

#[test]
fn page_request_with_token() {
    let mut config = Config::default();
    config.github.token = Some("SECRET".to_string());
    assert_eq!(config.github_token(), Some("SECRET"));
    let request = page_request(&config, 5, 4294967295);
    assert_eq!(request.query[3], pair("per_page", "5"));
    assert_eq!(request.query[4], pair("page", "4294967295"));
    assert_eq!(request.headers.len(), 3);
    assert_eq!(request.headers[2], pair("Authorization", "Bearer SECRET"));
}

#[test]
fn fetch_error_messages() {
    assert_eq!(
        FetchError::Unreachable("timeout".to_string()).message(),
        "Failed to fetch PRs from GitHub: timeout"
    );
    assert_eq!(
        FetchError::Status { status: "403 Forbidden".to_string(), body: "rate limit".to_string() }
            .message(),
        "GitHub API returned 403 Forbidden: rate limit"
    );
    assert_eq!(
        FetchError::Malformed("eof".to_string()).message(),
        "Failed to parse GitHub response: eof"
    );
}
