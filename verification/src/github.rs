//! Pull requests as the remote listing gives them, the title rules, and the
//! request that asks for one page of the listing.

use crate::config::{Config, ConfigView};
use crate::text::{
    chars_of, contains_chars, decimal, find_char, has_infix, lemma_trim_keeps_infix, lowercase,
    lowercase_of, occurs_at, push_decimal, trim, trim_bounds,
};
use vstd::prelude::*;
use vstd::string::*;

verus! {

/// The author of a pull request.
#[derive(Debug, PartialEq, Eq)]
pub struct User {
    pub login: String,
}

/// An open pull request.
#[derive(Debug, PartialEq, Eq)]
pub struct PullRequest {
    pub number: u64,
    pub title: String,
    pub user: User,
}

/// The request for one page of the listing of open pull requests.
#[derive(Debug, PartialEq, Eq)]
pub struct PageRequest {
    pub url: String,
    pub query: Vec<(String, String)>,
    pub headers: Vec<(String, String)>,
}

/// Why a page of the listing could not be had.
#[derive(Debug, PartialEq, Eq)]
pub enum FetchError {
    /// The request could not be sent or answered; the cause.
    Unreachable(String),
    /// The answer was not a success; its status and body.
    Status { status: String, body: String },
    /// The answer was not a list of pull requests; the cause.
    Malformed(String),
}

/// The texts of a list of name and value pairs.
pub open spec fn pairs(v: Seq<(String, String)>) -> Seq<(Seq<char>, Seq<char>)> {
    v.map_values(|p: (String, String)| (p.0@, p.1@))
}

/// The listing's address.
pub open spec fn listing_url() -> Seq<char> {
    "https://api.github.com/repos/NixOS/nixpkgs/pulls"@
}

/// The query for page `page` of the open pull requests, newest first.
pub open spec fn page_query(per_page: u8, page: u32) -> Seq<(Seq<char>, Seq<char>)> {
    seq![
        ("state"@, "open"@),
        ("sort"@, "created"@),
        ("direction"@, "desc"@),
        ("per_page"@, decimal(per_page as nat)),
        ("page"@, decimal(page as nat)),
    ]
}

/// The headers of a request, with the credential where there is one.
pub open spec fn page_headers(token: Option<Seq<char>>) -> Seq<(Seq<char>, Seq<char>)> {
    let common = seq![
        ("User-Agent"@, "nixpr"@),
        ("Accept"@, "application/vnd.github.v3+json"@),
    ];
    match token {
        Some(token) => common.push(("Authorization"@, "Bearer "@ + token)),
        None => common,
    }
}

/// The line that lists a pull request: its number, its package or
/// "unknown", its title and its author.
pub open spec fn listing_line_of(pr: PullRequest) -> Seq<char> {
    "  #"@ + decimal(pr.number as nat) + " ["@ + match package_name(pr.title@) {
        Some(name) => name,
        None => "unknown"@,
    } + "] "@ + pr.title@ + " (by @"@ + pr.user.login@ + ")"@
}

/// What a title says after its first colon, trimmed; nothing without a colon.
pub open spec fn description(title: Seq<char>) -> Option<Seq<char>> {
    match title.index_of_first(':') {
        Some(i) => Some(trim(title.skip(i + 1))),
        None => None,
    }
}

/// Whether a trimmed description, together with its lower-case form, tells of
/// a new package or of a version bump.
pub open spec fn tells_of_change(rest: Seq<char>, lowered: Seq<char>) -> bool {
    has_infix(rest, "->"@) || has_infix(lowered, "init at"@)
}

/// Whether a title announces a package change: after its first colon stands
/// an arrow, or "init at" in any case.
pub open spec fn is_package_change(title: Seq<char>) -> bool {
    match description(title) {
        Some(rest) => tells_of_change(rest, lowercase_of(rest)),
        None => false,
    }
}

/// The package that a title names: what stands before its first colon,
/// trimmed, unless that is empty.
pub open spec fn package_name(title: Seq<char>) -> Option<Seq<char>> {
    match title.index_of_first(':') {
        Some(i) => {
            let name = trim(title.take(i));
            if name.len() == 0 {
                None
            } else {
                Some(name)
            }
        },
        None => None,
    }
}

/// Whether a pull request passes the exclusion rules and announces a package
/// change.
pub open spec fn is_candidate(rules: ConfigView, pr: PullRequest) -> bool {
    &&& !rules.excludes_user(pr.user.login@)
    &&& !rules.excludes_title(pr.title@)
    &&& is_package_change(pr.title@)
}

/// [`is_candidate`] under fixed rules.
pub open spec fn candidate_under(rules: ConfigView) -> spec_fn(PullRequest) -> bool {
    |pr: PullRequest| is_candidate(rules, pr)
}

/// The candidates among `prs`, in their order.
pub open spec fn candidates(rules: ConfigView, prs: Seq<PullRequest>) -> Seq<PullRequest> {
    prs.filter(candidate_under(rules))
}

/// A title whose description holds "init at" once it is lower-cased
/// announces a package change.
pub proof fn lemma_init_at_is_package_change(title: Seq<char>)
    requires
        title.contains(':'),
        has_infix(lowercase_of(description(title)->Some_0), "init at"@),
    ensures
        is_package_change(title),
{
    title.index_of_first_ensures(':');
}

/// A title made of a text without a colon, a colon, and a text that trimming
/// leaves as it is and whose lower-case form holds "init at", announces a
/// package change.
pub proof fn lemma_init_at_after_colon(name: Seq<char>, rest: Seq<char>)
    requires
        !name.contains(':'),
        trim(rest) == rest,
        has_infix(lowercase_of(rest), "init at"@),
    ensures
        is_package_change(name + seq![':'] + rest),
{
    let title = name + seq![':'] + rest;
    title.index_of_first_ensures(':');
    assert(title[name.len() as int] == ':');
    let first = title.index_of_first(':')->Some_0;
    if first < name.len() {
        assert(name[first] == ':');
    }
    assert(title.skip(first + 1) =~= rest);
}

/// A title with an arrow anywhere after a colon, and so after its first
/// colon, announces a package change.
pub proof fn lemma_arrow_is_package_change(title: Seq<char>, colon: int)
    requires
        0 <= colon < title.len(),
        title[colon] == ':',
        has_infix(title.skip(colon + 1), "->"@),
    ensures
        is_package_change(title),
{
    reveal_strlit("->");
    title.index_of_first_ensures(':');
    let first = title.index_of_first(':')->Some_0;
    let rest = title.skip(first + 1);
    let tail = title.skip(colon + 1);
    let arrow = "->"@;
    let i = choose|i: int| occurs_at(tail, arrow, i);
    assert(rest.subrange(i + colon - first, i + colon - first + 2) =~= tail.subrange(i, i + 2));
    assert(occurs_at(rest, arrow, i + colon - first));
    lemma_trim_keeps_infix(rest, arrow);
}

/// A title without a colon announces no package change and names no package.
pub proof fn lemma_no_colon_no_package(title: Seq<char>)
    requires
        !title.contains(':'),
    ensures
        !is_package_change(title),
        package_name(title) is None,
{
    title.index_of_first_ensures(':');
}

/// Decides [`tells_of_change`].
pub fn describes_change(rest: &str, lowered: &str) -> (b: bool)
    ensures
        b == tells_of_change(rest@, lowered@),
{
    let arrow = chars_of("->");
    if contains_chars(&chars_of(rest), &arrow) {
        return true;
    }
    let init_at = chars_of("init at");
    contains_chars(&chars_of(lowered), &init_at)
}

/// Whether `title` announces a package change, as in "package: init at 1.0"
/// or "package: 1.0 -> 2.0".
pub fn is_package_pr(title: &str) -> (b: bool)
    ensures
        b == is_package_change(title@),
{
    let v = chars_of(title);
    match find_char(&v, ':') {
        None => false,
        Some(i) => {
            let (from, to) = trim_bounds(&v, i + 1, v.len());
            let rest = title.substring_char(from, to);
            let lowered = lowercase(rest);
            describes_change(rest, lowered.as_str())
        },
    }
}

/// The package name of `title`: the part before the first colon, trimmed.
pub fn extract_package_name(title: &str) -> (r: Option<&str>)
    ensures
        match r {
            Some(name) => package_name(title@) == Some(name@),
            None => package_name(title@) is None,
        },
{
    let v = chars_of(title);
    match find_char(&v, ':') {
        None => None,
        Some(i) => {
            let (from, to) = trim_bounds(&v, 0, i);
            if from == to {
                None
            } else {
                Some(title.substring_char(from, to))
            }
        },
    }
}

/// The line that lists `pr`.
pub fn listing_line(pr: &PullRequest) -> (line: String)
    ensures
        line@ == listing_line_of(*pr),
{
    let package = match extract_package_name(pr.title.as_str()) {
        Some(name) => name,
        None => "unknown",
    };
    let mut line = "  #".to_owned();
    push_decimal(&mut line, pr.number);
    let line = line.concat(" [").concat(package).concat("] ").concat(pr.title.as_str()).concat(
        " (by @",
    ).concat(pr.user.login.as_str()).concat(")");
    line
}

/// The request for page `page` of the open pull requests, newest first,
/// with `per_page` of them to a page.
pub fn page_request(config: &Config, per_page: u8, page: u32) -> (request: PageRequest)
    ensures
        request.url@ == listing_url(),
        pairs(request.query@) == page_query(per_page, page),
        pairs(request.headers@) == page_headers(config@.token),
{
    let mut size = String::new();
    push_decimal(&mut size, per_page as u64);
    let mut index = String::new();
    push_decimal(&mut index, page as u64);
    let mut query: Vec<(String, String)> = Vec::new();
    query.push(("state".to_owned(), "open".to_owned()));
    query.push(("sort".to_owned(), "created".to_owned()));
    query.push(("direction".to_owned(), "desc".to_owned()));
    query.push(("per_page".to_owned(), size));
    query.push(("page".to_owned(), index));
    let mut headers: Vec<(String, String)> = Vec::new();
    headers.push(("User-Agent".to_owned(), "nixpr".to_owned()));
    headers.push(("Accept".to_owned(), "application/vnd.github.v3+json".to_owned()));
    match config.github_token() {
        Some(token) => {
            headers.push(("Authorization".to_owned(), "Bearer ".to_owned().concat(token)));
        },
        None => {},
    }
    PageRequest {
        url: "https://api.github.com/repos/NixOS/nixpkgs/pulls".to_owned(),
        query,
        headers,
    }
}

impl FetchError {
    /// The failing step and its cause, for the user.
    pub fn message(&self) -> (r: String)
        ensures
            r@ == match *self {
                FetchError::Unreachable(cause) => "Failed to fetch PRs from GitHub: "@ + cause@,
                FetchError::Status { status, body } => "GitHub API returned "@ + status@ + ": "@
                    + body@,
                FetchError::Malformed(cause) => "Failed to parse GitHub response: "@ + cause@,
            },
    {
        match self {
            FetchError::Unreachable(cause) => "Failed to fetch PRs from GitHub: ".to_owned().concat(
                cause.as_str(),
            ),
            FetchError::Status { status, body } => {
                let r = "GitHub API returned ".to_owned().concat(status.as_str()).concat(
                    ": ",
                ).concat(body.as_str());
                r
            },
            FetchError::Malformed(cause) => "Failed to parse GitHub response: ".to_owned().concat(
                cause.as_str(),
            ),
        }
    }
}

/// Decides [`is_candidate`].
pub fn passes_filters(config: &Config, pr: &PullRequest) -> (b: bool)
    ensures
        b == is_candidate(config@, *pr),
{
    if config.is_user_excluded(pr.user.login.as_str()) {
        return false;
    }
    if config.is_title_excluded(pr.title.as_str()) {
        return false;
    }
    is_package_pr(pr.title.as_str())
}

/// Keeps the pull requests that pass the exclusion rules and announce a
/// package change, in their order.
pub fn filter_prs(config: &Config, prs: Vec<PullRequest>) -> (kept: Vec<PullRequest>)
    ensures
        kept@ == candidates(config@, prs@),
{
    let ghost all = prs@;
    let mut kept: Vec<PullRequest> = Vec::new();
    assert(all.take(0).filter(candidate_under(config@)) == Seq::<PullRequest>::empty()) by {
        reveal(Seq::filter);
    }
    for pr in it: prs.into_iter()
        invariant
            it.seq() == all,
            kept@ == candidates(config@, all.take(it.index() as int)),
    {
        proof {
            let i = it.index() as int;
            reveal(Seq::filter);
            assert(all.take(i + 1).drop_last() == all.take(i));
        }
        if passes_filters(config, &pr) {
            kept.push(pr);
        }
    }
    assert(all.take(all.len() as int) == all);
    kept
}

} // verus!
