//! Configuration: the credential, the exclusion rules and the review target,
//! each with its default, and the two exclusion tests.

use crate::text::{
    chars_of, eq_ignore_ascii_case, equal_ignoring_ascii_case, lowercase, lowercase_of,
    starts_with_chars,
};
use vstd::prelude::*;
use vstd::string::*;

verus! {

/// Access to the remote pull-request listing.
pub struct GithubConfig {
    /// Optional token for higher API rate limits.
    pub token: Option<String>,
}

/// The exclusion rules.
pub struct FilterConfig {
    /// Authors whose pull requests are skipped.
    pub excluded_users: Vec<String>,
    /// Title prefixes that are skipped.
    pub excluded_prefixes: Vec<String>,
}

/// Where reviews are requested.
pub struct ReviewConfig {
    /// Repository that runs the review workflow (owner/name).
    pub repo: String,
    /// Workflow file name to trigger.
    pub workflow: String,
}

/// The whole configuration.
pub struct Config {
    pub github: GithubConfig,
    pub filters: FilterConfig,
    pub review: ReviewConfig,
}

/// The `[filters]` table as written: a list that is not given is `None`.
pub struct FilterSection {
    pub excluded_users: Option<Vec<String>>,
    pub excluded_prefixes: Option<Vec<String>>,
}

/// The `[review]` table as written: a key that is not given is `None`.
pub struct ReviewSection {
    pub repo: Option<String>,
    pub workflow: Option<String>,
}

/// A configuration document as written: a table that is not given is `None`.
pub struct ConfigSections {
    pub github: Option<GithubConfig>,
    pub filters: Option<FilterSection>,
    pub review: Option<ReviewSection>,
}

/// What was found at the configuration's place.
pub enum ConfigFile {
    /// There is no configuration.
    Absent,
    /// There is one, but it could not be read; the cause.
    Unreadable(String),
    /// It was read, but is not a configuration document; the cause.
    Malformed(String),
    /// It was read and has this content.
    Parsed(ConfigSections),
}

/// Why no configuration could be loaded.
#[derive(Debug, PartialEq, Eq)]
pub enum ConfigError {
    Unreadable(String),
    Malformed(String),
}

/// The content of a configuration, as plain text.
pub struct ConfigView {
    pub token: Option<Seq<char>>,
    pub excluded_users: Seq<Seq<char>>,
    pub excluded_prefixes: Seq<Seq<char>>,
    pub repo: Seq<char>,
    pub workflow: Seq<char>,
}

/// The texts of a list of strings.
pub open spec fn texts(v: Seq<String>) -> Seq<Seq<char>> {
    v.map_values(|s: String| s@)
}

/// The text of an optional string.
pub open spec fn opt_text(s: Option<String>) -> Option<Seq<char>> {
    match s {
        Some(t) => Some(t@),
        None => None,
    }
}

/// The author skipped by default: an automated update bot.
pub open spec fn default_excluded_users() -> Seq<Seq<char>> {
    seq!["r-ryantm"@]
}

/// The title prefixes skipped by default.
pub open spec fn default_excluded_prefixes() -> Seq<Seq<char>> {
    seq!["nixos/"@, "treewide"@]
}

/// The configuration used when none is supplied.
pub open spec fn default_config() -> ConfigView {
    ConfigView {
        token: None,
        excluded_users: default_excluded_users(),
        excluded_prefixes: default_excluded_prefixes(),
        repo: "liberodark/nixpkgs-review-gha"@,
        workflow: "review.yml"@,
    }
}

/// The texts of a list as a table gives it: empty where it gives none.
pub open spec fn list_or_empty(list: Option<Vec<String>>) -> Seq<Seq<char>> {
    match list {
        Some(items) => texts(items@),
        None => Seq::empty(),
    }
}

/// The text of a key as a table gives it: `default` where it gives none.
pub open spec fn text_or(text: Option<String>, default: Seq<char>) -> Seq<char> {
    match text {
        Some(text) => text@,
        None => default,
    }
}

/// The configuration that a document stands for: a table that is not given
/// has its defaults, a list that is not given in a given table is empty, and a
/// review key that is not given has its default.
pub open spec fn resolved(sections: ConfigSections) -> ConfigView {
    ConfigView {
        token: match sections.github {
            Some(github) => opt_text(github.token),
            None => None,
        },
        excluded_users: match sections.filters {
            Some(filters) => list_or_empty(filters.excluded_users),
            None => default_excluded_users(),
        },
        excluded_prefixes: match sections.filters {
            Some(filters) => list_or_empty(filters.excluded_prefixes),
            None => default_excluded_prefixes(),
        },
        repo: match sections.review {
            Some(review) => text_or(review.repo, default_config().repo),
            None => default_config().repo,
        },
        workflow: match sections.review {
            Some(review) => text_or(review.workflow, default_config().workflow),
            None => default_config().workflow,
        },
    }
}

impl ConfigView {
    /// Whether `user` equals an excluded author, ASCII case aside.
    pub open spec fn excludes_user(self, user: Seq<char>) -> bool {
        exists|i: int|
            0 <= i < self.excluded_users.len() && eq_ignore_ascii_case(
                #[trigger] self.excluded_users[i],
                user,
            )
    }

    /// Whether the lower-cased `title` begins with a lower-cased excluded prefix.
    pub open spec fn excludes_title(self, title: Seq<char>) -> bool {
        exists|i: int|
            0 <= i < self.excluded_prefixes.len() && lowercase_of(
                #[trigger] self.excluded_prefixes[i],
            ).is_prefix_of(lowercase_of(title))
    }
}

impl View for Config {
    type V = ConfigView;

    open spec fn view(&self) -> ConfigView {
        ConfigView {
            token: opt_text(self.github.token),
            excluded_users: texts(self.filters.excluded_users@),
            excluded_prefixes: texts(self.filters.excluded_prefixes@),
            repo: self.review.repo@,
            workflow: self.review.workflow@,
        }
    }
}

impl Default for GithubConfig {
    fn default() -> (r: Self)
        ensures
            r.token is None,
    {
        GithubConfig { token: None }
    }
}

impl Default for FilterConfig {
    fn default() -> (r: Self)
        ensures
            texts(r.excluded_users@) == default_excluded_users(),
            texts(r.excluded_prefixes@) == default_excluded_prefixes(),
    {
        let mut excluded_users: Vec<String> = Vec::new();
        excluded_users.push("r-ryantm".to_owned());
        let mut excluded_prefixes: Vec<String> = Vec::new();
        excluded_prefixes.push("nixos/".to_owned());
        excluded_prefixes.push("treewide".to_owned());
        FilterConfig { excluded_users, excluded_prefixes }
    }
}

/// The repository that runs reviews unless another is configured.
pub fn default_repo() -> (r: String)
    ensures
        r@ == default_config().repo,
{
    "liberodark/nixpkgs-review-gha".to_owned()
}

/// The workflow that is triggered unless another is configured.
pub fn default_workflow() -> (r: String)
    ensures
        r@ == default_config().workflow,
{
    "review.yml".to_owned()
}

impl Default for ReviewConfig {
    fn default() -> (r: Self)
        ensures
            r.repo@ == default_config().repo,
            r.workflow@ == default_config().workflow,
    {
        ReviewConfig { repo: default_repo(), workflow: default_workflow() }
    }
}

impl Default for Config {
    fn default() -> (r: Self)
        ensures
            r@ == default_config(),
    {
        Config {
            github: GithubConfig::default(),
            filters: FilterConfig::default(),
            review: ReviewConfig::default(),
        }
    }
}

impl FilterConfig {
    /// The rules of a `[filters]` table: a list that is not given is empty.
    pub fn from_section(section: FilterSection) -> (r: Self)
        ensures
            texts(r.excluded_users@) == list_or_empty(section.excluded_users),
            texts(r.excluded_prefixes@) == list_or_empty(section.excluded_prefixes),
    {
        let excluded_users = match section.excluded_users {
            Some(users) => users,
            None => Vec::new(),
        };
        let excluded_prefixes = match section.excluded_prefixes {
            Some(prefixes) => prefixes,
            None => Vec::new(),
        };
        FilterConfig { excluded_users, excluded_prefixes }
    }
}

impl ReviewConfig {
    /// The target of a `[review]` table: a key that is not given has its default.
    pub fn from_section(section: ReviewSection) -> (r: Self)
        ensures
            r.repo@ == text_or(section.repo, default_config().repo),
            r.workflow@ == text_or(section.workflow, default_config().workflow),
    {
        let repo = match section.repo {
            Some(repo) => repo,
            None => default_repo(),
        };
        let workflow = match section.workflow {
            Some(workflow) => workflow,
            None => default_workflow(),
        };
        ReviewConfig { repo, workflow }
    }
}

impl Config {
    /// The configuration that a document stands for.
    pub fn from_sections(sections: ConfigSections) -> (r: Self)
        ensures
            r@ == resolved(sections),
    {
        let github = match sections.github {
            Some(github) => github,
            None => GithubConfig::default(),
        };
        let filters = match sections.filters {
            Some(section) => FilterConfig::from_section(section),
            None => FilterConfig::default(),
        };
        let review = match sections.review {
            Some(section) => ReviewConfig::from_section(section),
            None => ReviewConfig::default(),
        };
        Config { github, filters, review }
    }

    /// The credential for the remote listing, if one is configured.
    pub fn github_token(&self) -> (r: Option<&str>)
        ensures
            match r {
                Some(t) => self@.token == Some(t@),
                None => self@.token is None,
            },
    {
        match &self.github.token {
            Some(t) => Some(t.as_str()),
            None => None,
        }
    }

    /// Whether pull requests by `user` are skipped.
    pub fn is_user_excluded(&self, user: &str) -> (b: bool)
        ensures
            b == self@.excludes_user(user@),
    {
        let users = &self.filters.excluded_users;
        let mut i: usize = 0;
        while i < users.len()
            invariant
                i <= users.len(),
                users == &self.filters.excluded_users,
                forall|j: int|
                    0 <= j < i ==> !eq_ignore_ascii_case(#[trigger] self@.excluded_users[j], user@),
            decreases users.len() - i,
        {
            if equal_ignoring_ascii_case(users[i].as_str(), user) {
                assert(eq_ignore_ascii_case(self@.excluded_users[i as int], user@));
                return true;
            }
            i += 1;
        }
        false
    }

    /// Whether pull requests with this title are skipped.
    pub fn is_title_excluded(&self, title: &str) -> (b: bool)
        ensures
            b == self@.excludes_title(title@),
    {
        let lower = chars_of(lowercase(title).as_str());
        let prefixes = &self.filters.excluded_prefixes;
        let mut i: usize = 0;
        while i < prefixes.len()
            invariant
                i <= prefixes.len(),
                prefixes == &self.filters.excluded_prefixes,
                lower@ == lowercase_of(title@),
                forall|j: int|
                    0 <= j < i ==> !lowercase_of(#[trigger] self@.excluded_prefixes[j]).is_prefix_of(
                        lower@,
                    ),
            decreases prefixes.len() - i,
        {
            let prefix = chars_of(lowercase(prefixes[i].as_str()).as_str());
            if starts_with_chars(&lower, &prefix) {
                assert(lowercase_of(self@.excluded_prefixes[i as int]).is_prefix_of(lower@));
                return true;
            }
            i += 1;
        }
        false
    }
}

/// The configuration to run with: the defaults where there is no
/// configuration, the document's content where there is one, and an error
/// where there is one that cannot be used.
pub fn load(file: ConfigFile) -> (r: Result<Config, ConfigError>)
    ensures
        match file {
            ConfigFile::Absent => r is Ok && r->Ok_0@ == default_config(),
            ConfigFile::Unreadable(cause) => r == Err::<Config, ConfigError>(
                ConfigError::Unreadable(cause),
            ),
            ConfigFile::Malformed(cause) => r == Err::<Config, ConfigError>(
                ConfigError::Malformed(cause),
            ),
            ConfigFile::Parsed(sections) => r is Ok && r->Ok_0@ == resolved(sections),
        },
{
    match file {
        ConfigFile::Absent => Ok(Config::default()),
        ConfigFile::Unreadable(cause) => Err(ConfigError::Unreadable(cause)),
        ConfigFile::Malformed(cause) => Err(ConfigError::Malformed(cause)),
        ConfigFile::Parsed(sections) => Ok(Config::from_sections(sections)),
    }
}

impl ConfigError {
    /// The failing step and its cause, for the user.
    pub fn message(&self) -> (r: String)
        ensures
            r@ == match *self {
                ConfigError::Unreadable(cause) => "Failed to read config: "@ + cause@,
                ConfigError::Malformed(cause) => "Failed to parse config: "@ + cause@,
            },
    {
        match self {
            ConfigError::Unreadable(cause) => "Failed to read config: ".to_owned().concat(
                cause.as_str(),
            ),
            ConfigError::Malformed(cause) => "Failed to parse config: ".to_owned().concat(
                cause.as_str(),
            ),
        }
    }
}

} // verus!
