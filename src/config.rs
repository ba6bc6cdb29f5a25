//! The configuration model and the rules that a loaded configuration
//! must satisfy before any work starts.
use vstd::prelude::*;

use crate::text::{is_blank, is_blank_spec};

verus! {

/// Main configuration structure.
#[derive(Clone, Debug)]
pub struct Config {
    pub log: Option<Log>,
    pub dependencies: Dependencies,
    pub application: Application,
}

/// Log configuration structure.
#[derive(Clone, Debug)]
pub struct Log {
    /// Logging level (e.g., "info", "warn", "error").
    pub level: Option<String>,
    /// Optional log file path.
    pub file: Option<String>,
    /// Whether to show a fortune cookie at the end; off when absent.
    pub fortune: Option<bool>,
}

/// Dependencies configuration structure.
#[derive(Clone, Debug)]
pub struct Dependencies {
    pub helm: Helm,
    pub manifests: Vec<Manifests>,
    pub tools: Vec<Tool>,
    pub tests: Vec<Test>,
}

/// Application configuration structure.
#[derive(Clone, Debug)]
pub struct Application {
    pub helm: Helm,
    pub manifests: Vec<Manifests>,
    pub tests: Vec<Test>,
}

/// A command-line tool that must be on the search path.
#[derive(Clone, Debug)]
pub struct Tool {
    /// Tool name.
    pub name: String,
    /// Tool binary name.
    pub bin: String,
    /// Optional download URL.
    pub url: Option<String>,
}

/// A command to run and the outcome expected of it.
#[derive(Clone, Debug)]
pub struct Test {
    /// Test command.
    pub command: String,
    /// Test arguments.
    pub args: Option<Vec<String>>,
    /// Expected standard output, compared after trimming.
    pub stdout: Option<String>,
    /// Expected standard error, compared after trimming.
    pub stderr: Option<String>,
    /// Expected exit status; success when absent.
    pub status: Option<i32>,
}

/// A set of Kubernetes manifests, from a URL, a directory, or both.
#[derive(Clone, Debug)]
pub struct Manifests {
    /// Manifest name.
    pub name: String,
    /// Optional manifest URL.
    pub url: Option<String>,
    /// Optional manifest directory.
    pub dir: Option<String>,
}

/// Carvel configuration structure.
#[derive(Clone, Debug)]
pub struct Carvel {
    pub packages: Vec<Package>,
}

/// Package configuration structure for Carvel.
#[derive(Clone, Debug)]
pub struct Package {
    /// Package name.
    pub name: String,
    /// Package version.
    pub version: String,
    /// Optional values file for the package.
    pub values: Option<String>,
}

/// Helm configuration structure.
#[derive(Clone, Debug)]
pub struct Helm {
    pub repositories: Vec<Repository>,
    pub charts: Vec<Chart>,
}

/// Repository configuration structure for Helm.
#[derive(Clone, Debug)]
pub struct Repository {
    /// Repository name.
    pub name: String,
    /// Repository URL.
    pub url: String,
}

/// Chart configuration structure for Helm.
#[derive(Clone, Debug)]
pub struct Chart {
    /// The name of the Helm release.
    pub name: String,
    /// The Helm repository where the chart is located.
    pub repo: String,
    /// The namespace of the release; the release name when absent.
    pub namespace: Option<String>,
    /// The values file to use; `values.yaml` when absent.
    pub values: Option<String>,
}

/// The first rule that a configuration breaks.
#[derive(Clone, Debug, PartialEq, Eq)]
pub enum ConfigError {
    EmptyToolName,
    EmptyToolBin { tool: String },
    EmptyTestCommand,
    EmptyManifestName,
    ManifestWithoutSource { manifest: String },
    EmptyRepositoryName,
    EmptyRepositoryUrl { repository: String },
    EmptyChartName,
    EmptyChartRepo { chart: String },
}

/// The error of the first item of `s` for which `f` gives one.
pub open spec fn first_error<T>(s: Seq<T>, f: spec_fn(T) -> Option<ConfigError>) -> Option<ConfigError>
    decreases s.len(),
{
    if s.len() == 0 {
        None
    } else {
        match first_error(s.drop_last(), f) {
            Some(e) => Some(e),
            None => f(s.last()),
        }
    }
}

/// A tool needs a name and a binary name.
pub open spec fn tool_error(t: Tool) -> Option<ConfigError> {
    if is_blank_spec(t.name@) {
        Some(ConfigError::EmptyToolName)
    } else if is_blank_spec(t.bin@) {
        Some(ConfigError::EmptyToolBin { tool: t.name })
    } else {
        None
    }
}

/// A test needs a command.
pub open spec fn test_error(t: Test) -> Option<ConfigError> {
    if is_blank_spec(t.command@) {
        Some(ConfigError::EmptyTestCommand)
    } else {
        None
    }
}

/// A set of manifests needs a name and a URL or a directory.
pub open spec fn manifest_error(m: Manifests) -> Option<ConfigError> {
    if is_blank_spec(m.name@) {
        Some(ConfigError::EmptyManifestName)
    } else if m.url is None && m.dir is None {
        Some(ConfigError::ManifestWithoutSource { manifest: m.name })
    } else {
        None
    }
}

/// Some repository of the list has a blank URL.
pub open spec fn some_blank_url(repos: Seq<Repository>) -> bool {
    exists|i: int| 0 <= i < repos.len() && is_blank_spec(#[trigger] repos[i].url@)
}

/// A repository's name is checked first; then the URLs of the whole list,
/// a failure there being reported under the repository at hand.
pub open spec fn repository_error(r: Repository, repos: Seq<Repository>) -> Option<ConfigError> {
    if is_blank_spec(r.name@) {
        Some(ConfigError::EmptyRepositoryName)
    } else if some_blank_url(repos) {
        Some(ConfigError::EmptyRepositoryUrl { repository: r.name })
    } else {
        None
    }
}

/// A chart needs a release name and a repository.
pub open spec fn chart_error(c: Chart) -> Option<ConfigError> {
    if is_blank_spec(c.name@) {
        Some(ConfigError::EmptyChartName)
    } else if is_blank_spec(c.repo@) {
        Some(ConfigError::EmptyChartRepo { chart: c.name })
    } else {
        None
    }
}

/// The first error of a list of repositories.
pub open spec fn repositories_error(repos: Seq<Repository>) -> Option<ConfigError> {
    first_error(repos, |r: Repository| repository_error(r, repos))
}

/// The first rule broken, section by section: the dependencies' tools,
/// tests, manifests, repositories and charts, then the application's
/// tests, manifests, repositories and charts.
pub open spec fn config_error(c: Config) -> Option<ConfigError> {
    let d = c.dependencies;
    let a = c.application;
    or_else(first_error(d.tools@, |t: Tool| tool_error(t)),
    or_else(first_error(d.tests@, |t: Test| test_error(t)),
    or_else(first_error(d.manifests@, |m: Manifests| manifest_error(m)),
    or_else(repositories_error(d.helm.repositories@),
    or_else(first_error(d.helm.charts@, |ch: Chart| chart_error(ch)),
    or_else(first_error(a.tests@, |t: Test| test_error(t)),
    or_else(first_error(a.manifests@, |m: Manifests| manifest_error(m)),
    or_else(repositories_error(a.helm.repositories@),
    first_error(a.helm.charts@, |ch: Chart| chart_error(ch))))))))))
}

/// The first error of the two, if any.
pub open spec fn or_else(a: Option<ConfigError>, b: Option<ConfigError>) -> Option<ConfigError> {
    if a is Some {
        a
    } else {
        b
    }
}

/// Success when there is no error.
pub open spec fn as_result(e: Option<ConfigError>) -> Result<(), ConfigError> {
    match e {
        Some(e) => Err(e),
        None => Ok(()),
    }
}

proof fn lemma_first_error_prefix<T>(s: Seq<T>, n: int, f: spec_fn(T) -> Option<ConfigError>)
    requires
        0 <= n <= s.len(),
        first_error(s.subrange(0, n), f) is Some,
    ensures
        first_error(s, f) == first_error(s.subrange(0, n), f),
    decreases s.len(),
{
    if n == s.len() {
        assert(s.subrange(0, n) =~= s);
    } else {
        assert(s.drop_last().subrange(0, n) =~= s.subrange(0, n));
        lemma_first_error_prefix(s.drop_last(), n, f);
    }
}

proof fn lemma_first_error_step<T>(s: Seq<T>, i: int, f: spec_fn(T) -> Option<ConfigError>)
    requires
        0 <= i < s.len(),
        first_error(s.subrange(0, i), f) is None,
    ensures
        first_error(s.subrange(0, i + 1), f) == f(s[i]),
        f(s[i]) is Some ==> first_error(s, f) == f(s[i]),
{
    assert(s.subrange(0, i + 1).drop_last() =~= s.subrange(0, i));
    if f(s[i]) is Some {
        lemma_first_error_prefix(s, i + 1, f);
    }
}

fn check_tools(tools: &Vec<Tool>) -> (r: Result<(), ConfigError>)
    ensures
        r == as_result(first_error(tools@, |t: Tool| tool_error(t))),
{
    let mut i: usize = 0;
    while i < tools.len()
        invariant
            i <= tools@.len(),
            first_error(tools@.subrange(0, i as int), |t: Tool| tool_error(t)) is None,
        decreases tools@.len() - i,
    {
        proof {
            lemma_first_error_step(tools@, i as int, |t: Tool| tool_error(t));
        }
        let t = &tools[i];
        if is_blank(t.name.as_str()) {
            return Err(ConfigError::EmptyToolName);
        }
        if is_blank(t.bin.as_str()) {
            return Err(ConfigError::EmptyToolBin { tool: t.name.clone() });
        }
        i = i + 1;
    }
    assert(tools@.subrange(0, tools@.len() as int) =~= tools@);
    Ok(())
}

fn check_tests(tests: &Vec<Test>) -> (r: Result<(), ConfigError>)
    ensures
        r == as_result(first_error(tests@, |t: Test| test_error(t))),
{
    let mut i: usize = 0;
    while i < tests.len()
        invariant
            i <= tests@.len(),
            first_error(tests@.subrange(0, i as int), |t: Test| test_error(t)) is None,
        decreases tests@.len() - i,
    {
        proof {
            lemma_first_error_step(tests@, i as int, |t: Test| test_error(t));
        }
        if is_blank(tests[i].command.as_str()) {
            return Err(ConfigError::EmptyTestCommand);
        }
        i = i + 1;
    }
    assert(tests@.subrange(0, tests@.len() as int) =~= tests@);
    Ok(())
}

fn check_manifests(manifests: &Vec<Manifests>) -> (r: Result<(), ConfigError>)
    ensures
        r == as_result(first_error(manifests@, |m: Manifests| manifest_error(m))),
{
    let mut i: usize = 0;
    while i < manifests.len()
        invariant
            i <= manifests@.len(),
            first_error(manifests@.subrange(0, i as int), |m: Manifests| manifest_error(m)) is None,
        decreases manifests@.len() - i,
    {
        proof {
            lemma_first_error_step(manifests@, i as int, |m: Manifests| manifest_error(m));
        }
        let m = &manifests[i];
        if is_blank(m.name.as_str()) {
            return Err(ConfigError::EmptyManifestName);
        }
        if m.url.is_none() && m.dir.is_none() {
            return Err(ConfigError::ManifestWithoutSource { manifest: m.name.clone() });
        }
        i = i + 1;
    }
    assert(manifests@.subrange(0, manifests@.len() as int) =~= manifests@);
    Ok(())
}

fn any_blank_url(repos: &Vec<Repository>) -> (r: bool)
    ensures
        r == some_blank_url(repos@),
{
    let mut i: usize = 0;
    while i < repos.len()
        invariant
            i <= repos@.len(),
            forall|j: int| 0 <= j < i ==> !is_blank_spec(#[trigger] repos@[j].url@),
        decreases repos@.len() - i,
    {
        if is_blank(repos[i].url.as_str()) {
            return true;
        }
        i = i + 1;
    }
    false
}

fn check_repositories(repos: &Vec<Repository>) -> (r: Result<(), ConfigError>)
    ensures
        r == as_result(repositories_error(repos@)),
{
    let mut i: usize = 0;
    while i < repos.len()
        invariant
            i <= repos@.len(),
            first_error(repos@.subrange(0, i as int), |x: Repository| repository_error(x, repos@)) is None,
        decreases repos@.len() - i,
    {
        proof {
            lemma_first_error_step(repos@, i as int, |x: Repository| repository_error(x, repos@));
        }
        let r = &repos[i];
        if is_blank(r.name.as_str()) {
            return Err(ConfigError::EmptyRepositoryName);
        }
        if any_blank_url(repos) {
            return Err(ConfigError::EmptyRepositoryUrl { repository: r.name.clone() });
        }
        i = i + 1;
    }
    assert(repos@.subrange(0, repos@.len() as int) =~= repos@);
    Ok(())
}

fn check_charts(charts: &Vec<Chart>) -> (r: Result<(), ConfigError>)
    ensures
        r == as_result(first_error(charts@, |ch: Chart| chart_error(ch))),
{
    let mut i: usize = 0;
    while i < charts.len()
        invariant
            i <= charts@.len(),
            first_error(charts@.subrange(0, i as int), |ch: Chart| chart_error(ch)) is None,
        decreases charts@.len() - i,
    {
        proof {
            lemma_first_error_step(charts@, i as int, |ch: Chart| chart_error(ch));
        }
        let c = &charts[i];
        if is_blank(c.name.as_str()) {
            return Err(ConfigError::EmptyChartName);
        }
        if is_blank(c.repo.as_str()) {
            return Err(ConfigError::EmptyChartRepo { chart: c.name.clone() });
        }
        i = i + 1;
    }
    assert(charts@.subrange(0, charts@.len() as int) =~= charts@);
    Ok(())
}

/// Checks a loaded configuration against its rules and reports the first
/// one broken: names, binaries, commands and chart repositories must not
/// be blank, every manifest needs a URL or a directory, and no repository
/// URL may be blank.
pub fn validate_config(config: &Config) -> (r: Result<(), ConfigError>)
    ensures
        r == as_result(config_error(*config)),
{
    let d = &config.dependencies;
    let a = &config.application;
    let r0 = check_tools(&d.tools);
    if r0.is_err() {
        return r0;
    }
    let r1 = check_tests(&d.tests);
    if r1.is_err() {
        return r1;
    }
    let r2 = check_manifests(&d.manifests);
    if r2.is_err() {
        return r2;
    }
    let r3 = check_repositories(&d.helm.repositories);
    if r3.is_err() {
        return r3;
    }
    let r4 = check_charts(&d.helm.charts);
    if r4.is_err() {
        return r4;
    }
    let r5 = check_tests(&a.tests);
    if r5.is_err() {
        return r5;
    }
    let r6 = check_manifests(&a.manifests);
    if r6.is_err() {
        return r6;
    }
    let r7 = check_repositories(&a.helm.repositories);
    if r7.is_err() {
        return r7;
    }
    let r8 = check_charts(&a.helm.charts);
    if r8.is_err() {
        return r8;
    }
    Ok(())
}

} // verus!
