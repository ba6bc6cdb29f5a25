//! Decisions around the `helm` command-line tool: which command to run
//! next for a repository or a chart, and what its output means.
use vstd::prelude::*;

use crate::command::{arg_views, exited_with, fails_with, runs, succeeds, CommandOutput, Step};
use crate::config::Chart;
use crate::text::{contains, has_substring, join_path, joined, str_eq};

verus! {

/// Why a Helm operation failed.
#[derive(Clone, Debug, PartialEq, Eq)]
pub enum HelmError {
    InvalidRepoAction,
    MissingRepoName,
    MissingRepoUrl,
    InvalidChartAction,
    ListRepositoriesFailed,
    UrlUnreachable { url: String, status: u16 },
    AddRepositoryFailed { name: String },
    UpdateFailed,
    ListReleasesFailed { stderr: String },
    ValuesFileMissing { path: String },
    InstallFailed { stderr: String },
    UpgradeFailed { stderr: String },
    ShowValuesFailed { stderr: String },
}

/// What a repository action asks for.
#[derive(Clone, Debug, PartialEq, Eq)]
pub enum RepoAction {
    Install { name: String, url: String },
    Uninstall { name: String },
    Update,
}

/// What a chart action asks for.
#[derive(Clone, Debug, PartialEq, Eq)]
pub enum ChartAction {
    Install { name: String, repo: String, namespace: String, values: Option<String> },
    Uninstall { name: String },
    Prepare { name: String, repo: String },
}

/// The characters of an optional string.
pub open spec fn opt_view(o: Option<&str>) -> Option<Seq<char>> {
    match o {
        Some(s) => Some(s@),
        None => None,
    }
}

/// Resolves a repository action: `install` needs a name and a URL,
/// `uninstall` a name, `update` nothing; any other action is refused.
pub fn helm_repo(action: &str, name: Option<&str>, url: Option<&str>) -> (r: Result<
    RepoAction,
    HelmError,
>)
    ensures
        action@ == "install"@ ==> match (name, url) {
            (Some(n), Some(u)) => r matches Ok(RepoAction::Install { name: rn, url: ru }) && rn@
                == n@ && ru@ == u@,
            (None, _) => r matches Err(HelmError::MissingRepoName),
            (Some(_), None) => r matches Err(HelmError::MissingRepoUrl),
        },
        action@ == "uninstall"@ ==> match name {
            Some(n) => r matches Ok(RepoAction::Uninstall { name: rn }) && rn@ == n@,
            None => r matches Err(HelmError::MissingRepoName),
        },
        action@ == "update"@ ==> r matches Ok(RepoAction::Update),
        action@ != "install"@ && action@ != "uninstall"@ && action@ != "update"@ ==> r matches Err(
            HelmError::InvalidRepoAction,
        ),
{
    proof {
        reveal_strlit("install");
        reveal_strlit("uninstall");
        reveal_strlit("update");
        assert("install"@.len() != "uninstall"@.len());
        assert("install"@.len() != "update"@.len());
        assert("uninstall"@.len() != "update"@.len());
    }
    if str_eq(action, "install") {
        match name {
            Some(n) => match url {
                Some(u) => Ok(RepoAction::Install { name: n.to_owned(), url: u.to_owned() }),
                None => Err(HelmError::MissingRepoUrl),
            },
            None => Err(HelmError::MissingRepoName),
        }
    } else if str_eq(action, "uninstall") {
        match name {
            Some(n) => Ok(RepoAction::Uninstall { name: n.to_owned() }),
            None => Err(HelmError::MissingRepoName),
        }
    } else if str_eq(action, "update") {
        Ok(RepoAction::Update)
    } else {
        Err(HelmError::InvalidRepoAction)
    }
}

/// `helm repo list` said that there are no repositories at all.
pub open spec fn no_repositories(o: CommandOutput) -> bool {
    has_substring(o.stderr@, "Error: no repositories to show"@) && o.status == Some(1i32)
}

/// The listing allows adding a repository: there are none yet, or the
/// listing succeeded.
pub open spec fn listing_allows_add(o: CommandOutput) -> bool {
    no_repositories(o) || o.status == Some(0i32)
}

/// Repository URLs often answer 403 or 404; any of these shows a server.
pub open spec fn reachable_status(status: u16) -> bool {
    status == 200 || status == 403 || status == 404
}

fn two_args(a: &str, b: &str) -> (r: Vec<String>)
    ensures
        arg_views(r@) == seq![a@, b@],
{
    let r = vec![a.to_owned(), b.to_owned()];
    assert(arg_views(r@) =~= seq![a@, b@]);
    r
}

fn three_args(a: &str, b: &str, c: &str) -> (r: Vec<String>)
    ensures
        arg_views(r@) == seq![a@, b@, c@],
{
    let r = vec![a.to_owned(), b.to_owned(), c.to_owned()];
    assert(arg_views(r@) =~= seq![a@, b@, c@]);
    r
}

fn four_args(a: &str, b: &str, c: &str, d: &str) -> (r: Vec<String>)
    ensures
        arg_views(r@) == seq![a@, b@, c@, d@],
{
    let r = vec![a.to_owned(), b.to_owned(), c.to_owned(), d.to_owned()];
    assert(arg_views(r@) =~= seq![a@, b@, c@, d@]);
    r
}

/// Adding a repository: list the repositories, probe the URL, then add it.
/// `outputs` holds the outputs of the commands run so far and `probed` the
/// HTTP status of the probe once it has been made.
pub fn helm_install_repo(
    name: &str,
    url: &str,
    outputs: &Vec<CommandOutput>,
    probed: Option<u16>,
) -> (r: Step<HelmError>)
    ensures
        outputs@.len() == 0 ==> runs(r, seq!["repo"@, "list"@]),
        outputs@.len() >= 1 ==> {
            let list = outputs@[0];
            if !listing_allows_add(list) {
                r matches Step::Done { result: Err(HelmError::ListRepositoriesFailed) }
            } else {
                match probed {
                    None => r matches Step::Probe { url: u } && u@ == url@,
                    Some(status) => if !reachable_status(status) {
                        r matches Step::Done {
                            result: Err(HelmError::UrlUnreachable { url: u, status: s }),
                        } && u@ == url@ && s == status
                    } else if outputs@.len() == 1 {
                        runs(r, seq!["repo"@, "add"@, name@, url@])
                    } else if outputs@[1].status == Some(0i32) {
                        succeeds(r)
                    } else {
                        r matches Step::Done {
                            result: Err(HelmError::AddRepositoryFailed { name: n }),
                        } && n@ == name@
                    },
                }
            }
        },
{
    if outputs.len() == 0 {
        return Step::Run { args: two_args("repo", "list") };
    }
    let list = &outputs[0];
    let empty = contains(list.stderr.as_str(), "Error: no repositories to show") && exited_with(
        list,
        1,
    );
    if !(empty || exited_with(list, 0)) {
        return Step::Done { result: Err(HelmError::ListRepositoriesFailed) };
    }
    match probed {
        None => Step::Probe { url: url.to_owned() },
        Some(status) => {
            if !(status == 200 || status == 403 || status == 404) {
                Step::Done { result: Err(HelmError::UrlUnreachable { url: url.to_owned(), status }) }
            } else if outputs.len() == 1 {
                Step::Run { args: four_args("repo", "add", name, url) }
            } else if exited_with(&outputs[1], 0) {
                Step::Done { result: Ok(()) }
            } else {
                Step::Done { result: Err(HelmError::AddRepositoryFailed { name: name.to_owned() }) }
            }
        },
    }
}

/// Removing a repository: list the repositories (nothing to do when there
/// are none, a failure for any other nonzero exit), list them again, and
/// remove the repository when the listing names it.
pub fn helm_uninstall_repo(name: &str, outputs: &Vec<CommandOutput>) -> (r: Step<HelmError>)
    ensures
        outputs@.len() == 0 ==> runs(r, seq!["repo"@, "list"@]),
        outputs@.len() >= 1 ==> {
            let first = outputs@[0];
            if no_repositories(first) {
                succeeds(r)
            } else if first.status != Some(0i32) {
                fails_with(r, HelmError::ListRepositoriesFailed)
            } else if outputs@.len() == 1 {
                runs(r, seq!["repo"@, "list"@])
            } else {
                let second = outputs@[1];
                if has_substring(second.stdout@, name@) && second.status == Some(0i32)
                    && outputs@.len() == 2 {
                    runs(r, seq!["repo"@, "remove"@, name@])
                } else {
                    succeeds(r)
                }
            }
        },
{
    if outputs.len() == 0 {
        return Step::Run { args: two_args("repo", "list") };
    }
    let first = &outputs[0];
    if contains(first.stderr.as_str(), "Error: no repositories to show") && exited_with(first, 1) {
        return Step::Done { result: Ok(()) };
    }
    if !exited_with(first, 0) {
        return Step::Done { result: Err(HelmError::ListRepositoriesFailed) };
    }
    if outputs.len() == 1 {
        return Step::Run { args: two_args("repo", "list") };
    }
    let second = &outputs[1];
    if contains(second.stdout.as_str(), name) && exited_with(second, 0) && outputs.len() == 2 {
        Step::Run { args: three_args("repo", "remove", name) }
    } else {
        Step::Done { result: Ok(()) }
    }
}

/// Updating the repositories: a failure only when the update exits nonzero
/// for another reason than there being no repositories.
pub fn helm_update_repos(outputs: &Vec<CommandOutput>) -> (r: Step<HelmError>)
    ensures
        outputs@.len() == 0 ==> runs(r, seq!["repo"@, "update"@]),
        outputs@.len() >= 1 ==> {
            let o = outputs@[0];
            if has_substring(
                o.stderr@,
                "Error: no repositories found. You must add one before updating"@,
            ) && o.status == Some(1i32) {
                succeeds(r)
            } else if o.status != Some(0i32) {
                fails_with(r, HelmError::UpdateFailed)
            } else {
                succeeds(r)
            }
        },
{
    if outputs.len() == 0 {
        return Step::Run { args: two_args("repo", "update") };
    }
    let o = &outputs[0];
    if contains(o.stderr.as_str(), "Error: no repositories found. You must add one before updating")
        && exited_with(o, 1) {
        Step::Done { result: Ok(()) }
    } else if !exited_with(o, 0) {
        Step::Done { result: Err(HelmError::UpdateFailed) }
    } else {
        Step::Done { result: Ok(()) }
    }
}

/// Resolves a chart action: `install` deploys into the chart's namespace,
/// or one named after the release when none is set; `uninstall` and
/// `prepare` name the chart; any other action is refused.
pub fn helm_chart(action: &str, chart: &Chart) -> (r: Result<ChartAction, HelmError>)
    ensures
        action@ == "install"@ ==> (r matches Ok(
            ChartAction::Install { name, repo, namespace, values },
        ) && name == chart.name && repo == chart.repo && values == chart.values && namespace
            == match chart.namespace {
            Some(ns) => ns,
            None => chart.name,
        }),
        action@ == "uninstall"@ ==> (r matches Ok(ChartAction::Uninstall { name }) && name
            == chart.name),
        action@ == "prepare"@ ==> (r matches Ok(ChartAction::Prepare { name, repo }) && name
            == chart.name && repo == chart.repo),
        action@ != "install"@ && action@ != "uninstall"@ && action@ != "prepare"@ ==> r matches Err(
            HelmError::InvalidChartAction,
        ),
{
    proof {
        reveal_strlit("install");
        reveal_strlit("uninstall");
        reveal_strlit("prepare");
        assert("install"@[0] != "prepare"@[0]);
    }
    if str_eq(action, "install") {
        let namespace = match &chart.namespace {
            Some(ns) => ns.clone(),
            None => chart.name.clone(),
        };
        Ok(
            ChartAction::Install {
                name: chart.name.clone(),
                repo: chart.repo.clone(),
                namespace,
                values: chart.values.clone(),
            },
        )
    } else if str_eq(action, "uninstall") {
        Ok(ChartAction::Uninstall { name: chart.name.clone() })
    } else if str_eq(action, "prepare") {
        Ok(ChartAction::Prepare { name: chart.name.clone(), repo: chart.repo.clone() })
    } else {
        Err(HelmError::InvalidChartAction)
    }
}

/// The directory that holds a chart's values files.
pub open spec fn chart_dir(name: Seq<char>) -> Seq<char> {
    joined("config/helm"@, name)
}

/// The values file of a chart: the one named, or `values.yaml`.
pub open spec fn values_path(name: Seq<char>, values: Option<Seq<char>>) -> Seq<char> {
    match values {
        Some(f) => joined(chart_dir(name), f),
        None => joined(chart_dir(name), "values.yaml"@),
    }
}

/// The directory that holds a chart's values files.
pub fn helm_chart_dir(name: &str) -> (r: String)
    ensures
        r@ == chart_dir(name@),
{
    join_path("config/helm", name)
}

/// The values file of a chart: the one named, or `values.yaml`.
pub fn helm_values_path(name: &str, values: Option<&str>) -> (r: String)
    ensures
        r@ == values_path(name@, opt_view(values)),
{
    let dir = helm_chart_dir(name);
    match values {
        Some(f) => join_path(dir.as_str(), f),
        None => join_path(dir.as_str(), "values.yaml"),
    }
}

/// `repo/name`, the reference of a chart in its repository.
pub open spec fn chart_ref(repo: Seq<char>, name: Seq<char>) -> Seq<char> {
    joined(repo, name)
}

/// The arguments that install or upgrade a release.
pub open spec fn release_args(
    verb: Seq<char>,
    name: Seq<char>,
    values_file: Seq<char>,
    namespace: Seq<char>,
    repo: Seq<char>,
) -> Seq<Seq<char>> {
    if verb == "install"@ {
        seq![
            verb,
            name,
            "--values"@,
            values_file,
            "--namespace"@,
            namespace,
            "--create-namespace"@,
            "--wait"@,
            "--timeout"@,
            "10m0s"@,
            chart_ref(repo, name),
        ]
    } else {
        seq![
            verb,
            name,
            "--values"@,
            values_file,
            "--namespace"@,
            namespace,
            "--wait"@,
            "--timeout"@,
            "10m0s"@,
            chart_ref(repo, name),
        ]
    }
}

fn release_command(verb: &str, name: &str, values_file: &str, namespace: &str, repo: &str) -> (r:
    Vec<String>)
    ensures
        arg_views(r@) == release_args(verb@, name@, values_file@, namespace@, repo@),
{
    let mut r: Vec<String> = Vec::new();
    r.push(verb.to_owned());
    r.push(name.to_owned());
    r.push("--values".to_owned());
    r.push(values_file.to_owned());
    r.push("--namespace".to_owned());
    r.push(namespace.to_owned());
    let install = str_eq(verb, "install");
    if install {
        r.push("--create-namespace".to_owned());
    }
    r.push("--wait".to_owned());
    r.push("--timeout".to_owned());
    r.push("10m0s".to_owned());
    r.push(join_path(repo, name));
    assert(arg_views(r@) =~= release_args(verb@, name@, values_file@, namespace@, repo@));
    r
}

/// Installing or upgrading a release. `chart_dir_exists` and
/// `values_exists` say what is on disk now: the chart's directory and its
/// values file. A missing directory, or a missing default values file, is
/// prepared first; a missing named values file is an error. Then the
/// releases of the namespace are listed, and the release is upgraded when
/// the listing names it, else installed.
pub fn helm_install_chart(
    name: &str,
    repo: &str,
    namespace: &str,
    values_filename: Option<&str>,
    chart_dir_exists: bool,
    values_exists: bool,
    outputs: &Vec<CommandOutput>,
) -> (r: Step<HelmError>)
    ensures
        !chart_dir_exists ==> (r matches Step::Prepare { name: n, repo: p } && n@ == name@ && p@
            == repo@),
        chart_dir_exists && !values_exists ==> match values_filename {
            Some(f) => r matches Step::Done {
                result: Err(HelmError::ValuesFileMissing { path }),
            } && path@ == values_path(name@, Some(f@)),
            None => r matches Step::Prepare { name: n, repo: p } && n@ == name@ && p@ == repo@,
        },
        chart_dir_exists && values_exists ==> {
            let vf = values_path(name@, opt_view(values_filename));
            if outputs@.len() == 0 {
                runs(r, seq!["list"@, "--namespace"@, namespace@])
            } else {
                let list = outputs@[0];
                let verb = if has_substring(list.stdout@, name@) {
                    "upgrade"@
                } else {
                    "install"@
                };
                if list.status != Some(0i32) {
                    fails_with(r, HelmError::ListReleasesFailed { stderr: list.stderr })
                } else if outputs@.len() == 1 {
                    runs(r, release_args(verb, name@, vf, namespace@, repo@))
                } else if outputs@[1].status == Some(0i32) {
                    succeeds(r)
                } else if verb == "upgrade"@ {
                    fails_with(r, HelmError::UpgradeFailed { stderr: outputs@[1].stderr })
                } else {
                    fails_with(r, HelmError::InstallFailed { stderr: outputs@[1].stderr })
                }
            }
        },
{
    proof {
        reveal_strlit("install");
        reveal_strlit("upgrade");
        assert("install"@[0] != "upgrade"@[0]);
    }
    if !chart_dir_exists {
        return Step::Prepare { name: name.to_owned(), repo: repo.to_owned() };
    }
    let values_file = helm_values_path(name, values_filename);
    if !values_exists {
        return match values_filename {
            Some(_) => Step::Done { result: Err(HelmError::ValuesFileMissing { path: values_file }) },
            None => Step::Prepare { name: name.to_owned(), repo: repo.to_owned() },
        };
    }
    if outputs.len() == 0 {
        return Step::Run { args: three_args("list", "--namespace", namespace) };
    }
    let list = &outputs[0];
    if !exited_with(list, 0) {
        return Step::Done {
            result: Err(HelmError::ListReleasesFailed { stderr: list.stderr.clone() }),
        };
    }
    let upgrade = contains(list.stdout.as_str(), name);
    if outputs.len() == 1 {
        let args = if upgrade {
            release_command("upgrade", name, values_file.as_str(), namespace, repo)
        } else {
            release_command("install", name, values_file.as_str(), namespace, repo)
        };
        return Step::Run { args };
    }
    let done = &outputs[1];
    if exited_with(done, 0) {
        Step::Done { result: Ok(()) }
    } else if upgrade {
        Step::Done { result: Err(HelmError::UpgradeFailed { stderr: done.stderr.clone() }) }
    } else {
        Step::Done { result: Err(HelmError::InstallFailed { stderr: done.stderr.clone() }) }
    }
}

/// Removing a release: list the releases of the namespace named after it,
/// and uninstall it when the listing names it.
pub fn helm_uninstall_chart(name: &str, outputs: &Vec<CommandOutput>) -> (r: Step<HelmError>)
    ensures
        outputs@.len() == 0 ==> runs(r, seq!["list"@, "--namespace"@, name@]),
        outputs@.len() >= 1 ==> {
            let list = outputs@[0];
            if list.status != Some(0i32) {
                fails_with(r, HelmError::ListReleasesFailed { stderr: list.stderr })
            } else if has_substring(list.stdout@, name@) && outputs@.len() == 1 {
                runs(r, seq!["uninstall"@, name@, "--namespace"@, name@])
            } else {
                succeeds(r)
            }
        },
{
    if outputs.len() == 0 {
        return Step::Run { args: three_args("list", "--namespace", name) };
    }
    let list = &outputs[0];
    if !exited_with(list, 0) {
        return Step::Done {
            result: Err(HelmError::ListReleasesFailed { stderr: list.stderr.clone() }),
        };
    }
    if contains(list.stdout.as_str(), name) && outputs.len() == 1 {
        Step::Run { args: four_args("uninstall", name, "--namespace", name) }
    } else {
        Step::Done { result: Ok(()) }
    }
}

/// Preparing a chart: when its default values file is missing, fetch the
/// chart's values with `helm show values`; the caller writes what the
/// command printed into the file.
pub fn helm_prepare_chart(name: &str, repo: &str, values_exists: bool, outputs: &Vec<
    CommandOutput,
>) -> (r: Step<HelmError>)
    ensures
        values_exists ==> succeeds(r),
        !values_exists && outputs@.len() == 0 ==> runs(
            r,
            seq!["show"@, "values"@, chart_ref(repo@, name@)],
        ),
        !values_exists && outputs@.len() >= 1 ==> if outputs@[0].status == Some(0i32) {
            succeeds(r)
        } else {
            fails_with(r, HelmError::ShowValuesFailed { stderr: outputs@[0].stderr })
        },
{
    if values_exists {
        return Step::Done { result: Ok(()) };
    }
    if outputs.len() == 0 {
        let reference = join_path(repo, name);
        return Step::Run { args: three_args("show", "values", reference.as_str()) };
    }
    if exited_with(&outputs[0], 0) {
        Step::Done { result: Ok(()) }
    } else {
        Step::Done { result: Err(HelmError::ShowValuesFailed { stderr: outputs[0].stderr.clone() }) }
    }
}

} // verus!
