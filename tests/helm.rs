use loopy::command::{CommandOutput, Step};
use loopy::config::Chart;
use loopy::helm::{
    helm_chart, helm_install_chart, helm_install_repo, helm_prepare_chart, helm_repo,
    helm_uninstall_chart, helm_uninstall_repo, helm_update_repos, helm_values_path, ChartAction,
    HelmError, RepoAction,
};

fn out(stdout: &str, stderr: &str, status: Option<i32>) -> CommandOutput {
    CommandOutput { stdout: stdout.to_string(), stderr: stderr.to_string(), status }
}

fn args(v: &[&str]) -> Vec<String> {
    v.iter().map(|s| s.to_string()).collect()
}

#[test]
fn uninstall_chart_sequence() {
    assert_eq!(helm_uninstall_chart("redis", &vec![]), Step::Run { args: args(&["list", "--namespace", "redis"]) });
    let listed = vec![out("NAME\nredis\tdeployed", "", Some(0))];
    assert_eq!(
        helm_uninstall_chart("redis", &listed),
        Step::Run { args: args(&["uninstall", "redis", "--namespace", "redis"]) }
    );
    let mut done = listed.clone();
    done.push(out("", "", Some(0)));
    assert_eq!(helm_uninstall_chart("redis", &done), Step::Done { result: Ok(()) });
    let absent = vec![out("NAME", "", Some(0))];
    assert_eq!(helm_uninstall_chart("redis", &absent), Step::Done { result: Ok(()) });
    let failed = vec![out("", "cluster unreachable", Some(1))];
    assert_eq!(
        helm_uninstall_chart("redis", &failed),
        Step::Done { result: Err(HelmError::ListReleasesFailed { stderr: "cluster unreachable".to_string() }) }
    );
}

#[test]
fn uninstall_repo_sequence() {
    assert_eq!(helm_uninstall_repo("bitnami", &vec![]), Step::Run { args: args(&["repo", "list"]) });
    let none = vec![out("", "Error: no repositories to show", Some(1))];
    assert_eq!(helm_uninstall_repo("bitnami", &none), Step::Done { result: Ok(()) });
    let broken = vec![out("", "boom", Some(2))];
    assert_eq!(
        helm_uninstall_repo("bitnami", &broken),
        Step::Done { result: Err(HelmError::ListRepositoriesFailed) }
    );
    let mut seq = vec![out("bitnami https://x", "", Some(0))];
    assert_eq!(helm_uninstall_repo("bitnami", &seq), Step::Run { args: args(&["repo", "list"]) });
    seq.push(out("bitnami https://x", "", Some(0)));
    assert_eq!(helm_uninstall_repo("bitnami", &seq), Step::Run { args: args(&["repo", "remove", "bitnami"]) });
    seq.push(out("", "", Some(0)));
    assert_eq!(helm_uninstall_repo("bitnami", &seq), Step::Done { result: Ok(()) });
    let other = vec![out("jetstack https://y", "", Some(0)), out("jetstack https://y", "", Some(0))];
    assert_eq!(helm_uninstall_repo("bitnami", &other), Step::Done { result: Ok(()) });
}

#[test]
fn install_repo_sequence() {
    let none: Vec<CommandOutput> = vec![];
    assert_eq!(helm_install_repo("b", "https://x", &none, None), Step::Run { args: args(&["repo", "list"]) });
    let listed = vec![out("", "Error: no repositories to show", Some(1))];
    assert_eq!(helm_install_repo("b", "https://x", &listed, None), Step::Probe { url: "https://x".to_string() });
    assert_eq!(
        helm_install_repo("b", "https://x", &listed, Some(500)),
        Step::Done { result: Err(HelmError::UrlUnreachable { url: "https://x".to_string(), status: 500 }) }
    );
    assert_eq!(
        helm_install_repo("b", "https://x", &listed, Some(403)),
        Step::Run { args: args(&["repo", "add", "b", "https://x"]) }
    );
    let mut added = listed.clone();
    added.push(out("", "", Some(0)));
    assert_eq!(helm_install_repo("b", "https://x", &added, Some(404)), Step::Done { result: Ok(()) });
    added[1].status = Some(1);
    assert_eq!(
        helm_install_repo("b", "https://x", &added, Some(200)),
        Step::Done { result: Err(HelmError::AddRepositoryFailed { name: "b".to_string() }) }
    );
    let broken = vec![out("", "boom", Some(3))];
    assert_eq!(
        helm_install_repo("b", "https://x", &broken, None),
        Step::Done { result: Err(HelmError::ListRepositoriesFailed) }
    );
}

#[test]
fn update_repos_outcomes() {
    assert_eq!(helm_update_repos(&vec![]), Step::Run { args: args(&["repo", "update"]) });
    let none = vec![out("", "Error: no repositories found. You must add one before updating", Some(1))];
    assert_eq!(helm_update_repos(&none), Step::Done { result: Ok(()) });
    assert_eq!(helm_update_repos(&vec![out("", "x", Some(1))]), Step::Done { result: Err(HelmError::UpdateFailed) });
    assert_eq!(helm_update_repos(&vec![out("ok", "", Some(0))]), Step::Done { result: Ok(()) });
}

#[test]
fn repo_actions() {
    assert_eq!(
        helm_repo("install", Some("b"), Some("https://x")),
        Ok(RepoAction::Install { name: "b".to_string(), url: "https://x".to_string() })
    );
    assert_eq!(helm_repo("install", Some("b"), None), Err(HelmError::MissingRepoUrl));
    assert_eq!(helm_repo("install", None, Some("u")), Err(HelmError::MissingRepoName));
    assert_eq!(helm_repo("uninstall", Some("b"), None), Ok(RepoAction::Uninstall { name: "b".to_string() }));
    assert_eq!(helm_repo("uninstall", None, None), Err(HelmError::MissingRepoName));
    assert_eq!(helm_repo("update", None, None), Ok(RepoAction::Update));
    assert_eq!(helm_repo("upgrade", None, None), Err(HelmError::InvalidRepoAction));
}

#[test]
fn chart_actions() {
    let chart = Chart { name: "redis".to_string(), repo: "bitnami".to_string(), namespace: None, values: None };
    assert_eq!(
        helm_chart("install", &chart),
        Ok(ChartAction::Install {
            name: "redis".to_string(),
            repo: "bitnami".to_string(),
            namespace: "redis".to_string(),
            values: None,
        })
    );
    let mut with_ns = chart.clone();
    with_ns.namespace = Some("cache".to_string());
    with_ns.values = Some("dev.yaml".to_string());
    assert!(matches!(helm_chart("install", &with_ns), Ok(ChartAction::Install { namespace, values: Some(v), .. }) if namespace == "cache" && v == "dev.yaml"));
    assert_eq!(helm_chart("uninstall", &chart), Ok(ChartAction::Uninstall { name: "redis".to_string() }));
    assert_eq!(
        helm_chart("prepare", &chart),
        Ok(ChartAction::Prepare { name: "redis".to_string(), repo: "bitnami".to_string() })
    );
    assert_eq!(helm_chart("remove", &chart), Err(HelmError::InvalidChartAction));
}

#[test]
fn install_chart_sequence() {
    let none: Vec<CommandOutput> = vec![];
    assert_eq!(
        helm_install_chart("redis", "bitnami", "cache", None, false, false, &none),
        Step::Prepare { name: "redis".to_string(), repo: "bitnami".to_string() }
    );
    assert_eq!(
        helm_install_chart("redis", "bitnami", "cache", None, true, false, &none),
        Step::Prepare { name: "redis".to_string(), repo: "bitnami".to_string() }
    );
    assert_eq!(
        helm_install_chart("redis", "bitnami", "cache", Some("dev.yaml"), true, false, &none),
        Step::Done { result: Err(HelmError::ValuesFileMissing { path: "config/helm/redis/dev.yaml".to_string() }) }
    );
    assert_eq!(
        helm_install_chart("redis", "bitnami", "cache", None, true, true, &none),
        Step::Run { args: args(&["list", "--namespace", "cache"]) }
    );
    let fresh = vec![out("NAME", "", Some(0))];
    assert_eq!(
        helm_install_chart("redis", "bitnami", "cache", None, true, true, &fresh),
        Step::Run {
            args: args(&[
                "install", "redis", "--values", "config/helm/redis/values.yaml", "--namespace", "cache",
                "--create-namespace", "--wait", "--timeout", "10m0s", "bitnami/redis",
            ])
        }
    );
    let present = vec![out("NAME\nredis", "", Some(0))];
    assert_eq!(
        helm_install_chart("redis", "bitnami", "cache", Some("dev.yaml"), true, true, &present),
        Step::Run {
            args: args(&[
                "upgrade", "redis", "--values", "config/helm/redis/dev.yaml", "--namespace", "cache",
                "--wait", "--timeout", "10m0s", "bitnami/redis",
            ])
        }
    );
    let mut upgraded = present.clone();
    upgraded.push(out("", "timed out", Some(1)));
    assert_eq!(
        helm_install_chart("redis", "bitnami", "cache", None, true, true, &upgraded),
        Step::Done { result: Err(HelmError::UpgradeFailed { stderr: "timed out".to_string() }) }
    );
    let mut installed = fresh.clone();
    installed.push(out("", "bad chart", Some(1)));
    assert_eq!(
        helm_install_chart("redis", "bitnami", "cache", None, true, true, &installed),
        Step::Done { result: Err(HelmError::InstallFailed { stderr: "bad chart".to_string() }) }
    );
    installed[1].status = Some(0);
    assert_eq!(
        helm_install_chart("redis", "bitnami", "cache", None, true, true, &installed),
        Step::Done { result: Ok(()) }
    );
}

#[test]
fn prepare_chart_sequence() {
    assert_eq!(helm_prepare_chart("redis", "bitnami", true, &vec![]), Step::Done { result: Ok(()) });
    assert_eq!(
        helm_prepare_chart("redis", "bitnami", false, &vec![]),
        Step::Run { args: args(&["show", "values", "bitnami/redis"]) }
    );
    assert_eq!(
        helm_prepare_chart("redis", "bitnami", false, &vec![out("", "no chart", Some(1))]),
        Step::Done { result: Err(HelmError::ShowValuesFailed { stderr: "no chart".to_string() }) }
    );
    assert_eq!(helm_values_path("redis", None), "config/helm/redis/values.yaml");
}
