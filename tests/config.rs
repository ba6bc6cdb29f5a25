use loopy::config::{
    validate_config, Application, Chart, Config, ConfigError, Dependencies, Helm, Manifests,
    Repository, Test, Tool,
};

fn s(v: &str) -> String {
    v.to_string()
}

fn empty_helm() -> Helm {
    Helm { repositories: Vec::new(), charts: Vec::new() }
}

fn base() -> Config {
    Config {
        log: None,
        dependencies: Dependencies {
            helm: Helm {
                repositories: vec![Repository { name: s("bitnami"), url: s("https://charts.bitnami.com") }],
                charts: vec![Chart { name: s("redis"), repo: s("bitnami"), namespace: None, values: None }],
            },
            manifests: vec![Manifests { name: s("crds"), url: Some(s("https://example.com/crds.yaml")), dir: None }],
            tools: vec![Tool { name: s("kind"), bin: s("kind"), url: None }],
            tests: vec![Test { command: s("kind"), args: None, stdout: None, stderr: None, status: None }],
        },
        application: Application { helm: empty_helm(), manifests: Vec::new(), tests: Vec::new() },
    }
}

#[test]
fn valid_configuration_passes() {
    assert_eq!(validate_config(&base()), Ok(()));
}

#[test]
fn blank_tool_name_is_refused() {
    let mut c = base();
    c.dependencies.tools[0].name = s("  \t");
    assert_eq!(validate_config(&c), Err(ConfigError::EmptyToolName));
}

#[test]
fn blank_tool_bin_names_the_tool() {
    let mut c = base();
    c.dependencies.tools[0].bin = s("\u{3000}");
    assert_eq!(validate_config(&c), Err(ConfigError::EmptyToolBin { tool: s("kind") }));
}

#[test]
fn blank_test_command_is_refused() {
    let mut c = base();
    c.application.tests.push(Test { command: s(""), args: None, stdout: None, stderr: None, status: None });
    assert_eq!(validate_config(&c), Err(ConfigError::EmptyTestCommand));
}

#[test]
fn manifest_needs_a_source() {
    let mut c = base();
    c.dependencies.manifests[0].url = None;
    assert_eq!(validate_config(&c), Err(ConfigError::ManifestWithoutSource { manifest: s("crds") }));
    c.dependencies.manifests[0].dir = Some(s("crds"));
    assert_eq!(validate_config(&c), Ok(()));
}

#[test]
fn blank_manifest_name_is_refused() {
    let mut c = base();
    c.application.manifests.push(Manifests { name: s(" "), url: None, dir: Some(s("x")) });
    assert_eq!(validate_config(&c), Err(ConfigError::EmptyManifestName));
}

#[test]
fn blank_repository_url_is_reported_under_the_first_repository() {
    let mut c = base();
    c.dependencies.helm.repositories.push(Repository { name: s("jetstack"), url: s(" ") });
    assert_eq!(validate_config(&c), Err(ConfigError::EmptyRepositoryUrl { repository: s("bitnami") }));
}

#[test]
fn blank_repository_name_is_refused() {
    let mut c = base();
    c.application.helm.repositories.push(Repository { name: s(""), url: s("https://x") });
    assert_eq!(validate_config(&c), Err(ConfigError::EmptyRepositoryName));
}

#[test]
fn chart_rules() {
    let mut c = base();
    c.dependencies.helm.charts[0].repo = s("");
    assert_eq!(validate_config(&c), Err(ConfigError::EmptyChartRepo { chart: s("redis") }));
    c.dependencies.helm.charts[0].name = s("\n");
    assert_eq!(validate_config(&c), Err(ConfigError::EmptyChartName));
}

#[test]
fn first_broken_rule_wins() {
    let mut c = base();
    c.dependencies.tools[0].name = s("");
    c.dependencies.helm.charts[0].name = s("");
    assert_eq!(validate_config(&c), Err(ConfigError::EmptyToolName));
}
