use loopy::command::{CommandOutput, Step};
use loopy::kubectl::{
    command_succeeded, crd_wait_seconds, kubectl_manifest_single, kubectl_manifests,
    kubectl_namespace, kubectl_url, manifest_action, marker_namespace_action, namespace_labels, KubectlError,
    ManifestFile, NamespaceAction,
};

fn out(stderr: &str, status: Option<i32>) -> CommandOutput {
    CommandOutput { stdout: String::new(), stderr: stderr.to_string(), status }
}

fn args(v: &[&str]) -> Vec<String> {
    v.iter().map(|s| s.to_string()).collect()
}

fn file(dir: &str, name: &str) -> ManifestFile {
    ManifestFile { path: format!("{}/{}", dir, name), name: name.to_string() }
}

#[test]
fn single_manifest_sequence() {
    assert_eq!(
        kubectl_manifest_single("apply", "m/a.yaml", false, false, &vec![]),
        Step::Done { result: Err(KubectlError::ManifestMissing { path: "m/a.yaml".to_string() }) }
    );
    assert_eq!(
        kubectl_manifest_single("apply", "m/a.yaml", true, true, &vec![]),
        Step::Run { args: args(&["apply", "-f", "m/a.yaml", "--dry-run=client"]) }
    );
    assert_eq!(
        kubectl_manifest_single("delete", "m/a.yaml", false, true, &vec![]),
        Step::Run { args: args(&["delete", "-f", "m/a.yaml"]) }
    );
    assert_eq!(
        kubectl_manifest_single("delete", "m/a.yaml", false, true, &vec![out("Error (NotFound): gone", Some(1))]),
        Step::Done { result: Ok(()) }
    );
    assert_eq!(
        kubectl_manifest_single("apply", "m/a.yaml", false, true, &vec![out("Error (NotFound): gone", Some(1))]),
        Step::Done { result: Err(KubectlError::CommandFailed { target: "m/a.yaml".to_string() }) }
    );
}

#[test]
fn deleted_objects_count_as_done_only_for_delete() {
    assert!(command_succeeded("apply", &out("", Some(0))));
    assert!(command_succeeded("delete", &out("resource mapping not found for kind", Some(1))));
    assert!(!command_succeeded("delete", &out("forbidden", Some(1))));
    assert!(!command_succeeded("delete", &out("", None)));
}

#[test]
fn url_sequence() {
    let none: Vec<CommandOutput> = vec![];
    assert_eq!(
        kubectl_url("patch", "https://x/m.yaml", false, None, &none),
        Step::Done { result: Err(KubectlError::InvalidAction) }
    );
    assert_eq!(kubectl_url("apply", "https://x/m.yaml", false, None, &none), Step::Probe { url: "https://x/m.yaml".to_string() });
    assert_eq!(
        kubectl_url("apply", "https://x/m.yaml", false, Some(404), &none),
        Step::Done { result: Err(KubectlError::UrlFailed { url: "https://x/m.yaml".to_string(), status: 404 }) }
    );
    assert_eq!(
        kubectl_url("apply", "https://x/m.yaml", false, Some(200), &none),
        Step::Run { args: args(&["apply", "-f", "https://x/m.yaml"]) }
    );
    assert_eq!(
        kubectl_url("apply", "https://x/m.yaml", false, Some(200), &vec![out("", Some(0))]),
        Step::Done { result: Ok(()) }
    );
}

#[test]
fn manifest_directory_plan_for_apply() {
    let files = vec![
        file("config/manifests/app", "deploy.yaml"),
        file("config/manifests/app", "crds.yaml"),
        file("config/manifests/app", "namespace.yaml"),
    ];
    let plan = kubectl_manifests("apply", "app", None, &files).unwrap();
    assert_eq!(plan.first, args(&["config/manifests/app/namespace.yaml", "config/manifests/app/crds.yaml"]));
    assert_eq!(
        plan.rest,
        args(&["config/manifests/app/deploy.yaml", "config/manifests/app/crds.yaml", "config/manifests/app/namespace.yaml"])
    );
    assert!(plan.wait_for_crds);
}

#[test]
fn manifest_directory_plan_for_delete() {
    let files = vec![
        file("d", "namespace.yaml"),
        file("d", "install.yaml"),
        file("d", "rbac.yaml"),
    ];
    let plan = kubectl_manifests("delete", "app", None, &files).unwrap();
    assert_eq!(plan.first, args(&["d/install.yaml", "d/rbac.yaml", "d/namespace.yaml"]));
    assert_eq!(plan.rest.len(), 3);
    assert!(!plan.wait_for_crds);
}

#[test]
fn manifest_plan_with_a_file_name() {
    let plan = kubectl_manifests("apply", "app", Some("one.yaml"), &vec![]).unwrap();
    assert_eq!(plan.first, args(&["config/manifests/app/one.yaml"]));
    assert!(plan.rest.is_empty());
    assert_eq!(kubectl_manifests("sync", "app", None, &vec![]), Err(KubectlError::InvalidAction));
}

#[test]
fn namespace_decisions() {
    assert_eq!(crd_wait_seconds(true), 30);
    assert_eq!(crd_wait_seconds(false), 300);
    assert_eq!(kubectl_namespace("create"), Ok(NamespaceAction::Create));
    assert_eq!(kubectl_namespace("delete"), Ok(NamespaceAction::Delete));
    assert_eq!(kubectl_namespace("update"), Err(KubectlError::InvalidAction));
    assert_eq!(marker_namespace_action("install"), Some(NamespaceAction::Create));
    assert_eq!(marker_namespace_action("uninstall"), Some(NamespaceAction::Delete));
    assert_eq!(marker_namespace_action("other"), None);
    assert_eq!(manifest_action("install"), "apply");
    assert_eq!(manifest_action("uninstall"), "delete");
    let labels = namespace_labels();
    assert_eq!(labels[0], ("app".to_string(), "loopy".to_string()));
    assert_eq!(labels[1], ("vendor".to_string(), "salt-labs".to_string()));
    assert_eq!(labels[2], ("category".to_string(), "utilities".to_string()));
}
