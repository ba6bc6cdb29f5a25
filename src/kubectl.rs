//! Decisions around the `kubectl` command-line tool and the marker
//! namespace: which manifests to apply in which order, and what the
//! output of an apply or a delete means.
use vstd::prelude::*;

use crate::command::{arg_views, exited_with, fails_with, runs, succeeds, CommandOutput, Step};
use crate::text::{contains, has_substring, join_path, joined, str_eq};

verus! {

/// Why a manifest or namespace operation failed.
#[derive(Clone, Debug, PartialEq, Eq)]
pub enum KubectlError {
    InvalidAction,
    UrlFailed { url: String, status: u16 },
    ManifestMissing { path: String },
    CommandFailed { target: String },
}

/// What to do with a namespace.
#[derive(Clone, Copy, Debug, PartialEq, Eq, Structural)]
pub enum NamespaceAction {
    Create,
    Delete,
}

/// A manifest file of a directory: its path and its file name.
#[derive(Clone, Debug)]
pub struct ManifestFile {
    pub path: String,
    pub name: String,
}

/// The order in which a manifest directory is processed: the files with
/// the well-known names first, in their order, then every file of the
/// directory in listing order. Waiting for custom resource definitions
/// comes between the two when applying.
#[derive(Clone, Debug, PartialEq, Eq)]
pub struct ManifestPlan {
    pub first: Vec<String>,
    pub rest: Vec<String>,
    pub wait_for_crds: bool,
}

/// Only `apply` and `delete` are manifest actions.
pub open spec fn valid_action(action: Seq<char>) -> bool {
    action == "apply"@ || action == "delete"@
}

/// Messages of a failed delete that only say the objects are gone already.
pub open spec fn allowed_error(stderr: Seq<char>) -> bool {
    has_substring(stderr, "(NotFound)"@) || has_substring(stderr, "resource mapping not found"@)
}

/// An apply or delete that exited nonzero still counts as done when it was
/// a delete of objects that are gone already.
pub open spec fn outcome_ok(action: Seq<char>, o: CommandOutput) -> bool {
    o.status == Some(0i32) || (action == "delete"@ && allowed_error(o.stderr@))
}

/// The arguments of an apply or a delete of `target`.
pub open spec fn kubectl_args(action: Seq<char>, target: Seq<char>, dry_run: bool) -> Seq<
    Seq<char>,
> {
    if dry_run {
        seq![action, "-f"@, target, "--dry-run=client"@]
    } else {
        seq![action, "-f"@, target]
    }
}

fn is_valid_action(action: &str) -> (r: bool)
    ensures
        r == valid_action(action@),
{
    str_eq(action, "apply") || str_eq(action, "delete")
}

fn command_args(action: &str, target: &str, dry_run: bool) -> (r: Vec<String>)
    ensures
        arg_views(r@) == kubectl_args(action@, target@, dry_run),
{
    let mut r: Vec<String> = Vec::new();
    r.push(action.to_owned());
    r.push("-f".to_owned());
    r.push(target.to_owned());
    if dry_run {
        r.push("--dry-run=client".to_owned());
    }
    assert(arg_views(r@) =~= kubectl_args(action@, target@, dry_run));
    r
}

/// Whether an apply or delete came out well.
pub fn command_succeeded(action: &str, o: &CommandOutput) -> (r: bool)
    ensures
        r == outcome_ok(action@, *o),
{
    exited_with(o, 0) || (str_eq(action, "delete") && (contains(o.stderr.as_str(), "(NotFound)")
        || contains(o.stderr.as_str(), "resource mapping not found")))
}

/// Applying or deleting the manifests at a URL: the action is checked,
/// then the URL is probed and must answer with success, then `kubectl`
/// runs on it.
pub fn kubectl_url(
    action: &str,
    url: &str,
    dry_run: bool,
    probed: Option<u16>,
    outputs: &Vec<CommandOutput>,
) -> (r: Step<KubectlError>)
    ensures
        !valid_action(action@) ==> fails_with(r, KubectlError::InvalidAction),
        valid_action(action@) ==> match probed {
            None => r matches Step::Probe { url: u } && u@ == url@,
            Some(status) => if !(200 <= status < 300) {
                r matches Step::Done { result: Err(KubectlError::UrlFailed { url: u, status: s }) }
                    && u@ == url@ && s == status
            } else if outputs@.len() == 0 {
                runs(r, kubectl_args(action@, url@, dry_run))
            } else if outcome_ok(action@, outputs@[0]) {
                succeeds(r)
            } else {
                r matches Step::Done { result: Err(KubectlError::CommandFailed { target: t }) }
                    && t@ == url@
            },
        },
{
    if !is_valid_action(action) {
        return Step::Done { result: Err(KubectlError::InvalidAction) };
    }
    match probed {
        None => Step::Probe { url: url.to_owned() },
        Some(status) => {
            if !(200 <= status && status < 300) {
                Step::Done { result: Err(KubectlError::UrlFailed { url: url.to_owned(), status }) }
            } else if outputs.len() == 0 {
                Step::Run { args: command_args(action, url, dry_run) }
            } else if command_succeeded(action, &outputs[0]) {
                Step::Done { result: Ok(()) }
            } else {
                Step::Done { result: Err(KubectlError::CommandFailed { target: url.to_owned() }) }
            }
        },
    }
}

/// Applying or deleting one manifest file or directory, which must exist.
pub fn kubectl_manifest_single(
    action: &str,
    manifest_path: &str,
    dry_run: bool,
    path_exists: bool,
    outputs: &Vec<CommandOutput>,
) -> (r: Step<KubectlError>)
    ensures
        !path_exists ==> (r matches Step::Done {
            result: Err(KubectlError::ManifestMissing { path }),
        } && path@ == manifest_path@),
        path_exists && outputs@.len() == 0 ==> runs(r, kubectl_args(action@, manifest_path@, dry_run)),
        path_exists && outputs@.len() >= 1 ==> if outcome_ok(action@, outputs@[0]) {
            succeeds(r)
        } else {
            r matches Step::Done { result: Err(KubectlError::CommandFailed { target: t }) } && t@
                == manifest_path@
        },
{
    if !path_exists {
        return Step::Done {
            result: Err(KubectlError::ManifestMissing { path: manifest_path.to_owned() }),
        };
    }
    if outputs.len() == 0 {
        return Step::Run { args: command_args(action, manifest_path, dry_run) };
    }
    if command_succeeded(action, &outputs[0]) {
        Step::Done { result: Ok(()) }
    } else {
        Step::Done { result: Err(KubectlError::CommandFailed { target: manifest_path.to_owned() }) }
    }
}

/// The well-known manifest names, in the order that an action takes them:
/// the namespace and definitions first when applying, last when deleting.
pub open spec fn special_order(action: Seq<char>) -> Seq<Seq<char>> {
    if action == "apply"@ {
        seq!["namespace.yaml"@, "crds.yaml"@, "rbac.yaml"@, "webhook.yaml"@, "install.yaml"@]
    } else {
        seq!["install.yaml"@, "webhook.yaml"@, "rbac.yaml"@, "crds.yaml"@, "namespace.yaml"@]
    }
}

/// The directory of a named set of manifests.
pub open spec fn manifest_dir(name: Seq<char>) -> Seq<char> {
    joined("config/manifests"@, name)
}

/// The index of the first file with this name, if any.
pub open spec fn first_named(files: Seq<ManifestFile>, name: Seq<char>) -> Option<int> {
    if exists|i: int| 0 <= i < files.len() && (#[trigger] files[i]).name@ == name {
        Some(
            choose|i: int|
                0 <= i < files.len() && (#[trigger] files[i]).name@ == name && forall|k: int|
                    0 <= k < i ==> (#[trigger] files[k]).name@ != name,
        )
    } else {
        None
    }
}

/// The paths of the well-known files present, in the action's order.
pub open spec fn special_paths(files: Seq<ManifestFile>, order: Seq<Seq<char>>) -> Seq<Seq<char>>
    decreases order.len(),
{
    if order.len() == 0 {
        seq![]
    } else {
        let init = special_paths(files, order.drop_last());
        match first_named(files, order.last()) {
            Some(i) => init.push(files[i].path@),
            None => init,
        }
    }
}

/// The paths, as character sequences.
pub open spec fn path_views(paths: Seq<String>) -> Seq<Seq<char>> {
    paths.map_values(|p: String| p@)
}

fn special_names(apply: bool) -> (r: Vec<&'static str>)
    ensures
        r@.map_values(|s: &str| s@) == special_order(if apply {
            "apply"@
        } else {
            "delete"@
        }),
{
    proof {
        reveal_strlit("apply");
        reveal_strlit("delete");
        assert("apply"@.len() != "delete"@.len());
    }
    let r = if apply {
        vec!["namespace.yaml", "crds.yaml", "rbac.yaml", "webhook.yaml", "install.yaml"]
    } else {
        vec!["install.yaml", "webhook.yaml", "rbac.yaml", "crds.yaml", "namespace.yaml"]
    };
    assert(r@.map_values(|s: &str| s@) =~= special_order(
        if apply {
            "apply"@
        } else {
            "delete"@
        },
    ));
    r
}

fn find_named(files: &Vec<ManifestFile>, name: &str) -> (r: Option<usize>)
    ensures
        match r {
            Some(i) => i < files@.len() && first_named(files@, name@) == Some(i as int),
            None => first_named(files@, name@) is None,
        },
{
    let mut i: usize = 0;
    while i < files.len()
        invariant
            i <= files@.len(),
            forall|k: int| 0 <= k < i ==> (#[trigger] files@[k]).name@ != name@,
        decreases files@.len() - i,
    {
        if str_eq(files[i].name.as_str(), name) {
            proof {
                let j = choose|j: int|
                    0 <= j < files@.len() && (#[trigger] files@[j]).name@ == name@ && forall|k: int|
                        0 <= k < j ==> (#[trigger] files@[k]).name@ != name@;
                if j < i {
                } else if j > i {
                    assert(files@[i as int].name@ == name@);
                }
            }
            return Some(i);
        }
        i = i + 1;
    }
    None
}

/// Plans the processing of a manifest directory. With a file name, only
/// that file of the set's directory; without one, the well-known files
/// that the listing holds, in the action's order, then the whole listing.
pub fn kubectl_manifests(action: &str, name: &str, filename: Option<&str>, files: &Vec<
    ManifestFile,
>) -> (r: Result<ManifestPlan, KubectlError>)
    ensures
        !valid_action(action@) ==> r matches Err(KubectlError::InvalidAction),
        valid_action(action@) ==> match filename {
            Some(f) => r matches Ok(plan) && path_views(plan.first@) == seq![
                joined(manifest_dir(name@), f@),
            ] && plan.rest@.len() == 0 && !plan.wait_for_crds,
            None => r matches Ok(plan) && path_views(plan.first@) == special_paths(
                files@,
                special_order(action@),
            ) && path_views(plan.rest@) == files@.map_values(|m: ManifestFile| m.path@)
                && plan.wait_for_crds == (action@ == "apply"@),
        },
{
    proof {
        reveal_strlit("apply");
        reveal_strlit("delete");
        assert("apply"@.len() != "delete"@.len());
    }
    if !is_valid_action(action) {
        return Err(KubectlError::InvalidAction);
    }
    let dir = join_path("config/manifests", name);
    match filename {
        Some(f) => {
            let first = vec![join_path(dir.as_str(), f)];
            assert(path_views(first@) =~= seq![joined(manifest_dir(name@), f@)]);
            Ok(ManifestPlan { first, rest: Vec::new(), wait_for_crds: false })
        },
        None => {
            let apply = str_eq(action, "apply");
            let order = special_names(apply);
            let ghost spec_order = special_order(action@);
            let mut first: Vec<String> = Vec::new();
            let mut k: usize = 0;
            while k < order.len()
                invariant
                    k <= order@.len(),
                    order@.map_values(|s: &str| s@) == spec_order,
                    path_views(first@) == special_paths(files@, spec_order.subrange(0, k as int)),
                decreases order@.len() - k,
            {
                let found = find_named(files, order[k]);
                proof {
                    let next = spec_order.subrange(0, k + 1);
                    assert(next.drop_last() =~= spec_order.subrange(0, k as int));
                    assert(next.last() == order@[k as int]@);
                }
                match found {
                    Some(i) => {
                        first.push(files[i].path.clone());
                        assert(path_views(first@) =~= special_paths(
                            files@,
                            spec_order.subrange(0, k + 1),
                        ));
                    },
                    None => {},
                }
                k = k + 1;
            }
            assert(spec_order.subrange(0, order@.len() as int) =~= spec_order);
            let mut rest: Vec<String> = Vec::new();
            let mut i: usize = 0;
            while i < files.len()
                invariant
                    i <= files@.len(),
                    rest@.len() == i,
                    forall|j: int| 0 <= j < i ==> (#[trigger] rest@[j])@ == files@[j].path@,
                decreases files@.len() - i,
            {
                rest.push(files[i].path.clone());
                i = i + 1;
            }
            assert(path_views(rest@) =~= files@.map_values(|m: ManifestFile| m.path@));
            Ok(ManifestPlan { first, rest, wait_for_crds: apply })
        },
    }
}

/// Seconds to wait for custom resource definitions: short when the marker
/// namespace exists already (an earlier run installed them), long else.
pub fn crd_wait_seconds(namespace_exists: bool) -> (r: u64)
    ensures
        r == if namespace_exists {
            30u64
        } else {
            300u64
        },
{
    if namespace_exists {
        30
    } else {
        300
    }
}

/// Resolves a namespace action: only `create` and `delete` are allowed.
pub fn kubectl_namespace(action: &str) -> (r: Result<NamespaceAction, KubectlError>)
    ensures
        action@ == "create"@ ==> r == Ok::<NamespaceAction, KubectlError>(NamespaceAction::Create),
        action@ == "delete"@ ==> r == Ok::<NamespaceAction, KubectlError>(NamespaceAction::Delete),
        action@ != "create"@ && action@ != "delete"@ ==> r matches Err(KubectlError::InvalidAction),
{
    proof {
        reveal_strlit("create");
        reveal_strlit("delete");
        assert("create"@[0] != "delete"@[0]);
    }
    if str_eq(action, "create") {
        Ok(NamespaceAction::Create)
    } else if str_eq(action, "delete") {
        Ok(NamespaceAction::Delete)
    } else {
        Err(KubectlError::InvalidAction)
    }
}

/// The namespace action that closes an install (create) or an uninstall
/// (delete); none for any other action.
pub fn marker_namespace_action(action: &str) -> (r: Option<NamespaceAction>)
    ensures
        action@ == "install"@ ==> r == Some(NamespaceAction::Create),
        action@ == "uninstall"@ ==> r == Some(NamespaceAction::Delete),
        action@ != "install"@ && action@ != "uninstall"@ ==> r is None,
{
    proof {
        reveal_strlit("install");
        reveal_strlit("uninstall");
        assert("install"@.len() != "uninstall"@.len());
    }
    if str_eq(action, "install") {
        Some(NamespaceAction::Create)
    } else if str_eq(action, "uninstall") {
        Some(NamespaceAction::Delete)
    } else {
        None
    }
}

/// The manifest action of a run: `install` applies, anything else deletes.
pub fn manifest_action(action: &str) -> (r: &'static str)
    ensures
        r@ == if action@ == "install"@ {
            "apply"@
        } else {
            "delete"@
        },
{
    if str_eq(action, "install") {
        "apply"
    } else {
        "delete"
    }
}

/// The labels that mark the tool's own namespace.
pub fn namespace_labels() -> (r: Vec<(String, String)>)
    ensures
        r@.map_values(|l: (String, String)| (l.0@, l.1@)) == seq![
            ("app"@, "loopy"@),
            ("vendor"@, "salt-labs"@),
            ("category"@, "utilities"@),
        ],
{
    let r = vec![
        ("app".to_owned(), "loopy".to_owned()),
        ("vendor".to_owned(), "salt-labs".to_owned()),
        ("category".to_owned(), "utilities".to_owned()),
    ];
    assert(r@.map_values(|l: (String, String)| (l.0@, l.1@)) =~= seq![
        ("app"@, "loopy"@),
        ("vendor"@, "salt-labs"@),
        ("category"@, "utilities"@),
    ]);
    r
}

} // verus!
