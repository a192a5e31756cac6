use sofka::app::navigation::{CrdSpec, Effect, HelmRevision, Row, Target, ViewDrill};
use sofka::keyset::KeySet;
use sofka::app::{ApiResource, App, Frame, Kind, Mode, Scrollable};

fn kind(group: &str, plural: &str, namespaced: bool) -> Kind {
    Kind {
        ar: ApiResource {
            group: group.into(),
            version: "v1".into(),
            api_version: if group.is_empty() { "v1".into() } else { format!("{group}/v1") },
            kind: "K".into(),
            plural: plural.into(),
        },
        namespaced,
    }
}

fn app(plural: &str) -> App {
    App {
        kind: Some(kind("", plural, true)),
        kind_plural: plural.into(),
        namespace: "default".into(),
        labels: None,
        fields: None,
        scope_label: None,
        filter: "web".into(),
        sort_column: Some(2),
        sort_desc: true,
        selected: Some(4),
        mode: Mode::Table,
        return_mode: Mode::Table,
        detail: Scrollable { title: String::new(), lines: Vec::new() },
        flash: String::new(),
        flash_err: false,
        stack: Vec::new(),
        pending_notify: None,
        notifying: KeySet::new(),
        crd_views: KeySet::new(),
    }
}

fn row(name: &str, ns: &str, match_labels: Option<&str>, selector: Option<&str>) -> Option<Row> {
    Some(Row {
        name: name.into(),
        namespace: ns.into(),
        match_labels: match_labels.map(String::from),
        selector: selector.map(String::from),
    })
}

trait DrillPlain {
    fn drill_plain(&mut self, row: Option<Row>, pods: Option<Kind>) -> Effect;
}

impl DrillPlain for App {
    fn drill_plain(&mut self, row: Option<Row>, pods: Option<Kind>) -> Effect {
        self.drill(row, pods, None, None, None)
    }
}

fn pods() -> Option<Kind> {
    Some(kind("", "pods", true))
}

#[test]
fn nothing_selected_does_nothing() {
    let mut a = app("deployments");
    assert_eq!(a.drill_plain(None, pods()), Effect::Stay);
    assert!(a.stack.is_empty());
    assert_eq!(a.kind_plural, "deployments");
}

#[test]
fn a_node_drills_into_its_pods() {
    let mut a = app("nodes");
    assert_eq!(a.drill_plain(row("n1", "", None, None), pods()), Effect::StartWatch);
    assert_eq!(a.kind_plural, "pods");
    assert_eq!(a.namespace, "");
    assert_eq!(a.labels, None);
    assert_eq!(a.fields.as_deref(), Some("spec.nodeName=n1"));
    assert_eq!(a.scope_label.as_deref(), Some("node/n1"));
    assert_eq!(a.filter, "");
    assert_eq!(a.sort_column, None);
    assert_eq!(a.selected, Some(0));
    assert_eq!(a.flash, "↳ drilled into pods");
    assert_eq!(a.stack.len(), 1);
    assert_eq!(a.stack[0].kind_plural, "nodes");
    assert_eq!(a.stack[0].filter, "web");
}

#[test]
fn a_workload_drills_by_its_selector() {
    let mut a = app("deployments");
    assert_eq!(a.drill_plain(row("web", "shop", Some("app=web"), None), pods()), Effect::StartWatch);
    assert_eq!(a.namespace, "shop");
    assert_eq!(a.labels.as_deref(), Some("app=web"));
    assert_eq!(a.fields, None);
    assert_eq!(a.scope_label.as_deref(), Some("deployment/web"));
}

#[test]
fn a_workload_without_selector_warns() {
    let mut a = app("statefulsets");
    assert_eq!(a.drill_plain(row("db", "shop", None, None), pods()), Effect::Stay);
    assert_eq!(a.flash, "no pod selector on this object");
    assert!(a.flash_err);
    assert!(a.stack.is_empty());
}

#[test]
fn a_service_drills_by_its_selector() {
    let mut a = app("services");
    assert_eq!(a.drill_plain(row("api", "shop", None, Some("app=api")), pods()), Effect::StartWatch);
    assert_eq!(a.scope_label.as_deref(), Some("svc/api"));
    let mut a = app("services");
    assert_eq!(a.drill_plain(row("api", "shop", None, None), pods()), Effect::Stay);
    assert_eq!(a.flash, "service has no selector");
}

#[test]
fn without_a_pods_kind_nothing_moves() {
    let mut a = app("nodes");
    assert_eq!(a.drill_plain(row("n1", "", None, None), None), Effect::Stay);
    assert_eq!(a.flash, "pods kind unavailable");
    assert_eq!(a.kind_plural, "nodes");
}

#[test]
fn other_kinds_name_the_next_step() {
    for (plural, want) in [
        ("pods", Effect::OpenContainers),
        ("customresourcedefinitions", Effect::DrillIntoCrd),
        ("helm", Effect::DrillIntoHelmHistory),
        ("helmhistory", Effect::OpenHelmValues),
        ("helmreleases", Effect::DrillIntoHelmRelease),
        ("nodeclaims", Effect::OpenDetail),
    ] {
        let mut a = app(plural);
        assert_eq!(a.drill_plain(row("x", "ns", None, None), pods()), want);
        assert!(a.stack.is_empty());
    }
}

#[test]
fn picking_a_namespace_returns_to_the_drilled_view() {
    let mut a = app("deployments");
    a.drill_plain(row("web", "shop", Some("app=web"), None), pods());
    assert_eq!(a.set_namespace_and_return("staging", pods()), Effect::NamespaceSwitched);
    assert!(a.stack.is_empty());
    assert_eq!(a.kind_plural, "deployments");
    assert_eq!(a.filter, "web");
    assert_eq!(a.namespace, "staging");
    assert_eq!(a.flash, "namespace: staging");
}

#[test]
fn picking_all_namespaces_from_the_root_lists_pods() {
    let mut a = app("namespaces");
    assert_eq!(a.drill_plain(row("<all>", "", None, None), pods()), Effect::NamespaceSwitched);
    assert_eq!(a.kind_plural, "pods");
    assert_eq!(a.namespace, "");
    assert_eq!(a.filter, "");
    assert_eq!(a.flash, "namespace: <all>");
    assert!(!a.flash_err);
}

#[test]
fn goto_node_scopes_the_nodes_list() {
    let mut a = app("pods");
    assert_eq!(a.goto_node("n7", "pod/x".into(), Some(kind("", "nodes", false))), Effect::StartWatch);
    assert_eq!(a.kind_plural, "nodes");
    assert_eq!(a.fields.as_deref(), Some("metadata.name=n7"));
    assert_eq!(a.scope_label.as_deref(), Some("pod/x"));
    let mut a = app("pods");
    assert_eq!(a.goto_node("n7", "pod/x".into(), None), Effect::Stay);
    assert_eq!(a.flash, "nodes kind unavailable");
}

#[test]
fn helm_history_is_scoped_by_release() {
    let mut a = app("helm");
    assert_eq!(a.drill_into_helm_history(Some("web".into()), "shop".into()), Effect::StartWatch);
    assert_eq!(a.kind_plural, "helmhistory");
    assert_eq!(a.labels.as_deref(), Some("owner=helm,name=web"));
    assert_eq!(a.fields.as_deref(), Some("type=helm.sh/release.v1"));
    assert_eq!(a.scope_label.as_deref(), Some("helm/web"));
    assert_eq!(a.flash, "↳ web history");
    let mut a = app("helm");
    assert_eq!(a.drill_into_helm_history(None, "shop".into()), Effect::Stay);
    assert_eq!(a.flash, "not a Helm release secret");
}

#[test]
fn a_helmrelease_opens_its_history() {
    let mut a = app("helmreleases");
    let secrets = Some(kind("", "secrets", true));
    assert_eq!(a.drill_into_helmrelease(secrets, "web", "shop".into()), Effect::StartWatch);
    assert_eq!(a.kind.as_ref().map(|k| k.ar.plural.as_str()), Some("secrets"));
    assert_eq!(a.kind_plural, "helmhistory");
    let mut a = app("helmreleases");
    assert_eq!(a.drill_into_helmrelease(Some(kind("", "secrets", true)), "", "shop".into()), Effect::Stay);
    assert_eq!(a.flash, "HelmRelease has no resolvable release name");
    let mut a = app("helmreleases");
    assert_eq!(a.drill_into_helmrelease(None, "web", "shop".into()), Effect::Stay);
    assert_eq!(a.flash, "secrets kind unavailable");
}

fn crd(plural: Option<&str>, version: Option<&str>, scope: Option<&str>) -> CrdSpec {
    CrdSpec {
        name: "widgets.example.com".into(),
        group: Some("example.com".into()),
        plural: plural.map(String::from),
        kind: Some("Widget".into()),
        scope: scope.map(String::from),
        served_version: version.map(String::from),
    }
}

#[test]
fn crd_key_is_group_qualified() {
    assert_eq!(App::crd_resource_key(&crd(Some("widgets"), None, None)), "widgets.example.com");
    let mut c = crd(Some("widgets"), None, None);
    c.group = None;
    assert_eq!(App::crd_resource_key(&c), "widgets");
}

#[test]
fn a_crd_without_discovery_builds_its_kind() {
    let mut a = app("customresourcedefinitions");
    let e = a.drill_into_crd(&crd(Some("Widgets"), Some("v2"), Some("namespaced")), None);
    assert_eq!(e, Effect::SeedCrdColumnsThenWatch);
    let k = a.kind.as_ref().unwrap();
    assert_eq!(k.ar.api_version, "example.com/v2");
    assert_eq!(k.ar.plural, "Widgets");
    assert!(k.namespaced);
    assert_eq!(a.kind_plural, "widgets");
    assert_eq!(a.namespace, "");
    assert_eq!(a.scope_label.as_deref(), Some("crd/widgets.example.com"));
    assert_eq!(a.flash, "↳ Widgets");

    let mut a = app("customresourcedefinitions");
    a.drill_into_crd(&crd(Some("widgets"), Some("v2"), Some("Cluster")), None);
    assert!(!a.kind.as_ref().unwrap().namespaced);
}

#[test]
fn crd_columns_are_seeded_once_per_kind() {
    let mut a = app("customresourcedefinitions");
    let e = a.drill_into_crd(&crd(Some("Widgets"), Some("v2"), None), None);
    assert_eq!(e, Effect::SeedCrdColumnsThenWatch);
    assert_eq!(a.crd_views.keys(), &vec!["widgets".to_string()]);
    let e = a.drill_into_crd(&crd(Some("widgets"), Some("v2"), None), None);
    assert_eq!(e, Effect::StartWatch);
    assert_eq!(a.crd_views.keys(), &vec!["widgets".to_string()]);
}

#[test]
fn without_a_drill_enter_jumps_to_the_node_or_opens_the_detail() {
    let mut a = app("nodeclaims");
    assert_eq!(a.drill(row("c1", "", None, None), pods(), None, None, Some("/status/nodeName".into())), Effect::JumpToNode);
    assert!(a.stack.is_empty());
    assert_eq!(a.drill(row("c1", "", None, None), pods(), None, None, None), Effect::OpenDetail);
}

#[test]
fn a_crd_prefers_the_discovered_kind() {
    let mut a = app("customresourcedefinitions");
    let found = kind("example.com", "widgets", false);
    a.drill_into_crd(&crd(Some("widgets"), None, None), Some(found));
    assert_eq!(a.kind.as_ref().unwrap().ar.api_version, "example.com/v1");
}

#[test]
fn a_crd_that_cannot_be_resolved_warns() {
    let mut a = app("customresourcedefinitions");
    assert_eq!(a.drill_into_crd(&crd(None, Some("v1"), None), None), Effect::Stay);
    assert_eq!(a.flash, "CRD has no plural name");
    assert_eq!(a.drill_into_crd(&crd(Some("widgets"), None, None), None), Effect::Stay);
    assert_eq!(a.flash, "could not resolve CRD's resource (no served version?)");
}

#[test]
fn navigate_to_target_filters_by_name() {
    let mut a = app("kustomizations");
    a.mode = Mode::Detail;
    let t = Target { plural: "Deployments".into(), namespace: Some("shop".into()), name: "web".into() };
    assert_eq!(a.navigate_to_target(&t, Some(kind("apps", "Deployments", true))), Effect::StartWatch);
    assert_eq!(a.kind_plural, "deployments");
    assert_eq!(a.namespace, "shop");
    assert_eq!(a.fields.as_deref(), Some("metadata.name=web"));
    assert_eq!(a.scope_label.as_deref(), Some("web"));
    assert_eq!(a.mode, Mode::Table);
    assert_eq!(a.stack[0].mode, Mode::Detail);

    let mut a = app("kustomizations");
    assert_eq!(a.navigate_to_target(&t, None), Effect::Stay);
    assert_eq!(a.flash, "cannot resolve 'Deployments'");
}

#[test]
fn helm_values_open_in_the_detail_pane() {
    let mut a = app("helmhistory");
    let config: serde_json::Value = serde_json::from_str("{\"replicas\": 3, \"image\": {\"tag\": \"v1\"}}").unwrap();
    a.open_helm_values(Some(HelmRevision { name: "web".into(), revision: 12, config }));
    assert_eq!(a.mode, Mode::Detail);
    assert_eq!(a.return_mode, Mode::Table);
    assert_eq!(a.detail.title, "web v12 — values");
    assert!(a.detail.lines.contains(&"replicas: 3".to_string()));
    assert!(a.detail.lines.contains(&"  tag: v1".to_string()));

    let mut a = app("helmhistory");
    a.open_helm_values(None);
    assert_eq!(a.flash, "could not decode this Helm release revision");
    assert_eq!(a.mode, Mode::Table);
}

#[test]
fn restore_brings_a_frame_back() {
    let mut a = app("nodes");
    let f: Frame = a.frame();
    a.drill_plain(row("n1", "", None, None), pods());
    assert_eq!(a.kind_plural, "pods");
    a.restore(f);
    assert_eq!(a.kind_plural, "nodes");
    assert_eq!(a.filter, "web");
    assert_eq!(a.sort_column, Some(2));
}

fn nodepool_drill() -> Option<ViewDrill> {
    Some(ViewDrill {
        kind: "nodeclaims".into(),
        labels: Some("karpenter.sh/nodepool={name}".into()),
        fields: None,
    })
}

#[test]
fn a_view_drill_opens_the_configured_kind() {
    let mut a = app("nodepools");
    let target = Some(kind("karpenter.sh", "NodeClaims", false));
    assert_eq!(a.drill(row("default", "", None, None), pods(), nodepool_drill(), target, Some("/status/nodeName".into())), Effect::StartWatch);
    assert_eq!(a.kind_plural, "nodeclaims");
    assert_eq!(a.labels.as_deref(), Some("karpenter.sh/nodepool=default"));
    assert_eq!(a.fields, None);
    assert_eq!(a.namespace, "");
    assert_eq!(a.scope_label.as_deref(), Some("nodepool/default"));
    assert_eq!(a.flash, "↳ drilled into nodeclaims");
    assert_eq!(a.stack.len(), 1);
}

#[test]
fn a_namespaced_view_drill_target_opens_in_the_rows_namespace() {
    let mut a = app("externalsecrets");
    let d = Some(ViewDrill { kind: "secrets".into(), labels: None, fields: Some("metadata.name={name},x={namespace}".into()) });
    assert_eq!(a.drill(row("db", "shop", None, None), pods(), d, Some(kind("", "secrets", true)), None), Effect::StartWatch);
    assert_eq!(a.namespace, "shop");
    assert_eq!(a.fields.as_deref(), Some("metadata.name=db,x=shop"));
    assert_eq!(a.labels, None);
}

#[test]
fn an_unknown_view_drill_kind_warns_and_stays_put() {
    let mut a = app("nodepools");
    assert_eq!(a.drill(row("default", "", None, None), pods(), nodepool_drill(), None, None), Effect::Stay);
    assert_eq!(a.flash, "cannot resolve 'nodeclaims'");
    assert!(a.flash_err);
    assert_eq!(a.kind_plural, "nodepools");
    assert!(a.stack.is_empty());
}

#[test]
fn built_in_drills_win_over_a_view_drill() {
    let mut a = app("services");
    let e = a.drill(row("api", "shop", None, Some("app=api")), pods(), nodepool_drill(), Some(kind("", "nodeclaims", false)), None);
    assert_eq!(e, Effect::StartWatch);
    assert_eq!(a.kind_plural, "pods");
}
