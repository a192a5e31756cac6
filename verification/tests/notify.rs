use sofka::app::notify::{notification_sequence, NotifySelection, NotifyToggle, WatchEvent, WatchFeed};
use sofka::keyset::KeySet;
use sofka::app::{ApiResource, App, Kind, Mode, Scrollable};
use sofka::config::NotifyConfig;

fn cfg(bell: bool, desktop: &str) -> NotifyConfig {
    NotifyConfig { bell, desktop: desktop.to_string() }
}

fn kind(plural: &str, namespaced: bool) -> Kind {
    Kind {
        ar: ApiResource {
            group: "apps".into(),
            version: "v1".into(),
            api_version: "apps/v1".into(),
            kind: "Deployment".into(),
            plural: plural.into(),
        },
        namespaced,
    }
}

fn app(plural: &str, k: Option<Kind>) -> App {
    App {
        kind: k,
        kind_plural: plural.into(),
        namespace: String::new(),
        labels: None,
        fields: None,
        scope_label: None,
        filter: String::new(),
        sort_column: None,
        sort_desc: false,
        selected: Some(0),
        mode: Mode::Table,
        return_mode: Mode::Table,
        detail: Scrollable { title: String::new(), lines: Vec::new() },
        flash: String::new(),
        flash_err: false,
        stack: Vec::new(),
        pending_notify: None,
        notifying: KeySet::new(),
        crd_views: KeySet::new(),
    }
}

fn sel(key: &str, name: &str, ns: &str) -> Option<NotifySelection> {
    Some(NotifySelection { key: key.into(), name: name.into(), namespace: ns.into() })
}

#[test]
fn bell_then_osc9_by_default() {
    assert_eq!(
        notification_sequence("web: ready 1/1", &cfg(true, "osc9")),
        "\x07\x1b]9;sofka: web: ready 1/1\x07"
    );
}

#[test]
fn osc777_and_both() {
    assert_eq!(
        notification_sequence("x", &cfg(false, "osc777")),
        "\x1b]777;notify;sofka;x\x07"
    );
    assert_eq!(
        notification_sequence("x", &cfg(false, "both")),
        "\x1b]9;sofka: x\x07\x1b]777;notify;sofka;x\x07"
    );
}

#[test]
fn off_sends_only_the_bell() {
    assert_eq!(notification_sequence("x", &cfg(true, "off")), "\x07");
    assert_eq!(notification_sequence("x", &cfg(false, "off")), "");
}

#[test]
fn unknown_desktop_behaves_as_osc9() {
    assert_eq!(
        notification_sequence("x", &cfg(false, "growl")),
        notification_sequence("x", &cfg(false, "osc9"))
    );
}

#[test]
fn control_characters_cannot_smuggle_sequences() {
    assert_eq!(
        notification_sequence("a\x1b]0;evil\x07b", &cfg(false, "osc9")),
        "\x1b]9;sofka: a]0;evilb\x07"
    );
}

#[test]
fn take_notification_empties_the_slot() {
    let mut a = app("pods", None);
    a.pending_notify = Some("pod/x: deleted".into());
    assert_eq!(a.take_notification(), Some("pod/x: deleted".to_string()));
    assert_eq!(a.take_notification(), None);
}

#[test]
fn helm_views_cannot_be_watched() {
    let mut a = app("helmhistory", Some(kind("secrets", true)));
    assert!(matches!(a.toggle_notify(sel("k", "n", "ns")), NotifyToggle::Unchanged));
    assert_eq!(a.flash, "notify is not available for Helm views");
    assert!(a.flash_err);
}

#[test]
fn refusals_say_why() {
    let mut a = app("pods", None);
    assert!(matches!(a.toggle_notify(sel("k", "n", "ns")), NotifyToggle::Unchanged));
    assert_eq!(a.flash, "select a resource first");

    let mut a = app("pods", Some(kind("pods", true)));
    assert!(matches!(a.toggle_notify(None), NotifyToggle::Unchanged));
    assert_eq!(a.flash, "no selection to notify on");

    assert!(matches!(a.toggle_notify(sel("ns/", "", "ns")), NotifyToggle::Unchanged));
    assert_eq!(a.flash, "object has no name to watch");
    assert_eq!(a.notifying.len(), 0);
}

#[test]
fn toggling_starts_then_stops_a_watch() {
    let mut a = app("deployments", Some(kind("deployments", true)));
    match a.toggle_notify(sel("shop/web", "web", "shop")) {
        NotifyToggle::Started(w) => {
            assert_eq!(w.id, "deployments/shop/web");
            assert_eq!(w.label, "deployment/web");
            assert_eq!(w.namespace.as_deref(), Some("shop"));
            assert_eq!(w.field_selector, "metadata.name=web");
            assert_eq!(w.resource.plural, "deployments");
        }
        _ => panic!("expected a started watch"),
    }
    assert_eq!(a.flash, "notify on: shop/web — changes flash + bell (1 active)");
    assert!(!a.flash_err);

    match a.toggle_notify(sel("shop/api", "api", "shop")) {
        NotifyToggle::Started(_) => {}
        _ => panic!("expected a started watch"),
    }
    assert_eq!(a.flash, "notify on: shop/api — changes flash + bell (2 active)");

    match a.toggle_notify(sel("shop/web", "web", "shop")) {
        NotifyToggle::Stopped(id) => assert_eq!(id, "deployments/shop/web"),
        _ => panic!("expected a stopped watch"),
    }
    assert_eq!(a.flash, "notify off: shop/web (1 still active)");
    assert_eq!(a.notifying.keys(), &vec!["deployments/shop/api".to_string()]);
}

#[test]
fn cluster_scoped_watches_have_no_namespace() {
    let mut a = app("nodes", Some(kind("nodes", false)));
    match a.toggle_notify(sel("n1", "n1", "")) {
        NotifyToggle::Started(w) => {
            assert_eq!(w.namespace, None);
            assert_eq!(w.label, "node/n1");
        }
        _ => panic!("expected a started watch"),
    }
}

#[test]
fn the_initial_list_is_not_news() {
    let mut f = WatchFeed::new();
    assert!(f.on_event("pod/x", WatchEvent::Init, &vec![]).is_empty());
    assert!(f.on_event("pod/x", WatchEvent::InitApply, &vec![]).is_empty());
    assert!(f.on_event("pod/x", WatchEvent::InitDone, &vec![]).is_empty());
    let t = vec!["ready 0/1 -> 1/1".to_string(), "phase Running".to_string()];
    assert_eq!(
        f.on_event("pod/x", WatchEvent::Apply, &t),
        vec!["pod/x: ready 0/1 -> 1/1".to_string(), "pod/x: phase Running".to_string()]
    );
    assert_eq!(f.on_event("pod/x", WatchEvent::Delete, &vec![]), vec!["pod/x: deleted".to_string()]);
    assert!(f.on_event("pod/x", WatchEvent::Error, &vec![]).is_empty());
    assert_eq!(f.on_event("pod/x", WatchEvent::Apply, &t), vec!["pod/x: created".to_string()]);
}
