//! Drill-down and jumps between views: every move saves the current frame so
//! `esc` comes back, rescopes the table, and says on the flash line where it
//! went. Discovery lookups, the selected object's fields and the watch itself
//! are the caller's: they come in as arguments, and what to do next comes
//! back as an [`Effect`].

use vstd::prelude::*;
use crate::app::{App, AppView, FrameView, Kind, KindView, ApiResource, ResourceView, Mode, Scrollable, singular, trim_s, opt_str, opt_kind};
use crate::text::{decimal, decimal_string, concat2, concat3, same_text, lines, text_lines, fill, fill_placeholders};

verus! {

/// What the caller does after a navigation step.
#[derive(Clone, Copy, Debug, PartialEq, Eq, Structural)]
pub enum Effect {
    /// Nothing more.
    Stay,
    /// Start the watch for the scope now shown.
    StartWatch,
    /// Note the namespace among the recent ones, remember it for the next
    /// session, record the step in history, and start the watch.
    NamespaceSwitched,
    /// Seed the CRD's printer columns as the fallback view of the kind now
    /// listed, under the key just added to `crd_views`, then start the watch.
    SeedCrdColumnsThenWatch,
    /// Open the container picker for the selected pod.
    OpenContainers,
    /// Drill into the selected CRD's custom resources ([`App::drill_into_crd`]).
    DrillIntoCrd,
    /// Drill into the selected Helm release's revisions ([`App::drill_into_helm_history`]).
    DrillIntoHelmHistory,
    /// Show the selected revision's values ([`App::open_helm_values`]).
    OpenHelmValues,
    /// Drill from a Flux HelmRelease into its Helm history ([`App::drill_into_helmrelease`]).
    DrillIntoHelmRelease,
    /// Jump to the node the selected row names at its kind's node pointer:
    /// the nodes list scoped to that node ([`App::goto_node`]).
    JumpToNode,
    /// Open the selected object's detail.
    OpenDetail,
}

/// The text of `str::to_lowercase`: the full Unicode lowercase mapping,
/// which depends on the text alone.
pub uninterp spec fn lowercase(s: Seq<char>) -> Seq<char>;

/// `str::to_lowercase`: its text is [`lowercase`] of the argument's text.
#[verifier::external_body]
fn to_lowercase(s: &str) -> (r: String)
    ensures
        r@ == lowercase(s@),
{
    s.to_lowercase()
}

/// The ASCII lowercase of a character.
pub open spec fn ascii_lower(c: char) -> char {
    if 'A' <= c && c <= 'Z' {
        ((c as u32) + 32) as char
    } else {
        c
    }
}

/// Equality up to ASCII case (`str::eq_ignore_ascii_case`).
pub open spec fn eq_ignore_ascii_case(a: Seq<char>, b: Seq<char>) -> bool {
    a.len() == b.len() && forall|i: int| 0 <= i < a.len() ==> ascii_lower(#[trigger] a[i]) == ascii_lower(b[i])
}

fn lower_char(c: char) -> (r: char)
    ensures
        r == ascii_lower(c),
{
    if 'A' <= c && c <= 'Z' {
        let b: u8 = ((c as u32) + 32) as u8;
        b as char
    } else {
        c
    }
}

/// Whether `a` and `b` are equal up to ASCII case.
pub fn same_ignoring_ascii_case(a: &str, b: &str) -> (r: bool)
    ensures
        r == eq_ignore_ascii_case(a@, b@),
{
    let n: usize = a.unicode_len();
    if n != b.unicode_len() {
        return false;
    }
    let mut i: usize = 0;
    while i < n
        invariant
            n == a@.len(),
            n == b@.len(),
            i <= n,
            forall|j: int| 0 <= j < i ==> ascii_lower(#[trigger] a@[j]) == ascii_lower(b@[j]),
        decreases n - i,
    {
        if lower_char(a.get_char(i)) != lower_char(b.get_char(i)) {
            return false;
        }
        i = i + 1;
    }
    true
}

/// The pods of a drill target: the text the drill computed for them.
pub open spec fn to_pods(
    app: AppView,
    namespace: Seq<char>,
    labels: Option<Seq<char>>,
    fields: Option<Seq<char>>,
    scope: Seq<char>,
    pods: Option<KindView>,
) -> (AppView, Effect) {
    match pods {
        None => (app.warned("pods kind unavailable"@), Effect::Stay),
        Some(k) => (
            app.pushed().rescoped(Some(k), "pods"@, namespace, labels, fields, Some(scope)).flashed(
                "\u{21b3} drilled into pods"@,
            ),
            Effect::StartWatch,
        ),
    }
}

/// The namespace a picker entry selects: `<all>` is every namespace.
pub open spec fn namespace_of(name: Seq<char>) -> Seq<char> {
    if name == "<all>"@ {
        Seq::empty()
    } else {
        name
    }
}

/// How the flash line names a namespace scope.
pub open spec fn namespace_label(ns: Seq<char>) -> Seq<char> {
    if ns.len() == 0 {
        "<all>"@
    } else {
        ns
    }
}

/// Switching namespace: back to the view we came from if there is one,
/// otherwise (a root switch) into pods of that namespace.
pub open spec fn namespace_switch(app: AppView, name: Seq<char>, pods: Option<KindView>) -> AppView {
    let base = if app.stack.len() > 0 {
        AppView { scope: app.stack.last(), stack: app.stack.drop_last(), ..app }
    } else if pods is Some {
        app.rescoped(pods, "pods"@, app.scope.namespace, None, None, None)
    } else {
        app
    };
    let ns = namespace_of(name);
    AppView { scope: FrameView { namespace: ns, ..base.scope }, ..base }.flashed(
        "namespace: "@ + namespace_label(ns),
    )
}

/// The Helm history of `release` in `namespace`, listed from `kind`.
pub open spec fn helm_history(app: AppView, kind: Option<KindView>, release: Seq<char>, namespace: Seq<char>) -> AppView {
    app.pushed().rescoped(
        kind,
        "helmhistory"@,
        namespace,
        Some("owner=helm,name="@ + release),
        Some("type=helm.sh/release.v1"@),
        Some("helm/"@ + release),
    ).flashed("\u{21b3} "@ + release + " history"@)
}

/// The selected row, as the drill reads it: its name and namespace (empty
/// when absent), and its pod selector - `spec.selector.matchLabels` of a
/// workload, `spec.selector` of a service - rendered as a label selector.
pub struct Row {
    pub name: String,
    pub namespace: String,
    pub match_labels: Option<String>,
    pub selector: Option<String>,
}

/// The text of a [`Row`].
pub struct RowView {
    pub name: Seq<char>,
    pub namespace: Seq<char>,
    pub match_labels: Option<Seq<char>>,
    pub selector: Option<Seq<char>>,
}

impl View for Row {
    type V = RowView;

    open spec fn view(&self) -> RowView {
        RowView {
            name: self.name@,
            namespace: self.namespace@,
            match_labels: opt_str(self.match_labels),
            selector: opt_str(self.selector),
        }
    }
}

/// The view of an optional row.
pub open spec fn opt_row(o: Option<Row>) -> Option<RowView> {
    match o {
        Some(r) => Some(r@),
        None => None,
    }
}

/// Workload kinds, whose pods a drill lists by their selector.
pub open spec fn is_workload(plural: Seq<char>) -> bool {
    plural == "deployments"@ || plural == "statefulsets"@ || plural == "daemonsets"@ || plural
        == "replicasets"@ || plural == "jobs"@
}

/// A view's `drill` setting for the current kind: the kind to open, as `:`
/// accepts it, and a label and/or field selector in which `{name}` and
/// `{namespace}` stand for the selected row's.
pub struct ViewDrill {
    pub kind: String,
    pub labels: Option<String>,
    pub fields: Option<String>,
}

/// The text of a [`ViewDrill`].
pub struct ViewDrillView {
    pub kind: Seq<char>,
    pub labels: Option<Seq<char>>,
    pub fields: Option<Seq<char>>,
}

impl View for ViewDrill {
    type V = ViewDrillView;

    open spec fn view(&self) -> ViewDrillView {
        ViewDrillView { kind: self.kind@, labels: opt_str(self.labels), fields: opt_str(self.fields) }
    }
}

/// The view of an optional drill setting.
pub open spec fn opt_view_drill(o: Option<ViewDrill>) -> Option<ViewDrillView> {
    match o {
        Some(d) => Some(d@),
        None => None,
    }
}

/// An optional selector template filled in from a row.
pub open spec fn fill_opt(o: Option<Seq<char>>, name: Seq<char>, namespace: Seq<char>) -> Option<Seq<char>> {
    match o {
        Some(t) => Some(fill(t, name, namespace)),
        None => None,
    }
}

/// The target of a view drill opened from row `r`: `kind`, listed as
/// `listed`, in the row's namespace when the kind is namespaced (every
/// namespace otherwise), scoped by the filled-in selectors.
pub open spec fn view_drilled(app: AppView, r: RowView, d: ViewDrillView, kind: KindView, listed: Seq<char>) -> AppView {
    app.pushed().rescoped(
        Some(kind),
        listed,
        if kind.namespaced {
            r.namespace
        } else {
            Seq::empty()
        },
        fill_opt(d.labels, r.name, r.namespace),
        fill_opt(d.fields, r.name, r.namespace),
        Some(singular(app.scope.kind_plural) + "/"@ + r.name),
    ).flashed("\u{21b3} drilled into "@ + listed)
}

/// A view drill: `target` is what `d.kind` resolves to; an unknown kind
/// warns and stays put.
pub open spec fn by_view(app: AppView, r: RowView, d: ViewDrillView, target: Option<KindView>) -> (AppView, Effect) {
    match target {
        None => (app.warned("cannot resolve '"@ + d.kind + "'"@), Effect::Stay),
        Some(k) => (view_drilled(app, r, d, k, lowercase(k.ar.plural)), Effect::StartWatch),
    }
}

/// `enter` on the selected row of the current view. `view` is the view's
/// `drill` setting, `target` what its kind resolves to, and `node_pointer`
/// where the view's kind names a node.
pub open spec fn drill_step(
    app: AppView,
    row: Option<RowView>,
    pods: Option<KindView>,
    view: Option<ViewDrillView>,
    target: Option<KindView>,
    node_pointer: Option<Seq<char>>,
) -> (AppView, Effect) {
    match row {
        None => (app, Effect::Stay),
        Some(r) => {
            let p = app.scope.kind_plural;
            if p == "namespaces"@ {
                (namespace_switch(app, r.name, pods), Effect::NamespaceSwitched)
            } else if p == "nodes"@ {
                to_pods(app, Seq::empty(), None, Some("spec.nodeName="@ + r.name), "node/"@ + r.name, pods)
            } else if is_workload(p) {
                match r.match_labels {
                    Some(sel) => to_pods(app, r.namespace, Some(sel), None, singular(p) + "/"@ + r.name, pods),
                    None => (app.warned("no pod selector on this object"@), Effect::Stay),
                }
            } else if p == "services"@ {
                match r.selector {
                    Some(sel) => to_pods(app, r.namespace, Some(sel), None, "svc/"@ + r.name, pods),
                    None => (app.warned("service has no selector"@), Effect::Stay),
                }
            } else if p == "pods"@ {
                (app, Effect::OpenContainers)
            } else if p == "customresourcedefinitions"@ {
                (app, Effect::DrillIntoCrd)
            } else if p == "helm"@ {
                (app, Effect::DrillIntoHelmHistory)
            } else if p == "helmhistory"@ {
                (app, Effect::OpenHelmValues)
            } else if p == "helmreleases"@ {
                (app, Effect::DrillIntoHelmRelease)
            } else {
                match view {
                    Some(d) => by_view(app, r, d, target),
                    None => if node_pointer is Some {
                        (app, Effect::JumpToNode)
                    } else {
                        (app, Effect::OpenDetail)
                    },
                }
            }
        },
    }
}

impl App {
    /// `enter` on the selected row (`None` when nothing is selected): a
    /// namespace is switched to; a node, workload or service drills into its
    /// pods (`pods` is the discovered pods kind); pods, CRDs and Helm rows
    /// name their next step as the returned effect. Any other kind drills as
    /// its view's `drill` setting `view` says (`target` is what that setting's
    /// kind resolves to), taking precedence over its node pointer; without
    /// one it jumps to the node when the kind has a node pointer
    /// (`node_pointer`) and opens the object's detail otherwise.
    pub fn drill(
        &mut self,
        row: Option<Row>,
        pods: Option<Kind>,
        view: Option<ViewDrill>,
        target: Option<Kind>,
        node_pointer: Option<String>,
    ) -> (e: Effect)
        ensures
            final(self)@ == drill_step(
                old(self)@,
                opt_row(row),
                opt_kind(pods),
                opt_view_drill(view),
                opt_kind(target),
                opt_str(node_pointer),
            ).0,
            e == drill_step(
                old(self)@,
                opt_row(row),
                opt_kind(pods),
                opt_view_drill(view),
                opt_kind(target),
                opt_str(node_pointer),
            ).1,
    {
        let row = match row {
            Some(r) => r,
            None => return Effect::Stay,
        };
        let p: &str = self.kind_plural.as_str();
        if same_text(p, "namespaces") {
            return self.set_namespace_and_return(row.name.as_str(), pods);
        }
        if same_text(p, "nodes") {
            let fields = concat2("spec.nodeName=", row.name.as_str());
            let scope = concat2("node/", row.name.as_str());
            return self.drill_to_pods(String::new(), None, Some(fields), scope, pods);
        }
        if same_text(p, "deployments") || same_text(p, "statefulsets") || same_text(p, "daemonsets")
            || same_text(p, "replicasets") || same_text(p, "jobs") {
            return match row.match_labels {
                Some(sel) => {
                    let kind_name = trim_s(p);
                    let scope = concat3(kind_name.as_str(), "/", row.name.as_str());
                    self.drill_to_pods(row.namespace, Some(sel), None, scope, pods)
                },
                None => {
                    self.flash_warn("no pod selector on this object");
                    Effect::Stay
                },
            };
        }
        if same_text(p, "services") {
            return match row.selector {
                Some(sel) => {
                    let scope = concat2("svc/", row.name.as_str());
                    self.drill_to_pods(row.namespace, Some(sel), None, scope, pods)
                },
                None => {
                    self.flash_warn("service has no selector");
                    Effect::Stay
                },
            };
        }
        if same_text(p, "pods") {
            Effect::OpenContainers
        } else if same_text(p, "customresourcedefinitions") {
            Effect::DrillIntoCrd
        } else if same_text(p, "helm") {
            Effect::DrillIntoHelmHistory
        } else if same_text(p, "helmhistory") {
            Effect::OpenHelmValues
        } else if same_text(p, "helmreleases") {
            Effect::DrillIntoHelmRelease
        } else {
            match view {
                Some(d) => self.drill_by_view(&row, &d, target),
                None => match node_pointer {
                    Some(_) => Effect::JumpToNode,
                    None => Effect::OpenDetail,
                },
            }
        }
    }

    /// Drill from `row` as a view's `drill` setting `d` says; `target` is
    /// what discovery resolves `d.kind` to.
    pub fn drill_by_view(&mut self, row: &Row, d: &ViewDrill, target: Option<Kind>) -> (e: Effect)
        ensures
            final(self)@ == by_view(old(self)@, row@, d@, opt_kind(target)).0,
            e == by_view(old(self)@, row@, d@, opt_kind(target)).1,
    {
        let kind = match target {
            Some(k) => k,
            None => {
                let msg = concat3("cannot resolve '", d.kind.as_str(), "'");
                self.flash_warn(msg.as_str());
                return Effect::Stay;
            },
        };
        let listed = to_lowercase(kind.ar.plural.as_str());
        self.show_view_drill(row, d, kind, listed)
    }

    /// Open `kind`, listed as `listed`, as drill setting `d` says for `row`.
    pub fn show_view_drill(&mut self, row: &Row, d: &ViewDrill, kind: Kind, listed: String) -> (e: Effect)
        ensures
            final(self)@ == view_drilled(old(self)@, row@, d@, kind@, listed@),
            e == Effect::StartWatch,
    {
        let ns = if kind.namespaced {
            row.namespace.clone()
        } else {
            String::new()
        };
        let labels = match &d.labels {
            Some(l) => Some(fill_placeholders(l.as_str(), row.name.as_str(), row.namespace.as_str())),
            None => None,
        };
        let fields = match &d.fields {
            Some(f) => Some(fill_placeholders(f.as_str(), row.name.as_str(), row.namespace.as_str())),
            None => None,
        };
        let kind_name = trim_s(self.kind_plural.as_str());
        let scope = concat3(kind_name.as_str(), "/", row.name.as_str());
        let flash = concat2("\u{21b3} drilled into ", listed.as_str());
        self.push_frame();
        self.rescope(Some(kind), listed, ns, labels, fields, Some(scope));
        self.flash_info(flash);
        Effect::StartWatch
    }

    /// List pods in `ns` (empty: every namespace) selected by `labels` and/or
    /// `fields`, under the breadcrumb `scope`. `pods` is the discovered pods
    /// kind; without it nothing moves and a warning says why.
    pub fn drill_to_pods(
        &mut self,
        ns: String,
        labels: Option<String>,
        fields: Option<String>,
        scope: String,
        pods: Option<Kind>,
    ) -> (e: Effect)
        ensures
            final(self)@ == to_pods(old(self)@, ns@, opt_str(labels), opt_str(fields), scope@, opt_kind(pods)).0,
            e == to_pods(old(self)@, ns@, opt_str(labels), opt_str(fields), scope@, opt_kind(pods)).1,
    {
        let pods = match pods {
            Some(k) => k,
            None => {
                self.flash_warn("pods kind unavailable");
                return Effect::Stay;
            },
        };
        self.push_frame();
        self.rescope(Some(pods), String::from_str("pods"), ns, labels, fields, Some(scope));
        self.flash_info(String::from_str("\u{21b3} drilled into pods"));
        Effect::StartWatch
    }

    /// Scope the nodes list to the node named `node`, under the breadcrumb
    /// `scope`: `metadata.name` is the only field selector the apiserver
    /// indexes for nodes. `nodes` is the discovered nodes kind.
    pub fn goto_node(&mut self, node: &str, scope: String, nodes: Option<Kind>) -> (e: Effect)
        ensures
            nodes is None ==> final(self)@ == old(self)@.warned("nodes kind unavailable"@) && e == Effect::Stay,
            nodes is Some ==> final(self)@ == old(self)@.pushed().rescoped(
                opt_kind(nodes),
                "nodes"@,
                Seq::empty(),
                None,
                Some("metadata.name="@ + node@),
                Some(scope@),
            ) && e == Effect::StartWatch,
    {
        let nodes = match nodes {
            Some(k) => k,
            None => {
                self.flash_warn("nodes kind unavailable");
                return Effect::Stay;
            },
        };
        self.push_frame();
        let fields = concat2("metadata.name=", node);
        self.rescope(Some(nodes), String::from_str("nodes"), String::new(), None, Some(fields), Some(scope));
        Effect::StartWatch
    }

    /// Pick a namespace (`<all>` for every one): return to the view we came
    /// from if there is one; otherwise (a root switch clears the stack) drop
    /// into pods scoped to the chosen namespace, since namespaces aren't
    /// namespaced and staying on the list would just reload it.
    pub fn set_namespace_and_return(&mut self, name: &str, pods: Option<Kind>) -> (e: Effect)
        ensures
            final(self)@ == namespace_switch(old(self)@, name@, opt_kind(pods)),
            e == Effect::NamespaceSwitched,
    {
        let all = same_text(name, "<all>");
        let ns = if all {
            String::new()
        } else {
            String::from_str(name)
        };
        let ghost before = self@;
        let popped = self.stack.pop();
        match popped {
            Some(f) => {
                proof {
                    lemma_frames_pop(old(self).stack@);
                }
                self.restore(f);
            },
            None => {
                match pods {
                    Some(k) => {
                        let keep = self.namespace.clone();
                        self.rescope(Some(k), String::from_str("pods"), keep, None, None, None);
                    },
                    None => {},
                }
            },
        }
        let ghost mid = self@;
        self.namespace = ns;
        assert(self@ =~= (AppView { scope: FrameView { namespace: namespace_of(name@), ..mid.scope }, ..mid }));
        let label = if self.namespace.unicode_len() == 0 {
            String::from_str("<all>")
        } else {
            self.namespace.clone()
        };
        self.flash_info(concat2("namespace: ", label.as_str()));
        Effect::NamespaceSwitched
    }

    /// Drill from an aggregated Helm release row into every revision of that
    /// release: the same `secrets` watch re-scoped by an added
    /// `name=<release>` label, narrowed to the release's namespace `ns`.
    /// `release` is the row's release name, `None` when it is not a Helm
    /// release secret.
    pub fn drill_into_helm_history(&mut self, release: Option<String>, ns: String) -> (e: Effect)
        ensures
            release is None ==> final(self)@ == old(self)@.warned("not a Helm release secret"@) && e == Effect::Stay,
            release is Some ==> final(self)@ == helm_history(old(self)@, old(self)@.scope.kind, release->0@, ns@)
                && e == Effect::StartWatch,
    {
        let release = match release {
            Some(r) => r,
            None => {
                self.flash_warn("not a Helm release secret");
                return Effect::Stay;
            },
        };
        let kind = copy_opt_kind_of(self);
        self.show_helm_history(kind, release.as_str(), ns);
        Effect::StartWatch
    }

    /// Drill from a Flux `HelmRelease` row into the revision history of the
    /// Helm release it manages. `secrets` is the discovered secrets kind;
    /// `release` and `ns` are the storage name and namespace helm-controller
    /// composes for it (`release` empty when it has none).
    pub fn drill_into_helmrelease(&mut self, secrets: Option<Kind>, release: &str, ns: String) -> (e: Effect)
        ensures
            secrets is None ==> final(self)@ == old(self)@.warned("secrets kind unavailable"@) && e == Effect::Stay,
            secrets is Some && release@.len() == 0 ==> final(self)@ == old(self)@.warned(
                "HelmRelease has no resolvable release name"@,
            ) && e == Effect::Stay,
            secrets is Some && release@.len() > 0 ==> final(self)@ == helm_history(
                old(self)@,
                opt_kind(secrets),
                release@,
                ns@,
            ) && e == Effect::StartWatch,
    {
        let secrets = match secrets {
            Some(k) => k,
            None => {
                self.flash_warn("secrets kind unavailable");
                return Effect::Stay;
            },
        };
        if release.unicode_len() == 0 {
            self.flash_warn("HelmRelease has no resolvable release name");
            return Effect::Stay;
        }
        self.show_helm_history(Some(secrets), release, ns);
        Effect::StartWatch
    }

    /// The revisions of `release` in `ns`, listed from `kind`.
    fn show_helm_history(&mut self, kind: Option<Kind>, release: &str, ns: String)
        ensures
            final(self)@ == helm_history(old(self)@, opt_kind(kind), release@, ns@),
    {
        self.push_frame();
        let labels = concat2("owner=helm,name=", release);
        let scope = concat2("helm/", release);
        self.rescope(
            kind,
            String::from_str("helmhistory"),
            ns,
            Some(labels),
            Some(String::from_str("type=helm.sh/release.v1")),
            Some(scope),
        );
        self.flash_info(concat3("\u{21b3} ", release, " history"));
    }
}

/// The object a GitOps chain node points at: its kind as `:` accepts it,
/// its namespace if it has one, and its name.
pub struct Target {
    pub plural: String,
    pub namespace: Option<String>,
    pub name: String,
}

/// The text of an optional string, or `default`.
pub open spec fn text_or(o: Option<Seq<char>>, default: Seq<char>) -> Seq<char> {
    match o {
        Some(s) => s,
        None => default,
    }
}

/// A name-filtered table of the target's kind (`kind`, listed as `plural`).
pub open spec fn target_listing(app: AppView, kind: KindView, plural: Seq<char>, namespace: Seq<char>, name: Seq<char>) -> AppView {
    let a = app.pushed().rescoped(Some(kind), plural, namespace, None, Some("metadata.name="@ + name), Some(name));
    AppView { scope: FrameView { mode: Mode::Table, ..a.scope }, ..a }
}

/// A CRD as the drill reads it: its name, and the `spec` fields `group`,
/// `names.plural`, `names.kind`, `scope` (each `None` when absent or not a
/// string), and the version it serves.
pub struct CrdSpec {
    pub name: String,
    pub group: Option<String>,
    pub plural: Option<String>,
    pub kind: Option<String>,
    pub scope: Option<String>,
    pub served_version: Option<String>,
}

/// The discovery key of a CRD's resources: `<plural>.<group>`, or the bare
/// plural for the core group.
pub open spec fn crd_key(group: Seq<char>, plural: Seq<char>) -> Seq<char> {
    if group.len() == 0 {
        plural
    } else {
        plural + "."@ + group
    }
}

/// The kind a CRD defines, built from its spec when discovery does not know
/// it: `apiVersion` is `<group>/<version>` (the bare version for the core
/// group), and a `Namespaced` scope (any ASCII case) makes it namespaced.
pub open spec fn crd_kind(group: Seq<char>, version: Seq<char>, kind: Seq<char>, plural: Seq<char>, scope: Seq<char>) -> KindView {
    KindView {
        ar: ResourceView {
            group,
            version,
            api_version: if group.len() == 0 {
                version
            } else {
                group + "/"@ + version
            },
            kind,
            plural,
        },
        namespaced: eq_ignore_ascii_case(scope, "Namespaced"@),
    }
}

/// The custom resources of a CRD across all namespaces: `kind`, listed as
/// `listed` (its plural lowercased), under the breadcrumb `crd/<name>`; the
/// kind's printer-column fallback is seeded under `listed` unless one is.
pub open spec fn crd_listing(app: AppView, kind: KindView, listed: Seq<char>, crd_name: Seq<char>, plural: Seq<char>) -> AppView {
    let shown = app.pushed().rescoped(Some(kind), listed, Seq::empty(), None, None, Some("crd/"@ + crd_name)).flashed(
        "\u{21b3} "@ + plural,
    );
    AppView {
        crd_views: if app.crd_views.contains(listed) {
            app.crd_views
        } else {
            app.crd_views.push(listed)
        },
        ..shown
    }
}

/// What follows listing a CRD's resources: seeding its fallback columns
/// first when none are seeded under `listed`.
pub open spec fn crd_effect(app: AppView, listed: Seq<char>) -> Effect {
    if app.crd_views.contains(listed) {
        Effect::StartWatch
    } else {
        Effect::SeedCrdColumnsThenWatch
    }
}

/// A JSON value, carried through unread.
#[verifier::external_type_specification]
#[verifier::external_body]
pub struct ExJsonValue(serde_json::Value);

/// A YAML serialization error.
#[verifier::external_type_specification]
#[verifier::external_body]
pub struct ExYamlError(serde_yaml::Error);

/// The YAML text `serde_yaml::to_string` renders a JSON value as, `None`
/// when it fails; it depends on the value alone.
pub uninterp spec fn yaml_text(config: serde_json::Value) -> Option<Seq<char>>;

/// `serde_yaml::to_string` of a JSON value: `Ok` exactly when [`yaml_text`]
/// of the value is some text, and then that text.
#[verifier::external_body]
fn values_yaml(config: &serde_json::Value) -> (r: Result<String, serde_yaml::Error>)
    ensures
        r is Ok <==> yaml_text(*config) is Some,
        r matches Ok(s) ==> s@ == yaml_text(*config)->0,
{
    serde_yaml::to_string(config)
}

/// The text `serde_yaml::Error`'s `Display` writes for an error; it depends
/// on the error alone.
pub uninterp spec fn yaml_error_display(e: serde_yaml::Error) -> Seq<char>;

/// The `Display` text of a `serde_yaml::Error` (`format!`): [`yaml_error_display`]
/// of the error.
#[verifier::external_body]
fn yaml_error_text(e: &serde_yaml::Error) -> (r: String)
    ensures
        r@ == yaml_error_display(*e),
{
    format!("{e}")
}

/// One decoded Helm release revision: its release name, revision number and
/// the user-supplied values.
pub struct HelmRevision {
    pub name: String,
    pub revision: u64,
    pub config: serde_json::Value,
}

/// The state with the pane in front remembered for a later return.
pub open spec fn with_return_mode(app: AppView) -> AppView {
    AppView { return_mode: app.scope.mode, ..app }
}

/// The values of a revision shown in the detail pane.
pub open spec fn values_shown(app: AppView, name: Seq<char>, revision: nat, text: Seq<char>) -> AppView {
    AppView {
        detail_title: name + " v"@ + decimal(revision) + " \u{2014} values"@,
        detail_lines: text_lines(text),
        scope: FrameView { mode: Mode::Detail, ..app.scope },
        ..app
    }
}

impl App {
    /// Navigate to a specific object by (plural, namespace, name): a
    /// name-filtered table view, used to jump to the resource behind a GitOps
    /// chain node. `kind` is what discovery resolves `t.plural` to.
    pub fn navigate_to_target(&mut self, t: &Target, kind: Option<Kind>) -> (e: Effect)
        ensures
            kind is None ==> final(self)@ == old(self)@.warned("cannot resolve '"@ + t.plural@ + "'"@) && e
                == Effect::Stay,
            kind is Some ==> final(self)@ == target_listing(
                old(self)@,
                kind->0@,
                lowercase(kind->0.ar.plural@),
                text_or(opt_str(t.namespace), Seq::empty()),
                t.name@,
            ) && e == Effect::StartWatch,
    {
        let kind = match kind {
            Some(k) => k,
            None => {
                let msg = concat3("cannot resolve '", t.plural.as_str(), "'");
                self.flash_warn(msg.as_str());
                return Effect::Stay;
            },
        };
        let listed = to_lowercase(kind.ar.plural.as_str());
        self.show_target(kind, listed, t)
    }

    /// The target's table: `kind`, listed as `listed`, filtered to `t.name`
    /// in `t.namespace` (every namespace when it has none).
    pub fn show_target(&mut self, kind: Kind, listed: String, t: &Target) -> (e: Effect)
        ensures
            final(self)@ == target_listing(
                old(self)@,
                kind@,
                listed@,
                text_or(opt_str(t.namespace), Seq::empty()),
                t.name@,
            ),
            e == Effect::StartWatch,
    {
        self.push_frame();
        let ns = match &t.namespace {
            Some(n) => n.clone(),
            None => String::new(),
        };
        let fields = concat2("metadata.name=", t.name.as_str());
        self.rescope(Some(kind), listed, ns, None, Some(fields), Some(t.name.clone()));
        self.mode = Mode::Table;
        let ghost want = target_listing(old(self)@, kind@, listed@, text_or(opt_str(t.namespace), Seq::empty()), t.name@);
        assert(self@ =~= want);
        Effect::StartWatch
    }

    /// The key to resolve a CRD's resources by in discovery.
    pub fn crd_resource_key(crd: &CrdSpec) -> (r: String)
        ensures
            r@ == crd_key(text_or(opt_str(crd.group), Seq::empty()), text_or(opt_str(crd.plural), Seq::empty())),
    {
        let group = match &crd.group {
            Some(g) => g.clone(),
            None => String::new(),
        };
        let plural = match &crd.plural {
            Some(p) => p.clone(),
            None => String::new(),
        };
        if group.unicode_len() == 0 {
            plural
        } else {
            concat3(plural.as_str(), ".", group.as_str())
        }
    }

    /// Drill from a CustomResourceDefinition row into a listing of that CRD's
    /// custom resources across all namespaces. `resolved` is what discovery
    /// holds under [`App::crd_resource_key`]; without it the kind is built
    /// from the CRD's spec, which needs a served version.
    pub fn drill_into_crd(&mut self, crd: &CrdSpec, resolved: Option<Kind>) -> (e: Effect)
        ensures
            ({
                let group = text_or(opt_str(crd.group), Seq::empty());
                let plural = text_or(opt_str(crd.plural), Seq::empty());
                let ckind = text_or(opt_str(crd.kind), Seq::empty());
                let scope = text_or(opt_str(crd.scope), "Namespaced"@);
                let kind = match resolved {
                    Some(k) => Some(k@),
                    None => match crd.served_version {
                        Some(v) => Some(crd_kind(group, v@, ckind, plural, scope)),
                        None => None,
                    },
                };
                if plural.len() == 0 {
                    final(self)@ == old(self)@.warned("CRD has no plural name"@) && e == Effect::Stay
                } else if kind is None {
                    final(self)@ == old(self)@.warned("could not resolve CRD's resource (no served version?)"@)
                        && e == Effect::Stay
                } else {
                    final(self)@ == crd_listing(
                        old(self)@,
                        kind->0,
                        lowercase(kind->0.ar.plural),
                        crd.name@,
                        plural,
                    ) && e == crd_effect(old(self)@, lowercase(kind->0.ar.plural))
                }
            }),
    {
        let group = match &crd.group {
            Some(g) => g.clone(),
            None => String::new(),
        };
        let plural = match &crd.plural {
            Some(p) => p.clone(),
            None => String::new(),
        };
        let ckind = match &crd.kind {
            Some(k) => k.clone(),
            None => String::new(),
        };
        let scope = match &crd.scope {
            Some(s) => s.clone(),
            None => String::from_str("Namespaced"),
        };
        if plural.unicode_len() == 0 {
            self.flash_warn("CRD has no plural name");
            return Effect::Stay;
        }
        let kind = match resolved {
            Some(k) => k,
            None => match &crd.served_version {
                Some(v) => {
                    let api_version = if group.unicode_len() == 0 {
                        v.clone()
                    } else {
                        concat3(group.as_str(), "/", v.as_str())
                    };
                    let namespaced = same_ignoring_ascii_case(scope.as_str(), "Namespaced");
                    Kind {
                        ar: ApiResource {
                            api_version,
                            group: group.clone(),
                            version: v.clone(),
                            kind: ckind,
                            plural: plural.clone(),
                        },
                        namespaced,
                    }
                },
                None => {
                    self.flash_warn("could not resolve CRD's resource (no served version?)");
                    return Effect::Stay;
                },
            },
        };
        let listed = to_lowercase(kind.ar.plural.as_str());
        self.show_crd_resources(kind, listed, crd.name.as_str(), plural.as_str())
    }

    /// The custom resources of the CRD `crd_name` (plural `plural`) across
    /// all namespaces: `kind`, listed as `listed`.
    pub fn show_crd_resources(&mut self, kind: Kind, listed: String, crd_name: &str, plural: &str) -> (e: Effect)
        ensures
            final(self)@ == crd_listing(old(self)@, kind@, listed@, crd_name@, plural@),
            e == crd_effect(old(self)@, listed@),
    {
        let seed = self.crd_views.insert(listed.clone());
        self.push_frame();
        let scope = concat2("crd/", crd_name);
        self.rescope(Some(kind), listed, String::new(), None, None, Some(scope));
        self.flash_info(concat2("\u{21b3} ", plural));
        assert(self@ =~= crd_listing(old(self)@, kind@, listed@, crd_name@, plural@));
        if seed {
            Effect::SeedCrdColumnsThenWatch
        } else {
            Effect::StartWatch
        }
    }

    /// Remember the pane in front, for a later return to it.
    pub fn set_return_mode(&mut self)
        ensures
            final(self)@ == with_return_mode(old(self)@),
    {
        self.return_mode = self.mode;
        assert(self@ =~= with_return_mode(old(self)@));
    }

    /// Enter on a single revision: show the user-supplied value overrides of
    /// that revision, as YAML, in the detail pane. `rel` is the decoded
    /// revision, `None` when the row could not be decoded.
    pub fn open_helm_values(&mut self, rel: Option<HelmRevision>)
        ensures
            rel is None ==> final(self)@ == with_return_mode(old(self)@).warned(
                "could not decode this Helm release revision"@,
            ),
            rel is Some ==> exists|text: Seq<char>|
                #![trigger text_lines(text)]
                {
                    &&& final(self)@ == values_shown(
                        with_return_mode(old(self)@),
                        rel->0.name@,
                        rel->0.revision as nat,
                        text,
                    )
                    &&& yaml_text(rel->0.config) is Some ==> text == yaml_text(rel->0.config)->0
                    &&& yaml_text(rel->0.config) is None ==> exists|e: serde_yaml::Error|
                        text == "# error: "@ + yaml_error_display(e)
                },
    {
        self.set_return_mode();
        let rel = match rel {
            Some(r) => r,
            None => {
                self.flash_warn("could not decode this Helm release revision");
                return;
            },
        };
        let rendered = values_yaml(&rel.config);
        let text = match rendered {
            Ok(s) => s,
            Err(e) => {
                let why = yaml_error_text(&e);
                concat2("# error: ", why.as_str())
            },
        };
        assert(yaml_text(rel.config) is Some ==> text@ == yaml_text(rel.config)->0);

        self.show_values(rel.name.as_str(), rel.revision, text.as_str());
        assert(self@ == values_shown(with_return_mode(old(self)@), rel.name@, rel.revision as nat, text@));
        assert(self@.detail_lines == text_lines(text@));
    }

    /// Show `text`, the values of revision `revision` of release `name`, in
    /// the detail pane.
    pub fn show_values(&mut self, name: &str, revision: u64, text: &str)
        ensures
            final(self)@ == values_shown(old(self)@, name@, revision as nat, text@),
    {
        let number = decimal_string(revision);
        let mut title = concat3(name, " v", number.as_str());
        title.append(" \u{2014} values");
        let body = lines(text);
        self.detail = Scrollable { title, lines: body };
        self.mode = Mode::Detail;
        assert(self@ =~= values_shown(old(self)@, name@, revision as nat, text@));
    }
}

/// Every drill that moves saves the frame it leaves, so `esc` (or picking a
/// namespace) comes back: picking a namespace right after drilling into pods
/// restores the frame drilled from, scoped to the picked namespace, with the
/// stack as it was before the drill.
pub proof fn lemma_namespace_pick_returns_from_drill(
    app: AppView,
    ns: Seq<char>,
    labels: Option<Seq<char>>,
    fields: Option<Seq<char>>,
    scope: Seq<char>,
    pods: KindView,
    name: Seq<char>,
    pods_again: Option<KindView>,
)
    ensures
        ({
            let back = namespace_switch(to_pods(app, ns, labels, fields, scope, Some(pods)).0, name, pods_again);
            &&& back.stack == app.stack
            &&& back.scope == (FrameView { namespace: namespace_of(name), ..app.scope })
        }),
{
    let d = to_pods(app, ns, labels, fields, scope, Some(pods)).0;
    assert(d.stack.drop_last() =~= app.stack);
}

/// The frame a move leaves is the one saved: a drill into pods, into a Helm
/// history, into a CRD's resources, or to a target each push exactly the
/// current frame onto the stack.
pub proof fn lemma_moves_save_the_frame_they_leave(
    app: AppView,
    kind: KindView,
    a: Seq<char>,
    b: Seq<char>,
    c: Seq<char>,
)
    ensures
        to_pods(app, a, None, None, b, Some(kind)).0.stack == app.stack.push(app.scope),
        helm_history(app, Some(kind), a, b).stack == app.stack.push(app.scope),
        crd_listing(app, kind, a, b, c).stack == app.stack.push(app.scope),
        target_listing(app, kind, a, b, c).stack == app.stack.push(app.scope),
{
}

/// A refused move changes nothing but the flash line, which turns into a
/// warning.
pub proof fn lemma_refusal_only_warns(app: AppView, msg: Seq<char>)
    ensures
        app.warned(msg).scope == app.scope,
        app.warned(msg).stack == app.stack,
        app.warned(msg).flash == msg,
        app.warned(msg).flash_err,
{
}

/// A namespace picked from the root (nothing to return to) lands on pods of
/// that namespace, unfiltered, in natural order, first row selected.
pub proof fn lemma_root_namespace_pick_lists_pods(app: AppView, name: Seq<char>, pods: KindView)
    requires
        app.stack.len() == 0,
    ensures
        ({
            let r = namespace_switch(app, name, Some(pods));
            &&& r.scope.kind == Some(pods)
            &&& r.scope.kind_plural == "pods"@
            &&& r.scope.namespace == namespace_of(name)
            &&& r.scope.labels is None && r.scope.fields is None && r.scope.scope_label is None
            &&& r.scope.filter.len() == 0
            &&& r.scope.selected == Some(0usize)
            &&& r.stack.len() == 0
        }),
{
}

/// Kinds whose `enter` is built in.
pub open spec fn has_builtin_drill(plural: Seq<char>) -> bool {
    plural == "namespaces"@ || plural == "nodes"@ || is_workload(plural) || plural == "services"@
        || plural == "pods"@ || plural == "customresourcedefinitions"@ || plural == "helm"@ || plural
        == "helmhistory"@ || plural == "helmreleases"@
}

/// A view's `drill` gives a kind without a built-in drill-down the same
/// move, and wins over its node pointer (whatever `node` is): `enter` opens the setting's kind,
/// scoped by its filled-in selectors, in the row's namespace exactly when
/// that kind is namespaced; an unknown kind only warns.
pub proof fn lemma_view_drill_applies(
    app: AppView,
    r: RowView,
    pods: Option<KindView>,
    d: ViewDrillView,
    target: Option<KindView>,
    node: Option<Seq<char>>,
)
    requires
        !has_builtin_drill(app.scope.kind_plural),
    ensures
        drill_step(app, Some(r), pods, Some(d), target, node) == by_view(app, r, d, target),
        drill_step(app, Some(r), pods, Some(d), target, node).1 != Effect::JumpToNode,
        target is None ==> drill_step(app, Some(r), pods, Some(d), target, node).0 == app.warned(
            "cannot resolve '"@ + d.kind + "'"@,
        ),
        target matches Some(k) ==> ({
            let s = drill_step(app, Some(r), pods, Some(d), target, node).0;
            &&& s.stack == app.stack.push(app.scope)
            &&& s.scope.kind == target
            &&& s.scope.namespace == (if k.namespaced {
                r.namespace
            } else {
                Seq::<char>::empty()
            })
            &&& s.scope.labels == fill_opt(d.labels, r.name, r.namespace)
            &&& s.scope.fields == fill_opt(d.fields, r.name, r.namespace)
        }),
{
}

/// A kind with neither a built-in drill-down nor a view `drill` leaves the
/// state as it is: `enter` jumps to the node when its kind names one, and
/// opens the object's detail otherwise.
pub proof fn lemma_enter_without_drill(app: AppView, r: RowView, pods: Option<KindView>, target: Option<KindView>, node: Option<Seq<char>>)
    requires
        !has_builtin_drill(app.scope.kind_plural),
    ensures
        drill_step(app, Some(r), pods, None, target, node).0 == app,
        drill_step(app, Some(r), pods, None, target, node).1 == (if node is Some {
            Effect::JumpToNode
        } else {
            Effect::OpenDetail
        }),
{
}

/// `enter` on a service with a selector lists pods in the service's own
/// namespace, selected by that selector and nothing else, and saves the frame
/// it leaves.
pub proof fn lemma_service_drill_keeps_the_row_namespace(
    app: AppView,
    r: RowView,
    pods: KindView,
    view: Option<ViewDrillView>,
    target: Option<KindView>,
    node: Option<Seq<char>>,
)
    requires
        app.scope.kind_plural == "services"@,
        r.selector is Some,
    ensures
        ({
            let res = drill_step(app, Some(r), Some(pods), view, target, node);
            &&& res.1 == Effect::StartWatch
            &&& res.0.scope.kind == Some(pods)
            &&& res.0.scope.kind_plural == "pods"@
            &&& res.0.scope.namespace == r.namespace
            &&& res.0.scope.labels == r.selector
            &&& res.0.scope.fields is None
            &&& res.0.stack == app.stack.push(app.scope)
        }),
{
    reveal_strlit("namespaces");
    reveal_strlit("nodes");
    reveal_strlit("deployments");
    reveal_strlit("statefulsets");
    reveal_strlit("daemonsets");
    reveal_strlit("replicasets");
    reveal_strlit("jobs");
    reveal_strlit("services");
    assert("services"@.len() != "namespaces"@.len());
    assert("services"@[0] != "nodes"@[0]);
    assert("services"@.len() != "deployments"@.len());
    assert("services"@[1] != "statefulsets"@[1]);
    assert("services"@.len() != "daemonsets"@.len());
    assert("services"@.len() != "replicasets"@.len());
    assert("services"@.len() != "jobs"@.len());
}

/// `enter` on a workload with a selector lists pods in the workload's own
/// namespace, selected by its `matchLabels`, and saves the frame it leaves.
pub proof fn lemma_workload_drill_keeps_the_row_namespace(
    app: AppView,
    r: RowView,
    pods: KindView,
    view: Option<ViewDrillView>,
    target: Option<KindView>,
    node: Option<Seq<char>>,
)
    requires
        app.scope.kind_plural == "deployments"@ || app.scope.kind_plural == "statefulsets"@
            || app.scope.kind_plural == "daemonsets"@ || app.scope.kind_plural == "replicasets"@
            || app.scope.kind_plural == "jobs"@,
        r.match_labels is Some,
    ensures
        ({
            let res = drill_step(app, Some(r), Some(pods), view, target, node);
            &&& res.1 == Effect::StartWatch
            &&& res.0.scope.kind == Some(pods)
            &&& res.0.scope.kind_plural == "pods"@
            &&& res.0.scope.namespace == r.namespace
            &&& res.0.scope.labels == r.match_labels
            &&& res.0.scope.fields is None
            &&& res.0.stack == app.stack.push(app.scope)
        }),
{
    reveal_strlit("namespaces");
    reveal_strlit("nodes");
    reveal_strlit("deployments");
    reveal_strlit("statefulsets");
    reveal_strlit("daemonsets");
    reveal_strlit("replicasets");
    reveal_strlit("jobs");
    reveal_strlit("services");
    let p = app.scope.kind_plural;
    assert(p.len() != "namespaces"@.len() || p[0] != "namespaces"@[0]);
    assert(p != "nodes"@) by {
        assert(p.len() != "nodes"@.len() || p[0] != "nodes"@[0]);
    }
}

/// `enter` on a node lists the pods scheduled there, in every namespace,
/// selected by the node's name alone.
pub proof fn lemma_node_drill_lists_its_pods(
    app: AppView,
    r: RowView,
    pods: KindView,
    view: Option<ViewDrillView>,
    target: Option<KindView>,
    node: Option<Seq<char>>,
)
    requires
        app.scope.kind_plural == "nodes"@,
    ensures
        ({
            let res = drill_step(app, Some(r), Some(pods), view, target, node);
            &&& res.1 == Effect::StartWatch
            &&& res.0.scope.kind == Some(pods)
            &&& res.0.scope.namespace.len() == 0
            &&& res.0.scope.labels is None
            &&& res.0.scope.fields == Some("spec.nodeName="@ + r.name)
            &&& res.0.stack == app.stack.push(app.scope)
        }),
{
    reveal_strlit("namespaces");
    reveal_strlit("nodes");
    reveal_strlit("deployments");
    reveal_strlit("statefulsets");
    reveal_strlit("daemonsets");
    reveal_strlit("replicasets");
    reveal_strlit("jobs");
    reveal_strlit("services");
    assert("nodes"@.len() != "namespaces"@.len());
}

/// A Helm history drill lists the release's revisions in the release's own
/// namespace, selected by the Helm owner label and the release name, with
/// the frame it leaves saved.
pub proof fn lemma_helm_history_is_scoped_to_the_release(
    app: AppView,
    kind: Option<KindView>,
    release: Seq<char>,
    namespace: Seq<char>,
)
    ensures
        ({
            let h = helm_history(app, kind, release, namespace);
            &&& h.scope.namespace == namespace
            &&& h.scope.kind == kind
            &&& h.scope.kind_plural == "helmhistory"@
            &&& h.scope.labels == Some("owner=helm,name="@ + release)
            &&& h.scope.fields == Some("type=helm.sh/release.v1"@)
            &&& h.stack == app.stack.push(app.scope)
        }),
{
}

/// Picking a namespace scopes the view to exactly that namespace, or to
/// every namespace for `<all>`.
pub proof fn lemma_namespace_pick_scopes_to_it(app: AppView, name: Seq<char>, pods: Option<KindView>)
    ensures
        name == "<all>"@ ==> namespace_switch(app, name, pods).scope.namespace.len() == 0,
        name != "<all>"@ ==> namespace_switch(app, name, pods).scope.namespace == name,
{
}

/// A CRD's resources are listed across every namespace.
pub proof fn lemma_crd_listing_spans_namespaces(app: AppView, kind: KindView, listed: Seq<char>, crd_name: Seq<char>, plural: Seq<char>)
    ensures
        crd_listing(app, kind, listed, crd_name, plural).scope.namespace.len() == 0,
        crd_listing(app, kind, listed, crd_name, plural).scope.kind == Some(kind),
        crd_listing(app, kind, listed, crd_name, plural).scope.labels is None,
        crd_listing(app, kind, listed, crd_name, plural).scope.fields is None,
{
}

/// Rows whose next step lies elsewhere leave the state as it is and name
/// that step: a pod opens its containers, a CRD its custom resources, a
/// Helm release its history, a Helm revision its values, and a Flux
/// HelmRelease the history of the release it manages.
pub proof fn lemma_next_steps(
    app: AppView,
    r: RowView,
    pods: Option<KindView>,
    view: Option<ViewDrillView>,
    target: Option<KindView>,
    node: Option<Seq<char>>,
)
    ensures
        app.scope.kind_plural == "pods"@ ==> drill_step(app, Some(r), pods, view, target, node) == (app, Effect::OpenContainers),
        app.scope.kind_plural == "customresourcedefinitions"@ ==> drill_step(app, Some(r), pods, view, target, node) == (app, Effect::DrillIntoCrd),
        app.scope.kind_plural == "helm"@ ==> drill_step(app, Some(r), pods, view, target, node) == (app, Effect::DrillIntoHelmHistory),
        app.scope.kind_plural == "helmhistory"@ ==> drill_step(app, Some(r), pods, view, target, node) == (app, Effect::OpenHelmValues),
        app.scope.kind_plural == "helmreleases"@ ==> drill_step(app, Some(r), pods, view, target, node) == (app, Effect::DrillIntoHelmRelease),
        drill_step(app, None, pods, view, target, node) == (app, Effect::Stay),
{
    reveal_strlit("namespaces");
    reveal_strlit("nodes");
    reveal_strlit("deployments");
    reveal_strlit("statefulsets");
    reveal_strlit("daemonsets");
    reveal_strlit("replicasets");
    reveal_strlit("jobs");
    reveal_strlit("services");
    reveal_strlit("pods");
    reveal_strlit("customresourcedefinitions");
    reveal_strlit("helm");
    reveal_strlit("helmhistory");
    reveal_strlit("helmreleases");
    let p = app.scope.kind_plural;
    if p == "pods"@ || p == "customresourcedefinitions"@ || p == "helm"@ || p == "helmhistory"@ || p == "helmreleases"@ {
        assert(p.len() != "namespaces"@.len() || p[0] != "namespaces"@[0]);
        assert(p.len() != "nodes"@.len() || p[0] != "nodes"@[0]);
        assert(p.len() != "deployments"@.len() || p[0] != "deployments"@[0]);
        assert(p.len() != "statefulsets"@.len() || p[0] != "statefulsets"@[0]);
        assert(p.len() != "daemonsets"@.len() || p[0] != "daemonsets"@[0]);
        assert(p.len() != "replicasets"@.len() || p[0] != "replicasets"@[0]);
        assert(p.len() != "jobs"@.len() || p[0] != "jobs"@[0]);
        assert(p.len() != "services"@.len() || p[0] != "services"@[0]);
        assert(p.len() != "pods"@.len() || p[0] != "pods"@[0] || p == "pods"@);
        if p != "pods"@ {
            assert(p.len() != "pods"@.len() || p[0] != "pods"@[0]);
        }
        if p != "customresourcedefinitions"@ {
            assert(p.len() != "customresourcedefinitions"@.len());
        }
        if p != "helm"@ {
            assert(p.len() != "helm"@.len() || p[0] != "helm"@[0]);
        }
        if p != "helmhistory"@ {
            assert(p.len() != "helmhistory"@.len() || p[4] != "helmhistory"@[4]);
        }
    }
}

/// The kind built from a CRD's spec: its `apiVersion` is the bare version
/// for the core group and `<group>/<version>` otherwise, and a scope reading
/// `Namespaced` in any ASCII case makes it namespaced while `Cluster` does
/// not.
pub proof fn lemma_crd_kind_from_spec(group: Seq<char>, version: Seq<char>, kind: Seq<char>, plural: Seq<char>)
    ensures
        group.len() == 0 ==> crd_kind(group, version, kind, plural, "Namespaced"@).ar.api_version == version,
        group.len() > 0 ==> crd_kind(group, version, kind, plural, "Namespaced"@).ar.api_version == group + "/"@ + version,
        crd_kind(group, version, kind, plural, "Namespaced"@).namespaced,
        crd_kind(group, version, kind, plural, "namespaced"@).namespaced,
        !crd_kind(group, version, kind, plural, "Cluster"@).namespaced,
        crd_kind(group, version, kind, plural, "Cluster"@).ar.plural == plural,
        crd_kind(group, version, kind, plural, "Cluster"@).ar.kind == kind,
{
    reveal_strlit("Namespaced");
    reveal_strlit("namespaced");
    reveal_strlit("Cluster");
    assert("Cluster"@.len() != "Namespaced"@.len());
    assert forall|i: int| 0 <= i < "namespaced"@.len() implies ascii_lower(#[trigger] "namespaced"@[i]) == ascii_lower("Namespaced"@[i]) by {
        if i == 0 {
            assert(('N' as u32) + 32 == 'n' as u32);
        }
    }
}

/// A jump to a target lists its kind filtered to the target's name, in the
/// target's namespace, in the table pane, with the frame left saved.
pub proof fn lemma_target_listing(app: AppView, kind: KindView, listed: Seq<char>, namespace: Seq<char>, name: Seq<char>)
    ensures
        ({
            let s = target_listing(app, kind, listed, namespace, name);
            &&& s.scope.kind == Some(kind)
            &&& s.scope.kind_plural == listed
            &&& s.scope.namespace == namespace
            &&& s.scope.labels is None
            &&& s.scope.fields == Some("metadata.name="@ + name)
            &&& s.scope.scope_label == Some(name)
            &&& s.scope.mode == Mode::Table
            &&& s.stack == app.stack.push(app.scope)
        }),
{
}

/// Popping the last frame of a stack leaves the models of the rest.
proof fn lemma_frames_pop(s: Seq<crate::app::Frame>)
    requires
        s.len() > 0,
    ensures
        crate::app::frames(s.drop_last()) == crate::app::frames(s).drop_last(),
        crate::app::frames(s).last() == s.last()@,
{
    assert(crate::app::frames(s.drop_last()) =~= crate::app::frames(s).drop_last());
}

/// A copy of the current kind.
fn copy_opt_kind_of(app: &App) -> (r: Option<Kind>)
    ensures
        opt_kind(r) == app@.scope.kind,
{
    crate::app::copy_opt_kind(&app.kind)
}

} // verus!
