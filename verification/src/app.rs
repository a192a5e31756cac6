//! The resource browser's state: what is listed, how it is scoped, the
//! breadcrumb stack that `esc` walks back, the flash line, the detail pane,
//! and the `:notify` watches that are running.

use vstd::prelude::*;
use crate::text::strs;
use crate::keyset::KeySet;


pub mod navigation;
pub mod notify;

verus! {

/// Which pane has the screen.
#[derive(Clone, Copy, Debug, PartialEq, Eq, Structural)]
pub enum Mode {
    /// The resource table.
    Table,
    /// A scrollable text pane (YAML, values, ...).
    Detail,
}

/// An API resource as discovery describes it.
pub struct ApiResource {
    pub group: String,
    pub version: String,
    pub api_version: String,
    pub kind: String,
    pub plural: String,
}

/// A resource kind the browser can list, and whether it is namespaced.
pub struct Kind {
    pub ar: ApiResource,
    pub namespaced: bool,
}

/// The text of an [`ApiResource`].
#[verifier::ext_equal]
pub struct ResourceView {
    pub group: Seq<char>,
    pub version: Seq<char>,
    pub api_version: Seq<char>,
    pub kind: Seq<char>,
    pub plural: Seq<char>,
}

/// The text of a [`Kind`].
#[verifier::ext_equal]
pub struct KindView {
    pub ar: ResourceView,
    pub namespaced: bool,
}

impl View for ApiResource {
    type V = ResourceView;

    open spec fn view(&self) -> ResourceView {
        ResourceView {
            group: self.group@,
            version: self.version@,
            api_version: self.api_version@,
            kind: self.kind@,
            plural: self.plural@,
        }
    }
}

impl View for Kind {
    type V = KindView;

    open spec fn view(&self) -> KindView {
        KindView { ar: self.ar@, namespaced: self.namespaced }
    }
}

/// The view of an optional string.
pub open spec fn opt_str(o: Option<String>) -> Option<Seq<char>> {
    match o {
        Some(s) => Some(s@),
        None => None,
    }
}

/// The view of an optional kind.
pub open spec fn opt_kind(o: Option<Kind>) -> Option<KindView> {
    match o {
        Some(k) => Some(k@),
        None => None,
    }
}

/// What a table shows: the kind listed, its scope, the filter, sort and
/// selection, and the pane in front. `esc` returns to a saved one.
pub struct Frame {
    pub kind: Option<Kind>,
    pub kind_plural: String,
    pub namespace: String,
    pub labels: Option<String>,
    pub fields: Option<String>,
    pub scope_label: Option<String>,
    pub filter: String,
    pub sort_column: Option<usize>,
    pub sort_desc: bool,
    pub selected: Option<usize>,
    pub mode: Mode,
}

/// The model of a [`Frame`].
#[verifier::ext_equal]
pub struct FrameView {
    pub kind: Option<KindView>,
    pub kind_plural: Seq<char>,
    pub namespace: Seq<char>,
    pub labels: Option<Seq<char>>,
    pub fields: Option<Seq<char>>,
    pub scope_label: Option<Seq<char>>,
    pub filter: Seq<char>,
    pub sort_column: Option<usize>,
    pub sort_desc: bool,
    pub selected: Option<usize>,
    pub mode: Mode,
}

impl View for Frame {
    type V = FrameView;

    open spec fn view(&self) -> FrameView {
        FrameView {
            kind: opt_kind(self.kind),
            kind_plural: self.kind_plural@,
            namespace: self.namespace@,
            labels: opt_str(self.labels),
            fields: opt_str(self.fields),
            scope_label: opt_str(self.scope_label),
            filter: self.filter@,
            sort_column: self.sort_column,
            sort_desc: self.sort_desc,
            selected: self.selected,
            mode: self.mode,
        }
    }
}

/// A titled block of lines.
pub struct Scrollable {
    pub title: String,
    pub lines: Vec<String>,
}

/// The models of a list of frames.
pub open spec fn frames(v: Seq<Frame>) -> Seq<FrameView> {
    v.map_values(|f: Frame| f@)
}

/// The browser's state.
pub struct App {
    pub kind: Option<Kind>,
    pub kind_plural: String,
    pub namespace: String,
    pub labels: Option<String>,
    pub fields: Option<String>,
    pub scope_label: Option<String>,
    pub filter: String,
    pub sort_column: Option<usize>,
    pub sort_desc: bool,
    pub selected: Option<usize>,
    pub mode: Mode,
    /// The pane a closed detail returns to.
    pub return_mode: Mode,
    pub detail: Scrollable,
    pub flash: String,
    pub flash_err: bool,
    /// Saved frames, innermost last.
    pub stack: Vec<Frame>,
    /// A notification the main loop has not rung yet.
    pub pending_notify: Option<String>,
    /// The ids (`<plural>/<row key>`) of the running `:notify` watches, each
    /// once; the task behind each id belongs to the caller, which keeps it
    /// under the same id.
    pub notifying: KeySet,
    /// The lowercased plurals whose CRD printer-column fallback view has been
    /// seeded; the views themselves belong to the caller, under these keys.
    pub crd_views: KeySet,
}

/// The model of an [`App`].
#[verifier::ext_equal]
pub struct AppView {
    pub scope: FrameView,
    pub return_mode: Mode,
    pub detail_title: Seq<char>,
    pub detail_lines: Seq<Seq<char>>,
    pub flash: Seq<char>,
    pub flash_err: bool,
    pub stack: Seq<FrameView>,
    pub pending_notify: Option<Seq<char>>,
    pub notifying: Seq<Seq<char>>,
    pub crd_views: Seq<Seq<char>>,
}

impl View for App {
    type V = AppView;

    open spec fn view(&self) -> AppView {
        AppView {
            scope: FrameView {
                kind: opt_kind(self.kind),
                kind_plural: self.kind_plural@,
                namespace: self.namespace@,
                labels: opt_str(self.labels),
                fields: opt_str(self.fields),
                scope_label: opt_str(self.scope_label),
                filter: self.filter@,
                sort_column: self.sort_column,
                sort_desc: self.sort_desc,
                selected: self.selected,
                mode: self.mode,
            },
            return_mode: self.return_mode,
            detail_title: self.detail.title@,
            detail_lines: strs(self.detail.lines@),
            flash: self.flash@,
            flash_err: self.flash_err,
            stack: frames(self.stack@),
            pending_notify: opt_str(self.pending_notify),
            notifying: self.notifying@,
            crd_views: self.crd_views@,
        }
    }
}

impl AppView {
    /// A warning on the flash line.
    pub open spec fn warned(self, msg: Seq<char>) -> AppView {
        AppView { flash: msg, flash_err: true, ..self }
    }

    /// A plain message on the flash line.
    pub open spec fn flashed(self, msg: Seq<char>) -> AppView {
        AppView { flash: msg, flash_err: false, ..self }
    }

    /// The current frame saved on the stack.
    pub open spec fn pushed(self) -> AppView {
        AppView { stack: self.stack.push(self.scope), ..self }
    }

    /// A new scope: the given kind and selectors, with the filter cleared,
    /// the natural order back, and the first row selected.
    pub open spec fn rescoped(
        self,
        kind: Option<KindView>,
        plural: Seq<char>,
        namespace: Seq<char>,
        labels: Option<Seq<char>>,
        fields: Option<Seq<char>>,
        scope_label: Option<Seq<char>>,
    ) -> AppView {
        AppView {
            scope: FrameView {
                kind,
                kind_plural: plural,
                namespace,
                labels,
                fields,
                scope_label,
                filter: Seq::empty(),
                sort_column: None,
                sort_desc: false,
                selected: Some(0),
                mode: self.scope.mode,
            },
            ..self
        }
    }
}

/// A plural without one trailing `s`: `deployments` names a `deployment`.
pub open spec fn singular(s: Seq<char>) -> Seq<char> {
    if s.len() > 0 && s.last() == 's' {
        s.drop_last()
    } else {
        s
    }
}

/// A plural ending in `s` loses exactly that `s`; any other name is kept.
pub proof fn lemma_singular_drops_one_s(s: Seq<char>)
    ensures
        s.len() > 0 && s.last() == 's' ==> singular(s).push('s') == s && singular(s).len() + 1 == s.len(),
        !(s.len() > 0 && s.last() == 's') ==> singular(s) == s,
{
    if s.len() > 0 && s.last() == 's' {
        assert(s.drop_last().push('s') =~= s);
    }
}

/// The singular of a plural kind name.
pub fn trim_s(s: &str) -> (r: String)
    ensures
        r@ == singular(s@),
{
    let n: usize = s.unicode_len();
    if n > 0 && s.get_char(n - 1) == 's' {
        String::from_str(s.substring_char(0, n - 1))
    } else {
        String::from_str(s)
    }
}

/// A copy of an optional string.
pub fn copy_opt(o: &Option<String>) -> (r: Option<String>)
    ensures
        r == *o,
{
    match o {
        Some(s) => Some(s.clone()),
        None => None,
    }
}

impl ApiResource {
    /// A copy of this resource.
    pub fn copy(&self) -> (r: ApiResource)
        ensures
            r == *self,
    {
        ApiResource {
            group: self.group.clone(),
            version: self.version.clone(),
            api_version: self.api_version.clone(),
            kind: self.kind.clone(),
            plural: self.plural.clone(),
        }
    }
}

impl Kind {
    /// A copy of this kind.
    pub fn copy(&self) -> (r: Kind)
        ensures
            r == *self,
    {
        Kind { ar: self.ar.copy(), namespaced: self.namespaced }
    }
}

/// A copy of an optional kind.
pub fn copy_opt_kind(o: &Option<Kind>) -> (r: Option<Kind>)
    ensures
        r == *o,
{
    match o {
        Some(k) => Some(k.copy()),
        None => None,
    }
}

impl App {
    /// The current frame, copied.
    pub fn frame(&self) -> (f: Frame)
        ensures
            f@ == self@.scope,
    {
        Frame {
            kind: copy_opt_kind(&self.kind),
            kind_plural: self.kind_plural.clone(),
            namespace: self.namespace.clone(),
            labels: copy_opt(&self.labels),
            fields: copy_opt(&self.fields),
            scope_label: copy_opt(&self.scope_label),
            filter: self.filter.clone(),
            sort_column: self.sort_column,
            sort_desc: self.sort_desc,
            selected: self.selected,
            mode: self.mode,
        }
    }

    /// Save the current frame so `esc` can come back to it.
    pub fn push_frame(&mut self)
        ensures
            final(self)@ == old(self)@.pushed(),
    {
        let f = self.frame();
        self.stack.push(f);
        assert(frames(self.stack@) =~= frames(old(self).stack@).push(old(self)@.scope));
        assert(self@ =~= old(self)@.pushed());
    }

    /// Make a saved frame current again.
    pub fn restore(&mut self, f: Frame)
        ensures
            final(self)@ == (AppView { scope: f@, ..old(self)@ }),
    {
        self.kind = f.kind;
        self.kind_plural = f.kind_plural;
        self.namespace = f.namespace;
        self.labels = f.labels;
        self.fields = f.fields;
        self.scope_label = f.scope_label;
        self.filter = f.filter;
        self.sort_column = f.sort_column;
        self.sort_desc = f.sort_desc;
        self.selected = f.selected;
        self.mode = f.mode;
        assert(self@ =~= (AppView { scope: f@, ..old(self)@ }));
    }

    /// Show a warning on the flash line.
    pub fn flash_warn(&mut self, msg: &str)
        ensures
            final(self)@ == old(self)@.warned(msg@),
    {
        self.flash = String::from_str(msg);
        self.flash_err = true;
        assert(self@ =~= old(self)@.warned(msg@));
    }

    /// Show a plain message on the flash line.
    pub fn flash_info(&mut self, msg: String)
        ensures
            final(self)@ == old(self)@.flashed(msg@),
    {
        self.flash = msg;
        self.flash_err = false;
        assert(self@ =~= old(self)@.flashed(msg@));
    }

    /// Scope the table anew: the given kind and selectors, the filter
    /// cleared, the natural order back and the first row selected.
    pub fn rescope(
        &mut self,
        kind: Option<Kind>,
        plural: String,
        namespace: String,
        labels: Option<String>,
        fields: Option<String>,
        scope_label: Option<String>,
    )
        ensures
            final(self)@ == old(self)@.rescoped(
                opt_kind(kind),
                plural@,
                namespace@,
                opt_str(labels),
                opt_str(fields),
                opt_str(scope_label),
            ),
    {
        self.kind = kind;
        self.kind_plural = plural;
        self.namespace = namespace;
        self.labels = labels;
        self.fields = fields;
        self.scope_label = scope_label;
        self.filter = String::new();
        self.sort_column = None;
        self.sort_desc = false;
        self.selected = Some(0);
        assert(self@ =~= old(self)@.rescoped(
            opt_kind(kind),
            plural@,
            namespace@,
            opt_str(labels),
            opt_str(fields),
            opt_str(scope_label),
        ));
    }
}

} // verus!
