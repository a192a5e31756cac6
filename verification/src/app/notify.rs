//! `:notify`: per-object watches whose state changes ring the bell and raise a
//! desktop notification, and the terminal sequences that deliver them.

use vstd::prelude::*;
use crate::app::{App, AppView, ApiResource, singular, trim_s, opt_str};
use crate::config::NotifyConfig;
use crate::text::{strs, lemma_strip_keeps_text_without_cc, without_controls, strip_controls, push_char, decimal, decimal_string, concat2, concat3, same_text, is_control};

verus! {

/// The desktop protocol a `desktop` setting selects; an unknown value
/// behaves as the default `osc9`.
pub open spec fn desktop_protocol(desktop: Seq<char>) -> Seq<char> {
    if desktop == "osc9"@ || desktop == "osc777"@ || desktop == "both"@ || desktop == "off"@ {
        desktop
    } else {
        "osc9"@
    }
}

/// The iTerm2-style notification carrying `body`.
pub open spec fn osc9(body: Seq<char>) -> Seq<char> {
    "\x1b]9;sofka: "@ + body + "\x07"@
}

/// The rxvt-style notification carrying `body`.
pub open spec fn osc777(body: Seq<char>) -> Seq<char> {
    "\x1b]777;notify;sofka;"@ + body + "\x07"@
}

/// What delivers one `:notify` event: an optional BEL, then the chosen
/// desktop protocol(s), around the text stripped of control characters.
pub open spec fn notification(text: Seq<char>, bell: bool, desktop: Seq<char>) -> Seq<char> {
    let clean = without_controls(text);
    let d = desktop_protocol(desktop);
    (if bell {
        seq!['\x07']
    } else {
        Seq::empty()
    }) + (if d == "osc9"@ || d == "both"@ {
        osc9(clean)
    } else {
        Seq::empty()
    }) + (if d == "osc777"@ || d == "both"@ {
        osc777(clean)
    } else {
        Seq::empty()
    })
}

/// The terminal escape sequences that deliver one `:notify` event, per the
/// `[notify]` config: an optional BEL, then the chosen desktop-notification
/// protocol(s). Control characters are stripped so object content can't
/// smuggle sequences; BEL-terminated OSC matches every terminal's documented
/// examples. An unknown `desktop` value behaves as the default `osc9`.
pub fn notification_sequence(text: &str, cfg: &NotifyConfig) -> (r: String)
    ensures
        r@ == notification(text@, cfg.bell, cfg.desktop@),
{
    let clean = strip_controls(text);
    let mut seq = String::new();
    if cfg.bell {
        push_char(&mut seq, '\x07');
    }
    let ghost bellpart = seq@;
    let d: &str = cfg.desktop.as_str();
    let is9 = same_text(d, "osc9");
    let is777 = same_text(d, "osc777");
    let both = same_text(d, "both");
    let off = same_text(d, "off");
    let known = is9 || is777 || both || off;
    proof {
        reveal_strlit("osc9");
        reveal_strlit("osc777");
        reveal_strlit("both");
        reveal_strlit("off");
        assert("osc9"@.len() != "osc777"@.len());
        assert("osc9"@[0] != "both"@[0]);
        assert("osc777"@ != "both"@);
        assert("off"@ != "both"@);
        assert("off"@ != "osc777"@);
    }
    let want9 = !known || is9 || both;
    let want777 = known && (is777 || both);
    if want9 {
        seq.append("\x1b]9;sofka: ");
        seq.append(clean.as_str());
        seq.append("\x07");
    }
    let ghost part9 = seq@;
    assert(want9 == (desktop_protocol(cfg.desktop@) == "osc9"@ || desktop_protocol(cfg.desktop@) == "both"@));
    assert(want777 == (desktop_protocol(cfg.desktop@) == "osc777"@ || desktop_protocol(cfg.desktop@) == "both"@));
    if want777 {
        seq.append("\x1b]777;notify;sofka;");
        seq.append(clean.as_str());
        seq.append("\x07");
    }
    assert(seq@ =~= notification(text@, cfg.bell, cfg.desktop@));
    seq
}

/// The text of a notification carries no control character of its own.
pub proof fn lemma_stripped_text_has_no_controls(text: Seq<char>)
    ensures
        forall|i: int| 0 <= i < without_controls(text).len() ==> !is_control(#[trigger] without_controls(text)[i]),
    decreases text.len(),
{
    if text.len() > 0 {
        lemma_stripped_text_has_no_controls(text.drop_last());
        let w = without_controls(text.drop_last());
        assert forall|i: int| 0 <= i < without_controls(text).len() implies !is_control(
            #[trigger] without_controls(text)[i],
        ) by {
            if i < w.len() {
                assert(without_controls(text)[i] == w[i]);
            }
        }
    }
}

/// An unknown `desktop` value behaves exactly as `osc9`.
pub proof fn lemma_unknown_desktop_is_osc9(text: Seq<char>, bell: bool, desktop: Seq<char>)
    requires
        desktop != "osc9"@,
        desktop != "osc777"@,
        desktop != "both"@,
        desktop != "off"@,
    ensures
        notification(text, bell, desktop) == notification(text, bell, "osc9"@),
{
}

/// With `desktop = "off"` only the bell, if any, is sent.
pub proof fn lemma_off_sends_only_the_bell(text: Seq<char>, bell: bool)
    ensures
        notification(text, bell, "off"@) == (if bell {
            seq!['\x07']
        } else {
            Seq::<char>::empty()
        }),
{
    reveal_strlit("off");
    reveal_strlit("osc9");
    reveal_strlit("osc777");
    reveal_strlit("both");
    assert("off"@.len() == 3);
    assert("off"@ != "osc9"@);
    assert("off"@ != "both"@);
    assert("off"@ != "osc777"@);
    assert(desktop_protocol("off"@) == "off"@);
    assert(notification(text, bell, "off"@) =~= (if bell {
        seq!['\x07']
    } else {
        Seq::<char>::empty()
    }));
}

impl App {
    /// The message the main loop should ring the bell / emit a desktop
    /// notification for, if one arrived since the last frame.
    pub fn take_notification(&mut self) -> (r: Option<String>)
        ensures
            r == old(self).pending_notify,
            final(self)@ == (AppView { pending_notify: None, ..old(self)@ }),
    {
        let r = self.pending_notify.take();
        assert(self@ =~= (AppView { pending_notify: None, ..old(self)@ }));
        r
    }
}


/// The selected row a `:notify` toggle acts on: its row key, name and
/// namespace (empty when the object has none).
pub struct NotifySelection {
    pub key: String,
    pub name: String,
    pub namespace: String,
}

/// A single-object watch to start: the id it is kept under, the label its
/// messages carry, the plural of the view it was started from, the resource
/// watched, the namespace to watch in (`None` for a cluster-wide watch), and
/// the field selector naming the object.
pub struct NotifyWatch {
    pub id: String,
    pub label: String,
    pub plural: String,
    pub resource: ApiResource,
    pub namespace: Option<String>,
    pub field_selector: String,
}

/// What a `:notify` toggle leaves to the caller.
pub enum NotifyToggle {
    /// Nothing to start or stop.
    Unchanged,
    /// Abort the watch kept under this id.
    Stopped(String),
    /// Start this watch.
    Started(NotifyWatch),
}

/// The id a notify watch is kept under.
pub open spec fn notify_id(plural: Seq<char>, key: Seq<char>) -> Seq<char> {
    plural + "/"@ + key
}

/// The flash line after a watch is toggled off, `n` still running.
pub open spec fn notify_off_msg(key: Seq<char>, n: nat) -> Seq<char> {
    "notify off: "@ + key + " ("@ + decimal(n) + " still active)"@
}

/// The flash line after a watch is toggled on, `n` running.
pub open spec fn notify_on_msg(key: Seq<char>, n: nat) -> Seq<char> {
    "notify on: "@ + key + " \u{2014} changes flash + bell ("@ + decimal(n) + " active)"@
}

/// Whether the current view lists Helm releases, which cannot be watched.
pub open spec fn is_helm_view(plural: Seq<char>) -> bool {
    plural == "helm"@ || plural == "helmhistory"@
}

impl App {
    /// `:notify` - toggle a watch-notification on the selected object. While
    /// active, every state change its watch sees flashes, rings the bell and
    /// raises a desktop notification, until toggled off or the session ends.
    /// Helm views, a view with no kind, no selection, and an object without a
    /// name are refused with a warning; toggling an object already watched
    /// stops its watch.
    pub fn toggle_notify(&mut self, selection: Option<NotifySelection>) -> (r: NotifyToggle)
        ensures
            is_helm_view(old(self)@.scope.kind_plural) ==> r is Unchanged && final(self)@ == old(
                self,
            )@.warned("notify is not available for Helm views"@),
            !is_helm_view(old(self)@.scope.kind_plural) && old(self).kind is None ==> r is Unchanged
                && final(self)@ == old(self)@.warned("select a resource first"@),
            !is_helm_view(old(self)@.scope.kind_plural) && old(self).kind is Some && selection is None
                ==> r is Unchanged && final(self)@ == old(self)@.warned("no selection to notify on"@),
            !is_helm_view(old(self)@.scope.kind_plural) && old(self).kind is Some && selection is Some
                ==> ({
                let sel = selection->0;
                let id = notify_id(old(self)@.scope.kind_plural, sel.key@);
                let kind = old(self).kind->0;
                if old(self)@.notifying.contains(id) {
                    &&& r matches NotifyToggle::Stopped(x) && x@ == id
                    &&& final(self)@.notifying.to_set() == old(self)@.notifying.to_set().remove(id)
                    &&& final(self)@.notifying.len() == old(self)@.notifying.len() - 1
                    &&& final(self)@ == (AppView {
                        notifying: final(self)@.notifying,
                        ..old(self)@.flashed(notify_off_msg(sel.key@, final(self)@.notifying.len()))
                    })
                } else if sel.name@.len() == 0 {
                    &&& r is Unchanged
                    &&& final(self)@ == old(self)@.warned("object has no name to watch"@)
                } else {
                    &&& r matches NotifyToggle::Started(w) && {
                        &&& w.id@ == id
                        &&& w.label@ == singular(old(self)@.scope.kind_plural) + "/"@ + sel.name@
                        &&& w.plural@ == old(self)@.scope.kind_plural
                        &&& w.resource@ == kind.ar@
                        &&& opt_str(w.namespace) == (if kind.namespaced && sel.namespace@.len() > 0 {
                            Some(sel.namespace@)
                        } else {
                            None
                        })
                        &&& w.field_selector@ == "metadata.name="@ + sel.name@
                    }
                    &&& final(self)@ == (AppView {
                        notifying: old(self)@.notifying.push(id),
                        ..old(self)@.flashed(notify_on_msg(sel.key@, old(self)@.notifying.len() + 1))
                    })
                }
            }),
    {
        let is_helm = same_text(self.kind_plural.as_str(), "helm") || same_text(self.kind_plural.as_str(), "helmhistory");
        if is_helm {
            self.flash_warn("notify is not available for Helm views");
            return NotifyToggle::Unchanged;
        }
        let (resource, namespaced) = match &self.kind {
            Some(k) => (k.ar.copy(), k.namespaced),
            None => {
                self.flash_warn("select a resource first");
                return NotifyToggle::Unchanged;
            },
        };
        let sel = match selection {
            Some(s) => s,
            None => {
                self.flash_warn("no selection to notify on");
                return NotifyToggle::Unchanged;
            },
        };
        let id = concat3(self.kind_plural.as_str(), "/", sel.key.as_str());
        if self.notifying.remove(id.as_str()) {
            let left = decimal_string(self.notifying.len() as u64);
            let mut msg = concat2("notify off: ", sel.key.as_str());
            msg.append(" (");
            msg.append(left.as_str());
            msg.append(" still active)");
            self.flash_info(msg);
            assert(self@ =~= (AppView {
                notifying: self@.notifying,
                ..old(self)@.flashed(notify_off_msg(sel.key@, self@.notifying.len()))
            }));
            return NotifyToggle::Stopped(id);
        }
        if sel.name.unicode_len() == 0 {
            self.flash_warn("object has no name to watch");
            assert(self@ =~= old(self)@.warned("object has no name to watch"@));
            return NotifyToggle::Unchanged;
        }
        let plural = trim_s(self.kind_plural.as_str());
        let label = concat3(plural.as_str(), "/", sel.name.as_str());
        let watch_ns = if namespaced && sel.namespace.unicode_len() > 0 {
            Some(sel.namespace)
        } else {
            None
        };
        let watch = NotifyWatch {
            id: id.clone(),
            label,
            plural: self.kind_plural.clone(),
            resource,
            namespace: watch_ns,
            field_selector: concat2("metadata.name=", sel.name.as_str()),
        };
        self.notifying.insert(id);
        let count = decimal_string(self.notifying.len() as u64);
        let mut msg = concat2("notify on: ", sel.key.as_str());
        msg.append(" \u{2014} changes flash + bell (");
        msg.append(count.as_str());
        msg.append(" active)");
        self.flash_info(msg);
        assert(self@ =~= (AppView {
            notifying: old(self)@.notifying.push(watch.id@),
            ..old(self)@.flashed(notify_on_msg(sel.key@, old(self)@.notifying.len() + 1))
        }));
        NotifyToggle::Started(watch)
    }
}

/// What a running notify watch reports.
#[derive(Clone, Copy, Debug, PartialEq, Eq, Structural)]
pub enum WatchEvent {
    /// The object changed (or appeared).
    Apply,
    /// The object as listed while the watch (re)starts.
    InitApply,
    /// The object was deleted.
    Delete,
    /// A (re)list begins.
    Init,
    /// A (re)list is complete.
    InitDone,
    /// A transient error the watcher heals by itself.
    Error,
}

/// What a notify watch remembers between events: whether it holds the
/// object's previous state, and whether the initial list is complete.
#[derive(Clone, Copy, Debug, PartialEq, Eq, Structural)]
pub struct WatchFeed {
    pub has_prev: bool,
    pub synced: bool,
}

/// `label: text` for each text.
pub open spec fn labelled(label: Seq<char>, texts: Seq<Seq<char>>) -> Seq<Seq<char>> {
    texts.map_values(|t: Seq<char>| label + ": "@ + t)
}

/// The messages one event yields. `transitions` are the state changes between
/// the previous and the new object, used when there is a previous object.
/// The initial list describes the state the user just looked at: only changes
/// after it are news.
pub open spec fn feed_messages(
    feed: WatchFeed,
    label: Seq<char>,
    ev: WatchEvent,
    transitions: Seq<Seq<char>>,
) -> Seq<Seq<char>> {
    match ev {
        WatchEvent::Apply | WatchEvent::InitApply => if feed.has_prev {
            labelled(label, transitions)
        } else if feed.synced {
            seq![label + ": created"@]
        } else {
            Seq::empty()
        },
        WatchEvent::Delete => seq![label + ": deleted"@],
        _ => Seq::empty(),
    }
}

/// What a watch remembers after an event.
pub open spec fn feed_next(feed: WatchFeed, ev: WatchEvent) -> WatchFeed {
    match ev {
        WatchEvent::Apply | WatchEvent::InitApply => WatchFeed { has_prev: true, ..feed },
        WatchEvent::Delete => WatchFeed { has_prev: false, ..feed },
        WatchEvent::InitDone => WatchFeed { synced: true, ..feed },
        _ => feed,
    }
}

impl WatchFeed {
    /// A watch that has seen nothing yet.
    pub fn new() -> (r: WatchFeed)
        ensures
            !r.has_prev,
            !r.synced,
    {
        WatchFeed { has_prev: false, synced: false }
    }

    /// Take one watch event; returns the notifications to send, in order.
    pub fn on_event(&mut self, label: &str, ev: WatchEvent, transitions: &Vec<String>) -> (out: Vec<String>)
        ensures
            strs(out@) == feed_messages(*old(self), label@, ev, strs(transitions@)),
            *final(self) == feed_next(*old(self), ev),
    {
        let mut out: Vec<String> = Vec::new();
        match ev {
            WatchEvent::Apply | WatchEvent::InitApply => {
                if self.has_prev {
                    let n: usize = transitions.len();
                    let mut i: usize = 0;
                    while i < n
                        invariant
                            n == transitions@.len(),
                            i <= n,
                            strs(out@) == labelled(label@, strs(transitions@)).take(i as int),
                        decreases n - i,
                    {
                        let ghost prev = out@;
                        out.push(concat3(label, ": ", transitions[i].as_str()));
                        assert(strs(transitions@)[i as int] == transitions@[i as int]@);
                        assert(strs(out@) =~= strs(prev).push(out@[i as int]@));
                        assert(strs(out@) =~= labelled(label@, strs(transitions@)).take(i + 1));
                        i = i + 1;
                    }
                    assert(labelled(label@, strs(transitions@)).take(n as int) =~= labelled(
                        label@,
                        strs(transitions@),
                    ));
                } else if self.synced {
                    out.push(concat2(label, ": created"));
                    assert(strs(out@) =~= seq![label@ + ": created"@]);
                } else {
                    assert(strs(out@) =~= Seq::<Seq<char>>::empty());
                }
                self.has_prev = true;
            },
            WatchEvent::Delete => {
                self.has_prev = false;
                out.push(concat2(label, ": deleted"));
                assert(strs(out@) =~= seq![label@ + ": deleted"@]);
            },
            WatchEvent::InitDone => {
                self.synced = true;
                assert(strs(out@) =~= Seq::<Seq<char>>::empty());
            },
            _ => {
                assert(strs(out@) =~= Seq::<Seq<char>>::empty());
            },
        }
        out
    }
}

/// Until the initial list is complete, an object seen for the first time is
/// not news: it yields no notification.
pub proof fn lemma_initial_list_is_quiet(feed: WatchFeed, label: Seq<char>, ev: WatchEvent, transitions: Seq<Seq<char>>)
    requires
        !feed.has_prev,
        !feed.synced,
        ev == WatchEvent::Apply || ev == WatchEvent::InitApply,
    ensures
        feed_messages(feed, label, ev, transitions).len() == 0,
{
}

/// Every notification a watch sends names its object: it starts with the
/// watch's label and a colon.
pub proof fn lemma_messages_carry_the_label(feed: WatchFeed, label: Seq<char>, ev: WatchEvent, transitions: Seq<Seq<char>>)
    ensures
        forall|i: int| 0 <= i < feed_messages(feed, label, ev, transitions).len() ==>
            (#[trigger] feed_messages(feed, label, ev, transitions)[i]).take(label.len() + 2int) == label + ": "@,
{
    reveal_strlit(": ");
    let m = feed_messages(feed, label, ev, transitions);
    assert forall|i: int| 0 <= i < m.len() implies (#[trigger] m[i]).take(label.len() + 2int) == label + ": "@ by {
        let rest = if (ev == WatchEvent::Apply || ev == WatchEvent::InitApply) && feed.has_prev {
            transitions[i]
        } else if ev == WatchEvent::Delete {
            "deleted"@
        } else {
            "created"@
        };
        reveal_strlit(": created");
        reveal_strlit(": deleted");
        reveal_strlit("created");
        reveal_strlit("deleted");
        assert(m[i] =~= label + ": "@ + rest);
        assert((label + ": "@ + rest).take(label.len() + 2int) =~= label + ": "@);
    }
}

/// Toggling the same object twice leaves the set of watched objects as it
/// was: a toggle adds an id that is absent and removes one that is present.
pub proof fn lemma_toggle_twice_restores(ids: Set<Seq<char>>, id: Seq<char>)
    ensures
        !ids.contains(id) ==> ids.insert(id).remove(id) == ids,
        ids.contains(id) ==> ids.remove(id).insert(id) == ids,
{
    assert(!ids.contains(id) ==> ids.insert(id).remove(id) =~= ids);
    assert(ids.contains(id) ==> ids.remove(id).insert(id) =~= ids);
}


/// Text without control characters is carried verbatim: with `osc9` and no
/// bell, the sequence is exactly the iTerm2 frame around the text; the bell,
/// when on, is one BEL before whatever the protocol sends.
pub proof fn lemma_plain_text_is_framed_verbatim(text: Seq<char>, desktop: Seq<char>)
    requires
        forall|i: int| 0 <= i < text.len() ==> !(((#[trigger] text[i]) as u32) <= 0x1f || (0x7f <= (text[i] as u32) && (text[i] as u32) <= 0x9f)),
    ensures
        notification(text, false, "osc9"@) == "\x1b]9;sofka: "@ + text + "\x07"@,
        notification(text, true, desktop) == seq!['\x07'] + notification(text, false, desktop),
{
    lemma_strip_keeps_text_without_cc(text);
    reveal_strlit("osc9");
    reveal_strlit("osc777");
    reveal_strlit("both");
    reveal_strlit("off");
    assert("osc9"@.len() != "osc777"@.len());
    assert("osc9"@[0] != "both"@[0]);
    assert(notification(text, false, "osc9"@) =~= "\x1b]9;sofka: "@ + text + "\x07"@);
    assert(notification(text, true, desktop) =~= seq!['\x07'] + notification(text, false, desktop));
}

/// Only the Helm views refuse `:notify`: any other plural - `helmreleases`
/// among them - is not one.
pub proof fn lemma_only_helm_and_helmhistory_refuse_notify(plural: Seq<char>)
    ensures
        is_helm_view(plural) <==> (plural == "helm"@ || plural == "helmhistory"@),
        !is_helm_view("helmreleases"@),
{
    reveal_strlit("helm");
    reveal_strlit("helmhistory");
    reveal_strlit("helmreleases");
    assert("helmreleases"@.len() != "helm"@.len());
    assert("helmreleases"@[4] != "helmhistory"@[4]);
}

/// What a watch remembers: the object it holds stays held through every
/// event but a deletion (a transient error included), a new version is held
/// after an apply, and a complete initial list stays complete. An error
/// changes nothing and says nothing.
pub proof fn lemma_feed_memory(feed: WatchFeed, ev: WatchEvent, label: Seq<char>, transitions: Seq<Seq<char>>)
    ensures
        feed_next(feed, ev).has_prev == (ev == WatchEvent::Apply || ev == WatchEvent::InitApply || (feed.has_prev
            && ev != WatchEvent::Delete)),
        feed_next(feed, ev).synced == (feed.synced || ev == WatchEvent::InitDone),
        feed_next(feed, WatchEvent::Error) == feed,
        feed_messages(feed, label, WatchEvent::Error, transitions).len() == 0,
        feed_next(feed, WatchEvent::Init) == feed,
        feed_messages(feed, label, WatchEvent::Init, transitions).len() == 0,
{
}

/// With the object's previous version held, an apply reports each
/// transition, in order, as `label: transition`, and nothing else.
pub proof fn lemma_held_object_reports_transitions(feed: WatchFeed, ev: WatchEvent, label: Seq<char>, transitions: Seq<Seq<char>>)
    requires
        feed.has_prev,
        ev == WatchEvent::Apply || ev == WatchEvent::InitApply,
    ensures
        feed_messages(feed, label, ev, transitions).len() == transitions.len(),
        forall|i: int| 0 <= i < transitions.len() ==> #[trigger] feed_messages(feed, label, ev, transitions)[i]
            == label + ": "@ + transitions[i],
{
}


/// Once the initial list is complete, an object seen without a previous
/// version is reported as created; a deletion is always reported.
pub proof fn lemma_creation_and_deletion_are_news(feed: WatchFeed, ev: WatchEvent, label: Seq<char>, transitions: Seq<Seq<char>>)
    ensures
        !feed.has_prev && feed.synced && (ev == WatchEvent::Apply || ev == WatchEvent::InitApply)
            ==> feed_messages(feed, label, ev, transitions) == seq![label + ": created"@],
        feed_messages(feed, label, WatchEvent::Delete, transitions) == seq![label + ": deleted"@],
        feed_messages(feed, label, WatchEvent::InitDone, transitions).len() == 0,
{
}

/// Each desktop setting sends exactly its protocols: `osc777` only the
/// rxvt frame, `both` the iTerm2 frame then the rxvt frame.
pub proof fn lemma_desktop_protocols(text: Seq<char>)
    ensures
        notification(text, false, "osc777"@) == "\x1b]777;notify;sofka;"@ + without_controls(text) + "\x07"@,
        notification(text, false, "both"@) == "\x1b]9;sofka: "@ + without_controls(text) + "\x07"@
            + "\x1b]777;notify;sofka;"@ + without_controls(text) + "\x07"@,
{
    reveal_strlit("osc9");
    reveal_strlit("osc777");
    reveal_strlit("both");
    reveal_strlit("off");
    assert("osc9"@.len() != "osc777"@.len());
    assert("osc9"@[0] != "both"@[0]);
    assert("osc777"@.len() != "both"@.len());
    assert(notification(text, false, "osc777"@) =~= "\x1b]777;notify;sofka;"@ + without_controls(text) + "\x07"@);
    assert(notification(text, false, "both"@) =~= "\x1b]9;sofka: "@ + without_controls(text) + "\x07"@
        + "\x1b]777;notify;sofka;"@ + without_controls(text) + "\x07"@);
}


/// A watch is kept under the view's plural and the row key joined by `/`,
/// and its messages say how many watches run after the toggle.
pub proof fn lemma_notify_ids_and_counts(plural: Seq<char>, key: Seq<char>, n: nat)
    ensures
        notify_id(plural, key) == plural + "/"@ + key,
        notify_on_msg(key, n) == "notify on: "@ + key + " \u{2014} changes flash + bell ("@ + decimal(n) + " active)"@,
        notify_off_msg(key, n) == "notify off: "@ + key + " ("@ + decimal(n) + " still active)"@,
{
}

} // verus!
