//! Repairs cursor-key escape sequences split at a read boundary.
//!
//! While mouse capture is released, terminals translate the wheel into
//! cursor-key escape sequences (`ESC [ A`/`ESC [ B`, or `ESC O A`/`ESC O B`
//! in application cursor mode). Under a fast scroll burst a read can end
//! exactly on the `ESC` byte: the parser then reports a bare `Esc` followed by
//! plain `[` and `B` characters. [`Repair`] puts such a sequence back
//! together: a plain `Esc` is held back for one event (or [`TIMEOUT_MILLIS`]),
//! and if an introducer and a final letter follow, the three become the cursor
//! key they came from.

use vstd::prelude::*;

verus! {

/// No modifier held.
pub const MOD_NONE: u8 = 0b0000_0000;
/// Shift modifier bit.
pub const MOD_SHIFT: u8 = 0b0000_0001;
/// Control modifier bit.
pub const MOD_CONTROL: u8 = 0b0000_0010;
/// Alt modifier bit.
pub const MOD_ALT: u8 = 0b0000_0100;
/// Super modifier bit.
pub const MOD_SUPER: u8 = 0b0000_1000;
/// Hyper modifier bit.
pub const MOD_HYPER: u8 = 0b0001_0000;
/// Meta modifier bit.
pub const MOD_META: u8 = 0b0010_0000;

/// Empty keyboard state (no keypad, caps lock or num lock flag).
pub const STATE_NONE: u8 = 0b0000_0000;

/// How long, in milliseconds, a held `Esc` may wait for the rest of a
/// sequence. Split reads arrive back-to-back, so this only has to outlast one
/// poll while a real `Esc` press still feels instant.
pub const TIMEOUT_MILLIS: u64 = 15;

/// A media key.
#[derive(Clone, Copy, Debug, PartialEq, Eq, Structural)]
pub enum MediaKeyCode {
    Play,
    Pause,
    PlayPause,
    Reverse,
    Stop,
    FastForward,
    Rewind,
    TrackNext,
    TrackPrevious,
    Record,
    LowerVolume,
    RaiseVolume,
    MuteVolume,
}

/// A modifier key pressed on its own.
#[derive(Clone, Copy, Debug, PartialEq, Eq, Structural)]
pub enum ModifierKeyCode {
    LeftShift,
    LeftControl,
    LeftAlt,
    LeftSuper,
    LeftHyper,
    LeftMeta,
    RightShift,
    RightControl,
    RightAlt,
    RightSuper,
    RightHyper,
    RightMeta,
    IsoLevel3Shift,
    IsoLevel5Shift,
}

/// The key of a key event.
#[derive(Clone, Copy, Debug, PartialEq, Eq, Structural)]
pub enum KeyCode {
    Backspace,
    Enter,
    Left,
    Right,
    Up,
    Down,
    Home,
    End,
    PageUp,
    PageDown,
    Tab,
    BackTab,
    Delete,
    Insert,
    F(u8),
    Char(char),
    Null,
    Esc,
    CapsLock,
    ScrollLock,
    NumLock,
    PrintScreen,
    Pause,
    Menu,
    KeypadBegin,
    Media(MediaKeyCode),
    Modifier(ModifierKeyCode),
}

/// Whether a key went down, repeated, or went up.
#[derive(Clone, Copy, Debug, PartialEq, Eq, Structural)]
pub enum KeyEventKind {
    Press,
    Repeat,
    Release,
}

/// One key event: the key, its modifier bits (`MOD_*`), its kind, and the
/// keyboard state bits.
#[derive(Clone, Copy, Debug, PartialEq, Eq, Structural)]
pub struct KeyEvent {
    pub code: KeyCode,
    pub modifiers: u8,
    pub kind: KeyEventKind,
    pub state: u8,
}

/// The event a plain press of `code` with `modifiers` produces.
pub open spec fn press_with(code: KeyCode, modifiers: u8) -> KeyEvent {
    KeyEvent { code, modifiers, kind: KeyEventKind::Press, state: STATE_NONE }
}

/// An unmodified press of `code`.
pub open spec fn press(code: KeyCode) -> KeyEvent {
    press_with(code, MOD_NONE)
}

impl KeyEvent {
    /// A press of `code` with the given modifier bits and an empty state.
    pub fn new(code: KeyCode, modifiers: u8) -> (r: KeyEvent)
        ensures
            r == press_with(code, modifiers),
    {
        KeyEvent { code, modifiers, kind: KeyEventKind::Press, state: STATE_NONE }
    }
}

/// Only keys without modifiers can come from a split sequence.
pub open spec fn is_plain(k: KeyEvent) -> bool {
    k.modifiers == MOD_NONE
}

/// The two sequence introducers: `[` (CSI) and `O` (SS3).
pub open spec fn is_introducer(code: KeyCode) -> bool {
    code == KeyCode::Char('[') || code == KeyCode::Char('O')
}

/// The cursor key a CSI/SS3 final byte stands for.
pub open spec fn cursor_key(code: KeyCode) -> Option<KeyCode> {
    match code {
        KeyCode::Char(c) => if c == 'A' {
            Some(KeyCode::Up)
        } else if c == 'B' {
            Some(KeyCode::Down)
        } else if c == 'C' {
            Some(KeyCode::Right)
        } else if c == 'D' {
            Some(KeyCode::Left)
        } else {
            None
        },
        _ => None,
    }
}

/// What the repair has consumed so far and is waiting to interpret.
#[derive(Clone, Copy, Debug)]
pub enum State {
    /// Nothing held: keys pass straight through.
    Idle,
    /// A bare `Esc` is held, waiting to see whether a sequence follows it.
    Esc(KeyEvent),
    /// `Esc` plus an introducer; the next letter finishes the sequence.
    Intro(KeyEvent),
}

/// The keys a state stands for, as they would be replayed: the held `Esc`,
/// then the introducer as the `[` a user typing it would have pressed.
pub open spec fn held(s: State) -> Seq<KeyEvent> {
    match s {
        State::Idle => Seq::empty(),
        State::Esc(esc) => seq![esc],
        State::Intro(esc) => seq![esc, press(KeyCode::Char('['))],
    }
}

/// What a state holds is only ever a plain `Esc` press, kept as pushed.
pub open spec fn holds_plain_esc(s: State) -> bool {
    match s {
        State::Idle => true,
        State::Esc(e) => is_plain(e) && e.code == KeyCode::Esc,
        State::Intro(e) => is_plain(e) && e.code == KeyCode::Esc,
    }
}

/// Whether pushing `k` in state `s` completes a split sequence.
pub open spec fn completes(s: State, k: KeyEvent) -> bool {
    s is Intro && is_plain(k) && cursor_key(k.code) is Some
}

/// One push: the next state and the keys to dispatch, in order.
pub open spec fn step(s: State, k: KeyEvent) -> (State, Seq<KeyEvent>) {
    match s {
        State::Idle => if is_plain(k) && k.code == KeyCode::Esc {
            (State::Esc(k), Seq::empty())
        } else {
            (State::Idle, seq![k])
        },
        State::Esc(esc) => if is_plain(k) && is_introducer(k.code) {
            (State::Intro(esc), Seq::empty())
        } else if is_plain(k) && k.code == KeyCode::Esc {
            (State::Esc(k), seq![esc])
        } else {
            (State::Idle, seq![esc, k])
        },
        State::Intro(esc) => if completes(s, k) {
            (State::Idle, seq![press(cursor_key(k.code)->0)])
        } else {
            (State::Idle, seq![esc, press(KeyCode::Char('[')), k])
        },
    }
}

/// A whole input stream pushed one key at a time from state `s`: the final
/// state and everything dispatched along the way.
pub open spec fn run(s: State, keys: Seq<KeyEvent>) -> (State, Seq<KeyEvent>)
    decreases keys.len(),
{
    if keys.len() == 0 {
        (s, Seq::empty())
    } else {
        let first = step(s, keys[0]);
        let rest = run(first.0, keys.drop_first());
        (rest.0, first.1 + rest.1)
    }
}

/// `n` wheel steps whose every sequence was split after its `ESC`:
/// `ESC`, the introducer, the final letter, `n` times.
pub open spec fn split_scrolls(n: nat, intro: char, letter: char) -> Seq<KeyEvent>
    decreases n,
{
    if n == 0 {
        Seq::empty()
    } else {
        seq![press(KeyCode::Esc), press(KeyCode::Char(intro)), press(KeyCode::Char(letter))]
            + split_scrolls((n - 1) as nat, intro, letter)
    }
}

/// The cursor key a CSI/SS3 final byte stands for.
fn final_byte(code: KeyCode) -> (r: Option<KeyCode>)
    ensures
        r == cursor_key(code),
{
    match code {
        KeyCode::Char(c) => if c == 'A' {
            Some(KeyCode::Up)
        } else if c == 'B' {
            Some(KeyCode::Down)
        } else if c == 'C' {
            Some(KeyCode::Right)
        } else if c == 'D' {
            Some(KeyCode::Left)
        } else {
            None
        },
        _ => None,
    }
}

/// Escape-sequence reassembly for one input stream.
///
/// Feed every key press through [`push`](Self::push) and dispatch whatever it
/// returns. When [`pending`](Self::pending) is true the caller must call
/// [`flush`](Self::flush) after [`TIMEOUT_MILLIS`] so a real `Esc` press is
/// not held forever waiting for a sequence that will never arrive.
pub struct Repair {
    state: State,
}

impl View for Repair {
    type V = State;

    closed spec fn view(&self) -> State {
        self.state
    }
}

impl Repair {
    /// Every repair holds nothing but a plain `Esc`.
    #[verifier::type_invariant]
    spec fn well_formed(self) -> bool {
        holds_plain_esc(self.state)
    }
}

impl Default for Repair {
    fn default() -> (r: Self)
        ensures
            r@ is Idle,
    {
        Repair { state: State::Idle }
    }
}

impl Repair {
    /// Whether an `Esc` is currently held back and needs a timeout flush.
    pub fn pending(&self) -> (r: bool)
        ensures
            r == !(self@ is Idle),
            r == (held(self@).len() > 0),
            holds_plain_esc(self@),
    {
        proof {
            use_type_invariant(self);
        }
        match self.state {
            State::Idle => false,
            _ => true,
        }
    }

    /// Feed one key press; returns the keys to dispatch, in order.
    pub fn push(&mut self, key: KeyEvent) -> (out: Vec<KeyEvent>)
        ensures
            final(self)@ == step(old(self)@, key).0,
            out@ == step(old(self)@, key).1,
            holds_plain_esc(final(self)@),
    {
        proof {
            use_type_invariant(&*self);
        }
        // Only the bare, unmodified forms can come from a split sequence;
        // anything carrying modifiers is a real chord.
        let plain = key.modifiers == MOD_NONE;
        let prev = self.state;
        self.state = State::Idle;
        let mut out: Vec<KeyEvent> = Vec::new();
        match prev {
            State::Idle => {
                if plain && key.code == KeyCode::Esc {
                    self.state = State::Esc(key);
                } else {
                    out.push(key);
                }
            },
            State::Esc(esc) => {
                let intro = match key.code {
                    KeyCode::Char(c) => c == '[' || c == 'O',
                    _ => false,
                };
                if plain && intro {
                    self.state = State::Intro(esc);
                } else if plain && key.code == KeyCode::Esc {
                    // A second `Esc` starts a fresh wait; the first one was real.
                    self.state = State::Esc(key);
                    out.push(esc);
                } else {
                    out.push(esc);
                    out.push(key);
                }
            },
            State::Intro(esc) => {
                let fin = final_byte(key.code);
                match fin {
                    Some(code) if plain => {
                        out.push(KeyEvent::new(code, MOD_NONE));
                    },
                    _ => {
                        // Not a sequence after all: replay what was swallowed,
                        // with the introducer as the `[` a user would type.
                        out.push(esc);
                        out.push(KeyEvent::new(KeyCode::Char('['), MOD_NONE));
                        out.push(key);
                    },
                }
            },
        }
        assert(out@ =~= step(old(self)@, key).1);
        out
    }

    /// Give up on a held `Esc` and release what was swallowed.
    pub fn flush(&mut self) -> (out: Vec<KeyEvent>)
        ensures
            final(self)@ is Idle,
            out@ == held(old(self)@),
            out@.len() == 0 <==> old(self)@ is Idle,
            out@.len() <= 2,
            out@.len() > 0 ==> out@[0].code == KeyCode::Esc && is_plain(out@[0]),
            out@.len() == 2 ==> out@[1] == press(KeyCode::Char('[')),
    {
        proof {
            use_type_invariant(&*self);
        }
        let prev = self.state;
        self.state = State::Idle;
        let mut out: Vec<KeyEvent> = Vec::new();
        match prev {
            State::Idle => {},
            State::Esc(esc) => {
                out.push(esc);
            },
            State::Intro(esc) => {
                out.push(esc);
                out.push(KeyEvent::new(KeyCode::Char('['), MOD_NONE));
            },
        }
        assert(out@ =~= held(old(self)@));
        out
    }
}

/// A push keeps the repair holding nothing but a plain `Esc`.
pub proof fn lemma_push_keeps_plain_esc(s: State, k: KeyEvent)
    requires
        holds_plain_esc(s),
    ensures
        holds_plain_esc(step(s, k).0),
{
}

/// The key as the repair keeps account of it: an introducer taken into a
/// held sequence stands as the `[` it would be replayed as.
pub open spec fn as_held(s: State, k: KeyEvent) -> KeyEvent {
    if s is Esc && is_plain(k) && is_introducer(k.code) {
        press(KeyCode::Char('['))
    } else {
        k
    }
}

/// Nothing is lost or reordered: unless the key completes a split sequence,
/// what one push dispatches followed by what is held afterwards equals what
/// was held before followed by the pushed key (an introducer taken in
/// standing as the `[` it is replayed as).
pub proof fn lemma_push_conserves_keys(s: State, k: KeyEvent)
    requires
        !completes(s, k),
    ensures
        step(s, k).1 + held(step(s, k).0) == held(s).push(as_held(s, k)),
{
    let r = step(s, k);
    assert(r.1 + held(r.0) =~= held(s).push(as_held(s, k)));
}

/// A completed sequence turns everything held, and the final letter, into the
/// single cursor key that letter names, and leaves nothing held.
pub proof fn lemma_sequence_becomes_cursor_key(s: State, k: KeyEvent)
    requires
        completes(s, k),
    ensures
        step(s, k).0 is Idle,
        step(s, k).1 == seq![press(cursor_key(k.code)->0)],
        cursor_key(k.code)->0 == KeyCode::Up || cursor_key(k.code)->0 == KeyCode::Down
            || cursor_key(k.code)->0 == KeyCode::Left || cursor_key(k.code)->0 == KeyCode::Right,
{
}

/// A key carrying modifiers is never mistaken for part of a sequence: it
/// releases whatever was held, then itself, and leaves nothing pending.
pub proof fn lemma_modified_key_passes_through(s: State, k: KeyEvent)
    requires
        !is_plain(k),
    ensures
        step(s, k).0 is Idle,
        step(s, k).1 == held(s).push(k),
{
    assert(step(s, k).1 =~= held(s).push(k));
}

/// With nothing held, every key but a plain `Esc` passes straight through.
pub proof fn lemma_ordinary_keys_pass_through(k: KeyEvent)
    requires
        !(is_plain(k) && k.code == KeyCode::Esc),
    ensures
        step(State::Idle, k) == (State::Idle, seq![k]),
{
}

/// A real `Esc` press survives: held on the push, released unchanged by the
/// timeout flush, after which a second flush releases nothing.
pub proof fn lemma_real_esc_survives_flush(k: KeyEvent)
    requires
        is_plain(k),
        k.code == KeyCode::Esc,
    ensures
        step(State::Idle, k).1.len() == 0,
        held(step(State::Idle, k).0) == seq![k],
        held(State::Idle).len() == 0,
{
}

/// How many split sequences a stream completes when pushed from state `s`.
pub open spec fn completions(s: State, keys: Seq<KeyEvent>) -> nat
    decreases keys.len(),
{
    if keys.len() == 0 {
        0
    } else {
        (if completes(s, keys[0]) {
            1nat
        } else {
            0nat
        }) + completions(step(s, keys[0]).0, keys.drop_first())
    }
}

/// Over a whole stream nothing is lost: the keys dispatched plus the keys
/// still held number the keys held at the start plus the keys pushed, less
/// two for every completed sequence (whose three keys became one).
pub proof fn lemma_stream_conserves_keys(s: State, keys: Seq<KeyEvent>)
    ensures
        run(s, keys).1.len() + held(run(s, keys).0).len() + 2 * completions(s, keys) == held(s).len()
            + keys.len(),
    decreases keys.len(),
{
    if keys.len() > 0 {
        let k = keys[0];
        if completes(s, k) {
            lemma_sequence_becomes_cursor_key(s, k);
        } else {
            lemma_push_conserves_keys(s, k);
            assert((step(s, k).1 + held(step(s, k).0)).len() == held(s).push(as_held(s, k)).len());
        }
        lemma_stream_conserves_keys(step(s, k).0, keys.drop_first());
    }
}

/// Pushing two streams one after the other is pushing their concatenation.
pub proof fn lemma_run_append(s: State, a: Seq<KeyEvent>, b: Seq<KeyEvent>)
    ensures
        run(s, a + b).0 == run(run(s, a).0, b).0,
        run(s, a + b).1 == run(s, a).1 + run(run(s, a).0, b).1,
    decreases a.len(),
{
    if a.len() == 0 {
        assert(a + b =~= b);
        assert(run(s, a).1 + run(run(s, a).0, b).1 =~= run(run(s, a).0, b).1);
    } else {
        let first = step(s, a[0]);
        assert((a + b).drop_first() =~= a.drop_first() + b);
        lemma_run_append(first.0, a.drop_first(), b);
        assert(run(s, a + b).1 =~= run(s, a).1 + run(run(s, a).0, b).1);
    }
}

/// A burst of `n` split wheel sequences never yields an `Esc`: from an idle
/// repair it dispatches exactly `n` cursor keys and ends with nothing held.
pub proof fn lemma_split_scrolls_become_cursor_keys(n: nat, intro: char, letter: char)
    requires
        intro == '[' || intro == 'O',
        cursor_key(KeyCode::Char(letter)) is Some,
    ensures
        run(State::Idle, split_scrolls(n, intro, letter)).0 is Idle,
        run(State::Idle, split_scrolls(n, intro, letter)).1 == Seq::new(
            n,
            |_i: int| press(cursor_key(KeyCode::Char(letter))->0),
        ),
    decreases n,
{
    let want = press(cursor_key(KeyCode::Char(letter))->0);
    if n == 0 {
        assert(run(State::Idle, split_scrolls(n, intro, letter)).1 =~= Seq::new(
            n,
            |_i: int| want,
        ));
    } else {
        let triple = seq![
            press(KeyCode::Esc),
            press(KeyCode::Char(intro)),
            press(KeyCode::Char(letter)),
        ];
        let rest = split_scrolls((n - 1) as nat, intro, letter);
        lemma_run_append(State::Idle, triple, rest);
        reveal_with_fuel(run, 4);
        assert(triple.drop_first().drop_first().drop_first() =~= Seq::<KeyEvent>::empty());
        assert(run(State::Idle, triple).0 is Idle);
        assert(run(State::Idle, triple).1 =~= seq![want]);
        lemma_split_scrolls_become_cursor_keys((n - 1) as nat, intro, letter);
        assert(seq![want] + Seq::new((n - 1) as nat, |_i: int| want) =~= Seq::new(
            n,
            |_i: int| want,
        ));
    }
}


/// The final letters of a cursor sequence: `A` up, `B` down, `C` right, `D`
/// left; no other key finishes one.
pub proof fn lemma_final_letters(code: KeyCode)
    ensures
        cursor_key(KeyCode::Char('A')) == Some(KeyCode::Up),
        cursor_key(KeyCode::Char('B')) == Some(KeyCode::Down),
        cursor_key(KeyCode::Char('C')) == Some(KeyCode::Right),
        cursor_key(KeyCode::Char('D')) == Some(KeyCode::Left),
        code != KeyCode::Char('A') && code != KeyCode::Char('B') && code != KeyCode::Char('C') && code
            != KeyCode::Char('D') ==> cursor_key(code) is None,
        is_introducer(code) <==> (code == KeyCode::Char('[') || code == KeyCode::Char('O')),
{
}

/// A split sequence, `Esc`, `[` or `O`, then a final letter, all plain,
/// turns into exactly the unmodified press of the cursor key that letter
/// names, with nothing held afterwards; an `Esc` pushed alone is held and
/// nothing is dispatched.
pub proof fn lemma_split_sequence_reassembles(esc: KeyEvent, intro: KeyEvent, fin: KeyEvent)
    requires
        esc.code == KeyCode::Esc,
        esc.modifiers == MOD_NONE,
        intro.code == KeyCode::Char('[') || intro.code == KeyCode::Char('O'),
        intro.modifiers == MOD_NONE,
        fin.code == KeyCode::Char('A') || fin.code == KeyCode::Char('B') || fin.code == KeyCode::Char('C')
            || fin.code == KeyCode::Char('D'),
        fin.modifiers == MOD_NONE,
    ensures
        run(State::Idle, seq![esc]).1.len() == 0,
        run(State::Idle, seq![esc, intro]).1.len() == 0,
        run(State::Idle, seq![esc, intro, fin]).0 is Idle,
        run(State::Idle, seq![esc, intro, fin]).1 == seq![
            KeyEvent {
                code: if fin.code == KeyCode::Char('A') {
                    KeyCode::Up
                } else if fin.code == KeyCode::Char('B') {
                    KeyCode::Down
                } else if fin.code == KeyCode::Char('C') {
                    KeyCode::Right
                } else {
                    KeyCode::Left
                },
                modifiers: 0,
                kind: KeyEventKind::Press,
                state: 0,
            },
        ],
{
    reveal_with_fuel(run, 4);
    let ks = seq![esc, intro, fin];
    assert(ks.drop_first() =~= seq![intro, fin]);
    assert(ks.drop_first().drop_first() =~= seq![fin]);
    assert(ks.drop_first().drop_first().drop_first() =~= Seq::<KeyEvent>::empty());
    assert(seq![esc, intro].drop_first() =~= seq![intro]);
    assert(seq![esc, intro].drop_first().drop_first() =~= Seq::<KeyEvent>::empty());
    assert(seq![esc].drop_first() =~= Seq::<KeyEvent>::empty());
    assert(run(State::Idle, ks).1 =~= step(State::Intro(esc), fin).1);
}

} // verus!
