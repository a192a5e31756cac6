//! Shared text helpers.

use vstd::prelude::*;
use vstd::string::*;

verus! {

/// The character that marks a cut string.
pub const ELLIPSIS: char = '\u{2026}';

/// `s` cut to at most `max` characters; a cut string keeps its first
/// `max - 1` characters and ends with the ellipsis.
pub open spec fn ellipsized(s: Seq<char>, max: nat) -> Seq<char> {
    if s.len() <= max {
        s
    } else if max == 0 {
        Seq::empty()
    } else {
        s.take(max - 1).push(ELLIPSIS)
    }
}

/// `String::push`: the string afterwards is the string before with `c`
/// appended.
#[verifier::external_body]
pub(crate) fn push_char(s: &mut String, c: char)
    ensures
        final(s)@ == old(s)@.push(c),
{
    s.push(c);
}

/// Truncate to `max` characters, ending with an ellipsis when cut. Counts
/// characters, never bytes, so arbitrary UTF-8 is handled.
pub fn ellipsize(s: &str, max: usize) -> (r: String)
    ensures
        r@ == ellipsized(s@, max as nat),
        r@.len() <= max,
        s@.len() <= max ==> r@ == s@,
        s@.len() > max && max > 0 ==> {
            &&& r@.len() == max
            &&& r@.last() == ELLIPSIS
            &&& r@.drop_last() == s@.take(max - 1)
        },
{
    let n: usize = s.unicode_len();
    if n <= max {
        return String::from_str(s);
    }
    if max == 0 {
        return String::new();
    }
    let head: &str = s.substring_char(0, max - 1);
    let mut t = String::from_str(head);
    push_char(&mut t, ELLIPSIS);
    assert(t@.drop_last() =~= s@.take(max - 1));
    t
}


/// Whether `c` is a control character: general category `Cc`, the C0 codes
/// U+0000..=U+001F and DEL plus the C1 codes U+007F..=U+009F.
pub open spec fn is_control(c: char) -> bool {
    (c as u32) <= 0x1f || (0x7f <= (c as u32) && (c as u32) <= 0x9f)
}

/// `s` with every control character removed, order kept.
pub open spec fn without_controls(s: Seq<char>) -> Seq<char>
    decreases s.len(),
{
    if s.len() == 0 {
        Seq::empty()
    } else if is_control(s.last()) {
        without_controls(s.drop_last())
    } else {
        without_controls(s.drop_last()).push(s.last())
    }
}

/// Whether `c` is a control character (`char::is_control`).
pub fn char_is_control(c: char) -> (r: bool)
    ensures
        r == is_control(c),
        r == ((c as u32) <= 0x1f || (0x7f <= (c as u32) && (c as u32) <= 0x9f)),
{
    let u: u32 = c as u32;
    u <= 0x1f || (0x7f <= u && u <= 0x9f)
}

/// `s` with its control characters stripped.
pub fn strip_controls(s: &str) -> (r: String)
    ensures
        r@ == without_controls(s@),
{
    let mut r = String::new();
    for c in it: s.chars()
        invariant
            it.seq() == s@,
            r@ == without_controls(s@.take(it.index())),
    {
        assert(s@.take(it.index() + 1).drop_last() =~= s@.take(it.index()));
        if !char_is_control(c) {
            push_char(&mut r, c);
        }
    }
    assert(s@.take(s@.len() as int) =~= s@);
    r
}


/// The digit character for `d < 10`.
pub open spec fn digit_char(d: nat) -> char {
    (48 + d) as char
}

/// The decimal digits of `n`, most significant first, without leading zeros.
pub open spec fn decimal(n: nat) -> Seq<char>
    decreases n,
{
    if n < 10 {
        seq![digit_char(n)]
    } else {
        decimal(n / 10).push(digit_char(n % 10))
    }
}

/// `n` written in decimal.
pub fn decimal_string(n: u64) -> (r: String)
    ensures
        r@ == decimal(n as nat),
    decreases n,
{
    let d: u8 = (n % 10) as u8;
    let c: char = (48u8 + d) as char;
    if n < 10 {
        let mut s = String::new();
        push_char(&mut s, c);
        assert(s@ =~= seq![digit_char(n as nat)]);
        s
    } else {
        let mut s = decimal_string(n / 10);
        push_char(&mut s, c);
        s
    }
}

/// The concatenation of `a` and `b`.
pub fn concat2(a: &str, b: &str) -> (r: String)
    ensures
        r@ == a@ + b@,
{
    let mut r = String::from_str(a);
    r.append(b);
    r
}

/// The concatenation of `a`, `b` and `c`.
pub fn concat3(a: &str, b: &str, c: &str) -> (r: String)
    ensures
        r@ == a@ + b@ + c@,
{
    let mut r = String::from_str(a);
    r.append(b);
    r.append(c);
    r
}

/// Whether two strings hold the same characters.
pub fn same_text(a: &str, b: &str) -> (r: bool)
    ensures
        r == (a@ == b@),
{
    String::from_str(a) == String::from_str(b)
}


/// The views of a list of strings.
pub open spec fn strs(v: Seq<String>) -> Seq<Seq<char>> {
    v.map_values(|s: String| s@)
}

/// A line without the `\r` of a `\r\n` ending.
pub open spec fn without_cr(line: Seq<char>) -> Seq<char> {
    if line.len() > 0 && line.last() == '\r' {
        line.drop_last()
    } else {
        line
    }
}

/// The lines of `s` that end in `\n`, and the text after the last `\n`.
pub open spec fn line_split(s: Seq<char>) -> (Seq<Seq<char>>, Seq<char>)
    decreases s.len(),
{
    if s.len() == 0 {
        (Seq::empty(), Seq::empty())
    } else {
        let p = line_split(s.drop_last());
        if s.last() == '\n' {
            (p.0.push(without_cr(p.1)), Seq::empty())
        } else {
            (p.0, p.1.push(s.last()))
        }
    }
}

/// The lines of `s`, as `str::lines` splits them: at `\n` or `\r\n`, with a
/// final line ending optional and no empty line after it.
pub open spec fn text_lines(s: Seq<char>) -> Seq<Seq<char>> {
    let p = line_split(s);
    if p.1.len() == 0 {
        p.0
    } else {
        p.0.push(p.1)
    }
}

/// The lines of `s` (`str::lines`).
pub fn lines(s: &str) -> (r: Vec<String>)
    ensures
        strs(r@) == text_lines(s@),
{
    let mut done: Vec<String> = Vec::new();
    let mut cur = String::new();
    let mut cr = false;
    for c in it: s.chars()
        invariant
            it.seq() == s@,
            strs(done@) == line_split(s@.take(it.index())).0,
            line_split(s@.take(it.index())).1 == (if cr {
                cur@.push('\r')
            } else {
                cur@
            }),
            !cr ==> cur@.len() == 0 || cur@.last() != '\r',
    {
        let ghost i = it.index();
        assert(s@.take(i + 1).drop_last() =~= s@.take(i));
        assert(s@.take(i + 1).last() == c);
        if c == '\n' {
            let ghost before = done@;
            assert(without_cr(if cr { cur@.push('\r') } else { cur@ }) =~= cur@);
            let line = cur;
            cur = String::new();
            done.push(line);
            cr = false;
            assert(strs(done@) =~= strs(before).push(line@));
        } else if c == '\r' {
            if cr {
                push_char(&mut cur, '\r');
            }
            cr = true;
        } else {
            if cr {
                push_char(&mut cur, '\r');
            }
            push_char(&mut cur, c);
            cr = false;
        }
    }
    assert(s@.take(s@.len() as int) =~= s@);
    if cr {
        push_char(&mut cur, '\r');
    }
    if cur.unicode_len() > 0 {
        let ghost before = done@;
        done.push(cur);
        assert(strs(done@) =~= strs(before).push(line_split(s@).1));
    }
    done
}


/// The `{name}` placeholder.
pub open spec fn name_mark() -> Seq<char> {
    seq!['{', 'n', 'a', 'm', 'e', '}']
}

/// The `{namespace}` placeholder.
pub open spec fn namespace_mark() -> Seq<char> {
    seq!['{', 'n', 'a', 'm', 'e', 's', 'p', 'a', 'c', 'e', '}']
}

/// Whether `t` starts with `p`.
pub open spec fn starts_with(t: Seq<char>, p: Seq<char>) -> bool {
    p.len() <= t.len() && t.take(p.len() as int) == p
}

/// `template` with each `{name}` replaced by `name` and each `{namespace}`
/// by `namespace`, read left to right.
pub open spec fn fill(template: Seq<char>, name: Seq<char>, namespace: Seq<char>) -> Seq<char>
    decreases template.len(),
{
    if template.len() == 0 {
        Seq::empty()
    } else if starts_with(template, name_mark()) {
        name + fill(template.skip(6), name, namespace)
    } else if starts_with(template, namespace_mark()) {
        namespace + fill(template.skip(11), name, namespace)
    } else {
        seq![template[0]] + fill(template.skip(1), name, namespace)
    }
}

/// The characters of `s`.
pub fn chars_of(s: &str) -> (r: Vec<char>)
    ensures
        r@ == s@,
{
    let mut r: Vec<char> = Vec::new();
    for c in it: s.chars()
        invariant
            it.seq() == s@,
            r@ == s@.take(it.index()),
    {
        r.push(c);
        assert(r@ =~= s@.take(it.index() + 1));
    }
    assert(s@.take(s@.len() as int) =~= s@);
    r
}

/// Whether `v` holds `p` from index `i` on.
fn matches_at(v: &Vec<char>, i: usize, p: &[char]) -> (r: bool)
    requires
        i <= v@.len(),
    ensures
        r == starts_with(v@.skip(i as int), p@),
{
    let n: usize = p.len();
    if n > v.len() - i {
        return false;
    }
    let mut j: usize = 0;
    while j < n
        invariant
            n == p@.len(),
            i + n <= v.len(),
            j <= n,
            forall|k: int| 0 <= k < j ==> v@[i + k] == p@[k],
        decreases n - j,
    {
        if v[i + j] != p[j] {
            assert(v@.skip(i as int).take(n as int)[j as int] != p@[j as int]);
            return false;
        }
        j = j + 1;
    }
    assert(v@.skip(i as int).take(n as int) =~= p@);
    true
}

/// `template` with its `{name}` and `{namespace}` placeholders filled in.
pub fn fill_placeholders(template: &str, name: &str, namespace: &str) -> (r: String)
    ensures
        r@ == fill(template@, name@, namespace@),
{
    let cs = chars_of(template);
    let name_p: [char; 6] = ['{', 'n', 'a', 'm', 'e', '}'];
    let ns_p: [char; 11] = ['{', 'n', 'a', 'm', 'e', 's', 'p', 'a', 'c', 'e', '}'];
    assert(name_p@ =~= name_mark());
    assert(ns_p@ =~= namespace_mark());
    let n: usize = cs.len();
    let mut out = String::new();
    let mut i: usize = 0;
    assert(template@.skip(0) =~= template@);
    while i < n
        invariant
            cs@ == template@,
            n == cs@.len(),
            i <= n,
            name_p@ == name_mark(),
            ns_p@ == namespace_mark(),
            out@ + fill(template@.skip(i as int), name@, namespace@) == fill(template@, name@, namespace@),
        decreases n - i,
    {
        let ghost rest = template@.skip(i as int);
        let ghost before = out@;
        if matches_at(&cs, i, name_p.as_slice()) {
            out.append(name);
            assert(rest.skip(6) =~= template@.skip(i + 6));
            assert(out@ + fill(template@.skip(i + 6), name@, namespace@) =~= before + fill(rest, name@, namespace@));
            i = i + 6;
        } else if matches_at(&cs, i, ns_p.as_slice()) {
            out.append(namespace);
            assert(rest.skip(11) =~= template@.skip(i + 11));
            assert(out@ + fill(template@.skip(i + 11), name@, namespace@) =~= before + fill(rest, name@, namespace@));
            i = i + 11;
        } else {
            push_char(&mut out, cs[i]);
            assert(rest.skip(1) =~= template@.skip(i + 1));
            assert(rest[0] == cs@[i as int]);
            assert(out@ + fill(template@.skip(i + 1), name@, namespace@) =~= before + fill(rest, name@, namespace@));
            i = i + 1;
        }
    }
    assert(template@.skip(n as int) =~= Seq::<char>::empty());
    assert(out@ =~= out@ + fill(template@.skip(n as int), name@, namespace@));
    out
}


/// Stripping removes exactly the `Cc` characters (U+0000..=U+001F and
/// U+007F..=U+009F), one character at a time and in order: a character
/// outside those ranges is kept, one inside them is dropped.
pub proof fn lemma_strip_removes_exactly_cc(s: Seq<char>, c: char)
    ensures
        !((c as u32) <= 0x1f || (0x7f <= (c as u32) && (c as u32) <= 0x9f)) ==> without_controls(s.push(c))
            == without_controls(s).push(c),
        ((c as u32) <= 0x1f || (0x7f <= (c as u32) && (c as u32) <= 0x9f)) ==> without_controls(s.push(c))
            == without_controls(s),
{
    assert(s.push(c).drop_last() =~= s);
}

/// Text without `Cc` characters passes through stripping unchanged.
pub proof fn lemma_strip_keeps_text_without_cc(s: Seq<char>)
    requires
        forall|i: int| 0 <= i < s.len() ==> !(((#[trigger] s[i]) as u32) <= 0x1f || (0x7f <= (s[i] as u32) && (s[i] as u32) <= 0x9f)),
    ensures
        without_controls(s) == s,
    decreases s.len(),
{
    if s.len() > 0 {
        let p = s.drop_last();
        assert forall|i: int| 0 <= i < p.len() implies !(((#[trigger] p[i]) as u32) <= 0x1f || (0x7f <= (p[i] as u32) && (p[i] as u32) <= 0x9f)) by {
            assert(p[i] == s[i]);
        }
        lemma_strip_keeps_text_without_cc(p);
        assert(s.last() == s[s.len() - 1]);
        assert(p.push(s.last()) =~= s);
    }
}

/// What stripping leaves holds no `Cc` character.
pub proof fn lemma_strip_leaves_no_cc(s: Seq<char>)
    ensures
        forall|i: int| 0 <= i < without_controls(s).len() ==> !(((#[trigger] without_controls(s)[i]) as u32) <= 0x1f
            || (0x7f <= (without_controls(s)[i] as u32) && (without_controls(s)[i] as u32) <= 0x9f)),
    decreases s.len(),
{
    if s.len() > 0 {
        lemma_strip_leaves_no_cc(s.drop_last());
        let w = without_controls(s.drop_last());
        assert forall|i: int| 0 <= i < without_controls(s).len() implies !(((#[trigger] without_controls(s)[i]) as u32) <= 0x1f
            || (0x7f <= (without_controls(s)[i] as u32) && (without_controls(s)[i] as u32) <= 0x9f)) by {
            if i < w.len() {
                assert(without_controls(s)[i] == w[i]);
            }
        }
    }
}


/// The number a string of decimal digits spells.
pub open spec fn digits_value(s: Seq<char>) -> int
    decreases s.len(),
{
    if s.len() == 0 {
        0
    } else {
        digits_value(s.drop_last()) * 10 + ((s.last() as u32) - 48)
    }
}

/// `decimal` writes `n` itself: its characters are the digits `0`..=`9`,
/// the first is not `0` unless `n` is zero, and they spell `n`.
pub proof fn lemma_decimal_spells_n(n: nat)
    ensures
        digits_value(decimal(n)) == n,
        forall|i: int| 0 <= i < decimal(n).len() ==> '0' <= #[trigger] decimal(n)[i] <= '9',
        decimal(n).len() >= 1,
        decimal(n)[0] == '0' ==> n == 0,
    decreases n,
{
    assert(Seq::<char>::empty().len() == 0);
    assert(digits_value(Seq::<char>::empty()) == 0);
    assert(((48 + n % 10) as char) as u32 == 48 + n % 10);
    if n < 10 {
        assert(decimal(n).drop_last() =~= Seq::<char>::empty());
        assert(decimal(n).last() == digit_char(n));
    }
    if n >= 10 {
        lemma_decimal_spells_n(n / 10);
        let d = decimal(n / 10);
        assert(decimal(n).drop_last() =~= d);
        assert((n / 10) * 10 + n % 10 == n) by (nonlinear_arith);
        assert forall|i: int| 0 <= i < decimal(n).len() implies '0' <= #[trigger] decimal(n)[i] <= '9' by {
            if i < d.len() {
                assert(decimal(n)[i] == d[i]);
            }
        }
        assert(decimal(n)[0] == d[0]);
    }
}

/// Text without a `{` has no placeholder and is kept as it is; a lone
/// `{name}` or `{namespace}` is replaced by the row's value.
pub proof fn lemma_fill_replaces_only_placeholders(t: Seq<char>, name: Seq<char>, namespace: Seq<char>)
    ensures
        (forall|i: int| 0 <= i < t.len() ==> #[trigger] t[i] != '{') ==> fill(t, name, namespace) == t,
        fill(seq!['{', 'n', 'a', 'm', 'e', '}'], name, namespace) == name,
        fill(seq!['{', 'n', 'a', 'm', 'e', 's', 'p', 'a', 'c', 'e', '}'], name, namespace) == namespace,
    decreases t.len(),
{
    if t.len() > 0 && (forall|i: int| 0 <= i < t.len() ==> #[trigger] t[i] != '{') {
        let r = t.skip(1);
        assert forall|i: int| 0 <= i < r.len() implies #[trigger] r[i] != '{' by {
            assert(r[i] == t[i + 1]);
        }
        lemma_fill_replaces_only_placeholders(r, name, namespace);
        if t.len() >= 6 {
            assert(t.take(6)[0] == t[0]);
            assert(name_mark()[0] == '{');
        }
        if t.len() >= 11 {
            assert(t.take(11)[0] == t[0]);
            assert(namespace_mark()[0] == '{');
        }
        assert(seq![t[0]] + r =~= t);
    }
    assert(fill(Seq::<char>::empty(), name, namespace) == Seq::<char>::empty());
    let nm = seq!['{', 'n', 'a', 'm', 'e', '}'];
    assert(nm.take(6) =~= name_mark());
    assert(nm.skip(6) =~= Seq::<char>::empty());
    assert(starts_with(nm, name_mark()));
    assert(fill(nm, name, namespace) == name + fill(nm.skip(6), name, namespace));
    assert(name + Seq::<char>::empty() =~= name);
    let ns = seq!['{', 'n', 'a', 'm', 'e', 's', 'p', 'a', 'c', 'e', '}'];
    assert(ns.take(6)[5] != name_mark()[5]);
    assert(!starts_with(ns, name_mark()));
    assert(ns.take(11) =~= namespace_mark());
    assert(ns.skip(11) =~= Seq::<char>::empty());
    assert(starts_with(ns, namespace_mark()));
    assert(fill(ns, name, namespace) == namespace + fill(ns.skip(11), name, namespace));
    assert(namespace + Seq::<char>::empty() =~= namespace);
}

/// Text with no line feed is never split: it is one line, or no line when
/// empty.
proof fn lemma_split_without_newline(s: Seq<char>)
    requires
        forall|i: int| 0 <= i < s.len() ==> #[trigger] s[i] != '\n',
    ensures
        line_split(s).0.len() == 0,
        line_split(s).1 == s,
    decreases s.len(),
{
    if s.len() > 0 {
        let p = s.drop_last();
        assert forall|i: int| 0 <= i < p.len() implies #[trigger] p[i] != '\n' by {
            assert(p[i] == s[i]);
        }
        lemma_split_without_newline(p);
        assert(s[s.len() - 1] != '\n');
        assert(p.push(s.last()) =~= s);
    }
}

/// A line is taken without its ending: text with no line feed is a single
/// line (none when empty), and ending it with `\n` or `\r\n` gives back that
/// same single line.
pub proof fn lemma_lines_drop_line_endings(s: Seq<char>)
    requires
        forall|i: int| 0 <= i < s.len() ==> #[trigger] s[i] != '\n' && s[i] != '\r',
    ensures
        text_lines(s) == (if s.len() == 0 {
            Seq::<Seq<char>>::empty()
        } else {
            seq![s]
        }),
        text_lines(s.push('\n')) == seq![s],
        text_lines(s.push('\r').push('\n')) == seq![s],
{
    lemma_split_without_newline(s);
    let sr = s.push('\r');
    assert forall|i: int| 0 <= i < sr.len() implies #[trigger] sr[i] != '\n' by {
        if i < s.len() {
            assert(sr[i] == s[i]);
        }
    }
    lemma_split_without_newline(sr);
    assert(s.push('\n').drop_last() =~= s);
    assert(sr.push('\n').drop_last() =~= sr);
    assert(sr.drop_last() =~= s);
    if s.len() > 0 {
        assert(s[s.len() - 1] != '\r');
    }
    assert(text_lines(s.push('\n')) =~= seq![without_cr(s)]);
    assert(without_cr(s) =~= s);
    assert(without_cr(sr) =~= s);
}

} // verus!
