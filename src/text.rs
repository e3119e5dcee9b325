use vstd::prelude::*;
use vstd::string::*;

verus! {

/// Longest first sentence that the local fallback keeps, in characters.
pub const SENTENCE_LIMIT: usize = 150;

/// Number of characters kept when a message is cut at a word boundary.
pub const CUT_LIMIT: usize = 100;

/// Suffix appended to any text that was cut short.
pub const ELLIPSIS: &'static str = "...";

/// The characters that `char::is_whitespace` accepts: Unicode `White_Space`.
pub open spec fn is_space(c: char) -> bool {
    ('\u{9}' <= c && c <= '\u{d}') || c == ' ' || c == '\u{85}' || c == '\u{a0}'
        || c == '\u{1680}' || ('\u{2000}' <= c && c <= '\u{200a}') || c == '\u{2028}'
        || c == '\u{2029}' || c == '\u{202f}' || c == '\u{205f}' || c == '\u{3000}'
}

pub open spec fn is_stop(c: char) -> bool {
    c == '.' || c == '!' || c == '?'
}

/// First index at or after `i` that does not hold whitespace (or `s.len()`).
pub open spec fn skip_front(s: Seq<char>, i: int) -> int
    decreases s.len() - i,
{
    if i < 0 || i >= s.len() {
        s.len() as int
    } else if is_space(s[i]) {
        skip_front(s, i + 1)
    } else {
        i
    }
}

/// End of `s[lo..j]` once trailing whitespace is dropped.
pub open spec fn skip_back(s: Seq<char>, lo: int, j: int) -> int
    decreases j - lo,
{
    if j <= lo {
        lo
    } else if is_space(s[j - 1]) {
        skip_back(s, lo, j - 1)
    } else {
        j
    }
}

/// `s` without leading and trailing whitespace.
pub open spec fn trimmed(s: Seq<char>) -> Seq<char> {
    let a = skip_front(s, 0);
    s.subrange(a, skip_back(s, a, s.len() as int))
}

/// Index of the first sentence terminator at or after `i` (or `s.len()`).
pub open spec fn stop_index(s: Seq<char>, i: int) -> int
    decreases s.len() - i,
{
    if i < 0 || i >= s.len() {
        s.len() as int
    } else if is_stop(s[i]) {
        i
    } else {
        stop_index(s, i + 1)
    }
}

/// Index of the last space before position `j` (or -1).
pub open spec fn space_before(s: Seq<char>, j: int) -> int
    decreases j,
{
    if j <= 0 {
        -1
    } else if s[j - 1] == ' ' {
        j - 1
    } else {
        space_before(s, j - 1)
    }
}

/// The local stand-in for a summary: the first sentence when it is short,
/// the whole message when it is short, else its first words and an ellipsis.
pub open spec fn truncated(m: Seq<char>) -> Seq<char> {
    let t = trimmed(m);
    let e = stop_index(t, 0);
    if e < t.len() && e + 1 <= SENTENCE_LIMIT {
        t.subrange(0, e + 1)
    } else if t.len() <= CUT_LIMIT {
        t
    } else {
        let u = t.subrange(0, CUT_LIMIT as int);
        let k = space_before(u, CUT_LIMIT as int);
        if k >= 0 {
            u.subrange(0, k) + ELLIPSIS@
        } else {
            u + ELLIPSIS@
        }
    }
}

proof fn lemma_stop_index(s: Seq<char>, i: int)
    requires
        0 <= i <= s.len(),
    ensures
        i <= stop_index(s, i) <= s.len(),
        stop_index(s, i) < s.len() ==> is_stop(s[stop_index(s, i)]),
        forall|j: int| i <= j < stop_index(s, i) ==> !is_stop(#[trigger] s[j]),
    decreases s.len() - i,
{
    if i < s.len() && !is_stop(s[i]) {
        lemma_stop_index(s, i + 1);
    }
}

proof fn lemma_space_before(s: Seq<char>, j: int)
    requires
        0 <= j <= s.len(),
    ensures
        -1 <= space_before(s, j) < j,
        space_before(s, j) >= 0 ==> s[space_before(s, j)] == ' ',
    decreases j,
{
    if j > 0 && s[j - 1] != ' ' {
        lemma_space_before(s, j - 1);
    }
}

/// When the trimmed message has a sentence terminator among its first
/// `SENTENCE_LIMIT` characters, the fallback is the text up to and including
/// the first terminator. When it has none there and is longer than
/// `CUT_LIMIT` characters, the fallback is at most its first `CUT_LIMIT`
/// characters, ending where a space follows (or at `CUT_LIMIT`), and an ellipsis.
pub proof fn lemma_truncation_fallback(m: Seq<char>)
    ensures
        ({
            let t = trimmed(m);
            let e = stop_index(t, 0);
            e < t.len() && e < SENTENCE_LIMIT ==> {
                &&& truncated(m) == t.subrange(0, e + 1)
                &&& is_stop(truncated(m).last())
                &&& forall|j: int| 0 <= j < e ==> !is_stop(#[trigger] t[j])
            }
        }),
        ({
            let t = trimmed(m);
            let e = stop_index(t, 0);
            !(e < t.len() && e < SENTENCE_LIMIT) && t.len() > CUT_LIMIT ==> exists|k: int|
                {
                    &&& 0 <= k <= CUT_LIMIT
                    &&& (k == CUT_LIMIT || t[k] == ' ')
                    &&& truncated(m) == #[trigger] t.subrange(0, k) + ELLIPSIS@
                }
        }),
{
    let t = trimmed(m);
    lemma_stop_index(t, 0);
    let e = stop_index(t, 0);
    if e < t.len() && e < SENTENCE_LIMIT {
        assert(truncated(m).last() == t[e]);
    } else if t.len() > CUT_LIMIT {
        let u = t.subrange(0, CUT_LIMIT as int);
        lemma_space_before(u, CUT_LIMIT as int);
        let k = space_before(u, CUT_LIMIT as int);
        if k >= 0 {
            assert(u.subrange(0, k) == t.subrange(0, k));
            assert(truncated(m) == t.subrange(0, k) + ELLIPSIS@);
            assert(t[k] == u[k]);
            assert(0 <= k <= CUT_LIMIT && t[k] == ' ');
        } else {
            assert(truncated(m) == t.subrange(0, CUT_LIMIT as int) + ELLIPSIS@);
            assert(0 <= CUT_LIMIT as int <= CUT_LIMIT);
        }
    }
}

/// Marker in a template where the agent's display name goes.
pub const NAME_MARK: char = '%';

/// `t` with every marker replaced by `name`.
pub open spec fn filled(t: Seq<char>, name: Seq<char>) -> Seq<char>
    decreases t.len(),
{
    if t.len() == 0 {
        Seq::empty()
    } else {
        let head = if t[0] == NAME_MARK {
            name
        } else {
            seq![t[0]]
        };
        head + filled(t.subrange(1, t.len() as int), name)
    }
}

/// A marker-free prefix passes through filling unchanged.
proof fn lemma_filled_prefix(s: Seq<char>, name: Seq<char>, k: int)
    requires
        0 <= k <= s.len(),
        forall|j: int| 0 <= j < k ==> s[j] != NAME_MARK,
    ensures
        filled(s, name) == s.subrange(0, k) + filled(s.subrange(k, s.len() as int), name),
    decreases k,
{
    if k == 0 {
        assert(s.subrange(0, s.len() as int) =~= s);
        assert(s.subrange(0, 0) + filled(s, name) =~= filled(s, name));
    } else {
        let s1 = s.subrange(1, s.len() as int);
        lemma_filled_prefix(s1, name, k - 1);
        assert(s1.subrange(k - 1, s1.len() as int) =~= s.subrange(k, s.len() as int));
        assert(seq![s[0]] + s1.subrange(0, k - 1) =~= s.subrange(0, k));
        assert(filled(s, name) == seq![s[0]] + filled(s1, name));
        assert(seq![s[0]] + (s1.subrange(0, k - 1) + filled(s.subrange(k, s.len() as int), name))
            =~= s.subrange(0, k) + filled(s.subrange(k, s.len() as int), name));
    }
}

/// `template` with every marker replaced by `name`.
pub fn fill_template(template: &str, name: &str) -> (r: String)
    ensures
        r@ == filled(template@, name@),
{
    let cs = chars_of(template);
    let n = cs.len();
    let mut out = String::new();
    let mut start: usize = 0;
    let mut i: usize = 0;
    proof {
        assert(cs@.subrange(0, n as int) =~= cs@);
        assert(out@ + filled(cs@, name@) =~= filled(cs@, name@));
    }
    while i < n
        invariant
            start <= i <= n == cs@.len(),
            cs@ == template@,
            out@ + filled(cs@.subrange(start as int, n as int), name@) == filled(cs@, name@),
            forall|j: int| start <= j < i ==> cs@[j] != NAME_MARK,
        decreases n - i,
    {
        if cs[i] == NAME_MARK {
            let ghost prev = out@;
            proof {
                let rest = cs@.subrange(start as int, n as int);
                lemma_filled_prefix(rest, name@, i - start);
                assert(rest.subrange(0, i - start) =~= cs@.subrange(start as int, i as int));
                assert(rest.subrange(i - start, rest.len() as int) =~= cs@.subrange(
                    i as int,
                    n as int,
                ));
                let tail = cs@.subrange(i as int, n as int);
                assert(tail.subrange(1, tail.len() as int) =~= cs@.subrange(i + 1, n as int));
                assert(filled(tail, name@) == name@ + filled(cs@.subrange(i + 1, n as int), name@));
            }
            out.append(template.substring_char(start, i));
            out.append(name);
            proof {
                let a = cs@.subrange(start as int, i as int);
                let b = filled(cs@.subrange(i + 1, n as int), name@);
                assert(out@ == prev + a + name@);
                assert(prev + (a + (name@ + b)) =~= out@ + b);
            }
            start = i + 1;
        }
        i = i + 1;
    }
    proof {
        let rest = cs@.subrange(start as int, n as int);
        lemma_filled_prefix(rest, name@, n - start);
        assert(rest.subrange(0, n - start) =~= rest);
        assert(rest.subrange(n - start, rest.len() as int) =~= Seq::<char>::empty());
    }
    out.append(template.substring_char(start, n));
    out
}

/// The characters of `s`, in order.
fn chars_of(s: &str) -> (r: Vec<char>)
    ensures
        r@ == s@,
{
    let n = s.unicode_len();
    let mut v: Vec<char> = Vec::new();
    let mut i: usize = 0;
    while i < n
        invariant
            i <= n == s@.len(),
            v@ == s@.subrange(0, i as int),
        decreases n - i,
    {
        v.push(s.get_char(i));
        i = i + 1;
        assert(v@ =~= s@.subrange(0, i as int));
    }
    assert(v@ =~= s@);
    v
}

pub fn is_space_char(c: char) -> (r: bool)
    ensures
        r == is_space(c),
{
    ('\u{9}' <= c && c <= '\u{d}') || c == ' ' || c == '\u{85}' || c == '\u{a0}'
        || c == '\u{1680}' || ('\u{2000}' <= c && c <= '\u{200a}') || c == '\u{2028}'
        || c == '\u{2029}' || c == '\u{202f}' || c == '\u{205f}' || c == '\u{3000}'
}

/// Bounds `(a, b)` of the trimmed part of `cs`.
fn trim_bounds(cs: &Vec<char>) -> (r: (usize, usize))
    ensures
        r.0 as int == skip_front(cs@, 0),
        r.1 as int == skip_back(cs@, r.0 as int, cs@.len() as int),
        r.0 <= r.1 <= cs@.len(),
{
    let n = cs.len();
    let mut a: usize = 0;
    while a < n && is_space_char(cs[a])
        invariant
            a <= n == cs@.len(),
            skip_front(cs@, 0) == skip_front(cs@, a as int),
        decreases n - a,
    {
        a = a + 1;
    }
    let mut b: usize = n;
    while b > a && is_space_char(cs[b - 1])
        invariant
            a <= b <= n == cs@.len(),
            skip_front(cs@, 0) == a,
            skip_back(cs@, a as int, n as int) == skip_back(cs@, a as int, b as int),
        decreases b,
    {
        b = b - 1;
    }
    (a, b)
}

/// `s` without leading and trailing whitespace.
pub fn trim_text(s: &str) -> (r: String)
    ensures
        r@ == trimmed(s@),
{
    let cs = chars_of(s);
    let (a, b) = trim_bounds(&cs);
    String::from_str(s.substring_char(a, b))
}

/// The deterministic local fallback for a summary.
pub fn truncate_message(message: &str) -> (r: String)
    ensures
        r@ == truncated(message@),
{
    let all = chars_of(message);
    let (a, b) = trim_bounds(&all);
    let t = message.substring_char(a, b);
    let cs = chars_of(t);
    let n = cs.len();
    let mut e: usize = 0;
    while e < n && !(cs[e] == '.' || cs[e] == '!' || cs[e] == '?')
        invariant
            e <= n == cs@.len(),
            stop_index(cs@, 0) == stop_index(cs@, e as int),
        decreases n - e,
    {
        e = e + 1;
    }
    if e < n && e + 1 <= SENTENCE_LIMIT {
        return String::from_str(t.substring_char(0, e + 1));
    }
    if n <= CUT_LIMIT {
        return String::from_str(t);
    }
    let mut k: usize = CUT_LIMIT;
    while k > 0 && cs[k - 1] != ' '
        invariant
            k <= CUT_LIMIT < n == cs@.len(),
            space_before(cs@.subrange(0, CUT_LIMIT as int), CUT_LIMIT as int)
                == space_before(cs@.subrange(0, CUT_LIMIT as int), k as int),
        decreases k,
    {
        k = k - 1;
    }
    let u = t.substring_char(0, CUT_LIMIT);
    proof {
        assert(u@ == cs@.subrange(0, CUT_LIMIT as int));
    }
    if k > 0 {
        String::from_str(u.substring_char(0, k - 1)).concat(ELLIPSIS)
    } else {
        String::from_str(u).concat(ELLIPSIS)
    }
}

} // verus!
