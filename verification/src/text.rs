//! Text helpers over `char` sequences: trimming, ordering, case-insensitive
//! comparison and decimal rendering.

use vstd::prelude::*;

verus! {

/// Whether `c` has the Unicode `White_Space` property, the test of
/// `char::is_whitespace`: tab, line feed, vertical tab, form feed, carriage
/// return, space, next line, no-break space, ogham space mark, the spaces
/// U+2000 to U+200A, line and paragraph separators, narrow no-break space,
/// medium mathematical space and ideographic space.
pub open spec fn unicode_white_space(c: char) -> bool {
    let u = c as u32;
    ||| 0x09 <= u <= 0x0d
    ||| u == 0x20
    ||| u == 0x85
    ||| u == 0xa0
    ||| u == 0x1680
    ||| 0x2000 <= u <= 0x200a
    ||| u == 0x2028
    ||| u == 0x2029
    ||| u == 0x202f
    ||| u == 0x205f
    ||| u == 0x3000
}

/// Whether `c` is white space, as `char::is_whitespace` decides it.
pub fn char_is_whitespace(c: char) -> (res: bool)
    ensures
        res == unicode_white_space(c),
{
    let u = c as u32;
    (0x09 <= u && u <= 0x0d) || u == 0x20 || u == 0x85 || u == 0xa0 || u == 0x1680 || (0x2000
        <= u && u <= 0x200a) || u == 0x2028 || u == 0x2029 || u == 0x202f || u == 0x205f || u
        == 0x3000
}

/// Calls `String::push`. Claimed: the character is appended at the end.
#[verifier::external_body]
pub(crate) fn push_char(s: &mut String, c: char)
    ensures
        final(s)@ == old(s)@.push(c),
{
    s.push(c)
}

/// Which characters a trim removes.
#[derive(Debug, Clone, Copy, PartialEq, Eq, Structural)]
pub enum Strip {
    /// Characters with the `White_Space` property (`str::trim`).
    WhiteSpace,
    /// Exactly this character (`str::trim_matches(c)`).
    Char(char),
}

pub open spec fn strips(kind: Strip, c: char) -> bool {
    match kind {
        Strip::WhiteSpace => unicode_white_space(c),
        Strip::Char(x) => c == x,
    }
}

fn is_stripped(kind: Strip, c: char) -> (res: bool)
    ensures
        res == strips(kind, c),
{
    match kind {
        Strip::WhiteSpace => char_is_whitespace(c),
        Strip::Char(x) => c == x,
    }
}

/// `s` without its leading characters of `kind`.
pub open spec fn strip_start(kind: Strip, s: Seq<char>) -> Seq<char>
    decreases s.len(),
{
    if s.len() > 0 && strips(kind, s[0]) {
        strip_start(kind, s.drop_first())
    } else {
        s
    }
}

/// `s` without its trailing characters of `kind`.
pub open spec fn strip_end(kind: Strip, s: Seq<char>) -> Seq<char>
    decreases s.len(),
{
    if s.len() > 0 && strips(kind, s.last()) {
        strip_end(kind, s.drop_last())
    } else {
        s
    }
}

/// `s` without its leading and trailing characters of `kind`.
pub open spec fn strip_both(kind: Strip, s: Seq<char>) -> Seq<char> {
    strip_end(kind, strip_start(kind, s))
}

/// What `str::trim` gives back: `s` without leading and trailing white space.
pub open spec fn trimmed(s: Seq<char>) -> Seq<char> {
    strip_both(Strip::WhiteSpace, s)
}

/// Removes the leading and trailing characters of `kind` from `s`.
pub fn strip(s: &str, kind: Strip) -> (res: &str)
    ensures
        res@ == strip_both(kind, s@),
{
    let n = s.unicode_len();
    let mut i: usize = 0;
    assert(s@.subrange(0, n as int) =~= s@);
    while i < n && is_stripped(kind, s.get_char(i))
        invariant
            n == s@.len(),
            0 <= i <= n,
            strip_start(kind, s@) == strip_start(kind, s@.subrange(i as int, n as int)),
        decreases n - i,
    {
        assert(s@.subrange(i as int, n as int).drop_first() =~= s@.subrange(i + 1, n as int));
        i = i + 1;
    }
    proof {
        if i == n {
            assert(s@.subrange(i as int, n as int).len() == 0);
        }
    }
    let ghost mid = s@.subrange(i as int, n as int);
    assert(strip_start(kind, s@) == mid);
    let mut j: usize = n;
    while j > i && is_stripped(kind, s.get_char(j - 1))
        invariant
            n == s@.len(),
            0 <= i <= j <= n,
            mid == s@.subrange(i as int, n as int),
            strip_end(kind, mid) == strip_end(kind, s@.subrange(i as int, j as int)),
        decreases j - i,
    {
        assert(s@.subrange(i as int, j as int).drop_last() =~= s@.subrange(i as int, j - 1));
        j = j - 1;
    }
    s.substring_char(i, j)
}

/// `str::trim`: removes leading and trailing white space.
pub fn trim(s: &str) -> (res: &str)
    ensures
        res@ == trimmed(s@),
{
    strip(s, Strip::WhiteSpace)
}

/// `strip_start` only ever drops characters from the front.
pub proof fn lemma_strip_start_suffix(kind: Strip, s: Seq<char>)
    ensures
        strip_start(kind, s).len() <= s.len(),
        strip_start(kind, s) =~= s.subrange(s.len() - strip_start(kind, s).len(), s.len() as int),
        strip_start(kind, s).len() > 0 ==> !strips(kind, strip_start(kind, s)[0]),
    decreases s.len(),
{
    if s.len() > 0 && strips(kind, s[0]) {
        lemma_strip_start_suffix(kind, s.drop_first());
    }
}

/// `strip_end` only ever drops characters from the back.
pub proof fn lemma_strip_end_prefix(kind: Strip, s: Seq<char>)
    ensures
        strip_end(kind, s).len() <= s.len(),
        strip_end(kind, s) =~= s.subrange(0, strip_end(kind, s).len() as int),
        strip_end(kind, s).len() > 0 ==> !strips(kind, strip_end(kind, s).last()),
    decreases s.len(),
{
    if s.len() > 0 && strips(kind, s.last()) {
        lemma_strip_end_prefix(kind, s.drop_last());
    }
}

/// A trimmed text neither starts nor ends with a character of `kind`, and
/// trimming it again changes nothing.
pub proof fn law_strip_is_idempotent(kind: Strip, s: Seq<char>)
    ensures
        strip_both(kind, strip_both(kind, s)) == strip_both(kind, s),
        strip_both(kind, s).len() > 0 ==> !strips(kind, strip_both(kind, s)[0]),
        strip_both(kind, s).len() > 0 ==> !strips(kind, strip_both(kind, s).last()),
{
    let a = strip_start(kind, s);
    let t = strip_end(kind, a);
    lemma_strip_start_suffix(kind, s);
    lemma_strip_end_prefix(kind, a);
    if t.len() > 0 {
        assert(t[0] == a[0]);
        assert(!strips(kind, t[0]));
        assert(strip_start(kind, t) == t);
        assert(strip_end(kind, t) == t);
    } else {
        assert(strip_start(kind, t) == t);
        assert(strip_end(kind, t) == t);
    }
}

/// Lexicographic order of code points: the order in which `str` values
/// compare, since UTF-8 keeps the order of code points byte by byte.
pub open spec fn text_lt(a: Seq<char>, b: Seq<char>) -> bool
    decreases a.len(),
{
    if a.len() == 0 {
        b.len() > 0
    } else if b.len() == 0 {
        false
    } else if a[0] != b[0] {
        (a[0] as int) < (b[0] as int)
    } else {
        text_lt(a.drop_first(), b.drop_first())
    }
}

/// No text comes before itself.
pub proof fn lemma_text_lt_irreflexive(a: Seq<char>)
    ensures
        !text_lt(a, a),
    decreases a.len(),
{
    if a.len() > 0 {
        lemma_text_lt_irreflexive(a.drop_first());
    }
}

/// The order is transitive.
pub proof fn lemma_text_lt_transitive(a: Seq<char>, b: Seq<char>, c: Seq<char>)
    requires
        text_lt(a, b),
        text_lt(b, c),
    ensures
        text_lt(a, c),
    decreases a.len(),
{
    if a.len() > 0 && b.len() > 0 && c.len() > 0 && a[0] == b[0] && b[0] == c[0] {
        lemma_text_lt_transitive(a.drop_first(), b.drop_first(), c.drop_first());
    }
}

/// Of two different texts, one comes before the other.
pub proof fn lemma_text_lt_total(a: Seq<char>, b: Seq<char>)
    requires
        a != b,
    ensures
        text_lt(a, b) || text_lt(b, a),
    decreases a.len(),
{
    if a.len() == 0 && b.len() == 0 {
        assert(a =~= b);
    } else if a.len() > 0 && b.len() > 0 && a[0] == b[0] {
        if a.drop_first() == b.drop_first() {
            assert(a.drop_first().len() == a.len() - 1);
            assert(b.drop_first().len() == b.len() - 1);
            assert(a.len() == b.len());
            assert(a =~= b) by {
                assert forall|i: int| 0 <= i < a.len() implies a[i] == b[i] by {
                    if i > 0 {
                        assert(a[i] == a.drop_first()[i - 1]);
                        assert(b[i] == b.drop_first()[i - 1]);
                    }
                }
            }
        }
        lemma_text_lt_total(a.drop_first(), b.drop_first());
    } else if a.len() > 0 && b.len() > 0 {
        assert((a[0] as int) != (b[0] as int));
    }
}

/// Of two texts, at most one comes before the other.
pub proof fn lemma_text_lt_asymmetric(a: Seq<char>, b: Seq<char>)
    requires
        text_lt(a, b),
    ensures
        !text_lt(b, a),
{
    if text_lt(b, a) {
        lemma_text_lt_transitive(a, b, a);
        lemma_text_lt_irreflexive(a);
    }
}

proof fn lemma_text_lt_skip_step(a: Seq<char>, b: Seq<char>, k: int)
    requires
        0 <= k < a.len(),
        k < b.len(),
        a[k] == b[k],
    ensures
        text_lt(a.skip(k), b.skip(k)) == text_lt(a.skip(k + 1), b.skip(k + 1)),
{
    assert(a.skip(k).drop_first() =~= a.skip(k + 1));
    assert(b.skip(k).drop_first() =~= b.skip(k + 1));
    assert(a.skip(k)[0] == a[k]);
    assert(b.skip(k)[0] == b[k]);
}

/// Whether `a` comes before `b` in code point order.
pub fn text_less(a: &str, b: &str) -> (res: bool)
    ensures
        res == text_lt(a@, b@),
{
    let n = a.unicode_len();
    let m = b.unicode_len();
    let mut k: usize = 0;
    assert(a@.skip(0) =~= a@);
    assert(b@.skip(0) =~= b@);
    while k < n && k < m
        invariant
            n == a@.len(),
            m == b@.len(),
            0 <= k <= n,
            k <= m,
            text_lt(a@, b@) == text_lt(a@.skip(k as int), b@.skip(k as int)),
        decreases n - k,
    {
        let x = a.get_char(k);
        let y = b.get_char(k);
        if x != y {
            assert(a@.skip(k as int)[0] == x);
            assert(b@.skip(k as int)[0] == y);
            return (x as u32) < (y as u32);
        }
        proof {
            lemma_text_lt_skip_step(a@, b@, k as int);
        }
        k = k + 1;
    }
    assert(a@.skip(k as int).len() == n - k);
    assert(b@.skip(k as int).len() == m - k);
    k < m
}

proof fn lemma_texts_insert(v: Seq<String>, j: int, s: String)
    requires
        0 <= j <= v.len(),
    ensures
        texts(v.insert(j, s)) =~= texts(v).insert(j, s@),
{
    assert forall|k: int| 0 <= k < v.len() + 1 implies texts(v.insert(j, s))[k] == texts(v).insert(
        j,
        s@,
    )[k] by {
        if k < j {
        } else if k == j {
        } else {
        }
    }
}

/// Whether `a` and `b` hold the same characters.
pub fn same_text(a: &str, b: &str) -> (res: bool)
    ensures
        res == (a@ == b@),
{
    let n = a.unicode_len();
    let m = b.unicode_len();
    if n != m {
        return false;
    }
    let mut k: usize = 0;
    while k < n
        invariant
            n == a@.len(),
            m == b@.len(),
            n == m,
            0 <= k <= n,
            forall|i: int| 0 <= i < k ==> a@[i] == b@[i],
        decreases n - k,
    {
        if a.get_char(k) != b.get_char(k) {
            return false;
        }
        k = k + 1;
    }
    assert(a@ =~= b@);
    true
}

/// The views of a list of strings.
pub open spec fn texts(v: Seq<String>) -> Seq<Seq<char>> {
    v.map_values(|s: String| s@)
}

/// Each text comes strictly before every later one.
pub open spec fn strictly_ascending(v: Seq<Seq<char>>) -> bool {
    forall|i: int, j: int| 0 <= i < j < v.len() ==> text_lt(#[trigger] v[i], #[trigger] v[j])
}

/// The names sorted in code point order with duplicates removed, as
/// `sort` followed by `dedup` leaves them.
pub fn sorted_unique(names: &Vec<String>) -> (res: Vec<String>)
    ensures
        strictly_ascending(texts(res@)),
        forall|t: Seq<char>| texts(res@).contains(t) <==> texts(names@).contains(t),
{
    let mut out: Vec<String> = Vec::new();
    let mut i: usize = 0;
    while i < names.len()
        invariant
            0 <= i <= names.len(),
            strictly_ascending(texts(out@)),
            forall|t: Seq<char>|
                texts(out@).contains(t) <==> texts(names@.subrange(0, i as int)).contains(t),
        decreases names.len() - i,
    {
        let name = &names[i];
        let ghost before = texts(out@);
        let ghost old_out = out@;
        assert(forall|t: Seq<char>|
            before.contains(t) <==> texts(names@.subrange(0, i as int)).contains(t));
        let mut j: usize = 0;
        while j < out.len() && text_less(out[j].as_str(), name.as_str())
            invariant
                0 <= j <= out.len(),
                before == texts(out@),
                forall|k: int| 0 <= k < j ==> text_lt(#[trigger] before[k], name@),
            decreases out.len() - j,
        {
            j = j + 1;
        }
        let present = j < out.len() && same_text(out[j].as_str(), name.as_str());
        if !present {
            proof {
                if j < out.len() {
                    lemma_text_lt_total(before[j as int], name@);
                    assert(text_lt(name@, before[j as int]));
                    assert forall|k: int| j <= k < before.len() implies text_lt(
                        name@,
                        #[trigger] before[k],
                    ) by {
                        if k > j {
                            lemma_text_lt_transitive(name@, before[j as int], before[k]);
                        }
                    }
                }
            }
            out.insert(j, name.clone());
            proof {
                lemma_texts_insert(old_out, j as int, *name);
                let after = texts(out@);
                assert(after =~= before.insert(j as int, name@));
                assert forall|a: int, b: int| 0 <= a < b < after.len() implies text_lt(
                    #[trigger] after[a],
                    #[trigger] after[b],
                ) by {
                    if b < j {
                    } else if a < j && b == j {
                    } else if a < j {
                        assert(after[b] == before[b - 1]);
                        if a < j as int {
                            assert(text_lt(before[a], name@));
                            lemma_text_lt_transitive(before[a], name@, before[j as int]);
                            if b - 1 > j {
                                lemma_text_lt_transitive(before[a], before[j as int], before[b - 1]);
                            }
                        }
                    } else if a == j {
                        assert(after[b] == before[b - 1]);
                    } else {
                        assert(after[a] == before[a - 1]);
                        assert(after[b] == before[b - 1]);
                    }
                }
            }
        }
        proof {
            let seen = texts(names@.subrange(0, i as int));
            let seen2 = texts(names@.subrange(0, i + 1));
            assert(seen2 =~= seen.push(name@));
            assert forall|t: Seq<char>| texts(out@).contains(t) <==> seen2.contains(t) by {
                if texts(out@).contains(t) {
                    let k = choose|k: int| 0 <= k < texts(out@).len() && texts(out@)[k] == t;
                    if !present {
                        assert(texts(out@) =~= before.insert(j as int, name@));
                        if k < j {
                            assert(before[k] == t);
                            assert(before.contains(t));
                        } else if k > j {
                            assert(before[k - 1] == t);
                            assert(before.contains(t));
                        } else {
                            assert(seen2[i as int] == t);
                        }
                    }
                    if before.contains(t) {
                        let m = choose|m: int| 0 <= m < seen.len() && seen[m] == t;
                        assert(seen2[m] == t);
                    }
                }
                if seen2.contains(t) {
                    let m = choose|m: int| 0 <= m < seen2.len() && seen2[m] == t;
                    if m < i {
                        assert(seen[m] == t);
                        assert(seen.contains(t));
                        assert(before.contains(t));
                        let k = choose|k: int| 0 <= k < before.len() && before[k] == t;
                        if !present {
                            assert(texts(out@) =~= before.insert(j as int, name@));
                            if k < j {
                                assert(texts(out@)[k] == t);
                            } else {
                                assert(texts(out@)[k + 1] == t);
                            }
                        } else {
                            assert(texts(out@)[k] == t);
                        }
                    } else {
                        assert(t == name@);
                        if present {
                            assert(texts(out@)[j as int] == t);
                        } else {
                            assert(texts(out@)[j as int] == t);
                        }
                    }
                }
            }
        }
        i = i + 1;
    }
    assert(names@.subrange(0, names@.len() as int) =~= names@);
    out
}

/// The ASCII lowercase form of `c`; other characters stay as they are.
pub open spec fn ascii_lower(c: char) -> char {
    if 'A' <= c <= 'Z' {
        ((c as u32) + 32) as char
    } else {
        c
    }
}

fn to_ascii_lower(c: char) -> (res: char)
    ensures
        res == ascii_lower(c),
{
    if 'A' <= c && c <= 'Z' {
        ((c as u8) + 32) as char
    } else {
        c
    }
}

/// Whether `a` and `b` are equal when ASCII letters are compared without case.
pub open spec fn eq_ignore_ascii_case(a: Seq<char>, b: Seq<char>) -> bool {
    &&& a.len() == b.len()
    &&& forall|i: int| 0 <= i < a.len() ==> ascii_lower(#[trigger] a[i]) == ascii_lower(b[i])
}

/// `str::eq_ignore_ascii_case`.
pub fn same_text_ignore_ascii_case(a: &str, b: &str) -> (res: bool)
    ensures
        res == eq_ignore_ascii_case(a@, b@),
{
    let n = a.unicode_len();
    let m = b.unicode_len();
    if n != m {
        return false;
    }
    let mut k: usize = 0;
    while k < n
        invariant
            n == a@.len(),
            m == b@.len(),
            n == m,
            0 <= k <= n,
            forall|i: int| 0 <= i < k ==> ascii_lower(#[trigger] a@[i]) == ascii_lower(b@[i]),
        decreases n - k,
    {
        if to_ascii_lower(a.get_char(k)) != to_ascii_lower(b.get_char(k)) {
            return false;
        }
        k = k + 1;
    }
    true
}

/// The decimal digit character for `d < 10`.
pub open spec fn digit_char(d: nat) -> char {
    (('0' as nat) + d) as char
}

/// The decimal rendering of `n`, without sign or leading zeros.
pub open spec fn decimal(n: nat) -> Seq<char>
    decreases n,
{
    if n < 10 {
        seq![digit_char(n)]
    } else {
        decimal(n / 10).push(digit_char(n % 10))
    }
}

/// Renders `n` in decimal, as `n.to_string()` does.
pub fn decimal_text(n: u64) -> (res: String)
    ensures
        res@ == decimal(n as nat),
    decreases n,
{
    if n < 10 {
        let mut s = String::new();
        push_char(&mut s, (('0' as u8) + (n as u8)) as char);
        assert(s@ =~= seq![digit_char(n as nat)]);
        s
    } else {
        let mut s = decimal_text(n / 10);
        push_char(&mut s, (('0' as u8) + ((n % 10) as u8)) as char);
        s
    }
}

proof fn lemma_ascending_tail_contains(x: Seq<Seq<char>>, t: Seq<char>)
    requires
        strictly_ascending(x),
        x.len() > 0,
    ensures
        x.drop_first().contains(t) <==> (x.contains(t) && t != x[0]),
{
    if x.drop_first().contains(t) {
        let k = choose|k: int| 0 <= k < x.drop_first().len() && x.drop_first()[k] == t;
        assert(x[k + 1] == t);
        assert(text_lt(x[0], x[k + 1]));
        lemma_text_lt_irreflexive(x[0]);
    }
    if x.contains(t) && t != x[0] {
        let k = choose|k: int| 0 <= k < x.len() && x[k] == t;
        assert(k != 0);
        assert(x.drop_first()[k - 1] == t);
    }
}

/// Two strictly ascending lists with the same texts are the same list: a
/// sorted, duplicate-free list depends only on the set of its texts.
pub proof fn law_ascending_lists_are_canonical(x: Seq<Seq<char>>, y: Seq<Seq<char>>)
    requires
        strictly_ascending(x),
        strictly_ascending(y),
        forall|t: Seq<char>| x.contains(t) <==> y.contains(t),
    ensures
        x == y,
    decreases x.len(),
{
    if x.len() == 0 {
        if y.len() > 0 {
            assert(y.contains(y[0]));
        }
        assert(x =~= y);
    } else {
        assert(x.contains(x[0]));
        if y.len() == 0 {
            assert(false);
        }
        assert(y.contains(y[0]));
        let j = choose|j: int| 0 <= j < y.len() && y[j] == x[0];
        let i = choose|i: int| 0 <= i < x.len() && x[i] == y[0];
        if j > 0 {
            assert(text_lt(y[0], y[j]));
            if i > 0 {
                assert(text_lt(x[0], x[i]));
                lemma_text_lt_transitive(y[0], x[0], x[i]);
            }
            lemma_text_lt_irreflexive(y[0]);
            assert(false);
        }
        assert(x[0] == y[0]);
        let xt = x.drop_first();
        let yt = y.drop_first();
        assert forall|t: Seq<char>| xt.contains(t) <==> yt.contains(t) by {
            lemma_ascending_tail_contains(x, t);
            lemma_ascending_tail_contains(y, t);
        }
        assert(strictly_ascending(xt)) by {
            assert forall|a: int, b: int| 0 <= a < b < xt.len() implies text_lt(#[trigger] xt[a], #[trigger] xt[b]) by {
                assert(xt[a] == x[a + 1]);
                assert(xt[b] == x[b + 1]);
            }
        }
        assert(strictly_ascending(yt)) by {
            assert forall|a: int, b: int| 0 <= a < b < yt.len() implies text_lt(#[trigger] yt[a], #[trigger] yt[b]) by {
                assert(yt[a] == y[a + 1]);
                assert(yt[b] == y[b + 1]);
            }
        }
        law_ascending_lists_are_canonical(xt, yt);
        assert(x =~= y) by {
            assert forall|k: int| 0 <= k < x.len() implies x[k] == y[k] by {
                if k > 0 {
                    assert(x[k] == xt[k - 1]);
                    assert(y[k] == yt[k - 1]);
                }
            }
        }
    }
}

} // verus!
