//! Character-level text operations used by command parsing and command rewriting.
//!
//! Every operation is specified over the character sequence (`Seq<char>`) of its arguments.
use vstd::prelude::*;

verus! {

broadcast use vstd::string::group_string_axioms;

// ---------------------------------------------------------------------------------------------
// Specifications
// ---------------------------------------------------------------------------------------------

/// The Unicode `White_Space` property, the set that `char::is_whitespace` tests.
pub open spec fn is_ws(c: char) -> bool {
    let u = c as u32;
    ||| 0x09 <= u <= 0x0D
    ||| u == 0x20
    ||| u == 0x85
    ||| u == 0xA0
    ||| u == 0x1680
    ||| 0x2000 <= u <= 0x200A
    ||| u == 0x2028
    ||| u == 0x2029
    ||| u == 0x202F
    ||| u == 0x205F
    ||| u == 0x3000
}

/// The maximal runs of non-whitespace characters of `s`, from left to right.
pub open spec fn words(s: Seq<char>) -> Seq<Seq<char>>
    decreases s.len(),
{
    if s.len() == 0 {
        seq![]
    } else {
        let r = s.drop_last();
        let c = s.last();
        let w = words(r);
        if is_ws(c) {
            w
        } else if r.len() > 0 && !is_ws(r.last()) {
            w.update(w.len() - 1, w.last().push(c))
        } else {
            w.push(seq![c])
        }
    }
}

/// `s` begins with `p`.
pub open spec fn has_prefix(s: Seq<char>, p: Seq<char>) -> bool {
    p.len() <= s.len() && s.take(p.len() as int) == p
}

/// `s` ends with `p`.
pub open spec fn has_suffix(s: Seq<char>, p: Seq<char>) -> bool {
    p.len() <= s.len() && s.skip(s.len() - p.len()) == p
}

/// `p` occurs in `s` starting at position `i`.
pub open spec fn occurs_at(s: Seq<char>, p: Seq<char>, i: int) -> bool {
    0 <= i && i + p.len() <= s.len() && s.subrange(i, i + p.len()) == p
}

/// `p` occurs somewhere in `s`.
pub open spec fn contains(s: Seq<char>, p: Seq<char>) -> bool {
    exists|i: int| occurs_at(s, p, i)
}

/// `s` with every occurrence of `p`, taken from left to right without overlap, replaced by `r`.
pub open spec fn replace_all(s: Seq<char>, p: Seq<char>, r: Seq<char>) -> Seq<char>
    decreases s.len(),
{
    if p.len() == 0 || s.len() < p.len() {
        s
    } else if s.take(p.len() as int) == p {
        r + replace_all(s.skip(p.len() as int), p, r)
    } else {
        seq![s[0]] + replace_all(s.drop_first(), p, r)
    }
}

/// `s` without its leading copies of `c`.
pub open spec fn trim_start_char(s: Seq<char>, c: char) -> Seq<char>
    decreases s.len(),
{
    if s.len() > 0 && s[0] == c {
        trim_start_char(s.drop_first(), c)
    } else {
        s
    }
}

/// `s` without its leading whitespace.
pub open spec fn trim_start(s: Seq<char>) -> Seq<char>
    decreases s.len(),
{
    if s.len() > 0 && is_ws(s[0]) {
        trim_start(s.drop_first())
    } else {
        s
    }
}

/// `s` without its trailing whitespace.
pub open spec fn trim_end(s: Seq<char>) -> Seq<char>
    decreases s.len(),
{
    if s.len() > 0 && is_ws(s.last()) {
        trim_end(s.drop_last())
    } else {
        s
    }
}

/// `s` without its leading and trailing whitespace.
pub open spec fn trim(s: Seq<char>) -> Seq<char> {
    trim_end(trim_start(s))
}

/// `c` is an ASCII decimal digit.
pub open spec fn is_digit(c: char) -> bool {
    '0' <= c <= '9'
}

/// Every character of `d` is an ASCII decimal digit.
pub open spec fn all_digits(d: Seq<char>) -> bool {
    forall|i: int| 0 <= i < d.len() ==> is_digit(#[trigger] d[i])
}

/// The number that the decimal digits `d` denote.
pub open spec fn digits_value(d: Seq<char>) -> int
    decreases d.len(),
{
    if d.len() == 0 {
        0
    } else {
        digits_value(d.drop_last()) * 10 + (d.last() as int - '0' as int)
    }
}

/// The result of parsing `s` as an `i32` in base 10: an optional `+` or `-` sign, then one or
/// more ASCII digits, with a value that fits in an `i32`.
pub open spec fn parse_i32(s: Seq<char>) -> Option<i32> {
    let neg = s.len() > 0 && s[0] == '-';
    let d = if s.len() > 0 && (s[0] == '+' || s[0] == '-') { s.drop_first() } else { s };
    let v = if neg { -digits_value(d) } else { digits_value(d) };
    if d.len() > 0 && all_digits(d) && i32::MIN <= v <= i32::MAX {
        Some(v as i32)
    } else {
        None
    }
}

/// The result of parsing `s` as a `u64` in base 10: an optional `+` sign, then one or more ASCII
/// digits, with a value that fits in a `u64`.
pub open spec fn parse_u64(s: Seq<char>) -> Option<u64> {
    let d = if s.len() > 0 && s[0] == '+' { s.drop_first() } else { s };
    if d.len() > 0 && all_digits(d) && digits_value(d) <= u64::MAX {
        Some(digits_value(d) as u64)
    } else {
        None
    }
}

// ---------------------------------------------------------------------------------------------
// Lemmas
// ---------------------------------------------------------------------------------------------

/// The value of a digit string grows when digits are appended.
proof fn lemma_digits_value_prefix(d: Seq<char>, k: int)
    requires
        all_digits(d),
        0 <= k <= d.len(),
    ensures
        0 <= digits_value(d.take(k)) <= digits_value(d),
    decreases d.len(),
{
    if d.len() == 0 {
        assert(d.take(k) =~= d);
    } else if k == d.len() {
        assert(d.take(k) =~= d);
        lemma_digits_value_prefix(d.drop_last(), k - 1);
        assert(d.drop_last().take(k - 1) =~= d.drop_last());
    } else {
        lemma_digits_value_prefix(d.drop_last(), k);
        assert(d.drop_last().take(k) =~= d.take(k));
        assert(is_digit(d[d.len() - 1]));
    }
}

/// `w` has no whitespace.
pub open spec fn no_ws(w: Seq<char>) -> bool {
    forall|j: int| 0 <= j < w.len() ==> !is_ws(#[trigger] w[j])
}

/// Text in which the pattern does not occur comes out of a replacement unchanged.
pub proof fn lemma_replace_without_match(s: Seq<char>, p: Seq<char>, r: Seq<char>)
    requires
        !contains(s, p),
    ensures
        replace_all(s, p, r) == s,
    decreases s.len(),
{
    if p.len() > 0 && s.len() >= p.len() {
        assert(!occurs_at(s, p, 0));
        assert(s.subrange(0, p.len() as int) =~= s.take(p.len() as int));
        let t = s.drop_first();
        assert forall|i: int| !occurs_at(t, p, i) by {
            if occurs_at(t, p, i) {
                assert(s.subrange(i + 1, i + 1 + p.len()) =~= t.subrange(i, i + p.len()));
                assert(occurs_at(s, p, i + 1));
            }
        }
        lemma_replace_without_match(t, p, r);
        assert(seq![s[0]] + t =~= s);
    }
}

/// Text that ends with a non-whitespace character has at least one word.
proof fn lemma_words_nonempty(s: Seq<char>)
    requires
        s.len() > 0,
        !is_ws(s.last()),
    ensures
        words(s).len() > 0,
    decreases s.len(),
{
    let r = s.drop_last();
    if r.len() > 0 && !is_ws(r.last()) {
        lemma_words_nonempty(r);
    }
}

/// Every word is non-empty and holds no whitespace.
pub proof fn lemma_words_are_words(s: Seq<char>)
    ensures
        forall|i: int|
            0 <= i < words(s).len() ==> #[trigger] words(s)[i].len() > 0 && no_ws(words(s)[i]),
    decreases s.len(),
{
    if s.len() > 0 {
        let r = s.drop_last();
        let c = s.last();
        let w = words(r);
        lemma_words_are_words(r);
        if is_ws(c) {
        } else if r.len() > 0 && !is_ws(r.last()) {
            lemma_words_nonempty(r);
            let last = w.last().push(c);
            assert(no_ws(last)) by {
                assert forall|j: int| 0 <= j < last.len() implies !is_ws(#[trigger] last[j]) by {
                    if j < w.last().len() {
                        assert(last[j] == w[w.len() - 1][j]);
                    }
                }
            }
            assert forall|i: int|
                0 <= i < words(s).len() implies #[trigger] words(s)[i].len() > 0 && no_ws(
                words(s)[i],
            ) by {
                if i < w.len() - 1 {
                    assert(words(s)[i] == w[i]);
                }
            }
        } else {
            assert(no_ws(seq![c]));
            assert forall|i: int|
                0 <= i < words(s).len() implies #[trigger] words(s)[i].len() > 0 && no_ws(
                words(s)[i],
            ) by {
                if i < w.len() {
                    assert(words(s)[i] == w[i]);
                }
            }
        }
    }
}

/// A word written after text that is empty or ends in whitespace becomes the last word.
pub proof fn lemma_words_append_word(a: Seq<char>, w: Seq<char>)
    requires
        a.len() == 0 || is_ws(a.last()),
        w.len() > 0,
        no_ws(w),
    ensures
        words(a + w) == words(a).push(w),
    decreases w.len(),
{
    let s = a + w;
    assert(s.drop_last() =~= a + w.drop_last());
    assert(s.last() == w.last());
    if w.len() == 1 {
        assert(a + w.drop_last() =~= a);
        assert(w =~= seq![w.last()]);
    } else {
        lemma_words_append_word(a, w.drop_last());
        assert((a + w.drop_last()).last() == w.drop_last().last());
        let prev = words(a).push(w.drop_last());
        assert(w.drop_last().push(w.last()) =~= w);
        assert(prev.last().push(w.last()) == w);
        assert(prev.update(prev.len() - 1, w) =~= words(a).push(w));
    }
}

/// Whitespace written after text leaves its words unchanged.
pub proof fn lemma_words_append_ws(a: Seq<char>, c: char)
    requires
        is_ws(c),
    ensures
        words(a.push(c)) == words(a),
{
    assert(a.push(c).drop_last() =~= a);
}

// ---------------------------------------------------------------------------------------------
// Executable operations
// ---------------------------------------------------------------------------------------------

/// Appends one character to a string.
#[verifier::external_body]
fn push_char(s: &mut String, c: char)
    ensures
        final(s)@ == old(s)@.push(c),
{
    s.push(c);
}

/// The characters of `s`, in order.
pub fn chars_of(s: &str) -> (out: Vec<char>)
    ensures
        out@ == s@,
{
    let mut out: Vec<char> = Vec::new();
    for c in it: s.chars()
        invariant
            out@ == it.seq().take(it.index() as int),
            it.seq() == s@,
    {
        out.push(c);
    }
    out
}

/// The string made of the characters `cs`, in order.
pub fn string_of(cs: &[char]) -> (out: String)
    ensures
        out@ == cs@,
{
    let mut out = String::new();
    let mut i: usize = 0;
    while i < cs.len()
        invariant
            i <= cs@.len(),
            out@ == cs@.take(i as int),
        decreases cs@.len() - i,
    {
        push_char(&mut out, cs[i]);
        assert(cs@.take(i as int).push(cs@[i as int]) =~= cs@.take(i + 1));
        i = i + 1;
    }
    assert(cs@.take(cs@.len() as int) =~= cs@);
    out
}

/// Whether `c` is whitespace, as `char::is_whitespace` decides it.
pub fn is_whitespace(c: char) -> (b: bool)
    ensures
        b == is_ws(c),
{
    let u = c as u32;
    (0x09 <= u && u <= 0x0D) || u == 0x20 || u == 0x85 || u == 0xA0 || u == 0x1680 || (0x2000 <= u
        && u <= 0x200A) || u == 0x2028 || u == 0x2029 || u == 0x202F || u == 0x205F || u == 0x3000
}

/// Whether `p` occurs in `s` at position `i`.
pub fn occurs_at_exec(s: &[char], p: &[char], i: usize) -> (b: bool)
    ensures
        b == occurs_at(s@, p@, i as int),
{
    if i > s.len() || p.len() > s.len() - i {
        return false;
    }
    let mut k: usize = 0;
    while k < p.len()
        invariant
            i + p@.len() <= s@.len(),
            s@.len() == s.len(),
            k <= p@.len(),
            forall|j: int| 0 <= j < k ==> s@[i + j] == p@[j],
        decreases p@.len() - k,
    {
        if s[i + k] != p[k] {
            assert(s@.subrange(i as int, i + p@.len())[k as int] != p@[k as int]);
            return false;
        }
        k = k + 1;
    }
    assert(s@.subrange(i as int, i + p@.len()) =~= p@);
    true
}

/// The whitespace-separated words of `s`, as `str::split_whitespace` yields them.
pub fn split_words(s: &str) -> (out: Vec<String>)
    ensures
        out@.map_values(|w: String| w@) == words(s@),
{
    let cs = chars_of(s);
    let mut out: Vec<String> = Vec::new();
    let mut cur: Vec<char> = Vec::new();
    let mut i: usize = 0;
    while i < cs.len()
        invariant
            cs@ == s@,
            i <= cs@.len(),
            words(cs@.take(i as int)) == if cur@.len() > 0 {
                out@.map_values(|w: String| w@).push(cur@)
            } else {
                out@.map_values(|w: String| w@)
            },
            cur@.len() > 0 <==> (i > 0 && !is_ws(cs@[i - 1])),
        decreases cs@.len() - i,
    {
        let c = cs[i];
        let ghost before = cs@.take(i as int);
        assert(cs@.take(i + 1).drop_last() =~= before);
        assert(cs@.take(i + 1).last() == c);
        let ghost old_out = out@.map_values(|w: String| w@);
        let ghost nxt = cs@.take(i + 1);
        assert(nxt.len() > 0);
        if is_whitespace(c) {
            assert(words(nxt) == words(before));
            if cur.len() > 0 {
                let w = string_of(&cur);
                out.push(w);
                assert(out@.map_values(|w: String| w@) =~= old_out.push(cur@));
                cur = Vec::new();
            }
        } else {
            if cur.len() > 0 {
                assert(before.last() == cs@[i - 1]);
                let ghost w = old_out.push(cur@);
                assert(w.update(w.len() - 1, w.last().push(c)) =~= old_out.push(cur@.push(c)));
                cur.push(c);
                assert(words(nxt) == old_out.push(cur@));
            } else {
                assert(i == 0 || is_ws(before.last()));
                cur.push(c);
                assert(cur@ =~= seq![c]);
                assert(words(nxt) == old_out.push(cur@));
            }
        }
        assert(words(cs@.take(i + 1)) == if cur@.len() > 0 {
            out@.map_values(|w: String| w@).push(cur@)
        } else {
            out@.map_values(|w: String| w@)
        });
        i = i + 1;
    }
    if cur.len() > 0 {
        let ghost old_out = out@.map_values(|w: String| w@);
        let w = string_of(&cur);
        out.push(w);
        assert(out@.map_values(|w: String| w@) =~= old_out.push(cur@));
    }
    assert(cs@.take(cs@.len() as int) =~= cs@);
    out
}

/// The characters of `s` from position `from` to position `to`.
pub fn slice_chars(s: &[char], from: usize, to: usize) -> (out: Vec<char>)
    requires
        from <= to <= s@.len(),
    ensures
        out@ == s@.subrange(from as int, to as int),
{
    let mut out: Vec<char> = Vec::new();
    let mut i = from;
    while i < to
        invariant
            from <= i <= to <= s@.len(),
            out@ == s@.subrange(from as int, i as int),
        decreases to - i,
    {
        out.push(s[i]);
        assert(s@.subrange(from as int, i as int).push(s@[i as int]) =~= s@.subrange(
            from as int,
            i + 1,
        ));
        i = i + 1;
    }
    out
}

/// Whether `s` begins with `p`, as `str::starts_with` decides it.
pub fn starts_with(s: &str, p: &str) -> (b: bool)
    ensures
        b == has_prefix(s@, p@),
{
    let cs = chars_of(s);
    let ps = chars_of(p);
    let b = occurs_at_exec(&cs, &ps, 0);
    assert(cs@.subrange(0, ps@.len() as int) =~= cs@.take(ps@.len() as int));
    b
}

/// `s` without the prefix `p`, when it begins with `p`, as `str::strip_prefix` gives it.
pub fn strip_prefix(s: &str, p: &str) -> (out: Option<String>)
    ensures
        out is Some <==> has_prefix(s@, p@),
        out matches Some(rest) ==> rest@ == s@.skip(p@.len() as int),
{
    let cs = chars_of(s);
    let ps = chars_of(p);
    if occurs_at_exec(&cs, &ps, 0) {
        assert(cs@.subrange(0, ps@.len() as int) =~= cs@.take(ps@.len() as int));
        let rest = slice_chars(&cs, ps.len(), cs.len());
        assert(rest@ =~= s@.skip(p@.len() as int));
        Some(string_of(&rest))
    } else {
        assert(cs@.subrange(0, ps@.len() as int) =~= cs@.take(ps@.len() as int));
        None
    }
}

/// `s` without the suffix `p`, when it ends with `p`, as `str::strip_suffix` gives it.
pub fn strip_suffix(s: &str, p: &str) -> (out: Option<String>)
    ensures
        out is Some <==> has_suffix(s@, p@),
        out matches Some(rest) ==> rest@ == s@.take(s@.len() - p@.len()),
{
    let cs = chars_of(s);
    let ps = chars_of(p);
    if ps.len() > cs.len() {
        return None;
    }
    let start = cs.len() - ps.len();
    if occurs_at_exec(&cs, &ps, start) {
        assert(cs@.subrange(start as int, cs@.len() as int) =~= cs@.skip(start as int));
        let rest = slice_chars(&cs, 0, start);
        assert(rest@ =~= s@.take(s@.len() - p@.len()));
        Some(string_of(&rest))
    } else {
        assert(cs@.subrange(start as int, cs@.len() as int) =~= cs@.skip(start as int));
        None
    }
}

/// `s` without its leading copies of `c`, as `str::trim_start_matches` with a character gives it.
pub fn trim_start_matches_char(s: &str, c: char) -> (out: String)
    ensures
        out@ == trim_start_char(s@, c),
{
    let cs = chars_of(s);
    let mut i: usize = 0;
    assert(cs@.skip(0) =~= cs@);
    while i < cs.len() && cs[i] == c
        invariant
            cs@ == s@,
            i <= cs@.len(),
            trim_start_char(cs@.skip(i as int), c) == trim_start_char(s@, c),
        decreases cs@.len() - i,
    {
        assert(cs@.skip(i as int).drop_first() =~= cs@.skip(i + 1));
        i = i + 1;
    }
    let rest = slice_chars(&cs, i, cs.len());
    assert(rest@ =~= cs@.skip(i as int));
    string_of(&rest)
}

/// Whether `p` occurs in `s`, as `str::contains` with a string pattern decides it.
pub fn contains_str(s: &str, p: &str) -> (b: bool)
    ensures
        b == contains(s@, p@),
{
    let cs = chars_of(s);
    let ps = chars_of(p);
    if ps.len() == 0 {
        assert(occurs_at(s@, p@, 0)) by {
            assert(s@.subrange(0, 0) =~= p@);
        }
        return true;
    }
    let mut i: usize = 0;
    while i < cs.len() && ps.len() <= cs.len() - i
        invariant
            cs@ == s@,
            ps@ == p@,
            ps@.len() > 0,
            i <= cs@.len(),
            forall|j: int| 0 <= j < i ==> !occurs_at(s@, p@, j),
        decreases cs@.len() - i,
    {
        if occurs_at_exec(&cs, &ps, i) {
            return true;
        }
        i = i + 1;
    }
    assert forall|j: int| !occurs_at(s@, p@, j) by {
        if 0 <= j < i {
        }
    }
    false
}

/// `s` with every occurrence of `p` replaced by `r`, as `str::replace` gives it.
pub fn replace_str(s: &str, p: &str, r: &str) -> (out: String)
    requires
        p@.len() > 0,
    ensures
        out@ == replace_all(s@, p@, r@),
{
    let cs = chars_of(s);
    let ps = chars_of(p);
    let rs = chars_of(r);
    let mut out: Vec<char> = Vec::new();
    let mut i: usize = 0;
    assert(cs@.skip(0) =~= cs@);
    assert(out@ + replace_all(s@, p@, r@) =~= replace_all(s@, p@, r@));
    while i < cs.len()
        invariant
            cs@ == s@,
            ps@ == p@,
            rs@ == r@,
            ps@.len() > 0,
            i <= cs@.len(),
            out@ + replace_all(cs@.skip(i as int), p@, r@) == replace_all(s@, p@, r@),
        decreases cs@.len() - i,
    {
        let ghost rest = cs@.skip(i as int);
        let ghost out0 = out@;
        if occurs_at_exec(&cs, &ps, i) {
            assert(rest.take(p@.len() as int) =~= cs@.subrange(i as int, i + p@.len()));
            assert(rest.skip(p@.len() as int) =~= cs@.skip(i + p@.len()));
            let mut k: usize = 0;
            while k < rs.len()
                invariant
                    rs@ == r@,
                    k <= rs@.len(),
                    out@ == out0 + r@.take(k as int),
                decreases rs@.len() - k,
            {
                out.push(rs[k]);
                assert(out0 + r@.take(k + 1) =~= (out0 + r@.take(k as int)).push(r@[k as int]));
                k = k + 1;
            }
            assert(r@.take(r@.len() as int) =~= r@);
            assert(out0 + (r@ + replace_all(cs@.skip(i + p@.len()), p@, r@)) =~= out@
                + replace_all(cs@.skip(i + p@.len()), p@, r@));
            i = i + ps.len();
        } else {
            if cs.len() - i >= ps.len() {
                assert(rest.take(p@.len() as int) =~= cs@.subrange(i as int, i + p@.len()));
                assert(rest.drop_first() =~= cs@.skip(i + 1));
                out.push(cs[i]);
                assert(out0 + (seq![cs@[i as int]] + replace_all(cs@.skip(i + 1), p@, r@))
                    =~= out@ + replace_all(cs@.skip(i + 1), p@, r@));
                i = i + 1;
            } else {
                let mut k = i;
                while k < cs.len()
                    invariant
                        i <= k <= cs@.len(),
                        out@ == out0 + cs@.subrange(i as int, k as int),
                    decreases cs@.len() - k,
                {
                    out.push(cs[k]);
                    assert(out0 + cs@.subrange(i as int, k + 1) =~= (out0 + cs@.subrange(
                        i as int,
                        k as int,
                    )).push(cs@[k as int]));
                    k = k + 1;
                }
                assert(cs@.subrange(i as int, cs@.len() as int) =~= rest);
                assert(cs@.skip(cs@.len() as int) =~= Seq::<char>::empty());
                assert(out@ + Seq::<char>::empty() =~= out@);
                i = cs.len();
            }
        }
    }
    assert(cs@.skip(cs@.len() as int) =~= Seq::<char>::empty());
    assert(out@ + Seq::<char>::empty() =~= out@);
    string_of(&out)
}

/// `s` without its leading and trailing whitespace, as `str::trim` gives it.
pub fn trim_str(s: &str) -> (out: String)
    ensures
        out@ == trim(s@),
{
    let cs = chars_of(s);
    let mut a: usize = 0;
    assert(cs@.skip(0) =~= cs@);
    while a < cs.len() && is_whitespace(cs[a])
        invariant
            cs@ == s@,
            a <= cs@.len(),
            trim_start(cs@.skip(a as int)) == trim_start(s@),
        decreases cs@.len() - a,
    {
        assert(cs@.skip(a as int).drop_first() =~= cs@.skip(a + 1));
        a = a + 1;
    }
    let ghost t = cs@.skip(a as int);
    assert(trim_start(t) == t);
    let mut b: usize = cs.len();
    assert(t.take(t.len() as int) =~= t);
    while b > a && is_whitespace(cs[b - 1])
        invariant
            cs@ == s@,
            a <= b <= cs@.len(),
            t == cs@.skip(a as int),
            trim_end(t.take(b - a)) == trim_end(t),
        decreases b - a,
    {
        assert(t.take(b - a).drop_last() =~= t.take(b - 1 - a));
        assert(t.take(b - a).last() == cs@[b - 1]);
        b = b - 1;
    }
    assert(t.take(b - a) =~= cs@.subrange(a as int, b as int));
    if b > a {
        assert(t.take(b - a).last() == cs@[b - 1]);
    }
    let out = slice_chars(&cs, a, b);
    string_of(&out)
}

/// The value of `s` read as a base-10 `i32`, as `str::parse::<i32>` reads it; `None` where that
/// parse fails.
pub fn parse_i32_str(s: &str) -> (out: Option<i32>)
    ensures
        out == parse_i32(s@),
{
    let cs = chars_of(s);
    let mut start: usize = 0;
    let mut neg = false;
    if cs.len() > 0 && (cs[0] == '+' || cs[0] == '-') {
        neg = cs[0] == '-';
        start = 1;
    }
    let ghost d = if s@.len() > 0 && (s@[0] == '+' || s@[0] == '-') {
        s@.drop_first()
    } else {
        s@
    };
    assert(d =~= cs@.skip(start as int));
    if start >= cs.len() {
        return None;
    }
    let mut acc: i64 = 0;
    let mut k = start;
    while k < cs.len()
        invariant
            cs@ == s@,
            d == cs@.skip(start as int),
            d == (if s@.len() > 0 && (s@[0] == '+' || s@[0] == '-') {
                s@.drop_first()
            } else {
                s@
            }),
            neg == (s@.len() > 0 && s@[0] == '-'),
            start <= k <= cs@.len(),
            all_digits(d.take(k - start)),
            acc == digits_value(d.take(k - start)),
            0 <= acc <= 2147483648,
        decreases cs@.len() - k,
    {
        let c = cs[k];
        assert(d.take(k + 1 - start).drop_last() =~= d.take(k - start));
        assert(d.take(k + 1 - start).last() == c);
        if !('0' <= c && c <= '9') {
            assert(!is_digit(d[k - start]));
            return None;
        }
        let digit = (c as u32 - '0' as u32) as i64;
        acc = acc * 10 + digit;
        assert(all_digits(d.take(k + 1 - start)));
        if acc > 2147483648 {
            if all_digits_from(&cs, k + 1) {
                proof {
                    let m = k + 1 - start;
                    assert forall|i: int| 0 <= i < d.len() implies is_digit(#[trigger] d[i]) by {
                        if i < m {
                            assert(d.take(m)[i] == d[i]);
                        } else {
                            assert(cs@.skip(k + 1)[i - m] == d[i]);
                        }
                    }
                    lemma_digits_value_prefix(d, m);
                }
            } else {
                proof {
                    let m = k + 1 - start;
                    let j = choose|j: int| 0 <= j < cs@.skip(k + 1).len() && !is_digit(
                        #[trigger] cs@.skip(k + 1)[j],
                    );
                    assert(d[m + j] == cs@.skip(k + 1)[j]);
                }
            }
            return None;
        }
        k = k + 1;
    }
    assert(d.take(cs@.len() - start) =~= d);
    if neg {
        Some((-acc) as i32)
    } else if acc <= 2147483647 {
        Some(acc as i32)
    } else {
        None
    }
}

/// Whether every character of `cs` from position `from` on is an ASCII digit.
fn all_digits_from(cs: &[char], from: usize) -> (b: bool)
    requires
        from <= cs@.len(),
    ensures
        b == all_digits(cs@.skip(from as int)),
{
    let mut k = from;
    while k < cs.len()
        invariant
            from <= k <= cs@.len(),
            forall|j: int| from <= j < k ==> is_digit(#[trigger] cs@[j]),
        decreases cs@.len() - k,
    {
        if !('0' <= cs[k] && cs[k] <= '9') {
            assert(cs@.skip(from as int)[k - from] == cs@[k as int]);
            return false;
        }
        k = k + 1;
    }
    assert forall|i: int| 0 <= i < cs@.skip(from as int).len() implies is_digit(
        #[trigger] cs@.skip(from as int)[i],
    ) by {
        assert(cs@.skip(from as int)[i] == cs@[from + i]);
    }
    true
}

/// Whether `a` and `b` hold the same characters.
pub fn equals(a: &str, b: &str) -> (r: bool)
    ensures
        r == (a@ == b@),
{
    let ac = chars_of(a);
    let bc = chars_of(b);
    if ac.len() != bc.len() {
        return false;
    }
    let r = occurs_at_exec(&ac, &bc, 0);
    assert(ac@.subrange(0, bc@.len() as int) =~= ac@);
    r
}

/// The value of `s` read as a base-10 `u64`, as `str::parse::<u64>` reads it; `None` where that
/// parse fails.
pub fn parse_u64_str(s: &str) -> (out: Option<u64>)
    ensures
        out == parse_u64(s@),
{
    let cs = chars_of(s);
    let mut start: usize = 0;
    if cs.len() > 0 && cs[0] == '+' {
        start = 1;
    }
    let ghost d = if s@.len() > 0 && s@[0] == '+' { s@.drop_first() } else { s@ };
    assert(d =~= cs@.skip(start as int));
    if start >= cs.len() {
        return None;
    }
    let mut acc: u128 = 0;
    let mut k = start;
    while k < cs.len()
        invariant
            cs@ == s@,
            d == cs@.skip(start as int),
            d == (if s@.len() > 0 && s@[0] == '+' { s@.drop_first() } else { s@ }),
            start <= k <= cs@.len(),
            all_digits(d.take(k - start)),
            acc == digits_value(d.take(k - start)),
            0 <= acc <= u64::MAX,
        decreases cs@.len() - k,
    {
        let c = cs[k];
        assert(d.take(k + 1 - start).drop_last() =~= d.take(k - start));
        assert(d.take(k + 1 - start).last() == c);
        if !('0' <= c && c <= '9') {
            assert(!is_digit(d[k - start]));
            return None;
        }
        let digit = (c as u32 - '0' as u32) as u128;
        acc = acc * 10 + digit;
        assert(all_digits(d.take(k + 1 - start)));
        if acc > 18446744073709551615 {
            if all_digits_from(&cs, k + 1) {
                proof {
                    let m = k + 1 - start;
                    assert forall|i: int| 0 <= i < d.len() implies is_digit(#[trigger] d[i]) by {
                        if i < m {
                            assert(d.take(m)[i] == d[i]);
                        } else {
                            assert(cs@.skip(k + 1)[i - m] == d[i]);
                        }
                    }
                    lemma_digits_value_prefix(d, m);
                }
            } else {
                proof {
                    let m = k + 1 - start;
                    let j = choose|j: int| 0 <= j < cs@.skip(k + 1).len() && !is_digit(
                        #[trigger] cs@.skip(k + 1)[j],
                    );
                    assert(d[m + j] == cs@.skip(k + 1)[j]);
                }
            }
            return None;
        }
        k = k + 1;
    }
    assert(d.take(cs@.len() - start) =~= d);
    Some(acc as u64)
}

} // verus!
