//! Character and string helpers shared by the whole crate: character
//! classification, ASCII case folding, trimming, substring search,
//! lexicographic order, and decimal rendering of integers.

use vstd::prelude::*;

verus! {

/// Name for what `char::is_alphanumeric` returns: whether the character is
/// alphanumeric in the Unicode sense.
pub uninterp spec fn is_unicode_alnum(c: char) -> bool;

/// Relies on `char::is_alphanumeric`: the result depends on the character
/// alone.
#[verifier::external_body]
pub fn char_is_alnum(c: char) -> (r: bool)
    ensures
        r == is_unicode_alnum(c),
{
    c.is_alphanumeric()
}

/// The characters with the Unicode `White_Space` property, as recognised by
/// `char::is_whitespace`.
pub open spec fn is_ws_char(c: char) -> bool {
    c == ' ' || c == '\t' || c == '\n' || c == '\r'
        || c as u32 == 0x0b || c as u32 == 0x0c || c as u32 == 0x85
        || c as u32 == 0xa0 || c as u32 == 0x1680
        || (0x2000 <= c as u32 && c as u32 <= 0x200a)
        || c as u32 == 0x2028 || c as u32 == 0x2029
        || c as u32 == 0x202f || c as u32 == 0x205f || c as u32 == 0x3000
}

/// Executable counterpart of `is_ws_char`.
pub fn char_is_ws(c: char) -> (r: bool)
    ensures
        r == is_ws_char(c),
{
    let n = c as u32;
    n == 0x20 || n == 0x09 || n == 0x0a || n == 0x0d
        || n == 0x0b || n == 0x0c || n == 0x85
        || n == 0xa0 || n == 0x1680
        || (0x2000 <= n && n <= 0x200a)
        || n == 0x2028 || n == 0x2029
        || n == 0x202f || n == 0x205f || n == 0x3000
}

/// A sequence is blank when every character in it is whitespace; the empty
/// sequence is blank.
pub open spec fn seq_is_blank(s: Seq<char>) -> bool {
    forall|i: int| 0 <= i < s.len() ==> is_ws_char(#[trigger] s[i])
}

/// Whether the string consists entirely of whitespace (or is empty).
pub fn str_is_blank(s: &str) -> (r: bool)
    ensures
        r == seq_is_blank(s@),
{
    let len = s.unicode_len();
    let mut i: usize = 0;
    while i < len
        invariant
            i <= len,
            len == s@.len(),
            forall|j: int| 0 <= j < i ==> is_ws_char(#[trigger] s@[j]),
        decreases len - i,
    {
        let c = s.get_char(i);
        if !char_is_ws(c) {
            return false;
        }
        i = i + 1;
    }
    true
}

/// ASCII case folding of a single character: upper-case ASCII letters map to
/// the corresponding lower-case letter, everything else is unchanged.
pub open spec fn ascii_lower(c: char) -> char {
    if 'A' <= c && c <= 'Z' {
        ((c as u32) + 32) as char
    } else {
        c
    }
}

/// A whole sequence folded with `ascii_lower`.
pub open spec fn lower_seq(s: Seq<char>) -> Seq<char> {
    s.map_values(|c: char| ascii_lower(c))
}

/// Two sequences are equal up to ASCII case.
pub open spec fn eq_ignore_case(a: Seq<char>, b: Seq<char>) -> bool {
    lower_seq(a) == lower_seq(b)
}

/// Executable ASCII case folding of one character.
pub fn char_ascii_lower(c: char) -> (r: char)
    ensures
        r == ascii_lower(c),
{
    let n = c as u32;
    if 0x41 <= n && n <= 0x5a {
        proof {
            assert(('A' <= c && c <= 'Z') == (0x41 <= c as u32 && c as u32 <= 0x5a));
        }
        let b: u8 = (n + 32) as u8;
        b as char
    } else {
        c
    }
}

/// Compare two strings for equality up to ASCII case.
pub fn str_eq_ignore_case(a: &str, b: &str) -> (r: bool)
    ensures
        r == eq_ignore_case(a@, b@),
{
    let alen = a.unicode_len();
    let blen = b.unicode_len();
    if alen != blen {
        proof {
            assert(lower_seq(a@).len() == a@.len());
            assert(lower_seq(b@).len() == b@.len());
        }
        return false;
    }
    let mut i: usize = 0;
    while i < alen
        invariant
            i <= alen,
            alen == a@.len(),
            alen == b@.len(),
            forall|j: int| 0 <= j < i ==> ascii_lower(a@[j]) == ascii_lower(#[trigger] b@[j]),
        decreases alen - i,
    {
        let ca = char_ascii_lower(a.get_char(i));
        let cb = char_ascii_lower(b.get_char(i));
        if ca != cb {
            proof {
                assert(lower_seq(a@)[i as int] != lower_seq(b@)[i as int]);
            }
            return false;
        }
        i = i + 1;
    }
    proof {
        assert(lower_seq(a@) =~= lower_seq(b@));
    }
    true
}

/// Relies on `String::push`: appends the given character to the end of the
/// string.
#[verifier::external_body]
pub fn push_char(s: &mut String, c: char)
    ensures
        final(s)@ == old(s)@.push(c),
{
    s.push(c);
}

/// The sequence with its leading whitespace removed.
pub open spec fn trim_front(s: Seq<char>) -> Seq<char>
    decreases s.len(),
{
    if s.len() > 0 && is_ws_char(s[0]) {
        trim_front(s.subrange(1, s.len() as int))
    } else {
        s
    }
}

/// The sequence with its trailing whitespace removed.
pub open spec fn trim_back(s: Seq<char>) -> Seq<char>
    decreases s.len(),
{
    if s.len() > 0 && is_ws_char(s[s.len() - 1]) {
        trim_back(s.drop_last())
    } else {
        s
    }
}

/// The sequence with whitespace removed from both ends.
pub open spec fn trimmed(s: Seq<char>) -> Seq<char> {
    trim_back(trim_front(s))
}

proof fn lemma_trim_front_range(s: Seq<char>, a: int)
    requires
        0 <= a <= s.len(),
        forall|j: int| 0 <= j < a ==> is_ws_char(#[trigger] s[j]),
        a == s.len() || !is_ws_char(s[a]),
    ensures
        trim_front(s) == s.subrange(a, s.len() as int),
    decreases a,
{
    if a == 0 {
        assert(s.subrange(0, s.len() as int) =~= s);
    } else {
        let s1 = s.subrange(1, s.len() as int);
        lemma_trim_front_range(s1, a - 1);
        assert(s1.subrange(a - 1, s1.len() as int) =~= s.subrange(a, s.len() as int));
    }
}

proof fn lemma_trim_back_range(s: Seq<char>, b: int)
    requires
        0 <= b <= s.len(),
        forall|j: int| b <= j < s.len() ==> is_ws_char(#[trigger] s[j]),
        b == 0 || !is_ws_char(s[b - 1]),
    ensures
        trim_back(s) == s.subrange(0, b),
    decreases s.len(),
{
    if s.len() > 0 && is_ws_char(s[s.len() - 1]) {
        lemma_trim_back_range(s.drop_last(), b);
    } else {
        assert(b == s.len());
        assert(s.subrange(0, b) =~= s);
    }
}

/// The string with leading and trailing whitespace removed.
pub fn str_trim(s: &str) -> (r: &str)
    ensures
        r@ == trimmed(s@),
{
    let len = s.unicode_len();
    let mut a: usize = 0;
    loop
        invariant
            a <= len,
            len == s@.len(),
            forall|j: int| 0 <= j < a ==> is_ws_char(#[trigger] s@[j]),
        ensures
            a <= len,
            forall|j: int| 0 <= j < a ==> is_ws_char(#[trigger] s@[j]),
            a == len || !is_ws_char(s@[a as int]),
        decreases len - a,
    {
        if a >= len {
            break;
        }
        if !char_is_ws(s.get_char(a)) {
            break;
        }
        a = a + 1;
    }
    let mut b: usize = len;
    loop
        invariant
            a <= b <= len,
            len == s@.len(),
            a == len || !is_ws_char(s@[a as int]),
            forall|j: int| b <= j < len ==> is_ws_char(#[trigger] s@[j]),
        ensures
            a <= b <= len,
            forall|j: int| b <= j < len ==> is_ws_char(#[trigger] s@[j]),
            b == a || !is_ws_char(s@[b - 1]),
        decreases b,
    {
        if b <= a {
            break;
        }
        if !char_is_ws(s.get_char(b - 1)) {
            break;
        }
        b = b - 1;
    }
    proof {
        lemma_trim_front_range(s@, a as int);
        let t = s@.subrange(a as int, s@.len() as int);
        if b == a {
            lemma_trim_back_range(t, 0);
        } else {
            lemma_trim_back_range(t, b - a);
        }
        assert(t.subrange(0, b - a) =~= s@.subrange(a as int, b as int));
    }
    s.substring_char(a, b)
}

/// Whether `p` occurs in `s` as a contiguous subsequence.
pub open spec fn contains_sub(s: Seq<char>, p: Seq<char>) -> bool {
    exists|i: int|
        0 <= i && i + p.len() <= s.len() && #[trigger] s.subrange(i, i + p.len() as int) == p
}

/// Whether the characters of `s` starting at `at` match `p`.
fn matches_at(s: &str, p: &str, at: usize) -> (r: bool)
    requires
        at + p@.len() <= s@.len(),
        s@.len() <= usize::MAX,
    ensures
        r == (s@.subrange(at as int, at + p@.len() as int) == p@),
{
    let plen = p.unicode_len();
    let mut i: usize = 0;
    while i < plen
        invariant
            i <= plen,
            plen == p@.len(),
            at + plen <= s@.len(),
            s@.len() <= usize::MAX,
            forall|j: int| 0 <= j < i ==> s@[at + j] == #[trigger] p@[j],
        decreases plen - i,
    {
        if s.get_char(at + i) != p.get_char(i) {
            proof {
                assert(s@.subrange(at as int, at + p@.len() as int)[i as int] != p@[i as int]);
            }
            return false;
        }
        i = i + 1;
    }
    proof {
        assert(s@.subrange(at as int, at + p@.len() as int) =~= p@);
    }
    true
}

/// Substring search: whether `p` occurs anywhere in `s`.
pub fn str_contains(s: &str, p: &str) -> (r: bool)
    ensures
        r == contains_sub(s@, p@),
{
    let slen = s.unicode_len();
    let plen = p.unicode_len();
    if plen > slen {
        return false;
    }
    if plen == 0 {
        proof {
            assert(s@.subrange(0, 0 + p@.len() as int) =~= p@);
        }
        return true;
    }
    let mut i: usize = 0;
    while i <= slen - plen
        invariant
            1 <= plen <= slen,
            i + plen <= slen + 1,
            slen == s@.len(),
            plen == p@.len(),
            forall|k: int|
                0 <= k < i ==> #[trigger] s@.subrange(k, k + p@.len() as int) != p@,
        decreases slen + 1 - i,
    {
        if matches_at(s, p, i) {
            return true;
        }
        i = i + 1;
    }
    false
}

/// Exact equality of two strings, decided character by character.
pub fn str_eq(a: &str, b: &str) -> (r: bool)
    ensures
        r == (a@ == b@),
{
    let alen = a.unicode_len();
    let blen = b.unicode_len();
    if alen != blen {
        return false;
    }
    let r = matches_at(a, b, 0);
    proof {
        if a@.subrange(0, b@.len() as int) == b@ {
            assert(a@ =~= b@);
        } else {
            assert(a@.subrange(0, b@.len() as int) =~= a@);
        }
    }
    r
}

/// Whether `s` begins with `p`.
pub fn str_starts_with(s: &str, p: &str) -> (r: bool)
    ensures
        r == p@.is_prefix_of(s@),
{
    let slen = s.unicode_len();
    let plen = p.unicode_len();
    if plen > slen {
        return false;
    }
    let r = matches_at(s, p, 0);
    proof {
        assert(p@.is_prefix_of(s@) == (s@.subrange(0, p@.len() as int) == p@));
    }
    r
}

/// Whether `s` ends with `p`.
pub fn str_ends_with(s: &str, p: &str) -> (r: bool)
    ensures
        r == p@.is_suffix_of(s@),
{
    let slen = s.unicode_len();
    let plen = p.unicode_len();
    if plen > slen {
        return false;
    }
    let r = matches_at(s, p, slen - plen);
    proof {
        assert(p@.is_suffix_of(s@) == (s@.subrange(s@.len() - p@.len(), s@.len() as int)
            == p@));
    }
    r
}

/// The character for a single decimal digit.
pub open spec fn dec_digit(d: nat) -> char {
    if d == 0 { '0' }
    else if d == 1 { '1' }
    else if d == 2 { '2' }
    else if d == 3 { '3' }
    else if d == 4 { '4' }
    else if d == 5 { '5' }
    else if d == 6 { '6' }
    else if d == 7 { '7' }
    else if d == 8 { '8' }
    else { '9' }
}

/// The decimal representation of a natural number, most significant digit
/// first, with no leading zeros (zero itself is rendered as "0").
pub open spec fn dec_rep(n: nat) -> Seq<char>
    decreases n,
{
    if n < 10 {
        seq![dec_digit(n)]
    } else {
        dec_rep(n / 10).push(dec_digit(n % 10))
    }
}

fn digit_char(d: u64) -> (c: char)
    requires
        d < 10,
    ensures
        c == dec_digit(d as nat),
{
    let b: u8 = (0x30 + d) as u8;
    b as char
}

fn push_dec(s: &mut String, n: u64)
    ensures
        final(s)@ == old(s)@ + dec_rep(n as nat),
    decreases n,
{
    if n < 10 {
        push_char(s, digit_char(n));
        proof {
            assert(final(s)@ =~= old(s)@ + dec_rep(n as nat));
        }
    } else {
        push_dec(s, n / 10);
        push_char(s, digit_char(n % 10));
        proof {
            assert(final(s)@ =~= old(s)@ + dec_rep(n as nat));
        }
    }
}

/// Render a `u64` in decimal.
pub fn u64_to_dec(n: u64) -> (r: String)
    ensures
        r@ == dec_rep(n as nat),
{
    let mut s = String::new();
    push_dec(&mut s, n);
    proof {
        assert(Seq::<char>::empty() + dec_rep(n as nat) =~= dec_rep(n as nat));
    }
    s
}

/// Render a `usize` in decimal.
pub fn usize_to_dec(n: usize) -> (r: String)
    ensures
        r@ == dec_rep(n as nat),
{
    u64_to_dec(n as u64)
}

/// The pieces joined with the separator between consecutive pieces.
pub open spec fn join_with(parts: Seq<Seq<char>>, sep: Seq<char>) -> Seq<char>
    decreases parts.len(),
{
    if parts.len() == 0 {
        Seq::empty()
    } else if parts.len() == 1 {
        parts[0]
    } else {
        join_with(parts.drop_last(), sep) + sep + parts.last()
    }
}

/// Append each part of `parts`, separated by `sep`, to `out`.
pub fn append_joined(out: &mut String, parts: &Vec<String>, sep: &str)
    ensures
        final(out)@ == old(out)@ + join_with(parts@.map_values(|p: String| p@), sep@),
{
    let ghost model = parts@.map_values(|p: String| p@);
    let mut i: usize = 0;
    while i < parts.len()
        invariant
            i <= parts.len(),
            model == parts@.map_values(|p: String| p@),
            model.len() == parts@.len(),
            out@ == old(out)@ + join_with(model.take(i as int), sep@),
        decreases parts.len() - i,
    {
        if i > 0 {
            out.append(sep);
        }
        out.append(parts[i].as_str());
        proof {
            let t = model.take(i + 1);
            assert(t.drop_last() =~= model.take(i as int));
            assert(t.last() == model[i as int]);
            if i == 0 {
                assert(join_with(t, sep@) == model[0]);
                assert(out@ =~= old(out)@ + join_with(model.take(i + 1), sep@));
            } else {
                assert(join_with(t, sep@) == join_with(model.take(i as int), sep@) + sep@
                    + model[i as int]);
                assert(out@ =~= old(out)@ + join_with(model.take(i + 1), sep@));
            }
        }
        i = i + 1;
    }
    proof {
        assert(model.take(parts@.len() as int) =~= model);
        if parts@.len() == 0 {
            assert(out@ =~= old(out)@ + join_with(model, sep@));
        }
    }
}

/// Strict lexicographic order on character sequences, by code point, with a
/// proper prefix ordered before its extensions.
pub open spec fn lex_lt(a: Seq<char>, b: Seq<char>) -> bool
    decreases a.len(),
{
    if b.len() == 0 {
        false
    } else if a.len() == 0 {
        true
    } else if (a[0] as u32) < (b[0] as u32) {
        true
    } else if a[0] == b[0] {
        lex_lt(a.drop_first(), b.drop_first())
    } else {
        false
    }
}

proof fn lemma_char_cast_inj(c: char, d: char)
    ensures
        (c as u32 == d as u32) == (c == d),
{
    broadcast use vstd::utf8::char_u32_cast;
}

/// Of two sequences, exactly one of `lex_lt(a, b)`, `a == b`, `lex_lt(b, a)`
/// holds: `lex_lt` is a strict total order.
pub proof fn lemma_lex_trichotomy(a: Seq<char>, b: Seq<char>)
    ensures
        lex_lt(a, b) || a == b || lex_lt(b, a),
        lex_lt(a, b) ==> a != b && !lex_lt(b, a),
        a == b ==> !lex_lt(a, b) && !lex_lt(b, a),
    decreases a.len(),
{
    if a.len() == 0 && b.len() == 0 {
        assert(a =~= b);
    } else if a.len() > 0 && b.len() > 0 {
        lemma_char_cast_inj(a[0], b[0]);
        if a[0] == b[0] {
            lemma_lex_trichotomy(a.drop_first(), b.drop_first());
            if a.drop_first() == b.drop_first() {
                assert(a =~= b) by {
                    assert(a.len() == b.len());
                    assert(forall|j: int|
                        1 <= j < a.len() ==> #[trigger] a[j] == a.drop_first()[j - 1]
                            && b[j] == b.drop_first()[j - 1]);
                }
            }
            if a == b {
                assert(a.drop_first() =~= b.drop_first());
            }
        } else {
            assert(a != b);
        }
    }
}

/// `lex_lt` is transitive.
pub proof fn lemma_lex_trans(a: Seq<char>, b: Seq<char>, c: Seq<char>)
    requires
        lex_lt(a, b),
        lex_lt(b, c),
    ensures
        lex_lt(a, c),
    decreases a.len(),
{
    if a.len() == 0 {
        assert(b.len() > 0);
        assert(c.len() > 0);
    } else {
        assert(b.len() > 0);
        assert(c.len() > 0);
        if a[0] == b[0] && b[0] == c[0] {
            lemma_lex_trans(a.drop_first(), b.drop_first(), c.drop_first());
        }
    }
}

proof fn lemma_lex_skip(a: Seq<char>, b: Seq<char>, i: int)
    requires
        0 <= i <= a.len(),
        0 <= i <= b.len(),
        forall|j: int| 0 <= j < i ==> a[j] == b[j],
    ensures
        lex_lt(a, b) == lex_lt(a.skip(i), b.skip(i)),
    decreases i,
{
    if i > 0 {
        assert(a.len() > 0 && b.len() > 0 && a[0] == b[0]);
        lemma_lex_skip(a.drop_first(), b.drop_first(), i - 1);
        assert(a.drop_first().skip(i - 1) =~= a.skip(i));
        assert(b.drop_first().skip(i - 1) =~= b.skip(i));
    } else {
        assert(a.skip(0) =~= a);
        assert(b.skip(0) =~= b);
    }
}

/// Executable comparison of two strings in the order `lex_lt`.
pub fn str_lex_lt(a: &str, b: &str) -> (r: bool)
    ensures
        r == lex_lt(a@, b@),
{
    let alen = a.unicode_len();
    let blen = b.unicode_len();
    let mut i: usize = 0;
    loop
        invariant
            i <= alen,
            i <= blen,
            alen == a@.len(),
            blen == b@.len(),
            forall|j: int| 0 <= j < i ==> a@[j] == #[trigger] b@[j],
        ensures
            i <= alen,
            i <= blen,
            forall|j: int| 0 <= j < i ==> a@[j] == #[trigger] b@[j],
            i == alen || i == blen || a@[i as int] != b@[i as int],
        decreases alen - i,
    {
        if i >= alen || i >= blen {
            break;
        }
        if a.get_char(i) != b.get_char(i) {
            break;
        }
        i = i + 1;
    }
    proof {
        lemma_lex_skip(a@, b@, i as int);
    }
    if i >= alen {
        proof {
            assert(a@.skip(i as int) =~= Seq::<char>::empty());
        }
        i < blen
    } else if i >= blen {
        false
    } else {
        let ca = a.get_char(i);
        let cb = b.get_char(i);
        proof {
            assert(a@.skip(i as int)[0] == a@[i as int]);
            assert(b@.skip(i as int)[0] == b@[i as int]);
        }
        (ca as u32) < (cb as u32)
    }
}

/// The views of a sequence of strings.
pub open spec fn views_of(ss: Seq<String>) -> Seq<Seq<char>> {
    ss.map_values(|s: String| s@)
}

/// A sequence of character sequences in strictly increasing `lex_lt` order
/// (hence also free of duplicates).
pub open spec fn sorted_unique(vs: Seq<Seq<char>>) -> bool {
    forall|i: int, j: int| 0 <= i < j < vs.len() ==> lex_lt(#[trigger] vs[i], #[trigger] vs[j])
}

/// Insert `s` into the strictly sorted vector `v`, keeping it strictly sorted;
/// a string already present is not inserted again.
pub fn insert_sorted(v: &mut Vec<String>, s: String)
    requires
        sorted_unique(views_of(old(v)@)),
    ensures
        sorted_unique(views_of(final(v)@)),
        forall|x: Seq<char>|
            #[trigger] views_of(final(v)@).contains(x)
                <==> views_of(old(v)@).contains(x) || x == s@,
{
    let ghost vs = views_of(v@);
    let mut i: usize = 0;
    loop
        invariant
            i <= v.len(),
            v@ == old(v)@,
            vs == views_of(v@),
            sorted_unique(vs),
            forall|j: int| 0 <= j < i ==> lex_lt(#[trigger] vs[j], s@),
        ensures
            i <= v.len(),
            v@ == old(v)@,
            forall|j: int| 0 <= j < i ==> lex_lt(#[trigger] vs[j], s@),
            i < v.len() ==> !lex_lt(vs[i as int], s@),
        decreases v.len() - i,
    {
        if i >= v.len() {
            break;
        }
        if !str_lex_lt(v[i].as_str(), s.as_str()) {
            break;
        }
        i = i + 1;
    }
    if i < v.len() && v[i] == s {
        proof {
            assert(vs.contains(vs[i as int]));
            assert forall|x: Seq<char>|
                #[trigger] views_of(v@).contains(x) <==> views_of(old(v)@).contains(x)
                    || x == s@ by {}
        }
        return;
    }
    proof {
        if i < v.len() {
            lemma_lex_trichotomy(vs[i as int], s@);
        }
    }
    v.insert(i, s);
    proof {
        let nvs = views_of(v@);
        assert(nvs.len() == vs.len() + 1);
        assert(forall|j: int| 0 <= j < i ==> #[trigger] nvs[j] == vs[j]);
        assert(nvs[i as int] == s@);
        assert(forall|j: int| i < j < nvs.len() ==> #[trigger] nvs[j] == vs[j - 1]);
        assert forall|p: int, q: int| 0 <= p < q < nvs.len() implies lex_lt(
            #[trigger] nvs[p],
            #[trigger] nvs[q],
        ) by {
            if p < i && q == i {
            } else if p == i && q > i {
                if i < vs.len() && vs[q - 1] != vs[i as int] {
                    lemma_lex_trans(s@, vs[i as int], vs[q - 1]);
                }
            } else if p < i && q > i {
                if q - 1 == p {
                    lemma_lex_trichotomy(vs[p], s@);
                }
            }
        }
        assert forall|x: Seq<char>|
            #[trigger] nvs.contains(x) <==> views_of(old(v)@).contains(x) || x == s@ by {
            if nvs.contains(x) {
                let k = choose|k: int| 0 <= k < nvs.len() && nvs[k] == x;
                if k < i {
                    assert(vs[k] == x);
                    assert(vs.contains(x));
                } else if k > i {
                    assert(vs[k - 1] == x);
                    assert(vs.contains(x));
                }
            }
            if views_of(old(v)@).contains(x) {
                let k = choose|k: int| 0 <= k < vs.len() && vs[k] == x;
                if k < i {
                    assert(nvs[k] == x);
                } else {
                    assert(nvs[k + 1] == x);
                }
            }
            if x == s@ {
                assert(nvs[i as int] == x);
            }
        }
    }
}

/// The number of characters before the first whitespace character (the length
/// of the sequence when it has no whitespace).
pub open spec fn token_end(s: Seq<char>) -> int
    decreases s.len(),
{
    if s.len() == 0 || is_ws_char(s[0]) {
        0
    } else {
        1 + token_end(s.subrange(1, s.len() as int))
    }
}

pub proof fn lemma_token_end_bounds(s: Seq<char>)
    ensures
        0 <= token_end(s) <= s.len(),
        forall|j: int| 0 <= j < token_end(s) ==> !is_ws_char(#[trigger] s[j]),
        token_end(s) < s.len() ==> is_ws_char(s[token_end(s)]),
    decreases s.len(),
{
    if s.len() == 0 || is_ws_char(s[0]) {
    } else {
        let s1 = s.subrange(1, s.len() as int);
        lemma_token_end_bounds(s1);
        assert forall|j: int| 0 <= j < token_end(s) implies !is_ws_char(#[trigger] s[j]) by {
            if j >= 1 {
                assert(s[j] == s1[j - 1]);
            }
        }
        if token_end(s) < s.len() {
            assert(s[token_end(s)] == s1[token_end(s) - 1]);
        }
    }
}

/// The whitespace-separated tokens of a sequence, in order; each token is a
/// maximal nonempty run of non-whitespace characters.
pub open spec fn tokens_of(s: Seq<char>) -> Seq<Seq<char>>
    decreases s.len(),
    when s.len() >= 0
    via tokens_of_decreases
{
    if s.len() == 0 {
        Seq::empty()
    } else if is_ws_char(s[0]) {
        tokens_of(s.subrange(1, s.len() as int))
    } else {
        seq![s.subrange(0, token_end(s))] + tokens_of(s.subrange(token_end(s), s.len() as int))
    }
}

#[via_fn]
proof fn tokens_of_decreases(s: Seq<char>) {
    if s.len() > 0 && !is_ws_char(s[0]) {
        lemma_token_end_bounds(s);
        assert(token_end(s) >= 1);
    }
}

proof fn lemma_tokens_skip_ws(s: Seq<char>, i: int)
    requires
        0 <= i <= s.len(),
        forall|j: int| 0 <= j < i ==> is_ws_char(#[trigger] s[j]),
    ensures
        tokens_of(s) == tokens_of(s.subrange(i, s.len() as int)),
    decreases i,
{
    if i > 0 {
        let s1 = s.subrange(1, s.len() as int);
        lemma_tokens_skip_ws(s1, i - 1);
        assert(s1.subrange(i - 1, s1.len() as int) =~= s.subrange(i, s.len() as int));
    } else {
        assert(s.subrange(0, s.len() as int) =~= s);
    }
}

proof fn lemma_token_end_range(s: Seq<char>, k: int)
    requires
        0 <= k <= s.len(),
        forall|j: int| 0 <= j < k ==> !is_ws_char(#[trigger] s[j]),
        k == s.len() || is_ws_char(s[k]),
    ensures
        token_end(s) == k,
    decreases k,
{
    if k == 0 {
    } else {
        let s1 = s.subrange(1, s.len() as int);
        lemma_token_end_range(s1, k - 1);
    }
}

/// A well-formed token: nonempty, with no whitespace in it.
pub open spec fn token_wf(t: Seq<char>) -> bool {
    t.len() > 0 && forall|j: int| 0 <= j < t.len() ==> !is_ws_char(#[trigger] t[j])
}

/// Every token produced by tokenization is nonempty and holds no whitespace.
pub proof fn lemma_tokens_wf(s: Seq<char>)
    ensures
        forall|k: int| 0 <= k < tokens_of(s).len() ==> token_wf(#[trigger] tokens_of(s)[k]),
    decreases s.len(),
{
    if s.len() == 0 {
    } else if is_ws_char(s[0]) {
        lemma_tokens_wf(s.subrange(1, s.len() as int));
        assert(tokens_of(s) == tokens_of(s.subrange(1, s.len() as int)));
    } else {
        lemma_token_end_bounds(s);
        let e = token_end(s);
        let head = s.subrange(0, e);
        let rest = s.subrange(e, s.len() as int);
        lemma_tokens_wf(rest);
        assert(tokens_of(s) == seq![head] + tokens_of(rest));
        assert(token_wf(head)) by {
            assert(head.len() > 0);
            assert forall|j: int| 0 <= j < head.len() implies !is_ws_char(#[trigger] head[j]) by {
                assert(head[j] == s[j]);
            }
        }
        assert forall|k: int| 0 <= k < tokens_of(s).len() implies token_wf(
            #[trigger] tokens_of(s)[k],
        ) by {
            if k == 0 {
                assert(tokens_of(s)[0] == head);
            } else {
                assert(tokens_of(s)[k] == tokens_of(rest)[k - 1]);
            }
        }
    }
}

/// Split a string into its whitespace-separated tokens.
pub fn tokenize(s: &str) -> (r: Vec<String>)
    ensures
        r@.map_values(|t: String| t@) == tokens_of(s@),
{
    let len = s.unicode_len();
    let mut out: Vec<String> = Vec::new();
    proof {
        assert(s@.subrange(0, len as int) =~= s@);
        assert(out@.map_values(|t: String| t@) =~= Seq::<Seq<char>>::empty());
        assert(Seq::<Seq<char>>::empty() + tokens_of(s@) =~= tokens_of(s@));
    }
    let mut i: usize = 0;
    while i < len
        invariant
            i <= len,
            len == s@.len(),
            tokens_of(s@) == out@.map_values(|t: String| t@)
                + tokens_of(s@.subrange(i as int, len as int)),
        decreases len - i,
    {
        let ghost rest = s@.subrange(i as int, len as int);
        if char_is_ws(s.get_char(i)) {
            proof {
                lemma_tokens_skip_ws(rest, 1);
                assert(rest.subrange(1, rest.len() as int)
                    =~= s@.subrange(i + 1, len as int));
            }
            i = i + 1;
        } else {
            // collect the token that starts at i
            let start = i;
            let mut tok = String::new();
            loop
                invariant
                    start <= i <= len,
                    start < len,
                    len == s@.len(),
                    tok@ == s@.subrange(start as int, i as int),
                    forall|j: int| start <= j < i ==> !is_ws_char(#[trigger] s@[j]),
                    !is_ws_char(s@[start as int]),
                ensures
                    start <= i <= len,
                    tok@ == s@.subrange(start as int, i as int),
                    forall|j: int| start <= j < i ==> !is_ws_char(#[trigger] s@[j]),
                    start < i,
                    i == len || is_ws_char(s@[i as int]),
                decreases len - i,
            {
                if i >= len {
                    break;
                }
                let c = s.get_char(i);
                if char_is_ws(c) {
                    break;
                }
                push_char(&mut tok, c);
                proof {
                    assert(s@.subrange(start as int, i + 1)
                        =~= s@.subrange(start as int, i as int).push(s@[i as int]));
                }
                i = i + 1;
            }
            proof {
                let k = i - start;
                assert(forall|j: int| 0 <= j < k ==> rest[j] == s@[start + j]);
                lemma_token_end_range(rest, k);
                assert(rest.subrange(0, k) =~= s@.subrange(start as int, i as int));
                assert(rest.subrange(k, rest.len() as int)
                    =~= s@.subrange(i as int, len as int));
                assert((out@.push(tok)).map_values(|t: String| t@)
                    =~= out@.map_values(|t: String| t@).push(tok@));
            }
            out.push(tok);
        }
    }
    proof {
        assert(s@.subrange(len as int, len as int) =~= Seq::<char>::empty());
        assert(out@.map_values(|t: String| t@)
            =~= out@.map_values(|t: String| t@) + tokens_of(Seq::<char>::empty()));
    }
    out
}

} // verus!
