//! Character-level string operations used by the rest of the library:
//! substring search, whitespace trimming and string assembly, each with a
//! specification over `Seq<char>`.
use vstd::prelude::*;

verus! {

// ---------------------------------------------------------------------------
// Specifications
// ---------------------------------------------------------------------------

/// `needle` occurs somewhere in `hay` as a contiguous block (the empty
/// needle occurs in every string).
pub open spec fn has_infix(hay: Seq<char>, needle: Seq<char>) -> bool {
    exists|i: int|
        0 <= i && i + needle.len() <= hay.len() && #[trigger] hay.subrange(i, i + needle.len())
            == needle
}

/// The characters that carry the Unicode `White_Space` property, which is
/// what `char::is_whitespace` and `str::trim` go by.
pub open spec fn is_white_space(c: char) -> bool {
    ||| ('\u{9}' <= c && c <= '\u{d}')
    ||| c == ' '
    ||| c == '\u{85}'
    ||| c == '\u{a0}'
    ||| c == '\u{1680}'
    ||| ('\u{2000}' <= c && c <= '\u{200a}')
    ||| c == '\u{2028}'
    ||| c == '\u{2029}'
    ||| c == '\u{202f}'
    ||| c == '\u{205f}'
    ||| c == '\u{3000}'
}

/// `s` without its leading white space.
pub open spec fn trim_start(s: Seq<char>) -> Seq<char>
    decreases s.len(),
{
    if s.len() > 0 && is_white_space(s[0]) {
        trim_start(s.drop_first())
    } else {
        s
    }
}

/// `s` without its trailing white space.
pub open spec fn trim_end(s: Seq<char>) -> Seq<char>
    decreases s.len(),
{
    if s.len() > 0 && is_white_space(s.last()) {
        trim_end(s.drop_last())
    } else {
        s
    }
}

/// `s` without leading and trailing white space, as `str::trim` gives it.
pub open spec fn trimmed(s: Seq<char>) -> Seq<char> {
    trim_end(trim_start(s))
}

/// The lower-case form of a string as `str::to_lowercase` computes it
/// (Unicode case mapping; the result depends on the argument alone).
pub uninterp spec fn lowercase(s: Seq<char>) -> Seq<char>;

/// The text that `String::from_utf8_lossy` decodes from some bytes (invalid
/// sequences become U+FFFD; the result depends on the bytes alone).
pub uninterp spec fn utf8_lossy(bytes: Seq<u8>) -> Seq<char>;

// ---------------------------------------------------------------------------
// Trusted std calls
// ---------------------------------------------------------------------------

/// Calls `String::push`, which appends one character at the end.
#[verifier::external_body]
pub(crate) fn push_char(s: &mut String, c: char)
    ensures
        final(s)@ == old(s)@.push(c),
{
    s.push(c);
}

/// Calls `str::to_lowercase`; the result is named `lowercase` of the
/// argument, nothing more about the Unicode mapping is claimed.
#[verifier::external_body]
pub(crate) fn to_lowercase(s: &str) -> (r: String)
    ensures
        r@ == lowercase(s@),
{
    s.to_lowercase()
}

/// Calls `String::from_utf8_lossy` and takes the owned text; the result is
/// named `utf8_lossy` of the bytes, nothing more about UTF-8 decoding is
/// claimed.
#[verifier::external_body]
pub(crate) fn decode_utf8_lossy(bytes: &[u8]) -> (r: String)
    ensures
        r@ == utf8_lossy(bytes@),
{
    String::from_utf8_lossy(bytes).into_owned()
}

// ---------------------------------------------------------------------------
// Verified operations
// ---------------------------------------------------------------------------

/// The characters of `s`, in order.
pub fn chars_of(s: &str) -> (v: Vec<char>)
    ensures
        v@ == s@,
{
    let mut v: Vec<char> = Vec::new();
    for c in it: s.chars()
        invariant
            v@ == it.seq().take(it.index() as int),
    {
        v.push(c);
        proof {
            assert(v@ =~= it.seq().take(it.index() + 1));
        }
    }
    assert(v@ =~= s@);
    v
}

/// The string made of `v[lo..hi]`.
pub fn string_from_chars(v: &Vec<char>, lo: usize, hi: usize) -> (r: String)
    requires
        lo <= hi <= v.len(),
    ensures
        r@ == v@.subrange(lo as int, hi as int),
{
    let mut r = String::new();
    let mut i: usize = lo;
    while i < hi
        invariant
            lo <= i <= hi <= v.len(),
            r@ == v@.subrange(lo as int, i as int),
        decreases hi - i,
    {
        push_char(&mut r, v[i]);
        i = i + 1;
    }
    r
}

/// Whether `needle` occurs in `hay` at position `at`.
fn matches_at(hay: &Vec<char>, needle: &Vec<char>, at: usize) -> (r: bool)
    requires
        at + needle.len() <= hay.len(),
    ensures
        r == (hay@.subrange(at as int, at + needle.len()) == needle@),
{
    let mut k: usize = 0;
    while k < needle.len()
        invariant
            at + needle.len() <= hay.len(),
            k <= needle.len(),
            forall|j: int| 0 <= j < k ==> hay@[at + j] == needle@[j],
        decreases needle.len() - k,
    {
        if hay[at + k] != needle[k] {
            assert(hay@.subrange(at as int, at + needle.len())[k as int] != needle@[k as int]);
            return false;
        }
        k = k + 1;
    }
    assert(hay@.subrange(at as int, at + needle.len()) =~= needle@);
    true
}

/// Whether `needle` occurs in `hay`, as `str::contains` with a string
/// pattern answers it.
pub fn str_contains(hay: &str, needle: &str) -> (r: bool)
    ensures
        r == has_infix(hay@, needle@),
{
    let h = chars_of(hay);
    let n = chars_of(needle);
    if n.len() > h.len() {
        return false;
    }
    let last = h.len() - n.len();
    let mut i: usize = 0;
    loop
        invariant
            last == h.len() - n.len(),
            n.len() <= h.len(),
            i <= last,
            h@ == hay@,
            n@ == needle@,
            forall|k: int| 0 <= k < i ==> #[trigger] h@.subrange(k, k + n@.len()) != n@,
        decreases last - i,
    {
        if matches_at(&h, &n, i) {
            return true;
        }
        if i == last {
            return false;
        }
        i = i + 1;
    }
}

/// Whether `c` has the Unicode `White_Space` property.
pub fn is_white_space_char(c: char) -> (r: bool)
    ensures
        r == is_white_space(c),
{
    ('\u{9}' <= c && c <= '\u{d}') || c == ' ' || c == '\u{85}' || c == '\u{a0}' || c
        == '\u{1680}' || ('\u{2000}' <= c && c <= '\u{200a}') || c == '\u{2028}' || c
        == '\u{2029}' || c == '\u{202f}' || c == '\u{205f}' || c == '\u{3000}'
}

/// Dropping a white-space prefix of length `a` that is followed by a
/// non-space (or the end) is what `trim_start` does.
proof fn lemma_trim_start_at(s: Seq<char>, a: int)
    requires
        0 <= a <= s.len(),
        forall|k: int| 0 <= k < a ==> is_white_space(#[trigger] s[k]),
        a < s.len() ==> !is_white_space(s[a]),
    ensures
        trim_start(s) == s.subrange(a, s.len() as int),
    decreases a,
{
    if a == 0 {
        assert(s.subrange(0, s.len() as int) =~= s);
    } else {
        let t = s.drop_first();
        assert forall|k: int| 0 <= k < a - 1 implies is_white_space(#[trigger] t[k]) by {
            assert(t[k] == s[k + 1]);
        }
        lemma_trim_start_at(t, a - 1);
        assert(t.subrange(a - 1, t.len() as int) =~= s.subrange(a, s.len() as int));
    }
}

/// Dropping a white-space suffix that starts at `b` and is preceded by a
/// non-space (or the start) is what `trim_end` does.
proof fn lemma_trim_end_at(s: Seq<char>, b: int)
    requires
        0 <= b <= s.len(),
        forall|k: int| b <= k < s.len() ==> is_white_space(#[trigger] s[k]),
        b > 0 ==> !is_white_space(s[b - 1]),
    ensures
        trim_end(s) == s.subrange(0, b),
    decreases s.len() - b,
{
    if b == s.len() {
        assert(s.subrange(0, b) =~= s);
    } else {
        let t = s.drop_last();
        assert forall|k: int| b <= k < t.len() implies is_white_space(#[trigger] t[k]) by {
            assert(t[k] == s[k]);
        }
        lemma_trim_end_at(t, b);
        assert(t.subrange(0, b) =~= s.subrange(0, b));
    }
}

/// Where the leading white space of `s` ends.
proof fn trim_start_index(s: Seq<char>) -> (a: int)
    ensures
        0 <= a <= s.len(),
        forall|k: int| 0 <= k < a ==> is_white_space(#[trigger] s[k]),
        a < s.len() ==> !is_white_space(s[a]),
    decreases s.len(),
{
    if s.len() > 0 && is_white_space(s[0]) {
        let t = s.drop_first();
        let a = trim_start_index(t);
        assert forall|k: int| 0 <= k < a + 1 implies is_white_space(#[trigger] s[k]) by {
            if k > 0 {
                assert(s[k] == t[k - 1]);
            }
        }
        a + 1
    } else {
        0
    }
}

/// Where the trailing white space of `s` starts.
proof fn trim_end_index(s: Seq<char>) -> (b: int)
    ensures
        0 <= b <= s.len(),
        forall|k: int| b <= k < s.len() ==> is_white_space(#[trigger] s[k]),
        b > 0 ==> !is_white_space(s[b - 1]),
    decreases s.len(),
{
    if s.len() > 0 && is_white_space(s.last()) {
        let t = s.drop_last();
        let b = trim_end_index(t);
        assert forall|k: int| b <= k < s.len() implies is_white_space(#[trigger] s[k]) by {
            if k < s.len() - 1 {
                assert(s[k] == t[k]);
            }
        }
        b
    } else {
        s.len() as int
    }
}

/// Trimming keeps a middle block of the text: everything before it and
/// after it is white space, and the block neither starts nor ends with
/// white space.
pub proof fn lemma_trimmed_block(s: Seq<char>) -> (ab: (int, int))
    ensures
        0 <= ab.0 <= ab.1 <= s.len(),
        trimmed(s) == s.subrange(ab.0, ab.1),
        forall|k: int| 0 <= k < ab.0 ==> is_white_space(#[trigger] s[k]),
        forall|k: int| ab.1 <= k < s.len() ==> is_white_space(#[trigger] s[k]),
        ab.0 < ab.1 ==> !is_white_space(s[ab.0]) && !is_white_space(s[ab.1 - 1]),
{
    let a = trim_start_index(s);
    lemma_trim_start_at(s, a);
    let t = s.subrange(a, s.len() as int);
    let b = trim_end_index(t);
    lemma_trim_end_at(t, b);
    assert(t.subrange(0, b) =~= s.subrange(a, a + b));
    assert forall|k: int| a + b <= k < s.len() implies is_white_space(#[trigger] s[k]) by {
        assert(s[k] == t[k - a]);
    }
    if b > 0 {
        assert(s[a + b - 1] == t[b - 1]);
    }
    (a, a + b)
}

/// Trimming twice is trimming once.
pub proof fn lemma_trimmed_idempotent(s: Seq<char>)
    ensures
        trimmed(trimmed(s)) == trimmed(s),
{
    let (a, b) = lemma_trimmed_block(s);
    let t = trimmed(s);
    let (c, d) = lemma_trimmed_block(t);
    if a < b {
        assert(t[0] == s[a]);
        assert(t[t.len() - 1] == s[b - 1]);
        if c > 0 {
            assert(is_white_space(t[0]));
        }
        if d < t.len() {
            assert(is_white_space(t[t.len() - 1]));
        }
        assert(t.subrange(c, d) =~= t);
    } else {
        assert(t.subrange(c, d) =~= t);
    }
}

/// A needle that neither starts nor ends with white space occurs in a text
/// exactly when it occurs in the trimmed text.
pub proof fn lemma_infix_survives_trim(s: Seq<char>, n: Seq<char>)
    requires
        n.len() > 0,
        !is_white_space(n[0]),
        !is_white_space(n.last()),
    ensures
        has_infix(trimmed(s), n) == has_infix(s, n),
{
    let (a, b) = lemma_trimmed_block(s);
    let t = trimmed(s);
    if has_infix(s, n) {
        let i = choose|i: int|
            0 <= i && i + n.len() <= s.len() && #[trigger] s.subrange(i, i + n.len()) == n;
        assert(s[i] == n[0]);
        assert(s[i + n.len() - 1] == n.last());
        if i < a {
            assert(is_white_space(s[i]));
        }
        if i + n.len() > b {
            assert(is_white_space(s[i + n.len() - 1]));
        }
        assert(t.subrange(i - a, i - a + n.len()) =~= s.subrange(i, i + n.len()));
    }
    if has_infix(t, n) {
        let j = choose|j: int|
            0 <= j && j + n.len() <= t.len() && #[trigger] t.subrange(j, j + n.len()) == n;
        assert(s.subrange(j + a, j + a + n.len()) =~= t.subrange(j, j + n.len()));
    }
}

/// Occurrence is transitive: a block of a block of `x` is a block of `x`.
pub proof fn lemma_infix_transitive(x: Seq<char>, y: Seq<char>, z: Seq<char>)
    requires
        has_infix(x, y),
        has_infix(y, z),
    ensures
        has_infix(x, z),
{
    let i = choose|i: int| 0 <= i && i + y.len() <= x.len() && #[trigger] x.subrange(i, i + y.len()) == y;
    let j = choose|j: int| 0 <= j && j + z.len() <= y.len() && #[trigger] y.subrange(j, j + z.len()) == z;
    assert(x.subrange(i + j, i + j + z.len()) =~= z) by {
        assert forall|k: int| 0 <= k < z.len() implies x.subrange(i + j, i + j + z.len())[k] == z[k] by {
            assert(z[k] == y.subrange(j, j + z.len())[k]);
            assert(y[j + k] == x.subrange(i, i + y.len())[j + k]);
        }
    }
}

/// `s` with leading and trailing white space removed, as
/// `s.trim().to_string()` gives it.
pub fn trim_whitespace(s: &str) -> (r: String)
    ensures
        r@ == trimmed(s@),
{
    let v = chars_of(s);
    let n = v.len();
    let mut a: usize = 0;
    while a < n && is_white_space_char(v[a])
        invariant
            n == v.len(),
            a <= n,
            forall|k: int| 0 <= k < a ==> is_white_space(#[trigger] v@[k]),
        decreases n - a,
    {
        a = a + 1;
    }
    proof {
        lemma_trim_start_at(v@, a as int);
    }
    let ghost rest = v@.subrange(a as int, n as int);
    let mut b: usize = n;
    while b > a && is_white_space_char(v[b - 1])
        invariant
            n == v.len(),
            a <= b <= n,
            forall|k: int| b <= k < n ==> is_white_space(#[trigger] v@[k]),
        decreases b - a,
    {
        b = b - 1;
    }
    proof {
        assert forall|k: int| b - a <= k < rest.len() implies is_white_space(#[trigger] rest[k]) by {
            assert(rest[k] == v@[k + a]);
        }
        if b > a {
            assert(rest[b - a - 1] == v@[b - 1]);
        }
        lemma_trim_end_at(rest, b - a);
        assert(rest.subrange(0, b - a) =~= v@.subrange(a as int, b as int));
    }
    string_from_chars(&v, a, b)
}

/// `a` followed by `b`.
pub fn concat_str(a: &str, b: &str) -> (r: String)
    ensures
        r@ == a@ + b@,
{
    let mut r = String::from_str(a);
    r.append(b);
    r
}


/// Whether `a` and `b` are the same text.
pub fn str_equals(a: &str, b: &str) -> (r: bool)
    ensures
        r == (a@ == b@),
{
    let x = chars_of(a);
    let y = chars_of(b);
    if x.len() != y.len() {
        return false;
    }
    let mut i: usize = 0;
    while i < x.len()
        invariant
            x@ == a@,
            y@ == b@,
            x.len() == y.len(),
            i <= x.len(),
            forall|k: int| 0 <= k < i ==> x@[k] == y@[k],
        decreases x.len() - i,
    {
        if x[i] != y[i] {
            return false;
        }
        i = i + 1;
    }
    assert(x@ =~= y@);
    true
}

/// The character of a decimal digit.
pub open spec fn digit_char(d: int) -> char {
    ((d + 48) as u8) as char
}

/// The decimal notation of a natural number, without leading zeros.
pub open spec fn decimal(n: nat) -> Seq<char>
    decreases n,
{
    if n < 10 {
        seq![digit_char(n as int)]
    } else {
        decimal(n / 10).push(digit_char((n % 10) as int))
    }
}

/// The decimal notation of an integer, with a minus sign when negative.
pub open spec fn signed_decimal(n: int) -> Seq<char> {
    if n < 0 {
        seq!['-'] + decimal((-n) as nat)
    } else {
        decimal(n as nat)
    }
}

/// Appends the decimal notation of `n` to `s`.
pub fn push_decimal(s: &mut String, n: u128)
    ensures
        final(s)@ == old(s)@ + decimal(n as nat),
    decreases n,
{
    if n >= 10 {
        push_decimal(s, n / 10);
    }
    let d: u8 = (n % 10) as u8;
    push_char(s, (d + 48) as char);
    proof {
        if n < 10 {
            assert(old(s)@ + decimal(n as nat) =~= old(s)@.push(digit_char(n as int)));
        } else {
            assert(old(s)@ + decimal(n as nat) =~= (old(s)@ + decimal((n / 10) as nat)).push(
                digit_char((n % 10) as int),
            ));
        }
    }
}

/// Appends the decimal notation of `n`, signed, to `s`.
pub fn push_signed_decimal(s: &mut String, n: i32)
    ensures
        final(s)@ == old(s)@ + signed_decimal(n as int),
{
    if n < 0 {
        push_char(s, '-');
        let m: i64 = -(n as i64);
        push_decimal(s, m as u128);
        assert(s@ =~= old(s)@ + signed_decimal(n as int)) by {
            assert(old(s)@.push('-') + decimal((-n) as nat) =~= old(s)@ + (seq!['-'] + decimal((-n) as nat)));
        }
    } else {
        push_decimal(s, n as u128);
    }
}

} // verus!
