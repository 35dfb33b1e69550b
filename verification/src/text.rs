//! Character-level text primitives shared by the generators and parsers of
//! the CLI: whitespace trimming, line splitting, prefix tests, searching and
//! literal replacement, each specified over `Seq<char>`.
use vstd::prelude::*;

verus! {

// ── Conversions between `str`, `String` and character vectors ─────────────

/// `String::push`: appends one character.
#[verifier::external_body]
pub(crate) fn push_char(s: &mut String, c: char)
    ensures
        final(s)@ == old(s)@.push(c),
{
    s.push(c);
}

/// The characters of `s`, in order.
pub fn chars_of(s: &str) -> (v: Vec<char>)
    ensures
        v@ == s@,
{
    let n = s.unicode_len();
    let mut v: Vec<char> = Vec::new();
    let mut i: usize = 0;
    while i < n
        invariant
            n == s@.len(),
            i <= n,
            v@ == s@.subrange(0, i as int),
        decreases n - i,
    {
        let c = s.get_char(i);
        v.push(c);
        i = i + 1;
        assert(v@ =~= s@.subrange(0, i as int));
    }
    assert(v@ =~= s@);
    v
}

/// A `String` holding the characters `cs[a..b]`.
pub fn string_from_range(cs: &Vec<char>, a: usize, b: usize) -> (r: String)
    requires
        a <= b <= cs@.len(),
    ensures
        r@ == cs@.subrange(a as int, b as int),
{
    let mut r = String::new();
    let mut i: usize = a;
    while i < b
        invariant
            a <= i <= b <= cs@.len(),
            r@ == cs@.subrange(a as int, i as int),
        decreases b - i,
    {
        push_char(&mut r, cs[i]);
        i = i + 1;
        assert(r@ =~= cs@.subrange(a as int, i as int));
    }
    r
}

/// A `String` holding exactly the characters of `cs`.
pub fn string_from_chars(cs: &Vec<char>) -> (r: String)
    ensures
        r@ == cs@,
{
    let r = string_from_range(cs, 0, cs.len());
    assert(cs@.subrange(0, cs@.len() as int) =~= cs@);
    r
}

/// The text of an optional string.
pub open spec fn opt_view(o: Option<String>) -> Option<Seq<char>> {
    match o {
        Some(s) => Some(s@),
        None => None,
    }
}

/// The texts of a sequence of strings.
pub open spec fn sviews(v: Seq<String>) -> Seq<Seq<char>> {
    v.map_values(|x: String| x@)
}

/// The texts of a sequence of string pairs.
pub open spec fn pair_views(v: Seq<(String, String)>) -> Seq<(Seq<char>, Seq<char>)> {
    v.map_values(|kv: (String, String)| (kv.0@, kv.1@))
}

/// An owned copy of `s`.
pub fn to_owned_string(s: &str) -> (r: String)
    ensures
        r@ == s@,
{
    String::from_str(s)
}

/// Appends `tail` to `s`.
pub fn push_str(s: &mut String, tail: &str)
    ensures
        final(s)@ == old(s)@ + tail@,
{
    s.append(tail);
}

/// Appends the characters of `tail` to `s`.
pub fn push_seq(s: &mut String, tail: &Vec<char>)
    ensures
        final(s)@ == old(s)@ + tail@,
{
    let ghost s0 = s@;
    let mut i: usize = 0;
    while i < tail.len()
        invariant
            i <= tail@.len(),
            s@ == s0 + tail@.subrange(0, i as int),
        decreases tail@.len() - i,
    {
        push_char(s, tail[i]);
        i = i + 1;
        assert(s@ =~= s0 + tail@.subrange(0, i as int));
    }
    assert(tail@.subrange(0, tail@.len() as int) =~= tail@);
}

/// Character-sequence equality of two strings.
pub fn str_eq(a: &str, b: &str) -> (r: bool)
    ensures
        r == (a@ == b@),
{
    let x = chars_of(a);
    let y = chars_of(b);
    seq_eq(&x, &y)
}

/// Element-wise equality of two character vectors.
pub fn seq_eq(x: &Vec<char>, y: &Vec<char>) -> (r: bool)
    ensures
        r == (x@ == y@),
{
    if x.len() != y.len() {
        return false;
    }
    let mut i: usize = 0;
    while i < x.len()
        invariant
            x@.len() == y@.len(),
            i <= x@.len(),
            forall|j: int| 0 <= j < i ==> x@[j] == y@[j],
        decreases x@.len() - i,
    {
        if x[i] != y[i] {
            return false;
        }
        i = i + 1;
    }
    assert(x@ =~= y@);
    true
}

// ── Case mapping ─────────────────────────────────────────────────────────────

/// What `char::to_uppercase` yields for `c` under the Unicode case tables.
pub uninterp spec fn spec_char_upper(c: char) -> Seq<char>;

/// What `str::to_lowercase` yields for `s` under the Unicode case tables.
pub uninterp spec fn spec_str_lower(s: Seq<char>) -> Seq<char>;

/// Whether `char::is_alphanumeric` holds of `c` (Unicode `Alphabetic` or `Numeric`).
pub uninterp spec fn spec_is_alphanumeric(c: char) -> bool;

pub open spec fn is_ascii_lower(c: char) -> bool {
    'a' <= c <= 'z'
}

pub open spec fn is_ascii_upper(c: char) -> bool {
    'A' <= c <= 'Z'
}

pub open spec fn is_ascii_digit(c: char) -> bool {
    '0' <= c <= '9'
}

/// `char::to_uppercase`, collected. Its documentation promises the Unicode
/// mapping; of it this contract states only the ASCII part: a lowercase ASCII
/// letter maps to its uppercase letter, and any other ASCII character to itself.
#[verifier::external_body]
pub(crate) fn char_to_uppercase(c: char) -> (r: Vec<char>)
    ensures
        r@ == spec_char_upper(c),
        is_ascii_lower(c) ==> r@ == seq![((c as u32) - 32) as char],
        (c as u32) < 128 && !is_ascii_lower(c) ==> r@ == seq![c],
{
    c.to_uppercase().collect()
}

/// `str::to_lowercase`. Its documentation promises the Unicode mapping (with
/// the context-dependent final sigma); this contract states only that text
/// that is all ASCII maps character by character to its ASCII lowercase.
#[verifier::external_body]
pub(crate) fn str_to_lowercase(s: &str) -> (r: String)
    ensures
        r@ == spec_str_lower(s@),
        (forall|i: int| 0 <= i < s@.len() ==> (#[trigger] s@[i] as u32) < 128) ==> r@ == s@.map_values(
            |c: char| ascii_lower(c),
        ),
{
    s.to_lowercase()
}

/// `char::is_alphanumeric`. Its documentation defines it by the Unicode
/// `Alphabetic` and `Numeric` properties; this contract states the ASCII
/// part: ASCII letters and digits, and no other ASCII character.
#[verifier::external_body]
pub(crate) fn char_is_alphanumeric(c: char) -> (r: bool)
    ensures
        r == spec_is_alphanumeric(c),
        (c as u32) < 128 ==> (r == (is_ascii_lower(c) || is_ascii_upper(c) || is_ascii_digit(c))),
{
    c.is_alphanumeric()
}

/// ASCII lowercase of one character (`char::to_ascii_lowercase`).
pub open spec fn ascii_lower(c: char) -> char {
    if is_ascii_upper(c) {
        ((c as u32) + 32) as char
    } else {
        c
    }
}

pub fn to_ascii_lower_char(c: char) -> (r: char)
    ensures
        r == ascii_lower(c),
{
    if 'A' <= c && c <= 'Z' {
        let u = (c as u32) + 32;
        assert(0x61 <= u <= 0x7A);
        char_from_ascii(u)
    } else {
        c
    }
}

/// The character of an ASCII code point.
fn char_from_ascii(u: u32) -> (r: char)
    requires
        u < 128,
    ensures
        r == u as char,
        r as u32 == u,
{
    let b = u as u8;
    b as char
}

/// `str::to_ascii_lowercase` on a character sequence.
pub open spec fn ascii_lowercase(s: Seq<char>) -> Seq<char> {
    s.map_values(|c: char| ascii_lower(c))
}

/// Lowering ASCII letters twice is lowering them once; so a name already in
/// lower case is its own lookup key.
pub proof fn law_ascii_lowercase_idempotent(s: Seq<char>)
    ensures
        ascii_lowercase(ascii_lowercase(s)) == ascii_lowercase(s),
{
    assert forall|i: int| 0 <= i < s.len() implies ascii_lower(#[trigger] ascii_lower(s[i])) == ascii_lower(s[i]) by {
        let c = s[i];
        if is_ascii_upper(c) {
            assert(!is_ascii_upper(ascii_lower(c)));
        }
    }
    assert(ascii_lowercase(ascii_lowercase(s)) =~= ascii_lowercase(s));
}

/// `str::to_ascii_lowercase`.
pub fn to_ascii_lowercase(s: &str) -> (r: String)
    ensures
        r@ == ascii_lowercase(s@),
{
    let cs = chars_of(s);
    let mut out = String::new();
    let mut i: usize = 0;
    while i < cs.len()
        invariant
            i <= cs@.len(),
            out@ == cs@.subrange(0, i as int).map_values(|c: char| ascii_lower(c)),
        decreases cs@.len() - i,
    {
        let c = to_ascii_lower_char(cs[i]);
        push_char(&mut out, c);
        i = i + 1;
        assert(out@ =~= cs@.subrange(0, i as int).map_values(|c: char| ascii_lower(c)));
    }
    assert(cs@.subrange(0, cs@.len() as int) =~= cs@);
    out
}

// ── Whitespace and trimming ─────────────────────────────────────────────────

/// The Unicode `White_Space` property, which `char::is_whitespace` and the
/// `trim` family of `str` follow.
pub open spec fn is_ws(c: char) -> bool {
    let u = c as u32;
    ||| 0x09 <= u <= 0x0D
    ||| u == 0x20
    ||| u == 0x85
    ||| u == 0xA0
    ||| u == 0x1680
    ||| 0x2000 <= u <= 0x200A
    ||| u == 0x2028
    ||| u == 0x2029
    ||| u == 0x202F
    ||| u == 0x205F
    ||| u == 0x3000
}

pub fn is_whitespace(c: char) -> (r: bool)
    ensures
        r == is_ws(c),
{
    let u = c as u32;
    (0x09 <= u && u <= 0x0D) || u == 0x20 || u == 0x85 || u == 0xA0 || u == 0x1680 || (0x2000
        <= u && u <= 0x200A) || u == 0x2028 || u == 0x2029 || u == 0x202F || u == 0x205F || u
        == 0x3000
}

/// `s` without its leading whitespace.
pub open spec fn trim_start(s: Seq<char>) -> Seq<char>
    decreases s.len(),
{
    if s.len() > 0 && is_ws(s[0]) {
        trim_start(s.drop_first())
    } else {
        s
    }
}

/// `s` without its trailing whitespace.
pub open spec fn trim_end(s: Seq<char>) -> Seq<char>
    decreases s.len(),
{
    if s.len() > 0 && is_ws(s.last()) {
        trim_end(s.drop_last())
    } else {
        s
    }
}

/// `s` without leading and trailing whitespace (`str::trim`).
pub open spec fn trim(s: Seq<char>) -> Seq<char> {
    trim_end(trim_start(s))
}

proof fn lemma_trim_start_at(s: Seq<char>, k: int)
    requires
        0 <= k <= s.len(),
        forall|j: int| 0 <= j < k ==> is_ws(#[trigger] s[j]),
        k == s.len() || !is_ws(s[k]),
    ensures
        trim_start(s) == s.subrange(k, s.len() as int),
    decreases k,
{
    if k == 0 {
        assert(s.subrange(0, s.len() as int) =~= s);
    } else {
        let t = s.drop_first();
        assert forall|j: int| 0 <= j < k - 1 implies is_ws(#[trigger] t[j]) by {
            assert(t[j] == s[j + 1]);
        }
        lemma_trim_start_at(t, k - 1);
        assert(t.subrange(k - 1, t.len() as int) =~= s.subrange(k, s.len() as int));
    }
}

proof fn lemma_trim_end_at(s: Seq<char>, k: int)
    requires
        0 <= k <= s.len(),
        forall|j: int| k <= j < s.len() ==> is_ws(#[trigger] s[j]),
        k == 0 || !is_ws(s[k - 1]),
    ensures
        trim_end(s) == s.subrange(0, k),
    decreases s.len() - k,
{
    if k == s.len() {
        assert(s.subrange(0, k) =~= s);
    } else {
        let t = s.drop_last();
        assert forall|j: int| k <= j < t.len() implies is_ws(#[trigger] t[j]) by {
            assert(t[j] == s[j]);
        }
        lemma_trim_end_at(t, k);
        assert(t.subrange(0, k) =~= s.subrange(0, k));
    }
}

/// The bounds `(a, b)` with `trim(cs@) == cs@[a..b]`.
pub fn trim_bounds(cs: &Vec<char>, from: usize, to: usize) -> (r: (usize, usize))
    requires
        from <= to <= cs@.len(),
    ensures
        from <= r.0 <= r.1 <= to,
        cs@.subrange(r.0 as int, r.1 as int) == trim(cs@.subrange(from as int, to as int)),
        trim_start(cs@.subrange(from as int, to as int)) == cs@.subrange(r.0 as int, to as int),
{
    let ghost s = cs@.subrange(from as int, to as int);
    let mut a = from;
    while a < to && is_whitespace(cs[a])
        invariant
            from <= a <= to <= cs@.len(),
            forall|j: int| from <= j < a ==> is_ws(#[trigger] cs@[j]),
        decreases to - a,
    {
        a = a + 1;
    }
    proof {
        assert forall|j: int| 0 <= j < a - from implies is_ws(#[trigger] s[j]) by {
            assert(s[j] == cs@[from + j]);
        }
        lemma_trim_start_at(s, a - from);
        assert(s.subrange(a - from, s.len() as int) =~= cs@.subrange(a as int, to as int));
    }
    let mut b = to;
    while b > a && is_whitespace(cs[b - 1])
        invariant
            from <= a <= b <= to <= cs@.len(),
            forall|j: int| b <= j < to ==> is_ws(#[trigger] cs@[j]),
        decreases b - a,
    {
        b = b - 1;
    }
    proof {
        let t = cs@.subrange(a as int, to as int);
        assert forall|j: int| b - a <= j < t.len() implies is_ws(#[trigger] t[j]) by {
            assert(t[j] == cs@[a + j]);
        }
        if b > a {
            assert(t[b - a - 1] == cs@[b - 1]);
        }
        lemma_trim_end_at(t, b - a);
        assert(t.subrange(0, b - a) =~= cs@.subrange(a as int, b as int));
    }
    (a, b)
}

/// `str::trim`, as an owned string.
pub fn trim_string(s: &str) -> (r: String)
    ensures
        r@ == trim(s@),
{
    let cs = chars_of(s);
    let (a, b) = trim_bounds(&cs, 0, cs.len());
    assert(cs@.subrange(0, cs@.len() as int) =~= cs@);
    string_from_range(&cs, a, b)
}

/// The length of `trim_end(cs@)`.
pub fn trim_end_len(cs: &Vec<char>) -> (r: usize)
    ensures
        r <= cs@.len(),
        cs@.subrange(0, r as int) == trim_end(cs@),
{
    let mut b = cs.len();
    while b > 0 && is_whitespace(cs[b - 1])
        invariant
            b <= cs@.len(),
            forall|j: int| b <= j < cs@.len() ==> is_ws(#[trigger] cs@[j]),
        decreases b,
    {
        b = b - 1;
    }
    proof {
        lemma_trim_end_at(cs@, b as int);
    }
    b
}

/// `n` spaces.
pub open spec fn spaces(n: nat) -> Seq<char> {
    Seq::new(n, |i: int| ' ')
}

/// Appends `n` spaces to `s`.
pub fn push_spaces(s: &mut String, n: usize)
    ensures
        final(s)@ == old(s)@ + spaces(n as nat),
{
    let ghost s0 = s@;
    let mut i: usize = 0;
    while i < n
        invariant
            i <= n,
            s@ == s0 + spaces(i as nat),
        decreases n - i,
    {
        push_char(s, ' ');
        i = i + 1;
        assert(s@ =~= s0 + spaces(i as nat));
    }
}

/// `s` without leading occurrences of `c`.
pub open spec fn trim_char_start(s: Seq<char>, c: char) -> Seq<char>
    decreases s.len(),
{
    if s.len() > 0 && s[0] == c {
        trim_char_start(s.drop_first(), c)
    } else {
        s
    }
}

/// `s` without trailing occurrences of `c`.
pub open spec fn trim_char_end(s: Seq<char>, c: char) -> Seq<char>
    decreases s.len(),
{
    if s.len() > 0 && s.last() == c {
        trim_char_end(s.drop_last(), c)
    } else {
        s
    }
}

/// `str::trim_matches(c)` for a single character `c`.
pub open spec fn trim_char(s: Seq<char>, c: char) -> Seq<char> {
    trim_char_end(trim_char_start(s, c), c)
}

proof fn lemma_trim_char_start_at(s: Seq<char>, c: char, k: int)
    requires
        0 <= k <= s.len(),
        forall|j: int| 0 <= j < k ==> #[trigger] s[j] == c,
        k == s.len() || s[k] != c,
    ensures
        trim_char_start(s, c) == s.subrange(k, s.len() as int),
    decreases k,
{
    if k == 0 {
        assert(s.subrange(0, s.len() as int) =~= s);
    } else {
        let t = s.drop_first();
        assert forall|j: int| 0 <= j < k - 1 implies #[trigger] t[j] == c by {
            assert(t[j] == s[j + 1]);
        }
        lemma_trim_char_start_at(t, c, k - 1);
        assert(t.subrange(k - 1, t.len() as int) =~= s.subrange(k, s.len() as int));
    }
}

proof fn lemma_trim_char_end_at(s: Seq<char>, c: char, k: int)
    requires
        0 <= k <= s.len(),
        forall|j: int| k <= j < s.len() ==> #[trigger] s[j] == c,
        k == 0 || s[k - 1] != c,
    ensures
        trim_char_end(s, c) == s.subrange(0, k),
    decreases s.len() - k,
{
    if k == s.len() {
        assert(s.subrange(0, k) =~= s);
    } else {
        let t = s.drop_last();
        assert forall|j: int| k <= j < t.len() implies #[trigger] t[j] == c by {
            assert(t[j] == s[j]);
        }
        lemma_trim_char_end_at(t, c, k);
        assert(t.subrange(0, k) =~= s.subrange(0, k));
    }
}

/// The bounds `(a, b)` with `trim_char(cs@[from..to], c) == cs@[a..b]`.
pub fn trim_char_bounds(cs: &Vec<char>, from: usize, to: usize, c: char) -> (r: (usize, usize))
    requires
        from <= to <= cs@.len(),
    ensures
        from <= r.0 <= r.1 <= to,
        cs@.subrange(r.0 as int, r.1 as int) == trim_char(cs@.subrange(from as int, to as int), c),
{
    let ghost s = cs@.subrange(from as int, to as int);
    let mut a = from;
    while a < to && cs[a] == c
        invariant
            from <= a <= to <= cs@.len(),
            forall|j: int| from <= j < a ==> #[trigger] cs@[j] == c,
        decreases to - a,
    {
        a = a + 1;
    }
    proof {
        assert forall|j: int| 0 <= j < a - from implies #[trigger] s[j] == c by {
            assert(s[j] == cs@[from + j]);
        }
        lemma_trim_char_start_at(s, c, a - from);
        assert(s.subrange(a - from, s.len() as int) =~= cs@.subrange(a as int, to as int));
    }
    let mut b = to;
    while b > a && cs[b - 1] == c
        invariant
            from <= a <= b <= to <= cs@.len(),
            forall|j: int| b <= j < to ==> #[trigger] cs@[j] == c,
        decreases b - a,
    {
        b = b - 1;
    }
    proof {
        let t = cs@.subrange(a as int, to as int);
        assert forall|j: int| b - a <= j < t.len() implies #[trigger] t[j] == c by {
            assert(t[j] == cs@[a + j]);
        }
        if b > a {
            assert(t[b - a - 1] == cs@[b - 1]);
        }
        lemma_trim_char_end_at(t, c, b - a);
        assert(t.subrange(0, b - a) =~= cs@.subrange(a as int, b as int));
    }
    (a, b)
}

/// What `f` yields on the first line of `ls` on which it yields something
/// (`Iterator::find_map`).
pub open spec fn first_some(ls: Seq<Seq<char>>, f: spec_fn(Seq<char>) -> Option<Seq<char>>) -> Option<Seq<char>>
    decreases ls.len(),
{
    if ls.len() == 0 {
        None
    } else {
        match f(ls[0]) {
            Some(v) => Some(v),
            None => first_some(ls.drop_first(), f),
        }
    }
}

pub proof fn lemma_first_some(ls: Seq<Seq<char>>, f: spec_fn(Seq<char>) -> Option<Seq<char>>, k: int)
    requires
        0 <= k <= ls.len(),
        forall|j: int| 0 <= j < k ==> f(#[trigger] ls[j]) is None,
    ensures
        first_some(ls, f) == first_some(ls.skip(k), f),
    decreases k,
{
    if k == 0 {
        assert(ls.skip(0) =~= ls);
    } else {
        let t = ls.drop_first();
        assert forall|j: int| 0 <= j < k - 1 implies f(#[trigger] t[j]) is None by {
            assert(t[j] == ls[j + 1]);
        }
        assert(f(ls[0]) is None);
        lemma_first_some(t, f, k - 1);
        assert(t.skip(k - 1) =~= ls.skip(k));
    }
}

// ── Prefixes, suffixes, searching ───────────────────────────────────────────

pub open spec fn starts_with(s: Seq<char>, p: Seq<char>) -> bool {
    p.len() <= s.len() && s.subrange(0, p.len() as int) == p
}

pub open spec fn ends_with(s: Seq<char>, p: Seq<char>) -> bool {
    p.len() <= s.len() && s.subrange(s.len() - p.len(), s.len() as int) == p
}

/// Whether `p` occurs in `s` at position `i`.
pub open spec fn occurs_at(s: Seq<char>, p: Seq<char>, i: int) -> bool {
    0 <= i && i + p.len() <= s.len() && s.subrange(i, i + p.len()) == p
}

pub open spec fn contains(s: Seq<char>, p: Seq<char>) -> bool {
    exists|i: int| occurs_at(s, p, i)
}

/// The first position at which `p` occurs in `s` (`str::find`).
pub open spec fn find(s: Seq<char>, p: Seq<char>) -> Option<int> {
    if contains(s, p) {
        Some(choose|i: int| occurs_at(s, p, i) && forall|j: int| 0 <= j < i ==> !occurs_at(s, p, j))
    } else {
        None
    }
}

/// Does `cs[i..]` start with `p`?
pub fn occurs_at_exec(cs: &Vec<char>, p: &Vec<char>, i: usize) -> (r: bool)
    ensures
        r == occurs_at(cs@, p@, i as int),
{
    let n = cs.len();
    if i > n || p.len() > n - i {
        return false;
    }
    let mut k: usize = 0;
    while k < p.len()
        invariant
            n == cs@.len(),
            i + p@.len() <= n,
            k <= p@.len(),
            forall|j: int| 0 <= j < k ==> cs@[i + j] == p@[j],
        decreases p@.len() - k,
    {
        if cs[i + k] != p[k] {
            assert(cs@.subrange(i as int, i + p@.len())[k as int] != p@[k as int]);
            return false;
        }
        k = k + 1;
    }
    assert(cs@.subrange(i as int, i + p@.len()) =~= p@);
    true
}

/// The first position `>= from` at which `p` occurs in `cs`, if any.
pub fn find_from(cs: &Vec<char>, p: &Vec<char>, from: usize) -> (r: Option<usize>)
    requires
        from <= cs@.len(),
    ensures
        match r {
            Some(i) => from <= i && occurs_at(cs@, p@, i as int) && forall|j: int|
                from <= j < i ==> !occurs_at(cs@, p@, j),
            None => forall|j: int| from <= j ==> !occurs_at(cs@, p@, j),
        },
{
    let n = cs.len();
    let mut i = from;
    while i < n
        invariant
            n == cs@.len(),
            from <= i <= n,
            forall|j: int| from <= j < i ==> !occurs_at(cs@, p@, j),
        decreases n - i,
    {
        if occurs_at_exec(cs, p, i) {
            return Some(i);
        }
        i = i + 1;
    }
    if occurs_at_exec(cs, p, n) {
        return Some(n);
    }
    assert forall|j: int| from <= j implies !occurs_at(cs@, p@, j) by {
        if j > n {
            assert(!occurs_at(cs@, p@, j));
        }
    }
    None
}

/// `str::find`: the first position at which `p` occurs in `s`.
pub fn find_str(s: &str, p: &str) -> (r: Option<usize>)
    ensures
        r matches Some(i) ==> find(s@, p@) == Some(i as int),
        r is None ==> find(s@, p@) is None,
{
    let cs = chars_of(s);
    let ps = chars_of(p);
    let r = find_from(&cs, &ps, 0);
    match r {
        Some(i) => {
            assert(contains(s@, p@));
            let ghost k = choose|k: int|
                occurs_at(s@, p@, k) && forall|j: int| 0 <= j < k ==> !occurs_at(s@, p@, j);
            assert(k == i) by {
                if k < i {
                } else if k > i {
                }
            }
        },
        None => {},
    }
    r
}

/// `str::contains`.
pub fn contains_str(s: &str, p: &str) -> (r: bool)
    ensures
        r == contains(s@, p@),
{
    let cs = chars_of(s);
    let ps = chars_of(p);
    let r = find_from(&cs, &ps, 0);
    r.is_some()
}

/// `str::starts_with`.
pub fn starts_with_str(s: &str, p: &str) -> (r: bool)
    ensures
        r == starts_with(s@, p@),
{
    let cs = chars_of(s);
    let ps = chars_of(p);
    occurs_at_exec(&cs, &ps, 0)
}

pub fn starts_with_chars(cs: &Vec<char>, p: &str) -> (r: bool)
    ensures
        r == starts_with(cs@, p@),
{
    let ps = chars_of(p);
    occurs_at_exec(cs, &ps, 0)
}

/// `str::ends_with`.
pub fn ends_with_chars(cs: &Vec<char>, p: &str) -> (r: bool)
    ensures
        r == ends_with(cs@, p@),
{
    let ps = chars_of(p);
    if ps.len() > cs.len() {
        return false;
    }
    occurs_at_exec(cs, &ps, cs.len() - ps.len())
}

/// The part of the trimmed `line` after `prefix`, when the trimmed line starts
/// with `prefix`: the characters of `line` and the bounds of that part.
pub fn trimmed_after_prefix(line: &str, prefix: &str) -> (r: Option<(Vec<char>, usize, usize)>)
    ensures
        match r {
            Some((cs, a, b)) => {
                &&& cs@ == line@
                &&& a <= b <= cs@.len()
                &&& starts_with(trim(line@), prefix@)
                &&& cs@.subrange(a as int, b as int) == trim(line@).skip(prefix@.len() as int)
            },
            None => !starts_with(trim(line@), prefix@),
        },
{
    let cs = chars_of(line);
    let ps = chars_of(prefix);
    let (a, b) = trim_bounds(&cs, 0, cs.len());
    assert(cs@.subrange(0, cs@.len() as int) =~= cs@);
    let ghost t = cs@.subrange(a as int, b as int);
    if ps.len() > b - a {
        return None;
    }
    let ok = occurs_at_exec(&cs, &ps, a);
    proof {
        assert(t.subrange(0, ps@.len() as int) =~= cs@.subrange(a as int, a + ps@.len()));
    }
    if !ok {
        return None;
    }
    let start = a + ps.len();
    assert(t.skip(ps@.len() as int) =~= cs@.subrange(start as int, b as int));
    Some((cs, start, b))
}

// ── Lines ───────────────────────────────────────────────────────────────────

/// Index of the first `c` in `s`, or `s.len()` when there is none.
pub open spec fn index_of_char(s: Seq<char>, c: char) -> int
    decreases s.len(),
{
    if s.len() == 0 {
        0
    } else if s[0] == c {
        0
    } else {
        1 + index_of_char(s.drop_first(), c)
    }
}

pub proof fn lemma_index_of_char(s: Seq<char>, c: char, k: int)
    requires
        0 <= k <= s.len(),
        forall|j: int| 0 <= j < k ==> #[trigger] s[j] != c,
        k == s.len() || s[k] == c,
    ensures
        index_of_char(s, c) == k,
    decreases k,
{
    if k > 0 {
        let t = s.drop_first();
        assert forall|j: int| 0 <= j < k - 1 implies #[trigger] t[j] != c by {
            assert(t[j] == s[j + 1]);
        }
        assert(s[0] != c);
        lemma_index_of_char(t, c, k - 1);
    }
}

/// One line as `str::lines` yields it: without its `\n`, and without a `\r`
/// that stood just before that `\n`.
pub open spec fn strip_cr(line: Seq<char>) -> Seq<char> {
    if line.len() > 0 && line.last() == '\r' {
        line.drop_last()
    } else {
        line
    }
}

/// `str::lines`: split at `\n` (and `\r\n`); a final line ending is optional,
/// and the empty text has no lines.
pub open spec fn lines(s: Seq<char>) -> Seq<Seq<char>>
    decreases s.len(),
{
    if s.len() == 0 {
        seq![]
    } else {
        let k = index_of_char(s, '\n');
        proof {
            lemma_index_of_char_bound(s, '\n');
        }
        if k >= s.len() {
            seq![s]
        } else {
            seq![strip_cr(s.take(k))] + lines(s.skip(k + 1))
        }
    }
}

pub proof fn lemma_index_of_char_bound(s: Seq<char>, c: char)
    ensures
        0 <= index_of_char(s, c) <= s.len(),
        index_of_char(s, c) < s.len() ==> s[index_of_char(s, c)] == c,
        forall|j: int| 0 <= j < index_of_char(s, c) ==> s[j] != c,
    decreases s.len(),
{
    if s.len() > 0 && s[0] != c {
        lemma_index_of_char_bound(s.drop_first(), c);
        let t = s.drop_first();
        assert forall|j: int| 0 <= j < index_of_char(s, c) implies s[j] != c by {
            if j > 0 {
                assert(s[j] == t[j - 1]);
            }
        }
    }
}

/// The next line of `cs` starting at `start`: its bounds without line ending,
/// and where the line after it starts.
pub fn next_line(cs: &Vec<char>, start: usize) -> (r: (usize, usize, usize))
    requires
        start < cs@.len(),
    ensures
        ({
            let s = cs@.skip(start as int);
            let k = index_of_char(s, '\n');
            &&& start <= r.0 == start <= r.1 <= r.2 <= cs@.len()
            &&& start < r.2
            &&& if k >= s.len() {
                &&& lines(s) == seq![s]
                &&& r.2 == cs@.len()
                &&& cs@.subrange(r.0 as int, r.1 as int) == s
            } else {
                &&& lines(s) == seq![strip_cr(s.take(k))] + lines(cs@.skip(r.2 as int))
                &&& cs@.subrange(r.0 as int, r.1 as int) == strip_cr(s.take(k))
            }
        }),
{
    let ghost s = cs@.skip(start as int);
    let mut i = start;
    while i < cs.len() && cs[i] != '\n'
        invariant
            start <= i <= cs@.len(),
            forall|j: int| start <= j < i ==> cs@[j] != '\n',
        decreases cs@.len() - i,
    {
        i = i + 1;
    }
    proof {
        assert forall|j: int| 0 <= j < i - start implies #[trigger] s[j] != '\n' by {
            assert(s[j] == cs@[start + j]);
        }
        if i < cs@.len() {
            assert(s[i - start] == cs@[i as int]);
        }
        lemma_index_of_char(s, '\n', i - start);
    }
    if i == cs.len() {
        assert(cs@.subrange(start as int, i as int) =~= s);
        (start, i, i)
    } else {
        let ghost line = s.take(i - start);
        assert(line =~= cs@.subrange(start as int, i as int));
        assert(s.skip(i - start + 1) =~= cs@.skip(i + 1));
        if i > start && cs[i - 1] == '\r' {
            assert(strip_cr(line) =~= cs@.subrange(start as int, i - 1));
            (start, i - 1, i + 1)
        } else {
            assert(strip_cr(line) == line);
            (start, i, i + 1)
        }
    }
}

/// `str::lines`, each line as an owned string.
pub fn lines_of(s: &str) -> (r: Vec<String>)
    ensures
        r@.len() == lines(s@).len(),
        forall|i: int| 0 <= i < r@.len() ==> #[trigger] r@[i]@ == lines(s@)[i],
{
    let cs = chars_of(s);
    let mut out: Vec<String> = Vec::new();
    let mut pos: usize = 0;
    assert(cs@.skip(0) =~= cs@);
    while pos < cs.len()
        invariant
            pos <= cs@.len(),
            cs@ == s@,
            out@.map_values(|l: String| l@) + lines(cs@.skip(pos as int)) == lines(cs@),
        decreases cs@.len() - pos,
    {
        let ghost before = out@.map_values(|l: String| l@);
        let (a, b, next) = next_line(&cs, pos);
        let line = string_from_range(&cs, a, b);
        out.push(line);
        proof {
            let s = cs@.skip(pos as int);
            let k = index_of_char(s, '\n');
            assert(out@.map_values(|l: String| l@) =~= before.push(cs@.subrange(a as int, b as int)));
            if k >= s.len() {
                assert(cs@.skip(next as int) =~= Seq::<char>::empty());
                assert(lines(cs@.skip(next as int)) =~= Seq::<Seq<char>>::empty());
                assert(before + lines(s) =~= out@.map_values(|l: String| l@) + lines(cs@.skip(next as int)));
            } else {
                assert(before + lines(s) =~= out@.map_values(|l: String| l@) + lines(cs@.skip(next as int)));
            }
        }
        pos = next;
    }
    proof {
        assert(cs@.skip(pos as int) =~= Seq::<char>::empty());
        assert(lines(cs@.skip(pos as int)) =~= Seq::<Seq<char>>::empty());
        assert(out@.map_values(|l: String| l@) =~= lines(cs@));
        assert forall|i: int| 0 <= i < out@.len() implies #[trigger] out@[i]@ == lines(s@)[i] by {
            assert(out@.map_values(|l: String| l@)[i] == out@[i]@);
        }
    }
    out
}

// ── Splitting at a character ───────────────────────────────────────────────

/// `str::split(c)`: the pieces between the occurrences of `c`; `n`
/// occurrences give `n + 1` pieces, and the empty text gives one empty piece.
pub open spec fn split_char(s: Seq<char>, c: char) -> Seq<Seq<char>>
    decreases s.len(),
{
    let k = index_of_char(s, c);
    proof {
        lemma_index_of_char_bound(s, c);
    }
    if k >= s.len() {
        seq![s]
    } else {
        seq![s.take(k)] + split_char(s.skip(k + 1), c)
    }
}

/// `split_char` yields at least one piece.
pub proof fn lemma_split_char_len(s: Seq<char>, c: char)
    ensures
        split_char(s, c).len() >= 1,
{
    lemma_index_of_char_bound(s, c);
}

/// No piece of `split_char(s, c)` holds `c`.
pub proof fn lemma_split_char_pieces(s: Seq<char>, c: char)
    ensures
        forall|i: int, j: int|
            0 <= i < split_char(s, c).len() && 0 <= j < split_char(s, c)[i].len()
                ==> #[trigger] split_char(s, c)[i][j] != c,
    decreases s.len(),
{
    let k = index_of_char(s, c);
    lemma_index_of_char_bound(s, c);
    if k < s.len() {
        let rest = s.skip(k + 1);
        lemma_split_char_pieces(rest, c);
        let whole = split_char(s, c);
        assert(whole == seq![s.take(k)] + split_char(rest, c));
        assert forall|i: int, j: int|
            0 <= i < whole.len() && 0 <= j < whole[i].len() implies #[trigger] whole[i][j] != c by {
            if i == 0 {
                assert(whole[0] == s.take(k));
                assert(s.take(k)[j] == s[j]);
            } else {
                assert(whole[i] == split_char(rest, c)[i - 1]);
            }
        }
    }
}

/// Where the piece of `cs` that starts at `start` ends: the next `c`, or the end.
fn piece_end(cs: &Vec<char>, start: usize, c: char) -> (r: usize)
    requires
        start <= cs@.len(),
    ensures
        start <= r <= cs@.len(),
        r - start == index_of_char(cs@.skip(start as int), c),
{
    let mut i = start;
    while i < cs.len() && cs[i] != c
        invariant
            start <= i <= cs@.len(),
            forall|j: int| start <= j < i ==> cs@[j] != c,
        decreases cs@.len() - i,
    {
        i = i + 1;
    }
    proof {
        let s = cs@.skip(start as int);
        assert forall|j: int| 0 <= j < i - start implies #[trigger] s[j] != c by {
            assert(s[j] == cs@[start + j]);
        }
        if i < cs@.len() {
            assert(s[i - start] == cs@[i as int]);
        }
        lemma_index_of_char(s, c, i - start);
    }
    i
}

/// `str::split(c)`, each piece as an owned string.
pub fn split_by_char(s: &str, c: char) -> (r: Vec<String>)
    ensures
        r@.len() == split_char(s@, c).len(),
        forall|i: int| 0 <= i < r@.len() ==> #[trigger] r@[i]@ == split_char(s@, c)[i],
{
    let cs = chars_of(s);
    let mut out: Vec<String> = Vec::new();
    let mut pos: usize = 0;
    let mut done = false;
    assert(cs@.skip(0) =~= cs@);
    while !done
        invariant
            pos <= cs@.len(),
            cs@ == s@,
            !done ==> out@.map_values(|l: String| l@) + split_char(cs@.skip(pos as int), c)
                == split_char(cs@, c),
            done ==> out@.map_values(|l: String| l@) == split_char(cs@, c),
        decreases cs@.len() - pos + (if done { 0int } else { 1int }),
    {
        let ghost before = out@.map_values(|l: String| l@);
        let ghost rest = cs@.skip(pos as int);
        let e = piece_end(&cs, pos, c);
        let piece = string_from_range(&cs, pos, e);
        out.push(piece);
        proof {
            lemma_index_of_char_bound(rest, c);
            assert(out@.map_values(|l: String| l@) =~= before.push(cs@.subrange(pos as int, e as int)));
            assert(rest.take(e - pos) =~= cs@.subrange(pos as int, e as int));
        }
        if e == cs.len() {
            proof {
                assert(rest =~= cs@.subrange(pos as int, e as int));
                assert(split_char(rest, c) == seq![rest]);
                assert(before + seq![rest] =~= out@.map_values(|l: String| l@));
            }
            done = true;
        } else {
            proof {
                assert(rest.skip(e - pos + 1) =~= cs@.skip(e + 1));
                assert(split_char(rest, c) == seq![rest.take(e - pos)] + split_char(cs@.skip(e + 1), c));
                assert(before + split_char(rest, c) =~= out@.map_values(|l: String| l@)
                    + split_char(cs@.skip(e + 1), c));
            }
            pos = e + 1;
        }
    }
    proof {
        assert forall|i: int| 0 <= i < out@.len() implies #[trigger] out@[i]@ == split_char(s@, c)[i] by {
            assert(out@.map_values(|l: String| l@)[i] == out@[i]@);
        }
    }
    out
}

// ── Literal replacement ─────────────────────────────────────────────────────

/// `str::replace(p, v)`: every occurrence of `p`, taken from left to right
/// without overlaps, replaced by `v`; an empty `p` occurs before every
/// character and at the end.
pub open spec fn replace_all(s: Seq<char>, p: Seq<char>, v: Seq<char>) -> Seq<char>
    decreases s.len(),
{
    if p.len() == 0 {
        if s.len() == 0 {
            v
        } else {
            v + seq![s[0]] + replace_all(s.skip(1), p, v)
        }
    } else if s.len() < p.len() {
        s
    } else if s.take(p.len() as int) == p {
        v + replace_all(s.skip(p.len() as int), p, v)
    } else {
        seq![s[0]] + replace_all(s.skip(1), p, v)
    }
}

/// `s.replace("", v)`: `v` before every character and at the end.
fn replace_empty(s: &str, v: &str) -> (r: String)
    ensures
        r@ == replace_all(s@, Seq::empty(), v@),
{
    let cs = chars_of(s);
    let n = cs.len();
    let mut out = String::new();
    let mut i: usize = 0;
    assert(cs@.skip(0) =~= cs@);
    while i < n
        invariant
            n == cs@.len(),
            cs@ == s@,
            i <= n,
            out@ + replace_all(cs@.skip(i as int), Seq::empty(), v@) == replace_all(s@, Seq::empty(), v@),
        decreases n - i,
    {
        let ghost rest = cs@.skip(i as int);
        assert(rest.skip(1) =~= cs@.skip(i + 1));
        assert(rest[0] == cs@[i as int]);
        let ghost o = out@;
        push_str(&mut out, v);
        push_char(&mut out, cs[i]);
        assert(o + replace_all(rest, Seq::empty(), v@) =~= out@ + replace_all(cs@.skip(i + 1), Seq::empty(), v@));
        i = i + 1;
    }
    assert(cs@.skip(n as int) =~= Seq::<char>::empty());
    let ghost o = out@;
    push_str(&mut out, v);
    assert(out@ =~= o + replace_all(cs@.skip(n as int), Seq::empty(), v@));
    out
}

/// `s.replace(p, v)`.
pub fn replace_str(s: &str, p: &str, v: &str) -> (r: String)
    ensures
        r@ == replace_all(s@, p@, v@),
{
    let cs = chars_of(s);
    let ps = chars_of(p);
    let n = cs.len();
    let m = ps.len();
    if m == 0 {
        assert(p@ =~= Seq::<char>::empty());
        return replace_empty(s, v);
    }
    let mut out = String::new();
    let mut i: usize = 0;
    assert(cs@.skip(0) =~= cs@);
    while i < n
        invariant
            n == cs@.len(),
            m == ps@.len(),
            m > 0,
            cs@ == s@,
            ps@ == p@,
            i <= n,
            out@ + replace_all(cs@.skip(i as int), p@, v@) == replace_all(s@, p@, v@),
        decreases n - i,
    {
        let ghost rest = cs@.skip(i as int);
        if n - i < m {
            proof {
                assert(replace_all(rest, p@, v@) == rest);
                assert(rest =~= cs@.subrange(i as int, n as int));
            }
            let tail = string_from_range(&cs, i, n);
            let ghost o = out@;
            push_str(&mut out, tail.as_str());
            proof {
                assert(cs@.skip(n as int) =~= Seq::<char>::empty());
                assert(replace_all(cs@.skip(n as int), p@, v@) == Seq::<char>::empty());
                assert(out@ + replace_all(cs@.skip(n as int), p@, v@) =~= o + rest);
            }
            i = n;
        } else if occurs_at_exec(&cs, &ps, i) {
            proof {
                assert(rest.take(m as int) =~= cs@.subrange(i as int, i + m));
                assert(rest.skip(m as int) =~= cs@.skip(i + m));
            }
            let ghost o = out@;
            push_str(&mut out, v);
            proof {
                assert(o + replace_all(rest, p@, v@) =~= out@ + replace_all(cs@.skip(i + m), p@, v@));
            }
            i = i + m;
        } else {
            proof {
                assert(rest.take(m as int) =~= cs@.subrange(i as int, i + m));
                assert(rest.skip(1) =~= cs@.skip(i + 1));
                assert(rest[0] == cs@[i as int]);
            }
            let ghost o = out@;
            push_char(&mut out, cs[i]);
            proof {
                assert(o + replace_all(rest, p@, v@) =~= out@ + replace_all(cs@.skip(i + 1), p@, v@));
            }
            i = i + 1;
        }
    }
    proof {
        assert(cs@.skip(n as int) =~= Seq::<char>::empty());
        assert(replace_all(cs@.skip(n as int), p@, v@) == Seq::<char>::empty());
        assert(out@ =~= out@ + Seq::<char>::empty());
    }
    out
}

/// `str::replacen(p, v, 1)`: only the first occurrence of `p` replaced.
pub open spec fn replace_first(s: Seq<char>, p: Seq<char>, v: Seq<char>) -> Seq<char> {
    match find(s, p) {
        Some(i) => s.take(i) + v + s.skip(i + p.len()),
        None => s,
    }
}

pub proof fn lemma_find_bounds(s: Seq<char>, p: Seq<char>)
    ensures
        find(s, p) matches Some(i) ==> occurs_at(s, p, i) && forall|j: int|
            0 <= j < i ==> !occurs_at(s, p, j),
        find(s, p) is None ==> forall|j: int| !occurs_at(s, p, j),
{
    if contains(s, p) {
        let k = choose|i: int| occurs_at(s, p, i);
        lemma_first_occurrence_exists(s, p, k);
    }
}

proof fn lemma_first_occurrence_exists(s: Seq<char>, p: Seq<char>, k: int)
    requires
        occurs_at(s, p, k),
    ensures
        exists|i: int| occurs_at(s, p, i) && forall|j: int| 0 <= j < i ==> !occurs_at(s, p, j),
    decreases k,
{
    if exists|j: int| 0 <= j < k && occurs_at(s, p, j) {
        let j = choose|j: int| 0 <= j < k && occurs_at(s, p, j);
        lemma_first_occurrence_exists(s, p, j);
    } else {
        assert(occurs_at(s, p, k) && forall|j: int| 0 <= j < k ==> !occurs_at(s, p, j));
    }
}

/// Once `p` occurs in `s`, what replaces its first occurrence is in the result.
pub proof fn lemma_replace_first_keeps(s: Seq<char>, p: Seq<char>, v: Seq<char>, w: Seq<char>, o: int)
    requires
        contains(s, p),
        occurs_at(v, w, o),
    ensures
        contains(replace_first(s, p, v), w),
{
    lemma_find_bounds(s, p);
    let i = find(s, p)->Some_0;
    let r = replace_first(s, p, v);
    assert(r == s.take(i) + v + s.skip(i + p.len()));
    assert(r.subrange(i + o, i + o + w.len()) =~= v.subrange(o, o + w.len()));
    assert(occurs_at(r, w, i + o));
}

/// `s.replacen(p, v, 1)`.
pub fn replace_first_str(s: &str, p: &str, v: &str) -> (r: String)
    ensures
        r@ == replace_first(s@, p@, v@),
{
    proof {
        lemma_find_bounds(s@, p@);
    }
    match find_str(s, p) {
        Some(i) => {
            let cs = chars_of(s);
            let ps = chars_of(p);
            assert(occurs_at(s@, p@, i as int));
            let n = cs.len();
            let m = ps.len();
            assert(i + m <= n);
            let mut out = string_from_range(&cs, 0, i);
            push_str(&mut out, v);
            let tail = string_from_range(&cs, i + m, n);
            push_str(&mut out, tail.as_str());
            proof {
                assert(cs@.subrange(0, i as int) =~= s@.take(i as int));
                assert(cs@.subrange(i + ps@.len(), cs@.len() as int) =~= s@.skip(i + p@.len()));
            }
            out
        },
        None => to_owned_string(s),
    }
}

// ── Ordering of text ────────────────────────────────────────────────────────

/// Lexicographic order by code point, which is how `String`'s `Ord`
/// compares (its UTF-8 bytes order as the code points do).
pub open spec fn lex_lt(a: Seq<char>, b: Seq<char>) -> bool
    decreases a.len(),
{
    if a.len() == 0 {
        b.len() > 0
    } else if b.len() == 0 {
        false
    } else if a[0] == b[0] {
        lex_lt(a.drop_first(), b.drop_first())
    } else {
        (a[0] as int) < (b[0] as int)
    }
}

pub proof fn lemma_lex_irreflexive(a: Seq<char>)
    ensures
        !lex_lt(a, a),
    decreases a.len(),
{
    if a.len() > 0 {
        lemma_lex_irreflexive(a.drop_first());
    }
}

pub proof fn lemma_lex_transitive(a: Seq<char>, b: Seq<char>, c: Seq<char>)
    requires
        lex_lt(a, b),
        lex_lt(b, c),
    ensures
        lex_lt(a, c),
    decreases a.len(),
{
    if a.len() > 0 && b.len() > 0 && c.len() > 0 {
        if a[0] == b[0] && b[0] == c[0] {
            lemma_lex_transitive(a.drop_first(), b.drop_first(), c.drop_first());
        }
    }
}

pub proof fn lemma_lex_total(a: Seq<char>, b: Seq<char>)
    ensures
        a == b || lex_lt(a, b) || lex_lt(b, a),
    decreases a.len(),
{
    if a.len() > 0 && b.len() > 0 && a[0] == b[0] {
        lemma_lex_total(a.drop_first(), b.drop_first());
        if a.drop_first() == b.drop_first() {
            assert(a =~= seq![a[0]] + a.drop_first());
            assert(b =~= seq![b[0]] + b.drop_first());
        }
    } else if a.len() == 0 && b.len() == 0 {
        assert(a =~= b);
    }
}

pub proof fn lemma_lex_asymmetric(a: Seq<char>, b: Seq<char>)
    requires
        lex_lt(a, b),
    ensures
        !lex_lt(b, a),
{
    if lex_lt(b, a) {
        lemma_lex_transitive(a, b, a);
        lemma_lex_irreflexive(a);
    }
}

/// Whether `a` sorts before `b`.
pub fn lex_less(a: &str, b: &str) -> (r: bool)
    ensures
        r == lex_lt(a@, b@),
{
    let x = chars_of(a);
    let y = chars_of(b);
    let mut i: usize = 0;
    assert(x@.skip(0) =~= x@);
    assert(y@.skip(0) =~= y@);
    while i < x.len() && i < y.len() && x[i] == y[i]
        invariant
            i <= x@.len(),
            i <= y@.len(),
            x@ == a@,
            y@ == b@,
            lex_lt(a@, b@) == lex_lt(x@.skip(i as int), y@.skip(i as int)),
        decreases x@.len() - i,
    {
        proof {
            let xs = x@.skip(i as int);
            let ys = y@.skip(i as int);
            assert(xs[0] == x@[i as int]);
            assert(ys[0] == y@[i as int]);
            assert(xs.drop_first() =~= x@.skip(i + 1));
            assert(ys.drop_first() =~= y@.skip(i + 1));
        }
        i = i + 1;
    }
    let ghost xs = x@.skip(i as int);
    let ghost ys = y@.skip(i as int);
    if i == x.len() {
        assert(xs.len() == 0);
        i < y.len()
    } else if i == y.len() {
        assert(ys.len() == 0);
        false
    } else {
        assert(xs[0] == x@[i as int]);
        assert(ys[0] == y@[i as int]);
        x[i] < y[i]
    }
}

/// A character takes at most four bytes in UTF-8.
pub proof fn lemma_encode_len_bound(s: Seq<char>)
    ensures
        vstd::utf8::encode_utf8(s).len() <= 4 * s.len(),
    decreases s.len(),
{
    if s.len() > 0 {
        lemma_encode_len_bound(s.drop_first());
        assert(vstd::utf8::encode_scalar(s[0] as u32).len() <= 4);
    }
}

} // verus!
