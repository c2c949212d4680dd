//! Character-level text handling: pet ids, URL path segments, trimming,
//! lexicographic order and number formatting.
use vstd::prelude::*;

verus! {

// ---------------------------------------------------------------------------
// Whitespace and trimming
// ---------------------------------------------------------------------------

/// The Unicode `White_Space` property (PropList.txt), which is what
/// `char::is_whitespace` and `str::trim` test.
pub open spec fn is_white_space(c: char) -> bool {
    ||| ('\u{9}' <= c && c <= '\u{d}')
    ||| c == ' '
    ||| c == '\u{85}'
    ||| c == '\u{a0}'
    ||| c == '\u{1680}'
    ||| ('\u{2000}' <= c && c <= '\u{200a}')
    ||| c == '\u{2028}'
    ||| c == '\u{2029}'
    ||| c == '\u{202f}'
    ||| c == '\u{205f}'
    ||| c == '\u{3000}'
}

/// `s` with its leading and trailing whitespace removed.
pub open spec fn trim_seq(s: Seq<char>) -> Seq<char>
    decreases s.len(),
{
    if s.len() == 0 {
        s
    } else if is_white_space(s[0]) {
        trim_seq(s.drop_first())
    } else if is_white_space(s.last()) {
        trim_seq(s.drop_last())
    } else {
        s
    }
}

/// `str::trim`: removes leading and trailing characters with the Unicode
/// `White_Space` property. The contract states exactly that.
#[verifier::external_body]
pub(crate) fn trim(s: &str) -> (r: &str)
    ensures
        r@ == trim_seq(s@),
{
    s.trim()
}

/// What `trim` returns neither starts nor ends with whitespace, and is a
/// contiguous part of its argument.
pub proof fn lemma_trim_ends(s: Seq<char>)
    ensures
        trim_seq(s).len() > 0 ==> !is_white_space(trim_seq(s)[0]) && !is_white_space(
            trim_seq(s).last(),
        ),
        exists|i: int, j: int| 0 <= i <= j <= s.len() && trim_seq(s) == s.subrange(i, j),
    decreases s.len(),
{
    if s.len() == 0 {
        assert(trim_seq(s) == s.subrange(0, 0));
    } else if is_white_space(s[0]) {
        lemma_trim_ends(s.drop_first());
        let (i, j) = choose|i: int, j: int|
            0 <= i <= j <= s.drop_first().len() && trim_seq(s.drop_first())
                == s.drop_first().subrange(i, j);
        assert(s.drop_first().subrange(i, j) == s.subrange(i + 1, j + 1));
    } else if is_white_space(s.last()) {
        lemma_trim_ends(s.drop_last());
        let (i, j) = choose|i: int, j: int|
            0 <= i <= j <= s.drop_last().len() && trim_seq(s.drop_last()) == s.drop_last().subrange(
                i,
                j,
            );
        assert(s.drop_last().subrange(i, j) == s.subrange(i, j));
    } else {
        assert(trim_seq(s) == s.subrange(0, s.len() as int));
    }
}

/// Trimming twice trims no more than trimming once.
pub proof fn lemma_trim_idempotent(s: Seq<char>)
    ensures
        trim_seq(trim_seq(s)) == trim_seq(s),
{
    lemma_trim_ends(s);
    let t = trim_seq(s);
    if t.len() > 0 {
        assert(!is_white_space(t[0]) && !is_white_space(t.last()));
    }
}

// ---------------------------------------------------------------------------
// Building strings
// ---------------------------------------------------------------------------

/// `String::push`: appends one character.
#[verifier::external_body]
pub(crate) fn push_char(s: &mut String, c: char)
    ensures
        final(s)@ == old(s)@.push(c),
{
    s.push(c);
}

/// The characters of `s`, one per element.
pub fn chars_of(s: &str) -> (v: Vec<char>)
    ensures
        v@ == s@,
{
    let mut v: Vec<char> = Vec::new();
    for c in it: s.chars()
        invariant
            it.seq() == s@,
            v@ == s@.take(it.index() as int),
    {
        assert(c == s@[it.index() as int]);
        v.push(c);
        assert(s@.take(it.index() + 1) == s@.take(it.index() as int).push(c));
    }
    assert(s@.take(s@.len() as int) == s@);
    v
}

/// A new string holding `s`.
pub fn owned(s: &str) -> (r: String)
    ensures
        r@ == s@,
{
    s.to_string()
}

/// The message of an error, as its `Display` writes it (used to turn outside
/// errors into `String` errors).
pub fn err_str<E: std::fmt::Display>(e: E) -> (r: String)
    ensures
        vstd::string::to_string_from_display_ensures::<E>(&e, r),
{
    e.to_string()
}

/// Whether `a` and `b` hold the same characters.
pub fn text_eq(a: &str, b: &str) -> (r: bool)
    ensures
        r == (a@ == b@),
{
    let x = owned(a);
    let y = owned(b);
    x == y
}

// ---------------------------------------------------------------------------
// Lexicographic order (what `Ord` on `str` computes: byte order of UTF-8,
// which is the order of code points)
// ---------------------------------------------------------------------------

/// `a` comes strictly before `b` in lexicographic order of code points.
pub open spec fn seq_lt(a: Seq<char>, b: Seq<char>) -> bool
    decreases a.len(),
{
    if a.len() == 0 {
        b.len() > 0
    } else if b.len() == 0 {
        false
    } else if a[0] != b[0] {
        a[0] < b[0]
    } else {
        seq_lt(a.drop_first(), b.drop_first())
    }
}

pub proof fn lemma_seq_lt_irreflexive(a: Seq<char>)
    ensures
        !seq_lt(a, a),
    decreases a.len(),
{
    if a.len() > 0 {
        lemma_seq_lt_irreflexive(a.drop_first());
    }
}

pub proof fn lemma_seq_lt_transitive(a: Seq<char>, b: Seq<char>, c: Seq<char>)
    requires
        seq_lt(a, b),
        seq_lt(b, c),
    ensures
        seq_lt(a, c),
    decreases a.len(),
{
    if a.len() > 0 && b.len() > 0 && c.len() > 0 && a[0] == b[0] && b[0] == c[0] {
        lemma_seq_lt_transitive(a.drop_first(), b.drop_first(), c.drop_first());
    }
}

pub proof fn lemma_seq_lt_total(a: Seq<char>, b: Seq<char>)
    ensures
        seq_lt(a, b) || seq_lt(b, a) || a == b,
    decreases a.len(),
{
    if a.len() > 0 && b.len() > 0 && a[0] == b[0] {
        lemma_seq_lt_total(a.drop_first(), b.drop_first());
        if a.drop_first() == b.drop_first() {
            assert(a == seq![a[0]] + a.drop_first());
            assert(b == seq![b[0]] + b.drop_first());
        }
    } else if a.len() == 0 && b.len() == 0 {
        assert(a == b);
    }
}

/// Whether `a` comes strictly before `b` in lexicographic order.
pub fn chars_lt(a: &Vec<char>, b: &Vec<char>) -> (r: bool)
    ensures
        r == seq_lt(a@, b@),
{
    let mut i: usize = 0;
    assert(a@.skip(0) == a@ && b@.skip(0) == b@);
    while i < a.len() && i < b.len() && a[i] == b[i]
        invariant
            i <= a.len(),
            i <= b.len(),
            seq_lt(a@, b@) == seq_lt(a@.skip(i as int), b@.skip(i as int)),
        decreases a.len() - i,
    {
        assert(a@.skip(i as int).drop_first() == a@.skip(i + 1));
        assert(b@.skip(i as int).drop_first() == b@.skip(i + 1));
        i = i + 1;
    }
    if i == a.len() {
        i < b.len()
    } else if i == b.len() {
        false
    } else {
        a[i] < b[i]
    }
}

// ---------------------------------------------------------------------------
// Pet ids and URL path segments
// ---------------------------------------------------------------------------

/// A character allowed in a pet id: a lower-case ASCII letter, an ASCII digit or `-`.
pub open spec fn is_pet_id_char(c: char) -> bool {
    ('a' <= c && c <= 'z') || ('0' <= c && c <= '9') || c == '-'
}

/// A pet id names a directory of its own: every character is allowed.
pub open spec fn is_valid_pet_id(s: Seq<char>) -> bool {
    forall|i: int| 0 <= i < s.len() ==> #[trigger] is_pet_id_char(s[i])
}

fn pet_id_char(c: char) -> (ok: bool)
    ensures
        ok == is_pet_id_char(c),
{
    ('a' <= c && c <= 'z') || ('0' <= c && c <= '9') || c == '-'
}

/// Whether every character of `pet_id` may stand in a pet id.
pub fn pet_id_is_valid(pet_id: &str) -> (ok: bool)
    ensures
        ok == is_valid_pet_id(pet_id@),
{
    let mut ok = true;
    for c in it: pet_id.chars()
        invariant
            it.seq() == pet_id@,
            ok == (forall|j: int| 0 <= j < it.index() ==> #[trigger] is_pet_id_char(pet_id@[j])),
    {
        assert(c == pet_id@[it.index() as int]);
        if !pet_id_char(c) {
            ok = false;
        }
    }
    ok
}

/// A valid pet id holds no path separator and no `.`, so it cannot climb
/// out of the directory it is joined to.
pub proof fn law_valid_pet_id_has_no_traversal(s: Seq<char>)
    requires
        is_valid_pet_id(s),
    ensures
        !s.contains('/'),
        !s.contains('\\'),
        !s.contains('.'),
        !s.contains(':'),
{
    if s.contains('/') {
        let i = choose|i: int| 0 <= i < s.len() && s[i] == '/';
        assert(is_pet_id_char(s[i]));
    }
    if s.contains('\\') {
        let i = choose|i: int| 0 <= i < s.len() && s[i] == '\\';
        assert(is_pet_id_char(s[i]));
    }
    if s.contains('.') {
        let i = choose|i: int| 0 <= i < s.len() && s[i] == '.';
        assert(is_pet_id_char(s[i]));
    }
    if s.contains(':') {
        let i = choose|i: int| 0 <= i < s.len() && s[i] == ':';
        assert(is_pet_id_char(s[i]));
    }
}

/// A character kept as it is in a URL path segment: an ASCII letter or
/// digit, `-` or `_`.
pub open spec fn is_segment_char(c: char) -> bool {
    ('a' <= c && c <= 'z') || ('A' <= c && c <= 'Z') || ('0' <= c && c <= '9') || c == '-'
        || c == '_'
}

/// The character that stands for `c` in a sanitised path segment.
pub open spec fn segment_char(c: char) -> char {
    if is_segment_char(c) {
        c
    } else {
        '_'
    }
}

/// `s` with every character that may not stand in a segment replaced by `_`.
pub open spec fn sanitize_segment(s: Seq<char>) -> Seq<char> {
    s.map_values(|c: char| segment_char(c))
}

/// Makes `segment` safe to stand as one URL path segment: ASCII letters,
/// digits, `-` and `_` are kept and every other character becomes `_`.
pub fn urlencoding_path_segment(segment: &str) -> (r: String)
    ensures
        r@ == sanitize_segment(segment@),
{
    let mut r = String::new();
    for c in it: segment.chars()
        invariant
            it.seq() == segment@,
            r@ == sanitize_segment(segment@.take(it.index() as int)),
    {
        assert(c == segment@[it.index() as int]);
        let keep = ('a' <= c && c <= 'z') || ('A' <= c && c <= 'Z') || ('0' <= c && c <= '9') || c
            == '-' || c == '_';
        if keep {
            push_char(&mut r, c);
        } else {
            push_char(&mut r, '_');
        }
        assert(sanitize_segment(segment@.take(it.index() + 1)) == sanitize_segment(
            segment@.take(it.index() as int),
        ).push(segment_char(c)));
    }
    assert(segment@.take(segment@.len() as int) == segment@);
    r
}

/// A sanitised segment keeps the length of its input, holds only segment
/// characters (so never `/` or `.`), and sanitising it again changes nothing.
pub proof fn law_sanitize_segment(s: Seq<char>)
    ensures
        sanitize_segment(s).len() == s.len(),
        forall|i: int| 0 <= i < s.len() ==> #[trigger] is_segment_char(sanitize_segment(s)[i]),
        !sanitize_segment(s).contains('/'),
        !sanitize_segment(s).contains('.'),
        sanitize_segment(sanitize_segment(s)) == sanitize_segment(s),
        forall|i: int| 0 <= i < s.len() && is_segment_char(s[i]) ==> #[trigger] sanitize_segment(
            s,
        )[i] == s[i],
{
    let t = sanitize_segment(s);
    if t.contains('/') {
        let i = choose|i: int| 0 <= i < t.len() && t[i] == '/';
        assert(is_segment_char(t[i]));
    }
    if t.contains('.') {
        let i = choose|i: int| 0 <= i < t.len() && t[i] == '.';
        assert(is_segment_char(t[i]));
    }
    assert(sanitize_segment(t) == t);
}

// ---------------------------------------------------------------------------
// Number formatting
// ---------------------------------------------------------------------------

/// The digit for `d` in base 16, lower-case (`0`-`9`, `a`-`f`).
pub open spec fn hex_digit(d: nat) -> char {
    if d < 10 {
        (('0' as nat) + d) as char
    } else {
        (('a' as nat) + d - 10) as char
    }
}

/// The digits of `n` in base `base`, most significant first, no leading zeros
/// (`0` is the single digit `0`).
pub open spec fn digits(n: nat, base: nat) -> Seq<char>
    recommends
        2 <= base <= 16,
    decreases n,
{
    if base < 2 || n < base {
        seq![hex_digit(n)]
    } else {
        proof {
            vstd::arithmetic::div_mod::lemma_div_decreases(n as int, base as int);
        }
        digits(n / base, base).push(hex_digit(n % base))
    }
}

/// `count` copies of `0`.
pub open spec fn zeros(count: nat) -> Seq<char> {
    Seq::new(count, |i: int| '0')
}

/// `{:0width$x}`: the lower-case hexadecimal digits of `n`, padded on the left
/// with `0` up to `width` characters.
pub open spec fn hex_padded(n: nat, width: nat) -> Seq<char> {
    let d = digits(n, 16);
    if d.len() < width {
        zeros((width - d.len()) as nat) + d
    } else {
        d
    }
}

fn digit_char(d: u8) -> (c: char)
    requires
        d < 16,
    ensures
        c == hex_digit(d as nat),
{
    if d < 10 {
        let code: u8 = 48 + d;
        code as char
    } else {
        let code: u8 = 87 + d;
        code as char
    }
}

/// Appends the base-`base` digits of `n` to `s`.
fn push_digits(s: &mut String, n: u128, base: u128)
    requires
        2 <= base <= 16,
    ensures
        final(s)@ == old(s)@ + digits(n as nat, base as nat),
    decreases n,
{
    if n < base {
        push_char(s, digit_char(n as u8));
    } else {
        proof {
            vstd::arithmetic::div_mod::lemma_div_decreases(n as int, base as int);
        }
        push_digits(s, n / base, base);
        push_char(s, digit_char((n % base) as u8));
    }
}

/// The decimal digits of `n`, as `u64::to_string` writes them.
pub fn decimal_string(n: u64) -> (r: String)
    ensures
        r@ == digits(n as nat, 10),
{
    let mut r = String::new();
    push_digits(&mut r, n as u128, 10);
    r
}

/// Appends `n` in lower-case hexadecimal padded with `0` to at least `width`
/// characters, as `{:0width$x}` formats it.
pub fn push_hex_padded(s: &mut String, n: u128, width: usize)
    ensures
        final(s)@ == old(s)@ + hex_padded(n as nat, width as nat),
{
    let mut d = String::new();
    push_digits(&mut d, n, 16);
    let dv = chars_of(d.as_str());
    let len = dv.len();
    let ghost start = s@;
    if len < width {
        let mut k: usize = len;
        while k < width
            invariant
                len <= k <= width,
                s@ == start + zeros((k - len) as nat),
            decreases width - k,
        {
            push_char(s, '0');
            k = k + 1;
            assert(zeros((k - len) as nat) == zeros((k - 1 - len) as nat).push('0'));
        }
    }
    s.append(d.as_str());
    assert(s@ == start + hex_padded(n as nat, width as nat));
}

} // verus!
