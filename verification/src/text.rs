//! Character-level string helpers shared by the editors and parsers.
//!
//! Strings are reasoned about through their `Seq<char>` views; the helpers
//! here convert between `String`/`&str` and `Vec<char>` and provide the few
//! Unicode predicates the library needs.

use vstd::prelude::*;

verus! {

broadcast use vstd::string::group_string_axioms;

/// Whether `c` has the Unicode `White_Space` property: tab through carriage
/// return, space, NEL, NBSP, OGHAM SPACE MARK, the spaces U+2000..U+200A, the
/// line and paragraph separators, NNBSP, MMSP and IDEOGRAPHIC SPACE.
pub open spec fn unicode_whitespace(c: char) -> bool {
    let u = c as u32;
    ||| 0x09 <= u <= 0x0d
    ||| u == 0x20
    ||| u == 0x85
    ||| u == 0xa0
    ||| u == 0x1680
    ||| 0x2000 <= u <= 0x200a
    ||| u == 0x2028
    ||| u == 0x2029
    ||| u == 0x202f
    ||| u == 0x205f
    ||| u == 0x3000
}

/// Whether `c` is alphabetic or numeric in the Unicode sense.
pub uninterp spec fn unicode_alphanumeric(c: char) -> bool;

/// The characters that lossy UTF-8 decoding produces from `bytes`.
pub uninterp spec fn utf8_lossy(bytes: Seq<u8>) -> Seq<char>;

/// The text of `bytes`: valid UTF-8 decodes to exactly its characters; other
/// bytes decode lossily.
pub open spec fn lossy_text(bytes: Seq<u8>) -> Seq<char> {
    if vstd::utf8::valid_utf8(bytes) {
        vstd::utf8::decode_utf8(bytes)
    } else {
        utf8_lossy(bytes)
    }
}

/// Whether `c` is an ASCII letter or digit.
pub open spec fn ascii_alphanumeric(c: char) -> bool {
    ('a' <= c && c <= 'z') || ('A' <= c && c <= 'Z') || ('0' <= c && c <= '9')
}

/// Alphabetic or numeric: for ASCII the letters and digits, beyond ASCII the
/// Unicode `Alphabetic` and `Numeric` properties.
pub open spec fn alphanumeric(c: char) -> bool {
    if (c as u32) < 128 {
        ascii_alphanumeric(c)
    } else {
        unicode_alphanumeric(c)
    }
}

/// Whether `c` is whitespace, as `char::is_whitespace` decides it: the
/// Unicode `White_Space` code points.
pub fn is_whitespace(c: char) -> (r: bool)
    ensures
        r == unicode_whitespace(c),
{
    let u = c as u32;
    (0x09 <= u && u <= 0x0d) || u == 0x20 || u == 0x85 || u == 0xa0 || u == 0x1680 || (0x2000
        <= u && u <= 0x200a) || u == 0x2028 || u == 0x2029 || u == 0x202f || u == 0x205f || u
        == 0x3000
}

/// Calls `char::is_alphanumeric`. std documents it as `is_alphabetic() ||
/// is_numeric()`; within ASCII those are exactly the letters and digits,
/// which the contract states. Beyond ASCII the Unicode tables are left to
/// the name `unicode_alphanumeric`.
#[verifier::external_body]
pub fn is_alphanumeric(c: char) -> (r: bool)
    ensures
        r == unicode_alphanumeric(c),
        (c as u32) < 128 ==> (r <==> ascii_alphanumeric(c)),
{
    c.is_alphanumeric()
}

/// Calls `String::from_utf8_lossy` and takes ownership of the result. The
/// contract names the decoded characters and states, as std documents, that
/// valid UTF-8 decodes to exactly its characters; how invalid sequences are
/// replaced by U+FFFD is left unsaid.
#[verifier::external_body]
pub fn from_utf8_lossy(bytes: &[u8]) -> (s: String)
    ensures
        s@ == utf8_lossy(bytes@),
        vstd::utf8::valid_utf8(bytes@) ==> s@ == vstd::utf8::decode_utf8(bytes@),
{
    String::from_utf8_lossy(bytes).into_owned()
}

/// `String::push` appends one character.
pub assume_specification[ String::push ](string: &mut String, ch: char)
    ensures
        final(string)@ == old(string)@.push(ch),
;

/// Every character of `s` is whitespace (also true of the empty sequence).
pub open spec fn all_whitespace(s: Seq<char>) -> bool {
    forall|i: int| 0 <= i < s.len() ==> unicode_whitespace(#[trigger] s[i])
}

/// `s` with its leading whitespace removed.
pub open spec fn trim_start_spec(s: Seq<char>) -> Seq<char>
    decreases s.len(),
{
    if s.len() > 0 && unicode_whitespace(s[0]) {
        trim_start_spec(s.drop_first())
    } else {
        s
    }
}

/// `s` with its trailing whitespace removed.
pub open spec fn trim_end_spec(s: Seq<char>) -> Seq<char>
    decreases s.len(),
{
    if s.len() > 0 && unicode_whitespace(s.last()) {
        trim_end_spec(s.drop_last())
    } else {
        s
    }
}

/// `s` with leading and trailing whitespace removed, as `str::trim` does.
pub open spec fn trim_spec(s: Seq<char>) -> Seq<char> {
    trim_end_spec(trim_start_spec(s))
}

/// The characters of `s`, in order, as a vector.
pub fn chars_of(s: &str) -> (v: Vec<char>)
    ensures
        v@ == s@,
{
    let mut v: Vec<char> = Vec::new();
    for c in it: s.chars()
        invariant
            v@ == it.seq().take(it.index()),
    {
        v.push(c);
    }
    v
}

/// Appends `cs[lo..hi]` to `s`.
pub fn push_chars(s: &mut String, cs: &Vec<char>, lo: usize, hi: usize)
    requires
        lo <= hi <= cs.len(),
    ensures
        final(s)@ == old(s)@ + cs@.subrange(lo as int, hi as int),
{
    let mut i = lo;
    while i < hi
        invariant
            lo <= i <= hi <= cs.len(),
            s@ == old(s)@ + cs@.subrange(lo as int, i as int),
        decreases hi - i,
    {
        s.push(cs[i]);
        assert(cs@.subrange(lo as int, i + 1) == cs@.subrange(lo as int, i as int).push(cs@[i as int]));
        i += 1;
    }
}

/// A new string holding `cs[lo..hi]`.
pub fn string_from(cs: &Vec<char>, lo: usize, hi: usize) -> (s: String)
    requires
        lo <= hi <= cs.len(),
    ensures
        s@ == cs@.subrange(lo as int, hi as int),
{
    let mut s = String::new();
    push_chars(&mut s, cs, lo, hi);
    s
}

/// Number of characters (not bytes) in `s`.
pub fn char_len(s: &str) -> (n: usize)
    ensures
        n == s@.len(),
{
    let cs = chars_of(s);
    cs.len()
}

/// Whether every character of `s` is whitespace.
pub fn is_all_whitespace(s: &str) -> (r: bool)
    ensures
        r == all_whitespace(s@),
{
    let cs = chars_of(s);
    let mut i: usize = 0;
    while i < cs.len()
        invariant
            i <= cs.len(),
            cs@ == s@,
            forall|j: int| 0 <= j < i ==> unicode_whitespace(#[trigger] cs@[j]),
        decreases cs.len() - i,
    {
        if !is_whitespace(cs[i]) {
            return false;
        }
        i += 1;
    }
    true
}

/// `s` with leading and trailing whitespace removed.
pub fn trim(s: &str) -> (r: String)
    ensures
        r@ == trim_spec(s@),
{
    let cs = chars_of(s);
    let n = cs.len();
    let mut lo: usize = 0;
    assert(cs@.subrange(0, n as int) == cs@);
    while lo < n && is_whitespace(cs[lo])
        invariant
            lo <= n == cs.len(),
            cs@ == s@,
            trim_start_spec(s@) == trim_start_spec(cs@.subrange(lo as int, n as int)),
        decreases n - lo,
    {
        assert(cs@.subrange(lo as int, n as int).drop_first() == cs@.subrange(lo + 1, n as int));
        lo += 1;
    }
    assert(trim_start_spec(s@) == cs@.subrange(lo as int, n as int));
    let mut hi: usize = n;
    while hi > lo && is_whitespace(cs[hi - 1])
        invariant
            lo <= hi <= n == cs.len(),
            trim_spec(s@) == trim_end_spec(cs@.subrange(lo as int, hi as int)),
        decreases hi - lo,
    {
        assert(cs@.subrange(lo as int, hi as int).drop_last() == cs@.subrange(lo as int, hi - 1));
        hi -= 1;
    }
    string_from(&cs, lo, hi)
}

/// Whether `prefix` is a prefix of `s`.
pub fn starts_with(s: &Vec<char>, prefix: &str) -> (r: bool)
    ensures
        r == prefix@.is_prefix_of(s@),
{
    let p = chars_of(prefix);
    if p.len() > s.len() {
        return false;
    }
    let mut i: usize = 0;
    while i < p.len()
        invariant
            i <= p.len() <= s.len(),
            p@ == prefix@,
            forall|j: int| 0 <= j < i ==> p@[j] == s@[j],
        decreases p.len() - i,
    {
        if p[i] != s[i] {
            return false;
        }
        i += 1;
    }
    true
}

/// Whether the characters of `s` are exactly those of `lit`.
pub fn chars_eq(s: &Vec<char>, lit: &str) -> (r: bool)
    ensures
        r == (s@ == lit@),
{
    let p = chars_of(lit);
    if p.len() != s.len() {
        return false;
    }
    let r = starts_with(s, lit);
    if r {
        assert(s@ =~= lit@);
    }
    r
}

/// Whether two strings hold the same characters.
pub fn str_eq(a: &str, b: &str) -> (r: bool)
    ensures
        r == (a@ == b@),
{
    let ca = chars_of(a);
    chars_eq(&ca, b)
}


// ---------------------------------------------------------------------------
// Splitting
// ---------------------------------------------------------------------------

/// The character views of a sequence of character vectors.
pub open spec fn char_vecs_view(v: Seq<Vec<char>>) -> Seq<Seq<char>> {
    v.map_values(|x: Vec<char>| x@)
}

/// The first index at or after `i` holding `sep`, or the length.
pub open spec fn next_sep(s: Seq<char>, i: int, sep: char) -> int
    decreases s.len() - i,
{
    if i < 0 || i >= s.len() || s[i] == sep {
        i
    } else {
        next_sep(s, i + 1, sep)
    }
}

pub proof fn lemma_next_sep(s: Seq<char>, i: int, sep: char)
    ensures
        next_sep(s, i, sep) >= i,
        0 <= i <= s.len() ==> next_sep(s, i, sep) <= s.len(),
        0 <= i && next_sep(s, i, sep) < s.len() ==> s[next_sep(s, i, sep)] == sep,
    decreases s.len() - i,
{
    if !(i < 0 || i >= s.len() || s[i] == sep) {
        lemma_next_sep(s, i + 1, sep);
    }
}

/// The pieces of `s[start..]` between occurrences of `sep`, as `str::split`
/// yields them (always at least one piece).
pub open spec fn pieces_from(s: Seq<char>, start: int, sep: char) -> Seq<Seq<char>>
    decreases s.len() - start,
{
    if start < 0 || start > s.len() {
        Seq::empty()
    } else {
        let k = next_sep(s, start, sep);
        proof {
            lemma_next_sep(s, start, sep);
        }
        if k >= s.len() {
            seq![s.subrange(start, s.len() as int)]
        } else {
            seq![s.subrange(start, k)] + pieces_from(s, k + 1, sep)
        }
    }
}

/// At most `n` pieces of `s[start..]`: the last holds the unsplit rest, as
/// `str::splitn` yields them.
pub open spec fn splitn_from(s: Seq<char>, start: int, n: nat, sep: char) -> Seq<Seq<char>>
    decreases n,
{
    if start < 0 || start > s.len() || n == 0 {
        Seq::empty()
    } else if n == 1 {
        seq![s.subrange(start, s.len() as int)]
    } else {
        let k = next_sep(s, start, sep);
        if k >= s.len() {
            seq![s.subrange(start, s.len() as int)]
        } else {
            seq![s.subrange(start, k)] + splitn_from(s, k + 1, (n - 1) as nat, sep)
        }
    }
}

/// Index of the first `sep` at or after `i`, or the length.
pub fn find_sep(s: &Vec<char>, i: usize, sep: char) -> (k: usize)
    requires
        i <= s.len(),
    ensures
        k == next_sep(s@, i as int, sep),
        i <= k <= s.len(),
{
    let mut k = i;
    while k < s.len() && s[k] != sep
        invariant
            i <= k <= s.len(),
            next_sep(s@, k as int, sep) == next_sep(s@, i as int, sep),
        decreases s.len() - k,
    {
        k += 1;
    }
    k
}

/// A copy of `s[lo..hi]`.
pub fn sub_chars(s: &Vec<char>, lo: usize, hi: usize) -> (v: Vec<char>)
    requires
        lo <= hi <= s.len(),
    ensures
        v@ == s@.subrange(lo as int, hi as int),
{
    let mut v: Vec<char> = Vec::new();
    let mut i = lo;
    while i < hi
        invariant
            lo <= i <= hi <= s.len(),
            v@ == s@.subrange(lo as int, i as int),
        decreases hi - i,
    {
        v.push(s[i]);
        assert(s@.subrange(lo as int, i + 1) =~= s@.subrange(lo as int, i as int).push(s@[i as int]));
        i += 1;
    }
    v
}

/// Splits `s` on every `sep`, as `str::split` does.
pub fn split_chars(s: &Vec<char>, sep: char) -> (parts: Vec<Vec<char>>)
    ensures
        char_vecs_view(parts@) == pieces_from(s@, 0, sep),
{
    let mut parts: Vec<Vec<char>> = Vec::new();
    let mut start: usize = 0;
    assert(char_vecs_view(parts@) =~= Seq::<Seq<char>>::empty());
    loop
        invariant
            start <= s.len(),
            char_vecs_view(parts@) + pieces_from(s@, start as int, sep) == pieces_from(s@, 0, sep),
        decreases s.len() - start,
    {
        let k = find_sep(s, start, sep);
        let piece = sub_chars(s, start, k);
        let ghost before = char_vecs_view(parts@);
        parts.push(piece);
        assert(char_vecs_view(parts@) =~= before.push(piece@));
        if k >= s.len() {
            assert(pieces_from(s@, start as int, sep) =~= seq![piece@]);
            return parts;
        }
        assert(pieces_from(s@, start as int, sep) =~= seq![piece@] + pieces_from(s@, k + 1, sep));
        start = k + 1;
    }
}

/// Splits `s` into at most `n` pieces on `sep`, as `str::splitn` does.
pub fn splitn_chars(s: &Vec<char>, n: usize, sep: char) -> (parts: Vec<Vec<char>>)
    ensures
        char_vecs_view(parts@) == splitn_from(s@, 0, n as nat, sep),
{
    let mut parts: Vec<Vec<char>> = Vec::new();
    assert(char_vecs_view(parts@) =~= Seq::<Seq<char>>::empty());
    if n == 0 {
        return parts;
    }
    let mut start: usize = 0;
    let mut left: usize = n;
    loop
        invariant
            start <= s.len(),
            left >= 1,
            char_vecs_view(parts@) + splitn_from(s@, start as int, left as nat, sep)
                == splitn_from(s@, 0, n as nat, sep),
        decreases left,
    {
        let ghost before = char_vecs_view(parts@);
        if left == 1 {
            let piece = sub_chars(s, start, s.len());
            parts.push(piece);
            assert(char_vecs_view(parts@) =~= before.push(piece@));
            return parts;
        }
        let k = find_sep(s, start, sep);
        if k >= s.len() {
            let piece = sub_chars(s, start, s.len());
            parts.push(piece);
            assert(char_vecs_view(parts@) =~= before.push(piece@));
            return parts;
        }
        let piece = sub_chars(s, start, k);
        parts.push(piece);
        assert(char_vecs_view(parts@) =~= before.push(piece@));
        assert(splitn_from(s@, start as int, left as nat, sep) =~= seq![piece@] + splitn_from(
            s@,
            k + 1,
            (left - 1) as nat,
            sep,
        ));
        start = k + 1;
        left = left - 1;
    }
}

/// `needle` occurs in `hay` starting at index `i`.
pub open spec fn occurs_at(hay: Seq<char>, needle: Seq<char>, i: int) -> bool {
    0 <= i && i + needle.len() <= hay.len() && hay.subrange(i, i + needle.len()) == needle
}

/// `needle` occurs somewhere in `hay`.
pub open spec fn contains_spec(hay: Seq<char>, needle: Seq<char>) -> bool {
    exists|i: int| occurs_at(hay, needle, i)
}

/// Whether `needle` occurs in `hay`.
pub fn contains(hay: &Vec<char>, needle: &str) -> (r: bool)
    ensures
        r == contains_spec(hay@, needle@),
{
    let nd = chars_of(needle);
    let m = nd.len();
    if m > hay.len() {
        assert forall|i: int| !occurs_at(hay@, needle@, i) by {}
        return false;
    }
    let mut i: usize = 0;
    while i <= hay.len() - m
        invariant
            nd@ == needle@,
            m == nd.len() <= hay.len(),
            i <= hay.len() - m + 1,
            forall|j: int| 0 <= j < i ==> !occurs_at(hay@, needle@, j),
        decreases hay.len() - i,
    {
        let mut k: usize = 0;
        let mut ok = true;
        while k < m
            invariant
                k <= m == nd.len(),
                i + m <= hay.len(),
                ok == (forall|j: int| 0 <= j < k ==> hay@[i + j] == #[trigger] nd@[j]),
            decreases m - k,
        {
            if hay[i + k] != nd[k] {
                ok = false;
            }
            k += 1;
        }
        if ok {
            assert(hay@.subrange(i as int, i + m) =~= needle@);
            assert(occurs_at(hay@, needle@, i as int));
            return true;
        }
        assert(!occurs_at(hay@, needle@, i as int)) by {
            if hay@.subrange(i as int, i + m) == needle@ {
                assert(forall|j: int| 0 <= j < m ==> hay@[i + j] == #[trigger] hay@.subrange(i as int, i + m)[j]);
            }
        }
        i += 1;
    }
    assert forall|j: int| !occurs_at(hay@, needle@, j) by {
        if 0 <= j < i {
        }
    }
    false
}


// ---------------------------------------------------------------------------
// Numbers
// ---------------------------------------------------------------------------

/// The decimal digits of a natural number, most significant first.
pub open spec fn digits_spec(n: nat) -> Seq<char>
    decreases n,
{
    let d = ((n % 10) as u8 + 48u8) as char;
    if n < 10 {
        seq![d]
    } else {
        digits_spec(n / 10).push(d)
    }
}

/// The decimal form of an integer, with a leading `-` when negative.
pub open spec fn decimal_spec(i: int) -> Seq<char> {
    if i < 0 {
        seq!['-'] + digits_spec((-i) as nat)
    } else {
        digits_spec(i as nat)
    }
}

/// The digit character for `d < 10`.
fn digit_char(d: u64) -> (c: char)
    requires
        d < 10,
    ensures
        c == ((d as u8) + 48u8) as char,
{
    if d == 0 {
        '0'
    } else if d == 1 {
        '1'
    } else if d == 2 {
        '2'
    } else if d == 3 {
        '3'
    } else if d == 4 {
        '4'
    } else if d == 5 {
        '5'
    } else if d == 6 {
        '6'
    } else if d == 7 {
        '7'
    } else if d == 8 {
        '8'
    } else {
        '9'
    }
}

/// Appends the decimal digits of `n`.
fn push_digits(s: &mut String, n: u64)
    ensures
        final(s)@ == old(s)@ + digits_spec(n as nat),
    decreases n,
{
    if n >= 10 {
        push_digits(s, n / 10);
    }
    s.push(digit_char(n % 10));
}

/// The decimal form of `i`.
pub fn i64_to_string(i: i64) -> (s: String)
    ensures
        s@ == decimal_spec(i as int),
{
    let mut s = String::new();
    if i < 0 {
        s.push('-');
        let m: u64 = if i == i64::MIN { 9223372036854775808u64 } else { (-i) as u64 };
        push_digits(&mut s, m);
    } else {
        push_digits(&mut s, i as u64);
    }
    s
}


/// The decimal form of `n`.
pub fn usize_to_string(n: usize) -> (s: String)
    ensures
        s@ == decimal_spec(n as int),
{
    let mut s = String::new();
    push_digits(&mut s, n as u64);
    s
}

} // verus!
