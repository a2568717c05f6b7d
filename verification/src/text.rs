//! Character-level text rules shared by identifiers, names and wire fields.

use vstd::prelude::*;
use vstd::utf8::encode_utf8;

verus! {

/// Unicode general category `Cc`: the C0 controls, DEL and the C1 controls.
pub open spec fn is_control_char(c: char) -> bool {
    (c as u32) <= 0x1f || (0x7f <= (c as u32) && (c as u32) <= 0x9f)
}

/// The Unicode `White_Space` property.
pub open spec fn is_whitespace_char(c: char) -> bool {
    let v = c as u32;
    ||| 0x09 <= v && v <= 0x0d
    ||| v == 0x20
    ||| v == 0x85
    ||| v == 0xa0
    ||| v == 0x1680
    ||| 0x2000 <= v && v <= 0x200a
    ||| v == 0x2028
    ||| v == 0x2029
    ||| v == 0x202f
    ||| v == 0x205f
    ||| v == 0x3000
}

/// Visible ASCII, `!` through `~`.
pub open spec fn is_ascii_graphic_char(c: char) -> bool {
    0x21 <= (c as u32) && (c as u32) <= 0x7e
}

pub open spec fn is_ascii_hexdigit_char(c: char) -> bool {
    ||| '0' <= c && c <= '9'
    ||| 'a' <= c && c <= 'f'
    ||| 'A' <= c && c <= 'F'
}

/// Some character of `s` is a control character.
pub open spec fn has_control(s: Seq<char>) -> bool {
    exists|i: int| 0 <= i < s.len() && is_control_char(#[trigger] s[i])
}

/// Every character of `s` is white space (true of the empty text).
pub open spec fn all_whitespace(s: Seq<char>) -> bool {
    forall|i: int| 0 <= i < s.len() ==> is_whitespace_char(#[trigger] s[i])
}

/// Number of bytes of the UTF-8 encoding of `s`.
pub open spec fn byte_len(s: Seq<char>) -> nat {
    encode_utf8(s).len()
}

/// `s` without its leading white space.
pub open spec fn trim_start_seq(s: Seq<char>) -> Seq<char>
    decreases s.len(),
{
    if s.len() > 0 && is_whitespace_char(s[0]) {
        trim_start_seq(s.drop_first())
    } else {
        s
    }
}

/// `s` without its trailing white space.
pub open spec fn trim_end_seq(s: Seq<char>) -> Seq<char>
    decreases s.len(),
{
    if s.len() > 0 && is_whitespace_char(s.last()) {
        trim_end_seq(s.drop_last())
    } else {
        s
    }
}

/// `s` without leading and trailing white space.
pub open spec fn trim_seq(s: Seq<char>) -> Seq<char> {
    trim_end_seq(trim_start_seq(s))
}

/// Whether a character is a control character.
pub fn char_is_control(c: char) -> (b: bool)
    ensures
        b == is_control_char(c),
{
    let v = c as u32;
    v <= 0x1f || (0x7f <= v && v <= 0x9f)
}

/// Whether a character is white space.
pub fn char_is_whitespace(c: char) -> (b: bool)
    ensures
        b == is_whitespace_char(c),
{
    let v = c as u32;
    (0x09 <= v && v <= 0x0d) || v == 0x20 || v == 0x85 || v == 0xa0 || v == 0x1680 || (0x2000
        <= v && v <= 0x200a) || v == 0x2028 || v == 0x2029 || v == 0x202f || v == 0x205f || v
        == 0x3000
}

/// The characters of `s`, in order.
pub fn chars_of(s: &str) -> (v: Vec<char>)
    ensures
        v@ == s@,
{
    let mut v: Vec<char> = Vec::new();
    for c in it: s.chars()
        invariant
            v@ == it.seq().take(it.index() as int),
    {
        v.push(c);
    }
    v
}

/// Appends one character; `String::push` from std.
#[verifier::external_body]
pub(crate) fn push_char(s: &mut String, c: char)
    ensures
        final(s)@ == old(s)@.push(c),
{
    s.push(c);
}

/// Appends every character of `t`, in order.
pub fn push_text(s: &mut String, t: &str)
    ensures
        final(s)@ == old(s)@ + t@,
{
    let chars = chars_of(t);
    let mut i: usize = 0;
    while i < chars.len()
        invariant
            i <= chars.len(),
            chars@ == t@,
            s@ == old(s)@ + chars@.take(i as int),
        decreases chars.len() - i,
    {
        push_char(s, chars[i]);
        assert(chars@.take(i as int).push(chars@[i as int]) == chars@.take(i + 1));
        assert(old(s)@ + chars@.take(i as int).push(chars@[i as int]) == (old(s)@ + chars@.take(
            i as int,
        )).push(chars@[i as int]));
        i = i + 1;
    }
    assert(chars@.take(chars.len() as int) == chars@);
}

/// A `String` holding exactly `chars`.
pub fn string_from_chars(chars: &Vec<char>) -> (s: String)
    ensures
        s@ == chars@,
{
    let mut s = String::new();
    let mut i: usize = 0;
    while i < chars.len()
        invariant
            i <= chars.len(),
            s@ == chars@.take(i as int),
        decreases chars.len() - i,
    {
        push_char(&mut s, chars[i]);
        i = i + 1;
        assert(chars@.take(i as int) == chars@.take((i - 1) as int).push(chars@[i - 1]));
    }
    assert(chars@.take(chars.len() as int) == chars@);
    s
}

/// Whether a character list holds a control character.
pub fn seq_has_control(chars: &Vec<char>) -> (b: bool)
    ensures
        b == has_control(chars@),
{
    let mut i: usize = 0;
    while i < chars.len()
        invariant
            i <= chars.len(),
            forall|j: int| 0 <= j < i ==> !is_control_char(#[trigger] chars@[j]),
        decreases chars.len() - i,
    {
        if char_is_control(chars[i]) {
            return true;
        }
        i = i + 1;
    }
    false
}

/// Whether some character of `s` is a control character.
pub fn contains_control(s: &str) -> (b: bool)
    ensures
        b == has_control(s@),
{
    let chars = chars_of(s);
    seq_has_control(&chars)
}

/// Number of UTF-8 bytes of `s`.
pub fn str_byte_len(s: &str) -> (n: usize)
    ensures
        n == byte_len(s@),
{
    s.as_bytes().len()
}

/// Trimming the start drops a prefix of white space.
pub proof fn lemma_trim_start_suffix(s: Seq<char>)
    ensures
        exists|k: int| 0 <= k <= s.len() && trim_start_seq(s) == s.skip(k) && (forall|j: int|
            0 <= j < k ==> is_whitespace_char(#[trigger] s[j])),
    decreases s.len(),
{
    if s.len() > 0 && is_whitespace_char(s[0]) {
        lemma_trim_start_suffix(s.drop_first());
        let k = choose|k: int|
            0 <= k <= s.drop_first().len() && trim_start_seq(s.drop_first()) == s.drop_first().skip(
                k,
            ) && (forall|j: int|
                0 <= j < k ==> is_whitespace_char(#[trigger] s.drop_first()[j]));
        assert(s.drop_first().skip(k) == s.skip(k + 1));
        assert forall|j: int| 0 <= j < k + 1 implies is_whitespace_char(#[trigger] s[j]) by {
            if j > 0 {
                assert(s[j] == s.drop_first()[j - 1]);
            }
        }
    } else {
        assert(s.skip(0) == s);
    }
}

/// Trimming the front leaves text that is empty or starts with a visible character.
pub proof fn lemma_trim_start_shape(s: Seq<char>)
    ensures
        trim_start_seq(s).len() == 0 || !is_whitespace_char(trim_start_seq(s)[0]),
        trim_start_seq(s).len() == 0 <==> all_whitespace(s),
        trim_start_seq(s).len() <= s.len(),
        trim_start_seq(s) == s <==> (s.len() == 0 || !is_whitespace_char(s[0])),
    decreases s.len(),
{
    if s.len() > 0 && is_whitespace_char(s[0]) {
        lemma_trim_start_shape(s.drop_first());
        if all_whitespace(s.drop_first()) {
            assert forall|i: int| 0 <= i < s.len() implies is_whitespace_char(#[trigger] s[i]) by {
                if i > 0 {
                    assert(s[i] == s.drop_first()[i - 1]);
                }
            }
        }
        if all_whitespace(s) {
            assert forall|i: int| 0 <= i < s.drop_first().len() implies is_whitespace_char(
                #[trigger] s.drop_first()[i],
            ) by {
                assert(s.drop_first()[i] == s[i + 1]);
            }
        }
    } else {
        if s.len() > 0 {
            assert(!is_whitespace_char(s[0]));
        }
    }
}

/// Trimming the back leaves text that is empty or ends with a visible character.
pub proof fn lemma_trim_end_shape(s: Seq<char>)
    ensures
        trim_end_seq(s).len() == 0 || !is_whitespace_char(trim_end_seq(s).last()),
        trim_end_seq(s).len() == 0 <==> all_whitespace(s),
        trim_end_seq(s) == s <==> (s.len() == 0 || !is_whitespace_char(s.last())),
        trim_end_seq(s).len() <= s.len(),
    decreases s.len(),
{
    if s.len() > 0 && is_whitespace_char(s.last()) {
        lemma_trim_end_shape(s.drop_last());
        if all_whitespace(s.drop_last()) {
            assert forall|i: int| 0 <= i < s.len() implies is_whitespace_char(#[trigger] s[i]) by {
                if i < s.len() - 1 {
                    assert(s[i] == s.drop_last()[i]);
                }
            }
        }
        if all_whitespace(s) {
            assert forall|i: int| 0 <= i < s.drop_last().len() implies is_whitespace_char(
                #[trigger] s.drop_last()[i],
            ) by {
                assert(s.drop_last()[i] == s[i]);
            }
        }
    }
}

/// Text equals its trimmed form exactly when it neither starts nor ends with white space.
pub proof fn lemma_trimmed_iff(s: Seq<char>)
    ensures
        (trim_seq(s) == s) <==> (s.len() == 0 || (!is_whitespace_char(s[0])
            && !is_whitespace_char(s.last()))),
        trim_seq(s).len() == 0 <==> all_whitespace(s),
{
    lemma_trim_start_shape(s);
    lemma_trim_end_shape(trim_start_seq(s));
    lemma_trim_start_suffix(s);
    if s.len() > 0 && !is_whitespace_char(s[0]) && !is_whitespace_char(s.last()) {
        assert(trim_start_seq(s) == s);
    }
    if trim_seq(s) == s && s.len() > 0 {
        if is_whitespace_char(s[0]) {
            assert(trim_start_seq(s).len() < s.len()) by {
                lemma_trim_start_shape(s.drop_first());
            }
        }
    }
}

/// Trimming the end keeps a prefix.
pub proof fn lemma_trim_end_prefix(s: Seq<char>)
    ensures
        trim_end_seq(s) == s.take(trim_end_seq(s).len() as int),
        trim_end_seq(s).len() <= s.len(),
    decreases s.len(),
{
    if s.len() > 0 && is_whitespace_char(s.last()) {
        lemma_trim_end_prefix(s.drop_last());
        let k = trim_end_seq(s).len() as int;
        assert(s.drop_last().take(k) == s.take(k));
    } else {
        assert(s.take(s.len() as int) == s);
    }
}

/// Trimming twice is trimming once.
pub proof fn lemma_trim_idempotent(s: Seq<char>)
    ensures
        trim_seq(trim_seq(s)) == trim_seq(s),
{
    let a = trim_start_seq(s);
    let t = trim_seq(s);
    lemma_trim_start_shape(s);
    lemma_trim_end_shape(a);
    lemma_trim_end_prefix(a);
    lemma_trimmed_iff(t);
    if t.len() > 0 {
        assert(t[0] == a[0]);
    }
}

/// `s` without leading and trailing white space (`str::trim`).
pub fn trim(s: &str) -> (r: String)
    ensures
        r@ == trim_seq(s@),
{
    let chars = chars_of(s);
    let n = chars.len();
    let mut lo: usize = 0;
    assert(chars@.skip(0) == chars@);
    while lo < n && char_is_whitespace(chars[lo])
        invariant
            lo <= n,
            n == chars@.len(),
            trim_start_seq(chars@) == trim_start_seq(chars@.skip(lo as int)),
        decreases n - lo,
    {
        assert(chars@.skip(lo as int).drop_first() == chars@.skip(lo + 1));
        lo = lo + 1;
    }
    assert(trim_start_seq(chars@.skip(lo as int)) == chars@.skip(lo as int));
    let mut hi: usize = n;
    while hi > lo && char_is_whitespace(chars[hi - 1])
        invariant
            lo <= hi <= n,
            n == chars@.len(),
            trim_end_seq(chars@.skip(lo as int)) == trim_end_seq(chars@.subrange(lo as int, hi as int)),
        decreases hi - lo,
    {
        assert(chars@.subrange(lo as int, hi as int).drop_last() == chars@.subrange(
            lo as int,
            hi - 1,
        ));
        hi = hi - 1;
    }
    assert(chars@.skip(lo as int) == chars@.subrange(lo as int, n as int));
    let mut out: Vec<char> = Vec::new();
    let mut i: usize = lo;
    while i < hi
        invariant
            lo <= i <= hi <= n,
            n == chars@.len(),
            out@ == chars@.subrange(lo as int, i as int),
        decreases hi - i,
    {
        out.push(chars[i]);
        i = i + 1;
        assert(chars@.subrange(lo as int, i as int) == chars@.subrange(lo as int, i - 1).push(
            chars@[i - 1],
        ));
    }
    assert(trim_end_seq(out@) == out@);
    string_from_chars(&out)
}

/// Whether `s` neither starts nor ends with white space (`s.trim() == s`).
pub fn is_trimmed(s: &str) -> (b: bool)
    ensures
        b == (trim_seq(s@) == s@),
{
    proof {
        lemma_trimmed_iff(s@);
    }
    let chars = chars_of(s);
    let n = chars.len();
    n == 0 || (!char_is_whitespace(chars[0]) && !char_is_whitespace(chars[n - 1]))
}

/// Whether `s` is empty or only white space (`s.trim().is_empty()`).
pub fn is_blank(s: &str) -> (b: bool)
    ensures
        b == (trim_seq(s@).len() == 0),
{
    proof {
        lemma_trimmed_iff(s@);
    }
    let chars = chars_of(s);
    let mut i: usize = 0;
    while i < chars.len()
        invariant
            i <= chars.len(),
            chars@ == s@,
            forall|j: int| 0 <= j < i ==> is_whitespace_char(#[trigger] chars@[j]),
        decreases chars.len() - i,
    {
        if !char_is_whitespace(chars[i]) {
            assert(!all_whitespace(s@)) by {
                assert(!is_whitespace_char(s@[i as int]));
            }
            proof {
                lemma_trimmed_iff(s@);
            }
            return false;
        }
        i = i + 1;
    }
    true
}

/// Whether two texts are equal, character by character.
pub fn str_eq(a: &str, b: &str) -> (r: bool)
    ensures
        r == (a@ == b@),
{
    let x = chars_of(a);
    let y = chars_of(b);
    if x.len() != y.len() {
        return false;
    }
    let mut i: usize = 0;
    while i < x.len()
        invariant
            i <= x.len(),
            x.len() == y.len(),
            x@ == a@,
            y@ == b@,
            forall|j: int| 0 <= j < i ==> x@[j] == y@[j],
        decreases x.len() - i,
    {
        if x[i] != y[i] {
            assert(x@[i as int] != y@[i as int]);
            return false;
        }
        i = i + 1;
    }
    assert(x@ == y@);
    true
}

/// Number of characters of `s`.
pub fn char_count(s: &str) -> (n: usize)
    ensures
        n == s@.len(),
{
    chars_of(s).len()
}

/// Text rule shared by identifiers: non-empty, at most `max` UTF-8 bytes, no control character.
pub open spec fn valid_text(s: Seq<char>, max: nat) -> bool {
    &&& s.len() > 0
    &&& byte_len(s) <= max
    &&& !has_control(s)
}

/// Whether a text is non-empty, at most `max` bytes and free of control characters.
pub fn check_text(s: &str, max: usize) -> (b: bool)
    ensures
        b == valid_text(s@, max as nat),
{
    let n = str_byte_len(s);
    if s.is_empty() || n > max {
        return false;
    }
    !contains_control(s)
}

/// Visible ASCII text takes one byte per character and holds no control character.
pub proof fn lemma_ascii_text(s: Seq<char>)
    requires
        forall|i: int| 0 <= i < s.len() ==> '!' <= #[trigger] s[i] && s[i] <= '~',
    ensures
        byte_len(s) == s.len(),
        !has_control(s),
{
    assert(vstd::utf8::is_ascii_chars(s)) by {
        assert forall|i: int| 0 <= i < s.len() implies '\0' <= #[trigger] s[i] <= '\u{7f}' by {
            assert('!' <= s[i] && s[i] <= '~');
        }
    }
    vstd::utf8::is_ascii_chars_encode_utf8(s);
    assert(!has_control(s)) by {
        assert forall|i: int| 0 <= i < s.len() implies !is_control_char(#[trigger] s[i]) by {
            assert('!' <= s[i] && s[i] <= '~');
        }
    }
}

} // verus!
