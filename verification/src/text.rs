use vstd::prelude::*;
use unicode_normalization::UnicodeNormalization;

verus! {

/// Whether `c` has the Unicode `White_Space` property, which `char::is_whitespace`
/// tests: the 25 code points U+0009 to U+000D, U+0020, U+0085, U+00A0, U+1680,
/// U+2000 to U+200A, U+2028, U+2029, U+202F, U+205F and U+3000.
pub open spec fn unicode_white_space(c: char) -> bool {
    let u = c as u32;
    ||| 0x9 <= u <= 0xD
    ||| u == 0x20
    ||| u == 0x85
    ||| u == 0xA0
    ||| u == 0x1680
    ||| 0x2000 <= u <= 0x200A
    ||| u == 0x2028
    ||| u == 0x2029
    ||| u == 0x202F
    ||| u == 0x205F
    ||| u == 0x3000
}

/// The Unicode Normalization Form C of the text `s`, as
/// `unicode_normalization` computes it.
pub uninterp spec fn nfc(s: Seq<char>) -> Seq<char>;

/// The lowercase mapping of the text `s`, as `str::to_lowercase` computes it.
pub uninterp spec fn lowercase(s: Seq<char>) -> Seq<char>;

/// `s` without its leading whitespace.
pub open spec fn trim_start(s: Seq<char>) -> Seq<char>
    decreases s.len(),
{
    if s.len() > 0 && unicode_white_space(s[0]) {
        trim_start(s.drop_first())
    } else {
        s
    }
}

/// `s` without its trailing whitespace.
pub open spec fn trim_end(s: Seq<char>) -> Seq<char>
    decreases s.len(),
{
    if s.len() > 0 && unicode_white_space(s.last()) {
        trim_end(s.drop_last())
    } else {
        s
    }
}

/// `s` without leading and trailing whitespace, as `str::trim` gives it.
pub open spec fn trimmed(s: Seq<char>) -> Seq<char> {
    trim_end(trim_start(s))
}

/// Whether `s` holds nothing but whitespace (or nothing at all).
pub open spec fn blank(s: Seq<char>) -> bool {
    trimmed(s).len() == 0
}

/// Whether `needle` occurs in `hay` as a contiguous run of characters.
pub open spec fn has_infix(hay: Seq<char>, needle: Seq<char>) -> bool {
    exists|i: int|
        0 <= i && i + needle.len() <= hay.len() && #[trigger] hay.subrange(i, i + needle.len())
            == needle
}

/// Whether the text that `s` encodes takes fewer than `n` bytes in UTF-8.
pub open spec fn shorter_in_bytes_than(s: Seq<char>, n: nat) -> bool {
    vstd::utf8::encode_utf8(s).len() < n
}

/// Whether `c` has the Unicode `White_Space` property.
pub fn char_is_whitespace(c: char) -> (b: bool)
    ensures
        b == unicode_white_space(c),
{
    let u = c as u32;
    (0x9 <= u && u <= 0xD) || u == 0x20 || u == 0x85 || u == 0xA0 || u == 0x1680 || (0x2000 <= u
        && u <= 0x200A) || u == 0x2028 || u == 0x2029 || u == 0x202F || u == 0x205F || u == 0x3000
}

/// `String::push`: appends `c` at the end of `s`.
#[verifier::external_body]
pub(crate) fn push_char(s: &mut String, c: char)
    ensures
        final(s)@ == old(s)@.push(c),
{
    s.push(c)
}

/// `str::to_lowercase`: the lowercase mapping of `s`, named `lowercase`.
#[verifier::external_body]
pub(crate) fn str_to_lowercase(s: &str) -> (r: String)
    ensures
        r@ == lowercase(s@),
{
    s.to_lowercase()
}

/// `UnicodeNormalization::nfc` collected into a `String`: the NFC form of
/// `s`, named `nfc`.
#[verifier::external_body]
fn nfc_string(s: &str) -> (r: String)
    ensures
        r@ == nfc(s@),
{
    s.nfc().collect::<String>()
}

/// The text `text` in Unicode Normalization Form C.
pub fn normalize_string(text: &str) -> (normalized: String)
    ensures
        normalized@ == nfc(text@),
{
    nfc_string(text)
}

/// The characters of `s`, in order.
pub fn chars_of(s: &str) -> (v: Vec<char>)
    ensures
        v@ == s@,
{
    let mut v: Vec<char> = Vec::new();
    for c in it: s.chars()
        invariant
            v@ == it.seq().take(it.index() as int),
            it.seq() == s@,
    {
        v.push(c);
    }
    v
}

/// The text made of `chars[start..end]`.
pub fn string_of(chars: &Vec<char>, start: usize, end: usize) -> (s: String)
    requires
        start <= end <= chars@.len(),
    ensures
        s@ == chars@.subrange(start as int, end as int),
{
    let mut s = String::new();
    let mut k = start;
    while k < end
        invariant
            start <= k <= end <= chars@.len(),
            s@ == chars@.subrange(start as int, k as int),
        decreases end - k,
    {
        push_char(&mut s, chars[k]);
        k = k + 1;
        assert(s@ =~= chars@.subrange(start as int, k as int));
    }
    s
}

proof fn lemma_trim_start_step(s: Seq<char>, i: int)
    requires
        0 <= i < s.len(),
        unicode_white_space(s[i]),
    ensures
        trim_start(s.subrange(i, s.len() as int)) == trim_start(s.subrange(i + 1, s.len() as int)),
{
    assert(s.subrange(i, s.len() as int).drop_first() =~= s.subrange(i + 1, s.len() as int));
}

proof fn lemma_trim_end_step(s: Seq<char>, j: int)
    requires
        0 < j <= s.len(),
        unicode_white_space(s[j - 1]),
    ensures
        trim_end(s.subrange(0, j)) == trim_end(s.subrange(0, j - 1)),
{
    assert(s.subrange(0, j).drop_last() =~= s.subrange(0, j - 1));
}

/// `text` without leading and trailing whitespace.
pub fn trim(text: &str) -> (t: String)
    ensures
        t@ == trimmed(text@),
{
    let chars = chars_of(text);
    let n = chars.len();
    let ghost s = chars@;
    let mut i: usize = 0;
    assert(s.subrange(0, n as int) =~= s);
    while i < n && char_is_whitespace(chars[i])
        invariant
            i <= n == s.len(),
            chars@ == s,
            trim_start(s) == trim_start(s.subrange(i as int, n as int)),
        decreases n - i,
    {
        proof {
            lemma_trim_start_step(s, i as int);
        }
        i = i + 1;
    }
    let ghost rest = s.subrange(i as int, n as int);
    assert(trim_start(s) == rest);
    let mut j: usize = n;
    assert(rest.subrange(0, (n - i) as int) =~= rest);
    while j > i && char_is_whitespace(chars[j - 1])
        invariant
            i <= j <= n == s.len(),
            chars@ == s,
            rest == s.subrange(i as int, n as int),
            trim_end(rest) == trim_end(rest.subrange(0, (j - i) as int)),
        decreases j - i,
    {
        proof {
            lemma_trim_end_step(rest, (j - i) as int);
            assert(rest.subrange(0, (j - i) as int).drop_last() =~= rest.subrange(
                0,
                (j - 1 - i) as int,
            ));
        }
        j = j - 1;
    }
    let ghost kept = rest.subrange(0, (j - i) as int);
    assert(trim_end(kept) == kept);
    assert(kept =~= s.subrange(i as int, j as int));
    string_of(&chars, i, j)
}

/// Whether `text` holds nothing but whitespace.
pub fn is_blank(text: &str) -> (b: bool)
    ensures
        b == blank(text@),
{
    let t = trim(text);
    t.as_str().is_empty()
}

/// Whether `a` and `b` are the same text.
pub fn same_text(a: &str, b: &str) -> (eq: bool)
    ensures
        eq == (a@ == b@),
{
    let x = chars_of(a);
    let y = chars_of(b);
    if x.len() != y.len() {
        return false;
    }
    let mut k: usize = 0;
    while k < x.len()
        invariant
            x@ == a@,
            y@ == b@,
            x@.len() == y@.len(),
            k <= x@.len(),
            forall|m: int| 0 <= m < k ==> x@[m] == y@[m],
        decreases x.len() - k,
    {
        if x[k] != y[k] {
            return false;
        }
        k = k + 1;
    }
    assert(x@ =~= y@);
    true
}

/// Whether `needle` occurs at position `at` of `hay`.
fn occurs_at(hay: &Vec<char>, needle: &Vec<char>, at: usize) -> (b: bool)
    requires
        at + needle@.len() <= hay@.len(),
    ensures
        b == (hay@.subrange(at as int, at + needle@.len()) == needle@),
{
    let mut k: usize = 0;
    while k < needle.len()
        invariant
            at + needle@.len() <= hay@.len(),
            hay@.len() == hay.len(),
            k <= needle@.len(),
            forall|m: int| 0 <= m < k ==> hay@[at + m] == needle@[m],
        decreases needle.len() - k,
    {
        if hay[at + k] != needle[k] {
            assert(hay@.subrange(at as int, at + needle@.len())[k as int] != needle@[k as int]);
            return false;
        }
        k = k + 1;
    }
    assert(hay@.subrange(at as int, at + needle@.len()) =~= needle@);
    true
}

/// Whether `needle` occurs in `hay`, as `str::contains` answers it.
pub fn contains_text(hay: &str, needle: &str) -> (b: bool)
    ensures
        b == has_infix(hay@, needle@),
{
    let h = chars_of(hay);
    let n = chars_of(needle);
    if n.len() > h.len() {
        return false;
    }
    let last = h.len() - n.len();
    let mut at: usize = 0;
    while at <= last
        invariant
            h@ == hay@,
            n@ == needle@,
            last + n@.len() == h@.len(),
            forall|i: int| 0 <= i < at ==> #[trigger] h@.subrange(i, i + n@.len()) != n@,
        decreases last + 1 - at,
    {
        if occurs_at(&h, &n, at) {
            return true;
        }
        if at == last {
            return false;
        }
        at = at + 1;
    }
    false
}

/// Whether `text` takes fewer than `n` bytes in UTF-8.
pub fn fewer_bytes_than(text: &str, n: usize) -> (b: bool)
    ensures
        b == shorter_in_bytes_than(text@, n as nat),
{
    let bytes = text.as_bytes();
    bytes.len() < n
}


/// The texts held by a list of strings.
pub open spec fn texts(v: Seq<String>) -> Seq<Seq<char>> {
    v.map_values(|s: String| s@)
}

/// A copy of every string of `v`, in order.
pub fn copy_texts(v: &Vec<String>) -> (c: Vec<String>)
    ensures
        c@ == v@,
{
    let mut c: Vec<String> = Vec::new();
    let mut k: usize = 0;
    while k < v.len()
        invariant
            k <= v@.len(),
            c@ == v@.subrange(0, k as int),
        decreases v.len() - k,
    {
        c.push(v[k].clone());
        k = k + 1;
        assert(c@ =~= v@.subrange(0, k as int));
    }
    assert(v@.subrange(0, v@.len() as int) =~= v@);
    c
}

/// Appends `s` to the list `v`; the texts grow by `s`'s text.
pub fn push_text(v: &mut Vec<String>, s: String)
    ensures
        final(v)@ == old(v)@.push(s),
        texts(final(v)@) == texts(old(v)@).push(s@),
{
    v.push(s);
    assert(texts(v@) =~= texts(old(v)@).push(s@));
}

} // verus!
