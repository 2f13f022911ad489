//! Character-level text helpers: whitespace splitting, joining, prefixes,
//! first-occurrence removal, capitalisation and the standard lowercase map.
use vstd::prelude::*;
use vstd::string::*;

verus! {

// ---------------------------------------------------------------------------
// Specifications
// ---------------------------------------------------------------------------

/// Unicode `White_Space`, the property that `char::is_whitespace` reports.
pub open spec fn is_white(c: char) -> bool {
    let u = c as u32;
    ||| 0x09 <= u <= 0x0D
    ||| u == 0x20
    ||| u == 0x85
    ||| u == 0xA0
    ||| u == 0x1680
    ||| 0x2000 <= u <= 0x200A
    ||| u == 0x2028
    ||| u == 0x2029
    ||| u == 0x202F
    ||| u == 0x205F
    ||| u == 0x3000
}

/// Reading `s` left to right: the words already closed by whitespace, and
/// the word still being read.
pub open spec fn split_state(s: Seq<char>) -> (Seq<Seq<char>>, Seq<char>)
    decreases s.len(),
{
    if s.len() == 0 {
        (Seq::empty(), Seq::empty())
    } else {
        let prev = split_state(s.drop_last());
        let c = s.last();
        if is_white(c) {
            if prev.1.len() > 0 {
                (prev.0.push(prev.1), Seq::empty())
            } else {
                (prev.0, Seq::empty())
            }
        } else {
            (prev.0, prev.1.push(c))
        }
    }
}

/// The maximal non-empty runs of non-whitespace characters of `s`, in order
/// (what `str::split_whitespace` yields).
pub open spec fn words(s: Seq<char>) -> Seq<Seq<char>> {
    let st = split_state(s);
    if st.1.len() > 0 {
        st.0.push(st.1)
    } else {
        st.0
    }
}

/// The items of `ws` with `sep` between consecutive items.
pub open spec fn joined(ws: Seq<Seq<char>>, sep: Seq<char>) -> Seq<char>
    decreases ws.len(),
{
    if ws.len() == 0 {
        Seq::empty()
    } else if ws.len() == 1 {
        ws[0]
    } else {
        joined(ws.drop_last(), sep) + sep + ws.last()
    }
}

/// `p` occurs in `s` starting at index `i`.
pub open spec fn occurs_at(s: Seq<char>, p: Seq<char>, i: int) -> bool {
    &&& 0 <= i
    &&& i + p.len() <= s.len()
    &&& s.subrange(i, i + p.len()) == p
}

/// The first index at or after `i` where `p` occurs in `s`, or -1.
pub open spec fn first_occurrence_from(s: Seq<char>, p: Seq<char>, i: int) -> int
    decreases s.len() + 1 - i,
{
    if i < 0 || i + p.len() > s.len() {
        -1
    } else if occurs_at(s, p, i) {
        i
    } else {
        first_occurrence_from(s, p, i + 1)
    }
}

/// `s` with the leftmost occurrence of `p` taken out (what
/// `str::replacen(p, "", 1)` gives); `s` itself where `p` does not occur.
pub open spec fn without_first(s: Seq<char>, p: Seq<char>) -> Seq<char> {
    let k = first_occurrence_from(s, p, 0);
    if k < 0 {
        s
    } else {
        s.take(k) + s.skip(k + p.len())
    }
}

/// ASCII upper case of one character; other characters are unchanged.
pub open spec fn ascii_upper(c: char) -> char {
    if 'a' <= c && c <= 'z' {
        ((c as u32) - 32) as char
    } else {
        c
    }
}

/// The character is in the ASCII range.
pub open spec fn is_ascii_char(c: char) -> bool {
    (c as u32) < 128
}

/// `str::to_lowercase` of `s`: the Unicode lowercase mapping, which depends
/// on the characters of `s` alone.
pub uninterp spec fn lowercase_of(s: Seq<char>) -> Seq<char>;

// ---------------------------------------------------------------------------
// Conversions
// ---------------------------------------------------------------------------

/// The characters of `s`, in order.
pub fn chars_of(s: &str) -> (v: Vec<char>)
    ensures
        v@ == s@,
{
    let n = s.unicode_len();
    let mut v: Vec<char> = Vec::new();
    let mut i: usize = 0;
    while i < n
        invariant
            n == s@.len(),
            i <= n,
            v@ == s@.subrange(0, i as int),
        decreases n - i,
    {
        let c = s.get_char(i);
        v.push(c);
        i = i + 1;
        assert(v@ =~= s@.subrange(0, i as int));
    }
    assert(v@ =~= s@);
    v
}

/// Appends one character: `String::push`, which the documentation says
/// appends the given char to the end of the string.
#[verifier::external_body]
fn push_char(s: &mut String, c: char)
    ensures
        final(s)@ == old(s)@.push(c),
{
    s.push(c);
}

/// A string holding exactly the characters of `v`.
pub fn string_of(v: &[char]) -> (s: String)
    ensures
        s@ == v@,
{
    let mut s = String::new();
    let mut i: usize = 0;
    while i < v.len()
        invariant
            i <= v@.len(),
            s@ == v@.subrange(0, i as int),
        decreases v@.len() - i,
    {
        push_char(&mut s, v[i]);
        i = i + 1;
        assert(s@ =~= v@.subrange(0, i as int));
    }
    assert(s@ =~= v@);
    s
}

/// The characters of `v` from index `from` on.
pub fn chars_from(v: &[char], from: usize) -> (r: Vec<char>)
    requires
        from <= v@.len(),
    ensures
        r@ == v@.skip(from as int),
{
    let mut r: Vec<char> = Vec::new();
    let mut i: usize = from;
    while i < v.len()
        invariant
            from <= i <= v@.len(),
            r@ == v@.subrange(from as int, i as int),
        decreases v@.len() - i,
    {
        r.push(v[i]);
        i = i + 1;
        assert(r@ =~= v@.subrange(from as int, i as int));
    }
    assert(r@ =~= v@.skip(from as int));
    r
}

/// A copy of `s`.
pub fn copy_string(s: &String) -> (r: String)
    ensures
        r@ == s@,
{
    s.clone()
}

/// The string literal or slice `s` as an owned string.
pub fn owned(s: &str) -> (r: String)
    ensures
        r@ == s@,
{
    String::from_str(s)
}

/// `a` followed by `b`.
pub fn concat2(a: &str, b: &str) -> (r: String)
    ensures
        r@ == a@ + b@,
{
    let mut r = String::from_str(a);
    r.append(b);
    r
}

/// `a`, `b`, `c` one after another.
pub fn concat3(a: &str, b: &str, c: &str) -> (r: String)
    ensures
        r@ == a@ + b@ + c@,
{
    let mut r = String::from_str(a);
    r.append(b);
    r.append(c);
    r
}

/// `str::to_lowercase`: the Unicode lowercase mapping of `s`. Nothing is
/// stated of the mapping beyond its name: its tables are Unicode's.
#[verifier::external_body]
fn std_lowercase(s: &str) -> (r: String)
    ensures
        r@ == lowercase_of(s@),
{
    s.to_lowercase()
}

/// The lowercase form of `s`, as `str::to_lowercase` computes it.
pub fn lowercase(s: &str) -> (r: String)
    ensures
        r@ == lowercase_of(s@),
{
    std_lowercase(s)
}

// ---------------------------------------------------------------------------
// Comparisons
// ---------------------------------------------------------------------------

/// Whether the characters `a` spell exactly `b`.
pub fn same_text(a: &[char], b: &str) -> (r: bool)
    ensures
        r == (a@ == b@),
{
    let n = b.unicode_len();
    if a.len() != n {
        return false;
    }
    let mut i: usize = 0;
    while i < n
        invariant
            n == b@.len(),
            n == a@.len(),
            i <= n,
            forall|j: int| 0 <= j < i ==> a@[j] == b@[j],
        decreases n - i,
    {
        if a[i] != b.get_char(i) {
            return false;
        }
        i = i + 1;
    }
    assert(a@ =~= b@);
    true
}

/// Whether two strings hold the same characters.
pub fn same_string(a: &String, b: &String) -> (r: bool)
    ensures
        r == (a@ == b@),
{
    *a == *b
}

/// Whether `s` begins with `p`.
pub fn starts_with_text(s: &[char], p: &str) -> (r: bool)
    ensures
        r == p@.is_prefix_of(s@),
{
    let n = p.unicode_len();
    if n > s.len() {
        return false;
    }
    let mut i: usize = 0;
    while i < n
        invariant
            n == p@.len(),
            n <= s@.len(),
            i <= n,
            forall|j: int| 0 <= j < i ==> s@[j] == p@[j],
        decreases n - i,
    {
        if s[i] != p.get_char(i) {
            assert(s@.subrange(0, n as int)[i as int] != p@[i as int]);
            return false;
        }
        i = i + 1;
    }
    assert(p@ =~= s@.subrange(0, n as int));
    true
}

// ---------------------------------------------------------------------------
// Whitespace splitting and joining
// ---------------------------------------------------------------------------

/// Whether `c` is Unicode whitespace.
pub fn is_white_char(c: char) -> (r: bool)
    ensures
        r == is_white(c),
{
    let u = c as u32;
    (0x09 <= u && u <= 0x0D) || u == 0x20 || u == 0x85 || u == 0xA0 || u == 0x1680 || (0x2000
        <= u && u <= 0x200A) || u == 0x2028 || u == 0x2029 || u == 0x202F || u == 0x205F || u
        == 0x3000
}

/// The whitespace-separated words of `s`.
pub fn split_words(s: &[char]) -> (out: Vec<String>)
    ensures
        out.deep_view() == words(s@),
{
    let mut out: Vec<String> = Vec::new();
    let mut cur: Vec<char> = Vec::new();
    let mut i: usize = 0;
    while i < s.len()
        invariant
            i <= s@.len(),
            out.deep_view() == split_state(s@.take(i as int)).0,
            cur@ == split_state(s@.take(i as int)).1,
        decreases s@.len() - i,
    {
        let ghost before = s@.take(i as int);
        assert(s@.take(i + 1).drop_last() =~= before);
        let c = s[i];
        if is_white_char(c) {
            if cur.len() > 0 {
                let w = string_of(&cur);
                let ghost old_out = out.deep_view();
                out.push(w);
                assert(out.deep_view() =~= old_out.push(cur@));
                cur = Vec::new();
            } else {
                cur = Vec::new();
            }
        } else {
            cur.push(c);
        }
        i = i + 1;
    }
    assert(s@.take(s@.len() as int) =~= s@);
    if cur.len() > 0 {
        let w = string_of(&cur);
        let ghost old_out = out.deep_view();
        out.push(w);
        assert(out.deep_view() =~= old_out.push(cur@));
    }
    out
}

/// The words `ws[from..]` joined by `sep`.
pub fn join_from(ws: &Vec<String>, from: usize, sep: &str) -> (r: String)
    requires
        from <= ws@.len(),
    ensures
        r@ == joined(ws.deep_view().skip(from as int), sep@),
{
    let ghost dv = ws.deep_view();
    let mut r = String::new();
    let mut i: usize = from;
    assert(dv.subrange(from as int, from as int) =~= Seq::<Seq<char>>::empty());
    while i < ws.len()
        invariant
            from <= i <= ws@.len(),
            dv == ws.deep_view(),
            r@ == joined(dv.subrange(from as int, i as int), sep@),
        decreases ws@.len() - i,
    {
        let ghost prev = dv.subrange(from as int, i as int);
        assert(dv.subrange(from as int, i + 1).drop_last() =~= prev);
        if i > from {
            r.append(sep);
        } else {
            assert(dv.subrange(from as int, i + 1) =~= seq![dv[i as int]]);
        }
        r.append(ws[i].as_str());
        i = i + 1;
    }
    assert(dv.subrange(from as int, ws@.len() as int) =~= dv.skip(from as int));
    r
}

// ---------------------------------------------------------------------------
// Search and edits
// ---------------------------------------------------------------------------

fn occurs_at_exec(s: &[char], p: &[char], i: usize) -> (r: bool)
    requires
        i + p@.len() <= s@.len(),
    ensures
        r == occurs_at(s@, p@, i as int),
{
    let n = s.len();
    let mut j: usize = 0;
    while j < p.len()
        invariant
            n == s@.len(),
            i + p@.len() <= s@.len(),
            j <= p@.len(),
            forall|k: int| 0 <= k < j ==> s@[i + k] == p@[k],
        decreases p@.len() - j,
    {
        if s[i + j] != p[j] {
            assert(s@.subrange(i as int, i + p@.len())[j as int] != p@[j as int]);
            return false;
        }
        j = j + 1;
    }
    assert(s@.subrange(i as int, i + p@.len()) =~= p@);
    true
}

/// `s` with the leftmost occurrence of `p` removed.
pub fn remove_first(s: &[char], p: &[char]) -> (r: Vec<char>)
    ensures
        r@ == without_first(s@, p@),
{
    let n = s.len();
    let m = p.len();
    let mut i: usize = 0;
    while i <= n && m <= n - i
        invariant
            n == s@.len(),
            m == p@.len(),
            first_occurrence_from(s@, p@, 0) == first_occurrence_from(s@, p@, i as int),
        decreases n + 1 - i,
    {
        if occurs_at_exec(s, p, i) {
            let mut r: Vec<char> = Vec::new();
            let mut k: usize = 0;
            while k < i
                invariant
                    k <= i,
                    i <= n,
                    n == s@.len(),
                    r@ == s@.take(k as int),
                decreases i - k,
            {
                r.push(s[k]);
                k = k + 1;
                assert(r@ =~= s@.take(k as int));
            }
            let mut k: usize = i + m;
            let ghost head = r@;
            while k < n
                invariant
                    i + m <= k <= n,
                    n == s@.len(),
                    r@ == head + s@.subrange(i + m, k as int),
                decreases n - k,
            {
                r.push(s[k]);
                k = k + 1;
                assert(r@ =~= head + s@.subrange(i + m, k as int));
            }
            assert(s@.subrange(i + m, n as int) =~= s@.skip(i + m));
            return r;
        }
        proof {
            if m == 0 {
                assert(s@.subrange(i as int, i + m) =~= p@);
            }
        }
        i = i + 1;
    }
    let mut r: Vec<char> = Vec::new();
    let mut k: usize = 0;
    while k < n
        invariant
            k <= n,
            n == s@.len(),
            r@ == s@.take(k as int),
        decreases n - k,
    {
        r.push(s[k]);
        k = k + 1;
        assert(r@ =~= s@.take(k as int));
    }
    assert(r@ =~= s@);
    r
}

/// ASCII upper case of `c`.
pub fn ascii_upper_char(c: char) -> (r: char)
    ensures
        r == ascii_upper(c),
{
    if 'a' <= c && c <= 'z' {
        let b = (c as u8) - 32;
        b as char
    } else {
        c
    }
}

/// `s` with its first character in upper case. The first character must be
/// ASCII and present: the first byte is sliced off, which panics
/// on an empty string or a multi-byte first character.
pub fn capitalize_string(s: &str) -> (r: String)
    requires
        s@.len() > 0,
        is_ascii_char(s@[0]),
    ensures
        r@ == seq![ascii_upper(s@[0])] + s@.skip(1),
{
    let v = chars_of(s);
    let mut out: Vec<char> = Vec::new();
    out.push(ascii_upper_char(v[0]));
    let mut i: usize = 1;
    while i < v.len()
        invariant
            1 <= i <= v@.len(),
            v@ == s@,
            out@ == seq![ascii_upper(s@[0])] + s@.subrange(1, i as int),
        decreases v@.len() - i,
    {
        out.push(v[i]);
        i = i + 1;
        assert(out@ =~= seq![ascii_upper(s@[0])] + s@.subrange(1, i as int));
    }
    assert(s@.subrange(1, v@.len() as int) =~= s@.skip(1));
    string_of(&out)
}

} // verus!

verus! {

/// A word: non-empty, with no whitespace in it.
pub open spec fn is_word(w: Seq<char>) -> bool {
    w.len() > 0 && forall|k: int| 0 <= k < w.len() ==> !is_white(#[trigger] w[k])
}

proof fn lemma_split_state_words(s: Seq<char>)
    ensures
        forall|j: int| 0 <= j < split_state(s).0.len() ==> is_word(#[trigger] split_state(s).0[j]),
        forall|k: int| 0 <= k < split_state(s).1.len() ==> !is_white(#[trigger] split_state(s).1[k]),
    decreases s.len(),
{
    if s.len() > 0 {
        lemma_split_state_words(s.drop_last());
        let prev = split_state(s.drop_last());
        let c = s.last();
        if !is_white(c) {
            assert forall|k: int| 0 <= k < prev.1.push(c).len() implies !is_white(
                #[trigger] prev.1.push(c)[k],
            ) by {
                if k < prev.1.len() {
                    assert(prev.1.push(c)[k] == prev.1[k]);
                }
            }
        }
    }
}

/// Splitting at whitespace yields words: none is empty and none holds
/// a whitespace character.
pub proof fn lemma_words_are_words(s: Seq<char>)
    ensures
        forall|j: int| 0 <= j < words(s).len() ==> is_word(#[trigger] words(s)[j]),
{
    lemma_split_state_words(s);
}

/// Capitalising changes at most the first character and keeps the
/// length.
pub proof fn lemma_capitalize_keeps_rest(s: Seq<char>)
    requires
        s.len() > 0,
    ensures
        (seq![ascii_upper(s[0])] + s.skip(1)).len() == s.len(),
        (seq![ascii_upper(s[0])] + s.skip(1)).skip(1) == s.skip(1),
{
    assert((seq![ascii_upper(s[0])] + s.skip(1)).skip(1) =~= s.skip(1));
}

} // verus!
