//! Character-level helpers shared by the value objects and parsers.

use vstd::prelude::*;

verus! {

/// Appends one character to a string (`String::push`).
#[verifier::external_body]
pub(crate) fn push_char(s: &mut String, c: char)
    ensures
        final(s)@ == old(s)@.push(c),
{
    s.push(c);
}

/// The characters of `s`, in order, as a vector.
pub fn chars_vec(s: &str) -> (v: Vec<char>)
    ensures
        v@ == s@,
{
    broadcast use vstd::string::group_string_axioms;
    let mut v: Vec<char> = Vec::new();
    for c in it: s.chars()
        invariant
            v@ == it.seq().take(it.index() as int),
    {
        v.push(c);
    }
    v
}

/// Whether `c` is plain ASCII (code point below 128).
pub open spec fn is_ascii_char(c: char) -> bool {
    (c as u32) < 128
}

/// What `char::is_numeric` returns for `c`: whether `c` belongs to one of
/// Unicode's numeric general categories (Nd, Nl, No).
pub uninterp spec fn unicode_is_numeric(c: char) -> bool;

/// What `char::is_lowercase` returns for `c`: the Unicode `Lowercase` property.
pub uninterp spec fn unicode_is_lowercase(c: char) -> bool;

/// What `char::is_uppercase` returns for `c`: the Unicode `Uppercase` property.
pub uninterp spec fn unicode_is_uppercase(c: char) -> bool;

/// `char::is_numeric`. Besides naming the result, the contract records the
/// ASCII part of the property: among ASCII characters only `'0'..='9'` are numeric.
#[verifier::external_body]
pub(crate) fn char_is_numeric(c: char) -> (r: bool)
    ensures
        r == unicode_is_numeric(c),
        is_ascii_char(c) ==> (r <==> ('0' <= c && c <= '9')),
{
    c.is_numeric()
}

/// `char::is_lowercase`. Among ASCII characters only `'a'..='z'` carry the
/// `Lowercase` property.
#[verifier::external_body]
pub(crate) fn char_is_lowercase(c: char) -> (r: bool)
    ensures
        r == unicode_is_lowercase(c),
        is_ascii_char(c) ==> (r <==> ('a' <= c && c <= 'z')),
{
    c.is_lowercase()
}

/// `char::is_uppercase`. Among ASCII characters only `'A'..='Z'` carry the
/// `Uppercase` property.
#[verifier::external_body]
pub(crate) fn char_is_uppercase(c: char) -> (r: bool)
    ensures
        r == unicode_is_uppercase(c),
        is_ascii_char(c) ==> (r <==> ('A' <= c && c <= 'Z')),
{
    c.is_uppercase()
}

/// ASCII punctuation as `char::is_ascii_punctuation` defines it:
/// `!"#$%&'()*+,-./`, `:;<=>?@`, `[\]^_` followed by the backtick, and `{|}~`.
pub open spec fn is_ascii_punctuation_char(c: char) -> bool {
    ||| ('!' <= c && c <= '/')
    ||| (':' <= c && c <= '@')
    ||| ('[' <= c && c <= '`')
    ||| ('{' <= c && c <= '~')
}

/// Whether `c` is ASCII punctuation (`char::is_ascii_punctuation`).
pub(crate) fn char_is_ascii_punctuation(c: char) -> (r: bool)
    ensures
        r == is_ascii_punctuation_char(c),
{
    ('!' <= c && c <= '/') || (':' <= c && c <= '@') || ('[' <= c && c <= '`') || ('{' <= c && c
        <= '~')
}

/// Number of bytes of the UTF-8 encoding of `s`.
pub open spec fn utf8_len(s: Seq<char>) -> nat {
    vstd::utf8::encode_utf8(s).len()
}

/// A character takes at most four bytes of UTF-8.
pub proof fn lemma_utf8_len_bound(s: Seq<char>)
    ensures
        utf8_len(s) <= 4 * s.len(),
    decreases s.len(),
{
    if s.len() > 0 {
        lemma_utf8_len_bound(s.drop_first());
        assert(vstd::utf8::encode_scalar(s[0] as u32).len() <= 4);
    }
}

/// What `str::len` returns for a string with characters `s`: its UTF-8 byte
/// count as a `usize`.
pub open spec fn byte_len(s: Seq<char>) -> usize {
    utf8_len(s) as usize
}


/// The Unicode `White_Space` property, which `char::is_whitespace` and
/// `str::trim` use: U+0009..=U+000D, U+0020, U+0085, U+00A0, U+1680,
/// U+2000..=U+200A, U+2028, U+2029, U+202F, U+205F and U+3000.
pub open spec fn is_unicode_whitespace(c: char) -> bool {
    let u = c as u32;
    ||| (0x9 <= u && u <= 0xD)
    ||| u == 0x20
    ||| u == 0x85
    ||| u == 0xA0
    ||| u == 0x1680
    ||| (0x2000 <= u && u <= 0x200A)
    ||| u == 0x2028
    ||| u == 0x2029
    ||| u == 0x202F
    ||| u == 0x205F
    ||| u == 0x3000
}

/// `s` without its leading whitespace.
pub open spec fn trim_start_ws(s: Seq<char>) -> Seq<char>
    decreases s.len(),
{
    if s.len() > 0 && is_unicode_whitespace(s[0]) {
        trim_start_ws(s.drop_first())
    } else {
        s
    }
}

/// `s` without its trailing whitespace.
pub open spec fn trim_end_ws(s: Seq<char>) -> Seq<char>
    decreases s.len(),
{
    if s.len() > 0 && is_unicode_whitespace(s.last()) {
        trim_end_ws(s.drop_last())
    } else {
        s
    }
}

/// `s` without leading and trailing whitespace, as `str::trim` returns it.
pub open spec fn trim_ws(s: Seq<char>) -> Seq<char> {
    trim_end_ws(trim_start_ws(s))
}

/// Whether `s` has no leading or trailing whitespace.
pub open spec fn is_trimmed(s: Seq<char>) -> bool {
    s.len() > 0 ==> !is_unicode_whitespace(s[0]) && !is_unicode_whitespace(s.last())
}

/// Trimming the start leaves a suffix whose first character (if any) is not whitespace.
proof fn lemma_trim_start(s: Seq<char>)
    ensures
        trim_start_ws(s).len() <= s.len(),
        trim_start_ws(s) == s.skip(s.len() - trim_start_ws(s).len()),
        trim_start_ws(s).len() > 0 ==> !is_unicode_whitespace(trim_start_ws(s)[0]),
    decreases s.len(),
{
    if s.len() > 0 && is_unicode_whitespace(s[0]) {
        lemma_trim_start(s.drop_first());
        assert(s.drop_first().skip(s.drop_first().len() - trim_start_ws(s).len()) =~= s.skip(
            s.len() - trim_start_ws(s).len(),
        ));
    } else {
        assert(s.skip(0) =~= s);
    }
}

/// Trimming the end leaves a prefix whose last character (if any) is not whitespace.
proof fn lemma_trim_end(s: Seq<char>)
    ensures
        trim_end_ws(s).len() <= s.len(),
        trim_end_ws(s) == s.take(trim_end_ws(s).len() as int),
        trim_end_ws(s).len() > 0 ==> !is_unicode_whitespace(trim_end_ws(s).last()),
    decreases s.len(),
{
    if s.len() > 0 && is_unicode_whitespace(s.last()) {
        lemma_trim_end(s.drop_last());
        assert(s.drop_last().take(trim_end_ws(s).len() as int) =~= s.take(
            trim_end_ws(s).len() as int,
        ));
    } else {
        assert(s.take(s.len() as int) =~= s);
    }
}

/// What `str::trim` returns has no surrounding whitespace.
pub proof fn lemma_trim_ws_is_trimmed(s: Seq<char>)
    ensures
        is_trimmed(trim_ws(s)),
{
    let a = trim_start_ws(s);
    lemma_trim_start(s);
    lemma_trim_end(a);
    let b = trim_end_ws(a);
    if b.len() > 0 {
        assert(b[0] == a[0]);
    }
}

/// A string without surrounding whitespace is its own trim.
pub proof fn lemma_trimmed_is_fixed(s: Seq<char>)
    requires
        is_trimmed(s),
    ensures
        trim_ws(s) == s,
{
    assert(trim_start_ws(s) == s);
    assert(trim_end_ws(s) == s);
}

/// `str::trim`: removes leading and trailing characters that have the
/// Unicode `White_Space` property.
#[verifier::external_body]
pub(crate) fn str_trim(s: &str) -> (r: &str)
    ensures
        r@ == trim_ws(s@),
{
    s.trim()
}

/// What `str::to_lowercase` returns for `s`: its lowercase equivalent under
/// the Unicode `Lowercase` mapping (including context-dependent cases such
/// as the final sigma).
pub uninterp spec fn unicode_lowercase(s: Seq<char>) -> Seq<char>;

/// ASCII lowercase of one character.
pub open spec fn ascii_lower_char(c: char) -> char {
    if 'A' <= c && c <= 'Z' {
        ((c as u32) + 32) as char
    } else {
        c
    }
}

/// Whether every character of `s` is ASCII.
pub open spec fn all_ascii(s: Seq<char>) -> bool {
    forall|i: int| 0 <= i < s.len() ==> is_ascii_char(#[trigger] s[i])
}

/// `str::to_lowercase`. Besides naming the result, the contract records two
/// facts of the mapping: every character maps to at least one character
/// (so only the empty string lowercases to the empty string), and on ASCII
/// input only `'A'..='Z'` change, to `'a'..='z'`.
#[verifier::external_body]
pub(crate) fn str_to_lowercase(s: &str) -> (r: String)
    ensures
        r@ == unicode_lowercase(s@),
        r@.len() == 0 <==> s@.len() == 0,
        all_ascii(s@) ==> r@ == s@.map_values(|c: char| ascii_lower_char(c)),
{
    s.to_lowercase()
}

/// ASCII text without uppercase letters.
pub open spec fn is_ascii_lowercase_text(s: Seq<char>) -> bool {
    all_ascii(s) && s == s.map_values(|c: char| ascii_lower_char(c))
}

/// Lowering the letters of trimmed ASCII text keeps it trimmed and leaves
/// no uppercase letter.
pub proof fn lemma_ascii_lowering(t: Seq<char>)
    requires
        all_ascii(t),
        is_trimmed(t),
    ensures
        is_trimmed(t.map_values(|c: char| ascii_lower_char(c))),
        is_ascii_lowercase_text(t.map_values(|c: char| ascii_lower_char(c))),
{
    let u = t.map_values(|c: char| ascii_lower_char(c));
    assert forall|i: int| 0 <= i < u.len() implies is_ascii_char(#[trigger] u[i])
        && ascii_lower_char(u[i]) == u[i] && (is_unicode_whitespace(u[i])
        <==> is_unicode_whitespace(t[i])) by {
        assert(is_ascii_char(t[i]));
    }
    assert(u =~= u.map_values(|c: char| ascii_lower_char(c)));
    if u.len() > 0 {
        assert(u.last() == u[u.len() - 1]);
        assert(t.last() == t[t.len() - 1]);
    }
}

/// Whether `s` ends with `suffix`.
pub open spec fn seq_ends_with(s: Seq<char>, suffix: Seq<char>) -> bool {
    suffix.len() <= s.len() && s.subrange(s.len() - suffix.len(), s.len() as int) == suffix
}

/// Whether `s` starts with `prefix`.
pub open spec fn seq_starts_with(s: Seq<char>, prefix: Seq<char>) -> bool {
    prefix.len() <= s.len() && s.subrange(0, prefix.len() as int) == prefix
}

/// Whether the characters `s` end with `suffix`.
pub fn chars_end_with(s: &Vec<char>, suffix: &Vec<char>) -> (r: bool)
    ensures
        r == seq_ends_with(s@, suffix@),
{
    if suffix.len() > s.len() {
        return false;
    }
    let off = s.len() - suffix.len();
    let mut i: usize = 0;
    while i < suffix.len()
        invariant
            off + suffix.len() == s.len(),
            i <= suffix.len(),
            forall|j: int| 0 <= j < i ==> s@[off + j] == suffix@[j],
        decreases suffix.len() - i,
    {
        if s[off + i] != suffix[i] {
            assert(s@.subrange(off as int, s.len() as int)[i as int] != suffix@[i as int]);
            return false;
        }
        i = i + 1;
    }
    assert(s@.subrange(off as int, s.len() as int) =~= suffix@);
    true
}

/// Whether `s` ends with `suffix` (`str::ends_with` for a string pattern).
pub fn str_ends_with(s: &str, suffix: &str) -> (r: bool)
    ensures
        r == seq_ends_with(s@, suffix@),
{
    let a = chars_vec(s);
    let b = chars_vec(suffix);
    chars_end_with(&a, &b)
}

/// Whether the two character sequences are equal.
pub fn chars_equal(a: &Vec<char>, b: &Vec<char>) -> (r: bool)
    ensures
        r == (a@ == b@),
{
    if a.len() != b.len() {
        return false;
    }
    let mut i: usize = 0;
    while i < a.len()
        invariant
            a.len() == b.len(),
            i <= a.len(),
            forall|j: int| 0 <= j < i ==> a@[j] == b@[j],
        decreases a.len() - i,
    {
        if a[i] != b[i] {
            return false;
        }
        i = i + 1;
    }
    assert(a@ =~= b@);
    true
}

/// The characters `v[from..to]` as a new string.
pub fn string_from_range(v: &Vec<char>, from: usize, to: usize) -> (s: String)
    requires
        from <= to <= v.len(),
    ensures
        s@ == v@.subrange(from as int, to as int),
{
    let mut s = String::new();
    let mut i: usize = from;
    while i < to
        invariant
            from <= i <= to <= v.len(),
            s@ == v@.subrange(from as int, i as int),
        decreases to - i,
    {
        push_char(&mut s, v[i]);
        assert(v@.subrange(from as int, i as int).push(v@[i as int]) =~= v@.subrange(
            from as int,
            i + 1,
        ));
        i = i + 1;
    }
    s
}


/// Number of bytes `c` takes in UTF-8.
pub open spec fn utf8_width(c: char) -> usize {
    let u = c as u32;
    if u < 0x80 {
        1
    } else if u < 0x800 {
        2
    } else if u < 0x10000 {
        3
    } else {
        4
    }
}

/// The number of bytes of `c` in UTF-8 (`char::len_utf8`).
pub(crate) fn char_len_utf8(c: char) -> (r: usize)
    ensures
        r == utf8_width(c),
{
    let u = c as u32;
    if u < 0x80 {
        1
    } else if u < 0x800 {
        2
    } else if u < 0x10000 {
        3
    } else {
        4
    }
}

/// Index of the first occurrence of `c` in `s`, if any.
pub open spec fn first_index_of(s: Seq<char>, c: char) -> Option<int> {
    if exists|i: int| 0 <= i < s.len() && s[i] == c {
        Some(choose|i: int| 0 <= i < s.len() && s[i] == c && forall|j: int| 0 <= j < i ==> s[j] != c)
    } else {
        None
    }
}

/// Searches the characters for the first `c`.
pub fn find_char(v: &Vec<char>, c: char) -> (r: Option<usize>)
    ensures
        match r {
            Some(i) => i < v.len() && v@[i as int] == c && forall|j: int| 0 <= j < i ==> v@[j] != c,
            None => forall|j: int| 0 <= j < v.len() ==> v@[j] != c,
        },
        r matches Some(i) ==> first_index_of(v@, c) == Some(i as int),
        r is None <==> first_index_of(v@, c) is None,
{
    let mut i: usize = 0;
    while i < v.len()
        invariant
            i <= v.len(),
            forall|j: int| 0 <= j < i ==> v@[j] != c,
        decreases v.len() - i,
    {
        if v[i] == c {
            proof {
                lemma_first_index_of_unique(v@, c, i as int);
            }
            return Some(i);
        }
        i = i + 1;
    }
    None
}

/// The first occurrence is the only index with `s[i] == c` and no earlier `c`.
pub proof fn lemma_first_index_of_unique(s: Seq<char>, c: char, i: int)
    requires
        0 <= i < s.len(),
        s[i] == c,
        forall|j: int| 0 <= j < i ==> s[j] != c,
    ensures
        first_index_of(s, c) == Some(i),
{
    let k = choose|k: int| 0 <= k < s.len() && s[k] == c && forall|j: int| 0 <= j < k ==> s[j] != c;
    assert(0 <= k < s.len() && s[k] == c && forall|j: int| 0 <= j < k ==> s[j] != c);
    if k < i {
        assert(s[k] != c);
    } else if k > i {
        assert(s[i] != c);
    }
}

/// Appends the characters of a string slice.
pub fn push_str(s: &mut String, t: &str)
    ensures
        final(s)@ == old(s)@ + t@,
{
    s.append(t);
}

/// The pieces of `s` between separators, as `str::split` yields them.
pub open spec fn split_on(s: Seq<char>, sep: char) -> Seq<Seq<char>>
    decreases s.len(),
{
    if s.len() == 0 {
        seq![Seq::empty()]
    } else {
        let rest = split_on(s.drop_last(), sep);
        if s.last() == sep {
            rest.push(Seq::empty())
        } else {
            rest.update(rest.len() - 1, rest.last().push(s.last()))
        }
    }
}

/// The characters `s` extended by one more character keep their split
/// except for the last piece (or a new empty piece after a separator).
pub proof fn lemma_split_step(s: Seq<char>, sep: char, c: char, done: Seq<Seq<char>>, cur: Seq<char>)
    requires
        split_on(s, sep) == done.push(cur),
    ensures
        c == sep ==> split_on(s.push(c), sep) == done.push(cur).push(Seq::empty()),
        c != sep ==> split_on(s.push(c), sep) == done.push(cur.push(c)),
{
    assert(s.push(c).drop_last() =~= s);
    if c != sep {
        assert(done.push(cur).update(done.len() as int, cur.push(c)) =~= done.push(cur.push(c)));
    }
}

/// The pieces of `s` between occurrences of `sep` (`str::split` with a
/// character pattern), each as a new string.
pub fn split_string(s: &str, sep: char) -> (r: Vec<String>)
    ensures
        r@.map_values(|p: String| p@) == split_on(s@, sep),
{
    let v = chars_vec(s);
    let mut out: Vec<String> = Vec::new();
    let mut start: usize = 0;
    let mut i: usize = 0;
    assert(v@.take(0) =~= Seq::<char>::empty());
    assert(split_on(v@.take(0), sep) =~= out@.map_values(|p: String| p@).push(
        v@.subrange(0, 0),
    ));
    while i < v.len()
        invariant
            start <= i <= v.len(),
            split_on(v@.take(i as int), sep) == out@.map_values(|p: String| p@).push(
                v@.subrange(start as int, i as int),
            ),
        decreases v.len() - i,
    {
        let c = v[i];
        let ghost done = out@.map_values(|p: String| p@);
        proof {
            lemma_split_step(v@.take(i as int), sep, c, done, v@.subrange(start as int, i as int));
            assert(v@.take(i as int).push(c) =~= v@.take(i + 1));
        }
        if c == sep {
            let piece = string_from_range(&v, start, i);
            out.push(piece);
            assert(out@.map_values(|p: String| p@) =~= done.push(piece@));
            assert(v@.subrange(i + 1, i + 1) =~= Seq::<char>::empty());
            start = i + 1;
        } else {
            assert(v@.subrange(start as int, i as int).push(c) =~= v@.subrange(
                start as int,
                i + 1,
            ));
        }
        i = i + 1;
    }
    let last = string_from_range(&v, start, v.len());
    let ghost done = out@.map_values(|p: String| p@);
    out.push(last);
    assert(out@.map_values(|p: String| p@) =~= done.push(last@));
    assert(v@.take(v.len() as int) =~= v@);
    out
}

/// The whitespace-separated words of `s` (`str::split_whitespace`).
pub open spec fn words(s: Seq<char>) -> Seq<Seq<char>>
    decreases s.len(),
{
    if s.len() == 0 {
        Seq::empty()
    } else {
        let rest = words(s.drop_last());
        let c = s.last();
        if is_unicode_whitespace(c) {
            rest
        } else if s.len() >= 2 && !is_unicode_whitespace(s[s.len() - 2]) {
            rest.update(rest.len() - 1, rest.last().push(c))
        } else {
            rest.push(seq![c])
        }
    }
}

/// Whether `c` has the Unicode `White_Space` property (`char::is_whitespace`).
pub(crate) fn char_is_whitespace(c: char) -> (r: bool)
    ensures
        r == is_unicode_whitespace(c),
{
    let u = c as u32;
    (0x9 <= u && u <= 0xD) || u == 0x20 || u == 0x85 || u == 0xA0 || u == 0x1680 || (0x2000 <= u
        && u <= 0x200A) || u == 0x2028 || u == 0x2029 || u == 0x202F || u == 0x205F || u == 0x3000
}

/// The whitespace-separated words of `s`.
pub fn split_words(s: &str) -> (r: Vec<String>)
    ensures
        r@.map_values(|p: String| p@) == words(s@),
{
    let v = chars_vec(s);
    let mut out: Vec<String> = Vec::new();
    let mut start: usize = 0;
    let mut in_word = false;
    let mut i: usize = 0;
    assert(v@.take(0) =~= Seq::<char>::empty());
    assert(out@.map_values(|p: String| p@) =~= Seq::<Seq<char>>::empty());
    while i < v.len()
        invariant
            start <= i <= v.len(),
            in_word == (i > 0 && !is_unicode_whitespace(v@[i - 1])),
            in_word ==> start < i,
            in_word ==> words(v@.take(i as int)) == out@.map_values(|p: String| p@).push(
                v@.subrange(start as int, i as int),
            ),
            !in_word ==> words(v@.take(i as int)) == out@.map_values(|p: String| p@),
        decreases v.len() - i,
    {
        let c = v[i];
        let ws = char_is_whitespace(c);
        let ghost done = out@.map_values(|p: String| p@);
        proof {
            assert(v@.take(i + 1).drop_last() =~= v@.take(i as int));
            assert(v@.take(i + 1).last() == c);
            if i > 0 {
                assert(v@.take(i + 1)[i - 1] == v@[i - 1]);
            }
        }
        if ws {
            if in_word {
                let piece = string_from_range(&v, start, i);
                out.push(piece);
                assert(out@.map_values(|p: String| p@) =~= done.push(piece@));
            }
            in_word = false;
        } else {
            if in_word {
                assert(v@.subrange(start as int, i as int).push(c) =~= v@.subrange(
                    start as int,
                    i + 1,
                ));
                assert(done.push(v@.subrange(start as int, i as int)).update(
                    done.len() as int,
                    v@.subrange(start as int, i as int).push(c),
                ) =~= done.push(v@.subrange(start as int, i + 1)));
            } else {
                start = i;
                assert(v@.subrange(i as int, i + 1) =~= seq![c]);
            }
            in_word = true;
        }
        i = i + 1;
    }
    assert(v@.take(v.len() as int) =~= v@);
    if in_word {
        let piece = string_from_range(&v, start, v.len());
        let ghost done = out@.map_values(|p: String| p@);
        out.push(piece);
        assert(out@.map_values(|p: String| p@) =~= done.push(piece@));
    }
    out
}

} // verus!
