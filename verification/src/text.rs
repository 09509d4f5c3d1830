//! Text operations on `&str` and `String`, each proved against a statement over
//! the sequence of characters.

use vstd::prelude::*;

verus! {

// ---------------------------------------------------------------------------
// Building strings
// ---------------------------------------------------------------------------
/// `String::push` appends one character to the end of the string.
pub assume_specification[ String::push ](s: &mut String, c: char)
    ensures
        final(s)@ == old(s)@.push(c),
;

/// The characters of `s` in order.
pub fn chars_of(s: &str) -> (out: Vec<char>)
    ensures
        out@ == s@,
{
    let mut out: Vec<char> = Vec::new();
    for c in iter: s.chars()
        invariant
            iter.seq() == s@,
            out@ == iter.seq().take(iter.index() as int),
    {
        out.push(c);
        assert(iter.seq().take(iter.index() + 1) =~= iter.seq().take(iter.index() as int).push(c));
    }
    assert(out@ =~= s@);
    out
}

/// The string made of the characters `v[from..to]`.
pub fn string_of(v: &Vec<char>, from: usize, to: usize) -> (out: String)
    requires
        from <= to <= v@.len(),
    ensures
        out@ == v@.subrange(from as int, to as int),
{
    let mut out: String = String::new();
    let mut i: usize = from;
    while i < to
        invariant
            from <= i <= to <= v@.len(),
            out@ == v@.subrange(from as int, i as int),
        decreases to - i,
    {
        out.push(v[i]);
        assert(v@.subrange(from as int, i + 1) =~= v@.subrange(from as int, i as int).push(v@[i as int]));
        i += 1;
    }
    out
}

// ---------------------------------------------------------------------------
// Comparison
// ---------------------------------------------------------------------------
/// Whether two strings hold the same characters.
pub fn same_text(a: &str, b: &str) -> (r: bool)
    ensures
        r == (a@ == b@),
{
    let x = chars_of(a);
    let y = chars_of(b);
    same_chars(&x, &y)
}

fn same_chars(x: &Vec<char>, y: &Vec<char>) -> (r: bool)
    ensures
        r == (x@ == y@),
{
    if x.len() != y.len() {
        return false;
    }
    let mut i: usize = 0;
    while i < x.len()
        invariant
            x@.len() == y@.len(),
            i <= x@.len(),
            forall|k: int| 0 <= k < i ==> x@[k] == y@[k],
        decreases x@.len() - i,
    {
        if x[i] != y[i] {
            return false;
        }
        i += 1;
    }
    assert(x@ =~= y@);
    true
}

// ---------------------------------------------------------------------------
// White space
// ---------------------------------------------------------------------------
/// The characters with the Unicode `White_Space` property.
pub open spec fn is_white(c: char) -> bool {
    let n = c as u32;
    ||| 0x09 <= n <= 0x0d
    ||| n == 0x20
    ||| n == 0x85
    ||| n == 0xa0
    ||| n == 0x1680
    ||| 0x2000 <= n <= 0x200a
    ||| n == 0x2028
    ||| n == 0x2029
    ||| n == 0x202f
    ||| n == 0x205f
    ||| n == 0x3000
}

/// Whether `c` has the Unicode `White_Space` property.
pub fn char_is_white(c: char) -> (r: bool)
    ensures
        r == is_white(c),
{
    let n: u32 = c as u32;
    (0x09 <= n && n <= 0x0d) || n == 0x20 || n == 0x85 || n == 0xa0 || n == 0x1680 || (0x2000 <= n
        && n <= 0x200a) || n == 0x2028 || n == 0x2029 || n == 0x202f || n == 0x205f || n == 0x3000
}

/// `s` without its leading white space.
pub open spec fn trim_start(s: Seq<char>) -> Seq<char>
    decreases s.len(),
{
    if s.len() > 0 && is_white(s[0]) {
        trim_start(s.drop_first())
    } else {
        s
    }
}

/// `s` without its trailing white space.
pub open spec fn trim_end(s: Seq<char>) -> Seq<char>
    decreases s.len(),
{
    if s.len() > 0 && is_white(s.last()) {
        trim_end(s.drop_last())
    } else {
        s
    }
}

/// `s` without leading and trailing white space.
pub open spec fn trimmed(s: Seq<char>) -> Seq<char> {
    trim_end(trim_start(s))
}

/// `s` without leading and trailing white space.
pub fn trim(s: &str) -> (out: &str)
    ensures
        out@ == trimmed(s@),
{
    let v = chars_of(s);
    let mut from: usize = 0;
    assert(s@.skip(0) =~= s@);
    while from < v.len() && char_is_white(v[from])
        invariant
            v@ == s@,
            from <= v@.len(),
            trim_start(s@) == trim_start(s@.skip(from as int)),
        decreases v@.len() - from,
    {
        assert(s@.skip(from as int).drop_first() =~= s@.skip(from + 1));
        from += 1;
    }
    assert(trim_start(s@) == s@.skip(from as int));
    let mut to: usize = v.len();
    let ghost rest = s@.skip(from as int);
    assert(s@.subrange(from as int, to as int) =~= rest);
    while to > from && char_is_white(v[to - 1])
        invariant
            v@ == s@,
            from <= to <= v@.len(),
            rest == s@.skip(from as int),
            trim_end(rest) == trim_end(s@.subrange(from as int, to as int)),
        decreases to,
    {
        assert(s@.subrange(from as int, to as int).drop_last() =~= s@.subrange(from as int, to - 1));
        to -= 1;
    }
    s.substring_char(from, to)
}

/// Whether `s` holds nothing but white space.
pub open spec fn is_blank(s: Seq<char>) -> bool {
    trimmed(s).len() == 0
}

/// Whether `s` holds nothing but white space.
pub fn blank(s: &str) -> (r: bool)
    ensures
        r == is_blank(s@),
{
    trim(s).is_empty()
}

/// How many characters stand in front of the first white space of `s`.
pub open spec fn word_len(s: Seq<char>) -> int
    decreases s.len(),
{
    if s.len() == 0 || is_white(s[0]) {
        0
    } else {
        1 + word_len(s.drop_first())
    }
}

pub proof fn lemma_word_len(s: Seq<char>, n: int)
    requires
        0 <= n <= s.len(),
        forall|k: int| 0 <= k < n ==> !is_white(#[trigger] s[k]),
    ensures
        n == s.len() || is_white(s[n]) ==> word_len(s) == n,
        0 <= word_len(s) <= s.len(),
        s.len() > 0 && !is_white(s[0]) ==> word_len(s) > 0,
    decreases s.len(),
{
    if s.len() > 0 && !is_white(s[0]) {
        let rest = s.drop_first();
        if n > 0 {
            assert forall|k: int| 0 <= k < n - 1 implies !is_white(#[trigger] rest[k]) by {
                assert(rest[k] == s[k + 1]);
            }
            lemma_word_len(rest, n - 1);
        } else {
            lemma_word_len(rest, 0);
        }
    }
}

pub proof fn lemma_trim_start_len(s: Seq<char>)
    ensures
        trim_start(s).len() <= s.len(),
        trim_start(s).len() > 0 ==> !is_white(trim_start(s)[0]),
    decreases s.len(),
{
    if s.len() > 0 && is_white(s[0]) {
        lemma_trim_start_len(s.drop_first());
    }
}

/// The runs of characters between the white space of `s`.
pub open spec fn words(s: Seq<char>) -> Seq<Seq<char>>
    decreases s.len(),
{
    let t = trim_start(s);
    let n = word_len(t);
    if t.len() == 0 || n <= 0 || n > t.len() || t.len() > s.len() {
        Seq::empty()
    } else {
        seq![t.take(n)] + words(t.skip(n))
    }
}

/// The pieces with `sep` between each two.
pub open spec fn joined(pieces: Seq<Seq<char>>, sep: Seq<char>) -> Seq<char>
    decreases pieces.len(),
{
    if pieces.len() == 0 {
        Seq::empty()
    } else if pieces.len() == 1 {
        pieces[0]
    } else {
        joined(pieces.drop_last(), sep) + sep + pieces.last()
    }
}

/// `s` on one line: its words with one space between each two.
pub open spec fn one_line(s: Seq<char>) -> Seq<char> {
    joined(words(s), " "@)
}

/// A word: at least one character, and no white space.
pub open spec fn is_word(w: Seq<char>) -> bool {
    w.len() > 0 && forall|i: int| 0 <= i < w.len() ==> !is_white(#[trigger] w[i])
}

pub proof fn lemma_word_prefix(s: Seq<char>)
    ensures
        0 <= word_len(s) <= s.len(),
        forall|i: int| 0 <= i < word_len(s) ==> !is_white(#[trigger] s[i]),
    decreases s.len(),
{
    if s.len() > 0 && !is_white(s[0]) {
        let rest = s.drop_first();
        lemma_word_prefix(rest);
        assert forall|i: int| 0 <= i < word_len(s) implies !is_white(#[trigger] s[i]) by {
            if i > 0 {
                assert(rest[i - 1] == s[i]);
            }
        }
    }
}

pub proof fn lemma_words_are_words(s: Seq<char>)
    ensures
        forall|i: int| 0 <= i < words(s).len() ==> is_word(#[trigger] words(s)[i]),
    decreases s.len(),
{
    let t = trim_start(s);
    let n = word_len(t);
    lemma_trim_start_len(s);
    lemma_word_prefix(t);
    if !(t.len() == 0 || n <= 0) {
        lemma_words_are_words(t.skip(n));
        let w = t.take(n);
        assert forall|i: int| 0 <= i < w.len() implies !is_white(#[trigger] w[i]) by {
            assert(w[i] == t[i]);
        }
        let rest = words(t.skip(n));
        assert forall|i: int| 0 <= i < words(s).len() implies is_word(#[trigger] words(s)[i]) by {
            if i > 0 {
                assert(words(s)[i] == rest[i - 1]);
            }
        }
    }
}

pub proof fn lemma_joined_front(pieces: Seq<Seq<char>>, sep: Seq<char>)
    requires
        pieces.len() > 1,
    ensures
        joined(pieces, sep) == pieces[0] + sep + joined(pieces.drop_first(), sep),
    decreases pieces.len(),
{
    let rest = pieces.drop_first();
    if pieces.len() == 2 {
        assert(pieces.drop_last()[0] == pieces[0]);
        assert(joined(pieces.drop_last(), sep) == pieces[0]);
        assert(joined(rest, sep) == pieces[1]);
    } else {
        lemma_joined_front(pieces.drop_last(), sep);
        assert(pieces.drop_last().drop_first() =~= rest.drop_last());
        assert(rest.last() == pieces.last());
        assert(joined(pieces, sep) =~= pieces[0] + sep + joined(rest, sep));
    }
}

proof fn lemma_words_of_joined(pieces: Seq<Seq<char>>)
    requires
        forall|i: int| 0 <= i < pieces.len() ==> is_word(#[trigger] pieces[i]),
    ensures
        words(joined(pieces, " "@)) == pieces,
        pieces.len() > 0 ==> joined(pieces, " "@).len() > 0 && !is_white(
            joined(pieces, " "@)[0],
        ),
    decreases pieces.len(),
{
    reveal_strlit(" ");
    let all = joined(pieces, " "@);
    if pieces.len() == 0 {
        assert(words(all) =~= pieces);
    } else {
        let w = pieces[0];
        assert(is_word(w));
        let rest = pieces.drop_first();
        assert forall|i: int| 0 <= i < rest.len() implies is_word(#[trigger] rest[i]) by {
            assert(rest[i] == pieces[i + 1]);
        }
        lemma_words_of_joined(rest);
        let n = w.len() as int;
        if pieces.len() == 1 {
            assert(all == w);
            lemma_word_len(all, n);
            assert(trim_start(all) == all);
            assert(all.take(n) =~= w);
            assert(all.skip(n) =~= Seq::empty());
            assert(words(all.skip(n)) =~= Seq::empty());
            assert(words(all) =~= pieces);
        } else {
            lemma_joined_front(pieces, " "@);
            let tail = joined(rest, " "@);
            assert(all == w + " "@ + tail);
            assert forall|k: int| 0 <= k < n implies !is_white(#[trigger] all[k]) by {
                assert(all[k] == w[k]);
            }
            assert(all[n] == ' ');
            lemma_word_len(all, n);
            assert(all[0] == w[0]);
            assert(trim_start(all) == all);
            assert(all.take(n) =~= w);
            let more = all.skip(n);
            assert(more =~= " "@ + tail);
            assert(more.drop_first() =~= tail);
            assert(is_white(more[0]));
            assert(trim_start(more) == trim_start(tail));
            assert(trim_start(tail) == tail);
            lemma_word_prefix(tail);
            lemma_word_len(tail, 0);
            assert(words(more) == words(tail));
            assert(words(all) =~= seq![w] + rest);
            assert(seq![w] + rest =~= pieces);
        }
    }
}

/// A text that stands on one line stays as it is.
pub proof fn lemma_one_line_is_stable(s: Seq<char>)
    ensures
        one_line(one_line(s)) == one_line(s),
{
    lemma_words_are_words(s);
    lemma_words_of_joined(words(s));
}

/// `s` on one line: its words with one space between each two.
pub fn squeeze(s: &str) -> (out: String)
    ensures
        out@ == one_line(s@),
{
    let v = chars_of(s);
    let mut out: String = String::new();
    let ghost mut done: Seq<Seq<char>> = Seq::empty();
    let mut started = false;
    let mut at: usize = 0;
    assert(s@.skip(0) =~= s@);
    assert(done + words(s@) =~= words(s@));
    while at < v.len()
        invariant
            v@ == s@,
            at <= v@.len(),
            done + words(s@.skip(at as int)) == words(s@),
            out@ == joined(done, " "@),
            started == (done.len() > 0),
        decreases v@.len() - at,
    {
        let ghost rest = s@.skip(at as int);
        if char_is_white(v[at]) {
            proof {
                assert(rest[0] == s@[at as int]);
                assert(rest.drop_first() =~= s@.skip(at + 1));
                lemma_trim_start_len(rest.drop_first());
                let t = trim_start(rest);
                assert(words(rest) == words(rest.drop_first()));
            }
            at += 1;
        } else {
            let from: usize = at;
            let mut to: usize = at + 1;
            while to < v.len() && !char_is_white(v[to])
                invariant
                    v@ == s@,
                    from < to <= v@.len(),
                    rest == s@.skip(from as int),
                    forall|k: int| 0 <= k < to - from ==> !is_white(#[trigger] rest[k]),
                decreases v@.len() - to,
            {
                assert(rest[to - from] == s@[to as int]);
                to += 1;
            }
            let word = string_of(&v, from, to);
            proof {
                let n = (to - from) as int;
                if to < v.len() {
                    assert(rest[n] == s@[to as int]);
                }
                lemma_word_len(rest, n);
                assert(trim_start(rest) == rest);
                assert(rest.take(n) =~= word@);
                assert(rest.skip(n) =~= s@.skip(to as int));
                assert(words(rest) == seq![word@] + words(s@.skip(to as int)));
                assert(done + (seq![word@] + words(s@.skip(to as int))) =~= done.push(word@)
                    + words(s@.skip(to as int)));
                let next = done.push(word@);
                assert(next.drop_last() =~= done);
            }
            if started {
                out.append(" ");
            }
            started = true;
            out.append(word.as_str());
            proof {
                let next = done.push(word@);
                if done.len() == 0 {
                    assert(out@ =~= word@);
                }
                done = next;
            }
            at = to;
        }
    }
    proof {
        let rest = s@.skip(at as int);
        assert(rest.len() == 0);
        assert(words(rest) =~= Seq::empty());
        assert(done + words(rest) =~= done);
    }
    out
}

// ---------------------------------------------------------------------------
// ASCII case
// ---------------------------------------------------------------------------
/// `c` with `A` to `Z` mapped to `a` to `z`.
pub open spec fn ascii_lower_char(c: char) -> char {
    if 'A' <= c <= 'Z' {
        ((c as u32) + 32) as char
    } else {
        c
    }
}

/// `s` with `A` to `Z` mapped to `a` to `z`.
pub open spec fn ascii_lower(s: Seq<char>) -> Seq<char> {
    s.map_values(|c: char| ascii_lower_char(c))
}

/// `s` with `A` to `Z` mapped to `a` to `z`.
pub fn to_ascii_lower(s: &str) -> (out: String)
    ensures
        out@ == ascii_lower(s@),
{
    let v = chars_of(s);
    let mut out: String = String::new();
    let mut i: usize = 0;
    while i < v.len()
        invariant
            v@ == s@,
            i <= v@.len(),
            out@ == ascii_lower(s@.take(i as int)),
        decreases v@.len() - i,
    {
        let c = v[i];
        if 'A' <= c && c <= 'Z' {
            out.push(((c as u8) + 32) as char);
        } else {
            out.push(c);
        }
        assert(ascii_lower(s@.take(i + 1)) =~= ascii_lower(s@.take(i as int)).push(
            ascii_lower_char(c),
        ));
        i += 1;
    }
    assert(s@.take(i as int) =~= s@);
    out
}

/// `s` in lower case, by the Unicode mapping.
pub uninterp spec fn lowercase(s: Seq<char>) -> Seq<char>;

/// Calls `str::to_lowercase`. The mapping depends on the text alone.
#[verifier::external_body]
pub(crate) fn to_lower(s: &str) -> (out: String)
    ensures
        out@ == lowercase(s@),
{
    s.to_lowercase()
}

// ---------------------------------------------------------------------------
// Searching
// ---------------------------------------------------------------------------
/// Whether `needle` occurs in `hay` at position `i`.
pub open spec fn occurs_at(hay: Seq<char>, needle: Seq<char>, i: int) -> bool {
    0 <= i && i + needle.len() <= hay.len() && hay.subrange(i, i + needle.len()) == needle
}

/// Whether `needle` occurs somewhere in `hay`.
pub open spec fn has_text(hay: Seq<char>, needle: Seq<char>) -> bool {
    exists|i: int| occurs_at(hay, needle, i)
}

fn chars_occur_at(hay: &Vec<char>, needle: &Vec<char>, at: usize) -> (r: bool)
    requires
        at + needle@.len() <= hay@.len(),
    ensures
        r == occurs_at(hay@, needle@, at as int),
{
    let size: usize = hay.len();
    let mut k: usize = 0;
    while k < needle.len()
        invariant
            at + needle@.len() <= hay@.len() == size,
            k <= needle@.len(),
            forall|j: int| 0 <= j < k ==> hay@[at + j] == needle@[j],
        decreases needle@.len() - k,
    {
        if hay[at + k] != needle[k] {
            proof {
                let sub = hay@.subrange(at as int, at + needle@.len());
                assert(sub[k as int] == hay@[at + k]);
            }
            return false;
        }
        k += 1;
    }
    assert(hay@.subrange(at as int, at + needle@.len()) =~= needle@);
    true
}

/// Whether `needle` occurs somewhere in `hay`.
pub fn contains(hay: &str, needle: &str) -> (r: bool)
    ensures
        r == has_text(hay@, needle@),
{
    let h = chars_of(hay);
    let n = chars_of(needle);
    if n.len() > h.len() {
        return false;
    }
    let last: usize = h.len() - n.len();
    let mut i: usize = 0;
    while i <= last
        invariant
            h@ == hay@,
            n@ == needle@,
            last + n@.len() == h@.len(),
            i <= last + 1,
            forall|j: int| 0 <= j < i ==> !occurs_at(h@, n@, j),
        decreases last + 1 - i,
    {
        if chars_occur_at(&h, &n, i) {
            return true;
        }
        if i == last {
            return false;
        }
        i += 1;
    }
    false
}

/// Whether `s` begins with `prefix`.
pub open spec fn has_prefix(s: Seq<char>, prefix: Seq<char>) -> bool {
    prefix.len() <= s.len() && s.take(prefix.len() as int) == prefix
}

/// Whether `s` begins with `prefix`.
pub fn starts_with(s: &str, prefix: &str) -> (r: bool)
    ensures
        r == has_prefix(s@, prefix@),
{
    let h = chars_of(s);
    let n = chars_of(prefix);
    if n.len() > h.len() {
        return false;
    }
    assert(s@.take(prefix@.len() as int) =~= s@.subrange(0, prefix@.len() as int));
    chars_occur_at(&h, &n, 0)
}

/// What follows `prefix` in `s`, when `s` begins with it.
pub fn strip_prefix<'a>(s: &'a str, prefix: &str) -> (r: Option<&'a str>)
    ensures
        match r {
            Some(rest) => has_prefix(s@, prefix@) && rest@ == s@.skip(prefix@.len() as int),
            None => !has_prefix(s@, prefix@),
        },
{
    if starts_with(s, prefix) {
        let from: usize = prefix.unicode_len();
        let to: usize = s.unicode_len();
        let rest = s.substring_char(from, to);
        assert(rest@ =~= s@.skip(prefix@.len() as int));
        Some(rest)
    } else {
        None
    }
}

/// Whether `s` ends with `suffix`.
pub open spec fn has_suffix(s: Seq<char>, suffix: Seq<char>) -> bool {
    suffix.len() <= s.len() && s.skip(s.len() - suffix.len()) == suffix
}

/// What precedes `suffix` in `s`, when `s` ends with it.
pub fn strip_suffix<'a>(s: &'a str, suffix: &str) -> (r: Option<&'a str>)
    ensures
        match r {
            Some(rest) => has_suffix(s@, suffix@) && rest@ == s@.take(s@.len() - suffix@.len()),
            None => !has_suffix(s@, suffix@),
        },
{
    let h = chars_of(s);
    let n = chars_of(suffix);
    if n.len() > h.len() {
        return None;
    }
    let at: usize = h.len() - n.len();
    assert(s@.skip(s@.len() - suffix@.len()) =~= s@.subrange(at as int, at + suffix@.len()));
    if chars_occur_at(&h, &n, at) {
        let rest = s.substring_char(0, at);
        assert(rest@ =~= s@.take(at as int));
        Some(rest)
    } else {
        None
    }
}

/// Whether `s` ends with `suffix`.
pub fn ends_with(s: &str, suffix: &str) -> (r: bool)
    ensures
        r == has_suffix(s@, suffix@),
{
    match strip_suffix(s, suffix) {
        Some(_) => true,
        None => false,
    }
}

/// What follows the first `offset` bytes of `s` in UTF-8, when they end between two
/// characters.
pub open spec fn after_bytes(s: Seq<char>, offset: int) -> Option<Seq<char>> {
    let bytes = vstd::utf8::encode_utf8(s);
    if vstd::utf8::is_char_boundary(bytes, offset) {
        Some(vstd::utf8::decode_utf8(bytes.subrange(offset, bytes.len() as int)))
    } else {
        None
    }
}

proof fn lemma_after_bytes_is_tail(s: Seq<char>, offset: int)
    requires
        after_bytes(s, offset) is Some,
    ensures
        exists|from: int| 0 <= from <= s.len() && after_bytes(s, offset) == Some(#[trigger] s.skip(from)),
{
    let bytes = vstd::utf8::encode_utf8(s);
    vstd::utf8::encode_utf8_valid_utf8(s);
    vstd::utf8::encode_utf8_decode_utf8(s);
    vstd::utf8::decode_utf8_split(bytes, offset);
    let head = vstd::utf8::decode_utf8(bytes.subrange(0, offset));
    let tail = vstd::utf8::decode_utf8(bytes.subrange(offset, bytes.len() as int));
    assert(s.skip(head.len() as int) =~= tail);
}

/// A text is blank just where all its characters are white space.
pub proof fn lemma_blank_is_all_white(s: Seq<char>)
    ensures
        is_blank(s) <==> forall|i: int| 0 <= i < s.len() ==> is_white(#[trigger] s[i]),
    decreases s.len(),
{
    if s.len() > 0 && is_white(s[0]) {
        let rest = s.drop_first();
        lemma_blank_is_all_white(rest);
        assert(forall|i: int| 0 < i < s.len() ==> rest[i - 1] == #[trigger] s[i]);
        assert(forall|i: int| 0 <= i < rest.len() ==> #[trigger] rest[i] == s[i + 1]);
    } else if s.len() > 0 {
        lemma_trim_end_keeps_first(s);
    }
}

proof fn lemma_trim_end_keeps_first(s: Seq<char>)
    requires
        s.len() > 0,
        !is_white(s[0]),
    ensures
        trim_end(s).len() > 0,
    decreases s.len(),
{
    if is_white(s.last()) {
        lemma_trim_end_keeps_first(s.drop_last());
    }
}

/// What follows any part of a blank text is blank.
pub proof fn lemma_blank_leaves_blank(s: Seq<char>, offset: int)
    requires
        after_bytes(s, offset) is Some,
        is_blank(s),
    ensures
        is_blank(after_bytes(s, offset)->0),
{
    lemma_after_bytes_is_tail(s, offset);
    lemma_blank_is_all_white(s);
    lemma_blank_is_all_white(after_bytes(s, offset)->0);
}

/// What follows the first `offset` bytes of `s` in UTF-8, when they end between two
/// characters.
pub fn tail_from(s: &str, offset: usize) -> (r: Option<&str>)
    ensures
        match r {
            Some(tail) => after_bytes(s@, offset as int) == Some(tail@),
            None => after_bytes(s@, offset as int) is None,
        },
{
    if s.is_char_boundary(offset) {
        let parts = s.split_at(offset);
        proof {
            vstd::utf8::encode_utf8_decode_utf8(parts.1@);
        }
        Some(parts.1)
    } else {
        None
    }
}

// ---------------------------------------------------------------------------
// Splitting
// ---------------------------------------------------------------------------
/// Where `sep` first stands in `s`, or the length of `s`.
pub open spec fn first_at(s: Seq<char>, sep: char) -> int
    decreases s.len(),
{
    if s.len() == 0 || s[0] == sep {
        0
    } else {
        1 + first_at(s.drop_first(), sep)
    }
}

pub proof fn lemma_first_at(s: Seq<char>, sep: char, i: int)
    requires
        0 <= i <= s.len(),
        forall|k: int| 0 <= k < i ==> s[k] != sep,
    ensures
        i == s.len() || s[i] == sep ==> first_at(s, sep) == i,
        0 <= first_at(s, sep) <= s.len(),
    decreases s.len(),
{
    if s.len() > 0 && s[0] != sep {
        let rest = s.drop_first();
        if i > 0 {
            assert forall|k: int| 0 <= k < i - 1 implies rest[k] != sep by {
                assert(rest[k] == s[k + 1]);
            }
            lemma_first_at(rest, sep, i - 1);
        } else {
            lemma_first_at(rest, sep, 0);
        }
    }
}

/// The pieces of `s` between the separators.
pub open spec fn split_on(s: Seq<char>, sep: char) -> Seq<Seq<char>>
    decreases s.len(),
{
    let i = first_at(s, sep);
    if i < 0 || i >= s.len() {
        seq![s]
    } else {
        seq![s.take(i)] + split_on(s.skip(i + 1), sep)
    }
}

/// The texts of a list of strings.
pub open spec fn texts(list: Seq<String>) -> Seq<Seq<char>> {
    list.map_values(|s: String| s@)
}

/// Whether `line` is one of the texts of `list`.
pub fn is_listed(list: &Vec<String>, line: &str) -> (r: bool)
    ensures
        r == texts(list@).contains(line@),
{
    let ghost all = texts(list@);
    let mut i: usize = 0;
    while i < list.len()
        invariant
            all == texts(list@),
            i <= list@.len(),
            forall|k: int| 0 <= k < i ==> #[trigger] all[k] != line@,
        decreases list@.len() - i,
    {
        assert(all[i as int] == list@[i as int]@);
        if same_text(list[i].as_str(), line) {
            return true;
        }
        i += 1;
    }
    false
}

/// A name of lowercase ASCII letters, of which there is at least one.
pub open spec fn is_plain_name(s: Seq<char>) -> bool {
    s.len() > 0 && forall|i: int| 0 <= i < s.len() ==> 'a' <= #[trigger] s[i] <= 'z'
}

/// Whether `s` is a name of lowercase ASCII letters.
pub fn plain_name(s: &str) -> (r: bool)
    ensures
        r == is_plain_name(s@),
{
    let chars = chars_of(s);
    let mut i: usize = 0;
    while i < chars.len()
        invariant
            i <= chars@.len(),
            chars@ == s@,
            forall|k: int| 0 <= k < i ==> 'a' <= #[trigger] s@[k] <= 'z',
        decreases chars@.len() - i,
    {
        let c: char = chars[i];
        if c < 'a' || c > 'z' {
            assert(!('a' <= s@[i as int] <= 'z'));
            return false;
        }
        i += 1;
    }
    chars.len() > 0
}

/// The text of an optional string.
pub open spec fn opt_text(s: Option<String>) -> Option<Seq<char>> {
    match s {
        Some(s) => Some(s@),
        None => None,
    }
}

/// A copy of an optional string.
pub fn clone_opt(s: &Option<String>) -> (out: Option<String>)
    ensures
        opt_text(out) == opt_text(*s),
{
    match s {
        Some(s) => Some(s.clone()),
        None => None,
    }
}

/// The pieces of `s` between the separators.
pub fn split(s: &str, sep: char) -> (out: Vec<String>)
    ensures
        texts(out@) == split_on(s@, sep),
{
    let v = chars_of(s);
    let mut out: Vec<String> = Vec::new();
    let mut from: usize = 0;
    let mut at: usize = 0;
    assert(s@.skip(0) =~= s@);
    assert(texts(out@) =~= Seq::empty());
    assert(texts(out@) + split_on(s@, sep) =~= split_on(s@, sep));
    while at < v.len()
        invariant
            v@ == s@,
            from <= at <= v@.len(),
            forall|k: int| from <= k < at ==> s@[k] != sep,
            texts(out@) + split_on(s@.skip(from as int), sep) == split_on(s@, sep),
        decreases v@.len() - at,
    {
        if v[at] == sep {
            let piece = string_of(&v, from, at);
            proof {
                let rest = s@.skip(from as int);
                let i = (at - from) as int;
                assert forall|k: int| 0 <= k < i implies rest[k] != sep by {
                    assert(rest[k] == s@[from + k]);
                }
                assert(rest[i] == s@[at as int]);
                lemma_first_at(rest, sep, i);
                assert(rest.take(i) =~= piece@);
                assert(rest.skip(i + 1) =~= s@.skip(at + 1));
                let before = texts(out@);
                assert(before + (seq![piece@] + split_on(s@.skip(at + 1), sep)) =~= before.push(
                    piece@,
                ) + split_on(s@.skip(at + 1), sep));
            }
            let ghost before = out@;
            let ghost text = piece@;
            out.push(piece);
            assert(texts(out@) =~= texts(before).push(text));
            from = at + 1;
        }
        at += 1;
    }
    let piece = string_of(&v, from, at);
    let ghost before = out@;
    let ghost text = piece@;
    out.push(piece);
    proof {
        let rest = s@.skip(from as int);
        assert(rest =~= text);
        assert forall|k: int| 0 <= k < rest.len() implies rest[k] != sep by {
            assert(rest[k] == s@[from + k]);
        }
        lemma_first_at(rest, sep, rest.len() as int);
        assert(texts(out@) =~= texts(before).push(text));
        assert(texts(before) + seq![rest] =~= texts(before).push(text));
    }
    out
}

// ---------------------------------------------------------------------------
// Decimal and hexadecimal numbers
// ---------------------------------------------------------------------------
/// The decimal digit `d` as a character.
pub open spec fn digit_char(d: nat) -> char {
    (48 + d) as char
}

/// `n` in decimal, without leading zeros.
pub open spec fn decimal(n: nat) -> Seq<char>
    decreases n,
{
    if n < 10 {
        seq![digit_char(n)]
    } else {
        decimal(n / 10).push(digit_char(n % 10))
    }
}

/// `n` in decimal, without leading zeros.
pub fn u64_text(n: u64) -> (out: String)
    ensures
        out@ == decimal(n as nat),
    decreases n,
{
    if n < 10 {
        let mut out: String = String::new();
        out.push((48 + n as u8) as char);
        assert(out@ =~= decimal(n as nat));
        out
    } else {
        let mut out: String = u64_text(n / 10);
        out.push((48 + (n % 10) as u8) as char);
        out
    }
}

/// `n` in decimal, with a minus sign in front where it is negative.
pub open spec fn signed_decimal(n: int) -> Seq<char> {
    if n < 0 {
        seq!['-'] + decimal((-n) as nat)
    } else {
        decimal(n as nat)
    }
}

/// `n` in decimal, with a minus sign in front where it is negative.
pub fn i64_text(n: i64) -> (out: String)
    ensures
        out@ == signed_decimal(n as int),
{
    if n >= 0 {
        u64_text(n as u64)
    } else {
        let size: u64 = if n == i64::MIN {
            9223372036854775808
        } else {
            (-n) as u64
        };
        let mut out: String = String::new();
        out.push('-');
        out.append(u64_text(size).as_str());
        assert(out@ =~= signed_decimal(n as int));
        out
    }
}

/// `n` in decimal, with a minus sign in front where it is negative.
pub fn i32_text(n: i32) -> (out: String)
    ensures
        out@ == signed_decimal(n as int),
{
    i64_text(n as i64)
}

/// `count` zeros.
pub open spec fn zeros(count: nat) -> Seq<char> {
    Seq::new(count, |i: int| '0')
}

/// `n` in decimal, with leading zeros up to `width` characters.
pub open spec fn zero_padded(n: nat, width: nat) -> Seq<char> {
    let d = decimal(n);
    if d.len() >= width {
        d
    } else {
        zeros((width - d.len()) as nat) + d
    }
}

/// `n` in decimal, with leading zeros up to `width` characters.
pub fn u64_padded(n: u64, width: usize) -> (out: String)
    ensures
        out@ == zero_padded(n as nat, width as nat),
{
    let d = u64_text(n);
    let len: usize = d.as_str().unicode_len();
    let mut out: String = String::new();
    let mut i: usize = len;
    while i < width
        invariant
            len <= i,
            len <= width ==> i <= width,
            len > width ==> i == len,
            out@ == zeros((i - len) as nat),
        decreases width - i,
    {
        out.push('0');
        assert(zeros((i + 1 - len) as nat) =~= zeros((i - len) as nat).push('0'));
        i += 1;
    }
    out.append(d.as_str());
    assert(out@ =~= zero_padded(n as nat, width as nat));
    out
}

/// Whether `c` is `0` to `9` or `a` to `f`.
pub open spec fn is_lower_hex_char(c: char) -> bool {
    ('0' <= c <= '9') || ('a' <= c <= 'f')
}

/// Whether every character of `s` is `0` to `9` or `a` to `f`.
pub open spec fn is_lower_hex(s: Seq<char>) -> bool {
    forall|i: int| 0 <= i < s.len() ==> is_lower_hex_char(#[trigger] s[i])
}

/// Whether `s` is `len` characters of `0` to `9` or `a` to `f`.
pub fn is_lower_hex_of_len(s: &str, len: usize) -> (r: bool)
    ensures
        r == (s@.len() == len && is_lower_hex(s@)),
{
    let v = chars_of(s);
    if v.len() != len {
        return false;
    }
    let mut i: usize = 0;
    while i < v.len()
        invariant
            v@ == s@,
            i <= v@.len(),
            forall|j: int| 0 <= j < i ==> is_lower_hex_char(#[trigger] v@[j]),
        decreases v@.len() - i,
    {
        let c = v[i];
        if !(('0' <= c && c <= '9') || ('a' <= c && c <= 'f')) {
            assert(!is_lower_hex_char(s@[i as int]));
            return false;
        }
        i += 1;
    }
    true
}

/// The number that a run of decimal digits denotes.
pub open spec fn digits_value(s: Seq<char>) -> nat
    decreases s.len(),
{
    if s.len() == 0 {
        0
    } else {
        digits_value(s.drop_last()) * 10 + ((s.last() as u32 - 48) as nat)
    }
}

/// Whether every character of `s` is a decimal digit.
pub open spec fn all_digits(s: Seq<char>) -> bool {
    forall|i: int| 0 <= i < s.len() ==> '0' <= #[trigger] s[i] <= '9'
}

/// What is left of `s` after one leading `+`.
pub open spec fn unsigned_body(s: Seq<char>) -> Seq<char> {
    if s.len() > 0 && s[0] == '+' {
        s.drop_first()
    } else {
        s
    }
}

/// The unsigned number, no greater than `max`, that `s` denotes: an optional
/// `+`, then one or more decimal digits.
pub open spec fn parsed_unsigned(s: Seq<char>, max: nat) -> Option<nat> {
    let body = unsigned_body(s);
    if body.len() > 0 && all_digits(body) && digits_value(body) <= max {
        Some(digits_value(body))
    } else {
        None
    }
}

/// A run of digits denotes no more than one that it begins.
proof fn lemma_digits_value_grows(s: Seq<char>, n: int)
    requires
        0 <= n <= s.len(),
        all_digits(s),
    ensures
        digits_value(s.take(n)) <= digits_value(s),
    decreases s.len(),
{
    if n == s.len() {
        assert(s.take(n) =~= s);
    } else {
        let p = s.drop_last();
        assert(s.take(n) =~= p.take(n));
        assert forall|i: int| 0 <= i < p.len() implies '0' <= #[trigger] p[i] <= '9' by {
            assert(p[i] == s[i]);
        }
        lemma_digits_value_grows(p, n);
    }
}

/// The unsigned number, no greater than `max`, that `s` denotes: an optional
/// `+`, then one or more decimal digits.
pub fn parse_unsigned(s: &str, max: u64) -> (r: Option<u64>)
    ensures
        match r {
            Some(n) => parsed_unsigned(s@, max as nat) == Some(n as nat),
            None => parsed_unsigned(s@, max as nat) is None,
        },
{
    let v = chars_of(s);
    let from: usize = if v.len() > 0 && v[0] == '+' {
        1
    } else {
        0
    };
    let ghost body = unsigned_body(s@);
    assert(body =~= s@.skip(from as int));
    if from == v.len() {
        return None;
    }
    let mut value: u64 = 0;
    let mut i: usize = from;
    assert(body.take(0) =~= Seq::<char>::empty());
    while i < v.len()
        invariant
            v@ == s@,
            from <= i <= v@.len(),
            from < v@.len(),
            body == s@.skip(from as int),
            body == unsigned_body(s@),
            value == digits_value(body.take(i - from)),
            value <= max,
            all_digits(body.take(i - from)),
        decreases v@.len() - i,
    {
        let c = v[i];
        assert(body[i - from] == c);
        if !('0' <= c && c <= '9') {
            assert(!all_digits(body));
            return None;
        }
        let d: u64 = (c as u32 - 48) as u64;
        let ghost next = body.take(i - from + 1);
        assert(next.drop_last() =~= body.take(i - from));
        assert(next.last() == c);
        assert(digits_value(next) == value * 10 + d);
        assert(all_digits(next)) by {
            assert forall|k: int| 0 <= k < next.len() implies '0' <= #[trigger] next[k] <= '9' by {
                if k < i - from {
                    assert(body.take(i - from)[k] == next[k]);
                }
            }
        }
        let scaled: u128 = value as u128 * 10 + d as u128;
        if scaled > max as u128 {
            proof {
                if all_digits(body) {
                    lemma_digits_value_grows(body, i - from + 1);
                }
            }
            return None;
        }
        value = scaled as u64;
        i += 1;
    }
    assert(body.take(i - from) =~= body);
    Some(value)
}

// ---------------------------------------------------------------------------
// What decimal numbers keep
// ---------------------------------------------------------------------------
/// A number in decimal is made of digits and denotes the number.
pub proof fn lemma_decimal_denotes(n: nat)
    ensures
        decimal(n).len() > 0,
        all_digits(decimal(n)),
        digits_value(decimal(n)) == n,
    decreases n,
{
    reveal_with_fuel(digits_value, 2);
    let d = decimal(n);
    if n < 10 {
        assert(d.drop_last() =~= Seq::empty());
        assert(d.last() == digit_char(n));
    } else {
        lemma_decimal_denotes(n / 10);
        let head = decimal(n / 10);
        assert(d.drop_last() =~= head);
        assert(d.last() == digit_char(n % 10));
        assert forall|i: int| 0 <= i < d.len() implies '0' <= #[trigger] d[i] <= '9' by {
            if i < head.len() {
                assert(d[i] == head[i]);
            }
        }
    }
}

/// Different numbers are written differently.
pub proof fn lemma_decimal_injective(a: nat, b: nat)
    requires
        decimal(a) == decimal(b),
    ensures
        a == b,
{
    lemma_decimal_denotes(a);
    lemma_decimal_denotes(b);
}

/// Different numbers are written differently, with their signs.
pub proof fn lemma_signed_decimal_injective(a: int, b: int)
    requires
        signed_decimal(a) == signed_decimal(b),
    ensures
        a == b,
{
    let x = signed_decimal(a);
    let y = signed_decimal(b);
    if a < 0 && b < 0 {
        assert(x.drop_first() =~= decimal((-a) as nat));
        assert(y.drop_first() =~= decimal((-b) as nat));
        lemma_decimal_injective((-a) as nat, (-b) as nat);
    } else if a >= 0 && b >= 0 {
        lemma_decimal_injective(a as nat, b as nat);
    } else if a < 0 {
        lemma_decimal_denotes(b as nat);
        assert(x[0] == '-');
        assert('0' <= decimal(b as nat)[0] <= '9');
    } else {
        lemma_decimal_denotes(a as nat);
        assert(y[0] == '-');
        assert('0' <= decimal(a as nat)[0] <= '9');
    }
}

/// A number that fits is read back from what it is written as.
pub proof fn law_decimal_is_read_back(n: nat, max: nat)
    requires
        n <= max,
    ensures
        parsed_unsigned(decimal(n), max) == Some(n),
{
    lemma_decimal_denotes(n);
    assert('0' <= decimal(n)[0] <= '9');
}

} // verus!
