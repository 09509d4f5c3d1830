//! What the operations on texts keep, and what they find.

use vstd::prelude::*;

use crate::text;
use crate::watcher::utf8_decoder;

verus! {

// ---------------------------------------------------------------------------
// White space
// ---------------------------------------------------------------------------
proof fn lemma_trim_start_is_a_tail(s: Seq<char>) -> (from: int)
    ensures
        0 <= from <= s.len(),
        text::trim_start(s) == s.skip(from),
        forall|i: int| 0 <= i < from ==> text::is_white(#[trigger] s[i]),
        from < s.len() ==> !text::is_white(s[from]),
    decreases s.len(),
{
    if s.len() > 0 && text::is_white(s[0]) {
        let rest = s.drop_first();
        let from = lemma_trim_start_is_a_tail(rest);
        assert(rest.skip(from) =~= s.skip(from + 1));
        assert forall|i: int| 0 <= i < from + 1 implies text::is_white(#[trigger] s[i]) by {
            if i > 0 {
                assert(rest[i - 1] == s[i]);
            }
        }
        from + 1
    } else {
        assert(s.skip(0) =~= s);
        0
    }
}

proof fn lemma_trim_end_is_a_head(s: Seq<char>) -> (to: int)
    ensures
        0 <= to <= s.len(),
        text::trim_end(s) == s.take(to),
        forall|i: int| to <= i < s.len() ==> text::is_white(#[trigger] s[i]),
        0 < to ==> !text::is_white(s[to - 1]),
    decreases s.len(),
{
    if s.len() > 0 && text::is_white(s.last()) {
        let rest = s.drop_last();
        let to = lemma_trim_end_is_a_head(rest);
        assert(rest.take(to) =~= s.take(to));
        assert forall|i: int| to <= i < s.len() implies text::is_white(#[trigger] s[i]) by {
            if i < rest.len() {
                assert(rest[i] == s[i]);
            }
        }
        to
    } else {
        assert(s.take(s.len() as int) =~= s);
        s.len() as int
    }
}

/// White space is the tab and the line ends, the blanks of every width, and the separators.
pub proof fn law_white_space_is_known(c: char, r: bool)
    requires
        call_ensures(text::char_is_white, (c,), r),
    ensures
        r <==> {
            let n = c as u32;
            ||| n == 9 || n == 10 || n == 11 || n == 12 || n == 13
            ||| n == 32 || n == 133 || n == 160 || n == 5760
            ||| n >= 8192 && n <= 8202
            ||| n == 8232 || n == 8233 || n == 8239 || n == 8287 || n == 12288
        },
{
}

/// What is trimmed from a text is white space at its two ends, and all of it.
pub proof fn law_only_white_ends_are_trimmed(s: &str, out: &str) -> (bounds: (int, int))
    requires
        call_ensures(text::trim, (s,), out),
    ensures
        0 <= bounds.0 <= bounds.1 <= s@.len(),
        out@ == s@.subrange(bounds.0, bounds.1),
        forall|i: int|
            0 <= i < bounds.0 || bounds.1 <= i < s@.len() ==> text::is_white(#[trigger] s@[i]),
        out@.len() > 0 ==> !text::is_white(out@[0]) && !text::is_white(out@.last()),
{
    let from = lemma_trim_start_is_a_tail(s@);
    let rest = s@.skip(from);
    let to = lemma_trim_end_is_a_head(rest);
    assert(rest.take(to) =~= s@.subrange(from, from + to));
    assert forall|i: int| 0 <= i < from || from + to <= i < s@.len() implies text::is_white(
        #[trigger] s@[i],
    ) by {
        if i >= from {
            assert(rest[i - from] == s@[i]);
        }
    }
    if out@.len() > 0 {
        assert(out@[0] == s@[from]);
        assert(out@.last() == rest[to - 1]);
    }
    (from, from + to)
}

/// A text is blank when there is nothing in it but white space.
pub proof fn law_blank_is_white_throughout(s: &str, r: bool)
    requires
        call_ensures(text::blank, (s,), r),
    ensures
        r <==> forall|i: int| 0 <= i < s@.len() ==> text::is_white(#[trigger] s@[i]),
{
    text::lemma_blank_is_all_white(s@);
}

// ---------------------------------------------------------------------------
// Lines
// ---------------------------------------------------------------------------
pub open spec fn all_white(s: Seq<char>) -> bool {
    forall|i: int| 0 <= i < s.len() ==> text::is_white(#[trigger] s[i])
}

proof fn lemma_trim_start_drops_white(a: Seq<char>, b: Seq<char>)
    requires
        all_white(a),
    ensures
        text::trim_start(a + b) == text::trim_start(b),
    decreases a.len(),
{
    if a.len() == 0 {
        assert(a + b =~= b);
    } else {
        let rest = a.drop_first();
        assert forall|i: int| 0 <= i < rest.len() implies text::is_white(#[trigger] rest[i]) by {
            assert(rest[i] == a[i + 1]);
        }
        lemma_trim_start_drops_white(rest, b);
        assert((a + b).drop_first() =~= rest + b);
        assert((a + b)[0] == a[0]);
    }
}

proof fn lemma_words_skip_white(a: Seq<char>, b: Seq<char>)
    requires
        all_white(a),
    ensures
        text::words(a + b) == text::words(b),
{
    lemma_trim_start_drops_white(a, b);
    text::lemma_trim_start_len(b);
}

proof fn lemma_words_of_white(a: Seq<char>)
    requires
        all_white(a),
    ensures
        text::words(a) == Seq::<Seq<char>>::empty(),
{
    assert(a + Seq::empty() =~= a);
    lemma_words_skip_white(a, Seq::empty());
    assert(text::words(Seq::empty()) =~= Seq::<Seq<char>>::empty());
}

proof fn lemma_words_around_white(a: Seq<char>, gap: Seq<char>, b: Seq<char>)
    requires
        gap.len() > 0,
        all_white(gap),
    ensures
        text::words(a + gap + b) == text::words(a) + text::words(b),
    decreases a.len(),
{
    let from = lemma_trim_start_is_a_tail(a);
    let t = a.skip(from);
    if t.len() == 0 {
        lemma_words_of_white(a);
        let front = a + gap;
        assert forall|i: int| 0 <= i < front.len() implies text::is_white(#[trigger] front[i]) by {
            if i >= a.len() {
                assert(front[i] == gap[i - a.len()]);
            }
        }
        lemma_words_skip_white(front, b);
        assert(text::words(a) + text::words(b) =~= text::words(b));
    } else {
        let all = a + gap + b;
        let white = a.take(from);
        assert forall|i: int| 0 <= i < white.len() implies text::is_white(#[trigger] white[i]) by {
            assert(white[i] == a[i]);
        }
        let u = t + gap + b;
        assert(all =~= white + u);
        lemma_words_skip_white(white, u);
        assert(a =~= white + t);
        lemma_words_skip_white(white, t);
        text::lemma_word_prefix(t);
        let n = text::word_len(t);
        text::lemma_word_len(t, 0);
        assert(t[0] == a[from]);
        assert(text::trim_start(t) == t);
        assert(u[0] == t[0]);
        assert(text::trim_start(u) == u);
        assert forall|k: int| 0 <= k < n implies !text::is_white(#[trigger] u[k]) by {
            assert(u[k] == t[k]);
        }
        lemma_word_len_ends(t);
        if n < t.len() {
            assert(u[n] == t[n]);
        } else {
            assert(u[n] == gap[0]);
        }
        text::lemma_word_len(u, n);
        assert(text::word_len(u) == n);
        assert(u.take(n) =~= t.take(n));
        let t2 = t.skip(n);
        assert(u.skip(n) =~= t2 + gap + b);
        lemma_words_around_white(t2, gap, b);
        assert(text::words(u) =~= seq![t.take(n)] + (text::words(t2) + text::words(b)));
        assert(text::words(t) =~= seq![t.take(n)] + text::words(t2));
        assert(text::words(u) =~= text::words(t) + text::words(b));
    }
}

proof fn lemma_word_len_ends(s: Seq<char>)
    ensures
        0 <= text::word_len(s) <= s.len(),
        text::word_len(s) < s.len() ==> text::is_white(s[text::word_len(s)]),
    decreases s.len(),
{
    if s.len() > 0 && !text::is_white(s[0]) {
        let rest = s.drop_first();
        lemma_word_len_ends(rest);
        if text::word_len(s) < s.len() {
            assert(rest[text::word_len(rest)] == s[text::word_len(s)]);
        }
    }
}

proof fn lemma_joined_lists(a: Seq<Seq<char>>, b: Seq<Seq<char>>, sep: Seq<char>)
    requires
        a.len() > 0,
        b.len() > 0,
    ensures
        text::joined(a + b, sep) == text::joined(a, sep) + sep + text::joined(b, sep),
    decreases b.len(),
{
    let all = a + b;
    assert(all.last() == b.last());
    assert(all.drop_last() =~= a + b.drop_last());
    if b.len() == 1 {
        assert(a + b.drop_last() =~= a);
        assert(text::joined(all, sep) =~= text::joined(a, sep) + sep + b[0]);
    } else {
        lemma_joined_lists(a, b.drop_last(), sep);
        assert(text::joined(all, sep) =~= text::joined(a, sep) + sep + text::joined(b, sep));
    }
}

proof fn lemma_words_of_a_text(s: Seq<char>)
    ensures
        text::words(s).len() == 0 <==> all_white(s),
{
    let from = lemma_trim_start_is_a_tail(s);
    let t = s.skip(from);
    if t.len() == 0 {
        lemma_words_of_white(s);
    } else {
        assert(t[0] == s[from]);
        text::lemma_word_prefix(t);
        text::lemma_word_len(t, 0);
    }
}

/// On one line, white space of any kind and width between two texts is one space; beside a
/// text with nothing but white space it is nothing.
pub proof fn law_white_space_becomes_one_space(
    a: &str,
    gap: Seq<char>,
    b: &str,
    whole: &str,
    line_a: String,
    line_b: String,
    line: String,
)
    requires
        gap.len() > 0,
        forall|i: int| 0 <= i < gap.len() ==> text::is_white(#[trigger] gap[i]),
        whole@ == a@ + gap + b@,
        call_ensures(text::squeeze, (a,), line_a),
        call_ensures(text::squeeze, (b,), line_b),
        call_ensures(text::squeeze, (whole,), line),
    ensures
        line@ == if line_a@.len() == 0 {
            line_b@
        } else if line_b@.len() == 0 {
            line_a@
        } else {
            line_a@ + seq![' '] + line_b@
        },
        line_a@.len() == 0 <==> forall|i: int| 0 <= i < a@.len() ==> text::is_white(#[trigger] a@[i]),
{
    reveal_strlit(" ");
    assert(" "@ =~= seq![' ']);
    lemma_words_around_white(a@, gap, b@);
    lemma_words_of_a_text(a@);
    lemma_words_of_a_text(b@);
    let wa = text::words(a@);
    let wb = text::words(b@);
    text::lemma_words_are_words(a@);
    text::lemma_words_are_words(b@);
    lemma_joined_words_show(wa);
    lemma_joined_words_show(wb);
    if wa.len() > 0 && wb.len() > 0 {
        lemma_joined_lists(wa, wb, " "@);
    } else if wa.len() == 0 {
        assert(wa + wb =~= wb);
    } else {
        assert(wa + wb =~= wa);
    }
}

proof fn lemma_joined_words_show(words: Seq<Seq<char>>)
    requires
        forall|i: int| 0 <= i < words.len() ==> text::is_word(#[trigger] words[i]),
    ensures
        text::joined(words, " "@).len() == 0 <==> words.len() == 0,
{
    if words.len() == 1 {
        assert(text::is_word(words[0]));
    } else if words.len() > 1 {
        assert(text::is_word(words[words.len() - 1]));
    }
}

/// On one line, a text without white space is as it was.
pub proof fn law_word_is_kept(s: &str, line: String)
    requires
        forall|i: int| 0 <= i < s@.len() ==> !text::is_white(#[trigger] s@[i]),
        call_ensures(text::squeeze, (s,), line),
    ensures
        line@ == s@,
{
    if s@.len() == 0 {
        lemma_words_of_white(s@);
        assert(line@ =~= s@);
    } else {
        text::lemma_word_len(s@, s@.len() as int);
        assert(text::trim_start(s@) == s@);
        assert(s@.take(s@.len() as int) =~= s@);
        lemma_words_of_white(s@.skip(s@.len() as int));
        assert(text::words(s@) =~= seq![s@]);
    }
}

// ---------------------------------------------------------------------------
// Case
// ---------------------------------------------------------------------------
/// In lower case, the letters from A to Z are those from a to z; nothing else changes.
pub proof fn law_only_ascii_letters_are_lowered(s: &str, out: String, i: int)
    requires
        call_ensures(text::to_ascii_lower, (s,), out),
        0 <= i < s@.len(),
    ensures
        out@.len() == s@.len(),
        65 <= s@[i] as int <= 90 ==> out@[i] as int == s@[i] as int + 32,
        !(65 <= s@[i] as int <= 90) ==> out@[i] == s@[i],
{
    assert(out@[i] == text::ascii_lower_char(s@[i]));
}

// ---------------------------------------------------------------------------
// Searching
// ---------------------------------------------------------------------------
/// A text that stands anywhere in another is found there; one that is found stands there.
pub proof fn law_what_stands_there_is_found(
    front: Seq<char>,
    needle: &str,
    back: Seq<char>,
    hay: &str,
    r: bool,
)
    requires
        call_ensures(text::contains, (hay, needle), r),
    ensures
        hay@ == front + needle@ + back ==> r,
        r ==> exists|i: int|
            0 <= i <= hay@.len() - needle@.len() && hay@ == #[trigger] hay@.take(i) + needle@
                + hay@.skip(i + needle@.len()),
{
    if hay@ == front + needle@ + back {
        assert(hay@.subrange(front.len() as int, (front.len() + needle@.len()) as int) =~= needle@);
        assert(text::occurs_at(hay@, needle@, front.len() as int));
    }
    if r {
        let i = choose|i: int| text::occurs_at(hay@, needle@, i);
        assert(hay@ =~= hay@.take(i) + hay@.subrange(i, i + needle@.len()) + hay@.skip(
            i + needle@.len(),
        ));
    }
}

/// What is left behind a prefix, and in front of a suffix, makes the text again with it. A
/// text that begins or ends so is always recognised.
pub proof fn law_ends_are_taken_off(
    s: &str,
    end: &str,
    begins: bool,
    behind: Option<&str>,
    closes: bool,
    in_front: Option<&str>,
    other: Seq<char>,
)
    requires
        call_ensures(text::starts_with, (s, end), begins),
        call_ensures(text::strip_prefix, (s, end), behind),
        call_ensures(text::ends_with, (s, end), closes),
        call_ensures(text::strip_suffix, (s, end), in_front),
    ensures
        begins <==> behind is Some,
        closes <==> in_front is Some,
        behind matches Some(rest) ==> s@ == end@ + rest@,
        in_front matches Some(rest) ==> s@ == rest@ + end@,
        s@ == end@ + other ==> behind is Some && behind->0@ == other,
        s@ == other + end@ ==> in_front is Some && in_front->0@ == other,
{
    if behind is Some {
        assert(s@ =~= end@ + behind->0@);
    }
    if in_front is Some {
        assert(s@ =~= in_front->0@ + end@);
    }
    if s@ == end@ + other {
        assert(s@.take(end@.len() as int) =~= end@);
        assert(s@.skip(end@.len() as int) =~= other);
    }
    if s@ == other + end@ {
        assert(s@.skip(s@.len() - end@.len()) =~= end@);
        assert(s@.take(s@.len() - end@.len()) =~= other);
    }
}

proof fn lemma_boundary_behind(head: Seq<char>, tail: Seq<char>)
    ensures
        vstd::utf8::is_char_boundary(
            vstd::utf8::encode_utf8(head + tail),
            vstd::utf8::encode_utf8(head).len() as int,
        ),
        vstd::utf8::encode_utf8(head + tail) == vstd::utf8::encode_utf8(head)
            + vstd::utf8::encode_utf8(tail),
{
    utf8_decoder::lemma_encode_concat(head, tail);
    let h = vstd::utf8::encode_utf8(head);
    let t = vstd::utf8::encode_utf8(tail);
    let bytes = h + t;
    vstd::utf8::encode_utf8_valid_utf8(head);
    vstd::utf8::encode_utf8_valid_utf8(tail);
    vstd::utf8::encode_utf8_valid_utf8(head + tail);
    vstd::utf8::is_char_boundary_start_end_of_seq(bytes);
    if t.len() > 0 {
        vstd::utf8::is_char_boundary_iff_is_leading_byte(bytes, h.len() as int);
        vstd::utf8::is_char_boundary_start_end_of_seq(t);
        vstd::utf8::is_char_boundary_iff_is_leading_byte(t, 0);
        assert(bytes[h.len() as int] == t[0]);
    } else {
        assert(bytes.len() == h.len());
    }
}

/// What follows a number of bytes is what follows the characters that take them; where no
/// characters take just so many, nothing is given.
pub proof fn law_bytes_are_counted_in_characters(
    s: &str,
    offset: usize,
    r: Option<&str>,
    head: Seq<char>,
    tail: Seq<char>,
)
    requires
        call_ensures(text::tail_from, (s, offset), r),
    ensures
        s@ == head + tail && vstd::utf8::encode_utf8(head).len() == offset ==> r is Some && r->0@
            == tail,
        r matches Some(rest) ==> rest@.len() <= s@.len() && s@ == s@.take(
            s@.len() - rest@.len(),
        ) + rest@ && vstd::utf8::encode_utf8(s@.take(s@.len() - rest@.len())).len() == offset,
{
    let bytes = vstd::utf8::encode_utf8(s@);
    vstd::utf8::encode_utf8_valid_utf8(s@);
    vstd::utf8::encode_utf8_decode_utf8(s@);
    if s@ == head + tail && vstd::utf8::encode_utf8(head).len() == offset {
        lemma_boundary_behind(head, tail);
        assert(bytes.subrange(offset as int, bytes.len() as int) =~= vstd::utf8::encode_utf8(tail));
        vstd::utf8::encode_utf8_decode_utf8(tail);
    }
    if r is Some {
        vstd::utf8::valid_utf8_split(bytes, offset as int);
        vstd::utf8::decode_utf8_split(bytes, offset as int);
        let first = bytes.subrange(0, offset as int);
        vstd::utf8::decode_utf8_encode_utf8(first);
        let front = vstd::utf8::decode_utf8(first);
        assert(s@.take(s@.len() - r->0@.len()) =~= front);
        assert(s@ =~= front + r->0@);
        vstd::utf8::is_char_boundary_start_end_of_seq(bytes);
        assert(0 <= offset <= bytes.len());
    }
}

// ---------------------------------------------------------------------------
// Splitting
// ---------------------------------------------------------------------------
proof fn lemma_first_at_is_first(s: Seq<char>, sep: char)
    ensures
        0 <= text::first_at(s, sep) <= s.len(),
        text::first_at(s, sep) < s.len() ==> s[text::first_at(s, sep)] == sep,
        forall|i: int| 0 <= i < text::first_at(s, sep) ==> #[trigger] s[i] != sep,
    decreases s.len(),
{
    if s.len() > 0 && s[0] != sep {
        let rest = s.drop_first();
        lemma_first_at_is_first(rest, sep);
        let n = text::first_at(s, sep);
        if n < s.len() {
            assert(rest[n - 1] == s[n]);
        }
        assert forall|i: int| 0 <= i < n implies #[trigger] s[i] != sep by {
            if i > 0 {
                assert(rest[i - 1] == s[i]);
            }
        }
    }
}

proof fn lemma_split_joins(s: Seq<char>, sep: char)
    ensures
        text::split_on(s, sep).len() > 0,
        text::joined(text::split_on(s, sep), seq![sep]) == s,
        forall|k: int|
            0 <= k < text::split_on(s, sep).len() ==> !(#[trigger] text::split_on(
                s,
                sep,
            )[k]).contains(sep),
    decreases s.len(),
{
    lemma_first_at_is_first(s, sep);
    let i = text::first_at(s, sep);
    let pieces = text::split_on(s, sep);
    if i >= s.len() {
        assert(pieces =~= seq![s]);
        assert(!s.contains(sep));
    } else {
        let rest = s.skip(i + 1);
        lemma_split_joins(rest, sep);
        let more = text::split_on(rest, sep);
        assert(pieces =~= seq![s.take(i)] + more);
        assert(pieces.drop_first() =~= more);
        text::lemma_joined_front(pieces, seq![sep]);
        assert(s =~= s.take(i) + seq![sep] + rest);
        assert(!s.take(i).contains(sep));
        assert forall|k: int| 0 <= k < pieces.len() implies !(#[trigger] pieces[k]).contains(
            sep,
        ) by {
            if k > 0 {
                assert(pieces[k] == more[k - 1]);
            }
        }
    }
}

/// The pieces of a text, put together with the separator between them, are the text, and no
/// piece holds the separator.
pub proof fn law_pieces_make_the_text(s: &str, sep: char, out: Vec<String>, k: int)
    requires
        call_ensures(text::split, (s, sep), out),
    ensures
        out@.len() > 0,
        text::joined(text::texts(out@), seq![sep]) == s@,
        0 <= k < out@.len() ==> !out@[k]@.contains(sep),
{
    lemma_split_joins(s@, sep);
    if 0 <= k < out@.len() {
        assert(text::texts(out@)[k] == out@[k]@);
        assert(!text::split_on(s@, sep)[k].contains(sep));
    }
}

/// Pieces are put together in order: a single one is itself, and one more is added behind the
/// separator.
pub proof fn law_pieces_are_joined_in_order(pieces: Seq<Seq<char>>, last: Seq<char>, sep: Seq<char>)
    ensures
        text::joined(Seq::empty(), sep) == Seq::<char>::empty(),
        text::joined(seq![last], sep) == last,
        pieces.len() > 0 ==> text::joined(pieces.push(last), sep) == text::joined(pieces, sep) + sep
            + last,
{
    assert(pieces.push(last).drop_last() =~= pieces);
}

/// A line is listed when one of the list says the same.
pub proof fn law_listed_is_held(list: Vec<String>, line: &str, r: bool)
    requires
        call_ensures(text::is_listed, (&list, line), r),
    ensures
        r <==> exists|k: int| 0 <= k < list@.len() && (#[trigger] list@[k])@ == line@,
{
    let all = text::texts(list@);
    if r {
        let k = choose|k: int| 0 <= k < all.len() && all[k] == line@;
        assert(list@[k]@ == line@);
    }
    if exists|k: int| 0 <= k < list@.len() && (#[trigger] list@[k])@ == line@ {
        let k = choose|k: int| 0 <= k < list@.len() && (#[trigger] list@[k])@ == line@;
        assert(all[k] == line@);
    }
}

// ---------------------------------------------------------------------------
// Numbers
// ---------------------------------------------------------------------------
/// A number is read back from what it is written as, with or without zeros in front, and no
/// number above the limit is read.
pub proof fn law_number_is_read_back(
    n: u64,
    width: usize,
    max: u64,
    plain: String,
    padded: String,
    plain_text: &str,
    padded_text: &str,
    r: Option<u64>,
    rp: Option<u64>,
)
    requires
        call_ensures(text::u64_text, (n,), plain),
        call_ensures(text::u64_padded, (n, width), padded),
        plain_text@ == plain@,
        padded_text@ == padded@,
        call_ensures(text::parse_unsigned, (plain_text, max), r),
        call_ensures(text::parse_unsigned, (padded_text, max), rp),
    ensures
        n <= max ==> r == Some(n) && rp == Some(n),
        n > max ==> r is None && rp is None,
        padded@.len() >= width,
        padded@.len() > width ==> padded@ == plain@,
        plain@.len() > 1 ==> plain@[0] != '0',
{
    text::lemma_decimal_denotes(n as nat);
    lemma_decimal_leads(n as nat);
    let d = text::decimal(n as nat);
    assert('0' <= d[0] <= '9');
    if d.len() < width {
        let count = (width - d.len()) as nat;
        lemma_zeros_add_nothing(count, d);
        let p = text::zeros(count) + d;
        assert(p[0] == '0');
        assert forall|i: int| 0 <= i < p.len() implies '0' <= #[trigger] p[i] <= '9' by {
            if i >= count {
                assert(p[i] == d[i - count]);
            }
        }
    }
}

proof fn lemma_zeros_add_nothing(count: nat, d: Seq<char>)
    ensures
        text::digits_value(text::zeros(count) + d) == text::digits_value(d),
    decreases d.len() + count,
{
    let p = text::zeros(count) + d;
    if d.len() > 0 {
        lemma_zeros_add_nothing(count, d.drop_last());
        assert(p.drop_last() =~= text::zeros(count) + d.drop_last());
        assert(p.last() == d.last());
    } else if count > 0 {
        let fewer = (count - 1) as nat;
        lemma_zeros_add_nothing(fewer, d);
        assert(p.drop_last() =~= text::zeros(fewer) + d);
        assert(p.last() == '0');
    } else {
        assert(p =~= d);
    }
}

proof fn lemma_decimal_leads(n: nat)
    ensures
        text::decimal(n).len() > 0,
        n > 0 ==> text::decimal(n)[0] != '0',
        n < 10 ==> text::decimal(n).len() == 1,
    decreases n,
{
    if n >= 10 {
        lemma_decimal_leads(n / 10);
        assert(text::decimal(n)[0] == text::decimal(n / 10)[0]);
    } else if n > 0 {
        assert(text::decimal(n)[0] == text::digit_char(n));
    }
}

/// A text is read as a number when it is a run of digits, behind a plus sign or not, and the
/// number fits. One digit more makes it ten times as large and adds the digit.
pub proof fn law_digits_make_the_number(
    s: &str,
    longer: &str,
    digit: char,
    max: u64,
    r: Option<u64>,
    rl: Option<u64>,
)
    requires
        longer@ == s@.push(digit),
        call_ensures(text::parse_unsigned, (s, max), r),
        call_ensures(text::parse_unsigned, (longer, max), rl),
    ensures
        !('0' <= digit <= '9') ==> rl is None,
        s@.len() > 0 && s@ != seq!['+'] && r is None ==> rl is None,
        r matches Some(n) ==> ('0' <= digit <= '9' ==> {
            let value = n * 10 + (digit as int - 48);
            &&& rl is Some <==> value <= max
            &&& rl matches Some(m) ==> m == value
        }),
        (s@.len() == 0 || s@ == seq!['+']) && '0' <= digit <= '9' ==> {
            &&& rl is Some <==> digit as int - 48 <= max
            &&& rl matches Some(m) ==> m == digit as int - 48
        },
        s@.len() == 0 || s@ == seq!['+'] ==> r is None,
        r matches Some(n) ==> n <= max,
{
    let b = text::unsigned_body(s@);
    let bl = text::unsigned_body(longer@);
    if s@.len() == 0 {
        if digit != '+' {
            assert(bl =~= seq![digit]);
            assert(bl.drop_last() =~= Seq::empty());
            reveal_with_fuel(text::digits_value, 2);
            assert(bl[0] == digit);
        } else {
            assert(bl.len() == 0);
        }
    } else {
        assert(longer@[0] == s@[0]);
        assert(bl =~= b.push(digit));
        assert(bl.drop_last() =~= b);
        assert(bl.last() == digit);
        assert(bl[b.len() as int] == digit);
        assert(text::all_digits(bl) ==> text::all_digits(b)) by {
            if text::all_digits(bl) {
                assert forall|i: int| 0 <= i < b.len() implies '0' <= #[trigger] b[i] <= '9' by {
                    assert(bl[i] == b[i]);
                }
            }
        }
        if text::all_digits(b) && '0' <= digit <= '9' {
            assert forall|i: int| 0 <= i < bl.len() implies '0' <= #[trigger] bl[i] <= '9' by {
                if i < b.len() {
                    assert(bl[i] == b[i]);
                }
            }
        }
        reveal_with_fuel(text::digits_value, 2);
        if s@ == seq!['+'] {
            assert(b =~= Seq::empty());
        }
        if b.len() == 0 {
            assert(s@.len() == 1 && s@[0] == '+');
            assert(s@ =~= seq!['+']);
        }
    }
}

/// A negative number is its size behind a minus sign; any other is written as it is.
pub proof fn law_sign_stands_in_front(n: i64, size: u64, signed: String, unsigned: String)
    requires
        size == (if n < 0 { -n } else { n as int }),
        call_ensures(text::i64_text, (n,), signed),
        call_ensures(text::u64_text, (size,), unsigned),
    ensures
        n >= 0 ==> signed@ == unsigned@,
        n < 0 ==> signed@ == seq!['-'] + unsigned@,
{
}

/// A fingerprint of a length is just so many digits and letters from a to f.
pub proof fn law_hex_is_recognised(s: &str, len: usize, r: bool)
    requires
        call_ensures(text::is_lower_hex_of_len, (s, len), r),
    ensures
        r <==> s@.len() == len && (forall|i: int|
            0 <= i < s@.len() ==> (48 <= #[trigger] s@[i] as int <= 57) || (97 <= s@[i] as int
                <= 102)),
{
    if r {
        assert forall|i: int| 0 <= i < s@.len() implies (48 <= #[trigger] s@[i] as int <= 57) || (97
            <= s@[i] as int <= 102) by {
            assert(text::is_lower_hex_char(s@[i]));
        }
    }
    if s@.len() == len && (forall|i: int|
        0 <= i < s@.len() ==> (48 <= #[trigger] s@[i] as int <= 57) || (97 <= s@[i] as int
            <= 102)) {
        assert forall|i: int| 0 <= i < s@.len() implies text::is_lower_hex_char(#[trigger] s@[i]) by {
            assert(48 <= s@[i] as int <= 57 || 97 <= s@[i] as int <= 102);
        }
    }
}

/// Texts are the same when they hold the same characters.
pub proof fn law_same_text_is_same(a: &str, b: &str, r: bool)
    requires
        call_ensures(text::same_text, (a, b), r),
    ensures
        r <==> a@.len() == b@.len() && forall|i: int| 0 <= i < a@.len() ==> #[trigger] a@[i] == b@[i],
{
    if a@.len() == b@.len() && forall|i: int| 0 <= i < a@.len() ==> #[trigger] a@[i] == b@[i] {
        assert(a@ =~= b@);
    }
}

} // verus!
