//! What the marker of a card shows, line by line, and how a turn's start is read.

use vstd::prelude::*;

use crate::task_cards::event::{TaskCardEvent, TaskCardPayload};
use crate::task_cards::marker;
use crate::task_cards::marker::{
    footer_only_background_marker_content, marker_lines, MarkerContent,
};
use crate::task_cards::started_at;
use crate::task_cards::started_at::{parse_turn_started_at, resolve_started_at, UtcInstant};
use crate::text;

verus! {

// ---------------------------------------------------------------------------
// Lines
// ---------------------------------------------------------------------------
proof fn lemma_no_separator(s: Seq<char>, sep: char)
    requires
        !s.contains(sep),
    ensures
        text::split_on(s, sep) == seq![s],
{
    text::lemma_first_at(s, sep, s.len() as int);
}

proof fn lemma_split_one_more(a: Seq<char>, sep: char, b: Seq<char>)
    requires
        !b.contains(sep),
    ensures
        text::split_on(a + seq![sep] + b, sep) == text::split_on(a, sep).push(b),
    decreases a.len(),
{
    let all = a + seq![sep] + b;
    text::lemma_first_at(a, sep, 0);
    let n = text::first_at(a, sep);
    lemma_before_first(a, sep);
    assert forall|k: int| 0 <= k < n implies all[k] != sep by {
        assert(all[k] == a[k]);
    }
    if n < a.len() {
        assert(all[n] == a[n]);
    } else {
        assert(all[n] == sep);
    }
    text::lemma_first_at(all, sep, n);
    assert(text::first_at(all, sep) == n);
    if n >= a.len() {
        assert(all.take(n) =~= a);
        assert(all.skip(n + 1) =~= b);
        lemma_no_separator(b, sep);
        assert(text::split_on(a, sep) =~= seq![a]);
        assert(text::split_on(all, sep) =~= seq![a].push(b));
    } else {
        let rest = a.skip(n + 1);
        lemma_split_one_more(rest, sep, b);
        assert(all.take(n) =~= a.take(n));
        assert(all.skip(n + 1) =~= rest + seq![sep] + b);
        assert(text::split_on(all, sep) =~= seq![a.take(n)] + text::split_on(rest, sep).push(b));
        assert(text::split_on(a, sep) =~= seq![a.take(n)] + text::split_on(rest, sep));
        assert(text::split_on(all, sep) =~= text::split_on(a, sep).push(b));
    }
}

proof fn lemma_before_first(s: Seq<char>, sep: char)
    ensures
        0 <= text::first_at(s, sep) <= s.len(),
        text::first_at(s, sep) < s.len() ==> s[text::first_at(s, sep)] == sep,
        forall|i: int| 0 <= i < text::first_at(s, sep) ==> #[trigger] s[i] != sep,
    decreases s.len(),
{
    if s.len() > 0 && s[0] != sep {
        let rest = s.drop_first();
        lemma_before_first(rest, sep);
        let n = text::first_at(s, sep);
        if n < s.len() {
            assert(rest[n - 1] == s[n]);
        }
        assert forall|i: int| 0 <= i < n implies #[trigger] s[i] != sep by {
            if i > 0 {
                assert(rest[i - 1] == s[i]);
            }
        }
    }
}

proof fn lemma_shown_one_more(lines: Seq<Seq<char>>, line: Seq<char>)
    ensures
        marker::shown_lines(lines.push(line)) == if marker::is_shown_line(text::trimmed(line)) {
            marker::shown_lines(lines).push(text::trimmed(line))
        } else {
            marker::shown_lines(lines)
        },
{
    assert(lines.push(line).drop_last() =~= lines);
}

/// A card's marker may show a line unless nothing is on it or it is a subtext, trimmed, and the
/// lines in their order.
pub proof fn law_marker_takes_lines_in_order(
    card: &str,
    line: &str,
    longer: &str,
    trimmed: &str,
    subtext: bool,
    alone: Vec<String>,
    before: Vec<String>,
    after: Vec<String>,
)
    requires
        !line@.contains('\n'),
        longer@ == card@ + seq!['\n'] + line@,
        call_ensures(text::trim, (line,), trimmed),
        call_ensures(text::starts_with, (trimmed, "-#"), subtext),
        call_ensures(marker_lines, (line,), alone),
        call_ensures(marker_lines, (card,), before),
        call_ensures(marker_lines, (longer,), after),
    ensures
        trimmed@.len() > 0 && !subtext ==> text::texts(after@) == text::texts(before@).push(
            trimmed@,
        ) && text::texts(alone@) == seq![trimmed@],
        trimmed@.len() == 0 || subtext ==> text::texts(after@) == text::texts(before@)
            && alone@.len() == 0,
{
    lemma_no_separator(line@, '\n');
    lemma_split_one_more(card@, '\n', line@);
    lemma_shown_one_more(text::split_on(card@, '\n'), line@);
    lemma_shown_one_more(Seq::empty(), line@);
    assert(Seq::empty().push(line@) =~= seq![line@]);
    assert(marker::shown_lines(Seq::empty()) =~= Seq::<Seq<char>>::empty());
    assert(Seq::empty().push(trimmed@) =~= seq![trimmed@]);
    assert(text::texts(alone@).len() == alone@.len());
}

proof fn lemma_public_lines_show(lines: Seq<Seq<char>>, private: Seq<Seq<char>>)
    requires
        forall|i: int| 0 <= i < lines.len() ==> (#[trigger] lines[i]).len() > 0,
    ensures
        forall|i: int|
            0 <= i < marker::public_lines(lines, private).len() ==> (#[trigger] marker::public_lines(
                lines,
                private,
            )[i]).len() > 0,
    decreases lines.len(),
{
    if lines.len() > 0 {
        let rest = lines.drop_last();
        assert forall|i: int| 0 <= i < rest.len() implies (#[trigger] rest[i]).len() > 0 by {
            assert(rest[i] == lines[i]);
        }
        lemma_public_lines_show(rest, private);
        assert(lines[lines.len() - 1].len() > 0);
        let kept = marker::public_lines(rest, private);
        let all = marker::public_lines(lines, private);
        assert forall|i: int| 0 <= i < all.len() implies (#[trigger] all[i]).len() > 0 by {
            if i < kept.len() {
                assert(all[i] == kept[i]);
            }
        }
    }
}

proof fn lemma_shown_lines_show(lines: Seq<Seq<char>>)
    ensures
        forall|i: int|
            0 <= i < marker::shown_lines(lines).len() ==> (#[trigger] marker::shown_lines(
                lines,
            )[i]).len() > 0,
    decreases lines.len(),
{
    if lines.len() > 0 {
        lemma_shown_lines_show(lines.drop_last());
        let kept = marker::shown_lines(lines.drop_last());
        let all = marker::shown_lines(lines);
        assert forall|i: int| 0 <= i < all.len() implies (#[trigger] all[i]).len() > 0 by {
            if i < kept.len() {
                assert(all[i] == kept[i]);
            }
        }
    }
}

proof fn lemma_joined_shows(lines: Seq<Seq<char>>, sep: Seq<char>)
    requires
        forall|i: int| 0 <= i < lines.len() ==> (#[trigger] lines[i]).len() > 0,
    ensures
        text::joined(lines, sep).len() == 0 <==> lines.len() == 0,
{
    if lines.len() > 0 {
        assert(lines[lines.len() - 1].len() > 0);
    }
}

/// One more line of a card is one more line of its marker if it may be shown and is not
/// private, and nothing more if not. With the first such line the marker is cut at its limit.
pub proof fn law_marker_grows_by_public_lines(
    card: &str,
    line: &str,
    longer: &str,
    trimmed: &str,
    subtext: bool,
    private: Vec<String>,
    is_private: bool,
    before: MarkerContent,
    after: MarkerContent,
)
    requires
        !line@.contains('\n'),
        longer@ == card@ + seq!['\n'] + line@,
        call_ensures(text::trim, (line,), trimmed),
        call_ensures(text::starts_with, (trimmed, "-#"), subtext),
        call_ensures(text::is_listed, (&private, trimmed), is_private),
        call_ensures(footer_only_background_marker_content, (card, &private), before),
        call_ensures(footer_only_background_marker_content, (longer, &private), after),
    ensures
        ({
            let shown = trimmed@.len() > 0 && !subtext && !is_private;
            &&& shown ==> after.text@ == before.text@ + seq!['\n'] + trimmed@ && after.limit == Some(
                600usize,
            )
            &&& !shown ==> after.text@ == before.text@ && after.limit == before.limit
        }),
{
    reveal_strlit("\n");
    assert("\n"@ =~= seq!['\n']);
    lemma_split_one_more(card@, '\n', line@);
    let lines = text::split_on(card@, '\n');
    lemma_shown_one_more(lines, line@);
    let hidden = text::texts(private@);
    let shown = marker::shown_lines(lines);
    lemma_shown_lines_show(lines);
    lemma_public_lines_show(shown, hidden);
    let public = marker::public_lines(shown, hidden);
    lemma_joined_shows(public, "\n"@);
    let t = trimmed@;
    if t.len() > 0 && !subtext {
        assert(shown.push(t).drop_last() =~= shown);
        if !is_private {
            assert(marker::public_lines(shown.push(t), hidden) == public.push(t));
            assert(public.push(t).drop_last() =~= public);
            let head = "⚙️ Background complete"@;
            if public.len() == 0 {
                assert(text::joined(public.push(t), "\n"@) == t);
            } else {
                assert(text::joined(public.push(t), "\n"@) == text::joined(public, "\n"@) + "\n"@
                    + t);
            }
            assert(after.text@ =~= before.text@ + "\n"@ + t);
        }
    }
}

/// A card of one line has a marker that says that the task is complete, and the line if it may
/// be shown.
pub proof fn law_marker_says_that_the_task_is_complete(
    line: &str,
    trimmed: &str,
    subtext: bool,
    private: Vec<String>,
    is_private: bool,
    out: MarkerContent,
)
    requires
        !line@.contains('\n'),
        call_ensures(text::trim, (line,), trimmed),
        call_ensures(text::starts_with, (trimmed, "-#"), subtext),
        call_ensures(text::is_listed, (&private, trimmed), is_private),
        call_ensures(footer_only_background_marker_content, (line, &private), out),
    ensures
        ({
            let shown = trimmed@.len() > 0 && !subtext && !is_private;
            &&& shown ==> out.text@ == "⚙️ Background complete"@ + "\n"@ + trimmed@ && out.limit
                == Some(600usize)
            &&& !shown ==> out.text@ == "⚙️ Background complete"@ && out.limit is None
        }),
{
    lemma_no_separator(line@, '\n');
    lemma_shown_one_more(Seq::empty(), line@);
    assert(Seq::empty().push(line@) =~= seq![line@]);
    assert(marker::shown_lines(Seq::empty()) =~= Seq::<Seq<char>>::empty());
    let hidden = text::texts(private@);
    let t = trimmed@;
    assert(marker::public_lines(Seq::empty(), hidden) =~= Seq::<Seq<char>>::empty());
    assert(Seq::<Seq<char>>::empty().push(t).drop_last() =~= Seq::<Seq<char>>::empty());
    if t.len() > 0 && !subtext && !is_private {
        assert(marker::public_lines(Seq::empty().push(t), hidden) =~= Seq::empty().push(t));
        assert(text::joined(Seq::empty().push(t), "\n"@) == t);
    }
}

/// The marker of an event is the one of its card as it is first written.
pub proof fn law_event_marker_is_that_of_its_first_card(
    event: TaskCardEvent,
    task_card: &str,
    private: Vec<String>,
    card: String,
    text: &str,
    out: MarkerContent,
    expected: MarkerContent,
)
    requires
        call_ensures(
            TaskCardEvent::footer_only_marker_content,
            (&event, task_card, &private),
            out,
        ),
        call_ensures(TaskCardPayload::render, (&event.payload, 1u64, task_card), card),
        text@ == card@,
        call_ensures(footer_only_background_marker_content, (text, &private), expected),
    ensures
        out.text@ == expected.text@,
        out.limit == expected.limit,
{
}

// ---------------------------------------------------------------------------
// Starts
// ---------------------------------------------------------------------------
/// A start that is not given, or blank, is none. A timestamp with a zone is taken as it stands;
/// without one it has to be a local time that is one instant. The error says which it is not.
pub proof fn law_start_is_read_in_order(
    value: Option<&str>,
    blank: bool,
    rfc3339: Option<UtcInstant>,
    naive: Result<UtcInstant, String>,
    local: Option<UtcInstant>,
    r: Result<Option<UtcInstant>, String>,
)
    requires
        value is Some ==> call_ensures(text::blank, (value->0,), blank),
        call_ensures(resolve_started_at, (value, rfc3339, naive, local), r),
    ensures
        value is None ==> r is Ok && r->Ok_0 is None,
        value is Some && blank ==> r is Ok && r->Ok_0 is None,
        value is Some && !blank ==> {
            &&& rfc3339 matches Some(at) ==> r is Ok && r->Ok_0 == Some(at)
            &&& rfc3339 is None ==> match naive {
                Err(error) => r is Err && r->Err_0@
                    == "parse task response turn start timestamp: "@ + error@,
                Ok(_) => match local {
                    Some(at) => r is Ok && r->Ok_0 == Some(at),
                    None => r is Err && r->Err_0@
                        == "task response turn start timestamp is ambiguous in local time"@,
                },
            }
        },
{
}

/// A start is read from its text without the white space around it: one with a zone as the
/// instant that it denotes, and a local one as an instant less than a day from it.
pub proof fn law_start_is_what_its_text_denotes(
    value: &str,
    trimmed: &str,
    r: Result<Option<UtcInstant>, String>,
    none: Result<Option<UtcInstant>, String>,
)
    requires
        call_ensures(parse_turn_started_at, (Some(value),), r),
        call_ensures(parse_turn_started_at, (None,), none),
        call_ensures(text::trim, (value,), trimmed),
    ensures
        none is Ok && none->Ok_0 is None,
        trimmed@.len() == 0 ==> r is Ok && r->Ok_0 is None,
        trimmed@.len() > 0 ==> {
            let zoned = started_at::rfc3339_instant(trimmed@);
            let plain = started_at::naive_instant(trimmed@, "%Y-%m-%d %H:%M:%S"@);
            &&& zoned is Some ==> r is Ok && r->Ok_0 == zoned
            &&& zoned is None && plain is Err ==> r is Err
            &&& zoned is None && plain is Ok && r is Ok ==> {
                let at = r->Ok_0;
                &&& at is Some
                &&& at->0.nanos == plain->Ok_0.nanos
                &&& at->0.seconds - plain->Ok_0.seconds < 86400
                &&& plain->Ok_0.seconds - at->0.seconds < 86400
            }
        },
{
}

} // verus!
