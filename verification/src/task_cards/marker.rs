//! The marker of a background task that is shown in the footer only.

use vstd::prelude::*;

use crate::task_cards::event::TaskCardEvent;
use crate::task_cards::event;
use crate::text;

verus! {

/// After how many characters a marker is cut.
pub const FOOTER_ONLY_MARKER_DETAIL_LIMIT: usize = 600;

/// The text of a marker before it is cut, and after how many characters it is cut.
/// A marker that only says that a task is complete is not cut.
#[derive(Debug, PartialEq, Eq)]
pub struct MarkerContent {
    pub text: String,
    pub limit: Option<usize>,
}

/// A line that is neither empty nor a subtext.
pub open spec fn is_shown_line(line: Seq<char>) -> bool {
    line.len() > 0 && !text::has_prefix(line, "-#"@)
}

/// The lines of `s`, trimmed, that are neither empty nor subtexts.
pub open spec fn shown_lines(lines: Seq<Seq<char>>) -> Seq<Seq<char>>
    decreases lines.len(),
{
    if lines.len() == 0 {
        lines
    } else {
        let kept = shown_lines(lines.drop_last());
        let line = text::trimmed(lines.last());
        if is_shown_line(line) {
            kept.push(line)
        } else {
            kept
        }
    }
}

/// The lines of a card that its marker may show.
pub fn marker_lines(rendered_card: &str) -> (out: Vec<String>)
    ensures
        text::texts(out@) == shown_lines(text::split_on(rendered_card@, '\n')),
{
    let lines = text::split(rendered_card, '\n');
    let ghost all = text::split_on(rendered_card@, '\n');
    let mut out: Vec<String> = Vec::new();
    let mut i: usize = 0;
    assert(text::texts(out@) =~= shown_lines(all.take(0)));
    while i < lines.len()
        invariant
            all == text::texts(lines@),
            i <= lines@.len(),
            text::texts(out@) == shown_lines(all.take(i as int)),
        decreases lines@.len() - i,
    {
        let line = text::trim(lines[i].as_str());
        proof {
            let next = all.take(i + 1);
            assert(next.drop_last() =~= all.take(i as int));
            assert(next.last() == lines@[i as int]@);
        }
        if !line.is_empty() && !text::starts_with(line, "-#") {
            let ghost before = out@;
            out.push(line.to_owned());
            assert(text::texts(out@) =~= text::texts(before).push(line@));
        }
        i += 1;
    }
    assert(all.take(i as int) =~= all);
    out
}

/// The lines that are not among the private ones.
pub open spec fn public_lines(lines: Seq<Seq<char>>, private: Seq<Seq<char>>) -> Seq<Seq<char>>
    decreases lines.len(),
{
    if lines.len() == 0 {
        Seq::empty()
    } else {
        let kept = public_lines(lines.drop_last(), private);
        if private.contains(lines.last()) {
            kept
        } else {
            kept.push(lines.last())
        }
    }
}

/// What a marker shows of a card beside its first line.
pub open spec fn marker_detail(rendered_card: Seq<char>, private: Seq<Seq<char>>) -> Seq<char> {
    text::joined(
        public_lines(shown_lines(text::split_on(rendered_card, '\n')), private),
        "\n"@,
    )
}

/// The marker of a card before it is cut.
pub open spec fn marker_text(rendered_card: Seq<char>, private: Seq<Seq<char>>) -> Seq<char> {
    let detail = marker_detail(rendered_card, private);
    if detail.len() == 0 {
        "⚙️ Background complete"@
    } else {
        "⚙️ Background complete"@ + "\n"@ + detail
    }
}

/// After how many characters the marker of a card is cut, if it is cut at all.
pub open spec fn marker_limit(rendered_card: Seq<char>, private: Seq<Seq<char>>) -> Option<usize> {
    if marker_detail(rendered_card, private).len() == 0 {
        None
    } else {
        Some(FOOTER_ONLY_MARKER_DETAIL_LIMIT)
    }
}

/// The marker of a card before it is cut, and where it is cut. `private_lines` are the
/// lines of the card that hold an anchor of a private task; they are not shown.
pub fn footer_only_background_marker_content(
    rendered_card: &str,
    private_lines: &Vec<String>,
) -> (out: MarkerContent)
    ensures
        out.text@ == marker_text(rendered_card@, text::texts(private_lines@)),
        out.limit == marker_limit(rendered_card@, text::texts(private_lines@)),
{
    let lines = marker_lines(rendered_card);
    let ghost all = text::texts(lines@);
    let ghost private = text::texts(private_lines@);
    let mut detail: String = String::new();
    let ghost mut done: Seq<Seq<char>> = Seq::empty();
    let mut started = false;
    let mut i: usize = 0;
    assert(public_lines(all.take(0), private) =~= done);
    while i < lines.len()
        invariant
            all == text::texts(lines@),
            private == text::texts(private_lines@),
            i <= lines@.len(),
            done == public_lines(all.take(i as int), private),
            started == (done.len() > 0),
            detail@ == text::joined(done, "\n"@),
        decreases lines@.len() - i,
    {
        proof {
            let next = all.take(i + 1);
            assert(next.drop_last() =~= all.take(i as int));
            assert(next.last() == lines@[i as int]@);
        }
        if !text::is_listed(private_lines, lines[i].as_str()) {
            proof {
                let next = done.push(lines@[i as int]@);
                assert(next.drop_last() =~= done);
            }
            if started {
                detail.append("\n");
            }
            started = true;
            detail.append(lines[i].as_str());
            proof {
                if done.len() == 0 {
                    assert(detail@ =~= lines@[i as int]@);
                }
                done = done.push(lines@[i as int]@);
            }
        }
        i += 1;
    }
    assert(all.take(i as int) =~= all);
    let mut out: String = "⚙️ Background complete".to_owned();
    if detail.as_str().is_empty() {
        return MarkerContent { text: out, limit: None };
    }
    out.append("\n");
    out.append(detail.as_str());
    MarkerContent { text: out, limit: Some(FOOTER_ONLY_MARKER_DETAIL_LIMIT) }
}

impl TaskCardEvent {
    /// The marker of the event's card as it is first written, before it is cut, and
    /// where it is cut. `task_card` is the card of a task notification.
    pub fn footer_only_marker_content(&self, task_card: &str, private_lines: &Vec<String>) -> (out:
        MarkerContent)
        ensures
            out.text@ == marker_text(
                event::rendered(self.payload, 1, task_card@),
                text::texts(private_lines@),
            ),
            out.limit == marker_limit(
                event::rendered(self.payload, 1, task_card@),
                text::texts(private_lines@),
            ),
    {
        footer_only_background_marker_content(
            self.payload.render(1, task_card).as_str(),
            private_lines,
        )
    }
}

} // verus!
