//! The log of a session that the watcher killed.

use vstd::prelude::*;

use crate::json::{quote, quote_optional};
use crate::json;
use crate::text;

verus! {

/// How many of a channel's background workers are logged.
pub const MAX_LOGGED_WORKERS: usize = 32;

/// Where the watcher stood in the session's output.
#[derive(Debug, Clone, Copy, PartialEq, Eq)]
pub enum KillOffset {
    /// How far it had read.
    Current(u64),
    /// Where the evidence of a terminal error lay, where that is known.
    TerminalEvidence(Option<u64>),
}

/// What is logged of a session that the watcher killed.
#[derive(Debug)]
pub struct WatcherForcedKillLog {
    pub timestamp: String,
    pub session: String,
    pub pane_id: Option<String>,
    pub pane_pid: Option<u32>,
    pub offset: KillOffset,
    pub decision_reason: String,
    pub live_background_workers: Vec<String>,
}

/// The JSON of an optional number.
pub open spec fn number_json(n: Option<nat>) -> Seq<char> {
    match n {
        Some(n) => text::decimal(n),
        None => "null"@,
    }
}

/// The member of the logged object that says where the watcher stood.
pub open spec fn offset_json(offset: KillOffset) -> Seq<char> {
    match offset {
        KillOffset::Current(offset) => "\"current_offset\":"@ + text::decimal(offset as nat),
        KillOffset::TerminalEvidence(offset) => "\"terminal_evidence_offset\":"@ + number_json(
            match offset {
                Some(offset) => Some(offset as nat),
                None => None,
            },
        ),
    }
}

/// The JSON of each of several strings.
pub open spec fn strings_json(list: Seq<Seq<char>>) -> Seq<Seq<char>> {
    list.map_values(|s: Seq<char>| json::json_string(s))
}

/// The line that is logged: an object of JSON.
pub open spec fn log_line(record: WatcherForcedKillLog) -> Seq<char> {
    "{\"timestamp\":"@ + json::json_string(record.timestamp@) + ",\"session\":"@
        + json::json_string(record.session@) + ",\"pane_id\":"@ + json::optional_json(
        text::opt_text(record.pane_id),
    ) + ",\"pane_pid\":"@ + number_json(
        match record.pane_pid {
            Some(pid) => Some(pid as nat),
            None => None,
        },
    ) + ","@ + offset_json(record.offset) + ",\"decision_reason\":"@
        + json::json_string(record.decision_reason@) + ",\"live_background_workers\":["@
        + text::joined(strings_json(text::texts(record.live_background_workers@)), ","@) + "]}\n"@
}

fn quoted_list(list: &Vec<String>) -> (out: String)
    ensures
        out@ == text::joined(strings_json(text::texts(list@)), ","@),
{
    let ghost all = strings_json(text::texts(list@));
    let mut out: String = String::new();
    let mut i: usize = 0;
    assert(all.take(0) =~= Seq::<Seq<char>>::empty());
    while i < list.len()
        invariant
            all == strings_json(text::texts(list@)),
            i <= list@.len(),
            out@ == text::joined(all.take(i as int), ","@),
        decreases list@.len() - i,
    {
        proof {
            let next = all.take(i + 1);
            assert(next.drop_last() =~= all.take(i as int));
            assert(next.last() == json::json_string(list@[i as int]@));
        }
        let ghost before = out@;
        if i > 0 {
            out.append(",");
        }
        out.append(quote(list[i].as_str()).as_str());
        proof {
            if i == 0 {
                assert(before =~= Seq::<char>::empty());
                assert(out@ =~= json::json_string(list@[0]@));
            }
        }
        i += 1;
    }
    assert(all.take(i as int) =~= all);
    out
}

fn offset_member(offset: KillOffset) -> (out: String)
    ensures
        out@ == offset_json(offset),
{
    match offset {
        KillOffset::Current(offset) => {
            let mut out: String = "\"current_offset\":".to_owned();
            out.append(text::u64_text(offset).as_str());
            out
        },
        KillOffset::TerminalEvidence(offset) => {
            let mut out: String = "\"terminal_evidence_offset\":".to_owned();
            match offset {
                Some(offset) => out.append(text::u64_text(offset).as_str()),
                None => out.append("null"),
            }
            out
        },
    }
}

/// The lines of a block, trimmed, that are not empty.
pub open spec fn filled_lines(lines: Seq<Seq<char>>) -> Seq<Seq<char>>
    decreases lines.len(),
{
    if lines.len() == 0 {
        lines
    } else {
        let kept = filled_lines(lines.drop_last());
        let line = text::trimmed(lines.last());
        if line.len() > 0 {
            kept.push(line)
        } else {
            kept
        }
    }
}

/// The workers of a rendered block: one on each line that is not empty, and no more
/// than `MAX_LOGGED_WORKERS` of them.
pub open spec fn workers_of(block: Option<Seq<char>>) -> Seq<Seq<char>> {
    match block {
        Some(block) => {
            let all = filled_lines(text::split_on(block, '\n'));
            if all.len() > MAX_LOGGED_WORKERS {
                all.take(MAX_LOGGED_WORKERS as int)
            } else {
                all
            }
        },
        None => Seq::empty(),
    }
}

proof fn lemma_more_lines_keep_the_first(lines: Seq<Seq<char>>, n: int)
    requires
        0 <= n <= lines.len(),
    ensures
        filled_lines(lines.take(n)).len() <= filled_lines(lines).len(),
        filled_lines(lines).take(filled_lines(lines.take(n)).len() as int) == filled_lines(
            lines.take(n),
        ),
    decreases lines.len() - n,
{
    if n == lines.len() {
        assert(lines.take(n) =~= lines);
        assert(filled_lines(lines).take(filled_lines(lines).len() as int) =~= filled_lines(lines));
    } else {
        lemma_more_lines_keep_the_first(lines, n + 1);
        let longer = filled_lines(lines.take(n + 1));
        let shorter = filled_lines(lines.take(n));
        assert(lines.take(n + 1).drop_last() =~= lines.take(n));
        assert(longer.take(shorter.len() as int) =~= shorter);
        assert(filled_lines(lines).take(shorter.len() as int) =~= filled_lines(lines).take(
            longer.len() as int,
        ).take(shorter.len() as int));
    }
}

/// The workers that a rendered block of live events names, before each is cut to the
/// width of a log line.
pub fn live_background_workers(block: Option<&str>) -> (out: Vec<String>)
    ensures
        text::texts(out@) == workers_of(
            match block {
                Some(block) => Some(block@),
                None => None,
            },
        ),
{
    let mut out: Vec<String> = Vec::new();
    assert(text::texts(out@) =~= Seq::<Seq<char>>::empty());
    let block = match block {
        Some(block) => block,
        None => {
            return out;
        },
    };
    let lines = text::split(block, '\n');
    let ghost all = text::split_on(block@, '\n');
    let mut i: usize = 0;
    assert(text::texts(out@) =~= filled_lines(all.take(0)));
    while i < lines.len() && out.len() < MAX_LOGGED_WORKERS
        invariant
            all == text::texts(lines@),
            i <= lines@.len(),
            out@.len() <= MAX_LOGGED_WORKERS,
            text::texts(out@) == filled_lines(all.take(i as int)),
        decreases lines@.len() - i,
    {
        let line = text::trim(lines[i].as_str());
        proof {
            let next = all.take(i + 1);
            assert(next.drop_last() =~= all.take(i as int));
            assert(next.last() == lines@[i as int]@);
        }
        if !line.is_empty() {
            let ghost before = out@;
            out.push(line.to_owned());
            assert(text::texts(out@) =~= text::texts(before).push(line@));
        }
        i += 1;
    }
    proof {
        lemma_more_lines_keep_the_first(all, i as int);
        if i == lines@.len() {
            assert(all.take(i as int) =~= all);
            assert(filled_lines(all).take(filled_lines(all).len() as int) =~= filled_lines(all));
        }
        if filled_lines(all).len() == MAX_LOGGED_WORKERS {
            assert(filled_lines(all).take(MAX_LOGGED_WORKERS as int) =~= filled_lines(all));
        }
    }
    out
}

/// The line that is logged of a session that the watcher killed.
pub fn write_watcher_forced_kill_log(record: &WatcherForcedKillLog) -> (line: String)
    ensures
        line@ == log_line(*record),
{
    let mut line: String = "{\"timestamp\":".to_owned();
    line.append(quote(record.timestamp.as_str()).as_str());
    line.append(",\"session\":");
    line.append(quote(record.session.as_str()).as_str());
    line.append(",\"pane_id\":");
    line.append(quote_optional(&record.pane_id).as_str());
    line.append(",\"pane_pid\":");
    match record.pane_pid {
        Some(pid) => line.append(text::u64_text(pid as u64).as_str()),
        None => line.append("null"),
    }
    line.append(",");
    line.append(offset_member(record.offset).as_str());
    line.append(",\"decision_reason\":");
    line.append(quote(record.decision_reason.as_str()).as_str());
    line.append(",\"live_background_workers\":[");
    line.append(quoted_list(&record.live_background_workers).as_str());
    line.append("]}\n");
    line
}

} // verus!
