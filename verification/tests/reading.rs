use agentdesk_discord::native_codex::{
    fold_line_outcome, native_codex_line, process_native_codex_messages, StreamLineState,
    StreamMessage, WatcherLineOutcome, WatcherTerminalKind,
};
use agentdesk_discord::text;
use agentdesk_discord::watcher::chunk_forward::{
    forward_turn_chunk_to_supervisor_relay, forwarded_chunk, ForwardKind,
};
use agentdesk_discord::watcher::jsonl::{
    read_jsonl_chunk_at_attach, read_jsonl_chunk_contiguous,
};
use agentdesk_discord::watcher::output_guard::{
    guard_rollover, watcher_rollover_action, ProviderOutputVerdict, WatcherRolloverAction,
};
use agentdesk_discord::watcher::source_epoch::{
    authority_for_decoded_text, merged_source_stamp, read_watcher_source_chunk,
    source_authority_for_read, SourceFileIdentity, SourceStamp, WatcherSourceAuthority,
};
use agentdesk_discord::watcher::utf8_decoder::Utf8ChunkDecoder;

fn notification(content: &str) -> String {
    format!(r#"{{"content":"{content}","subtype":"task_notification","type":"system"}}"#)
}

#[test]
fn attach_offset_discards_only_the_persisted_partial_record() {
    let partial = notification("review mentions rate limit as ordinary prose");
    let complete = r#"{"is_error":false,"result":"completed","type":"result"}"#;
    let contents = format!("{partial}\n{complete}\n").into_bytes();
    let offset = (partial.find("rate limit").expect("phrase") + 2) as u64;

    let chunk = read_jsonl_chunk_at_attach(&contents, offset);

    assert!(chunk.skipped_partial_record);
    assert_eq!(
        String::from_utf8(chunk.data).expect("utf8"),
        format!("{complete}\n")
    );
    assert_eq!(chunk.start_offset, partial.len() as u64 + 1);
}

#[test]
fn contiguous_read_preserves_a_record_larger_than_the_read_cap() {
    let record = notification(&format!(
        "review discusses oauth and unauthorized handling: {}",
        "x".repeat(20_000)
    ));
    let result = r#"{"is_error":false,"result":"completed","subtype":"success","type":"result"}"#;
    let contents = format!("{record}\n{result}\n").into_bytes();

    let first = read_jsonl_chunk_at_attach(&contents, 0);
    assert_eq!(first.data.len(), 16_384);
    let second = read_jsonl_chunk_contiguous(&contents, first.end_offset);

    assert!(!second.skipped_partial_record);
    let joined = format!(
        "{}{}",
        String::from_utf8(first.data).expect("first utf8"),
        String::from_utf8(second.data).expect("second utf8")
    );
    assert_eq!(joined, format!("{record}\n{result}\n"));
}

#[test]
fn read_at_a_boundary_skips_nothing() {
    let contents = b"ab\ncd\n";
    let chunk = read_jsonl_chunk_at_attach(contents, 3);
    assert!(!chunk.skipped_partial_record);
    assert_eq!((chunk.start_offset, chunk.end_offset), (3, 6));
    assert_eq!(chunk.data, b"cd\n");
    let behind = read_jsonl_chunk_at_attach(contents, 99);
    assert!(!behind.skipped_partial_record);
    assert_eq!((behind.start_offset, behind.end_offset), (6, 6));
    let open = read_jsonl_chunk_at_attach(b"ab", 1);
    assert!(open.skipped_partial_record);
    assert_eq!((open.start_offset, open.end_offset), (2, 2));
    let inside = read_jsonl_chunk_contiguous(contents, 1);
    assert_eq!(inside.data, b"b\ncd\n");
}

fn unix(ino: u64) -> SourceFileIdentity {
    SourceFileIdentity::Unix { dev: 1, ino }
}

fn stamp(ino: u64) -> Option<SourceStamp> {
    Some(SourceStamp { file: unix(ino), epoch: 4 })
}

fn base() -> WatcherSourceAuthority {
    WatcherSourceAuthority { generation_mtime_ns: 77, reset_incarnation: 9, source_stamp: None }
}

#[test]
fn source_epoch_read_same_fd_identity_mode_resample_and_mixed_utf8_policy() {
    let (old_bytes, old_end) = read_watcher_source_chunk(b"old-bytes", 0);
    let (new_bytes, _) = read_watcher_source_chunk(b"new-bytes", 0);
    assert_eq!(
        (old_bytes.as_slice(), new_bytes.as_slice()),
        (b"old-bytes".as_slice(), b"new-bytes".as_slice())
    );
    assert_eq!(old_end, 9);
    let first = source_authority_for_read(base(), true, stamp(1));
    let known = first.source_stamp;
    let legacy = source_authority_for_read(first, false, stamp(2));
    assert_eq!(
        (
            legacy.source_stamp,
            legacy.generation_mtime_ns,
            legacy.reset_incarnation
        ),
        (None, 77, 9)
    );
    let next = source_authority_for_read(legacy, true, stamp(2));
    assert_ne!(known, next.source_stamp);
    assert_eq!(
        (
            merged_source_stamp(Some(known), known),
            merged_source_stamp(Some(known), next.source_stamp),
            merged_source_stamp(Some(known), None),
            merged_source_stamp(Some(None), known)
        ),
        (known, None, None, None)
    );
    assert_eq!(merged_source_stamp(None, known), known);
    let mixed = authority_for_decoded_text(next, true);
    assert_eq!(
        (
            mixed.source_stamp,
            mixed.generation_mtime_ns,
            mixed.reset_incarnation
        ),
        (None, 77, 9)
    );
    assert_eq!(authority_for_decoded_text(next, false), next);
}

#[test]
fn utf8_chunk_decoder_same_fd_identity_mode_resample_and_mixed_utf8_policy() {
    let mut decoder = Utf8ChunkDecoder::default();
    let bytes = "안".as_bytes();
    assert!(!decoder.decode(&bytes[..1], 0).mixed_read_provenance);
    assert!(decoder.has_pending());
    assert!(decoder.decode(&bytes[1..], 1).mixed_read_provenance);
}

#[test]
fn source_read_behind_the_end_is_empty() {
    assert_eq!(read_watcher_source_chunk(b"abc", 7), (Vec::new(), 7));
    assert_eq!(read_watcher_source_chunk(b"abc", 1), (b"bc".to_vec(), 3));
    let long = vec![b'x'; 20_000];
    let (bytes, end) = read_watcher_source_chunk(&long, 10);
    assert_eq!((bytes.len(), end), (16_384, 16_394));
}

#[test]
fn split_character_is_put_together_again() {
    let mut decoder = Utf8ChunkDecoder::default();
    let bytes = "a안b".as_bytes();
    let first = decoder.decode(&bytes[..3], 100);
    assert_eq!((first.start_offset, first.text.as_str()), (Some(100), "a"));
    let second = decoder.decode(&bytes[3..], 103);
    assert_eq!((second.start_offset, second.text.as_str()), (Some(101), "안b"));
    assert!(second.mixed_read_provenance);
    assert!(!decoder.has_pending());
    let none = decoder.decode(b"", 9);
    assert_eq!((none.start_offset, none.text.as_str()), (None, ""));
}

#[test]
fn every_cut_of_a_stream_keeps_its_places() {
    let text = "a안𝄞é";
    let bytes = text.as_bytes();
    for first in 1..bytes.len() - 1 {
        for second in first + 1..bytes.len() {
            let mut decoder = Utf8ChunkDecoder::default();
            let mut read = String::new();
            for (from, to) in [(0, first), (first, second), (second, bytes.len())] {
                let had_pending = decoder.has_pending();
                let chunk = decoder.decode(&bytes[from..to], 100 + from as u64);
                let place = 100 + read.len() as u64;
                assert_eq!(
                    chunk.start_offset,
                    if chunk.text.is_empty() { None } else { Some(place) }
                );
                assert_eq!(chunk.mixed_read_provenance, had_pending && !chunk.text.is_empty());
                read.push_str(&chunk.text);
            }
            assert_eq!(read, text);
            assert!(!decoder.has_pending());
        }
    }
}

#[test]
fn invalid_bytes_are_replaced() {
    let mut decoder = Utf8ChunkDecoder::default();
    let chunk = decoder.decode(b"a\xffb", 5);
    assert_eq!((chunk.start_offset, chunk.text.as_str()), (Some(5), "a\u{fffd}b"));
    assert!(!chunk.mixed_read_provenance);
    decoder.decode("안".as_bytes().split_at(2).0, 8);
    decoder.clear_pending();
    assert!(!decoder.has_pending());
    assert_eq!(decoder.decode(b"x", 1).text, "x");
}

#[test]
fn forwarded_text_has_its_place_in_the_source() {
    let chunk = forwarded_chunk("안b", 10, 100);
    assert_eq!(chunk.text, "안b");
    assert_eq!(chunk.source_span, Some((106, 110)));
    assert_eq!(forwarded_chunk("", 10, 100).source_span, None);
    assert_eq!(
        forwarded_chunk("ab", 5, u64::MAX).source_span,
        Some((u64::MAX - 2, u64::MAX))
    );
    assert_eq!(
        forward_turn_chunk_to_supervisor_relay(true, 3),
        ForwardKind::Terminal { leftover_len: 3 }
    );
    assert_eq!(
        forward_turn_chunk_to_supervisor_relay(false, 3),
        ForwardKind::Streaming
    );
}

#[test]
fn invariant_4371_watcher_rollover_never_selects_raw_control_data() {
    let safe_body = "provider output withheld";
    let blocked =
        "prefix [SYSTEM NOTIFICATION - NOT USER INPUT] <output-file>/private/x</output-file>";
    let action = watcher_rollover_action(ProviderOutputVerdict::Blocked { safe_body }, blocked);
    assert_eq!(action, WatcherRolloverAction::SendSafe(safe_body));
    let WatcherRolloverAction::SendSafe(body) = action else {
        panic!("blocked frame selected raw delivery");
    };
    assert!(!body.contains("<output-file>"));

    let partial = "safe prefix [SYSTEM NOTIF";
    assert_eq!(
        watcher_rollover_action(ProviderOutputVerdict::Hold, partial),
        WatcherRolloverAction::Hold
    );
    assert_eq!(
        watcher_rollover_action(ProviderOutputVerdict::Clean, "text"),
        WatcherRolloverAction::SendRaw("text")
    );
    assert_eq!(guard_rollover(WatcherRolloverAction::SendRaw("x")), (true, None));
    assert_eq!(guard_rollover(WatcherRolloverAction::Hold), (false, None));
    assert_eq!(
        guard_rollover(WatcherRolloverAction::SendSafe("x")),
        (false, Some("x"))
    );
}

fn fresh_state() -> StreamLineState {
    StreamLineState {
        last_session_id: None,
        last_model: None,
        accum_input_tokens: 0,
        accum_cache_create_tokens: 0,
        accum_cache_read_tokens: 0,
        accum_output_tokens: 0,
    }
}

fn parsed(line: Option<String>) -> serde_json::Value {
    let line = line.expect("an event");
    assert!(line.ends_with('\n'));
    serde_json::from_str(&line).expect("valid JSON")
}

#[test]
fn rollout_messages_become_events() {
    let text = parsed(native_codex_line(&StreamMessage::Text {
        content: "say \"hi\"\n".to_string(),
    }));
    assert_eq!(text["type"], "content_block_delta");
    assert_eq!(text["delta"]["text"], "say \"hi\"\n");

    let tool = parsed(native_codex_line(&StreamMessage::ToolUse {
        name: "shell".to_string(),
        input: r#"{ "b": [1, 2], "a": null }"#.to_string(),
        tool_use_id: None,
    }));
    assert_eq!(tool["message"]["content"][0]["name"], "shell");
    assert_eq!(tool["message"]["content"][0]["input"]["b"][1], 2);
    assert!(tool["message"]["content"][0]["id"].is_null());

    let plain = parsed(native_codex_line(&StreamMessage::ToolUse {
        name: "shell".to_string(),
        input: "not json".to_string(),
        tool_use_id: Some("t".to_string()),
    }));
    assert_eq!(plain["message"]["content"][0]["input"], "not json");
    assert_eq!(plain["message"]["content"][0]["id"], "t");
    let thinking = parsed(native_codex_line(&StreamMessage::Thinking));
    assert_eq!(thinking["message"]["content"][0]["type"], "thinking");
    assert_eq!(native_codex_line(&StreamMessage::Other), None);
}

#[test]
fn rollout_messages_update_what_is_known() {
    let mut state = fresh_state();
    let mut response = String::new();
    let line = process_native_codex_messages(
        StreamMessage::Init { session_id: "s".to_string() },
        &mut state,
        &mut response,
    );
    assert_eq!(line, None);
    assert_eq!(state.last_session_id.as_deref(), Some("s"));
    let mut result = WatcherLineOutcome {
        assistant_text_seen: false,
        found_result: false,
        terminal_kind: None,
    };
    fold_line_outcome(
        &mut result,
        WatcherLineOutcome {
            assistant_text_seen: true,
            found_result: true,
            terminal_kind: Some(WatcherTerminalKind::HardResult),
        },
    );
    assert!(result.assistant_text_seen && result.found_result);
    assert_eq!(result.terminal_kind, Some(WatcherTerminalKind::HardResult));
}

#[test]
fn text_helpers_have_exact_values() {
    assert_eq!(text::u64_text(0), "0");
    assert_eq!(text::u64_text(u64::MAX), "18446744073709551615");
    assert_eq!(text::i64_text(i64::MIN), "-9223372036854775808");
    assert_eq!(text::i32_text(-5), "-5");
    assert_eq!(text::u64_padded(7, 3), "007");
    assert_eq!(text::u64_padded(1234, 3), "1234");
    assert_eq!(text::parse_unsigned("+12", 20), Some(12));
    assert_eq!(text::parse_unsigned("21", 20), None);
    assert_eq!(text::parse_unsigned("", 20), None);
    assert_eq!(text::parse_unsigned("-1", 20), None);
    assert_eq!(text::trim("\u{3000} a b \n"), "a b");
    assert_eq!(text::squeeze(" a \n b\u{a0}c "), "a b c");
    assert_eq!(text::to_ascii_lower("ÀBc"), "Àbc");
    assert_eq!(text::split("a,,b", ','), ["a", "", "b"]);
    assert_eq!(text::tail_from("a안b", 4), Some("b"));
    assert_eq!(text::tail_from("a안b", 2), None);
    assert_eq!(text::tail_from("ab", 3), None);
    assert_eq!(text::strip_prefix("abc", "ab"), Some("c"));
    assert_eq!(text::strip_suffix("abc", "bc"), Some("a"));
    assert!(text::contains("abc", ""));
    assert!(text::plain_name("codex"));
    assert!(!text::plain_name("../codex"));
    assert!(!text::plain_name(""));
}

#[test]
fn read_needs_the_rest_of_the_file_only() {
    let contents = b"first\nsecond\nthird\n";
    for offset in 1..=contents.len() {
        let base = offset - 1;
        let whole = read_jsonl_chunk_at_attach(contents, offset as u64);
        let rest = read_jsonl_chunk_at_attach(&contents[base..], 1);
        assert_eq!(rest.data, whole.data);
        assert_eq!(rest.start_offset + base as u64, whole.start_offset);
        assert_eq!(rest.end_offset + base as u64, whole.end_offset);
        assert_eq!(rest.skipped_partial_record, whole.skipped_partial_record);
    }
}
