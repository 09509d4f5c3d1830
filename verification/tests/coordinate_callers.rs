//! The terminal coordinates are used by nobody yet. These tests are of the scanners by
//! which a source text is searched for a use of them.

use agentdesk_discord::terminal_coordinate::owned::CanonicalC;

const API_IDENTIFIERS: &[&str] = &[
    "terminal_coordinate",
    "CanonicalC",
    "SourceRange",
    "RouteFamily",
    "TurnIdentity",
    "TerminalCoordinate",
    "TerminalCoordinateCandidate",
    "TerminalCoordinateError",
    "validate_terminal_coordinate",
];

fn blank(byte: u8) -> u8 {
    if byte == b'\n' {
        b'\n'
    } else {
        b' '
    }
}

fn strip_comments_and_strings(source: &str) -> String {
    let bytes = source.as_bytes();
    let mut clean = Vec::with_capacity(bytes.len());
    let mut index = 0;
    let mut block_depth = 0usize;

    while index < bytes.len() {
        if block_depth != 0 {
            if bytes[index..].starts_with(b"/*") {
                block_depth += 1;
                clean.extend_from_slice(b"  ");
                index += 2;
            } else if bytes[index..].starts_with(b"*/") {
                block_depth -= 1;
                clean.extend_from_slice(b"  ");
                index += 2;
            } else {
                clean.push(blank(bytes[index]));
                index += 1;
            }
            continue;
        }

        if bytes[index..].starts_with(b"//") {
            while index < bytes.len() && bytes[index] != b'\n' {
                clean.push(b' ');
                index += 1;
            }
            continue;
        }
        if bytes[index..].starts_with(b"/*") {
            block_depth = 1;
            clean.extend_from_slice(b"  ");
            index += 2;
            continue;
        }
        let raw_prefix = if bytes[index] == b'r' {
            Some(index + 1)
        } else if bytes[index] == b'b' && bytes.get(index + 1) == Some(&b'r') {
            Some(index + 2)
        } else {
            None
        };
        if let Some(first) = raw_prefix {
            let mut quote = first;
            while bytes.get(quote) == Some(&b'#') {
                quote += 1;
            }
            if bytes.get(quote) == Some(&b'"') {
                let terminator = format!("\"{}", "#".repeat(quote - first));
                let terminator = terminator.as_bytes();
                while index <= quote {
                    clean.push(b' ');
                    index += 1;
                }
                while index < bytes.len() {
                    if bytes[index..].starts_with(terminator) {
                        clean.extend(std::iter::repeat(b' ').take(terminator.len()));
                        index += terminator.len();
                        break;
                    }
                    clean.push(blank(bytes[index]));
                    index += 1;
                }
                continue;
            }
        }

        if bytes[index] == b'b' && bytes.get(index + 1) == Some(&b'"') {
            clean.push(b' ');
            index += 1;
        }
        if bytes[index] == b'"' {
            clean.push(b' ');
            index += 1;
            while index < bytes.len() {
                if bytes[index] == b'\\' {
                    clean.push(b' ');
                    index += 1;
                    if index < bytes.len() {
                        clean.push(blank(bytes[index]));
                        index += 1;
                    }
                } else if bytes[index] == b'"' {
                    clean.push(b' ');
                    index += 1;
                    break;
                } else {
                    clean.push(blank(bytes[index]));
                    index += 1;
                }
            }
            continue;
        }

        clean.push(bytes[index]);
        index += 1;
    }

    String::from_utf8(clean).expect("source remains utf-8")
}

fn identifiers(source: &str) -> Vec<&str> {
    source
        .split(|character: char| !(character.is_ascii_alphanumeric() || character == '_'))
        .filter(|token| !token.is_empty())
        .collect()
}

fn forbidden_uses(source: &str, parent_module: bool) -> Vec<String> {
    let mut clean = strip_comments_and_strings(source);
    if parent_module {
        clean = clean.replacen("mod terminal_coordinate;", "", 1);
    }
    identifiers(&clean)
        .into_iter()
        .filter(|token| API_IDENTIFIERS.contains(token))
        .map(str::to_owned)
        .collect()
}

#[test]
fn caller_zero_gate_kills_representative_mutations() {
    for mutation in [
        "let _ = CanonicalC::new(1);",
        "let _ = RouteFamily::Watcher;",
        "let _ = TerminalCoordinateCandidate::new(1, None, 0, identity, route);",
        "let _ = validate_terminal_coordinate(candidate);",
        "use crate::services::discord::terminal_coordinate::TurnIdentity;",
    ] {
        assert!(
            !forbidden_uses(mutation, false).is_empty(),
            "mutation survived: {mutation}"
        );
    }

    let inert = r##"
        // CanonicalC RouteFamily::Watcher
        /* TerminalCoordinateCandidate::new */
        let normal = "validate_terminal_coordinate";
        let raw = r#"terminal_coordinate::TurnIdentity"#;
    "##;
    assert!(forbidden_uses(inert, false).is_empty());
    assert!(forbidden_uses("mod terminal_coordinate;", true).is_empty());
    assert!(CanonicalC::new(1).is_some());
}

fn raw_string_start(characters: &[char], index: usize) -> Option<(usize, usize)> {
    let mut cursor = index;
    if matches!(characters.get(cursor), Some('b' | 'c')) {
        cursor += 1;
    }
    if characters.get(cursor) != Some(&'r') {
        return None;
    }
    cursor += 1;
    let hash_start = cursor;
    while characters.get(cursor) == Some(&'#') {
        cursor += 1;
    }
    (characters.get(cursor) == Some(&'"')).then_some((cursor - hash_start, cursor + 1))
}

#[derive(Clone, Copy)]
enum State {
    Code,
    LineComment,
    BlockComment(usize),
    Text,
    RawText(usize),
}

fn rust_identifiers(source: &str) -> Vec<String> {
    let characters: Vec<char> = source.chars().collect();
    let mut state = State::Code;
    let mut found = Vec::new();
    let mut index = 0;
    while index < characters.len() {
        if matches!(state, State::Code) {
            if let Some((hashes, after_opening_quote)) = raw_string_start(&characters, index) {
                state = State::RawText(hashes);
                index = after_opening_quote;
                continue;
            }
        }
        match state {
            State::Code if characters[index] == '/' && characters.get(index + 1) == Some(&'/') => {
                state = State::LineComment;
                index += 2;
            }
            State::Code if characters[index] == '/' && characters.get(index + 1) == Some(&'*') => {
                state = State::BlockComment(1);
                index += 2;
            }
            State::Code if characters[index] == '"' => {
                state = State::Text;
                index += 1;
            }
            State::Code if characters[index].is_ascii_alphabetic() || characters[index] == '_' => {
                let start = index;
                index += 1;
                while index < characters.len()
                    && (characters[index].is_ascii_alphanumeric() || characters[index] == '_')
                {
                    index += 1;
                }
                found.push(characters[start..index].iter().collect());
            }
            State::Code => index += 1,
            State::LineComment if characters[index] == '\n' => {
                state = State::Code;
                index += 1;
            }
            State::LineComment => index += 1,
            State::BlockComment(depth)
                if characters[index] == '/' && characters.get(index + 1) == Some(&'*') =>
            {
                state = State::BlockComment(depth + 1);
                index += 2;
            }
            State::BlockComment(depth)
                if characters[index] == '*' && characters.get(index + 1) == Some(&'/') =>
            {
                state = if depth == 1 {
                    State::Code
                } else {
                    State::BlockComment(depth - 1)
                };
                index += 2;
            }
            State::BlockComment(_) => index += 1,
            State::Text if characters[index] == '\\' => index += 2,
            State::Text if characters[index] == '"' => {
                state = State::Code;
                index += 1;
            }
            State::Text => index += 1,
            State::RawText(hashes)
                if characters[index] == '"'
                    && characters.get(index + 1..index + 1 + hashes)
                        == Some(vec!['#'; hashes].as_slice()) =>
            {
                state = State::Code;
                index += hashes + 1;
            }
            State::RawText(_) => index += 1,
        }
    }
    found
}

#[test]
fn identifier_census_ignores_comments_and_string_literals() {
    let source = r####"
        // TerminalCoordinateCandidate
        /* validate_terminal_coordinate_candidate */
        const NORMAL: &str = "TerminalCoordinateCandidate";
        const RAW: &str = r###"validate_terminal_coordinate_candidate \" nested"###;
        TerminalCoordinateCandidate::new
    "####;
    assert_eq!(
        rust_identifiers(source)
            .into_iter()
            .filter(|identifier| {
                matches!(
                    identifier.as_str(),
                    "TerminalCoordinateCandidate" | "validate_terminal_coordinate_candidate"
                )
            })
            .collect::<Vec<_>>(),
        ["TerminalCoordinateCandidate"]
    );
}
