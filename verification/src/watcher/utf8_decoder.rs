//! Decoding the output of a session, read in chunks that may end inside a character.

use vstd::prelude::*;
use vstd::utf8::{decode_utf8, encode_utf8, valid_utf8};

use crate::bytes;

verus! {

// ---------------------------------------------------------------------------
// UTF-8 in std
// ---------------------------------------------------------------------------
/// More bytes can make `bytes` valid UTF-8: they end inside a character, if they end
/// anywhere wrong.
pub open spec fn begins_utf8(bytes: Seq<u8>) -> bool {
    exists|more: Seq<u8>| #[trigger] valid_utf8(bytes + more)
}

/// `n` bytes are the longest valid beginning of `bytes`.
pub open spec fn longest_valid(bytes: Seq<u8>, n: int) -> bool {
    &&& 0 <= n <= bytes.len()
    &&& valid_utf8(bytes.take(n))
    &&& forall|m: int| n < m <= bytes.len() ==> !valid_utf8(#[trigger] bytes.take(m))
}

/// Why bytes are not valid UTF-8: how long their longest valid beginning is, and
/// whether they only end too early.
pub struct Utf8Fault {
    pub valid_up_to: usize,
    pub incomplete: bool,
}

/// Calls `std::str::from_utf8`. It accepts exactly valid UTF-8 and gives the text
/// with these bytes. Of other bytes it tells the longest valid beginning
/// (`Utf8Error::valid_up_to`), and whether they just end inside a character, which
/// more bytes could complete (`Utf8Error::error_len` is `None`).
#[verifier::external_body]
fn check_utf8(input: &[u8]) -> (r: Result<String, Utf8Fault>)
    ensures
        match r {
            Ok(text) => valid_utf8(input@) && encode_utf8(text@) == input@,
            Err(fault) => {
                &&& !valid_utf8(input@)
                &&& longest_valid(input@, fault.valid_up_to as int)
                &&& fault.incomplete == begins_utf8(input@)
            },
        },
{
    std::str::from_utf8(input).map(|text| text.to_owned()).map_err(
        |error| Utf8Fault {
            valid_up_to: error.valid_up_to(),
            incomplete: error.error_len().is_none(),
        },
    )
}

/// The text of bytes in which every invalid sequence is replaced by U+FFFD.
pub uninterp spec fn lossy_text(bytes: Seq<u8>) -> Seq<char>;

/// Calls `String::from_utf8_lossy`. The text depends on the bytes alone.
#[verifier::external_body]
fn replace_invalid(input: &[u8]) -> (out: String)
    ensures
        out@ == lossy_text(input@),
{
    String::from_utf8_lossy(input).into_owned()
}

// ---------------------------------------------------------------------------
// The decoder
// ---------------------------------------------------------------------------
/// Decodes a stream chunk by chunk. A character that a chunk ends inside of is kept
/// back until the rest of it has come.
#[derive(Debug, PartialEq, Eq)]
pub struct Utf8ChunkDecoder {
    pub pending: Vec<u8>,
    pub pending_start_offset: Option<u64>,
}

/// What a chunk gave.
#[derive(Debug, PartialEq, Eq)]
pub struct DecodedUtf8Chunk {
    /// Where the text starts in the stream.
    pub start_offset: Option<u64>,
    pub text: String,
    /// The text was put together from more than one read.
    pub mixed_read_provenance: bool,
}

/// What a chunk gave.
pub struct ChunkView {
    pub start_offset: Option<u64>,
    pub text: Seq<char>,
    pub mixed: bool,
}

impl View for DecodedUtf8Chunk {
    type V = ChunkView;

    open spec fn view(&self) -> ChunkView {
        ChunkView {
            start_offset: self.start_offset,
            text: self.text@,
            mixed: self.mixed_read_provenance,
        }
    }
}

impl Default for Utf8ChunkDecoder {
    fn default() -> (out: Self)
        ensures
            out.pending@ == Seq::<u8>::empty(),
            out.pending_start_offset is None,
    {
        Utf8ChunkDecoder { pending: Vec::new(), pending_start_offset: None }
    }
}

/// What a decoder keeps back.
pub struct DecoderView {
    pub pending: Seq<u8>,
    pub pending_start_offset: Option<u64>,
}

impl View for Utf8ChunkDecoder {
    type V = DecoderView;

    open spec fn view(&self) -> DecoderView {
        DecoderView {
            pending: self.pending@,
            pending_start_offset: self.pending_start_offset,
        }
    }
}

impl Clone for Utf8ChunkDecoder {
    fn clone(&self) -> (out: Self)
        ensures
            out@ == self@,
    {
        let mut pending: Vec<u8> = Vec::new();
        bytes::append(&mut pending, self.pending.as_slice());
        assert(pending@ =~= self.pending@);
        Utf8ChunkDecoder { pending, pending_start_offset: self.pending_start_offset }
    }
}

/// What a chunk gives of the bytes that were kept back and its own: `text`, and
/// `rest` to be kept back.
pub open spec fn decodes(joined: Seq<u8>, text: Seq<char>, rest: Seq<u8>) -> bool {
    if valid_utf8(joined) {
        text == decode_utf8(joined) && rest == Seq::<u8>::empty()
    } else if begins_utf8(joined) {
        exists|n: int|
            #[trigger] longest_valid(joined, n) && text == decode_utf8(joined.take(n)) && rest
                == joined.skip(n)
    } else {
        text == lossy_text(joined) && rest == Seq::<u8>::empty()
    }
}

/// Where the bytes that a chunk is decoded with start in the stream.
pub open spec fn joined_start(decoder: DecoderView, chunk_start_offset: u64) -> u64 {
    if decoder.pending.len() == 0 || decoder.pending_start_offset is None {
        chunk_start_offset
    } else {
        decoder.pending_start_offset->0
    }
}

/// A sum that stays at the greatest number when it is too great.
pub open spec fn saturating_sum(a: u64, b: int) -> u64 {
    if a + b > u64::MAX {
        u64::MAX
    } else {
        (a + b) as u64
    }
}

/// What decoding a chunk gives, and what it leaves of the decoder.
pub open spec fn chunk_step(
    before: DecoderView,
    chunk: Seq<u8>,
    chunk_start_offset: u64,
    after: DecoderView,
    out: ChunkView,
) -> bool {
    if chunk.len() == 0 {
        &&& after == before
        &&& out == (ChunkView { start_offset: None, text: Seq::empty(), mixed: false })
    } else {
        let joined = before.pending + chunk;
        let start = joined_start(before, chunk_start_offset);
        let used = joined.len() - after.pending.len();
        &&& decodes(joined, out.text, after.pending)
        &&& out.start_offset == if used > 0 {
            Some(start)
        } else {
            None
        }
        &&& out.mixed == (before.pending.len() > 0 && out.text.len() > 0)
        &&& after.pending_start_offset == if after.pending.len() == 0 {
            None
        } else {
            Some(saturating_sum(start, used))
        }
    }
}

fn drop_front(v: &Vec<u8>, n: usize) -> (out: Vec<u8>)
    requires
        n <= v@.len(),
    ensures
        out@ == v@.skip(n as int),
{
    let mut out: Vec<u8> = Vec::new();
    let mut i: usize = n;
    while i < v.len()
        invariant
            n <= i <= v@.len(),
            out@ == v@.subrange(n as int, i as int),
        decreases v@.len() - i,
    {
        out.push(v[i]);
        assert(v@.subrange(n as int, i + 1) =~= v@.subrange(n as int, i as int).push(v@[i as int]));
        i += 1;
    }
    assert(out@ =~= v@.skip(n as int));
    out
}

fn take_front(v: &Vec<u8>, n: usize) -> (out: Vec<u8>)
    requires
        n <= v@.len(),
    ensures
        out@ == v@.take(n as int),
{
    let mut out: Vec<u8> = Vec::new();
    let mut i: usize = 0;
    while i < n
        invariant
            i <= n <= v@.len(),
            out@ == v@.take(i as int),
        decreases n - i,
    {
        out.push(v[i]);
        assert(v@.take(i + 1) =~= v@.take(i as int).push(v@[i as int]));
        i += 1;
    }
    out
}

impl Utf8ChunkDecoder {
    /// Decodes a chunk that starts at `chunk_start_offset` in the stream.
    pub fn decode(&mut self, chunk: &[u8], chunk_start_offset: u64) -> (out: DecodedUtf8Chunk)
        ensures
            chunk_step(old(self)@, chunk@, chunk_start_offset, final(self)@, out@),
            chunk@.len() == 0 ==> *final(self) == *old(self),
    {
        if chunk.len() == 0 {
            return DecodedUtf8Chunk {
                start_offset: None,
                text: String::new(),
                mixed_read_provenance: false,
            };
        }
        let had_pending = self.pending.len() > 0;
        let start_offset: u64 = if had_pending {
            match self.pending_start_offset {
                Some(start) => start,
                None => chunk_start_offset,
            }
        } else {
            chunk_start_offset
        };
        bytes::append(&mut self.pending, chunk);
        let ghost joined = self.pending@;
        match check_utf8(self.pending.as_slice()) {
            Ok(text) => {
                proof {
                    vstd::utf8::encode_utf8_decode_utf8(text@);
                }
                self.pending = Vec::new();
                self.pending_start_offset = None;
                let mixed_read_provenance = had_pending && !text.as_str().is_empty();
                DecodedUtf8Chunk { start_offset: Some(start_offset), text, mixed_read_provenance }
            },
            Err(fault) => {
                let n: usize = fault.valid_up_to;
                if fault.incomplete {
                    self.pending_start_offset = Some(start_offset);
                    if n == 0 {
                        proof {
                            reveal_with_fuel(decode_utf8, 1);
                            assert(joined.take(0) =~= Seq::empty());
                            assert(joined.skip(0) =~= joined);
                            assert(longest_valid(joined, 0));
                            assert(decode_utf8(joined.take(0)) =~= Seq::empty());
                        }
                        return DecodedUtf8Chunk {
                            start_offset: None,
                            text: String::new(),
                            mixed_read_provenance: false,
                        };
                    }
                    let front = take_front(&self.pending, n);
                    assert(longest_valid(joined, n as int));
                    let text = match check_utf8(front.as_slice()) {
                        Ok(text) => text,
                        Err(_) => {
                            assert(false);
                            String::new()
                        },
                    };
                    proof {
                        vstd::utf8::encode_utf8_decode_utf8(text@);
                        assert(joined.take(joined.len() as int) =~= joined);
                    }
                    self.pending = drop_front(&self.pending, n);
                    self.pending_start_offset = Some(start_offset.saturating_add(n as u64));
                    let mixed_read_provenance = had_pending && !text.as_str().is_empty();
                    return DecodedUtf8Chunk {
                        start_offset: Some(start_offset),
                        text,
                        mixed_read_provenance,
                    };
                }
                let text = replace_invalid(self.pending.as_slice());
                self.pending = Vec::new();
                self.pending_start_offset = None;
                let mixed_read_provenance = had_pending && !text.as_str().is_empty();
                DecodedUtf8Chunk { start_offset: Some(start_offset), text, mixed_read_provenance }
            },
        }
    }

    /// Whether anything is kept back.
    pub fn has_pending(&self) -> (r: bool)
        ensures
            r == (self.pending@.len() > 0),
    {
        self.pending.len() > 0
    }

    /// Forgets what was kept back.
    pub fn clear_pending(&mut self)
        ensures
            final(self).pending@ == Seq::<u8>::empty(),
            final(self).pending_start_offset is None,
    {
        self.pending = Vec::new();
        self.pending_start_offset = None;
    }
}

// ---------------------------------------------------------------------------
// Laws
// ---------------------------------------------------------------------------
/// A chunk of a valid stream loses nothing and invents nothing: the text and what is
/// kept back are the bytes that went in. A character that lies across two reads is
/// never replaced.
pub proof fn law_valid_stream_is_kept(joined: Seq<u8>, text: Seq<char>, rest: Seq<u8>)
    requires
        valid_utf8(joined) || begins_utf8(joined),
        decodes(joined, text, rest),
    ensures
        encode_utf8(text) + rest == joined,
        valid_utf8(joined) ==> rest == Seq::<u8>::empty(),
        !valid_utf8(joined) ==> begins_utf8(rest),
{
    if valid_utf8(joined) {
        vstd::utf8::decode_utf8_encode_utf8(joined);
        assert(encode_utf8(text) + rest =~= joined);
    } else {
        let n = choose|n: int|
            #[trigger] longest_valid(joined, n) && text == decode_utf8(joined.take(n)) && rest
                == joined.skip(n);
        vstd::utf8::decode_utf8_encode_utf8(joined.take(n));
        assert(encode_utf8(text) + rest =~= joined);
        let more = choose|more: Seq<u8>| #[trigger] valid_utf8(joined + more);
        assert(joined.take(n) + (rest + more) =~= joined + more);
        lemma_rest_of_valid(joined.take(n), rest + more);
        assert(valid_utf8(rest + more));
    }
}

/// What follows a valid beginning of valid UTF-8 is valid UTF-8.
proof fn lemma_rest_of_valid(a: Seq<u8>, b: Seq<u8>)
    requires
        valid_utf8(a),
        valid_utf8(a + b),
    ensures
        valid_utf8(b),
    decreases a.len(),
{
    if a.len() == 0 {
        assert(a + b =~= b);
    } else {
        reveal_with_fuel(valid_utf8, 1);
        let n = vstd::utf8::length_of_first_scalar(a);
        assert(vstd::utf8::length_of_first_scalar(a + b) == n);
        let rest = vstd::utf8::pop_first_scalar(a);
        assert(vstd::utf8::pop_first_scalar(a + b) =~= rest + b);
        lemma_rest_of_valid(rest, b);
    }
}

/// A stream that is read in chunks, one after another: each chunk gives its piece of
/// text, and what is kept back after it.
pub open spec fn is_run(
    chunks: Seq<Seq<u8>>,
    pieces: Seq<Seq<char>>,
    kept: Seq<Seq<u8>>,
) -> bool {
    &&& pieces.len() == chunks.len()
    &&& kept.len() == chunks.len() + 1
    &&& kept[0] == Seq::<u8>::empty()
    &&& forall|i: int|
        0 <= i < chunks.len() ==> decodes(
            #[trigger] kept[i] + chunks[i],
            pieces[i],
            kept[i + 1],
        )
}

/// The pieces of a list, one behind the other.
pub open spec fn concatenated<T>(pieces: Seq<Seq<T>>) -> Seq<T>
    decreases pieces.len(),
{
    if pieces.len() == 0 {
        Seq::empty()
    } else {
        concatenated(pieces.drop_last()) + pieces.last()
    }
}

/// One more chunk of a stream that begins valid UTF-8: `head` was read as the text
/// `before`, with `held` kept back of it.
proof fn lemma_one_more_chunk(
    head: Seq<u8>,
    before: Seq<char>,
    held: Seq<u8>,
    chunk: Seq<u8>,
    piece: Seq<char>,
    rest: Seq<u8>,
    more: Seq<u8>,
)
    requires
        encode_utf8(before) + held == head,
        decodes(held + chunk, piece, rest),
        valid_utf8(head + chunk + more),
    ensures
        encode_utf8(before + piece) + rest == head + chunk,
{
    let joined = held + chunk;
    let eb = encode_utf8(before);
    let ep = encode_utf8(piece);
    assert(eb + (joined + more) =~= head + chunk + more);
    vstd::utf8::encode_utf8_valid_utf8(before);
    lemma_rest_of_valid(eb, joined + more);
    assert(begins_utf8(joined));
    law_valid_stream_is_kept(joined, piece, rest);
    lemma_encode_concat(before, piece);
    assert(eb + ep + rest =~= eb + (ep + rest));
    assert(eb + joined =~= head + chunk);
}

/// However a stream that begins valid UTF-8 is cut into chunks, the texts of the
/// chunks together with what is kept back are the stream.
#[verifier::spinoff_prover]
pub proof fn law_chunks_reassemble(
    chunks: Seq<Seq<u8>>,
    pieces: Seq<Seq<char>>,
    kept: Seq<Seq<u8>>,
)
    requires
        is_run(chunks, pieces, kept),
        begins_utf8(concatenated(chunks)),
    ensures
        encode_utf8(concatenated(pieces)) + kept.last() == concatenated(chunks),
    decreases chunks.len(),
{
    if chunks.len() == 0 {
        assert(encode_utf8(concatenated(pieces)) + kept.last() =~= concatenated(chunks));
    } else {
        let n = chunks.len() - 1;
        let head = concatenated(chunks.drop_last());
        let held = kept.drop_last();
        let more = choose|more: Seq<u8>| #[trigger] valid_utf8(concatenated(chunks) + more);
        assert(begins_utf8(head)) by {
            assert(head + (chunks.last() + more) =~= concatenated(chunks) + more);
        }
        assert(is_run(chunks.drop_last(), pieces.drop_last(), held)) by {
            assert forall|i: int| 0 <= i < chunks.drop_last().len() implies decodes(
                #[trigger] held[i] + chunks.drop_last()[i],
                pieces.drop_last()[i],
                held[i + 1],
            ) by {
                assert(decodes(kept[i] + chunks[i], pieces[i], kept[i + 1]));
            }
        }
        law_chunks_reassemble(chunks.drop_last(), pieces.drop_last(), held);
        assert(decodes(kept[n] + chunks[n], pieces[n], kept[n + 1]));
        lemma_one_more_chunk(
            head,
            concatenated(pieces.drop_last()),
            kept[n],
            chunks[n],
            pieces[n],
            kept[n + 1],
            more,
        );
    }
}

pub proof fn lemma_encode_concat(a: Seq<char>, b: Seq<char>)
    ensures
        encode_utf8(a + b) == encode_utf8(a) + encode_utf8(b),
    decreases a.len(),
{
    if a.len() == 0 {
        assert(a + b =~= b);
        assert(encode_utf8(a) + encode_utf8(b) =~= encode_utf8(b));
    } else {
        assert((a + b).drop_first() =~= a.drop_first() + b);
        lemma_encode_concat(a.drop_first(), b);
        assert((a + b)[0] == a[0]);
        assert(encode_utf8(a + b) =~= encode_utf8(a) + encode_utf8(b));
    }
}

// ---------------------------------------------------------------------------
// The places of a run
// ---------------------------------------------------------------------------
/// The texts of a list of results.
pub open spec fn texts_of(outs: Seq<ChunkView>) -> Seq<Seq<char>> {
    outs.map_values(|out: ChunkView| out.text)
}

/// Where the chunk `i` of a stream that starts at `start` begins.
pub open spec fn chunk_place(start: u64, chunks: Seq<Seq<u8>>, i: int) -> u64 {
    (start + concatenated(chunks.take(i)).len()) as u64
}

/// A fresh decoder is given the chunks of a stream that starts at `start`, in order:
/// `states` are the decoder before the first chunk and after each of them, and `outs`
/// is what the chunks give.
pub open spec fn is_decoder_run(
    start: u64,
    chunks: Seq<Seq<u8>>,
    states: Seq<DecoderView>,
    outs: Seq<ChunkView>,
) -> bool {
    &&& outs.len() == chunks.len()
    &&& states.len() == chunks.len() + 1
    &&& states[0] == (DecoderView { pending: Seq::empty(), pending_start_offset: None })
    &&& forall|i: int|
        0 <= i < chunks.len() ==> chunk_step(
            #[trigger] states[i],
            chunks[i],
            chunk_place(start, chunks, i),
            states[i + 1],
            outs[i],
        )
}

/// What the decoder `state` gives after the text `before` of a stream that starts at
/// `start` has its place: text starts where the text before it ends, and without text
/// there is no place. It is of more than one read exactly if it begins with bytes that
/// were kept back.
pub open spec fn has_its_place(
    start: u64,
    before: Seq<char>,
    state: DecoderView,
    out: ChunkView,
) -> bool {
    &&& out.start_offset == if out.text.len() > 0 {
        Some((start + encode_utf8(before).len()) as u64)
    } else {
        None
    }
    &&& out.mixed == (out.text.len() > 0 && state.pending.len() > 0)
    &&& out.mixed ==> encode_utf8(out.text).len() > state.pending.len() && encode_utf8(
        out.text,
    ).take(state.pending.len() as int) == state.pending
}

/// Bytes that begin with no character.
spec fn holds_no_character(held: Seq<u8>) -> bool {
    forall|m: int| 0 < m <= held.len() ==> !valid_utf8(#[trigger] held.take(m))
}

proof fn lemma_valid_concat(a: Seq<u8>, b: Seq<u8>)
    requires
        valid_utf8(a),
        valid_utf8(b),
    ensures
        valid_utf8(a + b),
{
    vstd::utf8::decode_utf8_encode_utf8(a);
    vstd::utf8::decode_utf8_encode_utf8(b);
    lemma_encode_concat(decode_utf8(a), decode_utf8(b));
    vstd::utf8::encode_utf8_valid_utf8(decode_utf8(a) + decode_utf8(b));
}

proof fn lemma_text_has_bytes(text: Seq<char>)
    ensures
        (encode_utf8(text).len() > 0) == (text.len() > 0),
{
    vstd::utf8::encode_utf8_decode_utf8(text);
    if encode_utf8(text).len() == 0 {
        assert(decode_utf8(encode_utf8(text)).len() == 0);
    }
}

proof fn lemma_rest_holds_no_character(joined: Seq<u8>, text: Seq<char>, rest: Seq<u8>)
    requires
        valid_utf8(joined) || begins_utf8(joined),
        decodes(joined, text, rest),
    ensures
        holds_no_character(rest),
{
    if !valid_utf8(joined) {
        let n = choose|n: int|
            #[trigger] longest_valid(joined, n) && text == decode_utf8(joined.take(n)) && rest
                == joined.skip(n);
        assert forall|m: int| 0 < m <= rest.len() implies !valid_utf8(#[trigger] rest.take(m)) by {
            if valid_utf8(rest.take(m)) {
                lemma_valid_concat(joined.take(n), rest.take(m));
                assert(joined.take(n) + rest.take(m) =~= joined.take(n + m));
            }
        }
    }
}

/// One more chunk of a run, of a stream that begins valid UTF-8: `head` was read as the
/// text `before`, with what `held` keeps back of it.
#[verifier::spinoff_prover]
proof fn lemma_one_more_result(
    start: u64,
    head: Seq<u8>,
    before: Seq<char>,
    held: DecoderView,
    chunk: Seq<u8>,
    after: DecoderView,
    out: ChunkView,
    more: Seq<u8>,
)
    requires
        encode_utf8(before) + held.pending == head,
        holds_no_character(held.pending),
        held.pending.len() > 0 ==> held.pending_start_offset == Some(
            (start + encode_utf8(before).len()) as u64,
        ),
        chunk.len() > 0,
        start + head.len() + chunk.len() <= u64::MAX,
        chunk_step(held, chunk, (start + head.len()) as u64, after, out),
        valid_utf8(head + chunk + more),
    ensures
        encode_utf8(before + out.text) + after.pending == head + chunk,
        holds_no_character(after.pending),
        after.pending.len() > 0 ==> after.pending_start_offset == Some(
            (start + encode_utf8(before + out.text).len()) as u64,
        ),
        has_its_place(start, before, held, out),
{
    let joined = held.pending + chunk;
    let eb = encode_utf8(before);
    let et = encode_utf8(out.text);
    lemma_one_more_chunk(head, before, held.pending, chunk, out.text, after.pending, more);
    assert(eb + (joined + more) =~= head + chunk + more);
    vstd::utf8::encode_utf8_valid_utf8(before);
    lemma_rest_of_valid(eb, joined + more);
    assert(begins_utf8(joined));
    law_valid_stream_is_kept(joined, out.text, after.pending);
    lemma_rest_holds_no_character(joined, out.text, after.pending);
    lemma_encode_concat(before, out.text);
    lemma_text_has_bytes(out.text);
    assert(et + after.pending == joined);
    assert(et.len() + after.pending.len() == joined.len());
    assert(eb.len() + held.pending.len() == head.len());
    if out.mixed {
        let n = et.len() as int;
        let m = held.pending.len() as int;
        vstd::utf8::encode_utf8_valid_utf8(out.text);
        assert((et + after.pending).take(n) =~= et);
        assert((held.pending + chunk).take(m) =~= held.pending);
        if n <= m {
            assert(joined.take(m).take(n) =~= joined.take(n));
            assert(!valid_utf8(held.pending.take(n)));
        }
        assert(joined.take(n).take(m) =~= joined.take(m));
    }
}

/// A run without its last chunk is a run.
proof fn lemma_shorter_run(
    start: u64,
    chunks: Seq<Seq<u8>>,
    states: Seq<DecoderView>,
    outs: Seq<ChunkView>,
)
    requires
        is_decoder_run(start, chunks, states, outs),
        chunks.len() > 0,
    ensures
        is_decoder_run(start, chunks.drop_last(), states.drop_last(), outs.drop_last()),
{
    let first_chunks = chunks.drop_last();
    let first_states = states.drop_last();
    let first_outs = outs.drop_last();
    assert forall|i: int| 0 <= i < first_chunks.len() implies chunk_step(
        #[trigger] first_states[i],
        first_chunks[i],
        chunk_place(start, first_chunks, i),
        first_states[i + 1],
        first_outs[i],
    ) by {
        assert(states[i] == first_states[i]);
        assert(first_chunks.take(i) =~= chunks.take(i));
    }
}

#[verifier::spinoff_prover]
proof fn lemma_decoder_run(
    start: u64,
    chunks: Seq<Seq<u8>>,
    states: Seq<DecoderView>,
    outs: Seq<ChunkView>,
)
    requires
        is_decoder_run(start, chunks, states, outs),
        forall|i: int| 0 <= i < chunks.len() ==> #[trigger] chunks[i].len() > 0,
        start + concatenated(chunks).len() <= u64::MAX,
        begins_utf8(concatenated(chunks)),
    ensures
        encode_utf8(concatenated(texts_of(outs))) + states.last().pending == concatenated(chunks),
        holds_no_character(states.last().pending),
        states.last().pending.len() > 0 ==> states.last().pending_start_offset == Some(
            (start + encode_utf8(concatenated(texts_of(outs))).len()) as u64,
        ),
        forall|i: int|
            0 <= i < outs.len() ==> has_its_place(
                start,
                concatenated(texts_of(outs.take(i))),
                states[i],
                #[trigger] outs[i],
            ),
    decreases chunks.len(),
{
    if chunks.len() == 0 {
        assert(encode_utf8(concatenated(texts_of(outs))) + states.last().pending =~= concatenated(
            chunks,
        ));
    } else {
        let n = chunks.len() - 1;
        let first_chunks = chunks.drop_last();
        let first_states = states.drop_last();
        let first_outs = outs.drop_last();
        let head = concatenated(first_chunks);
        let more = choose|more: Seq<u8>| #[trigger] valid_utf8(concatenated(chunks) + more);
        assert(begins_utf8(head)) by {
            assert(head + (chunks.last() + more) =~= concatenated(chunks) + more);
        }
        lemma_shorter_run(start, chunks, states, outs);
        assert forall|i: int| 0 <= i < first_chunks.len() implies #[trigger] first_chunks[i].len()
            > 0 by {
            assert(chunks[i].len() > 0);
        }
        lemma_decoder_run(start, first_chunks, first_states, first_outs);
        let before = concatenated(texts_of(first_outs));
        assert(first_states.last() == states[n]);
        assert(chunks.take(n) =~= first_chunks);
        assert(outs.take(n) =~= first_outs);
        assert(chunks[n].len() > 0);
        lemma_one_more_result(
            start,
            head,
            before,
            states[n],
            chunks[n],
            states[n + 1],
            outs[n],
            more,
        );
        assert(texts_of(outs).drop_last() =~= texts_of(first_outs));
        assert(texts_of(outs).last() == outs[n].text);
        assert forall|i: int| 0 <= i < outs.len() implies has_its_place(
            start,
            concatenated(texts_of(outs.take(i))),
            states[i],
            #[trigger] outs[i],
        ) by {
            if i < n {
                assert(outs.take(i) =~= first_outs.take(i));
                assert(first_outs[i] == outs[i]);
                assert(first_states[i] == states[i]);
            }
        }
    }
}

/// However a valid stream is cut into chunks, inside a character too, the texts of the
/// chunks are the text of the stream, and nothing is kept back in the end. Each text
/// starts where the texts before it end, and a chunk without text has no place.
pub proof fn law_valid_run_keeps_its_places(
    start: u64,
    chunks: Seq<Seq<u8>>,
    states: Seq<DecoderView>,
    outs: Seq<ChunkView>,
)
    requires
        is_decoder_run(start, chunks, states, outs),
        forall|i: int| 0 <= i < chunks.len() ==> #[trigger] chunks[i].len() > 0,
        start + concatenated(chunks).len() <= u64::MAX,
        valid_utf8(concatenated(chunks)),
    ensures
        concatenated(texts_of(outs)) == decode_utf8(concatenated(chunks)),
        states.last().pending.len() == 0,
        forall|i: int|
            0 <= i < outs.len() ==> has_its_place(
                start,
                concatenated(texts_of(outs.take(i))),
                states[i],
                #[trigger] outs[i],
            ),
{
    let stream = concatenated(chunks);
    let text = concatenated(texts_of(outs));
    let held = states.last().pending;
    assert(begins_utf8(stream)) by {
        assert(stream + Seq::<u8>::empty() =~= stream);
    }
    lemma_decoder_run(start, chunks, states, outs);
    vstd::utf8::encode_utf8_valid_utf8(text);
    lemma_rest_of_valid(encode_utf8(text), held);
    if held.len() > 0 {
        assert(held.take(held.len() as int) =~= held);
    }
    assert(encode_utf8(text) + held =~= encode_utf8(text));
    vstd::utf8::encode_utf8_decode_utf8(text);
}

/// What goes into the decoder comes out as text or is kept back, and nothing else is: of bytes
/// that can still become a text, the whole characters come out. Text that nothing can complete
/// comes out with the invalid part replaced.
pub proof fn law_bytes_come_out_or_are_kept(
    decoder: &mut Utf8ChunkDecoder,
    chunk: &[u8],
    offset: u64,
    out: DecodedUtf8Chunk,
    more: Seq<u8>,
)
    requires
        call_ensures(Utf8ChunkDecoder::decode, (decoder, chunk, offset), out),
        chunk@.len() > 0,
    ensures
        ({
            let joined = old(decoder).pending@ + chunk@;
            let kept = final(decoder).pending@;
            &&& valid_utf8(joined + more) ==> encode_utf8(out.text@) + kept == joined && (forall|
                m: int,
            |
                0 < m <= kept.len() ==> !valid_utf8(#[trigger] kept.take(m)))
            &&& valid_utf8(joined) ==> kept.len() == 0 && encode_utf8(out.text@) == joined
            &&& (forall|rest: Seq<u8>| !valid_utf8(#[trigger] (joined + rest))) ==> kept.len() == 0
                && out.text@ == lossy_text(joined)
        }),
{
    let joined = old(decoder).pending@ + chunk@;
    let kept = final(decoder).pending@;
    if valid_utf8(joined + more) {
        assert(begins_utf8(joined));
        law_valid_stream_is_kept(joined, out.text@, kept);
        lemma_rest_holds_no_character(joined, out.text@, kept);
    }
    if valid_utf8(joined) {
        vstd::utf8::decode_utf8_encode_utf8(joined);
    }
    if forall|rest: Seq<u8>| !valid_utf8(#[trigger] (joined + rest)) {
        assert(joined + Seq::<u8>::empty() =~= joined);
        assert(!valid_utf8(joined + Seq::<u8>::empty()));
        assert(!begins_utf8(joined));
    }
}

/// Text starts where the bytes that were kept back start, or else where the chunk does; a chunk
/// that only adds to what is kept back has no start. It is of more than one read when
/// something was kept back for it. What is kept back starts behind the text.
pub proof fn law_text_starts_where_its_bytes_do(
    decoder: &mut Utf8ChunkDecoder,
    chunk: &[u8],
    offset: u64,
    out: DecodedUtf8Chunk,
)
    requires
        call_ensures(Utf8ChunkDecoder::decode, (decoder, chunk, offset), out),
        chunk@.len() > 0,
    ensures
        ({
            let held = old(decoder).pending@.len();
            let kept = final(decoder).pending@.len();
            let start = if held > 0 && old(decoder).pending_start_offset is Some {
                old(decoder).pending_start_offset->0
            } else {
                offset
            };
            let given = held + chunk@.len() - kept;
            &&& out.start_offset is Some <==> given > 0
            &&& out.start_offset matches Some(at) ==> at == start
            &&& out.mixed_read_provenance <==> held > 0 && out.text@.len() > 0
            &&& final(decoder).pending_start_offset is Some <==> kept > 0
            &&& kept > 0 && start + given <= u64::MAX ==> final(decoder).pending_start_offset
                == Some((start + given) as u64)
            &&& kept > 0 && start + given > u64::MAX ==> final(decoder).pending_start_offset
                == Some(u64::MAX)
        }),
{
}

/// An empty read changes nothing and gives nothing. Whether anything is kept back is told, and
/// after it is forgotten nothing is.
pub proof fn law_empty_read_changes_nothing(
    decoder: &mut Utf8ChunkDecoder,
    chunk: &[u8],
    offset: u64,
    out: DecodedUtf8Chunk,
    cleared: &mut Utf8ChunkDecoder,
    before: bool,
    after: bool,
)
    requires
        call_ensures(Utf8ChunkDecoder::decode, (decoder, chunk, offset), out),
        chunk@.len() == 0,
        call_ensures(Utf8ChunkDecoder::has_pending, (&*old(cleared),), before),
        call_ensures(Utf8ChunkDecoder::clear_pending, (cleared,), ()),
        call_ensures(Utf8ChunkDecoder::has_pending, (&*final(cleared),), after),
    ensures
        *final(decoder) == *old(decoder),
        out.text@.len() == 0,
        out.start_offset is None,
        !out.mixed_read_provenance,
        before <==> old(cleared).pending@.len() > 0,
        !after,
        final(cleared).pending@.len() == 0,
        final(cleared).pending_start_offset is None,
{
}

} // verus!
