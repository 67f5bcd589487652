//! The fixed binary encoding of the wire protocol.
//!
//! A message is a little-endian `u32` variant tag followed by its fields. A
//! string field is its UTF-8 byte length as a little-endian `u64` followed
//! by the bytes; a byte field likewise. `enc_msg` is the mathematical
//! encoding, `dec_msg` the mathematical decoding; `encode` and `decode`
//! implement them exactly, and `lemma_codec_round_trip` proves that decoding
//! an encoding gives the message back. A decode failure is local to the one
//! message.

use vstd::prelude::*;
use vstd::slice::{slice_subrange, slice_to_vec};
use vstd::string::StrSliceExecFns;
use vstd::utf8::{decode_utf8, encode_utf8, encode_utf8_decode_utf8, encode_utf8_valid_utf8,
    valid_utf8};

use crate::message::{Chunk, ChunkView, MessageView, NetMessage};
use crate::util::{Error, ErrorKind};

verus! {

/// The variant tags of the message union, in declaration order.
pub open spec fn msg_tag(m: MessageView) -> u32 {
    match m {
        MessageView::Hi(_) => 0,
        MessageView::Bye(_) => 1,
        MessageView::BBB(_) => 2,
        MessageView::UserMessage(_, _) => 3,
        MessageView::WhisperMessage(_, _, _) => 4,
        MessageView::UserData(_, _, _, _) => 5,
    }
}

/// A `u32` as four little-endian bytes.
pub open spec fn enc_u32(n: u32) -> Seq<u8> {
    seq![
        (n & 0xff) as u8,
        ((n >> 8) & 0xff) as u8,
        ((n >> 16) & 0xff) as u8,
        ((n >> 24) & 0xff) as u8,
    ]
}

/// A `u64` as eight little-endian bytes.
pub open spec fn enc_u64(n: u64) -> Seq<u8> {
    seq![
        (n & 0xff) as u8,
        ((n >> 8) & 0xff) as u8,
        ((n >> 16) & 0xff) as u8,
        ((n >> 24) & 0xff) as u8,
        ((n >> 32) & 0xff) as u8,
        ((n >> 40) & 0xff) as u8,
        ((n >> 48) & 0xff) as u8,
        ((n >> 56) & 0xff) as u8,
    ]
}

/// A byte field: its length, then the bytes.
pub open spec fn enc_bytes(d: Seq<u8>) -> Seq<u8> {
    enc_u64(d.len() as u64) + d
}

/// A string field: its UTF-8 bytes as a byte field.
pub open spec fn enc_str(s: Seq<char>) -> Seq<u8> {
    enc_bytes(encode_utf8(s))
}

/// A chunk: its own tag, and for the data variant the bytes.
pub open spec fn enc_chunk(c: ChunkView) -> Seq<u8> {
    match c {
        ChunkView::Data(d) => enc_u32(0) + enc_bytes(d),
        ChunkView::Error => enc_u32(1),
        ChunkView::End => enc_u32(2),
    }
}

/// The encoding of one message.
pub open spec fn enc_msg(m: MessageView) -> Seq<u8> {
    enc_u32(msg_tag(m)) + match m {
        MessageView::Hi(u) => enc_str(u),
        MessageView::Bye(u) => enc_str(u),
        MessageView::BBB(u) => enc_str(u),
        MessageView::UserMessage(u, t) => enc_str(u) + enc_str(t),
        MessageView::WhisperMessage(f, t, c) => enc_str(f) + enc_str(t) + enc_str(c),
        MessageView::UserData(f, t, n, c) => enc_str(f) + enc_str(t) + enc_str(n) + enc_chunk(c),
    }
}

/// A string fits on the wire when its byte length fits the length field.
pub open spec fn str_fits(s: Seq<char>) -> bool {
    encode_utf8(s).len() < 0x10000000000000000
}

/// Every field of the message fits its length field. Every message a real
/// `String` or `Vec` can hold fits.
pub open spec fn msg_fits(m: MessageView) -> bool {
    match m {
        MessageView::Hi(u) => str_fits(u),
        MessageView::Bye(u) => str_fits(u),
        MessageView::BBB(u) => str_fits(u),
        MessageView::UserMessage(u, t) => str_fits(u) && str_fits(t),
        MessageView::WhisperMessage(f, t, c) => str_fits(f) && str_fits(t) && str_fits(c),
        MessageView::UserData(f, t, n, c) => str_fits(f) && str_fits(t) && str_fits(n) && match c {
            ChunkView::Data(d) => d.len() < 0x10000000000000000,
            _ => true,
        },
    }
}

/// The `u32` held by the first four bytes, little-endian.
pub open spec fn u32_of_le(b: Seq<u8>) -> u32
    recommends
        b.len() >= 4,
{
    (b[0] as u32) | ((b[1] as u32) << 8) | ((b[2] as u32) << 16) | ((b[3] as u32) << 24)
}

/// The `u64` held by the first eight bytes, little-endian.
pub open spec fn u64_of_le(b: Seq<u8>) -> u64
    recommends
        b.len() >= 8,
{
    (b[0] as u64) | ((b[1] as u64) << 8) | ((b[2] as u64) << 16) | ((b[3] as u64) << 24) | (
    (b[4] as u64) << 32) | ((b[5] as u64) << 40) | ((b[6] as u64) << 48) | ((b[7] as u64) << 56)
}

/// Reads a `u32`: the value and what follows it.
pub open spec fn dec_u32(b: Seq<u8>) -> Option<(u32, Seq<u8>)> {
    if b.len() >= 4 {
        Some((u32_of_le(b), b.skip(4)))
    } else {
        None
    }
}

/// Reads a `u64`: the value and what follows it.
pub open spec fn dec_u64(b: Seq<u8>) -> Option<(u64, Seq<u8>)> {
    if b.len() >= 8 {
        Some((u64_of_le(b), b.skip(8)))
    } else {
        None
    }
}

/// Reads a byte field: its bytes and what follows them.
pub open spec fn dec_bytes(b: Seq<u8>) -> Option<(Seq<u8>, Seq<u8>)> {
    match dec_u64(b) {
        None => None,
        Some((n, rest)) => if rest.len() >= n {
            Some((rest.take(n as int), rest.skip(n as int)))
        } else {
            None
        },
    }
}

/// Reads a string field: its characters and what follows them. Bytes that
/// are not UTF-8 fail the message.
pub open spec fn dec_str(b: Seq<u8>) -> Option<(Seq<char>, Seq<u8>)> {
    match dec_bytes(b) {
        None => None,
        Some((d, rest)) => if valid_utf8(d) {
            Some((decode_utf8(d), rest))
        } else {
            None
        },
    }
}

/// Reads a chunk: the chunk and what follows it.
pub open spec fn dec_chunk(b: Seq<u8>) -> Option<(ChunkView, Seq<u8>)> {
    match dec_u32(b) {
        None => None,
        Some((tag, rest)) => if tag == 0 {
            match dec_bytes(rest) {
                None => None,
                Some((d, rest2)) => Some((ChunkView::Data(d), rest2)),
            }
        } else if tag == 1 {
            Some((ChunkView::Error, rest))
        } else if tag == 2 {
            Some((ChunkView::End, rest))
        } else {
            None
        },
    }
}

/// Decodes one whole message: an unknown tag, a short or overlong buffer,
/// or a malformed string fails it.
pub open spec fn dec_msg(b: Seq<u8>) -> Option<MessageView> {
    match dec_u32(b) {
        None => None,
        Some((tag, r0)) => if tag == 0 || tag == 1 || tag == 2 {
            match dec_str(r0) {
                None => None,
                Some((u, r1)) => if r1.len() == 0 {
                    Some(
                        if tag == 0 {
                            MessageView::Hi(u)
                        } else if tag == 1 {
                            MessageView::Bye(u)
                        } else {
                            MessageView::BBB(u)
                        },
                    )
                } else {
                    None
                },
            }
        } else if tag == 3 {
            match dec_str(r0) {
                None => None,
                Some((u, r1)) => match dec_str(r1) {
                    None => None,
                    Some((t, r2)) => if r2.len() == 0 {
                        Some(MessageView::UserMessage(u, t))
                    } else {
                        None
                    },
                },
            }
        } else if tag == 4 {
            match dec_str(r0) {
                None => None,
                Some((f, r1)) => match dec_str(r1) {
                    None => None,
                    Some((t, r2)) => match dec_str(r2) {
                        None => None,
                        Some((c, r3)) => if r3.len() == 0 {
                            Some(MessageView::WhisperMessage(f, t, c))
                        } else {
                            None
                        },
                    },
                },
            }
        } else if tag == 5 {
            match dec_str(r0) {
                None => None,
                Some((f, r1)) => match dec_str(r1) {
                    None => None,
                    Some((t, r2)) => match dec_str(r2) {
                        None => None,
                        Some((n, r3)) => match dec_chunk(r3) {
                            None => None,
                            Some((c, r4)) => if r4.len() == 0 {
                                Some(MessageView::UserData(f, t, n, c))
                            } else {
                                None
                            },
                        },
                    },
                },
            }
        } else {
            None
        },
    }
}

/// Reassembling the four little-endian bytes of a `u32` gives it back.
proof fn lemma_u32_le(n: u32)
    ensures
        u32_of_le(enc_u32(n)) == n,
{
    assert(((n & 0xff) as u8 as u32) | ((((n >> 8) & 0xff) as u8 as u32) << 8) | ((((n >> 16)
        & 0xff) as u8 as u32) << 16) | ((((n >> 24) & 0xff) as u8 as u32) << 24) == n)
        by (bit_vector);
}

/// Reassembling the eight little-endian bytes of a `u64` gives it back.
proof fn lemma_u64_le(n: u64)
    ensures
        u64_of_le(enc_u64(n)) == n,
{
    assert(((n & 0xff) as u8 as u64) | ((((n >> 8) & 0xff) as u8 as u64) << 8) | ((((n >> 16)
        & 0xff) as u8 as u64) << 16) | ((((n >> 24) & 0xff) as u8 as u64) << 24) | ((((n >> 32)
        & 0xff) as u8 as u64) << 32) | ((((n >> 40) & 0xff) as u8 as u64) << 40) | ((((n >> 48)
        & 0xff) as u8 as u64) << 48) | ((((n >> 56) & 0xff) as u8 as u64) << 56) == n)
        by (bit_vector);
}

/// Reading a `u32` off its encoding yields it and the suffix.
proof fn lemma_dec_u32(n: u32, rest: Seq<u8>)
    ensures
        dec_u32(enc_u32(n) + rest) == Some((n, rest)),
{
    let b = enc_u32(n) + rest;
    assert(b.skip(4) =~= rest);
    assert(u32_of_le(b) == u32_of_le(enc_u32(n))) by {
        assert(b[0] == enc_u32(n)[0]);
        assert(b[1] == enc_u32(n)[1]);
        assert(b[2] == enc_u32(n)[2]);
        assert(b[3] == enc_u32(n)[3]);
    }
    lemma_u32_le(n);
}

/// Reading a `u64` off its encoding yields it and the suffix.
proof fn lemma_dec_u64(n: u64, rest: Seq<u8>)
    ensures
        dec_u64(enc_u64(n) + rest) == Some((n, rest)),
{
    let b = enc_u64(n) + rest;
    assert(b.skip(8) =~= rest);
    assert(u64_of_le(b) == u64_of_le(enc_u64(n))) by {
        assert forall|i: int| 0 <= i < 8 implies b[i] == enc_u64(n)[i] by {}
    }
    lemma_u64_le(n);
}

/// Reading a byte field off its encoding yields it and the suffix.
proof fn lemma_dec_bytes(d: Seq<u8>, rest: Seq<u8>)
    requires
        d.len() < 0x10000000000000000,
    ensures
        dec_bytes(enc_bytes(d) + rest) == Some((d, rest)),
{
    let n = d.len() as u64;
    let b = enc_bytes(d) + rest;
    assert(b =~= enc_u64(n) + (d + rest));
    lemma_dec_u64(n, d + rest);
    assert((d + rest).take(n as int) =~= d);
    assert((d + rest).skip(n as int) =~= rest);
}

/// Reading a string field off its encoding yields it and the suffix.
proof fn lemma_dec_str(s: Seq<char>, rest: Seq<u8>)
    requires
        str_fits(s),
    ensures
        dec_str(enc_str(s) + rest) == Some((s, rest)),
{
    lemma_dec_bytes(encode_utf8(s), rest);
    encode_utf8_valid_utf8(s);
    encode_utf8_decode_utf8(s);
}

/// Reading a chunk off its encoding yields it and the suffix.
proof fn lemma_dec_chunk(c: ChunkView, rest: Seq<u8>)
    requires
        c matches ChunkView::Data(d) ==> d.len() < 0x10000000000000000,
    ensures
        dec_chunk(enc_chunk(c) + rest) == Some((c, rest)),
{
    match c {
        ChunkView::Data(d) => {
            assert(enc_chunk(c) + rest =~= enc_u32(0) + (enc_bytes(d) + rest));
            lemma_dec_u32(0, enc_bytes(d) + rest);
            lemma_dec_bytes(d, rest);
        },
        ChunkView::Error => {
            assert(enc_chunk(c) + rest =~= enc_u32(1) + rest);
            lemma_dec_u32(1, rest);
        },
        ChunkView::End => {
            assert(enc_chunk(c) + rest =~= enc_u32(2) + rest);
            lemma_dec_u32(2, rest);
        },
    }
}

/// The round trip of the wire protocol: decoding the encoding of any
/// message that fits on the wire gives exactly that message back.
pub proof fn lemma_codec_round_trip(m: MessageView)
    requires
        msg_fits(m),
    ensures
        dec_msg(enc_msg(m)) == Some(m),
{
    let nil = Seq::<u8>::empty();
    match m {
        MessageView::Hi(u) => {
            assert(enc_msg(m) =~= enc_u32(0) + (enc_str(u) + nil));
            lemma_dec_u32(0, enc_str(u) + nil);
            lemma_dec_str(u, nil);
        },
        MessageView::Bye(u) => {
            assert(enc_msg(m) =~= enc_u32(1) + (enc_str(u) + nil));
            lemma_dec_u32(1, enc_str(u) + nil);
            lemma_dec_str(u, nil);
        },
        MessageView::BBB(u) => {
            assert(enc_msg(m) =~= enc_u32(2) + (enc_str(u) + nil));
            lemma_dec_u32(2, enc_str(u) + nil);
            lemma_dec_str(u, nil);
        },
        MessageView::UserMessage(u, t) => {
            assert(enc_msg(m) =~= enc_u32(3) + (enc_str(u) + (enc_str(t) + nil)));
            lemma_dec_u32(3, enc_str(u) + (enc_str(t) + nil));
            lemma_dec_str(u, enc_str(t) + nil);
            lemma_dec_str(t, nil);
        },
        MessageView::WhisperMessage(f, t, c) => {
            assert(enc_msg(m) =~= enc_u32(4) + (enc_str(f) + (enc_str(t) + (enc_str(c) + nil))));
            lemma_dec_u32(4, enc_str(f) + (enc_str(t) + (enc_str(c) + nil)));
            lemma_dec_str(f, enc_str(t) + (enc_str(c) + nil));
            lemma_dec_str(t, enc_str(c) + nil);
            lemma_dec_str(c, nil);
        },
        MessageView::UserData(f, t, n, c) => {
            assert(enc_msg(m) =~= enc_u32(5) + (enc_str(f) + (enc_str(t) + (enc_str(n) + (
            enc_chunk(c) + nil)))));
            lemma_dec_u32(5, enc_str(f) + (enc_str(t) + (enc_str(n) + (enc_chunk(c) + nil))));
            lemma_dec_str(f, enc_str(t) + (enc_str(n) + (enc_chunk(c) + nil)));
            lemma_dec_str(t, enc_str(n) + (enc_chunk(c) + nil));
            lemma_dec_str(n, enc_chunk(c) + nil);
            lemma_dec_chunk(c, nil);
        },
    }
}

/// Appends the four little-endian bytes of a `u32`.
fn push_u32(out: &mut Vec<u8>, n: u32)
    ensures
        final(out)@ == old(out)@ + enc_u32(n),
{
    out.push((n & 0xff) as u8);
    out.push(((n >> 8) & 0xff) as u8);
    out.push(((n >> 16) & 0xff) as u8);
    out.push(((n >> 24) & 0xff) as u8);
    proof {
        assert(out@ =~= old(out)@ + enc_u32(n));
    }
}

/// Appends the eight little-endian bytes of a `u64`.
fn push_u64(out: &mut Vec<u8>, n: u64)
    ensures
        final(out)@ == old(out)@ + enc_u64(n),
{
    out.push((n & 0xff) as u8);
    out.push(((n >> 8) & 0xff) as u8);
    out.push(((n >> 16) & 0xff) as u8);
    out.push(((n >> 24) & 0xff) as u8);
    out.push(((n >> 32) & 0xff) as u8);
    out.push(((n >> 40) & 0xff) as u8);
    out.push(((n >> 48) & 0xff) as u8);
    out.push(((n >> 56) & 0xff) as u8);
    proof {
        assert(out@ =~= old(out)@ + enc_u64(n));
    }
}

/// Appends a byte field: length, then bytes.
fn push_bytes(out: &mut Vec<u8>, d: &Vec<u8>)
    ensures
        final(out)@ == old(out)@ + enc_bytes(d@),
        d@.len() < 0x10000000000000000,
{
    let n = d.len();
    push_u64(out, n as u64);
    let mut i: usize = 0;
    while i < d.len()
        invariant
            i <= d@.len(),
            n == d@.len(),
            out@ == old(out)@ + enc_u64(n as u64) + d@.take(i as int),
        decreases d@.len() - i,
    {
        out.push(d[i]);
        proof {
            assert(d@.take(i + 1 as int) =~= d@.take(i as int).push(d@[i as int]));
            assert(out@ =~= old(out)@ + enc_u64(n as u64) + d@.take(i + 1 as int));
        }
        i = i + 1;
    }
    proof {
        assert(d@.take(n as int) =~= d@);
        assert(out@ =~= old(out)@ + enc_bytes(d@));
    }
}

/// Appends a string field: its UTF-8 bytes as a byte field.
fn push_str(out: &mut Vec<u8>, s: &String)
    ensures
        final(out)@ == old(out)@ + enc_str(s@),
        str_fits(s@),
{
    let bytes = s.as_str().as_bytes_vec();
    push_bytes(out, &bytes);
}

/// Encodes one message into its wire bytes.
pub fn encode(message: &NetMessage) -> (r: Vec<u8>)
    ensures
        r@ == enc_msg(message@),
        msg_fits(message@),
{
    let mut out: Vec<u8> = Vec::new();
    match message {
        NetMessage::Hi(u) => {
            push_u32(&mut out, 0);
            push_str(&mut out, u);
        },
        NetMessage::Bye(u) => {
            push_u32(&mut out, 1);
            push_str(&mut out, u);
        },
        NetMessage::BBB(u) => {
            push_u32(&mut out, 2);
            push_str(&mut out, u);
        },
        NetMessage::UserMessage(u, t) => {
            push_u32(&mut out, 3);
            push_str(&mut out, u);
            push_str(&mut out, t);
        },
        NetMessage::WhisperMessage(f, t, c) => {
            push_u32(&mut out, 4);
            push_str(&mut out, f);
            push_str(&mut out, t);
            push_str(&mut out, c);
        },
        NetMessage::UserData(f, t, n, c) => {
            push_u32(&mut out, 5);
            push_str(&mut out, f);
            push_str(&mut out, t);
            push_str(&mut out, n);
            match c {
                Chunk::Data(d) => {
                    push_u32(&mut out, 0);
                    push_bytes(&mut out, d);
                },
                Chunk::Error => {
                    push_u32(&mut out, 1);
                },
                Chunk::End => {
                    push_u32(&mut out, 2);
                },
            }
        },
    }
    proof {
        assert(out@ =~= enc_msg(message@));
    }
    out
}

/// Relies on `String::from_utf8`: the bytes become a string exactly when
/// they are valid UTF-8, and the string's bytes are the input.
#[verifier::external_body]
fn string_from_utf8(d: Vec<u8>) -> (r: Option<String>)
    ensures
        r is Some <==> valid_utf8(d@),
        r matches Some(s) ==> encode_utf8(s@) == d@,
{
    String::from_utf8(d).ok()
}

/// Reads a `u32` at `pos`; `None` when fewer than four bytes remain.
fn read_u32(b: &Vec<u8>, pos: usize) -> (r: Option<(u32, usize)>)
    requires
        pos <= b@.len(),
    ensures
        match r {
            Some((v, p2)) => pos <= p2 <= b@.len() && dec_u32(b@.skip(pos as int)) == Some(
                (v, b@.skip(p2 as int)),
            ),
            None => dec_u32(b@.skip(pos as int)) is None,
        },
{
    if b.len() - pos >= 4 {
        let v = (b[pos] as u32) | ((b[pos + 1] as u32) << 8) | ((b[pos + 2] as u32) << 16) | (
        (b[pos + 3] as u32) << 24);
        proof {
            let s = b@.skip(pos as int);
            assert(s[0] == b@[pos as int]);
            assert(s[1] == b@[pos + 1 as int]);
            assert(s[2] == b@[pos + 2 as int]);
            assert(s[3] == b@[pos + 3 as int]);
            assert(s.skip(4) =~= b@.skip(pos + 4 as int));
        }
        Some((v, pos + 4))
    } else {
        None
    }
}

/// Reads a `u64` at `pos`; `None` when fewer than eight bytes remain.
fn read_u64(b: &Vec<u8>, pos: usize) -> (r: Option<(u64, usize)>)
    requires
        pos <= b@.len(),
    ensures
        match r {
            Some((v, p2)) => pos <= p2 <= b@.len() && dec_u64(b@.skip(pos as int)) == Some(
                (v, b@.skip(p2 as int)),
            ),
            None => dec_u64(b@.skip(pos as int)) is None,
        },
{
    if b.len() - pos >= 8 {
        let v = (b[pos] as u64) | ((b[pos + 1] as u64) << 8) | ((b[pos + 2] as u64) << 16) | (
        (b[pos + 3] as u64) << 24) | ((b[pos + 4] as u64) << 32) | ((b[pos + 5] as u64) << 40) | (
        (b[pos + 6] as u64) << 48) | ((b[pos + 7] as u64) << 56);
        proof {
            let s = b@.skip(pos as int);
            assert forall|i: int| 0 <= i < 8 implies s[i] == b@[pos + i] by {}
            assert(s.skip(8) =~= b@.skip(pos + 8 as int));
        }
        Some((v, pos + 8))
    } else {
        None
    }
}

/// Reads a byte field at `pos`; `None` when the buffer is too short.
fn read_bytes(b: &Vec<u8>, pos: usize) -> (r: Option<(Vec<u8>, usize)>)
    requires
        pos <= b@.len(),
    ensures
        match r {
            Some((d, p2)) => pos <= p2 <= b@.len() && dec_bytes(b@.skip(pos as int)) == Some(
                (d@, b@.skip(p2 as int)),
            ),
            None => dec_bytes(b@.skip(pos as int)) is None,
        },
{
    match read_u64(b, pos) {
        None => None,
        Some((n, p1)) => {
            if ((b.len() - p1) as u64) >= n {
                let nn = n as usize;
                let piece = slice_subrange(b.as_slice(), p1, p1 + nn);
                let d = slice_to_vec(piece);
                proof {
                    let s1 = b@.skip(p1 as int);
                    assert(s1.take(n as int) =~= b@.subrange(p1 as int, p1 + nn as int));
                    assert(s1.skip(n as int) =~= b@.skip(p1 + nn as int));
                }
                Some((d, p1 + nn))
            } else {
                proof {
                    assert(b@.skip(p1 as int).len() < n);
                }
                None
            }
        },
    }
}

/// Reads a string field at `pos`; `None` on a short buffer or bytes that
/// are not UTF-8.
fn read_str(b: &Vec<u8>, pos: usize) -> (r: Option<(String, usize)>)
    requires
        pos <= b@.len(),
    ensures
        match r {
            Some((s, p2)) => pos <= p2 <= b@.len() && dec_str(b@.skip(pos as int)) == Some(
                (s@, b@.skip(p2 as int)),
            ),
            None => dec_str(b@.skip(pos as int)) is None,
        },
{
    match read_bytes(b, pos) {
        None => None,
        Some((d, p1)) => {
            match string_from_utf8(d) {
                None => None,
                Some(s) => {
                    proof {
                        encode_utf8_decode_utf8(s@);
                    }
                    Some((s, p1))
                },
            }
        },
    }
}

/// Reads a chunk at `pos`.
fn read_chunk(b: &Vec<u8>, pos: usize) -> (r: Option<(Chunk, usize)>)
    requires
        pos <= b@.len(),
    ensures
        match r {
            Some((c, p2)) => pos <= p2 <= b@.len() && dec_chunk(b@.skip(pos as int)) == Some(
                (c@, b@.skip(p2 as int)),
            ),
            None => dec_chunk(b@.skip(pos as int)) is None,
        },
{
    match read_u32(b, pos) {
        None => None,
        Some((tag, p1)) => {
            if tag == 0 {
                match read_bytes(b, p1) {
                    None => None,
                    Some((d, p2)) => Some((Chunk::Data(d), p2)),
                }
            } else if tag == 1 {
                Some((Chunk::Error, p1))
            } else if tag == 2 {
                Some((Chunk::End, p1))
            } else {
                None
            }
        },
    }
}

/// Decodes one wire message. Malformed bytes fail this one message only:
/// the error says so and carries no other consequence.
#[verifier::rlimit(100)]
pub fn decode(b: &Vec<u8>) -> (r: Result<NetMessage, Error>)
    ensures
        match r {
            Ok(m) => dec_msg(b@) == Some(m@),
            Err(e) => dec_msg(b@) is None && e.kind == ErrorKind::ProtocolDecode,
        },
{
    proof {
        assert(b@.skip(0) =~= b@);
    }
    let message: Option<NetMessage> = match read_u32(b, 0) {
        None => None,
        Some((tag, p0)) => {
            if tag <= 2 {
                match read_str(b, p0) {
                    None => None,
                    Some((u, p1)) => {
                        if p1 == b.len() {
                            proof {
                                assert(b@.skip(p1 as int).len() == 0);
                            }
                            if tag == 0 {
                                Some(NetMessage::Hi(u))
                            } else if tag == 1 {
                                Some(NetMessage::Bye(u))
                            } else {
                                Some(NetMessage::BBB(u))
                            }
                        } else {
                            None
                        }
                    },
                }
            } else if tag == 3 {
                match read_str(b, p0) {
                    None => None,
                    Some((u, p1)) => match read_str(b, p1) {
                        None => None,
                        Some((t, p2)) => {
                            if p2 == b.len() {
                                Some(NetMessage::UserMessage(u, t))
                            } else {
                                None
                            }
                        },
                    },
                }
            } else if tag == 4 {
                match read_str(b, p0) {
                    None => None,
                    Some((f, p1)) => match read_str(b, p1) {
                        None => None,
                        Some((t, p2)) => match read_str(b, p2) {
                            None => None,
                            Some((c, p3)) => {
                                if p3 == b.len() {
                                    Some(NetMessage::WhisperMessage(f, t, c))
                                } else {
                                    None
                                }
                            },
                        },
                    },
                }
            } else if tag == 5 {
                match read_str(b, p0) {
                    None => None,
                    Some((f, p1)) => match read_str(b, p1) {
                        None => None,
                        Some((t, p2)) => match read_str(b, p2) {
                            None => None,
                            Some((n, p3)) => match read_chunk(b, p3) {
                                None => None,
                                Some((c, p4)) => {
                                    if p4 == b.len() {
                                        Some(NetMessage::UserData(f, t, n, c))
                                    } else {
                                        None
                                    }
                                },
                            },
                        },
                    },
                }
            } else {
                None
            }
        },
    };
    match message {
        Some(m) => Ok(m),
        None => Err(
            Error::new(ErrorKind::ProtocolDecode, "Malformed message on the wire".to_owned()),
        ),
    }
}

} // verus!
