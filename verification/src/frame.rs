//! Framing of outbound wire messages.
//!
//! Both frames the server ever sends are small JSON objects over UTF-8
//! bytes: the challenge issued on connect and the per-delivery event.
//! String payloads are escaped exactly as the grammar of JSON strings
//! demands: quote, backslash and the control bytes below 0x20.

use vstd::prelude::*;

verus! {

/// The low hex digit (lower case) for a value below 16.
pub open spec fn hex_digit(d: u8) -> u8
    recommends
        d < 16,
{
    if d < 10 {
        (0x30 + d) as u8
    } else {
        (0x61 + (d - 10)) as u8
    }
}

/// How one byte of a string payload appears inside a JSON string.
pub open spec fn esc_byte(b: u8) -> Seq<u8> {
    if b == 0x22 {
        seq![0x5cu8, 0x22u8]
    } else if b == 0x5c {
        seq![0x5cu8, 0x5cu8]
    } else if b == 0x08 {
        seq![0x5cu8, 0x62u8]
    } else if b == 0x09 {
        seq![0x5cu8, 0x74u8]
    } else if b == 0x0a {
        seq![0x5cu8, 0x6eu8]
    } else if b == 0x0c {
        seq![0x5cu8, 0x66u8]
    } else if b == 0x0d {
        seq![0x5cu8, 0x72u8]
    } else if b < 0x20 {
        seq![0x5cu8, 0x75u8, 0x30u8, 0x30u8, hex_digit(b / 16), hex_digit(b % 16)]
    } else {
        seq![b]
    }
}

/// A whole payload escaped for inclusion inside a JSON string.
pub open spec fn json_escape(s: Seq<u8>) -> Seq<u8>
    decreases s.len(),
{
    if s.len() == 0 {
        Seq::<u8>::empty()
    } else {
        json_escape(s.drop_last()) + esc_byte(s.last())
    }
}

/// Escapes a payload for inclusion inside a JSON string.
pub fn json_escape_bytes(s: &[u8]) -> (out: Vec<u8>)
    ensures
        out@ == json_escape(s@),
{
    let mut out: Vec<u8> = Vec::new();
    let mut i: usize = 0;
    proof {
        assert(s@.take(0) =~= Seq::<u8>::empty());
    }
    while i < s.len()
        invariant
            i <= s@.len(),
            out@ == json_escape(s@.take(i as int)),
        decreases s@.len() - i,
    {
        let b = s[i];
        let ghost prev = out@;
        if b == 0x22 {
            out.push(0x5c);
            out.push(0x22);
        } else if b == 0x5c {
            out.push(0x5c);
            out.push(0x5c);
        } else if b == 0x08 {
            out.push(0x5c);
            out.push(0x62);
        } else if b == 0x09 {
            out.push(0x5c);
            out.push(0x74);
        } else if b == 0x0a {
            out.push(0x5c);
            out.push(0x6e);
        } else if b == 0x0c {
            out.push(0x5c);
            out.push(0x66);
        } else if b == 0x0d {
            out.push(0x5c);
            out.push(0x72);
        } else if b < 0x20 {
            out.push(0x5c);
            out.push(0x75);
            out.push(0x30);
            out.push(0x30);
            let hi = b / 16;
            let lo = b % 16;
            out.push(if hi < 10 { 0x30 + hi } else { 0x61 + (hi - 10) });
            out.push(if lo < 10 { 0x30 + lo } else { 0x61 + (lo - 10) });
        } else {
            out.push(b);
        }
        proof {
            assert(out@ =~= prev + esc_byte(b));
            assert(s@.take(i + 1).drop_last() =~= s@.take(i as int));
            assert(s@.take(i + 1).last() == b);
        }
        i = i + 1;
    }
    proof {
        assert(s@.take(s@.len() as int) =~= s@);
    }
    out
}

/// The bytes of `{"from":"`.
pub open spec fn event_frame_head() -> Seq<u8> {
    seq![0x7bu8, 0x22u8, 0x66u8, 0x72u8, 0x6fu8, 0x6du8, 0x22u8, 0x3au8, 0x22u8]
}

/// The bytes of `","data":"`.
pub open spec fn event_frame_mid() -> Seq<u8> {
    seq![0x22u8, 0x2cu8, 0x22u8, 0x64u8, 0x61u8, 0x74u8, 0x61u8, 0x22u8, 0x3au8, 0x22u8]
}

/// The bytes of `"}`.
pub open spec fn frame_tail() -> Seq<u8> {
    seq![0x22u8, 0x7du8]
}

/// The serialized outbound event `{"from":"<source>","data":"<payload>"}`.
pub open spec fn event_frame_spec(from: Seq<u8>, data: Seq<u8>) -> Seq<u8> {
    event_frame_head() + json_escape(from) + event_frame_mid() + json_escape(data) + frame_tail()
}

/// Serializes one delivered event for the peer of a subscriber.
pub fn event_frame(from: &[u8], data: &[u8]) -> (out: Vec<u8>)
    ensures
        out@ == event_frame_spec(from@, data@),
{
    let mut out: Vec<u8> = Vec::new();
    out.push(0x7b);
    out.push(0x22);
    out.push(0x66);
    out.push(0x72);
    out.push(0x6f);
    out.push(0x6d);
    out.push(0x22);
    out.push(0x3a);
    out.push(0x22);
    let mut f = json_escape_bytes(from);
    out.append(&mut f);
    out.push(0x22);
    out.push(0x2c);
    out.push(0x22);
    out.push(0x64);
    out.push(0x61);
    out.push(0x74);
    out.push(0x61);
    out.push(0x22);
    out.push(0x3a);
    out.push(0x22);
    let mut d = json_escape_bytes(data);
    out.append(&mut d);
    out.push(0x22);
    out.push(0x7d);
    proof {
        assert(out@ =~= event_frame_spec(from@, data@));
    }
    out
}

/// The bytes of `{"challenge":"`.
pub open spec fn challenge_frame_head() -> Seq<u8> {
    seq![
        0x7bu8, 0x22u8, 0x63u8, 0x68u8, 0x61u8, 0x6cu8, 0x6cu8, 0x65u8, 0x6eu8, 0x67u8, 0x65u8,
        0x22u8, 0x3au8, 0x22u8,
    ]
}

/// The challenge frame `{"challenge":"<text>"}` around already-encoded text.
pub open spec fn challenge_frame_spec(encoded: Seq<u8>) -> Seq<u8> {
    challenge_frame_head() + encoded + frame_tail()
}

/// Whether a byte belongs to the standard base64 alphabet (with padding),
/// so that it never needs escaping inside a JSON string.
pub open spec fn is_base64_byte(b: u8) -> bool {
    ||| 0x41 <= b <= 0x5a
    ||| 0x61 <= b <= 0x7a
    ||| 0x30 <= b <= 0x39
    ||| b == 0x2b
    ||| b == 0x2f
    ||| b == 0x3d
}

/// Serializes the challenge sent on connect, around base64 text that
/// needs no escaping.
pub fn challenge_frame(encoded: &[u8]) -> (out: Vec<u8>)
    requires
        forall|i: int| 0 <= i < encoded@.len() ==> is_base64_byte(#[trigger] encoded@[i]),
    ensures
        out@ == challenge_frame_spec(encoded@),
{
    let mut out: Vec<u8> = Vec::new();
    out.push(0x7b);
    out.push(0x22);
    out.push(0x63);
    out.push(0x68);
    out.push(0x61);
    out.push(0x6c);
    out.push(0x6c);
    out.push(0x65);
    out.push(0x6e);
    out.push(0x67);
    out.push(0x65);
    out.push(0x22);
    out.push(0x3a);
    out.push(0x22);
    let mut e: Vec<u8> = Vec::new();
    e.extend_from_slice(encoded);
    proof {
        assert(e@ =~= encoded@);
    }
    out.append(&mut e);
    out.push(0x22);
    out.push(0x7d);
    proof {
        assert(out@ =~= challenge_frame_spec(encoded@));
    }
    out
}

} // verus!
