//! MQTT 3.1.1 wire encoding: remaining lengths, length-prefixed strings,
//! CONNECT bodies, fixed headers and CONNACK checks.
use vstd::prelude::*;

use vstd::string::StringSliceAdditionalSpecFns;

use crate::text::{dec, hex_char, hex_digit, owned, push_dec, push_str};

verus! {

/// The largest remaining length that MQTT can encode in four bytes.
pub const MAX_REMAINING_LENGTH: usize = 268_435_455;

/// The variable-length encoding of a remaining length, seven bits per byte,
/// least significant group first, with the high bit set on every byte but
/// the last.
pub open spec fn rl_encode(n: nat) -> Seq<u8>
    decreases n,
{
    if n < 128 {
        seq![n as u8]
    } else {
        seq![(n % 128 + 128) as u8] + rl_encode(n / 128)
    }
}

/// What reading a remaining length from the start of some bytes gives.
pub enum RemainingLength {
    /// The length and how many bytes encoded it.
    Complete { value: usize, consumed: usize },
    /// Every byte so far carried the continuation bit; more are needed.
    Incomplete,
    /// Four bytes carried the continuation bit.
    Malformed,
}

/// The outcome of decoding as a mathematical value.
pub enum RlOutcome {
    Complete(nat, nat),
    Incomplete,
    Malformed,
}

/// Decodes at most `k` more bytes of a remaining length.
pub open spec fn rl_decode_k(bytes: Seq<u8>, k: nat) -> RlOutcome
    decreases k,
{
    if k == 0 {
        RlOutcome::Malformed
    } else if bytes.len() == 0 {
        RlOutcome::Incomplete
    } else if bytes[0] < 128 {
        RlOutcome::Complete(bytes[0] as nat, 1)
    } else {
        match rl_decode_k(bytes.drop_first(), (k - 1) as nat) {
            RlOutcome::Complete(v, c) => RlOutcome::Complete(
                (bytes[0] % 128) as nat + 128 * v,
                c + 1,
            ),
            other => other,
        }
    }
}

/// Decodes a remaining length from the start of the bytes: at most four
/// bytes are read.
pub open spec fn rl_decode(bytes: Seq<u8>) -> RlOutcome {
    rl_decode_k(bytes, 4)
}

/// The mathematical view of a decoding outcome.
pub open spec fn rl_view(r: RemainingLength) -> RlOutcome {
    match r {
        RemainingLength::Complete { value, consumed } => RlOutcome::Complete(
            value as nat,
            consumed as nat,
        ),
        RemainingLength::Incomplete => RlOutcome::Incomplete,
        RemainingLength::Malformed => RlOutcome::Malformed,
    }
}

/// Encodes a remaining length, refusing values above the MQTT maximum.
pub fn encode_remaining_length(len: usize) -> (r: Result<Vec<u8>, String>)
    ensures
        len <= MAX_REMAINING_LENGTH ==> (r matches Ok(v) && v@ == rl_encode(len as nat)),
        len > MAX_REMAINING_LENGTH ==> (r matches Err(e) && e@
            == "MQTT packet exceeds maximum remaining length."@),
{
    if len > MAX_REMAINING_LENGTH {
        return Err(owned("MQTT packet exceeds maximum remaining length."));
    }
    let mut out: Vec<u8> = Vec::new();
    let mut rest: usize = len;
    loop
        invariant
            out@ + rl_encode(rest as nat) == rl_encode(len as nat),
            len <= MAX_REMAINING_LENGTH,
        decreases rest,
    {
        let byte = (rest % 128) as u8;
        let next = rest / 128;
        if next > 0 {
            assert(rl_encode(rest as nat) == seq![(rest % 128 + 128) as u8] + rl_encode(
                next as nat,
            ));
            out.push(byte + 128);
            assert(out@ + rl_encode(next as nat) =~= rl_encode(len as nat));
            rest = next;
        } else {
            out.push(byte);
            assert(out@ =~= rl_encode(len as nat));
            return Ok(out);
        }
    }
}

/// Decodes a remaining length from the start of `bytes`, reading at most
/// four bytes.
pub fn decode_remaining_length(bytes: &[u8]) -> (r: RemainingLength)
    ensures
        rl_view(r) == rl_decode(bytes@),
{
    let ghost s = bytes@;
    reveal_with_fuel(rl_decode_k, 5);
    if bytes.len() == 0 {
        return RemainingLength::Incomplete;
    }
    let b0 = bytes[0] as usize;
    if b0 < 128 {
        return RemainingLength::Complete { value: b0, consumed: 1 };
    }
    assert(s.drop_first().len() == s.len() - 1);
    if bytes.len() < 2 {
        return RemainingLength::Incomplete;
    }
    let b1 = bytes[1] as usize;
    assert(s.drop_first()[0] == s[1]);
    if b1 < 128 {
        return RemainingLength::Complete { value: b0 % 128 + 128 * b1, consumed: 2 };
    }
    assert(s.drop_first().drop_first()[0] == s[2] || s.len() < 3);
    if bytes.len() < 3 {
        return RemainingLength::Incomplete;
    }
    let b2 = bytes[2] as usize;
    assert(s.drop_first().drop_first()[0] == s[2]);
    if b2 < 128 {
        return RemainingLength::Complete {
            value: b0 % 128 + 128 * (b1 % 128 + 128 * b2),
            consumed: 3,
        };
    }
    if bytes.len() < 4 {
        return RemainingLength::Incomplete;
    }
    let b3 = bytes[3] as usize;
    assert(s.drop_first().drop_first().drop_first()[0] == s[3]);
    if b3 < 128 {
        return RemainingLength::Complete {
            value: b0 % 128 + 128 * (b1 % 128 + 128 * (b2 % 128 + 128 * b3)),
            consumed: 4,
        };
    }
    RemainingLength::Malformed
}

/// `128` raised to a power.
pub open spec fn pow128(k: nat) -> nat
    decreases k,
{
    if k == 0 {
        1
    } else {
        128 * pow128((k - 1) as nat)
    }
}

proof fn lemma_rl_roundtrip_k(n: nat, rest: Seq<u8>, k: nat)
    requires
        n < pow128(k),
        k > 0,
    ensures
        rl_decode_k(rl_encode(n) + rest, k) == RlOutcome::Complete(n, rl_encode(n).len()),
    decreases k,
{
    let e = rl_encode(n) + rest;
    if n < 128 {
        assert(e[0] == n as u8);
    } else {
        let tail = rl_encode(n / 128) + rest;
        assert(e.drop_first() =~= tail);
        assert(n / 128 < pow128((k - 1) as nat)) by (nonlinear_arith)
            requires
                n < pow128(k),
                pow128(k) == 128 * pow128((k - 1) as nat),
        ;
        assert((k - 1) as nat != 0) by {
            if (k - 1) as nat == 0 {
                assert(pow128(0) == 1);
            }
        }
        lemma_rl_roundtrip_k(n / 128, rest, (k - 1) as nat);
        assert(e[0] == (n % 128 + 128) as u8);
        assert((e[0] % 128) as nat == n % 128);
    }
}

/// Decoding an encoded remaining length gives the length back, together
/// with the number of bytes its encoding took, whatever bytes follow it.
pub proof fn lemma_remaining_length_roundtrip(n: nat, rest: Seq<u8>)
    requires
        n <= MAX_REMAINING_LENGTH,
    ensures
        rl_decode(rl_encode(n) + rest) == RlOutcome::Complete(n, rl_encode(n).len()),
{
    reveal_with_fuel(pow128, 5);
    lemma_rl_roundtrip_k(n, rest, 4);
}

/// An encoded remaining length takes between one and four bytes.
pub proof fn lemma_remaining_length_size(n: nat)
    requires
        n <= MAX_REMAINING_LENGTH,
    ensures
        1 <= rl_encode(n).len() <= 4,
{
    reveal_with_fuel(rl_encode, 5);
    if n >= 128 {
        if n / 128 >= 128 {
            if n / 128 / 128 >= 128 {
                assert(n / 128 / 128 / 128 < 128);
            }
        }
    }
}

// ---------------------------------------------------------------------------
// Length-prefixed strings.
// ---------------------------------------------------------------------------
/// The two-byte big-endian length prefix followed by the bytes.
pub open spec fn mqtt_string(bytes: Seq<u8>) -> Seq<u8> {
    seq![(bytes.len() / 256) as u8, (bytes.len() % 256) as u8] + bytes
}

/// The error for a string too long for an MQTT length prefix.
pub open spec fn too_long_message() -> Seq<char> {
    "MQTT string exceeds 65535 bytes."@
}

/// Appends an MQTT length-prefixed UTF-8 string.
pub fn push_mqtt_string(out: &mut Vec<u8>, value: &str) -> (r: Result<(), String>)
    ensures
        value.spec_bytes().len() <= 65535 ==> r is Ok && final(out)@ == old(out)@ + mqtt_string(
            value.spec_bytes(),
        ),
        value.spec_bytes().len() > 65535 ==> (r matches Err(e) && e@ == too_long_message()
            && final(out)@ == old(out)@),
{
    let bytes = value.as_bytes();
    if bytes.len() > 65535 {
        return Err(owned("MQTT string exceeds 65535 bytes."));
    }
    let ghost start = out@;
    let n = bytes.len();
    out.push((n / 256) as u8);
    out.push((n % 256) as u8);
    let mut i: usize = 0;
    while i < n
        invariant
            n == bytes@.len(),
            i <= n,
            out@ == start + seq![(n / 256) as u8, (n % 256) as u8] + bytes@.take(i as int),
        decreases n - i,
    {
        out.push(bytes[i]);
        assert(bytes@.take(i + 1) =~= bytes@.take(i as int).push(bytes@[i as int]));
        i = i + 1;
    }
    assert(bytes@.take(n as int) =~= bytes@);
    assert(out@ =~= start + mqtt_string(bytes@));
    Ok(())
}

// ---------------------------------------------------------------------------
// CONNECT.
// ---------------------------------------------------------------------------
/// The CONNECT flags: clean session always; the will flag and will retain
/// when a will is set; the username and password flags when credentials
/// are set.
pub open spec fn connect_flags_spec(has_auth: bool, has_will: bool, will_retain: bool) -> u8 {
    (2 + (if has_will {
        4nat
    } else {
        0
    }) + (if has_will && will_retain {
        32nat
    } else {
        0
    }) + (if has_auth {
        192nat
    } else {
        0
    })) as u8
}

/// Computes the CONNECT flags byte.
pub fn connect_flags(has_auth: bool, has_will: bool, will_retain: bool) -> (flags: u8)
    ensures
        flags == connect_flags_spec(has_auth, has_will, will_retain),
{
    let mut flags: u8 = 0x02;
    if has_will {
        flags = flags + 0x04;
        if will_retain {
            flags = flags + 0x20;
        }
    }
    if has_auth {
        flags = flags + 0xc0;
    }
    flags
}

/// The UTF-8 bytes of a text.
pub open spec fn utf8(s: Seq<char>) -> Seq<u8> {
    vstd::utf8::encode_utf8(s)
}

/// Whether a text fits an MQTT length-prefixed string.
pub open spec fn fits(s: Seq<char>) -> bool {
    utf8(s).len() <= 65535
}

/// The body of a CONNECT packet: protocol name `MQTT`, level 4, flags,
/// keep-alive 0, the client identifier, then the will topic and payload
/// when there is a will, then the username and password when there are
/// credentials.
pub open spec fn connect_body_spec(
    client_id: Seq<char>,
    auth: Option<(Seq<char>, Seq<char>)>,
    will: Option<(Seq<char>, Seq<char>, bool)>,
) -> Seq<u8> {
    seq![0u8, 4u8, 77u8, 81u8, 84u8, 84u8] + seq![
        4u8,
        connect_flags_spec(auth is Some, will is Some, will matches Some(w) && w.2),
        0u8,
        0u8,
    ] + mqtt_string(utf8(client_id)) + match will {
        Some(w) => mqtt_string(utf8(w.0)) + mqtt_string(utf8(w.1)),
        None => Seq::empty(),
    } + match auth {
        Some(a) => mqtt_string(utf8(a.0)) + mqtt_string(utf8(a.1)),
        None => Seq::empty(),
    }
}

/// Whether every string of a CONNECT fits a length prefix.
pub open spec fn connect_strings_fit(
    client_id: Seq<char>,
    auth: Option<(Seq<char>, Seq<char>)>,
    will: Option<(Seq<char>, Seq<char>, bool)>,
) -> bool {
    &&& fits(client_id)
    &&& will matches Some(w) ==> fits(w.0) && fits(w.1)
    &&& auth matches Some(a) ==> fits(a.0) && fits(a.1)
}

/// Builds a CONNECT body from plain text parts.
pub fn build_connect_body_parts(
    client_id: &str,
    auth: Option<(&str, &str)>,
    will: Option<(&str, &str, bool)>,
) -> (r: Result<Vec<u8>, String>)
    ensures
        ({
            let a = match auth {
                Some(p) => Some((p.0@, p.1@)),
                None => None,
            };
            let w = match will {
                Some(p) => Some((p.0@, p.1@, p.2)),
                None => None,
            };
            &&& connect_strings_fit(client_id@, a, w) ==> (r matches Ok(v) && v@
                == connect_body_spec(client_id@, a, w))
            &&& !connect_strings_fit(client_id@, a, w) ==> (r matches Err(e) && e@
                == too_long_message())
        }),
{
    let ghost a = match auth {
        Some(p) => Some((p.0@, p.1@)),
        None => None,
    };
    let ghost w = match will {
        Some(p) => Some((p.0@, p.1@, p.2)),
        None => None,
    };
    let mut body: Vec<u8> = Vec::new();
    body.push(0);
    body.push(4);
    body.push(77);
    body.push(81);
    body.push(84);
    body.push(84);
    body.push(4);
    let flags = connect_flags(
        auth.is_some(),
        will.is_some(),
        match will {
            Some(p) => p.2,
            None => false,
        },
    );
    body.push(flags);
    body.push(0);
    body.push(0);
    let ghost head = body@;
    assert(head =~= seq![0u8, 4u8, 77u8, 81u8, 84u8, 84u8] + seq![4u8, flags, 0u8, 0u8]);
    match push_mqtt_string(&mut body, client_id) {
        Ok(()) => {},
        Err(e) => return Err(e),
    }
    let ghost after_client = body@;
    match will {
        Some(p) => {
            match push_mqtt_string(&mut body, p.0) {
                Ok(()) => {},
                Err(e) => return Err(e),
            }
            match push_mqtt_string(&mut body, p.1) {
                Ok(()) => {},
                Err(e) => return Err(e),
            }
        },
        None => {},
    }
    let ghost after_will = body@;
    match auth {
        Some(p) => {
            match push_mqtt_string(&mut body, p.0) {
                Ok(()) => {},
                Err(e) => return Err(e),
            }
            match push_mqtt_string(&mut body, p.1) {
                Ok(()) => {},
                Err(e) => return Err(e),
            }
        },
        None => {},
    }
    assert(body@ =~= connect_body_spec(client_id@, a, w));
    Ok(body)
}

// ---------------------------------------------------------------------------
// Fixed header framing and PUBLISH.
// ---------------------------------------------------------------------------
/// A whole packet: type byte, encoded remaining length, body.
pub open spec fn packet_spec(packet_type: u8, body: Seq<u8>) -> Seq<u8> {
    seq![packet_type] + rl_encode(body.len()) + body
}

/// Frames a packet body behind its fixed header.
pub fn frame_packet(packet_type: u8, body: &[u8]) -> (r: Result<Vec<u8>, String>)
    ensures
        body@.len() <= MAX_REMAINING_LENGTH ==> (r matches Ok(v) && v@ == packet_spec(
            packet_type,
            body@,
        )),
        body@.len() > MAX_REMAINING_LENGTH ==> (r matches Err(e) && e@
            == "MQTT packet exceeds maximum remaining length."@),
{
    let len_bytes = match encode_remaining_length(body.len()) {
        Ok(v) => v,
        Err(e) => return Err(e),
    };
    let mut packet: Vec<u8> = Vec::new();
    packet.push(packet_type);
    let mut i: usize = 0;
    while i < len_bytes.len()
        invariant
            i <= len_bytes.len(),
            packet@ == seq![packet_type] + len_bytes@.take(i as int),
        decreases len_bytes.len() - i,
    {
        packet.push(len_bytes[i]);
        assert(len_bytes@.take(i + 1) =~= len_bytes@.take(i as int).push(len_bytes@[i as int]));
        i = i + 1;
    }
    let ghost head = packet@;
    assert(head =~= seq![packet_type] + len_bytes@);
    let mut j: usize = 0;
    while j < body.len()
        invariant
            j <= body.len(),
            packet@ == head + body@.take(j as int),
        decreases body.len() - j,
    {
        packet.push(body[j]);
        assert(body@.take(j + 1) =~= body@.take(j as int).push(body@[j as int]));
        j = j + 1;
    }
    assert(body@.take(body.len() as int) =~= body@);
    assert(packet@ =~= packet_spec(packet_type, body@));
    Ok(packet)
}

/// The PUBLISH fixed-header byte: QoS 0, with the retain bit on request.
pub open spec fn publish_packet_type_spec(retain: bool) -> u8 {
    if retain {
        0x31
    } else {
        0x30
    }
}

/// The PUBLISH fixed-header byte for a QoS 0 publish.
pub fn publish_packet_type(retain: bool) -> (t: u8)
    ensures
        t == publish_packet_type_spec(retain),
{
    if retain {
        0x31
    } else {
        0x30
    }
}

/// The body of a QoS 0 PUBLISH: the topic string, then the payload.
pub fn publish_body(topic: &str, payload: &[u8]) -> (r: Result<Vec<u8>, String>)
    ensures
        fits(topic@) ==> (r matches Ok(v) && v@ == mqtt_string(utf8(topic@)) + payload@),
        !fits(topic@) ==> (r matches Err(e) && e@ == too_long_message()),
{
    let mut body: Vec<u8> = Vec::new();
    match push_mqtt_string(&mut body, topic) {
        Ok(()) => {},
        Err(e) => return Err(e),
    }
    let ghost head = body@;
    let mut i: usize = 0;
    while i < payload.len()
        invariant
            i <= payload.len(),
            body@ == head + payload@.take(i as int),
        decreases payload.len() - i,
    {
        body.push(payload[i]);
        assert(payload@.take(i + 1) =~= payload@.take(i as int).push(payload@[i as int]));
        i = i + 1;
    }
    assert(payload@.take(payload.len() as int) =~= payload@);
    Ok(body)
}

// ---------------------------------------------------------------------------
// CONNACK.
// ---------------------------------------------------------------------------
/// The broker's explanation for a CONNACK return code.
pub open spec fn connack_reason_spec(code: u8) -> Seq<char> {
    if code == 1 {
        "unacceptable protocol version"@
    } else if code == 2 {
        "client identifier rejected"@
    } else if code == 3 {
        "server unavailable"@
    } else if code == 4 {
        "bad username or password"@
    } else if code == 5 {
        "not authorized"@
    } else {
        "unknown return code"@
    }
}

/// The explanation for a CONNACK return code.
pub fn connack_reason(code: u8) -> (r: &'static str)
    ensures
        r@ == connack_reason_spec(code),
{
    if code == 1 {
        "unacceptable protocol version"
    } else if code == 2 {
        "client identifier rejected"
    } else if code == 3 {
        "server unavailable"
    } else if code == 4 {
        "bad username or password"
    } else if code == 5 {
        "not authorized"
    } else {
        "unknown return code"
    }
}

/// Two lowercase hexadecimal digits of a byte.
pub open spec fn hex2(b: u8) -> Seq<char> {
    seq![hex_char((b / 16) as nat), hex_char((b % 16) as nat)]
}

/// Checks the first byte read while waiting for CONNACK.
pub fn check_connack_type(packet_type: u8) -> (r: Result<(), String>)
    ensures
        packet_type == 0x20 ==> r is Ok,
        packet_type != 0x20 ==> (r matches Err(e) && e@
            == "unexpected MQTT packet while waiting for CONNACK: 0x"@ + hex2(packet_type)),
{
    if packet_type != 0x20 {
        let mut e = owned("unexpected MQTT packet while waiting for CONNACK: 0x");
        crate::text::push_char(&mut e, hex_digit((packet_type / 16) as u32));
        crate::text::push_char(&mut e, hex_digit((packet_type % 16) as u32));
        return Err(e);
    }
    Ok(())
}

/// Checks a CONNACK body: two bytes, the second being the return code,
/// which must be zero.
pub fn check_connack_body(body: &[u8]) -> (r: Result<(), String>)
    ensures
        body@.len() == 2 && body@[1] == 0 ==> r is Ok,
        body@.len() != 2 ==> (r matches Err(e) && e@ == "invalid MQTT CONNACK length: expected 2, got "@
            + dec(body@.len() as nat)),
        body@.len() == 2 && body@[1] != 0 ==> (r matches Err(e) && e@
            == "MQTT broker rejected connection: "@ + connack_reason_spec(body@[1])),
{
    if body.len() != 2 {
        let mut e = owned("invalid MQTT CONNACK length: expected 2, got ");
        push_dec(&mut e, body.len() as u64);
        return Err(e);
    }
    if body[1] != 0 {
        let mut e = owned("MQTT broker rejected connection: ");
        push_str(&mut e, connack_reason(body[1]));
        return Err(e);
    }
    Ok(())
}

} // verus!
