use vstd::prelude::*;
use vstd::slice::slice_subrange;
use vstd::string::StringSliceAdditionalSpecFns;

verus! {

/// First byte of a system-exclusive message.
pub const SYSEX_START: u8 = 0xF0;

/// Last byte of a system-exclusive message.
pub const SYSEX_END: u8 = 0xF7;

/// Most bytes that a framed message holds.
pub const SYSEX_CAP: usize = 64;

/// Most packets that a message is split into.
pub const PACKET_CAP: usize = 64;

/// Most bytes that are gathered from the packets of one message.
pub const GATHER_CAP: usize = 512;

/// What a framed message holds, in order.
pub uninterp spec fn frame_bytes(v: heapless::Vec<u8, 64>) -> Seq<u8>;

/// What a list of packets holds, in order, each packet as its four bytes.
pub uninterp spec fn packet_list(v: heapless::Vec<[u8; 4], 64>) -> Seq<Seq<u8>>;

/// `heapless::Vec::<u8, 64>::new`: a message that holds nothing.
#[verifier::external_body]
pub(crate) fn frame_new() -> (v: heapless::Vec<u8, 64>)
    ensures
        frame_bytes(v) == Seq::<u8>::empty(),
{
    heapless::Vec::new()
}

/// `heapless::Vec::push` on a message: appends the byte while fewer than 64
/// are held, and otherwise changes nothing.
#[verifier::external_body]
pub(crate) fn frame_push(v: &mut heapless::Vec<u8, 64>, b: u8) -> (ok: bool)
    ensures
        ok == (frame_bytes(*old(v)).len() < 64),
        ok ==> frame_bytes(*final(v)) == frame_bytes(*old(v)).push(b),
        !ok ==> frame_bytes(*final(v)) == frame_bytes(*old(v)),
{
    v.push(b).is_ok()
}

/// `heapless::Vec::as_slice` on a message: the held bytes, never more than
/// 64.
#[verifier::external_body]
pub(crate) fn frame_as_slice(v: &heapless::Vec<u8, 64>) -> (r: &[u8])
    ensures
        r@ == frame_bytes(*v),
        r@.len() <= 64,
{
    v.as_slice()
}

/// `heapless::Vec::<[u8; 4], 64>::new`: a list that holds no packet.
#[verifier::external_body]
pub(crate) fn packets_new() -> (v: heapless::Vec<[u8; 4], 64>)
    ensures
        packet_list(v) == Seq::<Seq<u8>>::empty(),
{
    heapless::Vec::new()
}

/// `heapless::Vec::push` on a list of packets: appends the packet while
/// fewer than 64 are held, and otherwise changes nothing.
#[verifier::external_body]
pub(crate) fn packets_push(v: &mut heapless::Vec<[u8; 4], 64>, packet: [u8; 4]) -> (ok: bool)
    ensures
        ok == (packet_list(*old(v)).len() < 64),
        ok ==> packet_list(*final(v)) == packet_list(*old(v)).push(packet@),
        !ok ==> packet_list(*final(v)) == packet_list(*old(v)),
{
    v.push(packet).is_ok()
}

/// What a buffer of gathered bytes holds, in order.
pub uninterp spec fn gathered_bytes(v: heapless::Vec<u8, 512>) -> Seq<u8>;

/// `heapless::Vec::<u8, 512>::new`: a buffer that holds nothing.
#[verifier::external_body]
pub(crate) fn buffer_new() -> (v: heapless::Vec<u8, 512>)
    ensures
        gathered_bytes(v) == Seq::<u8>::empty(),
{
    heapless::Vec::new()
}

/// `heapless::Vec::push` on a buffer: appends the byte while fewer than 512
/// are held, and otherwise changes nothing.
#[verifier::external_body]
pub(crate) fn buffer_push(v: &mut heapless::Vec<u8, 512>, b: u8) -> (ok: bool)
    ensures
        ok == (gathered_bytes(*old(v)).len() < 512),
        ok ==> gathered_bytes(*final(v)) == gathered_bytes(*old(v)).push(b),
        !ok ==> gathered_bytes(*final(v)) == gathered_bytes(*old(v)),
{
    v.push(b).is_ok()
}

/// `heapless::Vec::extend_from_slice` on a buffer: appends all the bytes
/// when the result holds no more than 512, and otherwise changes nothing.
#[verifier::external_body]
pub(crate) fn buffer_extend(v: &mut heapless::Vec<u8, 512>, other: &[u8]) -> (ok: bool)
    ensures
        ok == (gathered_bytes(*old(v)).len() + other@.len() <= 512),
        ok ==> gathered_bytes(*final(v)) == gathered_bytes(*old(v)) + other@,
        !ok ==> gathered_bytes(*final(v)) == gathered_bytes(*old(v)),
{
    v.extend_from_slice(other).is_ok()
}

/// `heapless::Vec::as_slice` on a buffer: the held bytes, never more than
/// 512.
#[verifier::external_body]
pub(crate) fn buffer_as_slice(v: &heapless::Vec<u8, 512>) -> (r: &[u8])
    ensures
        r@ == gathered_bytes(*v),
        r@.len() <= 512,
{
    v.as_slice()
}

/// A payload between the two delimiters.
pub open spec fn frame(payload: Seq<u8>) -> Seq<u8> {
    seq![0xF0u8] + payload + seq![0xF7u8]
}

/// Number of packets that carry a message.
pub open spec fn packet_count(sysex: Seq<u8>) -> int {
    (sysex.len() as int + 2) / 3
}

/// The `k`-th packet of a message: a code byte and three data bytes. A
/// packet that is followed by more has code `0x04`. The last one has code
/// `0x05` or `0x06` when one or two bytes are left, padded with zero; with
/// three bytes left its code is `0x07` when the message ends in `0xF7` and
/// `0x04` otherwise.
pub open spec fn packet(sysex: Seq<u8>, k: int) -> Seq<u8> {
    let i = 3 * k;
    let rem = sysex.len() - i;
    if rem > 3 {
        seq![0x04u8, sysex[i], sysex[i + 1], sysex[i + 2]]
    } else if rem == 3 {
        seq![
            if sysex.last() == 0xF7u8 {
                0x07u8
            } else {
                0x04u8
            },
            sysex[i],
            sysex[i + 1],
            sysex[i + 2],
        ]
    } else if rem == 2 {
        seq![0x06u8, sysex[i], sysex[i + 1], 0x00u8]
    } else {
        seq![0x05u8, sysex[i], 0x00u8, 0x00u8]
    }
}

/// All packets of a message, in order.
pub open spec fn packets(sysex: Seq<u8>) -> Seq<Seq<u8>> {
    Seq::new(packet_count(sysex) as nat, |k: int| packet(sysex, k))
}

/// The byte, unless it is zero.
pub open spec fn keep(b: u8) -> Seq<u8> {
    if b != 0 {
        seq![b]
    } else {
        Seq::empty()
    }
}

/// The data that one four-byte group carries, by the low four bits of its
/// first byte: three bytes as they are for `4`; one, two or three bytes
/// without the zero ones for `5`, `6`, `7`; nothing for any other code.
pub open spec fn group_bytes(g: Seq<u8>) -> Seq<u8> {
    let cin = g[0] & 0x0Fu8;
    if cin == 4 {
        seq![g[1], g[2], g[3]]
    } else if cin == 5 {
        keep(g[1])
    } else if cin == 6 {
        keep(g[1]) + keep(g[2])
    } else if cin == 7 {
        keep(g[1]) + keep(g[2]) + keep(g[3])
    } else {
        Seq::empty()
    }
}

/// The data carried by the first `groups` four-byte groups of `data`.
pub open spec fn gathered(data: Seq<u8>, groups: nat) -> Seq<u8>
    decreases groups,
{
    if groups == 0 {
        Seq::empty()
    } else {
        gathered(data, (groups - 1) as nat) + group_bytes(
            data.subrange(4 * (groups - 1), 4 * groups as int),
        )
    }
}

/// At most the first `n` items of `s`.
pub open spec fn capped(s: Seq<u8>, n: int) -> Seq<u8> {
    if s.len() <= n {
        s
    } else {
        s.take(n)
    }
}

/// What a stream of packet bytes yields: the gathered data, cut at the
/// gathering capacity, must start with `0xF0` and end with `0xF7`; the
/// payload is what stands between them.
pub open spec fn extract_spec(data: Seq<u8>) -> Option<Seq<u8>> {
    let out = capped(gathered(data, (data.len() / 4) as nat), GATHER_CAP as int);
    if out.len() > 0 && out[0] == 0xF0u8 && out.last() == 0xF7u8 {
        Some(out.subrange(1, out.len() - 1))
    } else {
        None
    }
}

/// Wraps the bytes of `payload` into a system-exclusive message, if the
/// message fits into sixty-four bytes.
pub fn build_sysex(payload: &str) -> (r: Option<heapless::Vec<u8, 64>>)
    ensures
        r is Some <==> payload.spec_bytes().len() + 2 <= SYSEX_CAP,
        r is Some ==> frame_bytes(r.unwrap()) == frame(payload.spec_bytes()),
{
    let bytes = payload.as_bytes();
    let n = bytes.len();
    let mut out = frame_new();
    if !frame_push(&mut out, SYSEX_START) {
        return None;
    }
    let mut i: usize = 0;
    while i < n
        invariant
            bytes@ == payload.spec_bytes(),
            n == bytes@.len(),
            i <= n,
            frame_bytes(out) == seq![0xF0u8] + bytes@.take(i as int),
        decreases n - i,
    {
        assert(frame_bytes(out).len() == 1 + i);
        if !frame_push(&mut out, bytes[i]) {
            return None;
        }
        assert(bytes@.take(i + 1) =~= bytes@.take(i as int).push(bytes@[i as int]));
        assert(frame_bytes(out) =~= seq![0xF0u8] + bytes@.take(i + 1));
        i = i + 1;
    }
    assert(frame_bytes(out).len() == 1 + n);
    if !frame_push(&mut out, SYSEX_END) {
        return None;
    }
    assert(bytes@.take(n as int) == bytes@);
    assert(frame_bytes(out) =~= frame(bytes@));
    Some(out)
}

/// Splits a message into four-byte packets. The list holds at most
/// sixty-four of them: packets beyond that are left out.
pub fn sysex_to_usb_midi_packets(sysex: &[u8]) -> (r: heapless::Vec<[u8; 4], 64>)
    ensures
        packet_list(r).len() == if packet_count(sysex@) <= PACKET_CAP {
            packet_count(sysex@)
        } else {
            PACKET_CAP as int
        },
        forall|k: int|
            0 <= k < packet_list(r).len() ==> #[trigger] packet_list(r)[k] == packet(sysex@, k),
{
    let mut out = packets_new();
    let n = sysex.len();
    let mut i: usize = 0;
    let mut k: usize = 0;
    while i < n
        invariant
            n == sysex@.len(),
            i <= n,
            i < n ==> i == 3 * k,
            i == n ==> k == packet_count(sysex@),
            k <= packet_count(sysex@),
            packet_list(out).len() == if k <= 64 {
                k
            } else {
                64
            },
            forall|j: int|
                0 <= j < packet_list(out).len() ==> #[trigger] packet_list(out)[j] == packet(
                    sysex@,
                    j,
                ),
        decreases n - i,
    {
        let rem = n - i;
        let pkt: [u8; 4] = if rem >= 3 {
            if rem == 3 && sysex[n - 1] == SYSEX_END {
                [0x07, sysex[i], sysex[i + 1], sysex[i + 2]]
            } else {
                [0x04, sysex[i], sysex[i + 1], sysex[i + 2]]
            }
        } else if rem == 2 {
            [0x06, sysex[i], sysex[i + 1], 0x00]
        } else {
            [0x05, sysex[i], 0x00, 0x00]
        };
        assert(pkt@ =~= packet(sysex@, k as int));
        packets_push(&mut out, pkt);
        i = if rem >= 3 {
            i + 3
        } else {
            n
        };
        k = k + 1;
    }
    out
}

/// Appending to a sequence and cutting it is cutting it and appending while
/// there is room.
pub proof fn lemma_capped_push(s: Seq<u8>, b: u8, n: int)
    requires
        n >= 0,
    ensures
        capped(s.push(b), n) == if capped(s, n).len() < n {
            capped(s, n).push(b)
        } else {
            capped(s, n)
        },
{
    if s.len() < n {
        assert(capped(s.push(b), n) =~= s.push(b));
    } else {
        assert(capped(s.push(b), n) =~= capped(s, n));
    }
}

/// Appends `b` while fewer than the gathering capacity are held.
fn gather_byte(out: &mut heapless::Vec<u8, 512>, b: u8, Ghost(all): Ghost<Seq<u8>>)
    requires
        gathered_bytes(*old(out)) == capped(all, 512),
    ensures
        gathered_bytes(*final(out)) == capped(all.push(b), 512),
{
    proof {
        lemma_capped_push(all, b, 512);
    }
    buffer_push(out, b);
}

/// Appends `b`, unless it is zero, while fewer than the gathering capacity
/// are held.
fn gather_nonzero(out: &mut heapless::Vec<u8, 512>, b: u8, Ghost(all): Ghost<Seq<u8>>)
    requires
        gathered_bytes(*old(out)) == capped(all, 512),
    ensures
        gathered_bytes(*final(out)) == capped(all + keep(b), 512),
{
    if b != 0 {
        assert(all + keep(b) =~= all.push(b));
        gather_byte(out, b, Ghost(all));
    } else {
        assert(all + keep(b) =~= all);
    }
}

/// Reads the payload of a system-exclusive message back from the bytes of
/// its packets. Bytes after the last whole group of four are ignored.
pub fn extract_sysex_payload(data: &[u8]) -> (r: Option<heapless::Vec<u8, 512>>)
    ensures
        match (r, extract_spec(data@)) {
            (Some(v), Some(s)) => gathered_bytes(v) == s,
            (None, None) => true,
            _ => false,
        },
{
    let groups = data.len() / 4;
    let mut out = buffer_new();
    let mut k: usize = 0;
    let mut base: usize = 0;
    assert(capped(Seq::<u8>::empty(), 512) == Seq::<u8>::empty());
    while k < groups
        invariant
            groups == data@.len() / 4,
            k <= groups,
            base == 4 * k,
            gathered_bytes(out) == capped(gathered(data@, k as nat), 512),
        decreases groups - k,
    {
        assert(base + 4 <= data@.len());
        let ghost before = gathered(data@, k as nat);
        let ghost g = data@.subrange(4 * k, 4 * k + 4);
        let cin = data[base] & 0x0F;
        let b1 = data[base + 1];
        let b2 = data[base + 2];
        let b3 = data[base + 3];
        assert(g[0] == data@[4 * k] && g[1] == b1 && g[2] == b2 && g[3] == b3);
        assert(gathered(data@, (k + 1) as nat) == before + group_bytes(g));
        if cin == 0x4 {
            gather_byte(&mut out, b1, Ghost(before));
            gather_byte(&mut out, b2, Ghost(before.push(b1)));
            gather_byte(&mut out, b3, Ghost(before.push(b1).push(b2)));
            assert(before.push(b1).push(b2).push(b3) =~= before + group_bytes(g));
        } else if cin == 0x5 {
            gather_nonzero(&mut out, b1, Ghost(before));
        } else if cin == 0x6 {
            gather_nonzero(&mut out, b1, Ghost(before));
            gather_nonzero(&mut out, b2, Ghost(before + keep(b1)));
            assert(before + keep(b1) + keep(b2) =~= before + group_bytes(g));
        } else if cin == 0x7 {
            gather_nonzero(&mut out, b1, Ghost(before));
            gather_nonzero(&mut out, b2, Ghost(before + keep(b1)));
            gather_nonzero(&mut out, b3, Ghost(before + keep(b1) + keep(b2)));
            assert(before + keep(b1) + keep(b2) + keep(b3) =~= before + group_bytes(g));
        } else {
            assert(before + group_bytes(g) =~= before);
        }
        k = k + 1;
        base = base + 4;
    }
    let held = buffer_as_slice(&out);
    let n = held.len();
    if n > 0 && held[0] == SYSEX_START && held[n - 1] == SYSEX_END {
        let mut payload = buffer_new();
        if buffer_extend(&mut payload, slice_subrange(held, 1, n - 1)) {
            assert(Seq::<u8>::empty() + held@.subrange(1, n - 1) =~= held@.subrange(1, n - 1));
            Some(payload)
        } else {
            None
        }
    } else {
        None
    }
}

/// The bytes of a sequence of packets, one packet after the other.
#[verifier::opaque]
pub open spec fn flatten(p: Seq<Seq<u8>>) -> Seq<u8> {
    Seq::new((4 * p.len()) as nat, |j: int| p[j / 4][j % 4])
}

/// Number of bytes of a message of `len` bytes that its last packet carries.
pub open spec fn last_group_len(len: int) -> int {
    len - 3 * ((len - 1) / 3)
}

/// Whether no payload byte that travels in the last packet is zero.
pub open spec fn survives_padding(payload: Seq<u8>) -> bool {
    let n = payload.len() as int + 2;
    forall|i: int| 0 <= i < payload.len() && i + 1 >= n - last_group_len(n) ==> payload[i] != 0
}

/// A group of four bytes within the bytes of a message's packets is a packet.
proof fn lemma_flatten_group(sysex: Seq<u8>, k: int)
    requires
        0 <= k < packet_count(sysex),
    ensures
        flatten(packets(sysex)).len() == 4 * packet_count(sysex),
        flatten(packets(sysex)).subrange(4 * k, 4 * k + 4) == packet(sysex, k),
{
    reveal(flatten);
    let data = flatten(packets(sysex));
    let g = data.subrange(4 * k, 4 * k + 4);
    assert forall|j: int| 0 <= j < 4 implies g[j] == packet(sysex, k)[j] by {
        assert((4 * k + j) / 4 == k);
        assert((4 * k + j) % 4 == j);
    }
    assert(g =~= packet(sysex, k));
}

/// Before its last packet, what is gathered from a message's packets is the
/// message so far.
proof fn lemma_gathered_prefix(sysex: Seq<u8>, k: nat)
    requires
        k < packet_count(sysex),
    ensures
        gathered(flatten(packets(sysex)), k) == sysex.take(3 * k as int),
    decreases k,
{
    let data = flatten(packets(sysex));
    if k == 0 {
        assert(sysex.take(0) =~= Seq::<u8>::empty());
    } else {
        let j = k as int - 1;
        lemma_gathered_prefix(sysex, j as nat);
        lemma_flatten_group(sysex, j);
        assert(0x04u8 & 0x0Fu8 == 4) by (bit_vector);
        let g = packet(sysex, j);
        assert(sysex.len() - 3 * j > 3);
        assert(group_bytes(g) == seq![sysex[3 * j], sysex[3 * j + 1], sysex[3 * j + 2]]);
        assert(sysex.take(3 * j) + group_bytes(g) =~= sysex.take(3 * k as int));
    }
}

/// The last packet of a message that ends in `0xF7` carries what is left of
/// the message, provided that none of those bytes is zero.
proof fn lemma_last_group(sysex: Seq<u8>, k: int)
    requires
        0 <= k,
        1 <= sysex.len() - 3 * k <= 3,
        sysex.last() == 0xF7u8,
        forall|j: int| 3 * k <= j < sysex.len() ==> sysex[j] != 0,
    ensures
        group_bytes(packet(sysex, k)) == sysex.subrange(3 * k, sysex.len() as int),
{
    let i = 3 * k;
    let rem = sysex.len() - i;
    let g = packet(sysex, k);
    assert(0x05u8 & 0x0Fu8 == 5) by (bit_vector);
    assert(0x06u8 & 0x0Fu8 == 6) by (bit_vector);
    assert(0x07u8 & 0x0Fu8 == 7) by (bit_vector);
    assert(sysex[i] != 0);
    if rem == 1 {
        assert(group_bytes(g) == keep(sysex[i]));
        assert(keep(sysex[i]) =~= sysex.subrange(i, sysex.len() as int));
    } else if rem == 2 {
        assert(sysex[i + 1] != 0);
        assert(group_bytes(g) == keep(sysex[i]) + keep(sysex[i + 1]));
        assert(keep(sysex[i]) + keep(sysex[i + 1]) =~= sysex.subrange(i, sysex.len() as int));
    } else {
        assert(sysex[i + 1] != 0);
        assert(sysex[i + 2] != 0);
        assert(group_bytes(g) == keep(sysex[i]) + keep(sysex[i + 1]) + keep(sysex[i + 2]));
        assert(keep(sysex[i]) + keep(sysex[i + 1]) + keep(sysex[i + 2]) =~= sysex.subrange(
            i,
            sysex.len() as int,
        ));
    }
}

/// A payload that is framed, split into packets and read back from their
/// bytes comes out as it went in, provided that the framed message fits the
/// gathering capacity and that no payload byte in the last packet is zero.
pub proof fn lemma_sysex_round_trip(payload: Seq<u8>)
    requires
        payload.len() + 2 <= GATHER_CAP,
        survives_padding(payload),
    ensures
        extract_spec(flatten(packets(frame(payload)))) == Some(payload),
{
    let s = frame(payload);
    let n = s.len() as int;
    let m = packet_count(s);
    let data = flatten(packets(s));
    assert(n == payload.len() + 2);
    assert(m >= 1);
    let k = m - 1;
    assert(1 <= n - 3 * k <= 3);
    lemma_gathered_prefix(s, k as nat);
    lemma_flatten_group(s, k);
    assert(data.len() / 4 == m);
    assert(n - 3 * k == last_group_len(n));
    assert(s[0] == 0xF0u8);
    assert(s.last() == 0xF7u8);
    assert forall|j: int| 3 * k <= j < n implies s[j] != 0 by {
        if 0 < j < n - 1 {
            assert(s[j] == payload[j - 1]);
        }
    }
    lemma_last_group(s, k);
    let all = gathered(data, m as nat);
    assert(all == gathered(data, k as nat) + group_bytes(packet(s, k)));
    assert(all =~= s);
    assert(capped(all, 512) == s);
    assert(s.subrange(1, n - 1) =~= payload);
}

} // verus!
