//! What the link probes have in common.

use crate::link::{Command, Header};
use vstd::prelude::*;

verus! {

/// The largest payload of a probe.
pub const MAX_PROBE_PAYLOAD: u32 = 1048576;

/// The payload of a probe unless another is asked for.
pub const DEFAULT_PROBE_PAYLOAD: u32 = 262144;

/// The bytes that a probe sends: a pattern that no power of two divides.
pub open spec fn pattern(length: nat) -> Seq<u8> {
    Seq::new(length, |i: int| (i % 251) as u8)
}

/// The bytes that a probe sends.
pub fn test_payload(length: usize) -> (payload: Vec<u8>)
    ensures
        payload@ == pattern(length as nat),
{
    let mut payload: Vec<u8> = Vec::new();
    let mut i: usize = 0;
    while i < length
        invariant
            i <= length,
            payload@ =~= pattern(i as nat),
        decreases length - i,
    {
        payload.push((i % 251) as u8);
        i += 1;
    }
    payload
}

/// Whether a frame is a greeting.
pub open spec fn is_hello(header: Header) -> bool {
    header.command == Command::Hello && header.stream_id == 0 && header.sequence == 0
}

/// Whether a frame answers the ping with this number.
pub open spec fn is_pong(header: Header, sequence: u32) -> bool {
    header.command == Command::Pong && header.stream_id == 0 && header.sequence == sequence
}

/// Whether a frame is a farewell with this number.
pub open spec fn is_goaway(header: Header, sequence: u32) -> bool {
    header.command == Command::GoAway && header.stream_id == 0 && header.sequence == sequence
}

/// Whether a frame has this kind and number, on the stream of the link itself.
pub(crate) fn is_control(header: Header, command: Command, sequence: u32) -> (is: bool)
    ensures
        is == (header.command == command && header.stream_id == 0 && header.sequence == sequence),
{
    header.command == command && header.stream_id == 0 && header.sequence == sequence
}

/// The bytes that a probe sends in all.
pub fn byte_count(payload_size: u32, rounds: u32) -> (bytes: u64)
    ensures
        bytes == payload_size * rounds,
{
    assert(payload_size * rounds <= 0xffff_ffff * 0xffff_ffff) by (nonlinear_arith)
        requires
            payload_size <= 0xffff_ffff,
            rounds <= 0xffff_ffff,
    ;
    payload_size as u64 * rounds as u64
}

/// The bytes of a probe repeat only after 251 of them, so that a shifted, repeated or
/// dropped transfer is noticed; a shorter payload is the start of a longer one.
pub proof fn patterns_show_what_is_missing(length: nat, shorter: nat, i: int, j: int)
    requires
        shorter <= length,
        0 <= i < j < length,
    ensures
        pattern(length).len() == length,
        pattern(length).take(shorter as int) == pattern(shorter),
        j - i < 251 ==> pattern(length)[i] != pattern(length)[j],
        j - i == 251 ==> pattern(length)[i] == pattern(length)[j],
{
    assert(pattern(length).take(shorter as int) =~= pattern(shorter));
}

} // verus!
