//! Byte-level building blocks of the wire formats: little-endian integers and copies
//! into a buffer at a fixed place.

use vstd::prelude::*;

verus! {

/// The little-endian encoding of `value` in `width` bytes: the least significant byte
/// first. A value that needs more than `width` bytes loses its upper part.
pub open spec fn le_bytes(value: nat, width: nat) -> Seq<u8>
    decreases width,
{
    if width == 0 {
        Seq::empty()
    } else {
        seq![(value % 256) as u8] + le_bytes(value / 256, (width - 1) as nat)
    }
}

/// `le_bytes` has the width asked for.
pub proof fn lemma_le_bytes_len(value: nat, width: nat)
    ensures
        le_bytes(value, width).len() == width,
    decreases width,
{
    if width > 0 {
        lemma_le_bytes_len(value / 256, (width - 1) as nat);
    }
}

/// The eight bytes of a `u64`, least significant first.
pub fn u64_le(value: u64) -> (bytes: [u8; 8])
    ensures
        bytes@ == le_bytes(value as nat, 8),
{
    let mut bytes = [0u8; 8];
    let mut rest: u64 = value;
    let mut i: usize = 0;
    while i < 8
        invariant
            i <= 8,
            le_bytes(value as nat, 8) =~= bytes@.take(i as int) + le_bytes(
                rest as nat,
                (8 - i) as nat,
            ),
        decreases 8 - i,
    {
        bytes[i] = (rest % 256) as u8;
        proof {
            let tail = le_bytes(rest as nat, (8 - i) as nat);
            assert(tail == seq![(rest % 256) as u8] + le_bytes(
                (rest / 256) as nat,
                (8 - i - 1) as nat,
            ));
            assert(bytes@.take(i as int + 1) =~= bytes@.take(i as int).push((rest % 256) as u8));
        }
        rest = rest / 256;
        i += 1;
    }
    assert(bytes@.take(8) =~= bytes@);
    bytes
}

/// The four bytes of a `u32`, least significant first.
pub fn u32_le(value: u32) -> (bytes: [u8; 4])
    ensures
        bytes@ == le_bytes(value as nat, 4),
{
    let mut bytes = [0u8; 4];
    let mut rest: u32 = value;
    let mut i: usize = 0;
    while i < 4
        invariant
            i <= 4,
            le_bytes(value as nat, 4) =~= bytes@.take(i as int) + le_bytes(
                rest as nat,
                (4 - i) as nat,
            ),
        decreases 4 - i,
    {
        bytes[i] = (rest % 256) as u8;
        proof {
            let tail = le_bytes(rest as nat, (4 - i) as nat);
            assert(tail == seq![(rest % 256) as u8] + le_bytes(
                (rest / 256) as nat,
                (4 - i - 1) as nat,
            ));
            assert(bytes@.take(i as int + 1) =~= bytes@.take(i as int).push((rest % 256) as u8));
        }
        rest = rest / 256;
        i += 1;
    }
    assert(bytes@.take(4) =~= bytes@);
    bytes
}

/// What a buffer holds after `source` was copied to its positions `offset`,
/// `offset + 1`, ...: as much of `source` as the buffer has room for is copied, and
/// every other byte of the buffer keeps its value.
pub open spec fn overwrite(buffer: Seq<u8>, offset: int, source: Seq<u8>) -> Seq<u8> {
    Seq::new(
        buffer.len(),
        |i: int|
            if offset <= i < offset + source.len() {
                source[i - offset]
            } else {
                buffer[i]
            },
    )
}

/// Copies `source` to the start of `destination`, byte by byte, and stops at the end
/// of the shorter of the two. The rest of `destination` keeps its content.
pub fn write_bytes(destination: &mut [u8], source: &[u8])
    ensures
        final(destination)@ == overwrite(old(destination)@, 0, source@),
{
    write_at(destination, 0, source);
}

/// Copies `source` into `buffer` from position `offset` on, byte by byte, and stops
/// at the end of `source` or of `buffer`, whichever comes first. The rest of `buffer`
/// keeps its content.
pub fn write_at(buffer: &mut [u8], offset: usize, source: &[u8])
    ensures
        final(buffer)@ == overwrite(old(buffer)@, offset as int, source@),
{
    let len: usize = buffer.len();
    if offset >= len {
        assert(buffer@ =~= overwrite(buffer@, offset as int, source@));
        return ;
    }
    let room: usize = len - offset;
    let count: usize = if source.len() < room {
        source.len()
    } else {
        room
    };
    let mut i: usize = 0;
    while i < count
        invariant
            i <= count,
            count <= source@.len(),
            offset + count <= len,
            buffer@.len() == len,
            len == old(buffer)@.len(),
            buffer@ =~= overwrite(old(buffer)@, offset as int, source@.take(i as int)),
        decreases count - i,
    {
        buffer[offset + i] = source[i];
        i += 1;
    }
    assert(buffer@ =~= overwrite(old(buffer)@, offset as int, source@));
}

} // verus!
