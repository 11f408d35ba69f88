//! Unsigned integers as big-endian byte strings.

use vstd::prelude::*;

verus! {

/// The number that a byte string denotes, most significant byte first.
pub open spec fn be_value(bytes: Seq<u8>) -> nat
    decreases bytes.len(),
{
    if bytes.len() == 0 {
        0
    } else {
        be_value(bytes.drop_last()) * 256 + bytes.last() as nat
    }
}

/// The `width` low-order bytes of `value`, most significant byte first.
pub open spec fn be_bytes(value: nat, width: nat) -> Seq<u8>
    decreases width,
{
    if width == 0 {
        Seq::empty()
    } else {
        be_bytes(value / 256, (width - 1) as nat).push((value % 256) as u8)
    }
}

/// The number of values that `width` bytes can tell apart.
pub open spec fn byte_range(width: nat) -> nat
    decreases width,
{
    if width == 0 {
        1
    } else {
        256 * byte_range((width - 1) as nat)
    }
}

/// Eight bytes tell apart exactly the values of a `u64`.
pub proof fn lemma_byte_range_of_u64()
    ensures
        byte_range(8) == 0x1_0000_0000_0000_0000,
{
    reveal_with_fuel(byte_range, 9);
}

/// Writing a number that fits in `width` bytes and reading it back gives
/// the number.
pub proof fn lemma_be_value_of_bytes(value: nat, width: nat)
    requires
        value < byte_range(width),
    ensures
        be_bytes(value, width).len() == width,
        be_value(be_bytes(value, width)) == value,
    decreases width,
{
    if width > 0 {
        lemma_be_value_of_bytes(value / 256, (width - 1) as nat);
        let written = be_bytes(value, width);
        assert(written.drop_last() =~= be_bytes(value / 256, (width - 1) as nat));
    }
}

/// Reading a byte string and writing the number back at the same width
/// gives the byte string.
pub proof fn lemma_be_bytes_of_value(bytes: Seq<u8>)
    ensures
        be_value(bytes) < byte_range(bytes.len()),
        be_bytes(be_value(bytes), bytes.len()) == bytes,
    decreases bytes.len(),
{
    if bytes.len() > 0 {
        lemma_be_bytes_of_value(bytes.drop_last());
        let value = be_value(bytes);
        assert(value / 256 == be_value(bytes.drop_last()));
        assert(value % 256 == bytes.last() as nat);
        assert(be_bytes(value, bytes.len()) =~= bytes);
    } else {
        assert(be_bytes(0, 0) =~= bytes);
    }
}

/// Reads the first eight bytes of `buffer` as a big-endian `u64`.
pub fn be_byte_buffer_to_u64(buffer: &[u8]) -> (value: u64)
    requires
        buffer.len() >= 8,
    ensures
        value == be_value(buffer@.subrange(0, 8)),
{
    let mut value: u64 = 0;
    let mut i: usize = 0;
    while i < 8
        invariant
            i <= 8,
            buffer.len() >= 8,
            value == be_value(buffer@.subrange(0, i as int)),
        decreases 8 - i,
    {
        proof {
            let read = buffer@.subrange(0, i as int);
            lemma_be_bytes_of_value(read);
            lemma_byte_range_grows(i as nat, 7);
            reveal_with_fuel(byte_range, 8);
            assert(buffer@.subrange(0, i + 1).drop_last() =~= read);
        }
        value = value * 256 + buffer[i] as u64;
        i = i + 1;
    }
    value
}

/// Appends the eight big-endian bytes of `value` to `buffer`.
pub fn push_be_u64(buffer: &mut Vec<u8>, value: u64)
    ensures
        final(buffer)@ == old(buffer)@ + be_bytes(value as nat, 8),
{
    let b7: u8 = (value % 256) as u8;
    let v1: u64 = value / 256;
    let b6: u8 = (v1 % 256) as u8;
    let v2: u64 = v1 / 256;
    let b5: u8 = (v2 % 256) as u8;
    let v3: u64 = v2 / 256;
    let b4: u8 = (v3 % 256) as u8;
    let v4: u64 = v3 / 256;
    let b3: u8 = (v4 % 256) as u8;
    let v5: u64 = v4 / 256;
    let b2: u8 = (v5 % 256) as u8;
    let v6: u64 = v5 / 256;
    let b1: u8 = (v6 % 256) as u8;
    let v7: u64 = v6 / 256;
    let b0: u8 = (v7 % 256) as u8;
    buffer.push(b0);
    buffer.push(b1);
    buffer.push(b2);
    buffer.push(b3);
    buffer.push(b4);
    buffer.push(b5);
    buffer.push(b6);
    buffer.push(b7);
    proof {
        reveal_with_fuel(be_bytes, 9);
        assert(be_bytes(value as nat, 8) =~= seq![b0, b1, b2, b3, b4, b5, b6, b7]);
        assert(buffer@ =~= old(buffer)@ + seq![b0, b1, b2, b3, b4, b5, b6, b7]);
    }
}

/// A wider byte string tells apart at least as many values.
pub proof fn lemma_byte_range_grows(narrow: nat, wide: nat)
    requires
        narrow <= wide,
    ensures
        byte_range(narrow) <= byte_range(wide),
    decreases wide,
{
    if narrow < wide {
        lemma_byte_range_grows(narrow, (wide - 1) as nat);
    }
}

} // verus!
