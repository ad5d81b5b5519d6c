//! Command encoding and the two checksum families of the read protocol.

use vstd::prelude::*;

use crate::error::Error;

verus! {

/// One cell of the station's memory: a device address and the number of
/// bytes a read of the cell returns.
#[derive(Clone, Copy, Debug, PartialEq, Eq, Structural)]
pub struct Memory {
    pub address: u32,
    pub size: usize,
}

impl Memory {
    /// A cell that a read transaction can address: twelve significant
    /// address bits, not the reset sentinel `0x06`, and one to three
    /// payload bytes.
    pub open spec fn wf(self) -> bool {
        &&& self.address < 0x1000
        &&& self.address != 0x06
        &&& 1 <= self.size <= 3
    }
}

/// The 4-bit nibble of `address` at big-endian nibble position `i`
/// (most significant nibble first).
pub open spec fn nibble(address: u32, i: int) -> u32
    recommends
        0 <= i < 4,
{
    (address >> ((4 * (3 - i)) as u32)) & 0xF
}

/// The byte that encodes the requested read length: `0xC2 + 4 * size`,
/// capped at `0xFE`.
pub open spec fn length_byte(size: int) -> u8
    recommends
        size >= 0,
{
    if 0xC2 + 4 * size < 0xFE {
        (0xC2 + 4 * size) as u8
    } else {
        0xFE
    }
}

/// Command byte `i` of the five-byte read command for a cell.
pub open spec fn command_byte(address: u32, size: int, i: int) -> u8
    recommends
        0 <= i < 5,
{
    if i < 4 {
        (0x82 + 4 * nibble(address, i)) as u8
    } else {
        length_byte(size)
    }
}

/// The full command sequence for one cell: the single reset byte for the
/// sentinel address `0x06`, else four address bytes and one length byte.
pub open spec fn encoded_command(address: u32, size: int) -> Seq<u8> {
    if address == 0x06 {
        seq![0x06u8]
    } else {
        Seq::new(5, |i: int| command_byte(address, size, i))
    }
}

/// A nibble is four bits wide.
pub proof fn lemma_nibble_bound(address: u32, i: int)
    requires
        0 <= i < 4,
    ensures
        nibble(address, i) <= 0xF,
{
    if i == 0 {
        assert((address >> 12u32) & 0xF <= 0xF) by (bit_vector);
    } else if i == 1 {
        assert((address >> 8u32) & 0xF <= 0xF) by (bit_vector);
    } else if i == 2 {
        assert((address >> 4u32) & 0xF <= 0xF) by (bit_vector);
    } else {
        assert((address >> 0u32) & 0xF <= 0xF) by (bit_vector);
    }
}

/// Encode a cell's address and read length into the command bytes the
/// station expects.
pub fn encode_address(memory: &Memory) -> (r: Vec<u8>)
    ensures
        r@ == encoded_command(memory.address, memory.size as int),
{
    let mut command: Vec<u8> = Vec::new();

    if memory.address == 0x06 {
        command.push(0x06);
        proof {
            assert(command@ =~= encoded_command(memory.address, memory.size as int));
        }
    } else {
        let mut i: usize = 0;
        while i < 4
            invariant
                i <= 4,
                command@.len() == i,
                forall|j: int|
                    0 <= j < i ==> command@[j] == command_byte(
                        memory.address,
                        memory.size as int,
                        j,
                    ),
            decreases 4 - i,
        {
            let shift: u32 = 4 * (3 - i as u32);
            let nib: u32 = (memory.address >> shift) & 0x0F;
            proof {
                lemma_nibble_bound(memory.address, i as int);
                assert(nib == nibble(memory.address, i as int));
            }
            command.push(0x82 + (nib * 4) as u8);
            i = i + 1;
        }

        let len_byte: u8 = if memory.size < 15 {
            (0xC2 + 4 * memory.size) as u8
        } else {
            0xFE
        };
        command.push(len_byte);
        proof {
            assert(command@ =~= encoded_command(memory.address, memory.size as int));
        }
    }

    command
}

/// The echo byte the station must answer to command byte `command` sent as
/// step `sequence` of a transaction: for the four address bytes the step
/// index in the high nibble and the address nibble in the low bits, for the
/// length byte `0x30` plus the encoded size.
pub open spec fn expected_echo(command: u8, sequence: int) -> int
    recommends
        0 <= sequence < 5,
        sequence < 4 ==> command >= 0x82,
        sequence == 4 ==> command >= 0xC2,
{
    if sequence < 4 {
        16 * sequence + (command - 0x82) / 4
    } else {
        0x30 + (command - 0xC2) / 4
    }
}

/// Validate one echoed byte against the command byte that was sent as step
/// `sequence` of a transaction. A mismatch is a transient link failure.
pub fn check(command: u8, sequence: usize, answer: u8) -> (r: Result<(), Error>)
    requires
        sequence < 5,
        sequence < 4 ==> command >= 0x82,
        sequence == 4 ==> command >= 0xC2,
    ensures
        r is Ok <==> answer == expected_echo(command, sequence as int),
        r is Err ==> r == Err::<(), Error>(Error::Check),
{
    let checksum: u8 = if sequence < 4 {
        (sequence as u8) * 16 + (command - 0x82) / 4
    } else {
        0x30 + (command - 0xC2) / 4
    };

    if checksum == answer {
        Ok(())
    } else {
        Err(Error::Check)
    }
}

/// The sum of all bytes of `s` as unsigned integers.
pub open spec fn byte_sum(s: Seq<u8>) -> int
    decreases s.len(),
{
    if s.len() == 0 {
        0
    } else {
        byte_sum(s.drop_last()) + s.last()
    }
}

/// Validate a response payload against its trailing checksum byte: the sum
/// of the payload bytes masked to eight bits must equal the trailer.
pub fn check_data(answer: u8, response: &Vec<u8>) -> (r: Result<(), Error>)
    ensures
        r is Ok <==> byte_sum(response@) % 256 == answer,
        r is Err ==> r == Err::<(), Error>(Error::CheckData),
{
    let mut checksum: u32 = 0;
    let mut i: usize = 0;
    while i < response.len()
        invariant
            i <= response@.len(),
            checksum == byte_sum(response@.take(i as int)) % 256,
        decreases response@.len() - i,
    {
        proof {
            let prefix = response@.take(i as int);
            let next = response@.take(i + 1);
            assert(next.drop_last() =~= prefix);
            assert(next.last() == response@[i as int]);
            vstd::arithmetic::div_mod::lemma_add_mod_noop(
                byte_sum(prefix),
                response@[i as int] as int,
                256,
            );
            vstd::arithmetic::div_mod::lemma_small_mod(response@[i as int] as nat, 256);
        }
        checksum = (checksum + response[i] as u32) % 256;
        i = i + 1;
    }
    proof {
        assert(response@.take(response@.len() as int) =~= response@);
    }

    if checksum == answer as u32 {
        Ok(())
    } else {
        Err(Error::CheckData)
    }
}

proof fn lemma_byte_sum_update(s: Seq<u8>, i: int, b: u8)
    requires
        0 <= i < s.len(),
    ensures
        byte_sum(s.update(i, b)) == byte_sum(s) - s[i] + b,
    decreases s.len(),
{
    if i == s.len() - 1 {
        assert(s.update(i, b).drop_last() =~= s.drop_last());
        assert(s.update(i, b).last() == b);
    } else {
        assert(s.update(i, b).drop_last() =~= s.drop_last().update(i, b));
        assert(s.update(i, b).last() == s.last());
        lemma_byte_sum_update(s.drop_last(), i, b);
        assert(s.drop_last()[i] == s[i]);
    }
}

/// Corrupting exactly one payload byte, without correspondingly adjusting
/// the trailer, always makes the payload checksum reject.
pub proof fn lemma_corruption_detected(s: Seq<u8>, trailer: u8, i: int, b: u8)
    requires
        0 <= i < s.len(),
        b != s[i],
        byte_sum(s) % 256 == trailer,
    ensures
        byte_sum(s.update(i, b)) % 256 != trailer,
{
    lemma_byte_sum_update(s, i, b);
    let x = byte_sum(s);
    let d = b - s[i];
    if byte_sum(s.update(i, b)) % 256 == trailer {
        vstd::arithmetic::div_mod::lemma_fundamental_div_mod(x, 256);
        vstd::arithmetic::div_mod::lemma_fundamental_div_mod(x + d, 256);
        let q1 = x / 256;
        let q2 = (x + d) / 256;
        assert(d == 256 * (q2 - q1));
        assert(q2 - q1 == 0) by (nonlinear_arith)
            requires
                d == 256 * (q2 - q1),
                -256 < d < 256,
                d != 0,
        ;
        assert(false);
    }
}

/// The echo value that the construction of command byte `i` itself implies
/// for a cell: the device answers the step index and the very nibble (or
/// encoded size) that the byte carries.
pub open spec fn implied_echo(address: u32, size: int, i: int) -> int
    recommends
        0 <= i < 5,
{
    if i < 4 {
        16 * i + nibble(address, i)
    } else {
        0x30 + (length_byte(size) - 0xC2) / 4
    }
}

/// Round trip of encoding and echo checking: every command byte that
/// `encode_address` produces for a well-formed cell is accepted by `check`
/// exactly at the echo value its own construction implies.
pub proof fn lemma_encode_self_check(memory: Memory, i: int)
    requires
        memory.wf(),
        0 <= i < 5,
    ensures
        expected_echo(encoded_command(memory.address, memory.size as int)[i], i)
            == implied_echo(memory.address, memory.size as int, i),
        0 <= implied_echo(memory.address, memory.size as int, i) <= 0x3F,
{
    let size = memory.size as int;
    let cmd = encoded_command(memory.address, size);
    if i < 4 {
        lemma_nibble_bound(memory.address, i);
        let n = nibble(memory.address, i) as int;
        assert(cmd[i] == (0x82 + 4 * n) as u8);
        assert((0x82 + 4 * n) as u8 == 0x82 + 4 * n);
        assert((0x82 + 4 * n - 0x82) / 4 == n);
    } else {
        assert(cmd[i] == length_byte(size));
        assert(length_byte(size) == 0xC2 + 4 * size);
    }
}

/// The range of each command byte of a well-formed cell: the four address
/// bytes lie in `0x82 ..= 0xBE` and the length byte in `0xC6 ..= 0xCE`.
pub proof fn lemma_command_byte_bounds(memory: Memory, i: int)
    requires
        memory.wf(),
        0 <= i < 5,
    ensures
        i < 4 ==> 0x82 <= encoded_command(memory.address, memory.size as int)[i] <= 0xBE,
        i == 4 ==> 0xC6 <= encoded_command(memory.address, memory.size as int)[i] <= 0xCE,
{
    if i < 4 {
        lemma_nibble_bound(memory.address, i);
    }
}

} // verus!
