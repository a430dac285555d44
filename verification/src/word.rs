//! Byte-granular patches of machine words.
//!
//! The tracing interface reads and writes whole words only. A single byte is
//! changed by reading the word that contains it, replacing that byte and
//! writing the word back. The functions here do the arithmetic of that; their
//! contracts are stated over the little-endian byte sequence of a word.

use vstd::prelude::*;

verus! {

/// Number of bytes in one machine word of the traced process.
pub const WORD_BYTES: usize = 8;

/// The one-byte trap instruction that a breakpoint puts in place of the
/// original instruction byte.
pub const TRAP_BYTE: u8 = 0xcc;

/// The address of the word that contains `addr`.
pub open spec fn word_base(addr: usize) -> int {
    addr - addr % 8
}

/// The position of the byte at `addr` inside its word, 0 being the least
/// significant byte.
pub open spec fn byte_index(addr: usize) -> int {
    addr as int % 8
}

/// The byte of `word` at position `index`.
pub open spec fn word_byte(word: u64, index: int) -> u8 {
    ((word >> ((8 * index) as u64)) & 0xff) as u8
}

/// The eight bytes of `word`, least significant first.
pub open spec fn word_bytes(word: u64) -> Seq<u8> {
    Seq::new(8, |i: int| word_byte(word, i))
}

proof fn lemma_replaced_byte(word: u64, val: u8, shift: u64, at: u64)
    by (bit_vector)
    requires
        shift == 0 || shift == 8 || shift == 16 || shift == 24 || shift == 32 || shift == 40
            || shift == 48 || shift == 56,
        at == 0 || at == 8 || at == 16 || at == 24 || at == 32 || at == 40 || at == 48 || at
            == 56,
    ensures
        ((((word & !(0xffu64 << shift)) | ((val as u64) << shift)) >> at) & 0xff) as u8 == (if at
            == shift {
            val
        } else {
            ((word >> at) & 0xff) as u8
        }),
{
}

proof fn lemma_bytes_determine_word(a: u64, b: u64)
    by (bit_vector)
    requires
        (a >> 0) & 0xff == (b >> 0) & 0xff,
        (a >> 8) & 0xff == (b >> 8) & 0xff,
        (a >> 16) & 0xff == (b >> 16) & 0xff,
        (a >> 24) & 0xff == (b >> 24) & 0xff,
        (a >> 32) & 0xff == (b >> 32) & 0xff,
        (a >> 40) & 0xff == (b >> 40) & 0xff,
        (a >> 48) & 0xff == (b >> 48) & 0xff,
        (a >> 56) & 0xff == (b >> 56) & 0xff,
    ensures
        a == b,
{
}

proof fn lemma_byte_widens(x: u64)
    by (bit_vector)
    ensures
        (((x & 0xff) as u8) as u64) == x & 0xff,
{
}

proof fn lemma_same_byte(a: u64, b: u64, i: int)
    requires
        word_bytes(a) == word_bytes(b),
        0 <= i < 8,
    ensures
        (a >> ((8 * i) as u64)) & 0xff == (b >> ((8 * i) as u64)) & 0xff,
{
    let x = a >> ((8 * i) as u64);
    let y = b >> ((8 * i) as u64);
    assert(word_bytes(a)[i] == word_byte(a, i));
    assert(word_bytes(b)[i] == word_byte(b, i));
    assert(((x & 0xff) as u8) == ((y & 0xff) as u8));
    lemma_byte_widens(x);
    lemma_byte_widens(y);
}

/// Two words with the same bytes are the same word.
pub proof fn lemma_word_bytes_injective(a: u64, b: u64)
    requires
        word_bytes(a) == word_bytes(b),
    ensures
        a == b,
{
    lemma_same_byte(a, b, 0);
    lemma_same_byte(a, b, 1);
    lemma_same_byte(a, b, 2);
    lemma_same_byte(a, b, 3);
    lemma_same_byte(a, b, 4);
    lemma_same_byte(a, b, 5);
    lemma_same_byte(a, b, 6);
    lemma_same_byte(a, b, 7);
    lemma_bytes_determine_word(a, b);
}

/// Rounds `addr` down to the start of the word that contains it.
pub fn align_addr_to_word(addr: usize) -> (aligned: usize)
    ensures
        aligned == word_base(addr),
        aligned % 8 == 0,
        aligned <= addr < aligned + 8,
{
    addr - addr % WORD_BYTES
}

/// The byte that `word` holds for address `addr`, given that `word` is the
/// content of the word that contains `addr`.
pub fn byte_of_word(word: u64, addr: usize) -> (byte: u8)
    ensures
        byte == word_bytes(word)[byte_index(addr)],
{
    let shift: u64 = 8 * ((addr % WORD_BYTES) as u64);
    ((word >> shift) & 0xff) as u8
}

/// `word` with the byte for address `addr` replaced by `val` and every other
/// byte as it was.
pub fn replace_byte(word: u64, addr: usize, val: u8) -> (patched: u64)
    ensures
        word_bytes(patched) == word_bytes(word).update(byte_index(addr), val),
{
    let shift: u64 = 8 * ((addr % WORD_BYTES) as u64);
    let masked: u64 = word & !(0xffu64 << shift);
    let patched: u64 = masked | ((val as u64) << shift);
    proof {
        assert forall|i: int| 0 <= i < 8 implies word_byte(patched, i) == word_bytes(word).update(
            byte_index(addr),
            val,
        )[i] by {
            lemma_replaced_byte(word, val, shift, (8 * i) as u64);
        }
        assert(word_bytes(patched) =~= word_bytes(word).update(byte_index(addr), val));
    }
    patched
}

/// Writing a byte at `addr` and then writing back the byte that was there
/// before restores the word bit for bit.
pub proof fn lemma_patch_then_restore(word: u64, patched: u64, restored: u64, addr: usize, val: u8)
    requires
        word_bytes(patched) == word_bytes(word).update(byte_index(addr), val),
        word_bytes(restored) == word_bytes(patched).update(
            byte_index(addr),
            word_bytes(word)[byte_index(addr)],
        ),
    ensures
        restored == word,
{
    assert(word_bytes(restored) =~= word_bytes(word));
    lemma_word_bytes_injective(restored, word);
}

/// After a byte was written at `addr`, the word holds that byte there: a
/// later write to the same address returns it as the byte it displaces.
pub proof fn lemma_patch_reads_back(word: u64, patched: u64, addr: usize, val: u8)
    requires
        word_bytes(patched) == word_bytes(word).update(byte_index(addr), val),
    ensures
        word_bytes(patched)[byte_index(addr)] == val,
{
}

/// Arming a breakpoint at `addr`, disarming it and arming it again leaves
/// the word exactly as the first arming left it, and the byte that the
/// second arming displaces is the one that the first displaced.
pub proof fn lemma_rearm_is_durable(
    word: u64,
    armed: u64,
    disarmed: u64,
    rearmed: u64,
    addr: usize,
)
    requires
        word_bytes(armed) == word_bytes(word).update(byte_index(addr), TRAP_BYTE),
        word_bytes(disarmed) == word_bytes(armed).update(
            byte_index(addr),
            word_bytes(word)[byte_index(addr)],
        ),
        word_bytes(rearmed) == word_bytes(disarmed).update(byte_index(addr), TRAP_BYTE),
    ensures
        disarmed == word,
        rearmed == armed,
        word_bytes(disarmed)[byte_index(addr)] == word_bytes(word)[byte_index(addr)],
{
    lemma_patch_then_restore(word, armed, disarmed, addr, TRAP_BYTE);
    assert(word_bytes(rearmed) =~= word_bytes(armed));
    lemma_word_bytes_injective(rearmed, armed);
}

} // verus!
