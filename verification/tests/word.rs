use deet::word::align_addr_to_word;
use deet::word::byte_of_word;
use deet::word::replace_byte;
use deet::word::TRAP_BYTE;
use deet::word::WORD_BYTES;

const WORD: u64 = 0x1122_3344_5566_7788;

#[test]
fn word_is_eight_bytes_and_trap_is_int3() {
    assert_eq!(WORD_BYTES, 8);
    assert_eq!(TRAP_BYTE, 0xcc);
}

#[test]
fn align_rounds_down_to_a_multiple_of_eight() {
    assert_eq!(align_addr_to_word(0), 0);
    assert_eq!(align_addr_to_word(7), 0);
    assert_eq!(align_addr_to_word(8), 8);
    assert_eq!(align_addr_to_word(0x4011a6), 0x4011a0);
    assert_eq!(align_addr_to_word(0x4011a8), 0x4011a8);
    assert_eq!(align_addr_to_word(usize::MAX), usize::MAX - 7);
}

#[test]
fn byte_of_word_counts_from_the_least_significant_byte() {
    assert_eq!(byte_of_word(WORD, 0x1000), 0x88);
    assert_eq!(byte_of_word(WORD, 0x1001), 0x77);
    assert_eq!(byte_of_word(WORD, 0x1002), 0x66);
    assert_eq!(byte_of_word(WORD, 0x1003), 0x55);
    assert_eq!(byte_of_word(WORD, 0x1004), 0x44);
    assert_eq!(byte_of_word(WORD, 0x1005), 0x33);
    assert_eq!(byte_of_word(WORD, 0x1006), 0x22);
    assert_eq!(byte_of_word(WORD, 0x1007), 0x11);
}

#[test]
fn replace_byte_changes_one_byte_only() {
    assert_eq!(replace_byte(WORD, 0x1000, 0xcc), 0x1122_3344_5566_77cc);
    assert_eq!(replace_byte(WORD, 0x1003, 0xcc), 0x1122_3344_cc66_7788);
    assert_eq!(replace_byte(WORD, 0x1007, 0xcc), 0xcc22_3344_5566_7788);
    assert_eq!(replace_byte(WORD, 0x1007, 0x00), 0x0022_3344_5566_7788);
    assert_eq!(replace_byte(0, 0x1005, 0xff), 0x0000_ff00_0000_0000);
    assert_eq!(replace_byte(u64::MAX, 0x1001, 0x00), 0xffff_ffff_ffff_00ff);
}

#[test]
fn replace_byte_with_the_same_byte_changes_nothing() {
    for offset in 0..8usize {
        let addr = 0x2000 + offset;
        assert_eq!(replace_byte(WORD, addr, byte_of_word(WORD, addr)), WORD);
    }
}

#[test]
fn patch_then_restore_gives_the_word_back() {
    let words = [0u64, u64::MAX, WORD, 0xcccc_cccc_cccc_cccc, 0x8000_0000_0000_0001];
    let values = [0x00u8, 0x01, 0x7f, 0x80, 0xcc, 0xff];
    for word in words {
        for value in values {
            for offset in 0..8usize {
                let addr = 0x7ffc_0000 + offset;
                let original = byte_of_word(word, addr);
                let patched = replace_byte(word, addr, value);
                assert_eq!(byte_of_word(patched, addr), value);
                assert_eq!(replace_byte(patched, addr, original), word);
            }
        }
    }
}

#[test]
fn arming_disarming_and_arming_again_gives_the_armed_word() {
    let addr = 0x4011a6;
    let original = byte_of_word(WORD, addr);
    let armed = replace_byte(WORD, addr, TRAP_BYTE);
    let disarmed = replace_byte(armed, addr, original);
    let rearmed = replace_byte(disarmed, addr, TRAP_BYTE);
    assert_eq!(disarmed, WORD);
    assert_eq!(rearmed, armed);
    assert_eq!(byte_of_word(rearmed, addr), TRAP_BYTE);
}

#[test]
fn write_byte_round_trip_at_function_entry() {
    let addr: usize = 0x4011a6;
    assert_eq!(align_addr_to_word(addr), 0x4011a0);
    // the word at 0x4011a0, least significant byte first: 5d c3 90 90 48 55 89 e5
    let word: u64 = 0xe589_5548_9090_c35d;
    let original = byte_of_word(word, addr);
    assert_eq!(original, 0x89);
    let armed = replace_byte(word, addr, 0xcc);
    assert_eq!(armed, 0xe5cc_5548_9090_c35d);
    let displaced = byte_of_word(armed, addr);
    assert_eq!(displaced, 0xcc);
    let restored = replace_byte(armed, addr, original);
    assert_eq!(restored, word);
}
