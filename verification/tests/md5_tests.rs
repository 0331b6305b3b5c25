use md5::bytes::{u64_to_u8_array, u8_block_to_u32_block};
use md5::digest::md5;
use md5::mix::{F, G, H, I};
use md5::padding::pad_message;
use md5::tables::{calc_k, K_TABLE, SHIFT_BY_ROUND};

#[test]
fn digest_of_empty() {
    assert_eq!(md5(b""), 0xd41d8cd98f00b204e9800998ecf8427e_u128);
}

#[test]
fn digest_of_single_letter() {
    assert_eq!(md5(b"a"), 0x0cc175b9c0f1b6a831c399e269772661_u128);
}

#[test]
fn digest_of_abc() {
    assert_eq!(md5(b"abc"), 0x900150983cd24fb0d6963f7d28e17f72_u128);
}

#[test]
fn digest_of_message_digest() {
    assert_eq!(md5(b"message digest"), 0xf96b697d7cb7938d525a2f31aaf161d0_u128);
}

#[test]
fn digest_of_alphabet() {
    assert_eq!(
        md5(b"abcdefghijklmnopqrstuvwxyz"),
        0xc3fcd3d76192e4007dfb496cca67e13b_u128
    );
}

#[test]
fn digest_of_alphanumerics() {
    assert_eq!(
        md5(b"ABCDEFGHIJKLMNOPQRSTUVWXYZabcdefghijklmnopqrstuvwxyz0123456789"),
        0xd174ab98d277d9f5a5611c2c9f419d9f_u128
    );
}

#[test]
fn digest_of_eighty_digits() {
    // Two full blocks after padding.
    let message = b"12345678901234567890123456789012345678901234567890123456789012345678901234567890";
    assert_eq!(md5(message), 0x57edf4a22be3c955ac49da2e2107b67a_u128);
}

#[test]
fn digest_of_quick_fox() {
    assert_eq!(
        md5(b"The quick brown fox jumps over the lazy dog"),
        0x9e107d9d372bb6826bd81d3542a419d6_u128
    );
}

#[test]
fn digest_of_quick_fox_with_period() {
    assert_eq!(
        md5(b"The quick brown fox jumps over the lazy dog."),
        0xe4d909c290d0fb1ca068ffaddf22cbd0_u128
    );
}

#[test]
fn digest_is_deterministic() {
    let message = b"determinism check";
    assert_eq!(md5(message), md5(message));
}

#[test]
fn multi_block_digest_differs_from_first_block_alone() {
    // State must thread across blocks: hashing only the first 64 bytes of a
    // two-block message gives a different digest.
    let message = b"12345678901234567890123456789012345678901234567890123456789012345678901234567890";
    assert_ne!(md5(message), md5(&message[..64]));
}

#[test]
fn padded_length_is_multiple_of_64() {
    for len in [0usize, 1, 54, 55, 56, 57, 63, 64, 65, 100, 127, 128, 200] {
        let message = vec![0xabu8; len];
        let padded = pad_message(&message);
        assert_eq!(padded.len() % 64, 0);
        assert!(padded.len() >= len + 9);
    }
}

#[test]
fn padding_adds_exactly_one_marker_byte() {
    for len in [0usize, 1, 55, 56, 63, 64, 100] {
        let message = vec![0u8; len];
        let padded = pad_message(&message);
        let markers = padded.iter().filter(|&&b| b == 0x80).count();
        assert_eq!(markers, 1);
        assert_eq!(padded[len], 0x80);
    }
}

#[test]
fn padding_of_55_byte_message_has_no_zero_fill() {
    let message = vec![7u8; 55];
    let padded = pad_message(&message);
    assert_eq!(padded.len(), 64);
    assert_eq!(padded[55], 0x80);
    // The last 8 bytes are the bit length, 55 * 8 = 440, little-endian.
    assert_eq!(&padded[56..], &[0xb8, 0x01, 0, 0, 0, 0, 0, 0]);
}

#[test]
fn padding_trailer_is_little_endian_bit_length() {
    let message = vec![1u8; 3];
    let padded = pad_message(&message);
    assert_eq!(padded.len(), 64);
    assert_eq!(&padded[56..], &[24, 0, 0, 0, 0, 0, 0, 0]);
    assert!(padded[4..56].iter().all(|&b| b == 0));
}

#[test]
fn u64_decomposes_most_significant_byte_first() {
    assert_eq!(
        u64_to_u8_array(0x0123456789abcdef),
        [0x01, 0x23, 0x45, 0x67, 0x89, 0xab, 0xcd, 0xef]
    );
    assert_eq!(u64_to_u8_array(0), [0; 8]);
    assert_eq!(u64_to_u8_array(u64::MAX), [0xff; 8]);
}

#[test]
fn block_words_assemble_little_endian() {
    let mut block = [0u8; 64];
    for i in 0..64 {
        block[i] = i as u8;
    }
    let words = u8_block_to_u32_block(&block);
    assert_eq!(words[0], 0x03020100);
    assert_eq!(words[1], 0x07060504);
    assert_eq!(words[15], 0x3f3e3d3c);
}

#[test]
fn mixing_functions_select_and_combine() {
    assert_eq!(F(0xffffffff, 0x12345678, 0x9abcdef0), 0x12345678);
    assert_eq!(F(0, 0x12345678, 0x9abcdef0), 0x9abcdef0);
    assert_eq!(G(0x12345678, 0x9abcdef0, 0xffffffff), 0x12345678);
    assert_eq!(G(0x12345678, 0x9abcdef0, 0), 0x9abcdef0);
    assert_eq!(H(0x12345678, 0x9abcdef0, 0), 0x12345678 ^ 0x9abcdef0);
    assert_eq!(H(0xaaaaaaaa, 0xaaaaaaaa, 0x55555555), 0x55555555);
    assert_eq!(I(0, 0x12345678, 0xffffffff), 0x12345678);
}

#[test]
fn round_constant_table_matches_sine_formula_values() {
    let k = calc_k();
    assert_eq!(k[0], 0xd76aa478);
    assert_eq!(k[1], 0xe8c7b756);
    assert_eq!(k[31], 0x8d2a4c8a);
    assert_eq!(k[63], 0xeb86d391);
    assert_eq!(k, K_TABLE);
}

#[test]
fn shift_table_quarters() {
    assert_eq!(&SHIFT_BY_ROUND[0..4], &[7, 12, 17, 22]);
    assert_eq!(&SHIFT_BY_ROUND[16..20], &[5, 9, 14, 20]);
    assert_eq!(&SHIFT_BY_ROUND[32..36], &[4, 11, 16, 23]);
    assert_eq!(&SHIFT_BY_ROUND[48..52], &[6, 10, 15, 21]);
}
