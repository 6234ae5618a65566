use fdtd_gpu::wire::{pack_words, unpack_word};

fn native(words: &[u32]) -> Vec<u8> {
    let mut bytes = Vec::new();
    for w in words {
        bytes.extend_from_slice(&w.to_ne_bytes());
    }
    bytes
}

#[test]
fn pack_words_gives_native_bytes_in_order() {
    let words = [0x0102_0304u32, 0xAABB_CCDD, 0, u32::MAX, 1];
    assert_eq!(pack_words(&words), native(&words));
}

#[test]
fn pack_words_of_nothing_is_empty() {
    assert_eq!(pack_words(&[]), Vec::<u8>::new());
}

#[test]
fn pack_words_has_four_bytes_per_word() {
    for len in 0..20usize {
        let words: Vec<u32> = (0..len as u32).map(|w| w.wrapping_mul(0x9E37_79B9)).collect();
        assert_eq!(pack_words(&words).len(), 4 * len);
    }
}

#[test]
fn packed_sample_is_the_memory_image_of_the_float() {
    for value in [0.0f32, 1.0, -1.0, 1.5, 1.8315639e-2, f32::MAX, f32::MIN_POSITIVE] {
        assert_eq!(pack_words(&[value.to_bits()]), value.to_ne_bytes().to_vec());
    }
}

#[test]
fn unpack_word_reads_native_bytes() {
    assert_eq!(unpack_word(&0x0102_0304u32.to_ne_bytes()), Some(0x0102_0304));
    assert_eq!(unpack_word(&[0, 0, 0, 0]), Some(0));
    assert_eq!(unpack_word(&[255, 255, 255, 255]), Some(u32::MAX));
    let one = 1.0f32;
    assert_eq!(unpack_word(&one.to_ne_bytes()).map(f32::from_bits), Some(1.0));
}

#[test]
fn unpack_word_wants_exactly_four_bytes() {
    assert_eq!(unpack_word(&[]), None);
    assert_eq!(unpack_word(&[1, 2, 3]), None);
    assert_eq!(unpack_word(&[1, 2, 3, 4, 5]), None);
    assert_eq!(unpack_word(&[0; 8]), None);
}

#[test]
fn unpack_word_inverts_pack_words() {
    for w in [0u32, 1, 255, 256, 65_535, 65_536, 0x3F80_0000, 0x8000_0000, 0xDEAD_BEEF, u32::MAX] {
        assert_eq!(unpack_word(&pack_words(&[w])), Some(w));
    }
}

#[test]
fn unpack_word_reads_a_word_out_of_a_packed_run() {
    let words = [7u32, 0x1122_3344, 0xFFFF_0000];
    let bytes = pack_words(&words);
    for (at, w) in words.iter().enumerate() {
        assert_eq!(unpack_word(&bytes[4 * at..4 * at + 4]), Some(*w));
    }
}
