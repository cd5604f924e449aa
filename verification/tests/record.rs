use slime_sim::record::{Slime, SLIME_SIZE};

fn native(words: [u32; 4]) -> Vec<u8> {
    let mut bytes = Vec::new();
    for word in words {
        bytes.extend_from_slice(&word.to_ne_bytes());
    }
    bytes
}

#[test]
fn new_record_has_zero_padding() {
    let slime = Slime::new(0.5f32.to_bits());
    assert_eq!(slime.value, 0x3f00_0000);
    assert_eq!(slime._padding0, 0);
    assert_eq!(slime._padding1, 0);
    assert_eq!(slime._padding2, 0);
}

#[test]
fn default_record_is_all_zero() {
    let slime = Slime::default();
    assert_eq!(slime, Slime { value: 0, _padding0: 0, _padding1: 0, _padding2: 0 });
    assert_eq!(f32::from_bits(slime.value), 0.0);
}

#[test]
fn record_is_sixteen_bytes() {
    assert_eq!(SLIME_SIZE, 16);
    assert_eq!(Slime::default().to_bytes().len(), 16);
    assert_eq!(Slime::new(u32::MAX).to_bytes().len(), 16);
}

#[test]
fn bytes_of_one_half() {
    let bytes = Slime::new(0.5f32.to_bits()).to_bytes();
    let mut expected = 0.5f32.to_ne_bytes().to_vec();
    expected.extend_from_slice(&[0u8; 12]);
    assert_eq!(bytes, expected);
}

#[test]
fn bytes_keep_field_order() {
    let slime = Slime {
        value: 0x0102_0304,
        _padding0: 0x1112_1314,
        _padding1: 0x2122_2324,
        _padding2: 0x3132_3334,
    };
    assert_eq!(slime.to_bytes(), native([0x0102_0304, 0x1112_1314, 0x2122_2324, 0x3132_3334]));
}

#[test]
fn bytes_are_not_the_words_themselves() {
    // Four words become sixteen bytes, each below 256: a cast that handed its
    // argument back would show here.
    let bytes = Slime::new(0xdead_beef).to_bytes();
    let mut first = [0u8; 4];
    first.copy_from_slice(&bytes[0..4]);
    assert_eq!(u32::from_ne_bytes(first), 0xdead_beef);
    assert_eq!(&bytes[4..], &[0u8; 12]);
}

#[test]
fn bytes_read_back_as_the_same_floats() {
    for value in [0.0f32, 0.5, -1.25, 1.0e-7, f32::MAX, f32::MIN_POSITIVE] {
        let bytes = Slime::new(value.to_bits()).to_bytes();
        let mut first = [0u8; 4];
        first.copy_from_slice(&bytes[0..4]);
        assert_eq!(f32::from_ne_bytes(first).to_bits(), value.to_bits());
    }
}

#[test]
fn extracted_copy_is_independent() {
    let mut source = Slime::new(0.5f32.to_bits());
    let image = source.extract_asset();
    source.value = 2.0f32.to_bits();
    assert_eq!(image.value, 0.5f32.to_bits());
    assert_eq!(source.value, 2.0f32.to_bits());
}
