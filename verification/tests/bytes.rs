use rcli::bytes::{bytes_equal, leading_bytes, str_equal};

#[test]
fn leading_bytes_takes_the_first() {
    assert_eq!(leading_bytes::<4>(&[1, 2, 3, 4, 5, 6]), [1, 2, 3, 4]);
    assert_eq!(leading_bytes::<2>(&[8, 9]), [8, 9]);
    assert_eq!(leading_bytes::<0>(&[8, 9]), [0u8; 0]);
}

#[test]
fn bytes_equal_compares_byte_for_byte() {
    assert!(bytes_equal(&[], &[]));
    assert!(bytes_equal(&[1, 2, 3], &[1, 2, 3]));
    assert!(!bytes_equal(&[1, 2, 3], &[1, 2, 4]));
    assert!(!bytes_equal(&[0, 2, 3], &[1, 2, 3]));
    assert!(!bytes_equal(&[1, 2, 3], &[1, 2]));
    assert!(!bytes_equal(&[1, 2], &[1, 2, 0]));
    assert!(!bytes_equal(&[0x0f], &[0xf0]));
}

#[test]
fn str_equal_compares_characters() {
    assert!(str_equal("", ""));
    assert!(str_equal("blake3", "blake3"));
    assert!(!str_equal("blake3", "blake2"));
    assert!(!str_equal("blake3", "blake"));
    assert!(str_equal("\u{221a}", "\u{221a}"));
    assert!(!str_equal("\u{221a}", "\u{221b}"));
}
