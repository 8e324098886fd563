use flash_wizard::checksum::{digest_text, hex_digit_char, hex_string, HashKind};
use flash_wizard::image::ImageBuffer;

#[test]
fn sha256_of_abc() {
    assert_eq!(
        digest_text(HashKind::Sha256, b"abc"),
        "ba7816bf8f01cfea414140de5dae2223b00361a396177a9cb410ff61f20015ad"
    );
}

#[test]
fn sha1_of_abc() {
    assert_eq!(digest_text(HashKind::Sha1, b"abc"), "a9993e364706816aba3e25717850c26c9cd0d89d");
}

#[test]
fn md5_of_abc() {
    assert_eq!(digest_text(HashKind::Md5, b"abc"), "900150983cd24fb0d6963f7d28e17f72");
}

#[test]
fn sha256_of_empty_input() {
    assert_eq!(
        digest_text(HashKind::Sha256, b""),
        "e3b0c44298fc1c149afbf4c8996fb92427ae41e4649b934ca495991b7852b855"
    );
}

#[test]
fn digest_is_deterministic_on_equal_bytes() {
    let a = ImageBuffer::new(vec![7u8; 4096]);
    let b = ImageBuffer::new(vec![7u8; 4096]);
    assert_eq!(a.digest(HashKind::Sha256), b.digest(HashKind::Sha256));
    assert_eq!(a.digest(HashKind::Sha256), a.digest(HashKind::Sha256));
    assert_ne!(a.digest(HashKind::Sha256), a.digest(HashKind::Md5));
}

#[test]
fn hex_rendering_of_bytes() {
    assert_eq!(hex_string(&[0x00, 0x0f, 0xa5, 0xff]), "000fa5ff");
    assert_eq!(hex_string(&[]), "");
    assert_eq!(hex_digit_char(11), 'b');
}

#[test]
fn chooser_positions() {
    assert_eq!(HashKind::from_index(0), Some(HashKind::Sha256));
    assert_eq!(HashKind::from_index(1), Some(HashKind::Sha1));
    assert_eq!(HashKind::from_index(2), Some(HashKind::Md5));
    assert_eq!(HashKind::from_index(3), None);
    assert_eq!(HashKind::Md5.index(), 2);
}

#[test]
fn image_buffer_length() {
    let image = ImageBuffer::new(vec![1u8, 2, 3]);
    assert_eq!(image.len(), 3);
}
