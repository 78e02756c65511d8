use pico_usb_echo::ascii::{lowercase_prefix, to_lower};

#[test]
fn letters_fold_down_by_32() {
    assert_eq!(to_lower(b'A'), b'a');
    assert_eq!(to_lower(b'Z'), b'z');
    assert_eq!(to_lower(b'M'), b'm');
}

#[test]
fn non_letters_stay() {
    for b in [b'@', b'[', b'a', b'z', b'0', b'\n', 0u8, 127, 0xC1, 255] {
        assert_eq!(to_lower(b), b);
    }
}

#[test]
fn fold_only_the_prefix() {
    let mut buf = [b'X'; 64];
    lowercase_prefix(&mut buf, 3);
    assert_eq!(&buf[..3], b"xxx");
    assert!(buf[3..].iter().all(|&b| b == b'X'));
}

#[test]
fn fold_empty_prefix_changes_nothing() {
    let mut buf = [b'Q'; 64];
    lowercase_prefix(&mut buf, 0);
    assert_eq!(buf, [b'Q'; 64]);
}

#[test]
fn fold_whole_buffer() {
    let mut buf = [b'B'; 64];
    lowercase_prefix(&mut buf, 64);
    assert_eq!(buf, [b'b'; 64]);
}
