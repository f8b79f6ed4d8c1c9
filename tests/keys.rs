use chip8::keys::{host_key_code, Keys};

#[test]
fn new_pad_has_every_key_up() {
    let k = Keys::new();
    for i in 0..16 {
        assert!(!k.is_down(i));
    }
}

#[test]
fn set_presses_and_releases_one_key() {
    let mut k = Keys::new();
    k.set(0xA, true);
    assert!(k.is_down(0xA));
    assert!(!k.is_down(0xB));
    k.set(0xA, false);
    assert!(!k.is_down(0xA));
}

#[test]
fn host_keys_map_to_the_pad_layout() {
    let expected = [
        ('1', 0x1), ('2', 0x2), ('3', 0x3), ('4', 0xC),
        ('q', 0x4), ('w', 0x5), ('e', 0x6), ('r', 0xD),
        ('a', 0x7), ('s', 0x8), ('d', 0x9), ('f', 0xE),
        ('z', 0xA), ('x', 0x0), ('c', 0xB), ('v', 0xF),
    ];
    for (c, code) in expected {
        assert_eq!(host_key_code(c), Some(code));
    }
    assert_eq!(host_key_code('p'), None);
    assert_eq!(host_key_code('5'), None);
}

#[test]
fn set_keys_follows_host_key_transitions() {
    let mut k = Keys::new();
    k.set_keys(Some('z'), true);
    assert!(k.is_down(0xA));
    k.set_keys(Some('4'), true);
    assert!(k.is_down(0xC));
    k.set_keys(Some('z'), false);
    assert!(!k.is_down(0xA));
    assert!(k.is_down(0xC));
}

#[test]
fn set_keys_ignores_other_keys_and_none() {
    let mut k = Keys::new();
    k.set_keys(Some('m'), true);
    k.set_keys(None, true);
    for i in 0..16 {
        assert!(!k.is_down(i));
    }
}
