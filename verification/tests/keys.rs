use harpoon::keys::{char_to_slot_index, slot_index_to_char, BareKey, SLOT_COUNT};

#[test]
fn slot_letters_round_trip() {
    for i in 0..SLOT_COUNT {
        let letter = slot_index_to_char(i);
        assert_eq!(char_to_slot_index(letter), Some(i));
        assert_eq!(char_to_slot_index(letter.to_ascii_uppercase()), Some(i));
    }
}

#[test]
fn slot_letters_are_yuiop() {
    let letters: String = (0..7).map(slot_index_to_char).collect();
    assert_eq!(letters, "yuiop??");
    assert_eq!(slot_index_to_char(usize::MAX), '?');
}

#[test]
fn other_letters_have_no_slot() {
    for c in ['a', 'd', 'j', 'k', 'q', 'x', 'D', 'Q', '0', '?', ' ', 'ü', 'Ｙ', '\u{131}'] {
        assert_eq!(char_to_slot_index(c), None);
    }
}

#[test]
fn keys_compare_by_value() {
    assert_eq!(BareKey::Char('y'), BareKey::Char('y'));
    assert_ne!(BareKey::Char('y'), BareKey::Char('Y'));
    assert_ne!(BareKey::Up, BareKey::Down);
}
