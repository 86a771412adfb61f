use input::Key;

fn all_keys() -> Vec<Key> {
    vec![
        Key::A, Key::B, Key::C, Key::D, Key::E, Key::F, Key::G, Key::H, Key::I, Key::J,
        Key::K, Key::L, Key::M, Key::N, Key::O, Key::P, Key::Q, Key::R, Key::S, Key::T,
        Key::U, Key::V, Key::W, Key::X, Key::Y, Key::Z, Key::Num0, Key::Num1, Key::Num2,
        Key::Num3, Key::Num4, Key::Num5, Key::Num6, Key::Num7, Key::Num8, Key::Num9, Key::F1,
        Key::F2, Key::F3, Key::F4, Key::F5, Key::F6, Key::F7, Key::F8, Key::F9, Key::F10,
        Key::F11, Key::F12, Key::Esc, Key::Backspace, Key::Tab, Key::Enter, Key::Space,
        Key::CapsLock, Key::LeftShift, Key::RightShift, Key::Controlpanel, Key::LeftAlt,
        Key::RightAlt, Key::LeftMeta, Key::RightMeta, Key::Function, Key::Up, Key::Down,
        Key::Left, Key::Right, Key::Insert, Key::PrintScreen,
    ]
}

#[test]
fn declared_keys_round_trip() {
    let mut declared = 0;
    for k in all_keys() {
        if let Some(code) = k.to_raw() {
            declared += 1;
            assert_eq!(Key::from_raw(code), Some(k));
        }
    }
    assert_eq!(declared, 66);
}

#[test]
fn every_declared_code_names_its_key() {
    let mut declared = 0;
    for code in 0..=u16::MAX {
        if let Some(k) = Key::from_raw(code) {
            declared += 1;
            assert_eq!(k.to_raw(), Some(code));
        }
    }
    assert_eq!(declared, 66);
}

#[test]
fn known_native_codes() {
    assert_eq!(Key::A.to_raw(), Some(0));
    assert_eq!(Key::LeftShift.to_raw(), Some(56));
    assert_eq!(Key::LeftAlt.to_raw(), Some(58));
    assert_eq!(Key::RightAlt.to_raw(), Some(61));
    assert_eq!(Key::Controlpanel.to_raw(), Some(59));
    assert_eq!(Key::F1.to_raw(), Some(122));
    assert_eq!(Key::F12.to_raw(), Some(111));
    assert_eq!(Key::Down.to_raw(), Some(125));
    assert_eq!(Key::from_raw(53), Some(Key::Esc));
    assert_eq!(Key::from_raw(51), Some(Key::Backspace));
}

#[test]
fn undeclared_codes_and_keys_map_to_none() {
    assert_eq!(Key::Insert.to_raw(), None);
    assert_eq!(Key::PrintScreen.to_raw(), None);
    assert_eq!(Key::from_raw(10), None);
    assert_eq!(Key::from_raw(62), None);
    assert_eq!(Key::from_raw(127), None);
    assert_eq!(Key::from_raw(u16::MAX), None);
}

#[test]
fn no_key_is_injected() {
    let e = input::Event::Key {
        direction: input::Direction::Down,
        kind: input::KeyKind::Key(Key::Insert),
    };
    assert_eq!(e.to_raw(), None);
    let e = input::Event::Key {
        direction: input::Direction::Up,
        kind: input::KeyKind::Key(Key::A),
    };
    assert_eq!(e.to_raw(), None);
}
