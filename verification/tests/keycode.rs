use sdl2::keycode::KeyCode;
use std::collections::hash_map::DefaultHasher;
use std::collections::HashMap;
use std::collections::HashSet;
use std::hash::Hash;
use std::hash::Hasher;

/// Every key with the value that SDL's header gives it, in decimal.
fn all_keys() -> Vec<(KeyCode, i32)> {
    vec![
        (KeyCode::Unknown, 0),
        (KeyCode::Backspace, 8),
        (KeyCode::Tab, 9),
        (KeyCode::Return, 13),
        (KeyCode::Escape, 27),
        (KeyCode::Space, 32),
        (KeyCode::Exclaim, 33),
        (KeyCode::Quotedbl, 34),
        (KeyCode::Hash, 35),
        (KeyCode::Dollar, 36),
        (KeyCode::Percent, 37),
        (KeyCode::Ampersand, 38),
        (KeyCode::Quote, 39),
        (KeyCode::LeftParen, 40),
        (KeyCode::RightParen, 41),
        (KeyCode::Asterisk, 42),
        (KeyCode::Plus, 43),
        (KeyCode::Comma, 44),
        (KeyCode::Minus, 45),
        (KeyCode::Period, 46),
        (KeyCode::Slash, 47),
        (KeyCode::Num0, 48),
        (KeyCode::Num1, 49),
        (KeyCode::Num2, 50),
        (KeyCode::Num3, 51),
        (KeyCode::Num4, 52),
        (KeyCode::Num5, 53),
        (KeyCode::Num6, 54),
        (KeyCode::Num7, 55),
        (KeyCode::Num8, 56),
        (KeyCode::Num9, 57),
        (KeyCode::Colon, 58),
        (KeyCode::Semicolon, 59),
        (KeyCode::Less, 60),
        (KeyCode::Equals, 61),
        (KeyCode::Greater, 62),
        (KeyCode::Question, 63),
        (KeyCode::At, 64),
        (KeyCode::LeftBracket, 91),
        (KeyCode::Backslash, 92),
        (KeyCode::RightBracket, 93),
        (KeyCode::Caret, 94),
        (KeyCode::Underscore, 95),
        (KeyCode::Backquote, 96),
        (KeyCode::A, 97),
        (KeyCode::B, 98),
        (KeyCode::C, 99),
        (KeyCode::D, 100),
        (KeyCode::E, 101),
        (KeyCode::F, 102),
        (KeyCode::G, 103),
        (KeyCode::H, 104),
        (KeyCode::I, 105),
        (KeyCode::J, 106),
        (KeyCode::K, 107),
        (KeyCode::L, 108),
        (KeyCode::M, 109),
        (KeyCode::N, 110),
        (KeyCode::O, 111),
        (KeyCode::P, 112),
        (KeyCode::Q, 113),
        (KeyCode::R, 114),
        (KeyCode::S, 115),
        (KeyCode::T, 116),
        (KeyCode::U, 117),
        (KeyCode::V, 118),
        (KeyCode::W, 119),
        (KeyCode::X, 120),
        (KeyCode::Y, 121),
        (KeyCode::Z, 122),
        (KeyCode::Delete, 127),
        (KeyCode::CapsLock, 1073741881),
        (KeyCode::F1, 1073741882),
        (KeyCode::F2, 1073741883),
        (KeyCode::F3, 1073741884),
        (KeyCode::F4, 1073741885),
        (KeyCode::F5, 1073741886),
        (KeyCode::F6, 1073741887),
        (KeyCode::F7, 1073741888),
        (KeyCode::F8, 1073741889),
        (KeyCode::F9, 1073741890),
        (KeyCode::F10, 1073741891),
        (KeyCode::F11, 1073741892),
        (KeyCode::F12, 1073741893),
        (KeyCode::PrintScreen, 1073741894),
        (KeyCode::ScrollLock, 1073741895),
        (KeyCode::Pause, 1073741896),
        (KeyCode::Insert, 1073741897),
        (KeyCode::Home, 1073741898),
        (KeyCode::PageUp, 1073741899),
        (KeyCode::End, 1073741901),
        (KeyCode::PageDown, 1073741902),
        (KeyCode::Right, 1073741903),
        (KeyCode::Left, 1073741904),
        (KeyCode::Down, 1073741905),
        (KeyCode::Up, 1073741906),
        (KeyCode::NumLockClear, 1073741907),
        (KeyCode::KpDivide, 1073741908),
        (KeyCode::KpMultiply, 1073741909),
        (KeyCode::KpMinus, 1073741910),
        (KeyCode::KpPlus, 1073741911),
        (KeyCode::KpEnter, 1073741912),
        (KeyCode::Kp1, 1073741913),
        (KeyCode::Kp2, 1073741914),
        (KeyCode::Kp3, 1073741915),
        (KeyCode::Kp4, 1073741916),
        (KeyCode::Kp5, 1073741917),
        (KeyCode::Kp6, 1073741918),
        (KeyCode::Kp7, 1073741919),
        (KeyCode::Kp8, 1073741920),
        (KeyCode::Kp9, 1073741921),
        (KeyCode::Kp0, 1073741922),
        (KeyCode::KpPeriod, 1073741923),
        (KeyCode::Application, 1073741925),
        (KeyCode::Power, 1073741926),
        (KeyCode::KpEquals, 1073741927),
        (KeyCode::F13, 1073741928),
        (KeyCode::F14, 1073741929),
        (KeyCode::F15, 1073741930),
        (KeyCode::F16, 1073741931),
        (KeyCode::F17, 1073741932),
        (KeyCode::F18, 1073741933),
        (KeyCode::F19, 1073741934),
        (KeyCode::F20, 1073741935),
        (KeyCode::F21, 1073741936),
        (KeyCode::F22, 1073741937),
        (KeyCode::F23, 1073741938),
        (KeyCode::F24, 1073741939),
        (KeyCode::Execute, 1073741940),
        (KeyCode::Help, 1073741941),
        (KeyCode::Menu, 1073741942),
        (KeyCode::Select, 1073741943),
        (KeyCode::Stop, 1073741944),
        (KeyCode::Again, 1073741945),
        (KeyCode::Undo, 1073741946),
        (KeyCode::Cut, 1073741947),
        (KeyCode::Copy, 1073741948),
        (KeyCode::Paste, 1073741949),
        (KeyCode::Find, 1073741950),
        (KeyCode::Mute, 1073741951),
        (KeyCode::VolumeUp, 1073741952),
        (KeyCode::VolumeDown, 1073741953),
        (KeyCode::KpComma, 1073741957),
        (KeyCode::KpEqualsAS400, 1073741958),
        (KeyCode::AltErase, 1073741977),
        (KeyCode::Sysreq, 1073741978),
        (KeyCode::Cancel, 1073741979),
        (KeyCode::Clear, 1073741980),
        (KeyCode::Prior, 1073741981),
        (KeyCode::Return2, 1073741982),
        (KeyCode::Separator, 1073741983),
        (KeyCode::Out, 1073741984),
        (KeyCode::Oper, 1073741985),
        (KeyCode::ClearAgain, 1073741986),
        (KeyCode::CrSel, 1073741987),
        (KeyCode::ExSel, 1073741988),
        (KeyCode::Kp00, 1073742000),
        (KeyCode::Kp000, 1073742001),
        (KeyCode::ThousandsSeparator, 1073742002),
        (KeyCode::DecimalSeparator, 1073742003),
        (KeyCode::CurrencyUnit, 1073742004),
        (KeyCode::CurrencySubUnit, 1073742005),
        (KeyCode::KpLeftParen, 1073742006),
        (KeyCode::KpRightParen, 1073742007),
        (KeyCode::KpLeftBrace, 1073742008),
        (KeyCode::KpRightBrace, 1073742009),
        (KeyCode::KpTab, 1073742010),
        (KeyCode::KpBackspace, 1073742011),
        (KeyCode::KpA, 1073742012),
        (KeyCode::KpB, 1073742013),
        (KeyCode::KpC, 1073742014),
        (KeyCode::KpD, 1073742015),
        (KeyCode::KpE, 1073742016),
        (KeyCode::KpF, 1073742017),
        (KeyCode::KpXor, 1073742018),
        (KeyCode::KpPower, 1073742019),
        (KeyCode::KpPercent, 1073742020),
        (KeyCode::KpLess, 1073742021),
        (KeyCode::KpGreater, 1073742022),
        (KeyCode::KpAmpersand, 1073742023),
        (KeyCode::KpDblAmpersand, 1073742024),
        (KeyCode::KpVerticalBar, 1073742025),
        (KeyCode::KpDblVerticalBar, 1073742026),
        (KeyCode::KpColon, 1073742027),
        (KeyCode::KpHash, 1073742028),
        (KeyCode::KpSpace, 1073742029),
        (KeyCode::KpAt, 1073742030),
        (KeyCode::KpExclam, 1073742031),
        (KeyCode::KpMemStore, 1073742032),
        (KeyCode::KpMemRecall, 1073742033),
        (KeyCode::KpMemClear, 1073742034),
        (KeyCode::KpMemAdd, 1073742035),
        (KeyCode::KpMemSubtract, 1073742036),
        (KeyCode::KpMemMultiply, 1073742037),
        (KeyCode::KpMemDivide, 1073742038),
        (KeyCode::KpPlusMinus, 1073742039),
        (KeyCode::KpCear, 1073742040),
        (KeyCode::KpClearEntry, 1073742041),
        (KeyCode::KpBinary, 1073742042),
        (KeyCode::KpOctal, 1073742043),
        (KeyCode::KpDecimal, 1073742044),
        (KeyCode::KpHexadecimal, 1073742045),
        (KeyCode::LCtrl, 1073742048),
        (KeyCode::LShift, 1073742049),
        (KeyCode::LAlt, 1073742050),
        (KeyCode::LGui, 1073742051),
        (KeyCode::RCtrl, 1073742052),
        (KeyCode::RShift, 1073742053),
        (KeyCode::RAlt, 1073742054),
        (KeyCode::RGui, 1073742055),
        (KeyCode::Mode, 1073742081),
        (KeyCode::AudioNext, 1073742082),
        (KeyCode::AudioPrev, 1073742083),
        (KeyCode::AudioStop, 1073742084),
        (KeyCode::AudioPlay, 1073742085),
        (KeyCode::AudioMute, 1073742086),
        (KeyCode::MediaSelect, 1073742087),
        (KeyCode::Www, 1073742088),
        (KeyCode::Mail, 1073742089),
        (KeyCode::Calculator, 1073742090),
        (KeyCode::Computer, 1073742091),
        (KeyCode::AcSearch, 1073742092),
        (KeyCode::AcHome, 1073742093),
        (KeyCode::AcBack, 1073742094),
        (KeyCode::AcForward, 1073742095),
        (KeyCode::AcStop, 1073742096),
        (KeyCode::AcRefresh, 1073742097),
        (KeyCode::AcBookmarks, 1073742098),
        (KeyCode::BrightnessDown, 1073742099),
        (KeyCode::BrightnessUp, 1073742100),
        (KeyCode::DisplaySwitch, 1073742101),
        (KeyCode::KbdIllumToggle, 1073742102),
        (KeyCode::KbdIllumDown, 1073742103),
        (KeyCode::KbdIllumUp, 1073742104),
        (KeyCode::Eject, 1073742105),
        (KeyCode::Sleep, 1073742106),
    ]
}

fn hash_of<T: Hash>(value: &T) -> u64 {
    let mut hasher = DefaultHasher::new();
    value.hash(&mut hasher);
    hasher.finish()
}

#[test]
fn the_table_lists_every_key() {
    assert_eq!(all_keys().len(), 236);
}

#[test]
fn every_key_has_its_published_value() {
    for (key, value) in all_keys() {
        assert_eq!(key.to_i32(), value, "{:?}", key);
    }
}

#[test]
fn distinct_keys_have_distinct_values() {
    let keys = all_keys();
    for (i, (a, _)) in keys.iter().enumerate() {
        for (j, (b, _)) in keys.iter().enumerate() {
            if i != j {
                assert_ne!(a, b);
                assert_ne!(a.to_i32(), b.to_i32(), "{:?} and {:?}", a, b);
            } else {
                assert_eq!(a, b);
            }
        }
    }
}

#[test]
fn every_key_comes_back_from_its_own_value() {
    for (key, value) in all_keys() {
        assert_eq!(KeyCode::from_i32(value), Some(key));
        assert_eq!(KeyCode::from_i32(key.to_i32()), Some(key));
        assert_eq!(KeyCode::from_i64(key.to_i64().unwrap()), Some(key));
        assert_eq!(KeyCode::from_u64(key.to_u64().unwrap()), Some(key));
        assert_eq!(KeyCode::from_int(key.to_int().unwrap()), Some(key));
    }
}

#[test]
fn the_three_projections_agree() {
    for (key, value) in all_keys() {
        assert_eq!(key.to_i64(), Some(value as i64));
        assert_eq!(key.to_u64(), Some(value as u64));
        assert_eq!(key.to_int(), Some(value as isize));
        assert_eq!(key.to_i64().unwrap(), key.to_u64().unwrap() as i64);
        assert_eq!(key.to_i64().unwrap(), key.to_int().unwrap() as i64);
    }
}

#[test]
fn no_value_is_negative() {
    for (key, _) in all_keys() {
        assert!(key.to_i32() >= 0, "{:?}", key);
    }
}

#[test]
fn an_invalid_value_gives_no_key() {
    assert_eq!(KeyCode::from_i32(-999999), None);
    assert_eq!(KeyCode::from_i64(-999999), None);
    assert_eq!(KeyCode::from_int(-999999), None);
}

#[test]
fn only_the_known_values_give_a_key() {
    let known: HashSet<i32> = all_keys().iter().map(|(_, v)| *v).collect();
    assert_eq!(known.len(), 236);
    for n in -1024..1024 {
        assert_eq!(KeyCode::from_i32(n).is_some(), known.contains(&n), "{}", n);
    }
    for n in (0x4000_0000 - 1024)..(0x4000_0000 + 1024) {
        assert_eq!(KeyCode::from_i32(n).is_some(), known.contains(&n), "{}", n);
    }
}

#[test]
fn gaps_in_the_table_give_no_key() {
    // Below the first control character, and the upper-case letters.
    assert_eq!(KeyCode::from_i32(1), None);
    assert_eq!(KeyCode::from_i32(65), None);
    assert_eq!(KeyCode::from_i32(90), None);
    assert_eq!(KeyCode::from_i32(123), None);
    assert_eq!(KeyCode::from_i32(128), None);
    // A bare scan code is no key code.
    assert_eq!(KeyCode::from_i32(57), Some(KeyCode::Num9));
    assert_eq!(KeyCode::from_i32(58), Some(KeyCode::Colon));
    assert_eq!(KeyCode::from_i32(224), None);
    // Scan codes that have no key code of their own.
    assert_eq!(KeyCode::from_i32(0x4000_0000), None);
    assert_eq!(KeyCode::from_i32(0x4000_0004), None);
    assert_eq!(KeyCode::from_i32(0x4000_0038), None);
    assert_eq!(KeyCode::from_i32(0x4000_004C), None);
    assert_eq!(KeyCode::from_i32(0x4000_0064), None);
    assert_eq!(KeyCode::from_i32(0x4000_0082), None);
    assert_eq!(KeyCode::from_i32(0x4000_0087), None);
    assert_eq!(KeyCode::from_i32(0x4000_00A5), None);
    assert_eq!(KeyCode::from_i32(0x4000_00DE), None);
    assert_eq!(KeyCode::from_i32(0x4000_00E8), None);
    assert_eq!(KeyCode::from_i32(0x4000_0100), None);
    assert_eq!(KeyCode::from_i32(0x4000_011B), None);
    assert_eq!(KeyCode::from_i32(i32::MAX), None);
    assert_eq!(KeyCode::from_i32(i32::MIN), None);
}

#[test]
fn a_wide_value_is_not_truncated() {
    // Each of these is the code of `A` in its low 32 bits.
    assert_eq!(KeyCode::from_i64(97 + (1i64 << 32)), None);
    assert_eq!(KeyCode::from_i64(97 - (1i64 << 32)), None);
    assert_eq!(KeyCode::from_u64(97 + (1u64 << 32)), None);
    assert_eq!(KeyCode::from_u64(1u64 << 32), None);
    assert_eq!(KeyCode::from_i64(i64::MAX), None);
    assert_eq!(KeyCode::from_i64(i64::MIN), None);
    assert_eq!(KeyCode::from_u64(u64::MAX), None);
    assert_eq!(KeyCode::from_u64(0x8000_0000), None);
    assert_eq!(KeyCode::from_int(isize::MAX), None);
    assert_eq!(KeyCode::from_int(isize::MIN), None);
    assert_eq!(KeyCode::from_i64(97), Some(KeyCode::A));
    assert_eq!(KeyCode::from_u64(97), Some(KeyCode::A));
    assert_eq!(KeyCode::from_int(97), Some(KeyCode::A));
    assert_eq!(KeyCode::from_i64(0x4000_011A), Some(KeyCode::Sleep));
    assert_eq!(KeyCode::from_u64(0x4000_011A), Some(KeyCode::Sleep));
    assert_eq!(KeyCode::from_int(0x4000_011A), Some(KeyCode::Sleep));
}

#[test]
fn the_letter_a_has_the_value_of_lower_case_a() {
    assert_eq!(KeyCode::A.to_i32(), 97);
    assert_eq!(KeyCode::A.to_i32(), 'a' as i32);
    assert_ne!(KeyCode::A.to_i32(), 'A' as i32);
    assert_eq!(KeyCode::Z.to_i32(), 'z' as i32);
    assert_eq!(KeyCode::from_i32('a' as i32), Some(KeyCode::A));
}

#[test]
fn unknown_is_zero_and_zero_is_unknown() {
    assert_eq!(KeyCode::Unknown.to_i32(), 0);
    assert_eq!(KeyCode::Unknown.to_i64(), Some(0));
    assert_eq!(KeyCode::Unknown.to_u64(), Some(0));
    assert_eq!(KeyCode::Unknown.to_int(), Some(0));
    assert_eq!(KeyCode::from_i32(0), Some(KeyCode::Unknown));
    assert_eq!(KeyCode::from_i64(0), Some(KeyCode::Unknown));
    assert_eq!(KeyCode::from_u64(0), Some(KeyCode::Unknown));
    assert_eq!(KeyCode::from_int(0), Some(KeyCode::Unknown));
}

#[test]
fn unknown_is_a_key_like_any_other() {
    assert_eq!(KeyCode::Unknown, KeyCode::Unknown);
    assert_ne!(KeyCode::Unknown, KeyCode::Escape);
    assert_eq!(hash_of(&KeyCode::Unknown), hash_of(&KeyCode::Unknown));
    let mut pressed: HashSet<KeyCode> = HashSet::new();
    assert!(pressed.insert(KeyCode::Unknown));
    assert!(!pressed.insert(KeyCode::Unknown));
    assert!(pressed.contains(&KeyCode::Unknown));
}

#[test]
fn escape_is_27_at_every_width() {
    assert_eq!(KeyCode::Escape.to_i64(), Some(27i64));
    assert_eq!(KeyCode::Escape.to_u64(), Some(27u64));
    assert_eq!(KeyCode::Escape.to_int(), Some(27isize));
    assert_eq!(KeyCode::Escape.to_i32(), 27i32);
}

#[test]
fn keys_off_the_character_set_have_bit_30_set() {
    assert_eq!(KeyCode::CapsLock.to_i32(), 1073741881);
    assert_eq!(KeyCode::F1.to_i32(), 1073741882);
    assert_eq!(KeyCode::F12.to_i32(), 1073741893);
    assert_eq!(KeyCode::Right.to_i32(), 1073741903);
    assert_eq!(KeyCode::Left.to_i32(), 1073741904);
    assert_eq!(KeyCode::Down.to_i32(), 1073741905);
    assert_eq!(KeyCode::Up.to_i32(), 1073741906);
    assert_eq!(KeyCode::LCtrl.to_i32(), 1073742048);
    assert_eq!(KeyCode::RGui.to_i32(), 1073742055);
    assert_eq!(KeyCode::Mode.to_i32(), 1073742081);
    assert_eq!(KeyCode::Sleep.to_i32(), 1073742106);
    for (key, value) in all_keys() {
        if value > 127 {
            assert_eq!(value & (1 << 30), 1 << 30, "{:?}", key);
            assert!((value & !(1 << 30)) < 512, "{:?}", key);
        }
    }
}

#[test]
fn delete_is_a_character_and_return_is_carriage_return() {
    assert_eq!(KeyCode::Delete.to_i32(), 127);
    assert_eq!(KeyCode::Return.to_i32(), 13);
    assert_eq!(KeyCode::Backspace.to_i32(), 8);
    assert_eq!(KeyCode::Tab.to_i32(), 9);
    assert_eq!(KeyCode::Space.to_i32(), ' ' as i32);
    assert_eq!(KeyCode::Num0.to_i32(), '0' as i32);
    assert_eq!(KeyCode::Num9.to_i32(), '9' as i32);
    assert_eq!(KeyCode::Backquote.to_i32(), '`' as i32);
}

#[test]
fn both_clear_keys_of_the_keypad_and_the_main_block_exist() {
    assert_eq!(KeyCode::Clear.to_i32(), 1073741980);
    assert_eq!(KeyCode::ClearAgain.to_i32(), 1073741986);
    assert_eq!(KeyCode::KpCear.to_i32(), 1073742040);
    assert_eq!(KeyCode::KpClearEntry.to_i32(), 1073742041);
    assert_ne!(KeyCode::Clear, KeyCode::KpCear);
    assert_ne!(KeyCode::KpCear, KeyCode::KpClearEntry);
    assert_eq!(KeyCode::from_i32(1073742040), Some(KeyCode::KpCear));
}

#[test]
fn hashing_twice_gives_the_same_hash() {
    for (key, _) in all_keys() {
        assert_eq!(hash_of(&key), hash_of(&key));
        let copy = key;
        assert_eq!(hash_of(&key), hash_of(&copy));
    }
}

#[test]
fn a_key_hashes_as_its_value_does() {
    for (key, value) in all_keys() {
        assert_eq!(hash_of(&key), hash_of(&value), "{:?}", key);
    }
    assert_eq!(hash_of(&KeyCode::A), hash_of(&97i32));
}

#[test]
fn hashing_writes_to_the_hasher() {
    let untouched = DefaultHasher::new().finish();
    let mut hasher = DefaultHasher::new();
    KeyCode::Escape.hash(&mut hasher);
    assert_ne!(hasher.finish(), untouched);
}

#[test]
fn equal_keys_hash_alike_and_different_keys_differ() {
    let keys = all_keys();
    let hashes: HashSet<u64> = keys.iter().map(|(k, _)| hash_of(k)).collect();
    assert_eq!(hashes.len(), keys.len());
    let a = KeyCode::from_i32(97).unwrap();
    assert_eq!(a, KeyCode::A);
    assert_eq!(hash_of(&a), hash_of(&KeyCode::A));
}

#[test]
fn keys_serve_as_map_keys() {
    let mut pressed: HashMap<KeyCode, bool> = HashMap::new();
    for (key, _) in all_keys() {
        assert_eq!(pressed.insert(key, false), None);
    }
    assert_eq!(pressed.len(), 236);
    assert_eq!(pressed.insert(KeyCode::Space, true), Some(false));
    assert_eq!(pressed.get(&KeyCode::Space), Some(&true));
    assert_eq!(pressed.get(&KeyCode::Return), Some(&false));
    assert_eq!(pressed.len(), 236);
}

#[test]
fn a_key_is_copied_and_printed_by_name() {
    let a = KeyCode::KpEqualsAS400;
    let b = a;
    let c = a.clone();
    assert_eq!(a, b);
    assert_eq!(a, c);
    assert_eq!(format!("{:?}", a), "KpEqualsAS400");
    assert_eq!(format!("{:?}", KeyCode::Unknown), "Unknown");
}
