use dm::KeyMap;

#[test]
fn a_key_keeps_its_name_and_its_code() {
    let key = KeyMap::new("a", 65);
    assert_eq!(key.get_key_str(), "a");
    assert_eq!(key.get_id(), 65);
    let key = KeyMap::new("", i32::MIN);
    assert_eq!(key.get_key_str(), "");
    assert_eq!(key.get_id(), i32::MIN);
}

#[test]
fn the_name_outlives_the_key() {
    let name = String::from("enter");
    let kept = {
        let key = KeyMap::new(&name, 13);
        key.get_key_str()
    };
    assert_eq!(kept, "enter");
}

#[test]
fn the_digits_and_letters_have_their_character_codes() {
    assert_eq!((KeyMap::KEY_0().get_key_str(), KeyMap::KEY_0().get_id()), ("0", 48));
    assert_eq!((KeyMap::KEY_9().get_key_str(), KeyMap::KEY_9().get_id()), ("9", 57));
    assert_eq!((KeyMap::KEY_A().get_key_str(), KeyMap::KEY_A().get_id()), ("a", 65));
    assert_eq!((KeyMap::KEY_Z().get_key_str(), KeyMap::KEY_Z().get_id()), ("z", 90));
}

#[test]
fn the_named_keys_have_their_virtual_key_codes() {
    let keys = [
        (KeyMap::KEY_BACK(), "back", 8),
        (KeyMap::KEY_TAB(), "tab", 9),
        (KeyMap::KEY_ENTER(), "enter", 13),
        (KeyMap::KEY_SHIFT(), "shift", 16),
        (KeyMap::KEY_CTRL(), "ctrl", 17),
        (KeyMap::KEY_ALT(), "alt", 18),
        (KeyMap::KEY_CAP(), "cap", 20),
        (KeyMap::KEY_ESC(), "esc", 27),
        (KeyMap::KEY_SPACE(), "space", 32),
        (KeyMap::KEY_PGUP(), "pgup", 33),
        (KeyMap::KEY_PGDN(), "pgdn", 34),
        (KeyMap::KEY_END(), "end", 35),
        (KeyMap::KEY_HOME(), "home", 36),
        (KeyMap::KEY_LEFT(), "left", 37),
        (KeyMap::KEY_UP(), "up", 38),
        (KeyMap::KEY_RIGHT(), "right", 39),
        (KeyMap::KEY_DOWN(), "down", 40),
        (KeyMap::KEY_PRINT(), "print", 44),
        (KeyMap::KEY_DELETE(), "delete", 46),
        (KeyMap::KEY_WIN(), "win", 91),
        (KeyMap::KEY_OPTION(), "option", 93),
        (KeyMap::KEY_F1(), "f1", 112),
        (KeyMap::KEY_F12(), "f12", 123),
    ];
    for (key, name, code) in keys {
        assert_eq!(key.get_key_str(), name);
        assert_eq!(key.get_id(), code);
    }
}

#[test]
fn the_punctuation_keys_have_their_virtual_key_codes() {
    let keys = [
        (KeyMap::KEY_SEMICOLON(), ";", 186),
        (KeyMap::KEY_EQUAL(), "=", 187),
        (KeyMap::KEY_COMMA(), ",", 188),
        (KeyMap::KEY_MINUS(), "-", 189),
        (KeyMap::KEY_DOT(), ".", 190),
        (KeyMap::KEY_SLASH(), "/", 191),
        (KeyMap::KEY_WAVY_LINES(), "~", 192),
        (KeyMap::KEY_OPEN_BRACKET(), "[", 219),
        (KeyMap::KEY_BACKSLASH(), "\\", 220),
        (KeyMap::KEY_CLOSE_BRACKET(), "]", 221),
        (KeyMap::KEY_SINGLE_QUOTES(), "'", 222),
    ];
    for (key, name, code) in keys {
        assert_eq!(key.get_key_str(), name);
        assert_eq!(key.get_id(), code);
    }
}
