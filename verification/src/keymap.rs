//! The keys that the automation object knows, by name and virtual key code.

use crate::key::KeyMap;
use vstd::prelude::*;

verus! {

#[allow(non_snake_case)]
impl KeyMap<'static> {
    /// The key `0`.
    pub fn KEY_0() -> (key: KeyMap<'static>)
        ensures
            key@ == ("0"@, 48i32),
    {
        KeyMap::new("0", 48)
    }

    /// The key `1`.
    pub fn KEY_1() -> (key: KeyMap<'static>)
        ensures
            key@ == ("1"@, 49i32),
    {
        KeyMap::new("1", 49)
    }

    /// The key `2`.
    pub fn KEY_2() -> (key: KeyMap<'static>)
        ensures
            key@ == ("2"@, 50i32),
    {
        KeyMap::new("2", 50)
    }

    /// The key `3`.
    pub fn KEY_3() -> (key: KeyMap<'static>)
        ensures
            key@ == ("3"@, 51i32),
    {
        KeyMap::new("3", 51)
    }

    /// The key `4`.
    pub fn KEY_4() -> (key: KeyMap<'static>)
        ensures
            key@ == ("4"@, 52i32),
    {
        KeyMap::new("4", 52)
    }

    /// The key `5`.
    pub fn KEY_5() -> (key: KeyMap<'static>)
        ensures
            key@ == ("5"@, 53i32),
    {
        KeyMap::new("5", 53)
    }

    /// The key `6`.
    pub fn KEY_6() -> (key: KeyMap<'static>)
        ensures
            key@ == ("6"@, 54i32),
    {
        KeyMap::new("6", 54)
    }

    /// The key `7`.
    pub fn KEY_7() -> (key: KeyMap<'static>)
        ensures
            key@ == ("7"@, 55i32),
    {
        KeyMap::new("7", 55)
    }

    /// The key `8`.
    pub fn KEY_8() -> (key: KeyMap<'static>)
        ensures
            key@ == ("8"@, 56i32),
    {
        KeyMap::new("8", 56)
    }

    /// The key `9`.
    pub fn KEY_9() -> (key: KeyMap<'static>)
        ensures
            key@ == ("9"@, 57i32),
    {
        KeyMap::new("9", 57)
    }

    /// The key `-`.
    pub fn KEY_MINUS() -> (key: KeyMap<'static>)
        ensures
            key@ == ("-"@, 189i32),
    {
        KeyMap::new("-", 189)
    }

    /// The key `=`.
    pub fn KEY_EQUAL() -> (key: KeyMap<'static>)
        ensures
            key@ == ("="@, 187i32),
    {
        KeyMap::new("=", 187)
    }

    /// The key `back`.
    pub fn KEY_BACK() -> (key: KeyMap<'static>)
        ensures
            key@ == ("back"@, 8i32),
    {
        KeyMap::new("back", 8)
    }

    /// The key `a`.
    pub fn KEY_A() -> (key: KeyMap<'static>)
        ensures
            key@ == ("a"@, 65i32),
    {
        KeyMap::new("a", 65)
    }

    /// The key `b`.
    pub fn KEY_B() -> (key: KeyMap<'static>)
        ensures
            key@ == ("b"@, 66i32),
    {
        KeyMap::new("b", 66)
    }

    /// The key `c`.
    pub fn KEY_C() -> (key: KeyMap<'static>)
        ensures
            key@ == ("c"@, 67i32),
    {
        KeyMap::new("c", 67)
    }

    /// The key `d`.
    pub fn KEY_D() -> (key: KeyMap<'static>)
        ensures
            key@ == ("d"@, 68i32),
    {
        KeyMap::new("d", 68)
    }

    /// The key `e`.
    pub fn KEY_E() -> (key: KeyMap<'static>)
        ensures
            key@ == ("e"@, 69i32),
    {
        KeyMap::new("e", 69)
    }

    /// The key `f`.
    pub fn KEY_F() -> (key: KeyMap<'static>)
        ensures
            key@ == ("f"@, 70i32),
    {
        KeyMap::new("f", 70)
    }

    /// The key `g`.
    pub fn KEY_G() -> (key: KeyMap<'static>)
        ensures
            key@ == ("g"@, 71i32),
    {
        KeyMap::new("g", 71)
    }

    /// The key `h`.
    pub fn KEY_H() -> (key: KeyMap<'static>)
        ensures
            key@ == ("h"@, 72i32),
    {
        KeyMap::new("h", 72)
    }

    /// The key `i`.
    pub fn KEY_I() -> (key: KeyMap<'static>)
        ensures
            key@ == ("i"@, 73i32),
    {
        KeyMap::new("i", 73)
    }

    /// The key `j`.
    pub fn KEY_J() -> (key: KeyMap<'static>)
        ensures
            key@ == ("j"@, 74i32),
    {
        KeyMap::new("j", 74)
    }

    /// The key `k`.
    pub fn KEY_K() -> (key: KeyMap<'static>)
        ensures
            key@ == ("k"@, 75i32),
    {
        KeyMap::new("k", 75)
    }

    /// The key `l`.
    pub fn KEY_L() -> (key: KeyMap<'static>)
        ensures
            key@ == ("l"@, 76i32),
    {
        KeyMap::new("l", 76)
    }

    /// The key `m`.
    pub fn KEY_M() -> (key: KeyMap<'static>)
        ensures
            key@ == ("m"@, 77i32),
    {
        KeyMap::new("m", 77)
    }

    /// The key `n`.
    pub fn KEY_N() -> (key: KeyMap<'static>)
        ensures
            key@ == ("n"@, 78i32),
    {
        KeyMap::new("n", 78)
    }

    /// The key `o`.
    pub fn KEY_O() -> (key: KeyMap<'static>)
        ensures
            key@ == ("o"@, 79i32),
    {
        KeyMap::new("o", 79)
    }

    /// The key `p`.
    pub fn KEY_P() -> (key: KeyMap<'static>)
        ensures
            key@ == ("p"@, 80i32),
    {
        KeyMap::new("p", 80)
    }

    /// The key `q`.
    pub fn KEY_Q() -> (key: KeyMap<'static>)
        ensures
            key@ == ("q"@, 81i32),
    {
        KeyMap::new("q", 81)
    }

    /// The key `r`.
    pub fn KEY_R() -> (key: KeyMap<'static>)
        ensures
            key@ == ("r"@, 82i32),
    {
        KeyMap::new("r", 82)
    }

    /// The key `s`.
    pub fn KEY_S() -> (key: KeyMap<'static>)
        ensures
            key@ == ("s"@, 83i32),
    {
        KeyMap::new("s", 83)
    }

    /// The key `t`.
    pub fn KEY_T() -> (key: KeyMap<'static>)
        ensures
            key@ == ("t"@, 84i32),
    {
        KeyMap::new("t", 84)
    }

    /// The key `u`.
    pub fn KEY_U() -> (key: KeyMap<'static>)
        ensures
            key@ == ("u"@, 85i32),
    {
        KeyMap::new("u", 85)
    }

    /// The key `v`.
    pub fn KEY_V() -> (key: KeyMap<'static>)
        ensures
            key@ == ("v"@, 86i32),
    {
        KeyMap::new("v", 86)
    }

    /// The key `w`.
    pub fn KEY_W() -> (key: KeyMap<'static>)
        ensures
            key@ == ("w"@, 87i32),
    {
        KeyMap::new("w", 87)
    }

    /// The key `x`.
    pub fn KEY_X() -> (key: KeyMap<'static>)
        ensures
            key@ == ("x"@, 88i32),
    {
        KeyMap::new("x", 88)
    }

    /// The key `y`.
    pub fn KEY_Y() -> (key: KeyMap<'static>)
        ensures
            key@ == ("y"@, 89i32),
    {
        KeyMap::new("y", 89)
    }

    /// The key `z`.
    pub fn KEY_Z() -> (key: KeyMap<'static>)
        ensures
            key@ == ("z"@, 90i32),
    {
        KeyMap::new("z", 90)
    }

    /// The key `ctrl`.
    pub fn KEY_CTRL() -> (key: KeyMap<'static>)
        ensures
            key@ == ("ctrl"@, 17i32),
    {
        KeyMap::new("ctrl", 17)
    }

    /// The key `alt`.
    pub fn KEY_ALT() -> (key: KeyMap<'static>)
        ensures
            key@ == ("alt"@, 18i32),
    {
        KeyMap::new("alt", 18)
    }

    /// The key `shift`.
    pub fn KEY_SHIFT() -> (key: KeyMap<'static>)
        ensures
            key@ == ("shift"@, 16i32),
    {
        KeyMap::new("shift", 16)
    }

    /// The key `win`.
    pub fn KEY_WIN() -> (key: KeyMap<'static>)
        ensures
            key@ == ("win"@, 91i32),
    {
        KeyMap::new("win", 91)
    }

    /// The key `space`.
    pub fn KEY_SPACE() -> (key: KeyMap<'static>)
        ensures
            key@ == ("space"@, 32i32),
    {
        KeyMap::new("space", 32)
    }

    /// The key `cap`.
    pub fn KEY_CAP() -> (key: KeyMap<'static>)
        ensures
            key@ == ("cap"@, 20i32),
    {
        KeyMap::new("cap", 20)
    }

    /// The key `tab`.
    pub fn KEY_TAB() -> (key: KeyMap<'static>)
        ensures
            key@ == ("tab"@, 9i32),
    {
        KeyMap::new("tab", 9)
    }

    /// The key `~`.
    pub fn KEY_WAVY_LINES() -> (key: KeyMap<'static>)
        ensures
            key@ == ("~"@, 192i32),
    {
        KeyMap::new("~", 192)
    }

    /// The key `esc`.
    pub fn KEY_ESC() -> (key: KeyMap<'static>)
        ensures
            key@ == ("esc"@, 27i32),
    {
        KeyMap::new("esc", 27)
    }

    /// The key `enter`.
    pub fn KEY_ENTER() -> (key: KeyMap<'static>)
        ensures
            key@ == ("enter"@, 13i32),
    {
        KeyMap::new("enter", 13)
    }

    /// The key `up`.
    pub fn KEY_UP() -> (key: KeyMap<'static>)
        ensures
            key@ == ("up"@, 38i32),
    {
        KeyMap::new("up", 38)
    }

    /// The key `down`.
    pub fn KEY_DOWN() -> (key: KeyMap<'static>)
        ensures
            key@ == ("down"@, 40i32),
    {
        KeyMap::new("down", 40)
    }

    /// The key `left`.
    pub fn KEY_LEFT() -> (key: KeyMap<'static>)
        ensures
            key@ == ("left"@, 37i32),
    {
        KeyMap::new("left", 37)
    }

    /// The key `right`.
    pub fn KEY_RIGHT() -> (key: KeyMap<'static>)
        ensures
            key@ == ("right"@, 39i32),
    {
        KeyMap::new("right", 39)
    }

    /// The key `option`.
    pub fn KEY_OPTION() -> (key: KeyMap<'static>)
        ensures
            key@ == ("option"@, 93i32),
    {
        KeyMap::new("option", 93)
    }

    /// The key `print`.
    pub fn KEY_PRINT() -> (key: KeyMap<'static>)
        ensures
            key@ == ("print"@, 44i32),
    {
        KeyMap::new("print", 44)
    }

    /// The key `delete`.
    pub fn KEY_DELETE() -> (key: KeyMap<'static>)
        ensures
            key@ == ("delete"@, 46i32),
    {
        KeyMap::new("delete", 46)
    }

    /// The key `home`.
    pub fn KEY_HOME() -> (key: KeyMap<'static>)
        ensures
            key@ == ("home"@, 36i32),
    {
        KeyMap::new("home", 36)
    }

    /// The key `end`.
    pub fn KEY_END() -> (key: KeyMap<'static>)
        ensures
            key@ == ("end"@, 35i32),
    {
        KeyMap::new("end", 35)
    }

    /// The key `pgup`.
    pub fn KEY_PGUP() -> (key: KeyMap<'static>)
        ensures
            key@ == ("pgup"@, 33i32),
    {
        KeyMap::new("pgup", 33)
    }

    /// The key `pgdn`.
    pub fn KEY_PGDN() -> (key: KeyMap<'static>)
        ensures
            key@ == ("pgdn"@, 34i32),
    {
        KeyMap::new("pgdn", 34)
    }

    /// The key `f1`.
    pub fn KEY_F1() -> (key: KeyMap<'static>)
        ensures
            key@ == ("f1"@, 112i32),
    {
        KeyMap::new("f1", 112)
    }

    /// The key `f2`.
    pub fn KEY_F2() -> (key: KeyMap<'static>)
        ensures
            key@ == ("f2"@, 113i32),
    {
        KeyMap::new("f2", 113)
    }

    /// The key `f3`.
    pub fn KEY_F3() -> (key: KeyMap<'static>)
        ensures
            key@ == ("f3"@, 114i32),
    {
        KeyMap::new("f3", 114)
    }

    /// The key `f4`.
    pub fn KEY_F4() -> (key: KeyMap<'static>)
        ensures
            key@ == ("f4"@, 115i32),
    {
        KeyMap::new("f4", 115)
    }

    /// The key `f5`.
    pub fn KEY_F5() -> (key: KeyMap<'static>)
        ensures
            key@ == ("f5"@, 116i32),
    {
        KeyMap::new("f5", 116)
    }

    /// The key `f6`.
    pub fn KEY_F6() -> (key: KeyMap<'static>)
        ensures
            key@ == ("f6"@, 117i32),
    {
        KeyMap::new("f6", 117)
    }

    /// The key `f7`.
    pub fn KEY_F7() -> (key: KeyMap<'static>)
        ensures
            key@ == ("f7"@, 118i32),
    {
        KeyMap::new("f7", 118)
    }

    /// The key `f8`.
    pub fn KEY_F8() -> (key: KeyMap<'static>)
        ensures
            key@ == ("f8"@, 119i32),
    {
        KeyMap::new("f8", 119)
    }

    /// The key `f9`.
    pub fn KEY_F9() -> (key: KeyMap<'static>)
        ensures
            key@ == ("f9"@, 120i32),
    {
        KeyMap::new("f9", 120)
    }

    /// The key `f10`.
    pub fn KEY_F10() -> (key: KeyMap<'static>)
        ensures
            key@ == ("f10"@, 121i32),
    {
        KeyMap::new("f10", 121)
    }

    /// The key `f11`.
    pub fn KEY_F11() -> (key: KeyMap<'static>)
        ensures
            key@ == ("f11"@, 122i32),
    {
        KeyMap::new("f11", 122)
    }

    /// The key `f12`.
    pub fn KEY_F12() -> (key: KeyMap<'static>)
        ensures
            key@ == ("f12"@, 123i32),
    {
        KeyMap::new("f12", 123)
    }

    /// The key `[`.
    pub fn KEY_OPEN_BRACKET() -> (key: KeyMap<'static>)
        ensures
            key@ == ("["@, 219i32),
    {
        KeyMap::new("[", 219)
    }

    /// The key `]`.
    pub fn KEY_CLOSE_BRACKET() -> (key: KeyMap<'static>)
        ensures
            key@ == ("]"@, 221i32),
    {
        KeyMap::new("]", 221)
    }

    /// The key `\`.
    pub fn KEY_BACKSLASH() -> (key: KeyMap<'static>)
        ensures
            key@ == ("\\"@, 220i32),
    {
        KeyMap::new("\\", 220)
    }

    /// The key `;`.
    pub fn KEY_SEMICOLON() -> (key: KeyMap<'static>)
        ensures
            key@ == (";"@, 186i32),
    {
        KeyMap::new(";", 186)
    }

    /// The key `'`.
    pub fn KEY_SINGLE_QUOTES() -> (key: KeyMap<'static>)
        ensures
            key@ == ("'"@, 222i32),
    {
        KeyMap::new("'", 222)
    }

    /// The key `,`.
    pub fn KEY_COMMA() -> (key: KeyMap<'static>)
        ensures
            key@ == (","@, 188i32),
    {
        KeyMap::new(",", 188)
    }

    /// The key `.`.
    pub fn KEY_DOT() -> (key: KeyMap<'static>)
        ensures
            key@ == ("."@, 190i32),
    {
        KeyMap::new(".", 190)
    }

    /// The key `/`.
    pub fn KEY_SLASH() -> (key: KeyMap<'static>)
        ensures
            key@ == ("/"@, 191i32),
    {
        KeyMap::new("/", 191)
    }
}

} // verus!
