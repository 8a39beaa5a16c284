use vstd::prelude::*;

verus! {

pub const KEY_NULL: i32 = 0;
/// Control-D: scrolls a page down.
pub const KEY_EOT: i32 = 4;
pub const KEY_BS: i32 = 8;
/// Enter: confirms.
pub const KEY_LF: i32 = 10;
/// Control-U: scrolls a page up.
pub const KEY_NAK: i32 = 21;
/// Escape: cancels.
pub const KEY_ESC: i32 = 27;
pub const KEY_SPACE: i32 = 32;
pub const KEY_FORWARD_SLASH: i32 = 47;
pub const KEY_COLON: i32 = 58;
pub const KEY_C_UPPER: i32 = 67;
pub const KEY_N_UPPER: i32 = 78;
pub const KEY_O_UPPER: i32 = 79;
pub const KEY_P_UPPER: i32 = 80;
pub const KEY_R_UPPER: i32 = 82;
pub const KEY_B_LOWER: i32 = 98;
pub const KEY_C_LOWER: i32 = 99;
pub const KEY_D_LOWER: i32 = 100;
pub const KEY_H_LOWER: i32 = 104;
pub const KEY_J_LOWER: i32 = 106;
pub const KEY_K_LOWER: i32 = 107;
pub const KEY_L_LOWER: i32 = 108;
pub const KEY_N_LOWER: i32 = 110;
pub const KEY_Q_LOWER: i32 = 113;
pub const KEY_T_LOWER: i32 = 116;
pub const KEY_U_LOWER: i32 = 117;
pub const KEY_W_LOWER: i32 = 119;
pub const KEY_Y_LOWER: i32 = 121;
pub const KEY_TILDE: i32 = 126;
/// Backspace: deletes the character before the cursor.
pub const KEY_DEL: i32 = 127;
/// Arrow left.
pub const KEY_LEFT: i32 = 260;
/// Arrow right.
pub const KEY_RIGHT: i32 = 261;
/// Delete: deletes the character under the cursor.
pub const KEY_DELETE: i32 = 330;

/// A printable ASCII character, from space to tilde.
pub open spec fn is_printable(code: i32) -> bool {
    KEY_SPACE <= code <= KEY_TILDE
}

/// The character of a printable key code.
pub open spec fn printable_char(code: i32) -> char {
    (code as u8) as char
}

/// A key event as a terminal reports it, before it becomes a key code.
#[derive(Clone, Copy, Debug, PartialEq, Eq, Structural)]
pub enum KeyInput {
    Char(char),
    Enter,
    Esc,
    Backspace,
    Delete,
    Left,
    Right,
    Other,
}

/// The stable code of a key event: Control-D and Control-U become the two
/// page codes, any other character its scalar value, the named keys their
/// fixed codes; a key with no code is none. Control only changes `d` and
/// `u`, and keeps no key but characters.
pub open spec fn key_code_spec(input: KeyInput, control: bool) -> Option<i32> {
    match input {
        KeyInput::Char(c) => if control && c == 'd' {
            Some(KEY_EOT)
        } else if control && c == 'u' {
            Some(KEY_NAK)
        } else {
            Some(c as u32 as i32)
        },
        KeyInput::Enter => if control {
            None
        } else {
            Some(KEY_LF)
        },
        KeyInput::Esc => if control {
            None
        } else {
            Some(KEY_ESC)
        },
        KeyInput::Backspace => if control {
            None
        } else {
            Some(KEY_DEL)
        },
        KeyInput::Delete => if control {
            None
        } else {
            Some(KEY_DELETE)
        },
        KeyInput::Left => if control {
            None
        } else {
            Some(KEY_LEFT)
        },
        KeyInput::Right => if control {
            None
        } else {
            Some(KEY_RIGHT)
        },
        KeyInput::Other => None,
    }
}

/// The stable code of a key event, as `key_code_spec` says.
pub fn key_code(input: KeyInput, control: bool) -> (r: Option<i32>)
    ensures
        r == key_code_spec(input, control),
{
    match input {
        KeyInput::Char(c) => {
            if control && c == 'd' {
                Some(KEY_EOT)
            } else if control && c == 'u' {
                Some(KEY_NAK)
            } else {
                Some(c as u32 as i32)
            }
        },
        KeyInput::Other => None,
        _ => {
            if control {
                None
            } else {
                match input {
                    KeyInput::Enter => Some(KEY_LF),
                    KeyInput::Esc => Some(KEY_ESC),
                    KeyInput::Backspace => Some(KEY_DEL),
                    KeyInput::Delete => Some(KEY_DELETE),
                    KeyInput::Left => Some(KEY_LEFT),
                    _ => Some(KEY_RIGHT),
                }
            }
        },
    }
}

/// The abbreviation of an ASCII control code other than tab.
pub open spec fn control_name(code: int) -> Seq<char> {
    if code == 0 {
        "NUL"@
    } else if code == 1 {
        "SOH"@
    } else if code == 2 {
        "STX"@
    } else if code == 3 {
        "ETX"@
    } else if code == 4 {
        "EOT"@
    } else if code == 5 {
        "ENQ"@
    } else if code == 6 {
        "ACK"@
    } else if code == 7 {
        "BEL"@
    } else if code == 8 {
        "BS"@
    } else if code == 10 {
        "LF"@
    } else if code == 11 {
        "VT"@
    } else if code == 12 {
        "FF"@
    } else if code == 13 {
        "CR"@
    } else if code == 14 {
        "SO"@
    } else if code == 15 {
        "SI"@
    } else if code == 16 {
        "DLE"@
    } else if code == 17 {
        "DC1"@
    } else if code == 18 {
        "DC2"@
    } else if code == 19 {
        "DC3"@
    } else if code == 20 {
        "DC4"@
    } else if code == 21 {
        "NAK"@
    } else if code == 22 {
        "SYN"@
    } else if code == 23 {
        "ETB"@
    } else if code == 24 {
        "CAN"@
    } else if code == 25 {
        "EM"@
    } else if code == 26 {
        "SUB"@
    } else if code == 27 {
        "ESC"@
    } else if code == 28 {
        "FS"@
    } else if code == 29 {
        "GS"@
    } else if code == 30 {
        "RS"@
    } else if code == 31 {
        "US"@
    } else if code == 127 {
        "DEL"@
    } else {
        Seq::empty()
    }
}

/// A code that `ascii_to_char` shows as the character itself: tab and the
/// printable characters.
pub open spec fn shows_as_itself(code: int) -> bool {
    code == 9 || KEY_SPACE <= code <= KEY_TILDE
}

/// What `ascii_to_char` gives for an ASCII code: tab and the printable
/// characters as themselves, the other control codes by abbreviation.
pub open spec fn ascii_name(code: int) -> Seq<char> {
    if shows_as_itself(code) {
        seq![(code as u8) as char]
    } else {
        control_name(code)
    }
}

/// The control code `code` by its abbreviation.
fn control_to_str(code: i32) -> (r: &'static str)
    requires
        0 <= code < 128,
        !shows_as_itself(code as int),
    ensures
        r@ == control_name(code as int),
{
    match code {
        0 => "NUL",
        1 => "SOH",
        2 => "STX",
        3 => "ETX",
        4 => "EOT",
        5 => "ENQ",
        6 => "ACK",
        7 => "BEL",
        8 => "BS",
        10 => "LF",
        11 => "VT",
        12 => "FF",
        13 => "CR",
        14 => "SO",
        15 => "SI",
        16 => "DLE",
        17 => "DC1",
        18 => "DC2",
        19 => "DC3",
        20 => "DC4",
        21 => "NAK",
        22 => "SYN",
        23 => "ETB",
        24 => "CAN",
        25 => "EM",
        26 => "SUB",
        27 => "ESC",
        28 => "FS",
        29 => "GS",
        30 => "RS",
        31 => "US",
        _ => "DEL",
    }
}

/// The character of a code that shows as itself.
fn char_to_str(code: i32) -> (r: &'static str)
    requires
        shows_as_itself(code as int),
    ensures
        r@ == seq![(code as u8) as char],
{
    match code {
        9 => {
            proof {
                reveal_strlit("\t");
            }
            "\t"
        },
        32 => {
            proof {
                reveal_strlit(" ");
            }
            " "
        },
        33 => {
            proof {
                reveal_strlit("!");
            }
            "!"
        },
        34 => {
            proof {
                reveal_strlit("\"");
            }
            "\""
        },
        35 => {
            proof {
                reveal_strlit("#");
            }
            "#"
        },
        36 => {
            proof {
                reveal_strlit("$");
            }
            "$"
        },
        37 => {
            proof {
                reveal_strlit("%");
            }
            "%"
        },
        38 => {
            proof {
                reveal_strlit("&");
            }
            "&"
        },
        39 => {
            proof {
                reveal_strlit("'");
            }
            "'"
        },
        40 => {
            proof {
                reveal_strlit("(");
            }
            "("
        },
        41 => {
            proof {
                reveal_strlit(")");
            }
            ")"
        },
        42 => {
            proof {
                reveal_strlit("*");
            }
            "*"
        },
        43 => {
            proof {
                reveal_strlit("+");
            }
            "+"
        },
        44 => {
            proof {
                reveal_strlit(",");
            }
            ","
        },
        45 => {
            proof {
                reveal_strlit("-");
            }
            "-"
        },
        46 => {
            proof {
                reveal_strlit(".");
            }
            "."
        },
        47 => {
            proof {
                reveal_strlit("/");
            }
            "/"
        },
        48 => {
            proof {
                reveal_strlit("0");
            }
            "0"
        },
        49 => {
            proof {
                reveal_strlit("1");
            }
            "1"
        },
        50 => {
            proof {
                reveal_strlit("2");
            }
            "2"
        },
        51 => {
            proof {
                reveal_strlit("3");
            }
            "3"
        },
        52 => {
            proof {
                reveal_strlit("4");
            }
            "4"
        },
        53 => {
            proof {
                reveal_strlit("5");
            }
            "5"
        },
        54 => {
            proof {
                reveal_strlit("6");
            }
            "6"
        },
        55 => {
            proof {
                reveal_strlit("7");
            }
            "7"
        },
        56 => {
            proof {
                reveal_strlit("8");
            }
            "8"
        },
        57 => {
            proof {
                reveal_strlit("9");
            }
            "9"
        },
        58 => {
            proof {
                reveal_strlit(":");
            }
            ":"
        },
        59 => {
            proof {
                reveal_strlit(";");
            }
            ";"
        },
        60 => {
            proof {
                reveal_strlit("<");
            }
            "<"
        },
        61 => {
            proof {
                reveal_strlit("=");
            }
            "="
        },
        62 => {
            proof {
                reveal_strlit(">");
            }
            ">"
        },
        63 => {
            proof {
                reveal_strlit("?");
            }
            "?"
        },
        64 => {
            proof {
                reveal_strlit("@");
            }
            "@"
        },
        65 => {
            proof {
                reveal_strlit("A");
            }
            "A"
        },
        66 => {
            proof {
                reveal_strlit("B");
            }
            "B"
        },
        67 => {
            proof {
                reveal_strlit("C");
            }
            "C"
        },
        68 => {
            proof {
                reveal_strlit("D");
            }
            "D"
        },
        69 => {
            proof {
                reveal_strlit("E");
            }
            "E"
        },
        70 => {
            proof {
                reveal_strlit("F");
            }
            "F"
        },
        71 => {
            proof {
                reveal_strlit("G");
            }
            "G"
        },
        72 => {
            proof {
                reveal_strlit("H");
            }
            "H"
        },
        73 => {
            proof {
                reveal_strlit("I");
            }
            "I"
        },
        74 => {
            proof {
                reveal_strlit("J");
            }
            "J"
        },
        75 => {
            proof {
                reveal_strlit("K");
            }
            "K"
        },
        76 => {
            proof {
                reveal_strlit("L");
            }
            "L"
        },
        77 => {
            proof {
                reveal_strlit("M");
            }
            "M"
        },
        78 => {
            proof {
                reveal_strlit("N");
            }
            "N"
        },
        79 => {
            proof {
                reveal_strlit("O");
            }
            "O"
        },
        80 => {
            proof {
                reveal_strlit("P");
            }
            "P"
        },
        81 => {
            proof {
                reveal_strlit("Q");
            }
            "Q"
        },
        82 => {
            proof {
                reveal_strlit("R");
            }
            "R"
        },
        83 => {
            proof {
                reveal_strlit("S");
            }
            "S"
        },
        84 => {
            proof {
                reveal_strlit("T");
            }
            "T"
        },
        85 => {
            proof {
                reveal_strlit("U");
            }
            "U"
        },
        86 => {
            proof {
                reveal_strlit("V");
            }
            "V"
        },
        87 => {
            proof {
                reveal_strlit("W");
            }
            "W"
        },
        88 => {
            proof {
                reveal_strlit("X");
            }
            "X"
        },
        89 => {
            proof {
                reveal_strlit("Y");
            }
            "Y"
        },
        90 => {
            proof {
                reveal_strlit("Z");
            }
            "Z"
        },
        91 => {
            proof {
                reveal_strlit("[");
            }
            "["
        },
        92 => {
            proof {
                reveal_strlit("\\");
            }
            "\\"
        },
        93 => {
            proof {
                reveal_strlit("]");
            }
            "]"
        },
        94 => {
            proof {
                reveal_strlit("^");
            }
            "^"
        },
        95 => {
            proof {
                reveal_strlit("_");
            }
            "_"
        },
        96 => {
            proof {
                reveal_strlit("`");
            }
            "`"
        },
        97 => {
            proof {
                reveal_strlit("a");
            }
            "a"
        },
        98 => {
            proof {
                reveal_strlit("b");
            }
            "b"
        },
        99 => {
            proof {
                reveal_strlit("c");
            }
            "c"
        },
        100 => {
            proof {
                reveal_strlit("d");
            }
            "d"
        },
        101 => {
            proof {
                reveal_strlit("e");
            }
            "e"
        },
        102 => {
            proof {
                reveal_strlit("f");
            }
            "f"
        },
        103 => {
            proof {
                reveal_strlit("g");
            }
            "g"
        },
        104 => {
            proof {
                reveal_strlit("h");
            }
            "h"
        },
        105 => {
            proof {
                reveal_strlit("i");
            }
            "i"
        },
        106 => {
            proof {
                reveal_strlit("j");
            }
            "j"
        },
        107 => {
            proof {
                reveal_strlit("k");
            }
            "k"
        },
        108 => {
            proof {
                reveal_strlit("l");
            }
            "l"
        },
        109 => {
            proof {
                reveal_strlit("m");
            }
            "m"
        },
        110 => {
            proof {
                reveal_strlit("n");
            }
            "n"
        },
        111 => {
            proof {
                reveal_strlit("o");
            }
            "o"
        },
        112 => {
            proof {
                reveal_strlit("p");
            }
            "p"
        },
        113 => {
            proof {
                reveal_strlit("q");
            }
            "q"
        },
        114 => {
            proof {
                reveal_strlit("r");
            }
            "r"
        },
        115 => {
            proof {
                reveal_strlit("s");
            }
            "s"
        },
        116 => {
            proof {
                reveal_strlit("t");
            }
            "t"
        },
        117 => {
            proof {
                reveal_strlit("u");
            }
            "u"
        },
        118 => {
            proof {
                reveal_strlit("v");
            }
            "v"
        },
        119 => {
            proof {
                reveal_strlit("w");
            }
            "w"
        },
        120 => {
            proof {
                reveal_strlit("x");
            }
            "x"
        },
        121 => {
            proof {
                reveal_strlit("y");
            }
            "y"
        },
        122 => {
            proof {
                reveal_strlit("z");
            }
            "z"
        },
        123 => {
            proof {
                reveal_strlit("{");
            }
            "{"
        },
        124 => {
            proof {
                reveal_strlit("|");
            }
            "|"
        },
        125 => {
            proof {
                reveal_strlit("}");
            }
            "}"
        },
        _ => {
            proof {
                reveal_strlit("~");
            }
            "~"
        },
    }
}

/// The text for an ASCII code: the character itself for tab and the
/// printable characters, the abbreviation for the other control codes, as
/// `ascii_name` says.
pub fn ascii_to_char(ascii_code: i32) -> (r: &'static str)
    requires
        0 <= ascii_code < 128,
    ensures
        r@ == ascii_name(ascii_code as int),
{
    if ascii_code == 9 || (KEY_SPACE <= ascii_code && ascii_code <= KEY_TILDE) {
        char_to_str(ascii_code)
    } else {
        control_to_str(ascii_code)
    }
}

} // verus!
