//! Key codes and the mapping from host key-event text.
//!
//! Recognized codes are the single letters (case-folded to lowercase),
//! the digits, the four arrow names, and the single space; anything else
//! maps to `Unknown` rather than erroring.

use vstd::prelude::*;

verus! {

/// A recognized key, or `Unknown` for any other event text.
#[derive(Clone, Copy, Debug, PartialEq, Eq, Structural)]
pub enum KeyCode {
    KeyCodeA,
    KeyCodeB,
    KeyCodeC,
    KeyCodeD,
    KeyCodeE,
    KeyCodeF,
    KeyCodeG,
    KeyCodeH,
    KeyCodeI,
    KeyCodeJ,
    KeyCodeK,
    KeyCodeL,
    KeyCodeM,
    KeyCodeN,
    KeyCodeO,
    KeyCodeP,
    KeyCodeQ,
    KeyCodeR,
    KeyCodeS,
    KeyCodeT,
    KeyCodeU,
    KeyCodeV,
    KeyCodeW,
    KeyCodeX,
    KeyCodeY,
    KeyCodeZ,
    KeyCode0,
    KeyCode1,
    KeyCode2,
    KeyCode3,
    KeyCode4,
    KeyCode5,
    KeyCode6,
    KeyCode7,
    KeyCode8,
    KeyCode9,
    KeyCodeArrowUp,
    KeyCodeArrowDown,
    KeyCodeArrowLeft,
    KeyCodeArrowRight,
    KeyCodeSpace,
    Unknown,
}

/// ASCII case folding of one character: uppercase letters become
/// lowercase, everything else is unchanged.
pub open spec fn lower_char(c: char) -> char {
    if 'A' <= c && c <= 'Z' {
        (((c as u32) + 32) as u8) as char
    } else {
        c
    }
}

/// The key for one (already case-folded) character.
pub open spec fn key_code_of_char(c: char) -> KeyCode {
    if c == 'a' {
        KeyCode::KeyCodeA
    } else if c == 'b' {
        KeyCode::KeyCodeB
    } else if c == 'c' {
        KeyCode::KeyCodeC
    } else if c == 'd' {
        KeyCode::KeyCodeD
    } else if c == 'e' {
        KeyCode::KeyCodeE
    } else if c == 'f' {
        KeyCode::KeyCodeF
    } else if c == 'g' {
        KeyCode::KeyCodeG
    } else if c == 'h' {
        KeyCode::KeyCodeH
    } else if c == 'i' {
        KeyCode::KeyCodeI
    } else if c == 'j' {
        KeyCode::KeyCodeJ
    } else if c == 'k' {
        KeyCode::KeyCodeK
    } else if c == 'l' {
        KeyCode::KeyCodeL
    } else if c == 'm' {
        KeyCode::KeyCodeM
    } else if c == 'n' {
        KeyCode::KeyCodeN
    } else if c == 'o' {
        KeyCode::KeyCodeO
    } else if c == 'p' {
        KeyCode::KeyCodeP
    } else if c == 'q' {
        KeyCode::KeyCodeQ
    } else if c == 'r' {
        KeyCode::KeyCodeR
    } else if c == 's' {
        KeyCode::KeyCodeS
    } else if c == 't' {
        KeyCode::KeyCodeT
    } else if c == 'u' {
        KeyCode::KeyCodeU
    } else if c == 'v' {
        KeyCode::KeyCodeV
    } else if c == 'w' {
        KeyCode::KeyCodeW
    } else if c == 'x' {
        KeyCode::KeyCodeX
    } else if c == 'y' {
        KeyCode::KeyCodeY
    } else if c == 'z' {
        KeyCode::KeyCodeZ
    } else if c == '0' {
        KeyCode::KeyCode0
    } else if c == '1' {
        KeyCode::KeyCode1
    } else if c == '2' {
        KeyCode::KeyCode2
    } else if c == '3' {
        KeyCode::KeyCode3
    } else if c == '4' {
        KeyCode::KeyCode4
    } else if c == '5' {
        KeyCode::KeyCode5
    } else if c == '6' {
        KeyCode::KeyCode6
    } else if c == '7' {
        KeyCode::KeyCode7
    } else if c == '8' {
        KeyCode::KeyCode8
    } else if c == '9' {
        KeyCode::KeyCode9
    } else if c == ' ' {
        KeyCode::KeyCodeSpace
    } else {
        KeyCode::Unknown
    }
}

pub open spec fn arrow_up_chars() -> Seq<char> {
    seq!['A', 'r', 'r', 'o', 'w', 'U', 'p']
}

pub open spec fn arrow_down_chars() -> Seq<char> {
    seq!['A', 'r', 'r', 'o', 'w', 'D', 'o', 'w', 'n']
}

pub open spec fn arrow_left_chars() -> Seq<char> {
    seq!['A', 'r', 'r', 'o', 'w', 'L', 'e', 'f', 't']
}

pub open spec fn arrow_right_chars() -> Seq<char> {
    seq!['A', 'r', 'r', 'o', 'w', 'R', 'i', 'g', 'h', 't']
}

/// The key for a whole key-event text: single characters are case-folded
/// and mapped, the four arrow names map to the arrow keys, and any other
/// text is `Unknown`.
pub open spec fn key_code_of(s: Seq<char>) -> KeyCode {
    if s.len() == 1 {
        key_code_of_char(lower_char(s[0]))
    } else if s == arrow_up_chars() {
        KeyCode::KeyCodeArrowUp
    } else if s == arrow_down_chars() {
        KeyCode::KeyCodeArrowDown
    } else if s == arrow_left_chars() {
        KeyCode::KeyCodeArrowLeft
    } else if s == arrow_right_chars() {
        KeyCode::KeyCodeArrowRight
    } else {
        KeyCode::Unknown
    }
}

/// Character-wise string comparison, so that the contract speaks of the
/// character sequences themselves.
fn str_chars_eq(a: &str, b: &str) -> (r: bool)
    ensures
        r == (a@ == b@),
{
    let na = a.unicode_len();
    let nb = b.unicode_len();
    if na != nb {
        return false;
    }
    let mut i: usize = 0;
    while i < na
        invariant
            na == a@.len(),
            nb == b@.len(),
            na == nb,
            i <= na,
            forall|j: int| 0 <= j < i ==> a@[j] == b@[j],
        decreases na - i,
    {
        if a.get_char(i) != b.get_char(i) {
            return false;
        }
        i = i + 1;
    }
    proof {
        assert(a@ =~= b@);
    }
    true
}

/// ASCII case folding of one character.
pub fn lower_ascii_char(c: char) -> (r: char)
    ensures
        r == lower_char(c),
{
    let u = c as u32;
    if 65 <= u && u <= 90 {
        (u + 32) as u8 as char
    } else {
        c
    }
}

/// The key for one (already case-folded) character.
pub fn key_code_from_char(c: char) -> (k: KeyCode)
    ensures
        k == key_code_of_char(c),
{
    match c {
        'a' => KeyCode::KeyCodeA,
        'b' => KeyCode::KeyCodeB,
        'c' => KeyCode::KeyCodeC,
        'd' => KeyCode::KeyCodeD,
        'e' => KeyCode::KeyCodeE,
        'f' => KeyCode::KeyCodeF,
        'g' => KeyCode::KeyCodeG,
        'h' => KeyCode::KeyCodeH,
        'i' => KeyCode::KeyCodeI,
        'j' => KeyCode::KeyCodeJ,
        'k' => KeyCode::KeyCodeK,
        'l' => KeyCode::KeyCodeL,
        'm' => KeyCode::KeyCodeM,
        'n' => KeyCode::KeyCodeN,
        'o' => KeyCode::KeyCodeO,
        'p' => KeyCode::KeyCodeP,
        'q' => KeyCode::KeyCodeQ,
        'r' => KeyCode::KeyCodeR,
        's' => KeyCode::KeyCodeS,
        't' => KeyCode::KeyCodeT,
        'u' => KeyCode::KeyCodeU,
        'v' => KeyCode::KeyCodeV,
        'w' => KeyCode::KeyCodeW,
        'x' => KeyCode::KeyCodeX,
        'y' => KeyCode::KeyCodeY,
        'z' => KeyCode::KeyCodeZ,
        '0' => KeyCode::KeyCode0,
        '1' => KeyCode::KeyCode1,
        '2' => KeyCode::KeyCode2,
        '3' => KeyCode::KeyCode3,
        '4' => KeyCode::KeyCode4,
        '5' => KeyCode::KeyCode5,
        '6' => KeyCode::KeyCode6,
        '7' => KeyCode::KeyCode7,
        '8' => KeyCode::KeyCode8,
        '9' => KeyCode::KeyCode9,
        ' ' => KeyCode::KeyCodeSpace,
        _ => KeyCode::Unknown,
    }
}

/// The key for a whole key-event text. Unrecognized text maps to
/// `Unknown`; nothing is an error.
pub fn key_code_from_str(code: &str) -> (k: KeyCode)
    ensures
        k == key_code_of(code@),
{
    let n = code.unicode_len();
    if n == 1 {
        let c = code.get_char(0);
        key_code_from_char(lower_ascii_char(c))
    } else if str_chars_eq(code, "ArrowUp") {
        proof {
            reveal_strlit("ArrowUp");
            assert(code@ =~= arrow_up_chars());
        }
        KeyCode::KeyCodeArrowUp
    } else if str_chars_eq(code, "ArrowDown") {
        proof {
            reveal_strlit("ArrowDown");
            assert(code@ =~= arrow_down_chars());
        }
        KeyCode::KeyCodeArrowDown
    } else if str_chars_eq(code, "ArrowLeft") {
        proof {
            reveal_strlit("ArrowLeft");
            assert(code@ =~= arrow_left_chars());
        }
        KeyCode::KeyCodeArrowLeft
    } else if str_chars_eq(code, "ArrowRight") {
        proof {
            reveal_strlit("ArrowRight");
            assert(code@ =~= arrow_right_chars());
        }
        KeyCode::KeyCodeArrowRight
    } else {
        proof {
            reveal_strlit("ArrowUp");
            reveal_strlit("ArrowDown");
            reveal_strlit("ArrowLeft");
            reveal_strlit("ArrowRight");
            assert(code@ != arrow_up_chars()) by {
                if code@ == arrow_up_chars() {
                    assert(code@ =~= "ArrowUp"@);
                }
            }
            assert(code@ != arrow_down_chars()) by {
                if code@ == arrow_down_chars() {
                    assert(code@ =~= "ArrowDown"@);
                }
            }
            assert(code@ != arrow_left_chars()) by {
                if code@ == arrow_left_chars() {
                    assert(code@ =~= "ArrowLeft"@);
                }
            }
            assert(code@ != arrow_right_chars()) by {
                if code@ == arrow_right_chars() {
                    assert(code@ =~= "ArrowRight"@);
                }
            }
        }
        KeyCode::Unknown
    }
}

} // verus!
