//! The names that a binding spells mouse buttons by.
use vstd::prelude::*;
use vstd::string::*;

use crate::keys::Button;
use crate::text::{append_decimal, decimal, lemma_parse_u8_of_decimal, parse_u8, parse_u8_spec, text_eq};

verus! {

/// The name of a mouse button: `Left`, `Right`, `Middle`, `Button4`,
/// `Button5`, or `x` and the button's number in decimal.
pub open spec fn button_name(b: Button) -> Seq<char> {
    match b {
        Button::Left => "Left"@,
        Button::Right => "Right"@,
        Button::Middle => "Middle"@,
        Button::Button4 => "Button4"@,
        Button::Button5 => "Button5"@,
        Button::Unknown(n) => seq!['x'] + decimal(n as nat),
    }
}

/// The mouse button that `s` names: one of the five names, or `x` followed
/// by text that `str::parse::<u8>` reads as the button's number.
pub open spec fn button_from_name(s: Seq<char>) -> Option<Button> {
    if s == "Left"@ {
        Some(Button::Left)
    } else if s == "Right"@ {
        Some(Button::Right)
    } else if s == "Middle"@ {
        Some(Button::Middle)
    } else if s == "Button4"@ {
        Some(Button::Button4)
    } else if s == "Button5"@ {
        Some(Button::Button5)
    } else if s.len() > 0 && s[0] == 'x' {
        match parse_u8_spec(s.skip(1)) {
            Some(n) => Some(Button::Unknown(n)),
            None => None,
        }
    } else {
        None
    }
}

/// The name of `btn`, as a binding spells it.
pub fn mouse_button_to_string(btn: Button) -> (s: String)
    ensures
        s@ == button_name(btn),
{
    let mut s = String::new();
    match btn {
        Button::Left => s.append("Left"),
        Button::Right => s.append("Right"),
        Button::Middle => s.append("Middle"),
        Button::Button4 => s.append("Button4"),
        Button::Button5 => s.append("Button5"),
        Button::Unknown(n) => {
            proof {
                reveal_strlit("x");
            }
            s.append("x");
            append_decimal(&mut s, n as u32);
            assert(s@ =~= button_name(btn));
        },
    }
    s
}

/// The mouse button that `name` spells, if any.
pub fn string_to_monio_button(name: &str) -> (r: Option<Button>)
    ensures
        r == button_from_name(name@),
{
    if text_eq(name, "Left") {
        Some(Button::Left)
    } else if text_eq(name, "Right") {
        Some(Button::Right)
    } else if text_eq(name, "Middle") {
        Some(Button::Middle)
    } else if text_eq(name, "Button4") {
        Some(Button::Button4)
    } else if text_eq(name, "Button5") {
        Some(Button::Button5)
    } else {
        let n = name.unicode_len();
        if n > 0 && name.get_char(0) == 'x' {
            let rest = name.substring_char(1, n);
            assert(rest@ =~= name@.skip(1));
            match parse_u8(rest) {
                Some(k) => Some(Button::Unknown(k)),
                None => None,
            }
        } else {
            None
        }
    }
}

/// Every mouse button's name reads back as that button.
pub proof fn lemma_button_name_reads_back(b: Button)
    ensures
        button_from_name(button_name(b)) == Some(b),
{
    reveal_strlit("Left");
    reveal_strlit("Right");
    reveal_strlit("Middle");
    reveal_strlit("Button4");
    reveal_strlit("Button5");
    match b {
        Button::Unknown(n) => {
            let s = button_name(b);
            assert(s[0] == 'x');
            assert(s != "Left"@ && s != "Right"@ && s != "Middle"@ && s != "Button4"@ && s
                != "Button5"@) by {
                assert("Left"@[0] == 'L');
                assert("Right"@[0] == 'R');
                assert("Middle"@[0] == 'M');
                assert("Button4"@[0] == 'B');
                assert("Button5"@[0] == 'B');
            }
            assert(s.skip(1) =~= decimal(n as nat));
            lemma_parse_u8_of_decimal(n);
        },
        Button::Button5 => {
            assert("Button5"@[6] != "Button4"@[6]);
        },
        _ => {},
    }
}

} // verus!
