//! The push-to-talk binding grammar.
//!
//! A binding is stored as text: `key:` followed by an optional modifier
//! prefix such as `Shift+Ctrl+` and a key name (`key:Ctrl+KeyT`), or
//! `mouse:` followed by a button name (`mouse:Button4`, `mouse:x9`).
use vstd::prelude::*;
use vstd::string::*;

use crate::keys::{
    is_bindable_key, key_from_name, key_name, lemma_bindable_name_has_no_plus,
    lemma_key_name_has_no_plus, lemma_key_names_distinct,
    lemma_key_name_reads_back, monio_key_to_string, string_to_monio_key, Button, Key,
};
use crate::modifiers::{
    lemma_prefix_ends_with_plus, lemma_prefix_mask_round_trip, mask_from_prefix, mask_of_prefix, modifier_bits,
    modifier_prefix_from_mask, prefix_of_mask,
};
use crate::mouse::{
    button_from_name, button_name, lemma_button_name_reads_back, mouse_button_to_string,
    string_to_monio_button,
};
use crate::text::{no_plus, text_eq};

verus! {

/// What a binding reacts to: a key together with the exact set of modifier
/// bits that must be held when it is pressed, or a mouse button.
#[derive(Clone, Copy, Debug, PartialEq, Eq, Structural)]
pub enum PttTrigger {
    Key { key: Key, modifiers: u32 },
    Mouse(Button),
}

/// `s` without its leading `p`, if `s` begins with `p`.
pub open spec fn strip_prefix_spec(s: Seq<char>, p: Seq<char>) -> Option<Seq<char>> {
    if p.len() <= s.len() && s.take(p.len() as int) == p {
        Some(s.skip(p.len() as int))
    } else {
        None
    }
}

/// The position of the last `+` in `s`, as `str::rfind('+')` finds it.
pub open spec fn last_plus(s: Seq<char>) -> Option<int>
    decreases s.len(),
{
    if s.len() == 0 {
        None
    } else if s.last() == '+' {
        Some(s.len() - 1)
    } else {
        last_plus(s.drop_last())
    }
}

/// The modifier prefix and the key name of the text after `key:`: the prefix
/// runs up to and including the last `+`, and is empty when there is none.
pub open spec fn split_combo(combo: Seq<char>) -> (Seq<char>, Seq<char>) {
    match last_plus(combo) {
        Some(p) => (combo.take(p + 1), combo.skip(p + 1)),
        None => (Seq::empty(), combo),
    }
}

/// What a stored binding stands for, if it is well formed.
pub open spec fn binding_trigger(s: Seq<char>) -> Option<PttTrigger> {
    match strip_prefix_spec(s, "key:"@) {
        Some(combo) => {
            let (prefix, name) = split_combo(combo);
            match key_from_name(name) {
                Some(k) => Some(PttTrigger::Key { key: k, modifiers: mask_of_prefix(prefix) }),
                None => None,
            }
        },
        None => match strip_prefix_spec(s, "mouse:"@) {
            Some(name) => match button_from_name(name) {
                Some(b) => Some(PttTrigger::Mouse(b)),
                None => None,
            },
            None => None,
        },
    }
}

/// The binding that a key press with the modifier bits of `mask` is
/// captured as.
pub open spec fn key_binding_text(k: Key, mask: u32) -> Seq<char> {
    "key:"@ + prefix_of_mask(mask) + key_name(k)
}

/// The binding that a mouse button press is captured as.
pub open spec fn mouse_binding_text(b: Button) -> Seq<char> {
    "mouse:"@ + button_name(b)
}

/// `s` without its leading `p`, if `s` begins with `p`.
fn strip_prefix<'a>(s: &'a str, p: &str) -> (r: Option<&'a str>)
    ensures
        match r {
            Some(rest) => strip_prefix_spec(s@, p@) == Some(rest@),
            None => strip_prefix_spec(s@, p@) is None,
        },
{
    let n = s.unicode_len();
    let m = p.unicode_len();
    if m > n {
        return None;
    }
    let head = s.substring_char(0, m);
    assert(head@ =~= s@.take(m as int));
    if text_eq(head, p) {
        let rest = s.substring_char(m, n);
        assert(rest@ =~= s@.skip(m as int));
        Some(rest)
    } else {
        None
    }
}

/// The position of the last `+` in `s`.
fn rfind_plus(s: &str) -> (r: Option<usize>)
    ensures
        match r {
            Some(p) => last_plus(s@) == Some(p as int) && p < s@.len(),
            None => last_plus(s@) is None,
        },
{
    let n = s.unicode_len();
    let mut i = n;
    assert(s@.take(n as int) =~= s@);
    while i > 0
        invariant
            i <= n,
            n == s@.len(),
            last_plus(s@) == last_plus(s@.take(i as int)),
        decreases i,
    {
        let ghost t = s@.take(i as int);
        assert(t.last() == s@[i - 1]);
        if s.get_char(i - 1) == '+' {
            return Some(i - 1);
        }
        assert(t.drop_last() =~= s@.take(i - 1));
        i = i - 1;
    }
    None
}

/// Reads a stored binding: `None` when it is not well formed.
pub fn parse_binding(binding: &str) -> (r: Option<PttTrigger>)
    ensures
        r == binding_trigger(binding@),
{
    if let Some(combo) = strip_prefix(binding, "key:") {
        let n = combo.unicode_len();
        let last = rfind_plus(combo);
        let (prefix, key_name) = match last {
            Some(pos) => (combo.substring_char(0, pos + 1), combo.substring_char(pos + 1, n)),
            None => (combo.substring_char(0, 0), combo),
        };
        proof {
            let (sp, sn) = split_combo(combo@);
            match last {
                Some(pos) => {
                    assert(prefix@ =~= sp);
                    assert(key_name@ =~= sn);
                },
                None => {
                    assert(prefix@ =~= sp);
                },
            }
        }
        let key = match string_to_monio_key(key_name) {
            Some(k) => k,
            None => {
                return None;
            },
        };
        let modifiers = mask_from_prefix(prefix);
        Some(PttTrigger::Key { key, modifiers })
    } else if let Some(name) = strip_prefix(binding, "mouse:") {
        match string_to_monio_button(name) {
            Some(b) => Some(PttTrigger::Mouse(b)),
            None => None,
        }
    } else {
        None
    }
}

/// The binding that a press of `key` with the modifiers of `mask` is
/// captured as.
pub fn key_binding(key: Key, mask: u32) -> (s: String)
    ensures
        s@ == key_binding_text(key, mask),
{
    let mut s = String::new();
    s.append("key:");
    let prefix = modifier_prefix_from_mask(mask);
    s.append(prefix.as_str());
    let name = monio_key_to_string(key);
    s.append(name.as_str());
    assert(s@ =~= key_binding_text(key, mask));
    s
}

/// The binding that a press of `btn` is captured as.
pub fn mouse_binding(btn: Button) -> (s: String)
    ensures
        s@ == mouse_binding_text(btn),
{
    let mut s = String::new();
    s.append("mouse:");
    let name = mouse_button_to_string(btn);
    s.append(name.as_str());
    assert(s@ =~= mouse_binding_text(btn));
    s
}

/// Text without a `+` sign after the last `+` leaves its position unchanged.
proof fn lemma_last_plus_append_plain(x: Seq<char>, y: Seq<char>)
    requires
        no_plus(y),
    ensures
        last_plus(x + y) == last_plus(x),
    decreases y.len(),
{
    if y.len() == 0 {
        assert(x + y =~= x);
    } else {
        let y0 = y.drop_last();
        assert((x + y).drop_last() =~= x + y0);
        assert((x + y).last() == y.last());
        lemma_last_plus_append_plain(x, y0);
    }
}

/// The spelled-out tokens of the grammar.
proof fn lemma_grammar_tokens()
    ensures
        "key:"@ == seq!['k', 'e', 'y', ':'],
        "mouse:"@ == seq!['m', 'o', 'u', 's', 'e', ':'],
{
    reveal_strlit("key:");
    reveal_strlit("mouse:");
    assert("key:"@ =~= seq!['k', 'e', 'y', ':']);
    assert("mouse:"@ =~= seq!['m', 'o', 'u', 's', 'e', ':']);
}

/// A captured key binding reads back as that key with the modifier bits of
/// the mask it was captured with, for every key that a binding can name.
pub proof fn lemma_key_binding_round_trip(k: Key, mask: u32)
    requires
        is_bindable_key(k),
    ensures
        binding_trigger(key_binding_text(k, mask)) == Some(
            PttTrigger::Key { key: k, modifiers: mask & modifier_bits() },
        ),
{
    lemma_grammar_tokens();
    let p = prefix_of_mask(mask);
    let n = key_name(k);
    let s = key_binding_text(k, mask);
    assert(s.take(4) =~= "key:"@);
    let combo = s.skip(4);
    assert(combo =~= p + n);
    lemma_bindable_name_has_no_plus(k);
    lemma_last_plus_append_plain(p, n);
    lemma_prefix_ends_with_plus(mask);
    if p.len() == 0 {
        assert(last_plus(p) is None);
        assert(combo =~= n);
        assert(split_combo(combo) == (Seq::<char>::empty(), n));
    } else {
        assert(last_plus(p) == Some(p.len() - 1));
        assert(combo.take(p.len() as int) =~= p);
        assert(combo.skip(p.len() as int) =~= n);
        assert(split_combo(combo) == (p, n));
    }
    assert(p =~= split_combo(combo).0);
    lemma_key_name_reads_back(k);
    lemma_prefix_mask_round_trip(mask);
}

/// A captured mouse binding reads back as that button, for every button.
pub proof fn lemma_mouse_binding_round_trip(b: Button)
    ensures
        binding_trigger(mouse_binding_text(b)) == Some(PttTrigger::Mouse(b)),
{
    lemma_grammar_tokens();
    let s = mouse_binding_text(b);
    assert(s.take(4)[0] == 'm');
    assert(strip_prefix_spec(s, "key:"@) is None);
    assert(s.take(6) =~= "mouse:"@);
    assert(s.skip(6) =~= button_name(b));
    lemma_button_name_reads_back(b);
}

/// For every key and every mask, a captured key binding is `key:`, then the
/// modifier prefix of the mask up to its last `+`, then exactly the pressed
/// key's own name.
pub proof fn lemma_key_binding_parts(k: Key, mask: u32)
    ensures
        strip_prefix_spec(key_binding_text(k, mask), "key:"@) matches Some(combo) && split_combo(
            combo,
        ) == (prefix_of_mask(mask), key_name(k)),
{
    lemma_grammar_tokens();
    let p = prefix_of_mask(mask);
    let n = key_name(k);
    let s = key_binding_text(k, mask);
    assert(s.take(4) =~= "key:"@);
    let combo = s.skip(4);
    assert(combo =~= p + n);
    lemma_key_name_has_no_plus(k);
    lemma_last_plus_append_plain(p, n);
    lemma_prefix_ends_with_plus(mask);
    if p.len() == 0 {
        assert(combo =~= n);
        assert(split_combo(combo) == (Seq::<char>::empty(), n));
        assert(p =~= Seq::<char>::empty());
    } else {
        assert(last_plus(p) == Some(p.len() - 1));
        assert(combo.take(p.len() as int) =~= p);
        assert(combo.skip(p.len() as int) =~= n);
    }
}

/// A captured key binding tells which key was pressed and which modifiers
/// were held: two presses are written alike only when they are of the same
/// key with the same Shift, Control, Alt and Meta bits.
pub proof fn lemma_key_binding_determines_press(k1: Key, mask1: u32, k2: Key, mask2: u32)
    requires
        key_binding_text(k1, mask1) == key_binding_text(k2, mask2),
    ensures
        k1 == k2,
        mask1 & modifier_bits() == mask2 & modifier_bits(),
{
    lemma_key_binding_parts(k1, mask1);
    lemma_key_binding_parts(k2, mask2);
    lemma_key_names_distinct(k1, k2);
    lemma_prefix_mask_round_trip(mask1);
    lemma_prefix_mask_round_trip(mask2);
}

/// For every button, a captured mouse binding is `mouse:` and then exactly
/// the button's name, and it tells which button was pressed.
pub proof fn lemma_mouse_binding_determines_button(b1: Button, b2: Button)
    ensures
        mouse_binding_text(b1).take(6) == "mouse:"@,
        mouse_binding_text(b1).skip(6) == button_name(b1),
        mouse_binding_text(b1) == mouse_binding_text(b2) ==> b1 == b2,
{
    lemma_grammar_tokens();
    assert(mouse_binding_text(b1).take(6) =~= "mouse:"@);
    assert(mouse_binding_text(b1).skip(6) =~= button_name(b1));
    assert(mouse_binding_text(b2).skip(6) =~= button_name(b2));
    lemma_mouse_binding_round_trip(b1);
    lemma_mouse_binding_round_trip(b2);
}

} // verus!
