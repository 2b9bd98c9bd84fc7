//! Modifier keys held during an event: the mask bits that the input hook
//! reports, and the `Shift+Ctrl+Alt+Meta+` prefix that a binding spells
//! them with.
use vstd::prelude::*;
use vstd::string::*;

use crate::text::{no_plus, text_eq};

verus! {

/// `monio::state::MASK_SHIFT`: the mask bit that monio sets while a Shift
/// key is held; the crate defines it as bit 0.
#[verifier::external_body]
fn monio_mask_shift() -> (m: u32)
    ensures
        m == 1u32,
{
    monio::state::MASK_SHIFT
}

/// `monio::state::MASK_CTRL`: the mask bit that monio sets while a Control
/// key is held; the crate defines it as bit 1.
#[verifier::external_body]
fn monio_mask_ctrl() -> (m: u32)
    ensures
        m == 2u32,
{
    monio::state::MASK_CTRL
}

/// `monio::state::MASK_ALT`: the mask bit that monio sets while an Alt key
/// is held; the crate defines it as bit 2.
#[verifier::external_body]
fn monio_mask_alt() -> (m: u32)
    ensures
        m == 4u32,
{
    monio::state::MASK_ALT
}

/// `monio::state::MASK_META`: the mask bit that monio sets while a Meta
/// (Command, Windows, Super) key is held; the crate defines it as bit 3.
#[verifier::external_body]
fn monio_mask_meta() -> (m: u32)
    ensures
        m == 8u32,
{
    monio::state::MASK_META
}

/// The four modifier bits together: Shift, Control, Alt and Meta.
pub open spec fn modifier_bits() -> u32 {
    15u32
}

/// The part of an event mask that a binding compares: the Shift, Control,
/// Alt and Meta bits.
pub fn modifier_mask(mask: u32) -> (m: u32)
    ensures
        m == mask & modifier_bits(),
{
    let bits = monio_mask_shift() | monio_mask_ctrl() | monio_mask_alt() | monio_mask_meta();
    assert(1u32 | 2u32 | 4u32 | 8u32 == 15u32) by (bit_vector);
    mask & bits
}

/// The prefix that a captured binding writes for the modifiers in `mask`,
/// in the fixed order Shift, Ctrl, Alt, Meta, each followed by `+`.
pub open spec fn prefix_of_mask(mask: u32) -> Seq<char> {
    (if mask & 1 != 0 { "Shift+"@ } else { Seq::empty() }) + (if mask & 2 != 0 {
        "Ctrl+"@
    } else {
        Seq::empty()
    }) + (if mask & 4 != 0 { "Alt+"@ } else { Seq::empty() }) + (if mask & 8 != 0 {
        "Meta+"@
    } else {
        Seq::empty()
    })
}

/// The pieces of `s` between `+` signs, as `str::split('+')` yields them:
/// always at least one, and an empty one after a trailing `+`.
pub open spec fn split_plus(s: Seq<char>) -> Seq<Seq<char>>
    decreases s.len(),
{
    if s.len() == 0 {
        seq![Seq::empty()]
    } else {
        let p = split_plus(s.drop_last());
        if s.last() == '+' {
            p.push(Seq::empty())
        } else {
            p.update(p.len() - 1, p.last().push(s.last()))
        }
    }
}

/// The mask that a binding's modifier prefix stands for: a bit for each of
/// the words `Shift`, `Ctrl`, `Alt` and `Meta` that occurs as a piece of the
/// prefix between `+` signs; other pieces count for nothing.
pub open spec fn mask_of_prefix(prefix: Seq<char>) -> u32 {
    let parts = split_plus(prefix);
    (if parts.contains("Shift"@) { 1u32 } else { 0u32 }) | (if parts.contains("Ctrl"@) {
        2u32
    } else {
        0u32
    }) | (if parts.contains("Alt"@) { 4u32 } else { 0u32 }) | (if parts.contains("Meta"@) {
        8u32
    } else {
        0u32
    })
}

/// `split_plus` never yields an empty list of pieces.
pub proof fn lemma_split_plus_nonempty(s: Seq<char>)
    ensures
        split_plus(s).len() >= 1,
    decreases s.len(),
{
    if s.len() > 0 {
        lemma_split_plus_nonempty(s.drop_last());
    }
}

/// The modifier prefix for `mask`.
pub fn modifier_prefix_from_mask(mask: u32) -> (prefix: String)
    ensures
        prefix@ == prefix_of_mask(mask),
{
    let mut prefix = String::new();
    if mask & monio_mask_shift() != 0 {
        prefix.append("Shift+");
    }
    if mask & monio_mask_ctrl() != 0 {
        prefix.append("Ctrl+");
    }
    if mask & monio_mask_alt() != 0 {
        prefix.append("Alt+");
    }
    if mask & monio_mask_meta() != 0 {
        prefix.append("Meta+");
    }
    assert(prefix@ =~= prefix_of_mask(mask));
    prefix
}

/// The mask that a modifier prefix stands for.
pub fn mask_from_prefix(prefix: &str) -> (mask: u32)
    ensures
        mask == mask_of_prefix(prefix@),
{
    let n = prefix.unicode_len();
    let mut start: usize = 0;
    let mut i: usize = 0;
    let mut shift = false;
    let mut ctrl = false;
    let mut alt = false;
    let mut meta = false;
    let ghost mut done: Seq<Seq<char>> = Seq::empty();
    assert(prefix@.take(0) =~= Seq::<char>::empty());
    assert(prefix@.subrange(0, 0) =~= Seq::<char>::empty());
    assert(split_plus(prefix@.take(0)) =~= done.push(prefix@.subrange(0, 0)));
    while i < n
        invariant
            start <= i <= n,
            n == prefix@.len(),
            split_plus(prefix@.take(i as int)) == done.push(prefix@.subrange(start as int, i as int)),
            shift == done.contains("Shift"@),
            ctrl == done.contains("Ctrl"@),
            alt == done.contains("Alt"@),
            meta == done.contains("Meta"@),
        decreases n - i,
    {
        let c = prefix.get_char(i);
        let ghost cur = prefix@.subrange(start as int, i as int);
        let ghost next = prefix@.take(i + 1);
        assert(next.drop_last() =~= prefix@.take(i as int));
        assert(next.last() == c);
        if c == '+' {
            let part = prefix.substring_char(start, i);
            shift = shift || text_eq(part, "Shift");
            ctrl = ctrl || text_eq(part, "Ctrl");
            alt = alt || text_eq(part, "Alt");
            meta = meta || text_eq(part, "Meta");
            proof {
                let old_done = done;
                done = done.push(cur);
                assert(prefix@.subrange(i + 1, i + 1) =~= Seq::<char>::empty());
                assert(split_plus(next) =~= done.push(prefix@.subrange(i + 1, i + 1)));
                assert forall|w: Seq<char>| done.contains(w) <==> (old_done.contains(w) || cur == w) by {
                    if cur == w {
                        assert(done[done.len() - 1] == w);
                    }
                    if old_done.contains(w) {
                        let k = choose|k: int| 0 <= k < old_done.len() && old_done[k] == w;
                        assert(done[k] == w);
                    }
                    if done.contains(w) {
                        let k = choose|k: int| 0 <= k < done.len() && done[k] == w;
                        if k < old_done.len() {
                            assert(old_done[k] == w);
                        }
                    }
                }
            }
            start = i + 1;
        } else {
            proof {
                assert(prefix@.subrange(start as int, i + 1) =~= cur.push(c));
                assert(split_plus(next) =~= done.push(prefix@.subrange(start as int, i + 1)));
            }
        }
        i = i + 1;
    }
    let last = prefix.substring_char(start, n);
    shift = shift || text_eq(last, "Shift");
    ctrl = ctrl || text_eq(last, "Ctrl");
    alt = alt || text_eq(last, "Alt");
    meta = meta || text_eq(last, "Meta");
    proof {
        let parts = done.push(last@);
        assert(prefix@.take(n as int) =~= prefix@);
        assert(split_plus(prefix@) == parts);
        assert forall|w: Seq<char>| parts.contains(w) <==> (done.contains(w) || last@ == w) by {
            if last@ == w {
                assert(parts[parts.len() - 1] == w);
            }
            if done.contains(w) {
                let k = choose|k: int| 0 <= k < done.len() && done[k] == w;
                assert(parts[k] == w);
            }
            if parts.contains(w) {
                let k = choose|k: int| 0 <= k < parts.len() && parts[k] == w;
                if k < done.len() {
                    assert(done[k] == w);
                }
            }
        }
    }
    (if shift { monio_mask_shift() } else { 0 }) | (if ctrl { monio_mask_ctrl() } else { 0 }) | (
    if alt {
        monio_mask_alt()
    } else {
        0
    }) | (if meta { monio_mask_meta() } else { 0 })
}

/// Appending text without `+` signs only lengthens the last piece.
pub proof fn lemma_split_append_plain(x: Seq<char>, y: Seq<char>)
    requires
        no_plus(y),
    ensures
        split_plus(x + y) == split_plus(x).update(
            split_plus(x).len() - 1,
            split_plus(x).last() + y,
        ),
    decreases y.len(),
{
    lemma_split_plus_nonempty(x);
    if y.len() == 0 {
        assert(x + y =~= x);
        assert(split_plus(x).last() + y =~= split_plus(x).last());
        assert(split_plus(x).update(split_plus(x).len() - 1, split_plus(x).last() + y)
            =~= split_plus(x));
    } else {
        let y0 = y.drop_last();
        assert(no_plus(y0));
        lemma_split_append_plain(x, y0);
        assert((x + y).drop_last() =~= x + y0);
        assert((x + y).last() == y.last());
        assert(split_plus(x).last() + y =~= (split_plus(x).last() + y0).push(y.last()));
    }
}

/// Appending a word and a `+` to text that ends a piece closes a piece that
/// holds exactly that word and opens an empty one.
pub proof fn lemma_split_append_piece(x: Seq<char>, w: Seq<char>)
    requires
        split_plus(x).last() == Seq::<char>::empty(),
        no_plus(w),
    ensures
        split_plus(x + w.push('+')) == split_plus(x).drop_last().push(w).push(Seq::<char>::empty()),
{
    lemma_split_plus_nonempty(x);
    lemma_split_append_plain(x, w);
    assert((x + w.push('+')).drop_last() =~= x + w);
    assert(Seq::<char>::empty() + w =~= w);
    assert(split_plus(x + w) =~= split_plus(x).drop_last().push(w));
}

/// The words that a captured prefix may hold, spelled out.
proof fn lemma_modifier_words()
    ensures
        "Shift+"@ == "Shift"@.push('+'),
        "Ctrl+"@ == "Ctrl"@.push('+'),
        "Alt+"@ == "Alt"@.push('+'),
        "Meta+"@ == "Meta"@.push('+'),
        "Shift"@ == seq!['S', 'h', 'i', 'f', 't'],
        "Ctrl"@ == seq!['C', 't', 'r', 'l'],
        "Alt"@ == seq!['A', 'l', 't'],
        "Meta"@ == seq!['M', 'e', 't', 'a'],
        no_plus("Shift"@),
        no_plus("Ctrl"@),
        no_plus("Alt"@),
        no_plus("Meta"@),
{
    reveal_strlit("Shift+");
    reveal_strlit("Ctrl+");
    reveal_strlit("Alt+");
    reveal_strlit("Meta+");
    reveal_strlit("Shift");
    reveal_strlit("Ctrl");
    reveal_strlit("Alt");
    reveal_strlit("Meta");
    assert("Shift+"@ =~= "Shift"@.push('+'));
    assert("Ctrl+"@ =~= "Ctrl"@.push('+'));
    assert("Alt+"@ =~= "Alt"@.push('+'));
    assert("Meta+"@ =~= "Meta"@.push('+'));
    assert("Shift"@ =~= seq!['S', 'h', 'i', 'f', 't']);
    assert("Ctrl"@ =~= seq!['C', 't', 'r', 'l']);
    assert("Alt"@ =~= seq!['A', 'l', 't']);
    assert("Meta"@ =~= seq!['M', 'e', 't', 'a']);
}

/// The prefix that spells an optional word, when it is present.
spec fn piece(present: bool, word: Seq<char>) -> Seq<char> {
    if present {
        word.push('+')
    } else {
        Seq::empty()
    }
}

/// The complete pieces after an optional word.
spec fn pieces_after(parts: Seq<Seq<char>>, present: bool, word: Seq<char>) -> Seq<Seq<char>> {
    if present {
        parts.push(word)
    } else {
        parts
    }
}

/// Appending an optional word piece to text that ends a piece.
proof fn lemma_split_optional_piece(x: Seq<char>, present: bool, w: Seq<char>)
    requires
        split_plus(x).last() == Seq::<char>::empty(),
        no_plus(w),
    ensures
        split_plus(x + piece(present, w)) == pieces_after(split_plus(x).drop_last(), present, w).push(
            Seq::<char>::empty(),
        ),
{
    lemma_split_plus_nonempty(x);
    if present {
        lemma_split_append_piece(x, w);
    } else {
        assert(x + piece(present, w) =~= x);
        assert(split_plus(x).drop_last().push(Seq::<char>::empty()) =~= split_plus(x));
    }
}

/// Reading back the prefix that a mask is written as gives the mask's
/// modifier bits, and nothing else.
pub proof fn lemma_prefix_mask_round_trip(mask: u32)
    ensures
        mask_of_prefix(prefix_of_mask(mask)) == mask & modifier_bits(),
{
    lemma_modifier_words();
    let b0 = mask & 1 != 0;
    let b1 = mask & 2 != 0;
    let b2 = mask & 4 != 0;
    let b3 = mask & 8 != 0;
    let x0 = Seq::<char>::empty();
    let x1 = x0 + piece(b0, "Shift"@);
    let x2 = x1 + piece(b1, "Ctrl"@);
    let x3 = x2 + piece(b2, "Alt"@);
    let x4 = x3 + piece(b3, "Meta"@);
    assert(prefix_of_mask(mask) =~= x4);
    assert(split_plus(x0) == seq![Seq::<char>::empty()]);
    lemma_split_optional_piece(x0, b0, "Shift"@);
    lemma_split_optional_piece(x1, b1, "Ctrl"@);
    lemma_split_optional_piece(x2, b2, "Alt"@);
    lemma_split_optional_piece(x3, b3, "Meta"@);
    let q0 = Seq::<Seq<char>>::empty();
    assert(split_plus(x0).drop_last() =~= q0);
    let q1 = pieces_after(q0, b0, "Shift"@);
    assert(split_plus(x1).drop_last() =~= q1);
    let q2 = pieces_after(q1, b1, "Ctrl"@);
    assert(split_plus(x2).drop_last() =~= q2);
    let q3 = pieces_after(q2, b2, "Alt"@);
    assert(split_plus(x3).drop_last() =~= q3);
    let q4 = pieces_after(q3, b3, "Meta"@);
    let parts = split_plus(x4);
    assert(parts == q4.push(Seq::<char>::empty()));
    assert(parts.contains("Shift"@) == b0) by {
        if b0 {
            assert(parts[0] == "Shift"@);
        }
        if parts.contains("Shift"@) {
            let k = choose|k: int| 0 <= k < parts.len() && parts[k] == "Shift"@;
            assert(parts[k].len() == 5);
        }
    }
    assert(parts.contains("Ctrl"@) == b1) by {
        if b1 {
            assert(parts[q1.len() as int] == "Ctrl"@);
        }
        if parts.contains("Ctrl"@) {
            let k = choose|k: int| 0 <= k < parts.len() && parts[k] == "Ctrl"@;
            assert(parts[k][0] == 'C');
        }
    }
    assert(parts.contains("Alt"@) == b2) by {
        if b2 {
            assert(parts[q2.len() as int] == "Alt"@);
        }
        if parts.contains("Alt"@) {
            let k = choose|k: int| 0 <= k < parts.len() && parts[k] == "Alt"@;
            assert(parts[k].len() == 3);
        }
    }
    assert(parts.contains("Meta"@) == b3) by {
        if b3 {
            assert(parts[q3.len() as int] == "Meta"@);
        }
        if parts.contains("Meta"@) {
            let k = choose|k: int| 0 <= k < parts.len() && parts[k] == "Meta"@;
            assert(parts[k][0] == 'M');
        }
    }
    assert(((if b0 { 1u32 } else { 0u32 }) | (if b1 { 2u32 } else { 0u32 }) | (if b2 {
        4u32
    } else {
        0u32
    }) | (if b3 { 8u32 } else { 0u32 })) == mask & 15u32) by (bit_vector)
        requires
            b0 == (mask & 1 != 0),
            b1 == (mask & 2 != 0),
            b2 == (mask & 4 != 0),
            b3 == (mask & 8 != 0),
    ;
}

/// A written prefix is empty or ends with `+`.
pub proof fn lemma_prefix_ends_with_plus(mask: u32)
    ensures
        prefix_of_mask(mask).len() == 0 || prefix_of_mask(mask).last() == '+',
{
    lemma_modifier_words();
    let a = if mask & 1 != 0 { "Shift+"@ } else { Seq::<char>::empty() };
    let b = if mask & 2 != 0 { "Ctrl+"@ } else { Seq::<char>::empty() };
    let c = if mask & 4 != 0 { "Alt+"@ } else { Seq::<char>::empty() };
    let d = if mask & 8 != 0 { "Meta+"@ } else { Seq::<char>::empty() };
    assert(prefix_of_mask(mask) == a + b + c + d);
    assert(a.len() == 0 || a.last() == '+');
    assert(b.len() == 0 || b.last() == '+');
    assert(c.len() == 0 || c.last() == '+');
    assert(d.len() == 0 || d.last() == '+');
    let ab = a + b;
    assert(ab.len() == 0 || ab.last() == '+') by {
        if b.len() == 0 {
            assert(ab =~= a);
        }
    }
    let abc = ab + c;
    assert(abc.len() == 0 || abc.last() == '+') by {
        if c.len() == 0 {
            assert(abc =~= ab);
        }
    }
    let abcd = abc + d;
    assert(abcd.len() == 0 || abcd.last() == '+') by {
        if d.len() == 0 {
            assert(abcd =~= abc);
        }
    }
}

/// Reading a prefix is cumulative: appending a word and `+` to a prefix that
/// ends a piece adds exactly that word's bit (Shift 1, Ctrl 2, Alt 4,
/// Meta 8) and nothing for any other word; the bits read never go beyond
/// the four modifiers.
pub proof fn lemma_prefix_word_adds_its_bit(x: Seq<char>, w: Seq<char>)
    requires
        split_plus(x).last() == Seq::<char>::empty(),
        no_plus(w),
    ensures
        mask_of_prefix(x + w.push('+')) == mask_of_prefix(x) | (if w == seq!['S', 'h', 'i', 'f', 't'] {
            1u32
        } else if w == seq!['C', 't', 'r', 'l'] {
            2u32
        } else if w == seq!['A', 'l', 't'] {
            4u32
        } else if w == seq!['M', 'e', 't', 'a'] {
            8u32
        } else {
            0u32
        }),
        mask_of_prefix(x) & !15u32 == 0,
{
    lemma_modifier_words();
    lemma_split_plus_nonempty(x);
    lemma_split_append_piece(x, w);
    let parts = split_plus(x);
    let q = parts.drop_last();
    let after = q.push(w).push(Seq::<char>::empty());
    assert(parts =~= q.push(Seq::<char>::empty()));
    assert forall|v: Seq<char>| v.len() > 0 implies (after.contains(v) <==> (parts.contains(v)
        || v == w)) by {
        if parts.contains(v) {
            let k = choose|k: int| 0 <= k < parts.len() && parts[k] == v;
            assert(k < q.len());
            assert(after[k] == v);
        }
        if v == w {
            assert(after[q.len() as int] == v);
        }
        if after.contains(v) {
            let k = choose|k: int| 0 <= k < after.len() && after[k] == v;
            if k < q.len() {
                assert(parts[k] == v);
            }
        }
    }
    assert(after.contains("Shift"@) == (parts.contains("Shift"@) || w == "Shift"@));
    assert(after.contains("Ctrl"@) == (parts.contains("Ctrl"@) || w == "Ctrl"@));
    assert(after.contains("Alt"@) == (parts.contains("Alt"@) || w == "Alt"@));
    assert(after.contains("Meta"@) == (parts.contains("Meta"@) || w == "Meta"@));
    let s0 = parts.contains("Shift"@);
    let c0 = parts.contains("Ctrl"@);
    let a0 = parts.contains("Alt"@);
    let m0 = parts.contains("Meta"@);
    let ws = w == "Shift"@;
    let wc = w == "Ctrl"@;
    let wa = w == "Alt"@;
    let wm = w == "Meta"@;
    assert(!(ws && wc) && !(ws && wa) && !(ws && wm) && !(wc && wa) && !(wc && wm) && !(wa && wm));
    assert(((if s0 || ws { 1u32 } else { 0u32 }) | (if c0 || wc { 2u32 } else { 0u32 }) | (if a0
        || wa { 4u32 } else { 0u32 }) | (if m0 || wm { 8u32 } else { 0u32 })) == ((if s0 {
        1u32
    } else {
        0u32
    }) | (if c0 { 2u32 } else { 0u32 }) | (if a0 { 4u32 } else { 0u32 }) | (if m0 {
        8u32
    } else {
        0u32
    })) | (if ws { 1u32 } else if wc { 2u32 } else if wa { 4u32 } else if wm { 8u32 } else {
        0u32
    })) by (bit_vector)
        requires
            !(ws && wc) && !(ws && wa) && !(ws && wm) && !(wc && wa) && !(wc && wm) && !(wa && wm),
    ;
    assert(((if s0 { 1u32 } else { 0u32 }) | (if c0 { 2u32 } else { 0u32 }) | (if a0 {
        4u32
    } else {
        0u32
    }) | (if m0 { 8u32 } else { 0u32 })) & !15u32 == 0) by (bit_vector);
}

} // verus!
