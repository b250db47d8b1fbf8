//! Material labels: the prefix, then the palette index in decimal.

use vstd::prelude::*;
use vstd::string::*;

verus! {

/// What every material label starts with; the palette index follows.
pub const MATERIAL_PREFIX: &'static str = "palette";

/// The decimal digit for `d`, `0 <= d < 10`.
pub open spec fn digit(d: int) -> char {
    if d == 0 {
        '0'
    } else if d == 1 {
        '1'
    } else if d == 2 {
        '2'
    } else if d == 3 {
        '3'
    } else if d == 4 {
        '4'
    } else if d == 5 {
        '5'
    } else if d == 6 {
        '6'
    } else if d == 7 {
        '7'
    } else if d == 8 {
        '8'
    } else {
        '9'
    }
}

/// `n` in decimal, most significant digit first, without leading zeros.
pub open spec fn decimal(n: nat) -> Seq<char>
    decreases n,
{
    if n < 10 {
        seq![digit(n as int)]
    } else {
        decimal(n / 10).push(digit((n % 10) as int))
    }
}

/// The label under which the material of palette slot `index` is registered.
pub open spec fn palette_label_text(index: nat) -> Seq<char> {
    MATERIAL_PREFIX@ + decimal(index)
}

fn digit_text(d: usize) -> (text: &'static str)
    requires
        d < 10,
    ensures
        text@ == seq![digit(d as int)],
{
    proof {
        reveal_strlit("0");
        reveal_strlit("1");
        reveal_strlit("2");
        reveal_strlit("3");
        reveal_strlit("4");
        reveal_strlit("5");
        reveal_strlit("6");
        reveal_strlit("7");
        reveal_strlit("8");
        reveal_strlit("9");
    }
    let text = if d == 0 {
        "0"
    } else if d == 1 {
        "1"
    } else if d == 2 {
        "2"
    } else if d == 3 {
        "3"
    } else if d == 4 {
        "4"
    } else if d == 5 {
        "5"
    } else if d == 6 {
        "6"
    } else if d == 7 {
        "7"
    } else if d == 8 {
        "8"
    } else {
        "9"
    };
    text
}

fn append_decimal(label: &mut String, n: usize)
    ensures
        final(label)@ == old(label)@ + decimal(n as nat),
    decreases n,
{
    if n >= 10 {
        append_decimal(label, n / 10);
    }
    label.append(digit_text(n % 10));
}

/// The label of the material for palette slot `index`: the prefix, then the
/// index in decimal.
pub fn palette_label(index: usize) -> (label: String)
    ensures
        label@ == palette_label_text(index as nat),
{
    let mut label = String::from_str(MATERIAL_PREFIX);
    append_decimal(&mut label, index);
    label
}

/// A number in decimal has at least one digit, and at least two from ten on.
proof fn lemma_decimal_len(n: nat)
    ensures
        decimal(n).len() >= 1,
        n >= 10 ==> decimal(n).len() >= 2,
    decreases n,
{
    if n >= 10 {
        lemma_decimal_len(n / 10);
    }
}

/// Different digits have different characters.
proof fn lemma_digit_is_injective(c: int, d: int)
    requires
        0 <= c < 10,
        0 <= d < 10,
        digit(c) == digit(d),
    ensures
        c == d,
{
}

/// Different numbers are written differently.
pub proof fn lemma_decimal_is_injective(a: nat, b: nat)
    requires
        decimal(a) == decimal(b),
    ensures
        a == b,
    decreases a,
{
    lemma_decimal_len(a);
    lemma_decimal_len(b);
    if a < 10 {
        // One digit each: the digits are the same.
        assert(decimal(a)[0] == digit(a as int));
        assert(decimal(b)[0] == digit(b as int));
        lemma_digit_is_injective(a as int, b as int);
    } else {
        // The same last digit, and before it the same number of tens.
        assert(decimal(a).drop_last() =~= decimal(a / 10));
        assert(decimal(b).drop_last() =~= decimal(b / 10));
        lemma_decimal_is_injective(a / 10, b / 10);
        assert(decimal(a).last() == digit((a % 10) as int));
        assert(decimal(b).last() == digit((b % 10) as int));
        lemma_digit_is_injective((a % 10) as int, (b % 10) as int);
    }
}

/// Different palette slots have different labels, so no two materials are
/// registered under one label.
pub proof fn lemma_labels_are_distinct(a: nat, b: nat)
    requires
        palette_label_text(a) == palette_label_text(b),
    ensures
        a == b,
{
    let prefix = MATERIAL_PREFIX@;
    let end = palette_label_text(a).len() as int;
    assert(palette_label_text(a).subrange(prefix.len() as int, end) =~= decimal(a));
    assert(palette_label_text(b).subrange(prefix.len() as int, end) =~= decimal(b));
    lemma_decimal_is_injective(a, b);
}

} // verus!
