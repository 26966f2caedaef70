//! The fixed palette of five (colour, name) pairs a round draws from.

use vstd::prelude::*;

verus! {

/// Number of entries in the palette.
pub const PALETTE_SIZE: u64 = 5;

/// One of the five palette colours. The identifier stands both for the
/// colour itself and for the palette entry that carries its display name,
/// since no two entries share a colour or a name.
#[derive(Clone, Copy, PartialEq, Eq, Structural, Debug)]
pub enum ColorId {
    Red,
    Yellow,
    Green,
    Blue,
    Purple,
}

/// The palette entry at a given index, in its fixed order.
pub open spec fn spec_color_of_index(i: int) -> ColorId {
    if i == 0 {
        ColorId::Red
    } else if i == 1 {
        ColorId::Yellow
    } else if i == 2 {
        ColorId::Green
    } else if i == 3 {
        ColorId::Blue
    } else {
        ColorId::Purple
    }
}

/// The index a palette colour sits at.
pub open spec fn spec_index_of_color(c: ColorId) -> int {
    match c {
        ColorId::Red => 0,
        ColorId::Yellow => 1,
        ColorId::Green => 2,
        ColorId::Blue => 3,
        ColorId::Purple => 4,
    }
}

/// Looks a palette entry up by its index.
pub fn color_of_index(i: u64) -> (c: ColorId)
    requires
        i < PALETTE_SIZE,
    ensures
        c == spec_color_of_index(i as int),
{
    if i == 0 {
        ColorId::Red
    } else if i == 1 {
        ColorId::Yellow
    } else if i == 2 {
        ColorId::Green
    } else if i == 3 {
        ColorId::Blue
    } else {
        ColorId::Purple
    }
}

/// Finds the index a palette colour sits at.
pub fn index_of_color(c: ColorId) -> (i: u64)
    ensures
        i == spec_index_of_color(c),
        i < PALETTE_SIZE,
        spec_color_of_index(i as int) == c,
{
    match c {
        ColorId::Red => 0,
        ColorId::Yellow => 1,
        ColorId::Green => 2,
        ColorId::Blue => 3,
        ColorId::Purple => 4,
    }
}

/// Distinct indices name distinct colours: the palette never repeats a colour.
pub proof fn lemma_palette_colors_distinct(i: int, j: int)
    requires
        0 <= i < PALETTE_SIZE,
        0 <= j < PALETTE_SIZE,
        i != j,
    ensures
        spec_color_of_index(i) != spec_color_of_index(j),
{
}

/// The display name of a palette colour.
pub open spec fn spec_color_name(c: ColorId) -> Seq<char> {
    match c {
        ColorId::Red => "RED"@,
        ColorId::Yellow => "YELLOW"@,
        ColorId::Green => "GREEN"@,
        ColorId::Blue => "BLUE"@,
        ColorId::Purple => "PURPLE"@,
    }
}

/// Hands the display name of a palette colour out.
pub fn color_name(c: ColorId) -> (s: &'static str)
    ensures
        s@ == spec_color_name(c),
{
    match c {
        ColorId::Red => "RED",
        ColorId::Yellow => "YELLOW",
        ColorId::Green => "GREEN",
        ColorId::Blue => "BLUE",
        ColorId::Purple => "PURPLE",
    }
}

/// Distinct palette colours carry distinct display names.
pub proof fn lemma_palette_names_distinct(a: ColorId, b: ColorId)
    requires
        a != b,
    ensures
        spec_color_name(a) != spec_color_name(b),
{
    reveal_strlit("RED");
    reveal_strlit("YELLOW");
    reveal_strlit("GREEN");
    reveal_strlit("BLUE");
    reveal_strlit("PURPLE");
    assert("RED"@.len() == 3);
    assert("BLUE"@.len() == 4);
    assert("GREEN"@.len() == 5);
    assert("YELLOW"@.len() == 6);
    assert("PURPLE"@.len() == 6);
    assert("YELLOW"@[0] == 'Y');
    assert("PURPLE"@[0] == 'P');
    assert("YELLOW"@ != "PURPLE"@);
}

} // verus!
