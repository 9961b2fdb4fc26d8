//! Colour schemes for the escape-time gradient.
//!
//! The index of a palette is handed to the shader, so the variant order is
//! part of that contract. Everything else (cycling, names, the panel's combo
//! box) is driven from [`Palette::ALL`].

use vstd::prelude::*;

verus! {

#[derive(Copy, Clone, PartialEq, Eq, Debug, Structural)]
pub enum Palette {
    Rainbow,
    Ember,
    Ocean,
    Grey,
}

/// Number of palettes.
pub const PALETTE_COUNT: usize = 4;

/// The shader index of a palette: its position in the declaration.
pub open spec fn palette_index(p: Palette) -> nat {
    match p {
        Palette::Rainbow => 0,
        Palette::Ember => 1,
        Palette::Ocean => 2,
        Palette::Grey => 3,
    }
}

/// The palette with a given shader index (indices taken modulo the count).
pub open spec fn palette_at(i: nat) -> Palette {
    let k = i % 4;
    if k == 0 {
        Palette::Rainbow
    } else if k == 1 {
        Palette::Ember
    } else if k == 2 {
        Palette::Ocean
    } else {
        Palette::Grey
    }
}

/// The palette that follows `p`, wrapping from the last back to the first.
pub open spec fn palette_next(p: Palette) -> Palette {
    palette_at(palette_index(p) + 1)
}

/// The display name of a palette.
pub open spec fn palette_name(p: Palette) -> &'static str {
    match p {
        Palette::Rainbow => "rainbow",
        Palette::Ember => "ember",
        Palette::Ocean => "ocean",
        Palette::Grey => "grey",
    }
}

/// `n` applications of [`palette_next`].
pub open spec fn palette_next_n(p: Palette, n: nat) -> Palette
    decreases n,
{
    if n == 0 {
        p
    } else {
        palette_next_n(palette_next(p), (n - 1) as nat)
    }
}

impl Palette {
    /// Every variant, in shader-index order.
    pub const ALL: [Palette; 4] = [Palette::Rainbow, Palette::Ember, Palette::Ocean, Palette::Grey];

    /// The next palette, wrapping. Drives the `P` shortcut.
    pub fn next(self) -> (r: Self)
        ensures
            r == palette_next(self),
            palette_index(r) == (palette_index(self) + 1) % 4,
    {
        let i = self.index() as usize;
        Self::at((i + 1) % PALETTE_COUNT)
    }

    /// The palette at shader index `i`.
    fn at(i: usize) -> (r: Self)
        requires
            i < PALETTE_COUNT,
        ensures
            r == palette_at(i as nat),
            palette_index(r) == i,
    {
        if i == 0 {
            Palette::Rainbow
        } else if i == 1 {
            Palette::Ember
        } else if i == 2 {
            Palette::Ocean
        } else {
            Palette::Grey
        }
    }

    /// Index handed to the shader; must match the `switch` in the WGSL.
    pub fn index(self) -> (r: u32)
        ensures
            r == palette_index(self),
            r < PALETTE_COUNT,
    {
        match self {
            Palette::Rainbow => 0,
            Palette::Ember => 1,
            Palette::Ocean => 2,
            Palette::Grey => 3,
        }
    }

    pub fn name(self) -> (r: &'static str)
        ensures
            r == palette_name(self),
    {
        match self {
            Palette::Rainbow => "rainbow",
            Palette::Ember => "ember",
            Palette::Ocean => "ocean",
            Palette::Grey => "grey",
        }
    }
}

impl Default for Palette {
    fn default() -> (r: Self)
        ensures
            r == Palette::Rainbow,
    {
        Palette::Rainbow
    }
}

/// `Palette::ALL` lists every palette once, each at its own shader index.
pub proof fn law_all_is_in_index_order()
    ensures
        Palette::ALL@.len() == PALETTE_COUNT,
        forall|i: int| 0 <= i < 4 ==> palette_index(#[trigger] Palette::ALL@[i]) == i,
        forall|p: Palette| Palette::ALL@[palette_index(p) as int] == p,
{
    assert(Palette::ALL@[0] == Palette::Rainbow);
    assert(Palette::ALL@[1] == Palette::Ember);
    assert(Palette::ALL@[2] == Palette::Ocean);
    assert(Palette::ALL@[3] == Palette::Grey);
}

/// The shader indices follow the declaration order.
pub proof fn law_palette_index_values()
    ensures
        palette_index(Palette::Rainbow) == 0,
        palette_index(Palette::Ember) == 1,
        palette_index(Palette::Ocean) == 2,
        palette_index(Palette::Grey) == 3,
{
}

/// `next` walks Rainbow, Ember, Ocean, Grey and back to Rainbow.
pub proof fn law_next_order()
    ensures
        palette_next(Palette::Rainbow) == Palette::Ember,
        palette_next(Palette::Ember) == Palette::Ocean,
        palette_next(Palette::Ocean) == Palette::Grey,
        palette_next(Palette::Grey) == Palette::Rainbow,
        forall|p: Palette| palette_index(#[trigger] palette_next(p)) == (palette_index(p) + 1) % 4,
{
}

/// The display names of the palettes.
pub proof fn law_palette_names()
    ensures
        palette_name(Palette::Rainbow)@ == "rainbow"@,
        palette_name(Palette::Ember)@ == "ember"@,
        palette_name(Palette::Ocean)@ == "ocean"@,
        palette_name(Palette::Grey)@ == "grey"@,
{
}

/// Distinct palettes have distinct shader indices.
pub proof fn law_index_is_injective(p: Palette, q: Palette)
    ensures
        palette_index(p) == palette_index(q) <==> p == q,
{
}

/// Stepping with `next` from any palette visits every palette once and
/// returns to the start after exactly `PALETTE_COUNT` steps.
pub proof fn law_next_cycles_through_every_variant(p: Palette)
    ensures
        palette_next_n(p, 4) == p,
        forall|n: nat| 0 < n < 4 ==> palette_next_n(p, n) != p,
        forall|n: nat| n < 4 ==> palette_index(#[trigger] palette_next_n(p, n)) == (palette_index(p) + n) % 4,
{
    reveal_with_fuel(palette_next_n, 5);
}

/// Starting from the default palette, `next` walks `Palette::ALL` in order.
pub proof fn law_next_walks_all_in_order()
    ensures
        forall|n: nat| n < 4 ==> #[trigger] palette_next_n(Palette::Rainbow, n) == Palette::ALL@[n as int],
{
    reveal_with_fuel(palette_next_n, 5);
    law_all_is_in_index_order();
}

/// No two palettes share a name.
pub proof fn law_names_are_distinct(p: Palette, q: Palette)
    ensures
        p != q ==> palette_name(p)@ != palette_name(q)@,
{
    reveal_strlit("rainbow");
    reveal_strlit("ember");
    reveal_strlit("ocean");
    reveal_strlit("grey");
    assert("rainbow"@[0] != "ember"@[0]);
    assert("rainbow"@[0] != "ocean"@[0]);
    assert("rainbow"@[0] != "grey"@[0]);
    assert("ember"@[0] != "ocean"@[0]);
    assert("ember"@[0] != "grey"@[0]);
    assert("ocean"@[0] != "grey"@[0]);
}

} // verus!
