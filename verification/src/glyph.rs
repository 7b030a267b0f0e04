//! Glyph entities and their lifecycle steps.
//!
//! A glyph is born as a head (`is_trailing == false`, full opacity). On its
//! first animate tick it makes a one-shot transition to a trailing glyph,
//! spawning a child one row below while its spawn budget lasts. A trailing
//! glyph then only fades, and is reclaimed one tick after its opacity reaches
//! zero.

use vstd::prelude::*;
use crate::AMOUNT_OF_COLUMNS;

verus! {

/// Opacity of a freshly spawned or freshly trailing glyph, in hundredths.
pub const FULL_OPACITY: u8 = 100;

/// Opacity lost per fade tick (frame), in hundredths.
pub const FADE_AMOUNT_PER_FRAME: u8 = 3;

/// Base trail length: the spawn budget of a new droplet head before the
/// random deviation is applied.
pub const ROUGH_LENGTH_OF_A_DROPLET: u8 = 15;

/// Half-width of the uniform deviation applied to the base trail length.
/// Must stay below half the base length so lengths remain positive.
pub const DROPLETS_LENGTH_DEVIATION: u8 = 4;

/// Upper bound on `row + remaining_spawns` of any live glyph: a trail that
/// starts within the addressable rows never leaves this range, so advancing
/// a head one row down cannot overflow.
pub const GLYPH_ROW_BOUND: u32 = 65535 + 255;

/// One falling glyph.
#[derive(Clone, Copy, PartialEq, Eq, Structural, Debug)]
pub struct Glyph {
    /// Grid column, always below [`AMOUNT_OF_COLUMNS`].
    pub column: u16,
    /// Grid row; rows grow downward and may run past the visible grid.
    pub row: u32,
    /// Whether the one-shot head-to-trailing transition already happened.
    pub is_trailing: bool,
    /// How many children this glyph may still spawn below itself.
    pub remaining_spawns: u8,
    /// Displayed symbol, as a Unicode code point.
    pub symbol: u32,
    /// Opacity in hundredths, between 0 and [`FULL_OPACITY`].
    pub opacity: u8,
}

/// The symbols the rain displays: a decimal digit or a katakana code point.
pub open spec fn is_rain_symbol(code: u32) -> bool {
    (0x30 <= code <= 0x39) || (0x30A0 <= code <= 0x30FF)
}

/// Structural validity of a glyph record.
pub open spec fn wf_glyph(g: Glyph) -> bool {
    &&& g.column < AMOUNT_OF_COLUMNS
    &&& g.row + g.remaining_spawns <= GLYPH_ROW_BOUND
    &&& g.opacity <= FULL_OPACITY
    &&& !g.is_trailing ==> g.opacity == FULL_OPACITY
    &&& is_rain_symbol(g.symbol)
}

/// Whether an animate tick makes this glyph spawn a child: only a head with
/// budget left does; a glyph with no remaining spawns never spawns a child.
pub open spec fn spawns_child(g: Glyph) -> bool {
    !g.is_trailing && g.remaining_spawns > 0
}

/// What one animate tick makes of a glyph: a head spends one spawn (if any
/// was left) and becomes trailing; a trailing glyph is untouched.
pub open spec fn step_glyph(g: Glyph) -> Glyph {
    if g.is_trailing {
        g
    } else {
        Glyph {
            is_trailing: true,
            remaining_spawns: if g.remaining_spawns > 0 {
                (g.remaining_spawns - 1) as u8
            } else {
                0
            },
            ..g
        }
    }
}

/// `c` is the child that glyph `p` spawns: one row below, one spawn fewer,
/// a fresh head at full opacity with some rain symbol.
pub open spec fn is_child_of(c: Glyph, p: Glyph) -> bool {
    &&& c.column == p.column
    &&& c.row == p.row + 1
    &&& c.remaining_spawns == p.remaining_spawns - 1
    &&& !c.is_trailing
    &&& c.opacity == FULL_OPACITY
    &&& is_rain_symbol(c.symbol)
}

/// What one fade tick makes of a surviving glyph: a trailing glyph loses
/// [`FADE_AMOUNT_PER_FRAME`] of opacity, floored at zero; a head is untouched.
pub open spec fn fade_glyph(g: Glyph) -> Glyph {
    if g.is_trailing {
        Glyph {
            opacity: if g.opacity >= FADE_AMOUNT_PER_FRAME {
                (g.opacity - FADE_AMOUNT_PER_FRAME) as u8
            } else {
                0
            },
            ..g
        }
    } else {
        g
    }
}

/// Whether a fade tick reclaims this glyph: only a trailing glyph that is
/// already fully transparent. A glyph that reaches opacity zero on this tick
/// survives it and is reclaimed on the next one (a one-frame lag).
pub open spec fn removed_by_fade(g: Glyph) -> bool {
    g.is_trailing && g.opacity == 0
}

/// Spawn budget law: a glyph spawns a child only while its budget is
/// positive, and each triggered child spawn costs exactly one unit of the
/// parent's budget — the child's own budget is exactly one less.
pub proof fn lemma_spawn_budget(p: Glyph, c: Glyph)
    ensures
        p.remaining_spawns == 0 ==> !spawns_child(p),
        spawns_child(p) ==> step_glyph(p).remaining_spawns == p.remaining_spawns - 1,
        is_child_of(c, p) ==> c.remaining_spawns == p.remaining_spawns - 1,
{
}

/// One-shot trailing transition: an animate step always leaves a glyph
/// trailing, a glyph that is already trailing is left exactly as it is (the
/// transition never fires twice), and fading never reverts it.
pub proof fn lemma_trailing_one_shot(g: Glyph)
    ensures
        step_glyph(g).is_trailing,
        g.is_trailing ==> step_glyph(g) == g,
        step_glyph(step_glyph(g)) == step_glyph(g),
        fade_glyph(g).is_trailing == g.is_trailing,
{
}

/// Fade law: the opacity of a trailing glyph never increases under fade
/// ticks; once it is within one fade step of zero it reaches exactly zero on
/// the next tick, and a fully transparent trailing glyph is the one the fade
/// engine reclaims (one tick after the zero crossing). Heads are untouched.
pub proof fn lemma_fade_monotonic(g: Glyph)
    ensures
        g.is_trailing ==> fade_glyph(g).opacity <= g.opacity,
        g.is_trailing && g.opacity <= FADE_AMOUNT_PER_FRAME ==> fade_glyph(g).opacity == 0,
        removed_by_fade(g) <==> (g.is_trailing && g.opacity == 0),
        !g.is_trailing ==> fade_glyph(g) == g,
{
}

} // verus!
