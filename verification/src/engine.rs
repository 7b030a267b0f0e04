//! The droplet lifecycle engine.
//!
//! One owned context object, [`RainState`], holds everything the effect
//! mutates: the grid derived from the window size, the bounded glyph counter
//! and the collection of live glyph records. Each scheduled tick of the host
//! (resize poll, spawn, animate, per-frame fade) is one call on this state;
//! the host mirrors the returned changes on screen and never mutates the
//! state otherwise.

use vstd::prelude::*;
use crate::AMOUNT_OF_COLUMNS;
use crate::counter::CharacterCounter;
use crate::counter::count_after_increments;
use crate::counter::count_after_decrements;
use crate::counter::spec_increment;
use crate::glyph::Glyph;
use crate::glyph::FULL_OPACITY;
use crate::glyph::FADE_AMOUNT_PER_FRAME;
use crate::glyph::ROUGH_LENGTH_OF_A_DROPLET;
use crate::glyph::DROPLETS_LENGTH_DEVIATION;
use crate::glyph::GLYPH_ROW_BOUND;
use crate::glyph::wf_glyph;
use crate::glyph::is_rain_symbol;
use crate::glyph::spawns_child;
use crate::glyph::step_glyph;
use crate::glyph::is_child_of;
use crate::glyph::fade_glyph;
use crate::glyph::removed_by_fade;
use crate::grid::Grid;
use crate::grid::spec_recompute;
use crate::rng::rand_below;
use crate::rng::random_symbol;

verus! {

/// How many random cells the free-cell selector inspects before giving up on
/// a tick. The configured constants keep occupancy sparse, so a miss this
/// long is practically impossible; the bound guards against an unbounded
/// retry loop on a saturated grid.
pub const MAX_SELECT_RETRIES: u32 = 100;

/// Glyph `g` sits exactly on the cell `(column, row)`.
pub open spec fn is_at(g: Glyph, column: u16, row: u32) -> bool {
    g.column == column && g.row == row
}

/// Some live glyph occupies the cell `(column, row)`.
pub open spec fn cell_occupied(glyphs: Seq<Glyph>, column: u16, row: u32) -> bool {
    exists|i: int| 0 <= i < glyphs.len() && is_at(glyphs[i], column, row)
}

/// Checks whether no live glyph occupies the cell `(column, row)`.
fn cell_is_free(glyphs: &Vec<Glyph>, column: u16, row: u32) -> (free: bool)
    ensures
        free == !cell_occupied(glyphs@, column, row),
{
    let n = glyphs.len();
    let mut i: usize = 0;
    while i < n
        invariant
            i <= n,
            n == glyphs@.len(),
            forall|j: int| 0 <= j < i ==> !is_at(#[trigger] glyphs@[j], column, row),
        decreases n - i,
    {
        if glyphs[i].column == column && glyphs[i].row == row {
            proof {
                assert(is_at(glyphs@[i as int], column, row));
            }
            return false;
        }
        i = i + 1;
    }
    true
}

/// Picks an unoccupied cell by rejection sampling: uniform draws over the
/// whole grid, retried until a free cell comes up or the retry bound runs
/// out. A returned cell is never one of the occupied ones; when no glyph is
/// alive (and the grid has rows at all), the very first draw succeeds.
pub fn select_free_cell(
    rng: &mut rand::rngs::ThreadRng,
    glyphs: &Vec<Glyph>,
    rows: u16,
) -> (picked: Option<(u16, u16)>)
    ensures
        picked matches Some((column, row)) ==> {
            &&& column < AMOUNT_OF_COLUMNS
            &&& row < rows
            &&& !cell_occupied(glyphs@, column, row as u32)
        },
        rows > 0 && glyphs@.len() == 0 ==> picked is Some,
{
    if rows == 0 {
        return None;
    }
    let mut attempts: u32 = 0;
    while attempts < MAX_SELECT_RETRIES
        invariant
            rows > 0,
            attempts > 0 ==> glyphs@.len() > 0,
        decreases MAX_SELECT_RETRIES - attempts,
    {
        let column = rand_below(rng, AMOUNT_OF_COLUMNS);
        let row = rand_below(rng, rows);
        if cell_is_free(glyphs, column, row as u32) {
            return Some((column, row));
        }
        proof {
            let j = choose|j: int|
                0 <= j < glyphs@.len() && is_at(glyphs@[j], column, row as u32);
            assert(glyphs@.len() > 0);
        }
        attempts = attempts + 1;
    }
    None
}

/// The glyphs of `glyphs` that spawn a child on an animate tick — the heads
/// with budget left — in their original order.
pub open spec fn spawn_sources(glyphs: Seq<Glyph>) -> Seq<Glyph>
    decreases glyphs.len(),
{
    if glyphs.len() == 0 {
        Seq::<Glyph>::empty()
    } else if spawns_child(glyphs.last()) {
        spawn_sources(glyphs.drop_last()).push(glyphs.last())
    } else {
        spawn_sources(glyphs.drop_last())
    }
}

/// The glyphs that survive one fade tick, in order: everything but the fully
/// transparent trailing ones, each trailing survivor one fade step dimmer.
pub open spec fn fade_survivors(glyphs: Seq<Glyph>) -> Seq<Glyph>
    decreases glyphs.len(),
{
    if glyphs.len() == 0 {
        Seq::<Glyph>::empty()
    } else if removed_by_fade(glyphs.last()) {
        fade_survivors(glyphs.drop_last())
    } else {
        fade_survivors(glyphs.drop_last()).push(fade_glyph(glyphs.last()))
    }
}

/// The positions (in the collection before the tick) of the glyphs one fade
/// tick reclaims, in increasing order.
pub open spec fn fade_removed(glyphs: Seq<Glyph>) -> Seq<usize>
    decreases glyphs.len(),
{
    if glyphs.len() == 0 {
        Seq::<usize>::empty()
    } else if removed_by_fade(glyphs.last()) {
        fade_removed(glyphs.drop_last()).push((glyphs.len() - 1) as usize)
    } else {
        fade_removed(glyphs.drop_last())
    }
}

/// A fade tick partitions the collection: every glyph either survives or is
/// reclaimed, so the counts add up.
pub proof fn lemma_fade_partition(glyphs: Seq<Glyph>)
    ensures
        fade_survivors(glyphs).len() + fade_removed(glyphs).len() == glyphs.len(),
    decreases glyphs.len(),
{
    if glyphs.len() > 0 {
        lemma_fade_partition(glyphs.drop_last());
    }
}

/// Fading preserves the structural validity of every surviving glyph.
pub proof fn lemma_fade_survivors_wf(glyphs: Seq<Glyph>)
    requires
        forall|k: int| 0 <= k < glyphs.len() ==> wf_glyph(#[trigger] glyphs[k]),
    ensures
        forall|k: int|
            0 <= k < fade_survivors(glyphs).len() ==> wf_glyph(
                #[trigger] fade_survivors(glyphs)[k],
            ),
    decreases glyphs.len(),
{
    if glyphs.len() > 0 {
        let prefix = glyphs.drop_last();
        assert(forall|k: int| 0 <= k < prefix.len() ==> prefix[k] == #[trigger] glyphs[k]);
        lemma_fade_survivors_wf(prefix);
        let s = fade_survivors(glyphs);
        let sp = fade_survivors(prefix);
        assert forall|k: int| 0 <= k < s.len() implies wf_glyph(#[trigger] s[k]) by {
            if !removed_by_fade(glyphs.last()) && k == sp.len() {
                assert(s[k] == fade_glyph(glyphs.last()));
                assert(wf_glyph(glyphs[glyphs.len() - 1]));
            } else {
                assert(s[k] == sp[k]);
            }
        };
    }
}

/// The removal report of a fade tick is sound: each reported position names
/// a glyph of the old collection that was trailing and fully transparent,
/// and the positions come strictly increasing.
pub proof fn lemma_fade_removed_indices(glyphs: Seq<Glyph>)
    requires
        glyphs.len() <= usize::MAX,
    ensures
        forall|j: int|
            0 <= j < fade_removed(glyphs).len() ==> 0 <= #[trigger] fade_removed(glyphs)[j]
                < glyphs.len(),
        forall|j: int|
            0 <= j < fade_removed(glyphs).len() ==> removed_by_fade(
                glyphs[#[trigger] fade_removed(glyphs)[j] as int],
            ),
        forall|a: int, b: int|
            0 <= a < b < fade_removed(glyphs).len() ==> fade_removed(glyphs)[a] < fade_removed(
                glyphs,
            )[b],
    decreases glyphs.len(),
{
    if glyphs.len() > 0 {
        let prefix = glyphs.drop_last();
        lemma_fade_removed_indices(prefix);
        let r = fade_removed(glyphs);
        let rp = fade_removed(prefix);
        assert forall|j: int|
            0 <= j < r.len() implies 0 <= #[trigger] r[j] < glyphs.len() && removed_by_fade(
            glyphs[r[j] as int],
        ) by {
            if removed_by_fade(glyphs.last()) && j == rp.len() {
                assert(r[j] == (glyphs.len() - 1) as usize);
                assert(glyphs.last() == glyphs[glyphs.len() - 1]);
            } else {
                assert(r[j] == rp[j]);
                assert(prefix[rp[j] as int] == glyphs[rp[j] as int]);
            }
        };
        assert forall|a: int, b: int| 0 <= a < b < r.len() implies r[a] < r[b] by {
            if removed_by_fade(glyphs.last()) && b == rp.len() {
                assert(r[a] == rp[a]);
                assert(rp[a] < prefix.len());
                assert(r[b] == (glyphs.len() - 1) as usize);
            } else {
                assert(r[a] == rp[a] && r[b] == rp[b]);
            }
        };
    }
}

/// The decision behind the fullscreen toggle key: each press flips the
/// window between fullscreen and windowed mode.
pub fn next_window_mode(fullscreen_now: bool) -> (fullscreen_next: bool)
    ensures
        fullscreen_next == !fullscreen_now,
{
    !fullscreen_now
}

/// The whole mutable state of the rain effect.
pub struct RainState {
    /// Grid derived from the latest observed window size.
    pub grid: Grid,
    /// Bounded count of live glyphs, the admission-control gate.
    pub counter: CharacterCounter,
    /// Every live glyph record, in spawn order.
    pub glyphs: Vec<Glyph>,
}

impl RainState {
    /// All invariants of the engine state: the grid matches its window size,
    /// the counter sits inside its bounds and never exceeds the number of
    /// live glyphs, and every glyph record is structurally valid.
    pub open spec fn wf(self) -> bool {
        &&& self.grid.wf()
        &&& self.counter.wf()
        &&& self.counter.count <= self.glyphs@.len()
        &&& forall|i: int| 0 <= i < self.glyphs@.len() ==> wf_glyph(#[trigger] self.glyphs@[i])
    }

    /// A fresh engine: no window observed yet, no glyphs, counter at zero.
    /// The host must let the resize reactor run once before the first spawn,
    /// so the grid is sized.
    pub fn new(max_characters: u64) -> (s: RainState)
        ensures
            s.wf(),
            s.grid.window_width == 0,
            s.grid.window_height == 0,
            s.grid.rows == 0,
            s.counter.count == 0,
            s.counter.max == max_characters,
            s.glyphs@ == Seq::<Glyph>::empty(),
    {
        RainState {
            grid: Grid { window_width: 0, window_height: 0, rows: 0 },
            counter: CharacterCounter::new(max_characters),
            glyphs: Vec::new(),
        }
    }

    /// Despawns every live glyph unconditionally and zeroes the counter.
    pub fn despawn_all(&mut self)
        requires
            old(self).wf(),
        ensures
            final(self).wf(),
            final(self).grid == old(self).grid,
            final(self).counter.max == old(self).counter.max,
            final(self).counter.count == 0,
            final(self).glyphs@ == Seq::<Glyph>::empty(),
    {
        self.glyphs.clear();
        self.counter.reset();
    }

    /// Hard reset on a size change: recompute the grid for the new window
    /// size, zero the counter, and despawn every glyph — in-progress trails
    /// are lost, not drained.
    pub fn reset_screen(&mut self, width: u32, height: u32)
        requires
            old(self).wf(),
            width > 0,
            height > 0,
        ensures
            final(self).wf(),
            final(self).grid == spec_recompute(width, height),
            final(self).counter.max == old(self).counter.max,
            final(self).counter.count == 0,
            final(self).glyphs@ == Seq::<Glyph>::empty(),
    {
        self.grid = Grid::recompute(width, height);
        self.despawn_all();
    }

    /// The resize reactor's tick: hands in the window size the host polled.
    /// An unchanged size changes nothing at all; a changed width or height
    /// triggers the full reset.
    pub fn observe_window_size(&mut self, width: u32, height: u32) -> (changed: bool)
        requires
            old(self).wf(),
            width > 0,
            height > 0,
        ensures
            final(self).wf(),
            changed == !(width == old(self).grid.window_width && height
                == old(self).grid.window_height),
            !changed ==> *final(self) == *old(self),
            changed ==> {
                &&& final(self).grid == spec_recompute(width, height)
                &&& final(self).counter.max == old(self).counter.max
                &&& final(self).counter.count == 0
                &&& final(self).glyphs@ == Seq::<Glyph>::empty()
            },
    {
        let changed = width != self.grid.window_width || height != self.grid.window_height;
        if changed {
            self.reset_screen(width, height);
        }
        changed
    }

    /// Creates one glyph record at the given cell: a head at full opacity
    /// with a freshly drawn random symbol and the given spawn budget, and
    /// accounts for it in the counter (a no-op at the cap).
    pub fn spawn_character(
        &mut self,
        rng: &mut rand::rngs::ThreadRng,
        column: u16,
        row: u32,
        remaining_spawns: u8,
    ) -> (g: Glyph)
        requires
            old(self).wf(),
            column < AMOUNT_OF_COLUMNS,
            row + remaining_spawns <= GLYPH_ROW_BOUND,
        ensures
            final(self).wf(),
            final(self).grid == old(self).grid,
            final(self).counter.max == old(self).counter.max,
            final(self).counter.count == spec_increment(
                old(self).counter.count as int,
                old(self).counter.max as int,
            ),
            final(self).glyphs@ == old(self).glyphs@.push(g),
            g.column == column,
            g.row == row,
            !g.is_trailing,
            g.remaining_spawns == remaining_spawns,
            g.opacity == FULL_OPACITY,
            is_rain_symbol(g.symbol),
    {
        let symbol = random_symbol(rng);
        let g = Glyph {
            column,
            row,
            is_trailing: false,
            remaining_spawns,
            symbol,
            opacity: FULL_OPACITY,
        };
        self.glyphs.push(g);
        self.counter.increment();
        g
    }

    /// The droplet spawner's tick: refused outright at the character cap;
    /// otherwise it looks for a free cell and starts a droplet there with a
    /// randomized trail length. Returns the new head glyph, if one was
    /// spawned, for the host to display.
    pub fn spawn_tick(&mut self, rng: &mut rand::rngs::ThreadRng) -> (spawned: Option<Glyph>)
        requires
            old(self).wf(),
        ensures
            final(self).wf(),
            final(self).grid == old(self).grid,
            final(self).counter.max == old(self).counter.max,
            old(self).counter.count >= old(self).counter.max ==> spawned is None,
            spawned is None ==> *final(self) == *old(self),
            spawned matches Some(g) ==> {
                &&& old(self).counter.count < old(self).counter.max
                &&& final(self).counter.count == old(self).counter.count + 1
                &&& final(self).glyphs@ == old(self).glyphs@.push(g)
                &&& g.column < AMOUNT_OF_COLUMNS
                &&& g.row < old(self).grid.rows
                &&& !cell_occupied(old(self).glyphs@, g.column, g.row)
                &&& !g.is_trailing
                &&& g.opacity == FULL_OPACITY
                &&& is_rain_symbol(g.symbol)
                &&& ROUGH_LENGTH_OF_A_DROPLET - DROPLETS_LENGTH_DEVIATION <= g.remaining_spawns
                &&& g.remaining_spawns < ROUGH_LENGTH_OF_A_DROPLET + DROPLETS_LENGTH_DEVIATION
            },
            old(self).counter.count < old(self).counter.max && old(self).glyphs@.len() == 0
                && old(self).grid.rows > 0 ==> spawned is Some,
    {
        if self.counter.count >= self.counter.max {
            return None;
        }
        let picked = select_free_cell(rng, &self.glyphs, self.grid.rows);
        match picked {
            None => None,
            Some((column, row)) => {
                let deviation = rand_below(rng, 2 * (DROPLETS_LENGTH_DEVIATION as u16));
                let length = ROUGH_LENGTH_OF_A_DROPLET - DROPLETS_LENGTH_DEVIATION
                    + (deviation as u8);
                let g = self.spawn_character(rng, column, row as u32, length);
                Some(g)
            },
        }
    }

    /// The droplet animator's tick. Every head glyph makes its one-shot
    /// transition to trailing; a head with budget left first spawns a child
    /// one row below with one spawn fewer and a fresh random symbol. The
    /// children bypass the spawner's cap check — only the counter's own
    /// no-op at the cap still bounds the bookkeeping. Returns the children,
    /// in the order of their parents, for the host to display.
    pub fn animate_tick(&mut self, rng: &mut rand::rngs::ThreadRng) -> (children: Vec<Glyph>)
        requires
            old(self).wf(),
        ensures
            final(self).wf(),
            final(self).grid == old(self).grid,
            final(self).counter.max == old(self).counter.max,
            final(self).glyphs@.len() == old(self).glyphs@.len() + children@.len(),
            forall|i: int|
                0 <= i < old(self).glyphs@.len() ==> final(self).glyphs@[i] == step_glyph(
                    #[trigger] old(self).glyphs@[i],
                ),
            forall|j: int|
                0 <= j < children@.len() ==> final(self).glyphs@[old(self).glyphs@.len() + j]
                    == #[trigger] children@[j],
            children@.len() == spawn_sources(old(self).glyphs@).len(),
            forall|j: int|
                0 <= j < children@.len() ==> is_child_of(
                    #[trigger] children@[j],
                    spawn_sources(old(self).glyphs@)[j],
                ),
            final(self).counter.count == count_after_increments(
                old(self).counter.count as int,
                old(self).counter.max as int,
                children@.len() as int,
            ),
    {
        let ghost olds = self.glyphs@;
        let ghost c0 = self.counter.count;
        let ghost max0 = self.counter.max;
        let ghost grid0 = self.grid;
        let n = self.glyphs.len();
        let mut stepped: Vec<Glyph> = Vec::new();
        let mut children: Vec<Glyph> = Vec::new();
        let mut i: usize = 0;
        while i < n
            invariant
                i <= n,
                n == olds.len(),
                self.glyphs@ == olds,
                self.grid == grid0,
                self.counter.max == max0,
                self.counter.wf(),
                c0 <= max0,
                self.counter.count == count_after_increments(
                    c0 as int,
                    max0 as int,
                    children@.len() as int,
                ),
                forall|k: int| 0 <= k < olds.len() ==> wf_glyph(#[trigger] olds[k]),
                stepped@.len() == i,
                forall|k: int| 0 <= k < i ==> stepped@[k] == step_glyph(#[trigger] olds[k]),
                children@.len() == spawn_sources(olds.take(i as int)).len(),
                forall|j: int|
                    0 <= j < children@.len() ==> is_child_of(
                        #[trigger] children@[j],
                        spawn_sources(olds.take(i as int))[j],
                    ),
                forall|j: int| 0 <= j < children@.len() ==> wf_glyph(#[trigger] children@[j]),
            decreases n - i,
        {
            let g = self.glyphs[i];
            if !g.is_trailing && g.remaining_spawns > 0 {
                let symbol = random_symbol(rng);
                let child = Glyph {
                    column: g.column,
                    row: g.row + 1,
                    is_trailing: false,
                    remaining_spawns: g.remaining_spawns - 1,
                    symbol,
                    opacity: FULL_OPACITY,
                };
                children.push(child);
                self.counter.increment();
            }
            let stepped_glyph = if g.is_trailing {
                g
            } else {
                Glyph {
                    is_trailing: true,
                    remaining_spawns: if g.remaining_spawns > 0 {
                        g.remaining_spawns - 1
                    } else {
                        0
                    },
                    ..g
                }
            };
            stepped.push(stepped_glyph);
            proof {
                assert(olds.take(i + 1).drop_last() =~= olds.take(i as int));
                assert(olds.take(i + 1).last() == olds[i as int]);
            }
            i = i + 1;
        }
        proof {
            assert(olds.take(n as int) =~= olds);
        }
        self.glyphs = stepped;
        let ghost base = self.glyphs@;
        let ghost counter1 = self.counter;
        let m = children.len();
        let mut j: usize = 0;
        while j < m
            invariant
                j <= m,
                m == children@.len(),
                self.glyphs@ == base + children@.take(j as int),
                self.grid == grid0,
                self.counter == counter1,
            decreases m - j,
        {
            let c = children[j];
            self.glyphs.push(c);
            proof {
                assert(children@.take(j + 1) =~= children@.take(j as int).push(
                    children@[j as int],
                ));
                assert(base + children@.take(j + 1) =~= (base + children@.take(j as int)).push(
                    children@[j as int],
                ));
            }
            j = j + 1;
        }
        proof {
            assert(children@.take(m as int) =~= children@);
            assert(self.glyphs@ == base + children@);
            assert forall|k: int|
                0 <= k < self.glyphs@.len() implies wf_glyph(#[trigger] self.glyphs@[k]) by {
                if k < n {
                    assert(self.glyphs@[k] == base[k]);
                    assert(base[k] == step_glyph(olds[k]));
                    assert(wf_glyph(olds[k]));
                } else {
                    assert(self.glyphs@[k] == children@[k - n]);
                }
            };
            assert forall|k: int|
                0 <= k < olds.len() implies self.glyphs@[k] == step_glyph(
                #[trigger] olds[k],
            ) by {
                assert(self.glyphs@[k] == base[k]);
            };
            assert forall|j: int|
                0 <= j < children@.len() implies self.glyphs@[olds.len() + j]
                    == #[trigger] children@[j] by {
                assert(self.glyphs@[n + j] == children@[j]);
            };
        }
        children
    }

    /// The fade/reclaim engine's per-frame tick. Every trailing glyph that is
    /// already fully transparent is destroyed and taken off the counter (so a
    /// glyph lingers one frame at opacity zero before removal); every other
    /// trailing glyph loses one fade step of opacity, floored at zero. Heads
    /// are untouched. Returns the positions, in the collection before the
    /// call and in increasing order, of the glyphs that were destroyed, for
    /// the host to take off screen.
    pub fn fade_tick(&mut self) -> (removed: Vec<usize>)
        requires
            old(self).wf(),
        ensures
            final(self).wf(),
            final(self).grid == old(self).grid,
            final(self).counter.max == old(self).counter.max,
            final(self).glyphs@ == fade_survivors(old(self).glyphs@),
            removed@ == fade_removed(old(self).glyphs@),
            forall|j: int|
                0 <= j < removed@.len() ==> 0 <= #[trigger] removed@[j]
                    < old(self).glyphs@.len(),
            forall|j: int|
                0 <= j < removed@.len() ==> removed_by_fade(
                    old(self).glyphs@[#[trigger] removed@[j] as int],
                ),
            final(self).counter.count == count_after_decrements(
                old(self).counter.count as int,
                removed@.len() as int,
            ),
    {
        let ghost olds = self.glyphs@;
        let ghost c0 = self.counter.count;
        let ghost max0 = self.counter.max;
        let ghost grid0 = self.grid;
        let n = self.glyphs.len();
        let mut kept: Vec<Glyph> = Vec::new();
        let mut removed: Vec<usize> = Vec::new();
        let mut i: usize = 0;
        while i < n
            invariant
                i <= n,
                n == olds.len(),
                self.glyphs@ == olds,
                self.grid == grid0,
                self.counter.max == max0,
                self.counter.wf(),
                c0 <= max0,
                self.counter.count == count_after_decrements(c0 as int, removed@.len() as int),
                forall|k: int| 0 <= k < olds.len() ==> wf_glyph(#[trigger] olds[k]),
                kept@ == fade_survivors(olds.take(i as int)),
                removed@ == fade_removed(olds.take(i as int)),
            decreases n - i,
        {
            let g = self.glyphs[i];
            if g.is_trailing {
                if g.opacity == 0 {
                    removed.push(i);
                    self.counter.decrement();
                } else {
                    let faded = Glyph {
                        opacity: if g.opacity >= FADE_AMOUNT_PER_FRAME {
                            g.opacity - FADE_AMOUNT_PER_FRAME
                        } else {
                            0
                        },
                        ..g
                    };
                    kept.push(faded);
                }
            } else {
                kept.push(g);
            }
            proof {
                assert(olds.take(i + 1).drop_last() =~= olds.take(i as int));
                assert(olds.take(i + 1).last() == olds[i as int]);
            }
            i = i + 1;
        }
        proof {
            assert(olds.take(n as int) =~= olds);
            lemma_fade_partition(olds);
            lemma_fade_removed_indices(olds);
            assert forall|k: int|
                0 <= k < fade_survivors(olds).len() implies wf_glyph(
                #[trigger] fade_survivors(olds)[k],
            ) by {
                lemma_fade_survivors_wf(olds);
            };
        }
        self.glyphs = kept;
        removed
    }
}

} // verus!
