//! The material toggle: a two-state machine driven by key-press edges.

use vstd::prelude::*;

verus! {

/// Which of the two prepared materials a sprite currently shows.
#[derive(Clone, Copy, Debug, PartialEq, Eq, Structural)]
pub enum CurrentMaterial {
    /// The texture sampled with nearest-neighbour filtering.
    PixelArt,
    /// The texture sampled with the default smooth filtering.
    Normal,
}

/// The other state of the two.
pub open spec fn flip(m: CurrentMaterial) -> CurrentMaterial {
    match m {
        CurrentMaterial::PixelArt => CurrentMaterial::Normal,
        CurrentMaterial::Normal => CurrentMaterial::PixelArt,
    }
}

/// The state reached from `m` after `n` transitions.
pub open spec fn flip_n(m: CurrentMaterial, n: nat) -> CurrentMaterial
    decreases n,
{
    if n == 0 {
        m
    } else {
        flip(flip_n(m, (n - 1) as nat))
    }
}

impl CurrentMaterial {
    /// The other state of the two.
    pub fn toggled(self) -> (r: CurrentMaterial)
        ensures
            r == flip(self),
    {
        match self {
            CurrentMaterial::PixelArt => CurrentMaterial::Normal,
            CurrentMaterial::Normal => CurrentMaterial::PixelArt,
        }
    }
}

/// The two prepared materials, as indices into the host's table of
/// material handles.
#[derive(Clone, Copy, Debug, PartialEq, Eq, Structural)]
pub struct MaterialPair {
    /// The material with nearest-neighbour sampling.
    pub pixel_art: usize,
    /// The material with smooth sampling.
    pub normal: usize,
}

impl MaterialPair {
    /// The material that goes with state `m`.
    pub open spec fn id_for(self, m: CurrentMaterial) -> usize {
        match m {
            CurrentMaterial::PixelArt => self.pixel_art,
            CurrentMaterial::Normal => self.normal,
        }
    }

    /// The material that goes with state `m`.
    pub fn material_for(&self, m: CurrentMaterial) -> (r: usize)
        ensures
            r == self.id_for(m),
    {
        match m {
            CurrentMaterial::PixelArt => self.pixel_art,
            CurrentMaterial::Normal => self.normal,
        }
    }
}

/// A sprite that carries the toggle: its state and the material bound to it.
#[derive(Clone, Copy, Debug, PartialEq, Eq, Structural)]
pub struct Sprite {
    pub current: CurrentMaterial,
    pub material: usize,
}

impl Sprite {
    /// The bound material is the one that the state names.
    pub open spec fn bound_to(self, pair: MaterialPair) -> bool {
        self.material == pair.id_for(self.current)
    }

    /// A sprite in state `m`, bound to the material of that state.
    pub fn new(pair: &MaterialPair, m: CurrentMaterial) -> (r: Sprite)
        ensures
            r.current == m,
            r.bound_to(*pair),
    {
        Sprite { current: m, material: pair.material_for(m) }
    }

    /// One tick: on a press edge, flip the state and bind the matching
    /// material; otherwise leave the sprite as it is.
    pub fn on_tick(&mut self, just_pressed: bool, pair: &MaterialPair)
        ensures
            *final(self) == after_tick(*old(self), just_pressed, *pair),
    {
        if just_pressed {
            let next = self.current.toggled();
            self.current = next;
            self.material = pair.material_for(next);
        }
    }
}

/// The sprite after one tick with press edge `pressed`.
pub open spec fn after_tick(s: Sprite, pressed: bool, pair: MaterialPair) -> Sprite {
    if pressed {
        Sprite { current: flip(s.current), material: pair.id_for(flip(s.current)) }
    } else {
        s
    }
}

/// The sprite after one tick for each press edge of `presses`, in order.
pub open spec fn after_ticks(s: Sprite, presses: Seq<bool>, pair: MaterialPair) -> Sprite
    decreases presses.len(),
{
    if presses.len() == 0 {
        s
    } else {
        after_tick(after_ticks(s, presses.drop_last(), pair), presses.last(), pair)
    }
}

/// How many entries of `presses` are press edges.
pub open spec fn edge_count(presses: Seq<bool>) -> nat
    decreases presses.len(),
{
    if presses.len() == 0 {
        0
    } else {
        edge_count(presses.drop_last()) + if presses.last() { 1nat } else { 0nat }
    }
}

/// The press edges that a key reports over ticks in which it is down as
/// `levels` says, given whether it was down before the first of them: a
/// tick has an edge where the key is down and was not down the tick before.
pub open spec fn press_edges(levels: Seq<bool>, was_down: bool) -> Seq<bool> {
    Seq::new(
        levels.len(),
        |i: int| levels[i] && !(if i == 0 { was_down } else { levels[i - 1] }),
    )
}

/// Applies one tick to every sprite that carries the toggle. Each sprite is
/// updated on its own, and all of them by the same rule.
pub fn swap_material(sprites: &mut Vec<Sprite>, just_pressed: bool, pair: &MaterialPair)
    ensures
        final(sprites)@.len() == old(sprites)@.len(),
        forall|i: int|
            0 <= i < old(sprites)@.len() ==> final(sprites)@[i] == after_tick(
                #[trigger] old(sprites)@[i],
                just_pressed,
                *pair,
            ),
{
    let n = sprites.len();
    let mut i: usize = 0;
    while i < n
        invariant
            n == old(sprites)@.len(),
            sprites@.len() == n,
            i <= n,
            forall|j: int| 0 <= j < i ==> sprites@[j] == after_tick(old(sprites)@[j], just_pressed, *pair),
            forall|j: int| i <= j < n ==> sprites@[j] == old(sprites)@[j],
        decreases n - i,
    {
        let mut s = sprites[i];
        s.on_tick(just_pressed, pair);
        sprites.set(i, s);
        i = i + 1;
    }
}

/// A tick keeps a sprite bound to the material of its state.
pub proof fn lemma_tick_keeps_binding(s: Sprite, pressed: bool, pair: MaterialPair)
    requires
        s.bound_to(pair),
    ensures
        after_tick(s, pressed, pair).bound_to(pair),
{
}

/// Over any run of ticks, a sprite changes state once per press edge and
/// nothing else: it ends in the state reached by that many flips, still
/// bound to the matching material.
pub proof fn lemma_ticks_follow_edges(s: Sprite, presses: Seq<bool>, pair: MaterialPair)
    requires
        s.bound_to(pair),
    ensures
        after_ticks(s, presses, pair).current == flip_n(s.current, edge_count(presses)),
        after_ticks(s, presses, pair).bound_to(pair),
    decreases presses.len(),
{
    if presses.len() > 0 {
        lemma_ticks_follow_edges(s, presses.drop_last(), pair);
    }
}

/// Flipping twice returns to the start, so `n` flips from pixel art give
/// pixel art when `n` is even and the smooth material when it is odd.
pub proof fn lemma_flip_n_parity(n: nat)
    ensures
        flip_n(CurrentMaterial::PixelArt, n) == (if n % 2 == 0 {
            CurrentMaterial::PixelArt
        } else {
            CurrentMaterial::Normal
        }),
    decreases n,
{
    if n > 0 {
        lemma_flip_n_parity((n - 1) as nat);
    }
}

/// `n` ticks that each carry a press edge count `n` edges.
proof fn lemma_all_edges_count(presses: Seq<bool>)
    requires
        forall|i: int| 0 <= i < presses.len() ==> presses[i],
    ensures
        edge_count(presses) == presses.len(),
    decreases presses.len(),
{
    if presses.len() > 0 {
        lemma_all_edges_count(presses.drop_last());
    }
}

/// The toggle is a strict two-cycle: a sprite that starts on the pixel-art
/// material and sees `n` press edges ends on pixel art when `n` is even and
/// on the smooth material when `n` is odd, bound to the matching material.
pub proof fn lemma_presses_two_cycle(s: Sprite, n: nat, pair: MaterialPair)
    requires
        s.current == CurrentMaterial::PixelArt,
        s.bound_to(pair),
    ensures
        after_ticks(s, Seq::new(n, |i: int| true), pair).current == (if n % 2 == 0 {
            CurrentMaterial::PixelArt
        } else {
            CurrentMaterial::Normal
        }),
        after_ticks(s, Seq::new(n, |i: int| true), pair).bound_to(pair),
{
    let presses = Seq::new(n, |i: int| true);
    lemma_all_edges_count(presses);
    lemma_ticks_follow_edges(s, presses, pair);
    lemma_flip_n_parity(n);
}

/// A key held down over ticks in which it was already down on the tick
/// before, or that was just pressed on the first of them, gives at most one
/// press edge: the sprite flips once if the key went down on the first tick,
/// and not at all if it was down before, however long the key is held.
pub proof fn lemma_held_key_toggles_once(
    s: Sprite,
    levels: Seq<bool>,
    was_down: bool,
    pair: MaterialPair,
)
    requires
        levels.len() > 0,
        forall|i: int| 0 <= i < levels.len() ==> levels[i],
    ensures
        after_ticks(s, press_edges(levels, was_down), pair) == (if was_down {
            s
        } else {
            after_tick(s, true, pair)
        }),
    decreases levels.len(),
{
    let edges = press_edges(levels, was_down);
    if levels.len() > 1 {
        let shorter = levels.drop_last();
        lemma_held_key_toggles_once(s, shorter, was_down, pair);
        assert(edges.drop_last() =~= press_edges(shorter, was_down));
        assert(!edges.last());
    } else {
        assert(edges.drop_last() =~= Seq::<bool>::empty());
        assert(after_ticks(s, edges.drop_last(), pair) == s);
        assert(edges.last() == !was_down);
    }
}

} // verus!
