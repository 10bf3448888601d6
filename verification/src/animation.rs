use vstd::prelude::*;

verus! {

/// An inclusive range of sprite-sheet frames that an animation loops over.
#[derive(Clone, Copy, Debug, PartialEq, Eq, Structural)]
pub struct FrameRange {
    pub first: usize,
    pub last: usize,
}

impl FrameRange {
    pub open spec fn well_formed(self) -> bool {
        self.first <= self.last
    }

    /// Number of frames in the loop.
    pub open spec fn len(self) -> nat {
        (self.last - self.first + 1) as nat
    }

    pub open spec fn contains(self, index: int) -> bool {
        self.first <= index <= self.last
    }
}

/// Hero standing still: frames 0 to 3.
pub const PLAYER_IDLE_FIRST: usize = 0;
pub const PLAYER_IDLE_LAST: usize = 3;

/// Hero running: frames 12 to 17.
pub const PLAYER_RUN_FIRST: usize = 12;
pub const PLAYER_RUN_LAST: usize = 17;

/// Hero casting a fireball: frames 36 to 46.
pub const PLAYER_FIREBALL_CAST_FIRST: usize = 36;
pub const PLAYER_FIREBALL_CAST_LAST: usize = 46;

/// Hero casting an orb: frames 60 to 64.
pub const PLAYER_ORB_CAST_FIRST: usize = 60;
pub const PLAYER_ORB_CAST_LAST: usize = 64;

/// A flying fireball: frames 5 and 6.
pub const FIREBALL_FLIGHT_FIRST: usize = 5;
pub const FIREBALL_FLIGHT_LAST: usize = 6;

/// The frame after `index` in a loop over `range`: the next one, or the
/// first frame when `index` is at the end or outside the range.
pub open spec fn spec_next_frame(index: nat, range: FrameRange) -> nat {
    if index >= range.last || index < range.first {
        range.first as nat
    } else {
        index + 1
    }
}

/// The frame after `index` in a loop over `range` (one animation tick).
pub fn next_frame(index: usize, range: FrameRange) -> (next: usize)
    ensures
        next == spec_next_frame(index as nat, range),
        range.well_formed() ==> range.contains(next as int),
        range.first <= index < range.last ==> next == index + 1,
        (index >= range.last || index < range.first) ==> next == range.first,
{
    if index >= range.last || index < range.first {
        range.first
    } else {
        index + 1
    }
}

/// The frame shown `n` ticks after `index`.
pub open spec fn spec_frame_after(index: nat, range: FrameRange, n: nat) -> nat
    decreases n,
{
    if n == 0 {
        index
    } else {
        spec_next_frame(spec_frame_after(index, range, (n - 1) as nat), range)
    }
}

proof fn lemma_mod_successor(a: int, m: int)
    requires
        m > 0,
        a >= 0,
    ensures
        (a + 1) % m == if a % m == m - 1 { 0 } else { a % m + 1 },
{
    vstd::arithmetic::div_mod::lemma_fundamental_div_mod(a, m);
    vstd::arithmetic::div_mod::lemma_mod_bound(a, m);
    let q = a / m;
    let r = a % m;
    if r == m - 1 {
        assert(a + 1 == (q + 1) * m + 0) by (nonlinear_arith)
            requires
                a == m * q + r,
                r == m - 1,
        ;
        vstd::arithmetic::div_mod::lemma_fundamental_div_mod_converse(a + 1, m, q + 1, 0);
    } else {
        assert(a + 1 == q * m + (r + 1)) by (nonlinear_arith)
            requires
                a == m * q + r,
        ;
        vstd::arithmetic::div_mod::lemma_fundamental_div_mod_converse(a + 1, m, q, r + 1);
    }
}

/// From a frame inside its range, the loop advances one frame per tick
/// and wraps around: after `n` ticks it shows frame
/// `first + (index - first + n) % len`.
pub proof fn lemma_frame_after(index: nat, range: FrameRange, n: nat)
    requires
        range.well_formed(),
        range.contains(index as int),
    ensures
        spec_frame_after(index, range, n) == range.first + ((index - range.first + n) as int)
            % (range.len() as int),
    decreases n,
{
    let m = range.len() as int;
    let k = (index - range.first) as int;
    if n == 0 {
        vstd::arithmetic::div_mod::lemma_small_mod(k as nat, m as nat);
    } else {
        lemma_frame_after(index, range, (n - 1) as nat);
        lemma_mod_successor(k + n - 1, m);
    }
}

/// The loop over a range comes back to where it started after as many
/// ticks as the range has frames.
pub proof fn lemma_frame_loop_period(index: nat, range: FrameRange)
    requires
        range.well_formed(),
        range.contains(index as int),
    ensures
        spec_frame_after(index, range, range.len()) == index,
{
    lemma_frame_after(index, range, range.len());
    let m = range.len() as int;
    let k = (index - range.first) as int;
    vstd::arithmetic::div_mod::lemma_fundamental_div_mod_converse(k + m, m, 1, k);
}

/// The clip the hero's sprite plays after a movement update: while a
/// cast is still playing (`attack_finished` false) the clip is kept;
/// otherwise running when the hero moved, idle when not.
pub open spec fn spec_movement_clip(current: FrameRange, moved: bool, attack_finished: bool) -> FrameRange {
    if !attack_finished {
        current
    } else if moved {
        FrameRange { first: PLAYER_RUN_FIRST, last: PLAYER_RUN_LAST }
    } else {
        FrameRange { first: PLAYER_IDLE_FIRST, last: PLAYER_IDLE_LAST }
    }
}

/// The clip the hero's sprite plays after a movement update.
pub fn movement_clip(current: FrameRange, moved: bool, attack_finished: bool) -> (clip: FrameRange)
    ensures
        clip == spec_movement_clip(current, moved, attack_finished),
        !attack_finished ==> clip == current,
        attack_finished && moved ==> clip.first == PLAYER_RUN_FIRST && clip.last == PLAYER_RUN_LAST,
        attack_finished && !moved ==> clip.first == PLAYER_IDLE_FIRST && clip.last
            == PLAYER_IDLE_LAST,
{
    if !attack_finished {
        current
    } else if moved {
        FrameRange { first: PLAYER_RUN_FIRST, last: PLAYER_RUN_LAST }
    } else {
        FrameRange { first: PLAYER_IDLE_FIRST, last: PLAYER_IDLE_LAST }
    }
}

/// Frame of the burning title logo at the `raw_frame`-th animation step:
/// frames 0 to 7 once, then 5, 6, 7 over and over.
pub open spec fn spec_logo_frame(raw_frame: nat) -> nat {
    if raw_frame < 8 {
        raw_frame
    } else {
        (5 + (raw_frame - 8) % 3) as nat
    }
}

/// Frame of the burning title logo at the `raw_frame`-th animation step.
pub fn logo_frame(raw_frame: usize) -> (frame: usize)
    ensures
        frame == spec_logo_frame(raw_frame as nat),
        frame < 8,
        raw_frame < 8 ==> frame == raw_frame,
        raw_frame >= 8 ==> 5 <= frame <= 7,
{
    if raw_frame < 8 {
        raw_frame
    } else {
        5 + (raw_frame - 8) % 3
    }
}

/// After the intro the logo repeats with period three.
pub proof fn lemma_logo_loops(raw_frame: nat)
    requires
        raw_frame >= 8,
    ensures
        spec_logo_frame(raw_frame + 3) == spec_logo_frame(raw_frame),
        5 <= spec_logo_frame(raw_frame) <= 7,
{
    let k = (raw_frame - 8) as int;
    vstd::arithmetic::div_mod::lemma_fundamental_div_mod(k, 3);
    vstd::arithmetic::div_mod::lemma_mod_bound(k, 3);
    vstd::arithmetic::div_mod::lemma_fundamental_div_mod_converse(k + 3, 3, k / 3 + 1, k % 3);
}

/// A cast clip plays out whatever the hero does: while the attack timer
/// runs, the movement update keeps the current clip, moving or not;
/// once it has finished, moving plays the run clip and standing the idle
/// clip.
pub proof fn lemma_cast_not_cut_by_movement(current: FrameRange, moved: bool, attack_finished: bool)
    ensures
        !attack_finished ==> spec_movement_clip(current, moved, attack_finished) == current,
        attack_finished && moved ==> spec_movement_clip(current, moved, attack_finished)
            == (FrameRange { first: 12, last: 17 }),
        attack_finished && !moved ==> spec_movement_clip(current, moved, attack_finished)
            == (FrameRange { first: 0, last: 3 }),
{
}

/// One tick inside a range advances by one frame; at the last frame or
/// outside the range it restarts at the first.
pub proof fn lemma_next_frame_steps(index: nat, range: FrameRange)
    ensures
        range.first <= index < range.last ==> spec_next_frame(index, range) == index + 1,
        (index >= range.last || index < range.first) ==> spec_next_frame(index, range)
            == range.first,
{
}

} // verus!
