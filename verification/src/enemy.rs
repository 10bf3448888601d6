use vstd::prelude::*;
use crate::color::{Rgba, opaque};

verus! {

/// Which variant of enemy an entity represents.
/// Drives stats, color, and behaviour.
#[derive(Clone, Copy, Debug, PartialEq, Eq, Structural)]
pub enum EnemyKind {
    /// Slow melee attacker, the classic enemy (dark red).
    Grunt,
    /// Fast, low-HP, rushes the player (orange).
    Runner,
    /// Slow, very tanky, resists knockback (purple).
    Brute,
    /// Medium speed, phases through map structures (cyan/teal).
    Specter,
    /// Small and weak, drops extra XP (bright green).
    Goblin,
}

impl EnemyKind {
    /// True for the Specter variant, so movement can skip collision.
    pub fn ignores_structures(self) -> (b: bool)
        ensures
            b <==> self == EnemyKind::Specter,
    {
        matches!(self, EnemyKind::Specter)
    }

    /// Hit points at spawn, in hundredths of a point.
    pub fn base_health(self) -> (h: u32)
        ensures
            h == spec_base_health(self),
    {
        match self {
            EnemyKind::Grunt => 3000,
            EnemyKind::Runner => 1400,
            EnemyKind::Brute => 9000,
            EnemyKind::Specter => 2500,
            EnemyKind::Goblin => 1000,
        }
    }

    /// Movement speed, in hundredths of a world unit per second.
    pub fn base_speed(self) -> (v: u32)
        ensures
            v == spec_base_speed(self),
    {
        match self {
            EnemyKind::Grunt => 5000,
            EnemyKind::Runner => 10000,
            EnemyKind::Brute => 3000,
            EnemyKind::Specter => 6500,
            EnemyKind::Goblin => 7000,
        }
    }

    /// Damage dealt to the player on contact, in hundredths of a point.
    pub fn contact_damage(self) -> (d: u32)
        ensures
            d == spec_contact_damage(self),
    {
        match self {
            EnemyKind::Grunt | EnemyKind::Runner => 100,
            EnemyKind::Brute => 300,
            EnemyKind::Specter => 200,
            EnemyKind::Goblin => 50,
        }
    }

    /// Experience in the gem dropped on death, in hundredths of a point.
    pub fn xp_drop(self) -> (x: u32)
        ensures
            x == spec_xp_drop(self),
    {
        match self {
            EnemyKind::Grunt => 1000,
            EnemyKind::Runner => 800,
            EnemyKind::Brute => 2500,
            EnemyKind::Specter => 1500,
            EnemyKind::Goblin => 1800,  // goblins are XP pinatas
        }
    }

    /// Sprite tint.
    pub fn color(self) -> (c: Rgba)
        ensures
            c == spec_color(self),
    {
        match self {
            EnemyKind::Grunt => Rgba { r: 60, g: 20, b: 20, a: 100 },
            EnemyKind::Runner => Rgba { r: 90, g: 45, b: 5, a: 100 },
            EnemyKind::Brute => Rgba { r: 45, g: 10, b: 70, a: 100 },
            EnemyKind::Specter => Rgba { r: 10, g: 75, b: 85, a: 65 },
            EnemyKind::Goblin => Rgba { r: 20, g: 75, b: 20, a: 100 },
        }
    }

    /// Sprite size in world units (width, height).
    pub fn size(self) -> (wh: (u32, u32))
        ensures
            wh == spec_size(self),
    {
        match self {
            EnemyKind::Grunt => (50, 50),
            EnemyKind::Runner => (38, 38),
            EnemyKind::Brute => (70, 70),
            EnemyKind::Specter => (50, 60),
            EnemyKind::Goblin => (30, 30),
        }
    }
}

pub open spec fn spec_base_health(kind: EnemyKind) -> u32 {
    match kind {
        EnemyKind::Grunt => 3000,
        EnemyKind::Runner => 1400,
        EnemyKind::Brute => 9000,
        EnemyKind::Specter => 2500,
        EnemyKind::Goblin => 1000,
    }
}

pub open spec fn spec_base_speed(kind: EnemyKind) -> u32 {
    match kind {
        EnemyKind::Grunt => 5000,
        EnemyKind::Runner => 10000,
        EnemyKind::Brute => 3000,
        EnemyKind::Specter => 6500,
        EnemyKind::Goblin => 7000,
    }
}

pub open spec fn spec_contact_damage(kind: EnemyKind) -> u32 {
    match kind {
        EnemyKind::Grunt | EnemyKind::Runner => 100,
        EnemyKind::Brute => 300,
        EnemyKind::Specter => 200,
        EnemyKind::Goblin => 50,
    }
}

pub open spec fn spec_xp_drop(kind: EnemyKind) -> u32 {
    match kind {
        EnemyKind::Grunt => 1000,
        EnemyKind::Runner => 800,
        EnemyKind::Brute => 2500,
        EnemyKind::Specter => 1500,
        EnemyKind::Goblin => 1800,
    }
}

pub open spec fn spec_color(kind: EnemyKind) -> Rgba {
    match kind {
        EnemyKind::Grunt => opaque(60, 20, 20),
        EnemyKind::Runner => opaque(90, 45, 5),
        EnemyKind::Brute => opaque(45, 10, 70),
        EnemyKind::Specter => Rgba { r: 10, g: 75, b: 85, a: 65 },
        EnemyKind::Goblin => opaque(20, 75, 20),
    }
}

pub open spec fn spec_size(kind: EnemyKind) -> (u32, u32) {
    match kind {
        EnemyKind::Grunt => (50, 50),
        EnemyKind::Runner => (38, 38),
        EnemyKind::Brute => (70, 70),
        EnemyKind::Specter => (50, 60),
        EnemyKind::Goblin => (30, 30),
    }
}

/// Per-instance stats taken from the kind at spawn time, in hundredths.
#[derive(Clone, Copy, Debug, PartialEq, Eq, Structural)]
pub struct EnemyStats {
    pub speed: u32,
    pub contact_damage: u32,
    pub xp_drop: u32,
}

/// Marks an enemy; `active` is whether it is chasing the player.
#[derive(Clone, Copy, Debug, PartialEq, Eq, Structural)]
pub struct Enemy {
    pub active: bool,
}

impl Default for Enemy {
    fn default() -> (e: Self)
        ensures
            !e.active,
    {
        Enemy { active: false }
    }
}

/// World distance within which an enemy starts chasing the player.
pub const AGGRO_RADIUS: u32 = 700;

/// World distance beyond which an enemy is removed.
pub const DESPAWN_RADIUS: u32 = 1400;

/// Most enemies alive at once before spawning pauses.
pub const MAX_ENEMIES: usize = 150;

/// Whether an enemy chases after a frame, from whether the player is
/// inside the aggro radius and whether it is beyond the release radius.
pub open spec fn spec_chasing(was_active: bool, within_aggro: bool, beyond_release: bool) -> bool {
    if within_aggro {
        true
    } else if beyond_release {
        false
    } else {
        was_active
    }
}

impl Enemy {
    /// Starts chasing inside the aggro radius and stops beyond the
    /// release radius (1.2 times the aggro radius); in between the enemy keeps doing what it did.
    pub fn track_aggro(&mut self, within_aggro: bool, beyond_release: bool)
        ensures
            final(self).active == spec_chasing(old(self).active, within_aggro, beyond_release),
            within_aggro ==> final(self).active,
            !within_aggro && beyond_release ==> !final(self).active,
            !within_aggro && !beyond_release ==> final(self).active == old(self).active,
    {
        self.active = if within_aggro {
            true
        } else if beyond_release {
            false
        } else {
            self.active
        };
    }
}

/// Between the two radii the chase state does not flip, whatever it was.
pub proof fn lemma_aggro_hysteresis(was_active: bool)
    ensures
        spec_chasing(was_active, false, false) == was_active,
        spec_chasing(spec_chasing(was_active, false, false), false, false) == was_active,
{
}

/// Enemies spawned per spawn tick after `secs_ceil` whole seconds
/// (rounded up) of play: one, two past a minute, three past two minutes.
pub open spec fn spec_spawn_batch(secs_ceil: nat) -> nat {
    if secs_ceil > 120 {
        3
    } else if secs_ceil > 60 {
        2
    } else {
        1
    }
}

/// Enemies spawned per spawn tick; `secs_ceil` is the elapsed game time
/// in seconds rounded up, so that `secs > 60.0` reads `secs_ceil > 60`.
pub fn spawn_batch(secs_ceil: u32) -> (n: usize)
    ensures
        n == spec_spawn_batch(secs_ceil as nat),
        1 <= n <= 3,
        secs_ceil <= 60 ==> n == 1,
        60 < secs_ceil <= 120 ==> n == 2,
        secs_ceil > 120 ==> n == 3,
{
    if secs_ceil > 120 {
        3
    } else if secs_ceil > 60 {
        2
    } else {
        1
    }
}

/// Enemies spawned this tick while `enemy_count` are alive: the whole
/// batch below the cap, none at or above it. The cap is checked against
/// the count at the start of the tick, so a batch may overshoot it.
pub open spec fn spec_spawn_count(batch: nat, enemy_count: nat) -> nat {
    if enemy_count >= MAX_ENEMIES {
        0
    } else {
        batch
    }
}

/// Enemies spawned this tick while `enemy_count` are alive.
pub fn spawn_count(batch: usize, enemy_count: usize) -> (n: usize)
    ensures
        n == spec_spawn_count(batch as nat, enemy_count as nat),
        enemy_count >= MAX_ENEMIES ==> n == 0,
        enemy_count < MAX_ENEMIES ==> n == batch,
{
    if enemy_count >= MAX_ENEMIES {
        0
    } else {
        batch
    }
}

/// The enemy cap holds up to one batch: a tick adds nothing once the cap
/// is reached, and a tick that starts below the cap ends below the cap
/// plus the batch size.
pub proof fn lemma_spawn_cap(batch: nat, enemy_count: nat)
    ensures
        enemy_count >= MAX_ENEMIES ==> spec_spawn_count(batch, enemy_count) == 0,
        enemy_count < MAX_ENEMIES ==> enemy_count + spec_spawn_count(batch, enemy_count)
            < MAX_ENEMIES + batch,
{
}

/// The spawn table: each kind with its weight and the whole second of
/// play at which it starts to appear, in table order.
pub open spec fn spawn_table() -> Seq<(EnemyKind, u32, u32)> {
    seq![
        (EnemyKind::Grunt, 40u32, 0u32),
        (EnemyKind::Goblin, 20u32, 15u32),
        (EnemyKind::Runner, 20u32, 30u32),
        (EnemyKind::Specter, 12u32, 60u32),
        (EnemyKind::Brute, 8u32, 90u32),
    ]
}

/// Total weight of the kinds unlocked after `secs` whole seconds.
pub open spec fn spec_available_weight(secs: nat) -> nat {
    if secs >= 90 {
        100
    } else if secs >= 60 {
        92
    } else if secs >= 30 {
        80
    } else if secs >= 15 {
        60
    } else {
        40
    }
}

/// The kind that a roll selects after `secs` whole seconds of play. The
/// roll is uniform in [0, total) for the unlocked total; it is given
/// rounded up, since it is compared only with whole cumulative weights.
/// Unlocked kinds take consecutive slices of the roll range in table
/// order (Grunt up to 40, Goblin to 60, Runner to 80, Specter to 92,
/// Brute to 100); a roll past them all gives a Grunt.
pub open spec fn spec_pick_enemy_kind(secs: nat, roll_ceil: nat) -> EnemyKind {
    if roll_ceil <= 40 {
        EnemyKind::Grunt
    } else if secs >= 15 && roll_ceil <= 60 {
        EnemyKind::Goblin
    } else if secs >= 30 && roll_ceil <= 80 {
        EnemyKind::Runner
    } else if secs >= 60 && roll_ceil <= 92 {
        EnemyKind::Specter
    } else if secs >= 90 && roll_ceil <= 100 {
        EnemyKind::Brute
    } else {
        EnemyKind::Grunt
    }
}

/// The second of play at which a kind starts to appear.
pub open spec fn spec_unlock_secs(kind: EnemyKind) -> nat {
    match kind {
        EnemyKind::Grunt => 0,
        EnemyKind::Goblin => 15,
        EnemyKind::Runner => 30,
        EnemyKind::Specter => 60,
        EnemyKind::Brute => 90,
    }
}

/// Total weight of the kinds unlocked after `secs` whole seconds of play
/// (the range the spawn roll is drawn from).
pub fn available_weight(secs: u32) -> (w: u32)
    ensures
        w == spec_available_weight(secs as nat),
        40 <= w <= 100,
{
    let table: [(EnemyKind, u32, u32); 5] = [
        (EnemyKind::Grunt, 40, 0),
        (EnemyKind::Goblin, 20, 15),
        (EnemyKind::Runner, 20, 30),
        (EnemyKind::Specter, 12, 60),
        (EnemyKind::Brute, 8, 90),
    ];
    assert(table@ =~= spawn_table());
    let mut total: u32 = 0;
    let mut i: usize = 0;
    while i < 5
        invariant
            0 <= i <= 5,
            table@ == spawn_table(),
            total == (if i >= 1 { 40nat } else { 0 })
                + (if i >= 2 && secs >= 15 { 20nat } else { 0 })
                + (if i >= 3 && secs >= 30 { 20nat } else { 0 })
                + (if i >= 4 && secs >= 60 { 12nat } else { 0 })
                + (if i >= 5 && secs >= 90 { 8nat } else { 0 }),
        decreases 5 - i,
    {
        let (_, weight, unlock) = table[i];
        if secs >= unlock {
            total = total + weight;
        }
        i = i + 1;
    }
    total
}

/// Picks the kind of a new enemy from the spawn table: walks the
/// unlocked kinds in order, taking each one's weight off the roll, and
/// returns the first at which the roll is used up.
pub fn pick_enemy_kind(secs: u32, roll_ceil: u32) -> (kind: EnemyKind)
    ensures
        kind == spec_pick_enemy_kind(secs as nat, roll_ceil as nat),
        roll_ceil <= 40 ==> kind == EnemyKind::Grunt,
        spec_unlock_secs(kind) <= secs,
{
    let table: [(EnemyKind, u32, u32); 5] = [
        (EnemyKind::Grunt, 40, 0),
        (EnemyKind::Goblin, 20, 15),
        (EnemyKind::Runner, 20, 30),
        (EnemyKind::Specter, 12, 60),
        (EnemyKind::Brute, 8, 90),
    ];
    assert(table@ =~= spawn_table());
    let mut roll: i64 = roll_ceil as i64;
    let mut i: usize = 0;
    while i < 5
        invariant
            0 <= i <= 5,
            table@ == spawn_table(),
            roll == roll_ceil as int
                - (if i >= 1 { 40int } else { 0 })
                - (if i >= 2 && secs >= 15 { 20int } else { 0 })
                - (if i >= 3 && secs >= 30 { 20int } else { 0 })
                - (if i >= 4 && secs >= 60 { 12int } else { 0 })
                - (if i >= 5 && secs >= 90 { 8int } else { 0 }),
            i >= 1 ==> roll > 0,
            i >= 1 ==> roll_ceil > 40,
            i >= 2 ==> !(secs >= 15 && roll_ceil <= 60),
            i >= 3 ==> !(secs >= 30 && roll_ceil <= 80),
            i >= 4 ==> !(secs >= 60 && roll_ceil <= 92),
            i >= 5 ==> !(secs >= 90 && roll_ceil <= 100),
        decreases 5 - i,
    {
        let (kind, weight, unlock) = table[i];
        if secs >= unlock {
            roll = roll - weight as i64;
            if roll <= 0 {
                return kind;
            }
        }
        i = i + 1;
    }
    EnemyKind::Grunt
}

/// Early game is Grunts only: before fifteen seconds every roll gives a
/// Grunt, and at any time the kind picked has already been unlocked.
pub proof fn lemma_waves_unlock_in_order(secs: nat, roll_ceil: nat)
    ensures
        secs < 15 ==> spec_pick_enemy_kind(secs, roll_ceil) == EnemyKind::Grunt,
        spec_unlock_secs(spec_pick_enemy_kind(secs, roll_ceil)) <= secs,
{
}

/// Each unlocked kind owns its own slice of the roll range, in table
/// order: Grunt up to 40, Goblin 41 to 60 after 15 s, Runner 61 to 80
/// after 30 s, Specter 81 to 92 after 60 s, Brute 93 to 100 after 90 s;
/// a roll in a kind's slice before it unlocks, or past the unlocked
/// total, gives a Grunt.
pub proof fn lemma_spawn_roll_slices(secs: nat, roll_ceil: nat)
    ensures
        roll_ceil <= 40 ==> spec_pick_enemy_kind(secs, roll_ceil) == EnemyKind::Grunt,
        40 < roll_ceil <= 60 ==> spec_pick_enemy_kind(secs, roll_ceil) == if secs >= 15 {
            EnemyKind::Goblin
        } else {
            EnemyKind::Grunt
        },
        60 < roll_ceil <= 80 ==> spec_pick_enemy_kind(secs, roll_ceil) == if secs >= 30 {
            EnemyKind::Runner
        } else {
            EnemyKind::Grunt
        },
        80 < roll_ceil <= 92 ==> spec_pick_enemy_kind(secs, roll_ceil) == if secs >= 60 {
            EnemyKind::Specter
        } else {
            EnemyKind::Grunt
        },
        92 < roll_ceil <= 100 ==> spec_pick_enemy_kind(secs, roll_ceil) == if secs >= 90 {
            EnemyKind::Brute
        } else {
            EnemyKind::Grunt
        },
        roll_ceil > 100 ==> spec_pick_enemy_kind(secs, roll_ceil) == EnemyKind::Grunt,
{
}

/// The unlocked total is the sum of the weights of the unlocked kinds:
/// it never shrinks as time passes, starts at the Grunt's 40 and reaches
/// 100 once every kind is unlocked.
pub proof fn lemma_available_weight_grows(earlier: nat, later: nat)
    requires
        earlier <= later,
    ensures
        spec_available_weight(earlier) <= spec_available_weight(later),
        spec_available_weight(0) == 40,
        later >= 90 ==> spec_available_weight(later) == 100,
        spec_available_weight(later) == 40 + (if later >= 15 { 20int } else { 0 })
            + (if later >= 30 { 20int } else { 0 }) + (if later >= 60 { 12int } else { 0 }) + (
        if later >= 90 {
            8int
        } else {
            0
        }),
{
}

/// Spawn pressure only rises: the batch never shrinks as time passes and
/// is one, two or three enemies.
pub proof fn lemma_spawn_batch_grows(earlier: nat, later: nat)
    requires
        earlier <= later,
    ensures
        spec_spawn_batch(earlier) <= spec_spawn_batch(later),
        1 <= spec_spawn_batch(later) <= 3,
        later > 120 ==> spec_spawn_batch(later) == 3,
        later <= 60 ==> spec_spawn_batch(later) == 1,
{
}

/// The chase state follows the two radii: inside the aggro radius an
/// enemy always chases, beyond the release radius it never does.
pub proof fn lemma_aggro_radii(was_active: bool, beyond_release: bool)
    ensures
        spec_chasing(was_active, true, beyond_release),
        !spec_chasing(was_active, false, true),
{
}

} // verus!
