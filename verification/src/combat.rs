use vstd::prelude::*;
use crate::character::{ActiveAbilityKind, SelectedCharacter, spec_definition_stats};

verus! {

/// Marks the camera that follows the player.
#[derive(Clone, Copy, Debug, PartialEq, Eq, Structural)]
pub struct MainCamera;

/// Marks an entity to be removed on the next frame.
#[derive(Clone, Copy, Debug, PartialEq, Eq, Structural)]
pub struct DespawnNextFrame;

/// Type of projectile (determines sprite and behaviour).
#[derive(Clone, Copy, Debug, PartialEq, Eq, Structural)]
pub enum ProjectileKind {
    /// Homing orb (Mage).
    Orb,
    /// Straight-flying arrow (Archer).
    Arrow,
}

/// Orb charges the Mage needs before a fireball.
pub const ORB_CHARGES_NEEDED: u8 = 5;

/// Fireballs and orbs in flight at most; no new one is fired at this count.
pub const MAX_PROJECTILES: usize = 40;

/// Experience gems on the ground at most; no gem drops at this count.
pub const MAX_GEMS: usize = 300;

/// Blink distance of the Mage's active ability, in world units.
pub const BLINK_DISTANCE: u32 = 320;

/// Orbs in the Archer's arrow rain, evenly spaced around the hero.
pub const ARROW_RAIN_ORBS: u16 = 8;

/// Health the Warlock's void nova restores, capped at maximum health.
pub const VOID_NOVA_HEAL: u32 = 8;

/// Radius of a nova blast, in world units.
pub const NOVA_RADIUS: u32 = 380;

/// Damage of a nova blast before the damage multiplier.
pub const NOVA_DAMAGE: u32 = 40;

/// Outcome of the Mage's fireball step for one frame.
#[derive(Clone, Copy, Debug, PartialEq, Eq, Structural)]
pub struct FireballShot {
    /// Whether a fireball is launched at the target.
    pub fire: bool,
    /// The orb charges after the step.
    pub orb_charges: u8,
}

/// The fireball step: when the fireball timer fires with enough charges
/// and a visible target in range, the charges are spent; the fireball
/// itself flies only while fewer than `MAX_PROJECTILES` projectiles are
/// out, and the charges are spent even when it does not.
pub open spec fn spec_fireball_shot(
    timer_finished: bool,
    orb_charges: u8,
    target_found: bool,
    in_flight: nat,
) -> FireballShot {
    if !timer_finished || orb_charges < ORB_CHARGES_NEEDED || !target_found {
        FireballShot { fire: false, orb_charges }
    } else {
        FireballShot { fire: in_flight < MAX_PROJECTILES, orb_charges: 0 }
    }
}

/// The fireball step for one frame; `fireballs` and `orbs` are the
/// projectiles in flight.
pub fn fireball_shot(
    timer_finished: bool,
    orb_charges: u8,
    target_found: bool,
    fireballs: usize,
    orbs: usize,
) -> (shot: FireballShot)
    requires
        fireballs + orbs <= usize::MAX,
    ensures
        shot == spec_fireball_shot(timer_finished, orb_charges, target_found, (fireballs + orbs) as nat),
        shot.fire <==> (timer_finished && orb_charges >= ORB_CHARGES_NEEDED && target_found
            && fireballs + orbs < MAX_PROJECTILES),
        (timer_finished && orb_charges >= ORB_CHARGES_NEEDED && target_found) ==> shot.orb_charges
            == 0,
        !(timer_finished && orb_charges >= ORB_CHARGES_NEEDED && target_found) ==> shot.orb_charges
            == orb_charges,
{
    if !timer_finished || orb_charges < ORB_CHARGES_NEEDED {
        return FireballShot { fire: false, orb_charges };
    }
    if !target_found {
        return FireballShot { fire: false, orb_charges };
    }
    FireballShot { fire: fireballs + orbs < MAX_PROJECTILES, orb_charges: 0 }
}

/// What a hero's orb timer does when it fires.
#[derive(Clone, Copy, Debug, PartialEq, Eq, Structural)]
pub enum OrbAction {
    /// Nothing happens.
    Idle,
    /// The Mage gains an orb charge and plays the cast animation.
    Charge,
    /// The Archer launches an orb at the target and plays the cast animation.
    Launch,
}

/// Outcome of the orb step for one frame.
#[derive(Clone, Copy, Debug, PartialEq, Eq, Structural)]
pub struct OrbVolley {
    pub action: OrbAction,
    pub orb_charges: u8,
}

/// The orb step: on the orb timer, with a visible target in range and
/// fewer than `MAX_PROJECTILES` in flight, the Mage gains a charge
/// (saturating at 255), the Archer launches an orb, the Warlock does
/// nothing.
pub open spec fn spec_orb_volley(
    hero: SelectedCharacter,
    timer_finished: bool,
    target_found: bool,
    in_flight: nat,
    orb_charges: u8,
) -> OrbVolley {
    if !timer_finished || !target_found || in_flight >= MAX_PROJECTILES {
        OrbVolley { action: OrbAction::Idle, orb_charges }
    } else {
        match hero {
            SelectedCharacter::Mage => OrbVolley {
                action: OrbAction::Charge,
                orb_charges: if orb_charges == 255 { 255 } else { (orb_charges + 1) as u8 },
            },
            SelectedCharacter::Archer => OrbVolley { action: OrbAction::Launch, orb_charges },
            SelectedCharacter::Warlock => OrbVolley { action: OrbAction::Idle, orb_charges },
        }
    }
}

/// The orb step for one frame.
pub fn orb_volley(
    hero: SelectedCharacter,
    timer_finished: bool,
    target_found: bool,
    fireballs: usize,
    orbs: usize,
    orb_charges: u8,
) -> (v: OrbVolley)
    requires
        fireballs + orbs <= usize::MAX,
    ensures
        v == spec_orb_volley(hero, timer_finished, target_found, (fireballs + orbs) as nat, orb_charges),
        !timer_finished ==> v.action == OrbAction::Idle && v.orb_charges == orb_charges,
        !target_found ==> v.action == OrbAction::Idle && v.orb_charges == orb_charges,
        fireballs + orbs >= MAX_PROJECTILES ==> v.action == OrbAction::Idle && v.orb_charges
            == orb_charges,
        v.action == OrbAction::Charge ==> hero == SelectedCharacter::Mage,
        v.action == OrbAction::Launch ==> hero == SelectedCharacter::Archer && v.orb_charges
            == orb_charges,
        v.action != OrbAction::Idle ==> timer_finished && target_found && fireballs + orbs
            < MAX_PROJECTILES,
{
    if !timer_finished || !target_found {
        return OrbVolley { action: OrbAction::Idle, orb_charges };
    }
    if fireballs + orbs >= MAX_PROJECTILES {
        return OrbVolley { action: OrbAction::Idle, orb_charges };
    }
    match hero {
        SelectedCharacter::Mage => OrbVolley {
            action: OrbAction::Charge,
            orb_charges: orb_charges.saturating_add(1),
        },
        SelectedCharacter::Archer => OrbVolley { action: OrbAction::Launch, orb_charges },
        SelectedCharacter::Warlock => OrbVolley { action: OrbAction::Idle, orb_charges },
    }
}

/// A fireball is launched only with at least `ORB_CHARGES_NEEDED`
/// charges and leaves none; every fireball step either keeps the
/// charges or spends them all.
pub proof fn lemma_fireball_needs_charges(
    timer_finished: bool,
    orb_charges: u8,
    target_found: bool,
    in_flight: nat,
)
    ensures
        ({
            let shot = spec_fireball_shot(timer_finished, orb_charges, target_found, in_flight);
            &&& shot.fire ==> orb_charges >= ORB_CHARGES_NEEDED && shot.orb_charges == 0
            &&& shot.orb_charges == orb_charges || shot.orb_charges == 0
        }),
{
}

/// Each charging step of the Mage adds exactly one charge below 255, so
/// charges grow one step at a time.
pub proof fn lemma_charge_steps(
    timer_finished: bool,
    target_found: bool,
    in_flight: nat,
    orb_charges: u8,
)
    requires
        orb_charges < 255,
    ensures
        ({
            let v = spec_orb_volley(
                SelectedCharacter::Mage,
                timer_finished,
                target_found,
                in_flight,
                orb_charges,
            );
            &&& v.action == OrbAction::Charge ==> v.orb_charges == orb_charges + 1
            &&& v.action != OrbAction::Charge ==> v.orb_charges == orb_charges
        }),
{
}

/// Whether the nova fires this frame: only for the Warlock, only with
/// the nova cooldown finished, and only when Space or the nova button
/// was pressed with a player present.
pub fn nova_fires(
    cooldown_finished: bool,
    pressed: bool,
    player_present: bool,
    hero: SelectedCharacter,
) -> (fires: bool)
    ensures
        fires == (cooldown_finished && pressed && player_present && hero == SelectedCharacter::Warlock),
{
    cooldown_finished && pressed && player_present && match hero {
        SelectedCharacter::Warlock => true,
        _ => false,
    }
}

/// The active ability that fires this frame: the hero's own, when its
/// cooldown has finished and the ability key was just pressed; the
/// caller then restarts the cooldown.
pub fn active_ability_effect(
    hero: SelectedCharacter,
    cooldown_finished: bool,
    pressed: bool,
) -> (effect: Option<ActiveAbilityKind>)
    ensures
        effect is Some <==> cooldown_finished && pressed,
        effect matches Some(kind) ==> kind == match hero {
            SelectedCharacter::Mage => ActiveAbilityKind::Blink,
            SelectedCharacter::Archer => ActiveAbilityKind::ArrowRain,
            SelectedCharacter::Warlock => ActiveAbilityKind::VoidNova,
        },
{
    if !cooldown_finished || !pressed {
        return None;
    }
    let def = hero.definition();
    proof {
        assert(spec_definition_stats(hero, def));
    }
    Some(def.active)
}

/// One entity with health, as the death step sees it.
#[derive(Clone, Copy, Debug, PartialEq, Eq, Structural)]
pub struct Casualty {
    /// Health at or below zero.
    pub dead: bool,
    pub is_player: bool,
    pub is_enemy: bool,
    /// The entity has a position to drop a gem at.
    pub has_position: bool,
}

/// What the death step does for one frame.
#[derive(Debug)]
pub struct DeathOutcome {
    /// The player died: the game-over screen follows.
    pub game_over: bool,
    /// Indices of the entities to remove, in order.
    pub despawn: Vec<usize>,
    /// Indices of the dead enemies that drop an experience gem, in order.
    pub gem_drops: Vec<usize>,
}

/// Index of the first dead player at or after `i`, or the length.
pub open spec fn spec_first_dead_player_from(s: Seq<Casualty>, i: nat) -> nat
    decreases s.len() - i,
{
    if i >= s.len() {
        s.len()
    } else if s[i as int].dead && s[i as int].is_player {
        i
    } else {
        spec_first_dead_player_from(s, i + 1)
    }
}

/// Index of the first dead player, or the length when the player lives.
pub open spec fn spec_first_dead_player(s: Seq<Casualty>) -> nat {
    spec_first_dead_player_from(s, 0)
}

/// Indices below `n` of dead entities other than the player.
pub open spec fn spec_removed(s: Seq<Casualty>, n: nat) -> Seq<usize>
    decreases n,
{
    if n == 0 {
        Seq::empty()
    } else {
        let prev = spec_removed(s, (n - 1) as nat);
        let c = s[n - 1];
        if c.dead && !c.is_player {
            prev.push((n - 1) as usize)
        } else {
            prev
        }
    }
}

/// Indices below `n` of dead enemies that have a position.
pub open spec fn spec_dropping(s: Seq<Casualty>, n: nat) -> Seq<usize>
    decreases n,
{
    if n == 0 {
        Seq::empty()
    } else {
        let prev = spec_dropping(s, (n - 1) as nat);
        let c = s[n - 1];
        if c.dead && !c.is_player && c.is_enemy && c.has_position {
            prev.push((n - 1) as usize)
        } else {
            prev
        }
    }
}

/// The death step: entities are visited in order; a dead player ends
/// the visit with game over (entities after it are left for later);
/// every other dead entity is removed, and a dead enemy with a position
/// drops a gem when fewer than `MAX_GEMS` gems were on the ground at the
/// start of the frame.
pub fn resolve_deaths(entities: &Vec<Casualty>, gem_count: usize) -> (out: DeathOutcome)
    ensures
        out.game_over == (spec_first_dead_player(entities@) < entities@.len()),
        out.despawn@ == spec_removed(entities@, spec_first_dead_player(entities@)),
        out.gem_drops@ == if gem_count < MAX_GEMS {
            spec_dropping(entities@, spec_first_dead_player(entities@))
        } else {
            Seq::empty()
        },
        gem_count >= MAX_GEMS ==> out.gem_drops@.len() == 0,
        out.game_over <==> (exists|k: int|
            0 <= k < entities@.len() && #[trigger] entities@[k].dead && entities@[k].is_player),
        forall|k: int|
            0 <= k < out.despawn@.len() ==> entities@[#[trigger] out.despawn@[k] as int].dead
                && !entities@[out.despawn@[k] as int].is_player,
        forall|k: int|
            0 <= k < out.gem_drops@.len() ==> entities@[#[trigger] out.gem_drops@[k] as int].dead
                && entities@[out.gem_drops@[k] as int].is_enemy
                && entities@[out.gem_drops@[k] as int].has_position,
{
    let n: usize = entities.len();
    let mut despawn: Vec<usize> = Vec::new();
    let mut gem_drops: Vec<usize> = Vec::new();
    let mut i: usize = 0;
    while i < n
        invariant
            n == entities@.len(),
            i <= n,
            spec_first_dead_player(entities@) == spec_first_dead_player_from(entities@, i as nat),
            despawn@ == spec_removed(entities@, i as nat),
            gem_drops@ == if gem_count < MAX_GEMS {
                spec_dropping(entities@, i as nat)
            } else {
                Seq::empty()
            },
        decreases n - i,
    {
        let c: Casualty = entities[i];
        if c.dead {
            if c.is_player {
                proof {
                    lemma_death_step(entities@);
                }
                return DeathOutcome { game_over: true, despawn, gem_drops };
            }
            despawn.push(i);
            if c.is_enemy && c.has_position && gem_count < MAX_GEMS {
                gem_drops.push(i);
            }
        }
        i = i + 1;
    }
    proof {
        lemma_death_step(entities@);
    }
    DeathOutcome { game_over: false, despawn, gem_drops }
}

proof fn lemma_first_dead_player_from(s: Seq<Casualty>, i: nat)
    requires
        i <= s.len(),
    ensures
        i <= spec_first_dead_player_from(s, i) <= s.len(),
        forall|k: int|
            i <= k < spec_first_dead_player_from(s, i) ==> !(#[trigger] s[k].dead && s[k].is_player),
        spec_first_dead_player_from(s, i) < s.len() ==> s[spec_first_dead_player_from(s, i) as int].dead
            && s[spec_first_dead_player_from(s, i) as int].is_player,
    decreases s.len() - i,
{
    if i < s.len() && !(s[i as int].dead && s[i as int].is_player) {
        lemma_first_dead_player_from(s, i + 1);
    }
}

proof fn lemma_removed_members(s: Seq<Casualty>, n: nat)
    requires
        n <= s.len(),
        s.len() <= usize::MAX,
    ensures
        forall|k: int|
            0 <= k < spec_removed(s, n).len() ==> {
                let j = #[trigger] spec_removed(s, n)[k];
                &&& j < n
                &&& s[j as int].dead
                &&& !s[j as int].is_player
            },
        forall|k: int|
            0 <= k < spec_dropping(s, n).len() ==> {
                let j = #[trigger] spec_dropping(s, n)[k];
                &&& j < n
                &&& s[j as int].dead
                &&& !s[j as int].is_player
                &&& s[j as int].is_enemy
                &&& s[j as int].has_position
            },
        spec_dropping(s, n).len() <= spec_removed(s, n).len(),
    decreases n,
{
    if n > 0 {
        let m = (n - 1) as nat;
        lemma_removed_members(s, m);
        let prev_r = spec_removed(s, m);
        let prev_d = spec_dropping(s, m);
        assert forall|k: int| 0 <= k < spec_removed(s, n).len() implies {
            let j = #[trigger] spec_removed(s, n)[k];
            &&& j < n
            &&& s[j as int].dead
            &&& !s[j as int].is_player
        } by {
            if k < prev_r.len() {
                assert(spec_removed(s, n)[k] == prev_r[k]);
            }
        }
        assert forall|k: int| 0 <= k < spec_dropping(s, n).len() implies {
            let j = #[trigger] spec_dropping(s, n)[k];
            &&& j < n
            &&& s[j as int].dead
            &&& !s[j as int].is_player
            &&& s[j as int].is_enemy
            &&& s[j as int].has_position
        } by {
            if k < prev_d.len() {
                assert(spec_dropping(s, n)[k] == prev_d[k]);
            }
        }
    }
}

/// The game ends exactly when some entity is a dead player; every
/// removed entity is a dead non-player that comes before the first dead
/// player; every gem comes from a removed dead enemy with a position, so
/// there are never more gems than removals.
pub proof fn lemma_death_step(s: Seq<Casualty>)
    requires
        s.len() <= usize::MAX,
    ensures
        (spec_first_dead_player(s) < s.len()) <==> (exists|k: int|
            0 <= k < s.len() && #[trigger] s[k].dead && s[k].is_player),
        forall|k: int|
            0 <= k < spec_removed(s, spec_first_dead_player(s)).len() ==> {
                let j = #[trigger] spec_removed(s, spec_first_dead_player(s))[k];
                &&& j < spec_first_dead_player(s)
                &&& s[j as int].dead
                &&& !s[j as int].is_player
            },
        forall|k: int|
            0 <= k < spec_dropping(s, spec_first_dead_player(s)).len() ==> {
                let j = #[trigger] spec_dropping(s, spec_first_dead_player(s))[k];
                &&& s[j as int].dead
                &&& s[j as int].is_enemy
                &&& s[j as int].has_position
            },
        spec_dropping(s, spec_first_dead_player(s)).len() <= spec_removed(
            s,
            spec_first_dead_player(s),
        ).len(),
{
    lemma_first_dead_player_from(s, 0);
    lemma_removed_members(s, spec_first_dead_player(s));
    if spec_first_dead_player(s) < s.len() {
        let p = spec_first_dead_player(s) as int;
        assert(s[p].dead && s[p].is_player);
    }
}

/// Nothing happens on the orb step until the orb timer fires: on a frame
/// where it has not, every hero stays idle and keeps its charges. When
/// it fires with a target and room for a projectile, the Mage charges
/// by one (up to 255), the Archer launches without touching charges,
/// and the Warlock stays idle.
pub proof fn lemma_orb_step_waits_for_timer(
    hero: SelectedCharacter,
    timer_finished: bool,
    target_found: bool,
    in_flight: nat,
    orb_charges: u8,
)
    ensures
        ({
            let v = spec_orb_volley(hero, timer_finished, target_found, in_flight, orb_charges);
            &&& !timer_finished ==> v.action == OrbAction::Idle && v.orb_charges == orb_charges
            &&& !target_found ==> v.action == OrbAction::Idle && v.orb_charges == orb_charges
            &&& in_flight >= MAX_PROJECTILES ==> v.action == OrbAction::Idle && v.orb_charges
                == orb_charges
            &&& (timer_finished && target_found && in_flight < MAX_PROJECTILES) ==> match hero {
                SelectedCharacter::Mage => v.action == OrbAction::Charge && v.orb_charges as int
                    == if orb_charges < 255 { orb_charges + 1 } else { 255int },
                SelectedCharacter::Archer => v.action == OrbAction::Launch && v.orb_charges
                    == orb_charges,
                SelectedCharacter::Warlock => v.action == OrbAction::Idle && v.orb_charges
                    == orb_charges,
            }
        }),
{
}

/// The fireball flies exactly when its timer fires with at least five
/// charges, a target, and fewer than `MAX_PROJECTILES` in flight; the
/// charges are spent exactly when the first three hold, and kept
/// otherwise.
pub proof fn lemma_fireball_rule(
    timer_finished: bool,
    orb_charges: u8,
    target_found: bool,
    in_flight: nat,
)
    ensures
        ({
            let shot = spec_fireball_shot(timer_finished, orb_charges, target_found, in_flight);
            let ready = timer_finished && orb_charges >= ORB_CHARGES_NEEDED && target_found;
            &&& shot.fire <==> ready && in_flight < MAX_PROJECTILES
            &&& ready ==> shot.orb_charges == 0
            &&& !ready ==> shot.orb_charges == orb_charges
        }),
{
}

proof fn lemma_removed_complete(s: Seq<Casualty>, n: nat)
    requires
        n <= s.len(),
        s.len() <= usize::MAX,
    ensures
        forall|k: int|
            0 <= k < n && #[trigger] s[k].dead && !s[k].is_player ==> spec_removed(s, n).contains(
                k as usize,
            ),
        forall|k: int|
            0 <= k < n && #[trigger] s[k].dead && !s[k].is_player && s[k].is_enemy
                && s[k].has_position ==> spec_dropping(s, n).contains(k as usize),
    decreases n,
{
    if n > 0 {
        let m = (n - 1) as nat;
        lemma_removed_complete(s, m);
        let prev_r = spec_removed(s, m);
        let prev_d = spec_dropping(s, m);
        assert forall|k: int|
            0 <= k < n && #[trigger] s[k].dead && !s[k].is_player implies spec_removed(
                s,
                n,
            ).contains(k as usize) by {
            if k < m {
                let i = choose|i: int| 0 <= i < prev_r.len() && prev_r[i] == k as usize;
                assert(spec_removed(s, n)[i] == k as usize);
            } else {
                assert(spec_removed(s, n).last() == k as usize);
            }
        }
        assert forall|k: int|
            0 <= k < n && #[trigger] s[k].dead && !s[k].is_player && s[k].is_enemy
                && s[k].has_position implies spec_dropping(s, n).contains(k as usize) by {
            if k < m {
                let i = choose|i: int| 0 <= i < prev_d.len() && prev_d[i] == k as usize;
                assert(spec_dropping(s, n)[i] == k as usize);
            } else {
                assert(spec_dropping(s, n).last() == k as usize);
            }
        }
    }
}

/// Nobody dead is forgotten: every dead entity other than the player
/// that comes before the first dead player is removed, and every such
/// enemy with a position drops a gem while the gem cap allows.
pub proof fn lemma_death_step_complete(s: Seq<Casualty>)
    requires
        s.len() <= usize::MAX,
    ensures
        forall|k: int|
            0 <= k < spec_first_dead_player(s) && #[trigger] s[k].dead && !s[k].is_player
                ==> spec_removed(s, spec_first_dead_player(s)).contains(k as usize),
        forall|k: int|
            0 <= k < spec_first_dead_player(s) && #[trigger] s[k].dead && s[k].is_enemy
                && !s[k].is_player && s[k].has_position ==> spec_dropping(
                s,
                spec_first_dead_player(s),
            ).contains(k as usize),
{
    lemma_first_dead_player_from(s, 0);
    lemma_removed_complete(s, spec_first_dead_player(s));
}

} // verus!
