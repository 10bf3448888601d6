use yulaven::character::{ActiveAbilityKind, SelectedCharacter};
use yulaven::combat::{
    active_ability_effect, fireball_shot, nova_fires, orb_volley, resolve_deaths, Casualty,
    OrbAction, MAX_GEMS,
};

#[test]
fn fireball_waits_for_charges() {
    let s = fireball_shot(true, 4, true, 0, 0);
    assert!(!s.fire);
    assert_eq!(s.orb_charges, 4);
    let s = fireball_shot(false, 9, true, 0, 0);
    assert!(!s.fire);
    assert_eq!(s.orb_charges, 9);
    let s = fireball_shot(true, 5, false, 0, 0);
    assert!(!s.fire);
    assert_eq!(s.orb_charges, 5);
    let s = fireball_shot(true, 5, true, 10, 29);
    assert!(s.fire);
    assert_eq!(s.orb_charges, 0);
}

#[test]
fn fireball_spends_charges_at_projectile_cap() {
    let s = fireball_shot(true, 7, true, 20, 20);
    assert!(!s.fire);
    assert_eq!(s.orb_charges, 0);
}

#[test]
fn orb_steps_per_hero() {
    let v = orb_volley(SelectedCharacter::Mage, true, true, 0, 0, 4);
    assert_eq!((v.action, v.orb_charges), (OrbAction::Charge, 5));
    let v = orb_volley(SelectedCharacter::Mage, true, true, 0, 0, 255);
    assert_eq!((v.action, v.orb_charges), (OrbAction::Charge, 255));
    let v = orb_volley(SelectedCharacter::Archer, true, true, 0, 0, 255);
    assert_eq!((v.action, v.orb_charges), (OrbAction::Launch, 255));
    let v = orb_volley(SelectedCharacter::Warlock, true, true, 0, 0, 0);
    assert_eq!(v.action, OrbAction::Idle);
    let v = orb_volley(SelectedCharacter::Archer, true, true, 39, 1, 0);
    assert_eq!(v.action, OrbAction::Idle);
    let v = orb_volley(SelectedCharacter::Mage, true, false, 0, 0, 2);
    assert_eq!((v.action, v.orb_charges), (OrbAction::Idle, 2));
}

#[test]
fn mage_fires_after_five_charges() {
    let mut charges = 0u8;
    let mut fired = 0;
    for _ in 0..12 {
        let shot = fireball_shot(true, charges, true, 0, 0);
        if shot.fire {
            fired += 1;
        }
        charges = shot.orb_charges;
        charges = orb_volley(SelectedCharacter::Mage, true, true, 0, 0, charges).orb_charges;
    }
    assert_eq!(fired, 2);
}

#[test]
fn nova_only_for_warlock() {
    assert!(nova_fires(true, true, true, SelectedCharacter::Warlock));
    assert!(!nova_fires(true, true, true, SelectedCharacter::Mage));
    assert!(!nova_fires(false, true, true, SelectedCharacter::Warlock));
    assert!(!nova_fires(true, false, true, SelectedCharacter::Warlock));
    assert!(!nova_fires(true, true, false, SelectedCharacter::Warlock));
}

#[test]
fn active_abilities() {
    assert_eq!(active_ability_effect(SelectedCharacter::Mage, true, true), Some(ActiveAbilityKind::Blink));
    assert_eq!(
        active_ability_effect(SelectedCharacter::Archer, true, true),
        Some(ActiveAbilityKind::ArrowRain)
    );
    assert_eq!(
        active_ability_effect(SelectedCharacter::Warlock, true, true),
        Some(ActiveAbilityKind::VoidNova)
    );
    assert_eq!(active_ability_effect(SelectedCharacter::Mage, false, true), None);
    assert_eq!(active_ability_effect(SelectedCharacter::Mage, true, false), None);
}

fn casualty(dead: bool, is_player: bool, is_enemy: bool, has_position: bool) -> Casualty {
    Casualty { dead, is_player, is_enemy, has_position }
}

#[test]
fn deaths_before_player_death() {
    let entities = vec![
        casualty(true, false, true, true),
        casualty(false, false, true, true),
        casualty(true, false, false, true),
        casualty(true, false, true, false),
        casualty(true, true, false, true),
        casualty(true, false, true, true),
    ];
    let out = resolve_deaths(&entities, 0);
    assert!(out.game_over);
    assert_eq!(out.despawn, vec![0, 2, 3]);
    assert_eq!(out.gem_drops, vec![0]);
}

#[test]
fn deaths_without_player_death() {
    let entities = vec![
        casualty(true, false, true, true),
        casualty(false, true, false, true),
        casualty(true, false, true, true),
    ];
    let out = resolve_deaths(&entities, MAX_GEMS - 1);
    assert!(!out.game_over);
    assert_eq!(out.despawn, vec![0, 2]);
    assert_eq!(out.gem_drops, vec![0, 2]);
    let out = resolve_deaths(&entities, MAX_GEMS);
    assert_eq!(out.despawn, vec![0, 2]);
    assert!(out.gem_drops.is_empty());
}
