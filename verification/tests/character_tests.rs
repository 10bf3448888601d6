use yulaven::character::{
    ActiveAbilityKind, AttackType, CharacterDefinition, PassiveAbility, SelectedCharacter,
};

#[test]
fn default_hero_is_mage() {
    assert_eq!(SelectedCharacter::default(), SelectedCharacter::Mage);
}

#[test]
fn hero_definitions() {
    let m = CharacterDefinition::from_selected(SelectedCharacter::Mage);
    assert_eq!(m.sprite_path, "outline/MiniMage.png");
    assert_eq!(m.base_health, 10000);
    assert_eq!(m.attack_type, AttackType::ChargedFireball);
    assert_eq!(m.orb_charges_start, 0);
    assert_eq!(m.active, ActiveAbilityKind::Blink);
    let a = SelectedCharacter::Archer.definition();
    assert_eq!(a.base_speed_multiplier, 125);
    assert_eq!(a.base_damage_multiplier, 80);
    assert_eq!(a.base_attack_range, 65000);
    assert_eq!(a.orb_charges_start, 255);
    assert_eq!(a.passive, PassiveAbility::RapidFire);
    let w = SelectedCharacter::Warlock.definition();
    assert_eq!(w.attack_interval, 120);
    assert_eq!(w.base_attack_range, 8000);
    assert_eq!(w.passive_description, "Life Drain: heal on every kill");
}

#[test]
fn hero_texts() {
    assert_eq!(SelectedCharacter::Archer.display_name(), "Archer");
    assert_eq!(SelectedCharacter::Warlock.active_description(), "Void Nova — AoE damage + heal");
    assert_eq!(
        SelectedCharacter::Mage.passive_description(),
        "Charges orbs → launches homing Fireball"
    );
    assert_eq!(SelectedCharacter::Warlock.health_indicator(), "♥♥♥");
    assert_eq!(SelectedCharacter::Archer.health_indicator(), "♥");
    assert_eq!(SelectedCharacter::Archer.ability_label(), "ARROW RAIN [Q]");
    assert_eq!(SelectedCharacter::Mage.active_cooldown_secs(), 500);
    assert_eq!(SelectedCharacter::Warlock.active_cooldown_secs(), 1000);
    let c = SelectedCharacter::Warlock.accent_color();
    assert_eq!((c.r, c.g, c.b, c.a), (70, 20, 100, 100));
    let c = SelectedCharacter::Archer.card_color();
    assert_eq!((c.r, c.g, c.b), (8, 22, 10));
}

#[test]
fn hero_hearts() {
    assert_eq!(SelectedCharacter::Mage.definition().heart_count(), 2);
    assert_eq!(SelectedCharacter::Archer.definition().heart_count(), 2);
    assert_eq!(SelectedCharacter::Warlock.definition().heart_count(), 3);
}
