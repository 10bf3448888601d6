use vstd::prelude::*;
use crate::color::{Rgba, opaque};

verus! {

/// The attack behaviour of a hero.
#[derive(Clone, Copy, Debug, PartialEq, Eq, Structural)]
pub enum AttackType {
    /// Mage: charges orbs, then fires a homing fireball.
    ChargedFireball,
    /// Archer: rapid auto-orbs targeting nearby enemies.
    RapidOrbs,
    /// Warlock: close-range melee drain, no projectile.
    MeleeDrain,
}

/// The passive ability of a hero.
#[derive(Clone, Copy, Debug, PartialEq, Eq, Structural)]
pub enum PassiveAbility {
    /// Mage: collect orb charges, fire a fireball at five charges.
    OrbCharge,
    /// Archer: continuous rapid orb attacks (always active).
    RapidFire,
    /// Warlock: heal on every enemy kill.
    LifeDrain,
}

/// The active ability of a hero.
#[derive(Clone, Copy, Debug, PartialEq, Eq, Structural)]
pub enum ActiveAbilityKind {
    /// Mage: teleport forward.
    Blink,
    /// Archer: fire orbs in a ring.
    ArrowRain,
    /// Warlock: area damage and self heal.
    VoidNova,
}

/// The hero the player has selected. Set on the character-select
/// screen, read when play starts to configure the player.
#[derive(Clone, Copy, Debug, PartialEq, Eq, Structural)]
pub enum SelectedCharacter {
    Mage,
    Archer,
    Warlock,
}

impl Default for SelectedCharacter {
    fn default() -> (c: Self)
        ensures
            c == SelectedCharacter::Mage,
    {
        SelectedCharacter::Mage
    }
}

/// A complete hero definition. Quantities are in hundredths: health
/// points, multipliers, world units of range, and seconds.
pub struct CharacterDefinition {
    pub sprite_path: &'static str,
    pub display_name: &'static str,
    pub accent_color: Rgba,
    pub card_color: Rgba,
    pub base_health: u32,
    pub base_speed_multiplier: u32,
    pub base_damage_multiplier: u32,
    pub base_attack_range: u32,
    pub attack_type: AttackType,
    pub attack_interval: u32,
    pub orb_charges_start: u8,
    pub passive: PassiveAbility,
    pub active: ActiveAbilityKind,
    pub active_cooldown_secs: u32,
    pub active_description: &'static str,
    pub passive_description: &'static str,
}

/// The numeric and categorical part of a hero definition: health,
/// speed, damage, range, attack, attack interval, starting charges,
/// passive, active ability, cooldown and colours.
pub open spec fn spec_definition_stats(c: SelectedCharacter, d: CharacterDefinition) -> bool {
    match c {
        SelectedCharacter::Mage => {
            &&& d.accent_color == opaque(30, 60, 100)
            &&& d.card_color == opaque(10, 15, 35)
            &&& d.base_health == 10000
            &&& d.base_speed_multiplier == 100
            &&& d.base_damage_multiplier == 100
            &&& d.base_attack_range == 50000
            &&& d.attack_type == AttackType::ChargedFireball
            &&& d.attack_interval == 80
            &&& d.orb_charges_start == 0
            &&& d.passive == PassiveAbility::OrbCharge
            &&& d.active == ActiveAbilityKind::Blink
            &&& d.active_cooldown_secs == 500
        },
        SelectedCharacter::Archer => {
            &&& d.accent_color == opaque(20, 90, 40)
            &&& d.card_color == opaque(8, 22, 10)
            &&& d.base_health == 7500
            &&& d.base_speed_multiplier == 125
            &&& d.base_damage_multiplier == 80
            &&& d.base_attack_range == 65000
            &&& d.attack_type == AttackType::RapidOrbs
            &&& d.attack_interval == 70
            &&& d.orb_charges_start == 255
            &&& d.passive == PassiveAbility::RapidFire
            &&& d.active == ActiveAbilityKind::ArrowRain
            &&& d.active_cooldown_secs == 1000
        },
        SelectedCharacter::Warlock => {
            &&& d.accent_color == opaque(70, 20, 100)
            &&& d.card_color == opaque(18, 5, 28)
            &&& d.base_health == 15000
            &&& d.base_speed_multiplier == 85
            &&& d.base_damage_multiplier == 150
            &&& d.base_attack_range == 8000
            &&& d.attack_type == AttackType::MeleeDrain
            &&& d.attack_interval == 120
            &&& d.orb_charges_start == 0
            &&& d.passive == PassiveAbility::LifeDrain
            &&& d.active == ActiveAbilityKind::VoidNova
            &&& d.active_cooldown_secs == 1000
        },
    }
}

/// Sprite sheet of a hero.
pub open spec fn spec_sprite_path(c: SelectedCharacter) -> Seq<char> {
    match c {
        SelectedCharacter::Mage => "outline/MiniMage.png"@,
        SelectedCharacter::Archer => "outline/MiniArcherMan.png"@,
        SelectedCharacter::Warlock => "outline/MiniSwordMan.png"@,
    }
}

/// Name of a hero.
pub open spec fn spec_display_name(c: SelectedCharacter) -> Seq<char> {
    match c {
        SelectedCharacter::Mage => "Mage"@,
        SelectedCharacter::Archer => "Archer"@,
        SelectedCharacter::Warlock => "Warlock"@,
    }
}

/// Description of a hero's active ability.
pub open spec fn spec_active_description(c: SelectedCharacter) -> Seq<char> {
    match c {
        SelectedCharacter::Mage => "Blink — Teleport forward"@,
        SelectedCharacter::Archer => "Arrow Rain — Fire orbs in all directions"@,
        SelectedCharacter::Warlock => "Void Nova — AoE damage + heal"@,
    }
}

/// Description of a hero's passive ability.
pub open spec fn spec_passive_description(c: SelectedCharacter) -> Seq<char> {
    match c {
        SelectedCharacter::Mage => "Charges orbs → launches homing Fireball"@,
        SelectedCharacter::Archer => "Rapid auto-orbs targeting nearby enemies"@,
        SelectedCharacter::Warlock => "Life Drain: heal on every kill"@,
    }
}

/// The texts of a hero definition: sprite path, name and the two
/// ability descriptions.
pub open spec fn spec_definition_texts(c: SelectedCharacter, d: CharacterDefinition) -> bool {
    &&& d.sprite_path@ == spec_sprite_path(c)
    &&& d.display_name@ == spec_display_name(c)
    &&& d.active_description@ == spec_active_description(c)
    &&& d.passive_description@ == spec_passive_description(c)
}

impl CharacterDefinition {
    /// The definition of a hero.
    pub fn from_selected(character: SelectedCharacter) -> (d: Self)
        ensures
            spec_definition_stats(character, d),
            spec_definition_texts(character, d),
    {
        match character {
            SelectedCharacter::Mage => CharacterDefinition {
                sprite_path: "outline/MiniMage.png",
                display_name: "Mage",
                accent_color: Rgba { r: 30, g: 60, b: 100, a: 100 },
                card_color: Rgba { r: 10, g: 15, b: 35, a: 100 },
                base_health: 10000,
                base_speed_multiplier: 100,
                base_damage_multiplier: 100,
                base_attack_range: 50000,
                attack_type: AttackType::ChargedFireball,
                attack_interval: 80,
                orb_charges_start: 0,
                passive: PassiveAbility::OrbCharge,
                active: ActiveAbilityKind::Blink,
                active_cooldown_secs: 500,
                active_description: "Blink — Teleport forward",
                passive_description: "Charges orbs → launches homing Fireball",
            },
            SelectedCharacter::Archer => CharacterDefinition {
                sprite_path: "outline/MiniArcherMan.png",
                display_name: "Archer",
                accent_color: Rgba { r: 20, g: 90, b: 40, a: 100 },
                card_color: Rgba { r: 8, g: 22, b: 10, a: 100 },
                base_health: 7500,
                base_speed_multiplier: 125,
                base_damage_multiplier: 80,
                base_attack_range: 65000,
                attack_type: AttackType::RapidOrbs,
                attack_interval: 70,
                orb_charges_start: 255,
                passive: PassiveAbility::RapidFire,
                active: ActiveAbilityKind::ArrowRain,
                active_cooldown_secs: 1000,
                active_description: "Arrow Rain — Fire orbs in all directions",
                passive_description: "Rapid auto-orbs targeting nearby enemies",
            },
            SelectedCharacter::Warlock => CharacterDefinition {
                sprite_path: "outline/MiniSwordMan.png",
                display_name: "Warlock",
                accent_color: Rgba { r: 70, g: 20, b: 100, a: 100 },
                card_color: Rgba { r: 18, g: 5, b: 28, a: 100 },
                base_health: 15000,
                base_speed_multiplier: 85,
                base_damage_multiplier: 150,
                base_attack_range: 8000,
                attack_type: AttackType::MeleeDrain,
                attack_interval: 120,
                orb_charges_start: 0,
                passive: PassiveAbility::LifeDrain,
                active: ActiveAbilityKind::VoidNova,
                active_cooldown_secs: 1000,
                active_description: "Void Nova — AoE damage + heal",
                passive_description: "Life Drain: heal on every kill",
            },
        }
    }
}

/// Hearts drawn on a hero card.
pub const MAX_HEARTS: usize = 3;

impl CharacterDefinition {
    /// Filled hearts on the hero card: one per started 50 points of
    /// health, that is `ceil(base_health / 50)`.
    pub fn heart_count(&self) -> (n: usize)
        ensures
            n * 5000 >= self.base_health,
            n == 0 || (n - 1) * 5000 < self.base_health,
    {
        ((self.base_health as u64 + 4999) / 5000) as usize
    }
}

impl SelectedCharacter {
    /// The hero's full definition.
    pub fn definition(self) -> (d: CharacterDefinition)
        ensures
            spec_definition_stats(self, d),
            spec_definition_texts(self, d),
    {
        CharacterDefinition::from_selected(self)
    }

    pub fn display_name(self) -> (s: &'static str)
        ensures
            s@ == spec_display_name(self),
    {
        self.definition().display_name
    }

    pub fn passive_description(self) -> (s: &'static str)
        ensures
            s@ == spec_passive_description(self),
    {
        self.definition().passive_description
    }

    pub fn active_description(self) -> (s: &'static str)
        ensures
            s@ == spec_active_description(self),
    {
        self.definition().active_description
    }

    pub fn accent_color(self) -> (c: Rgba)
        ensures
            c == match self {
                SelectedCharacter::Mage => opaque(30, 60, 100),
                SelectedCharacter::Archer => opaque(20, 90, 40),
                SelectedCharacter::Warlock => opaque(70, 20, 100),
            },
    {
        self.definition().accent_color
    }

    pub fn card_color(self) -> (c: Rgba)
        ensures
            c == match self {
                SelectedCharacter::Mage => opaque(10, 15, 35),
                SelectedCharacter::Archer => opaque(8, 22, 10),
                SelectedCharacter::Warlock => opaque(18, 5, 28),
            },
    {
        self.definition().card_color
    }

    /// Cooldown of the active ability, in hundredths of a second.
    pub fn active_cooldown_secs(self) -> (t: u32)
        ensures
            t == match self {
                SelectedCharacter::Mage => 500u32,
                SelectedCharacter::Archer => 1000u32,
                SelectedCharacter::Warlock => 1000u32,
            },
    {
        self.definition().active_cooldown_secs
    }

    /// A simple health indicator string.
    pub fn health_indicator(self) -> (s: &'static str)
        ensures
            s@ == match self {
                SelectedCharacter::Warlock => "♥♥♥"@,
                SelectedCharacter::Mage => "♥♥"@,
                SelectedCharacter::Archer => "♥"@,
            },
    {
        match self {
            SelectedCharacter::Warlock => "♥♥♥",
            SelectedCharacter::Mage => "♥♥",
            SelectedCharacter::Archer => "♥",
        }
    }

    /// Label of the active-ability bar on the play screen.
    pub fn ability_label(self) -> (s: &'static str)
        ensures
            s@ == match self {
                SelectedCharacter::Mage => "BLINK [Q]"@,
                SelectedCharacter::Archer => "ARROW RAIN [Q]"@,
                SelectedCharacter::Warlock => "VOID NOVA [Q]"@,
            },
    {
        match self {
            SelectedCharacter::Mage => "BLINK [Q]",
            SelectedCharacter::Archer => "ARROW RAIN [Q]",
            SelectedCharacter::Warlock => "VOID NOVA [Q]",
        }
    }
}

} // verus!
