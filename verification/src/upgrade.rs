use vstd::prelude::*;
use rand::seq::SliceRandom;
use crate::color::{Rgba, opaque};

verus! {

/// All possible upgrades the player can receive on level-up.
#[derive(Clone, Copy, Debug, PartialEq, Eq, Structural)]
pub enum UpgradeKind {
    AttackSpeed,
    AttackDamage,
    MoveSpeed,
    MaxHealth,
    Magnet,
    FireRange,
}

/// Upgrade cards shown on each level-up.
pub const OFFERED_UPGRADES: usize = 3;

impl UpgradeKind {
    /// Title of the upgrade's card.
    pub fn label(self) -> (s: &'static str)
        ensures
            s@ == match self {
                UpgradeKind::AttackSpeed => "⚡ Attack Speed"@,
                UpgradeKind::AttackDamage => "💥 Damage"@,
                UpgradeKind::MoveSpeed => "👟 Move Speed"@,
                UpgradeKind::MaxHealth => "❤️ Max Health"@,
                UpgradeKind::Magnet => "🧲 Gem Magnet"@,
                UpgradeKind::FireRange => "🎯 Fire Range"@,
            },
    {
        match self {
            UpgradeKind::AttackSpeed => "⚡ Attack Speed",
            UpgradeKind::AttackDamage => "💥 Damage",
            UpgradeKind::MoveSpeed => "👟 Move Speed",
            UpgradeKind::MaxHealth => "❤️ Max Health",
            UpgradeKind::Magnet => "🧲 Gem Magnet",
            UpgradeKind::FireRange => "🎯 Fire Range",
        }
    }

    /// What the upgrade does, as shown on its card.
    pub fn description(self) -> (s: &'static str)
        ensures
            s@ == match self {
                UpgradeKind::AttackSpeed => "+15% attack speed"@,
                UpgradeKind::AttackDamage => "+20% spell damage"@,
                UpgradeKind::MoveSpeed => "+10% movement speed"@,
                UpgradeKind::MaxHealth => "+25 maximum HP"@,
                UpgradeKind::Magnet => "+25% gem magnet radius"@,
                UpgradeKind::FireRange => "+20% targeting range"@,
            },
    {
        match self {
            UpgradeKind::AttackSpeed => "+15% attack speed",
            UpgradeKind::AttackDamage => "+20% spell damage",
            UpgradeKind::MoveSpeed => "+10% movement speed",
            UpgradeKind::MaxHealth => "+25 maximum HP",
            UpgradeKind::Magnet => "+25% gem magnet radius",
            UpgradeKind::FireRange => "+20% targeting range",
        }
    }

    /// Border and title colour of the upgrade's card.
    pub fn accent_color(self) -> (c: Rgba)
        ensures
            c == match self {
                UpgradeKind::AttackSpeed => opaque(90, 80, 10),
                UpgradeKind::AttackDamage => opaque(100, 30, 10),
                UpgradeKind::MoveSpeed => opaque(20, 80, 50),
                UpgradeKind::MaxHealth => opaque(20, 90, 30),
                UpgradeKind::Magnet => opaque(40, 50, 100),
                UpgradeKind::FireRange => opaque(60, 30, 100),
            },
    {
        match self {
            UpgradeKind::AttackSpeed => Rgba { r: 90, g: 80, b: 10, a: 100 },
            UpgradeKind::AttackDamage => Rgba { r: 100, g: 30, b: 10, a: 100 },
            UpgradeKind::MoveSpeed => Rgba { r: 20, g: 80, b: 50, a: 100 },
            UpgradeKind::MaxHealth => Rgba { r: 20, g: 90, b: 30, a: 100 },
            UpgradeKind::Magnet => Rgba { r: 40, g: 50, b: 100, a: 100 },
            UpgradeKind::FireRange => Rgba { r: 60, g: 30, b: 100, a: 100 },
        }
    }
}

/// Every upgrade, in card order.
pub open spec fn spec_all_upgrades() -> Seq<UpgradeKind> {
    seq![
        UpgradeKind::AttackSpeed,
        UpgradeKind::AttackDamage,
        UpgradeKind::MoveSpeed,
        UpgradeKind::MaxHealth,
        UpgradeKind::Magnet,
        UpgradeKind::FireRange,
    ]
}

/// Every upgrade, in card order.
pub fn all_upgrades() -> (v: Vec<UpgradeKind>)
    ensures
        v@ == spec_all_upgrades(),
{
    let v = vec![
        UpgradeKind::AttackSpeed,
        UpgradeKind::AttackDamage,
        UpgradeKind::MoveSpeed,
        UpgradeKind::MaxHealth,
        UpgradeKind::Magnet,
        UpgradeKind::FireRange,
    ];
    assert(v@ =~= spec_all_upgrades());
    v
}

/// Puts the pool in a random order with the thread-local generator
/// (`rand::seq::SliceRandom::shuffle` under `rand::thread_rng`, which
/// swaps elements pairwise). Claimed: the pool keeps the same upgrades,
/// each as often as before. The order rests on chance and is not stated.
#[verifier::external_body]
fn shuffle_pool(pool: &mut Vec<UpgradeKind>)
    ensures
        final(pool)@.to_multiset() == old(pool)@.to_multiset(),
{
    pool.shuffle(&mut rand::thread_rng());
}

/// The upgrades offered on a level-up: the first `OFFERED_UPGRADES`
/// of the shuffled list of all upgrades, so three different upgrades.
pub fn offer_upgrades() -> (offer: Vec<UpgradeKind>)
    ensures
        offer@.len() == OFFERED_UPGRADES,
        offer@.no_duplicates(),
        forall|i: int| 0 <= i < offer@.len() ==> spec_all_upgrades().contains(#[trigger] offer@[i]),
{
    let mut pool = all_upgrades();
    shuffle_pool(&mut pool);
    proof {
        broadcast use vstd::seq_lib::group_to_multiset_ensures;
        let all = spec_all_upgrades();
        assert(all.no_duplicates());
        all.lemma_multiset_has_no_duplicates();
        assert(pool@.to_multiset() == all.to_multiset());
        pool@.lemma_multiset_has_no_duplicates_conv();
        assert(pool@.to_multiset().len() == all.to_multiset().len());
        assert(pool@.len() == all.len());
        assert forall|i: int| 0 <= i < pool@.len() implies all.contains(#[trigger] pool@[i]) by {
            assert(pool@.contains(pool@[i]));
            assert(pool@.to_multiset().count(pool@[i]) > 0);
        }
    }
    let mut offer: Vec<UpgradeKind> = Vec::new();
    let mut i: usize = 0;
    while i < OFFERED_UPGRADES
        invariant
            i <= OFFERED_UPGRADES,
            pool@.len() == 6,
            pool@.no_duplicates(),
            forall|k: int| 0 <= k < pool@.len() ==> spec_all_upgrades().contains(#[trigger] pool@[k]),
            offer@ == pool@.take(i as int),
        decreases OFFERED_UPGRADES - i,
    {
        offer.push(pool[i]);
        i = i + 1;
        assert(offer@ =~= pool@.take(i as int));
    }
    offer
}

} // verus!
