use yulaven::upgrade::{all_upgrades, offer_upgrades, UpgradeKind, OFFERED_UPGRADES};

#[test]
fn upgrade_cards() {
    assert_eq!(UpgradeKind::AttackSpeed.label(), "⚡ Attack Speed");
    assert_eq!(UpgradeKind::MaxHealth.description(), "+25 maximum HP");
    assert_eq!(UpgradeKind::Magnet.description(), "+25% gem magnet radius");
    let c = UpgradeKind::AttackDamage.accent_color();
    assert_eq!((c.r, c.g, c.b), (100, 30, 10));
    assert_eq!(all_upgrades().len(), 6);
}

#[test]
fn offers_three_different_upgrades() {
    let all = all_upgrades();
    for _ in 0..200 {
        let offer = offer_upgrades();
        assert_eq!(offer.len(), OFFERED_UPGRADES);
        for (i, a) in offer.iter().enumerate() {
            assert!(all.contains(a));
            for b in &offer[i + 1..] {
                assert_ne!(a, b);
            }
        }
    }
}

#[test]
fn every_upgrade_gets_offered() {
    let mut seen = Vec::new();
    for _ in 0..500 {
        for u in offer_upgrades() {
            if !seen.contains(&u) {
                seen.push(u);
            }
        }
    }
    assert_eq!(seen.len(), 6);
}
