use yulaven::enemy::{
    available_weight, pick_enemy_kind, spawn_batch, spawn_count, Enemy, EnemyKind, MAX_ENEMIES,
};

#[test]
fn only_specters_ignore_structures() {
    assert!(EnemyKind::Specter.ignores_structures());
    for k in [EnemyKind::Grunt, EnemyKind::Runner, EnemyKind::Brute, EnemyKind::Goblin] {
        assert!(!k.ignores_structures());
    }
}

#[test]
fn enemy_stat_table() {
    assert_eq!(EnemyKind::Grunt.base_health(), 3000);
    assert_eq!(EnemyKind::Brute.base_health(), 9000);
    assert_eq!(EnemyKind::Runner.base_speed(), 10000);
    assert_eq!(EnemyKind::Goblin.contact_damage(), 50);
    assert_eq!(EnemyKind::Runner.contact_damage(), 100);
    assert_eq!(EnemyKind::Goblin.xp_drop(), 1800);
    assert_eq!(EnemyKind::Specter.size(), (50, 60));
    let c = EnemyKind::Specter.color();
    assert_eq!((c.r, c.g, c.b, c.a), (10, 75, 85, 65));
}

#[test]
fn aggro_hysteresis() {
    let mut e = Enemy::default();
    assert!(!e.active);
    e.track_aggro(false, false);
    assert!(!e.active);
    e.track_aggro(true, false);
    assert!(e.active);
    e.track_aggro(false, false);
    assert!(e.active);
    e.track_aggro(false, true);
    assert!(!e.active);
}

#[test]
fn spawn_batches_grow_with_time() {
    assert_eq!(spawn_batch(0), 1);
    assert_eq!(spawn_batch(60), 1);
    assert_eq!(spawn_batch(61), 2);
    assert_eq!(spawn_batch(120), 2);
    assert_eq!(spawn_batch(121), 3);
    assert_eq!(spawn_count(3, MAX_ENEMIES - 1), 3);
    assert_eq!(spawn_count(3, MAX_ENEMIES), 0);
}

#[test]
fn spawn_table_unlocks() {
    assert_eq!(available_weight(0), 40);
    assert_eq!(available_weight(15), 60);
    assert_eq!(available_weight(59), 80);
    assert_eq!(available_weight(60), 92);
    assert_eq!(available_weight(90), 100);
    assert_eq!(pick_enemy_kind(0, 0), EnemyKind::Grunt);
    assert_eq!(pick_enemy_kind(14, 40), EnemyKind::Grunt);
    assert_eq!(pick_enemy_kind(15, 41), EnemyKind::Goblin);
    assert_eq!(pick_enemy_kind(30, 61), EnemyKind::Runner);
    assert_eq!(pick_enemy_kind(60, 92), EnemyKind::Specter);
    assert_eq!(pick_enemy_kind(95, 93), EnemyKind::Brute);
    assert_eq!(pick_enemy_kind(95, 100), EnemyKind::Brute);
    assert_eq!(pick_enemy_kind(10, 200), EnemyKind::Grunt);
}

/// The float roll drawn the way the game draws it picks an unlocked kind.
#[test]
fn float_rolls_pick_unlocked_kinds() {
    for secs in [0u32, 20, 45, 75, 200] {
        let total = available_weight(secs) as f32;
        let mut roll = 0.0f32;
        while roll < total {
            let kind = pick_enemy_kind(secs, roll.ceil() as u32);
            let unlock = match kind {
                EnemyKind::Grunt => 0,
                EnemyKind::Goblin => 15,
                EnemyKind::Runner => 30,
                EnemyKind::Specter => 60,
                EnemyKind::Brute => 90,
            };
            assert!(unlock <= secs);
            roll += 0.37;
        }
    }
}
