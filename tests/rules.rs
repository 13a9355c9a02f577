use life2d::{Rules, RULE_COUNT};

fn at(index: usize) -> Rules {
    let mut r = Rules::default();
    r.set_rule(index);
    r
}

#[test]
fn default_is_conways_life() {
    let r = Rules::default();
    assert_eq!(r.index(), 0);
    assert_eq!(r.name(), "Conway's Life");
}

#[test]
fn conway_birth_and_survival_tables() {
    let r = Rules::default();
    for count in 0..=8usize {
        assert_eq!(r.eval(false, count), count == 3, "birth at {count}");
        assert_eq!(r.eval(true, count), count == 2 || count == 3, "survival at {count}");
    }
}

#[test]
fn every_rule_answers_every_count() {
    for index in 0..RULE_COUNT {
        let r = at(index);
        for count in 0..=8usize {
            let _ = r.eval(false, count);
            let _ = r.eval(true, count);
        }
    }
}

#[test]
fn catalog_names_in_order() {
    let names = [
        "Conway's Life",
        "3-4 Life",
        "Replicator",
        "Seeds",
        "Long Life",
        "Parallels",
        "A-maze-ing",
        "No Death",
        "Day & Night",
        "Walled Cities",
    ];
    assert_eq!(RULE_COUNT, names.len());
    for (i, name) in names.iter().enumerate() {
        assert_eq!(at(i).name(), *name);
    }
}

#[test]
fn sample_tables_of_other_rules() {
    let seeds = at(3);
    assert!(seeds.eval(false, 2));
    assert!(!seeds.eval(false, 3));
    for count in 0..=8usize {
        assert!(!seeds.eval(true, count));
    }
    let no_death = at(7);
    for count in 0..=8usize {
        assert!(no_death.eval(true, count));
    }
    let walled = at(9);
    assert!(walled.eval(true, 7));
    assert!(!walled.eval(true, 6));
    assert!(walled.eval(false, 8));
    assert!(!walled.eval(false, 3));
    let day_night = at(8);
    assert!(day_night.eval(false, 6));
    assert!(!day_night.eval(false, 5));
}

#[test]
fn next_wraps_from_last_to_first() {
    let mut r = at(RULE_COUNT - 1);
    r.next_rule();
    assert_eq!(r.index(), 0);
}

#[test]
fn prev_wraps_from_first_to_last() {
    let mut r = Rules::default();
    r.prev_rule();
    assert_eq!(r.index(), RULE_COUNT - 1);
    assert_eq!(r.name(), "Walled Cities");
}

#[test]
fn full_cycle_returns_to_start() {
    for start in 0..RULE_COUNT {
        let mut r = at(start);
        for _ in 0..RULE_COUNT {
            r.next_rule();
        }
        assert_eq!(r.index(), start);
    }
}

#[test]
fn next_then_prev_is_identity() {
    let mut r = at(4);
    r.next_rule();
    assert_eq!(r.index(), 5);
    r.prev_rule();
    assert_eq!(r.index(), 4);
}

#[test]
fn set_rule_takes_value_modulo_catalog() {
    assert_eq!(at(23).index(), 3);
    assert_eq!(at(usize::MAX).index(), usize::MAX % RULE_COUNT);
}

#[test]
fn reset_returns_to_first() {
    let mut r = at(6);
    r.reset_rules();
    assert_eq!(r.index(), 0);
}

#[test]
fn random_rule_stays_in_catalog() {
    let mut r = Rules::default();
    for _ in 0..100 {
        r.random_rule();
        assert!(r.index() < RULE_COUNT);
    }
}
