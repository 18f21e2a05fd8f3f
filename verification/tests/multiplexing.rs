use fan_controller::multiplex::{Arbiter, CONTROLLER_SOURCES, SESSION_SOURCES};

#[test]
fn source_counts() {
    assert_eq!(CONTROLLER_SOURCES, 4);
    assert_eq!(SESSION_SOURCES, 3);
}

#[test]
fn new_arbiter_gives_precedence_to_the_first_source() {
    assert_eq!(Arbiter::new(4), Arbiter { sources: 4, next: 0 });
}

#[test]
fn nothing_ready_picks_nothing() {
    let mut arbiter = Arbiter { sources: 4, next: 2 };
    assert_eq!(arbiter.pick(&[false; 4]), None);
    assert_eq!(arbiter, Arbiter { sources: 4, next: 2 });
    assert_eq!(arbiter.pick(&[]), None);
}

#[test]
fn the_only_ready_source_is_picked() {
    for next in 0..4 {
        for ready in 0..4 {
            let mut marks = [false; 4];
            marks[ready] = true;
            let mut arbiter = Arbiter { sources: 4, next };
            assert_eq!(arbiter.pick(&marks), Some(ready));
            assert_eq!(arbiter.next, (ready + 1) % 4);
        }
    }
}

#[test]
fn precedence_rotates_when_all_are_ready() {
    let mut arbiter = Arbiter::new(CONTROLLER_SOURCES);
    let mut served = Vec::new();
    for _ in 0..8 {
        served.push(arbiter.pick(&[true; 4]).expect("all are ready"));
    }
    assert_eq!(served, vec![0, 1, 2, 3, 0, 1, 2, 3]);
}

#[test]
fn pick_wraps_around_the_end() {
    let mut arbiter = Arbiter { sources: 3, next: 2 };
    assert_eq!(arbiter.pick(&[true, true, false]), Some(0));
    assert_eq!(arbiter.next, 1);
    assert_eq!(arbiter.pick(&[true, false, true]), Some(2));
    assert_eq!(arbiter.next, 0);
}

#[test]
fn marks_beyond_the_sources_are_not_looked_at() {
    let mut arbiter = Arbiter::new(2);
    assert_eq!(arbiter.pick(&[false, false, true, true]), None);
    let mut short = Arbiter { sources: 3, next: 1 };
    assert_eq!(short.pick(&[true]), Some(0));
}

#[test]
fn a_source_that_stays_ready_is_served_within_one_round() {
    for sources in 1..=4usize {
        for next in 0..sources {
            for waiting in 0..sources {
                for others in 0..(1u32 << (sources * sources)) {
                    if sources == 4 && others % 97 != 0 {
                        continue;
                    }
                    let mut arbiter = Arbiter { sources, next };
                    let mut served = false;
                    for round in 0..sources {
                        let mut marks = vec![false; sources];
                        for source in 0..sources {
                            marks[source] = others >> (round * sources + source) & 1 == 1;
                        }
                        marks[waiting] = true;
                        if arbiter.pick(&marks) == Some(waiting) {
                            served = true;
                            break;
                        }
                    }
                    assert!(served, "{} sources, next {}, waiting {}", sources, next, waiting);
                }
            }
        }
    }
}
