use energenie::transmitter::Energenie;
use energenie::transmitter::Step;
use energenie::transmitter::decode_levels;
use energenie::transmitter::off_code;
use energenie::transmitter::on_code;
use energenie::transmitter::HOLD_MS;
use energenie::transmitter::SETTLE_MS;

fn expected_plan(code: u8) -> Vec<Step> {
    vec![
        Step::DriveData { line: 0, level: code & 1 != 0 },
        Step::DriveData { line: 1, level: code & 2 != 0 },
        Step::DriveData { line: 2, level: code & 4 != 0 },
        Step::DriveData { line: 3, level: code & 8 != 0 },
        Step::Settle { ms: 100 },
        Step::EnableHigh,
        Step::Hold { ms: 250 },
        Step::EnableLow,
    ]
}

#[test]
fn on_codes_are_16_minus_id() {
    assert_eq!(on_code(1), 15);
    assert_eq!(on_code(2), 14);
    assert_eq!(on_code(3), 13);
    assert_eq!(on_code(4), 12);
}

#[test]
fn off_codes_are_8_minus_id() {
    assert_eq!(off_code(1), 7);
    assert_eq!(off_code(2), 6);
    assert_eq!(off_code(3), 5);
    assert_eq!(off_code(4), 4);
}

#[test]
fn code_ranges_are_disjoint_and_unique() {
    let on: Vec<u8> = (1..=4).map(on_code).collect();
    let off: Vec<u8> = (1..=4).map(off_code).collect();
    for &a in &on {
        assert!((12..=15).contains(&a));
        for &b in &off {
            assert_ne!(a, b);
        }
    }
    for &b in &off {
        assert!((4..=7).contains(&b));
    }
    for i in 0..4 {
        for j in 0..4 {
            if i != j {
                assert_ne!(on[i], on[j]);
                assert_ne!(off[i], off[j]);
            }
        }
    }
}

#[test]
fn new_transmitter_is_silenced() {
    let t = Energenie::new();
    assert!(!t.enable);
    assert!(!t.modsel);
    assert!(!t.d0 && !t.d1 && !t.d2 && !t.d3);
}

#[test]
fn send_code_drives_the_code_bits() {
    for code in 0u8..16 {
        let mut t = Energenie::new();
        let steps = t.send_code(code);
        assert_eq!(t.d0, code & 1 != 0);
        assert_eq!(t.d1, code & 2 != 0);
        assert_eq!(t.d2, code & 4 != 0);
        assert_eq!(t.d3, code & 8 != 0);
        assert!(!t.enable);
        assert_eq!(steps, expected_plan(code));
    }
}

#[test]
fn send_code_levels_decode_back() {
    for code in 0u8..16 {
        let mut t = Energenie::new();
        t.send_code(code);
        assert_eq!(decode_levels(t.d0, t.d1, t.d2, t.d3), code);
    }
}

#[test]
fn plan_blocks_at_least_350_ms_between_drive_and_disable() {
    let mut t = Energenie::new();
    let steps = t.send_code(13);
    let last_drive = steps
        .iter()
        .rposition(|s| matches!(s, Step::DriveData { .. }))
        .unwrap();
    let disable = steps.iter().position(|s| matches!(s, Step::EnableLow)).unwrap();
    assert!(last_drive < disable);
    let blocked: u64 = steps[last_drive..disable]
        .iter()
        .map(|s| match s {
            Step::Settle { ms } => *ms,
            Step::Hold { ms } => *ms,
            _ => 0,
        })
        .sum();
    assert!(blocked >= 350);
    assert_eq!(blocked, SETTLE_MS + HOLD_MS);
    let enable = steps.iter().position(|s| matches!(s, Step::EnableHigh)).unwrap();
    assert!(last_drive < enable && enable < disable);
}

#[test]
fn on_twice_is_idempotent() {
    for id in 1u8..=4 {
        let mut t = Energenie::new();
        let first = t.on(id);
        let after_first = t;
        let second = t.on(id);
        assert_eq!(t, after_first);
        assert_eq!(first, second);
        assert_eq!(first, expected_plan(16 - id));
    }
}

#[test]
fn off_twice_is_idempotent() {
    for id in 1u8..=4 {
        let mut t = Energenie::new();
        let first = t.off(id);
        let after_first = t;
        let second = t.off(id);
        assert_eq!(t, after_first);
        assert_eq!(first, second);
        assert_eq!(first, expected_plan(8 - id));
    }
}

#[test]
fn set_state_dispatches_to_on_and_off() {
    let mut t = Energenie::new();
    let on_plan = t.set_state(1, true);
    assert_eq!(on_plan, expected_plan(15));
    let off_plan = t.set_state(1, false);
    assert_eq!(off_plan, expected_plan(7));
    assert!(!t.d3 && t.d2 && t.d1 && t.d0);
}
