use encue::fade_plan;

#[test]
fn fade_80_to_20_schedules_sixty_steps() {
    // |80 - 20| = 60 one-unit steps over 1000ms: ~16.6ms apiece.
    let plan = fade_plan(80, 20, 1000);
    assert_eq!(plan.steps(), 60);
    assert_eq!(plan.rate_micros, 16_666);
    assert_eq!(plan.volume_at(0), 80);
    assert_eq!(plan.volume_at(1), 79);
    assert_eq!(plan.volume_at(60), 20);
    assert!(!plan.stops_sink());
}

#[test]
fn fade_ramp_is_monotone() {
    let down = fade_plan(80, 20, 1000);
    for i in 1..=down.steps() {
        assert!(down.volume_at(i) < down.volume_at(i - 1));
    }
    let up = fade_plan(5, 30, 500);
    assert_eq!(up.steps(), 25);
    for i in 1..=up.steps() {
        assert!(up.volume_at(i) > up.volume_at(i - 1));
    }
}

#[test]
fn fade_to_zero_stops_the_sink() {
    let plan = fade_plan(65, 0, 2000);
    assert_eq!(plan.steps(), 65);
    assert!(plan.stops_sink());
}

#[test]
fn fade_with_no_distance_is_a_single_jump() {
    // Zero steps: the duration is irrelevant and kept whole.
    let plan = fade_plan(40, 40, 700);
    assert_eq!(plan.steps(), 0);
    assert_eq!(plan.rate_micros, 700_000);
    assert_eq!(plan.volume_at(0), 40);
}
