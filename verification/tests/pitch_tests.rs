use flyte_core::model::Flute;

fn flute_with_holes(holes: &[(i64, i64, bool)]) -> Flute {
    let mut flute = Flute::new(60_000_000, 950_000, 400_000);
    let positions: Vec<Option<i64>> = holes.iter().map(|h| Some(h.0)).collect();
    let radii: Vec<Option<i64>> = holes.iter().map(|h| Some(h.1)).collect();
    let open: Vec<bool> = holes.iter().map(|h| h.2).collect();
    flute.set_holes(&positions, &radii, &open).unwrap();
    flute
}

#[test]
fn traversal_snapshot_is_sorted_foot_to_embouchure() {
    let flute = flute_with_holes(&[
        (10_000_000, 300_000, true),
        (30_000_000, 300_000, true),
        (20_000_000, 300_000, true),
    ]);
    let snapshot = flute.traversal_snapshot();
    assert_eq!(snapshot.len(), 3);
    assert_eq!(snapshot[0].position, 30_000_000);
    assert_eq!(snapshot[1].position, 20_000_000);
    assert_eq!(snapshot[2].position, 10_000_000);
}

#[test]
fn pitch_path_leaves_stored_hole_order_untouched() {
    let mut flute = flute_with_holes(&[
        (10_000_000, 300_000, true),
        (30_000_000, 300_000, true),
        (20_000_000, 300_000, true),
    ]);
    assert_eq!(flute.holes[0].position, 10_000_000);
    assert_eq!(flute.holes[1].position, 30_000_000);
    assert_eq!(flute.holes[2].position, 20_000_000);

    let _snapshot = flute.traversal_snapshot();
    let _guess = flute.pitch_guess_millihertz();

    assert_eq!(flute.holes[0].position, 10_000_000, "Hole 0 moved!");
    assert_eq!(flute.holes[1].position, 30_000_000, "Hole 1 moved!");
    assert_eq!(flute.holes[2].position, 20_000_000, "Hole 2 moved!");
    flute.update_hole(0, Some(10_000_000), Some(300_000), true).unwrap();
    assert_eq!(flute.holes[0].position, 10_000_000);
}

#[test]
fn snapshot_keeps_duplicate_positions() {
    let flute = flute_with_holes(&[
        (20_000_000, 300_000, true),
        (20_000_000, 250_000, false),
        (5_000_000, 200_000, true),
    ]);
    let snapshot = flute.traversal_snapshot();
    assert_eq!(snapshot.len(), 3);
    assert_eq!(snapshot[0].position, 20_000_000);
    assert_eq!(snapshot[1].position, 20_000_000);
    assert_eq!(snapshot[2].position, 5_000_000);
    let radii: Vec<i64> = snapshot.iter().map(|h| h.radius).collect();
    assert!(radii.contains(&300_000) && radii.contains(&250_000));
}

#[test]
fn traversal_plan_gives_segment_distances_in_order() {
    let flute = flute_with_holes(&[
        (10_000_000, 300_000, true),
        (30_000_000, 300_000, true),
        (20_000_000, 300_000, true),
    ]);
    let plan = flute.traversal_plan();
    assert_eq!(plan.steps.len(), 3);
    // Foot at 60 cm, holes met at 30, 20, 10 cm.
    assert_eq!(plan.steps[0].hole.position, 30_000_000);
    assert_eq!(plan.steps[0].distance, 30_000_000);
    assert_eq!(plan.steps[1].hole.position, 20_000_000);
    assert_eq!(plan.steps[1].distance, 10_000_000);
    assert_eq!(plan.steps[2].hole.position, 10_000_000);
    assert_eq!(plan.steps[2].distance, 10_000_000);
    assert_eq!(plan.final_distance, 10_000_000);
}

#[test]
fn traversal_plan_skips_segments_behind_the_station() {
    // A hole past the foot and one at a negative position: no segment is
    // propagated for the first, and the plan never goes negative.
    let flute = flute_with_holes(&[(70_000_000, 300_000, true), (-5_000_000, 300_000, true)]);
    let plan = flute.traversal_plan();
    assert_eq!(plan.steps[0].hole.position, 70_000_000);
    assert_eq!(plan.steps[0].distance, 0);
    assert_eq!(plan.steps[1].hole.position, -5_000_000);
    assert_eq!(plan.steps[1].distance, 75_000_000);
    assert_eq!(plan.final_distance, 0);
}

#[test]
fn default_guess_for_plain_tube_is_half_wave() {
    // 60 cm tube, 0.95 cm bore: effective length 60.5795 cm,
    // 17_250_000_000_000 / 60_579_500 = 284_749 mHz (about 284.7 Hz).
    let flute = Flute::new(60_000_000, 950_000, 400_000);
    assert_eq!(flute.pitch_guess_millihertz(), 284_749);
}

#[test]
fn default_guess_for_sixty_cm_tube_sits_in_expected_band() {
    let flute = Flute::new(60_000_000, 950_000, 400_000);
    let guess = flute.pitch_guess_millihertz();
    assert!(guess > 250_000 && guess < 320_000, "guess {} out of band", guess);
}

#[test]
fn guess_tracks_known_tube_lengths() {
    // Half-wave lengths of C4 and A4: 66.1 cm and 39.2 cm.
    let c4 = Flute::new(66_100_000, 950_000, 400_000);
    assert_eq!(c4.pitch_guess_millihertz(), 258_700);
    let a4 = Flute::new(39_200_000, 950_000, 400_000);
    assert_eq!(a4.pitch_guess_millihertz(), 433_640);
}

#[test]
fn opening_hole_raises_default_guess() {
    let closed = Flute::new(60_000_000, 950_000, 400_000);
    let base = closed.pitch_guess_millihertz();
    let opened = flute_with_holes(&[(30_000_000, 300_000, true)]);
    let raised = opened.pitch_guess_millihertz();
    assert!(
        raised > base,
        "guess did not increase after opening a hole ({} -> {})",
        base,
        raised
    );
    assert_eq!(raised, 564_103);
}

#[test]
fn closed_hole_does_not_change_default_guess() {
    let closed = Flute::new(60_000_000, 950_000, 400_000);
    let with_closed_hole = flute_with_holes(&[(30_000_000, 300_000, false)]);
    assert_eq!(
        closed.pitch_guess_millihertz(),
        with_closed_hole.pitch_guess_millihertz()
    );
}

#[test]
fn estimate_hole_position_matches_inverse_formula() {
    // 440 Hz target, 0.3 cm hole in a 0.95 cm bore with 0.4 cm wall:
    // 39.204545 cm half-wave length minus 8.523611 cm end correction.
    let flute = Flute::new(60_000_000, 950_000, 400_000);
    assert_eq!(flute.estimate_hole_position(440_000, 300_000), Some(30_680_934));
}

#[test]
fn estimate_hole_position_rejects_non_positive_inputs() {
    let flute = Flute::new(60_000_000, 950_000, 400_000);
    assert_eq!(flute.estimate_hole_position(0, 300_000), None);
    assert_eq!(flute.estimate_hole_position(-440_000, 300_000), None);
    assert_eq!(flute.estimate_hole_position(440_000, 0), None);
    assert_eq!(flute.estimate_hole_position(440_000, -300_000), None);
}

#[test]
fn pitch_path_survives_fuzzed_hole_configurations() {
    // Deterministic linear congruential generator.
    let mut seed: u32 = 123456789;
    let mut rand = move || {
        seed = seed.wrapping_mul(1103515245).wrapping_add(12345) & 0x7fffffff;
        seed
    };

    let mut flute = Flute::new(60_000_000, 950_000, 400_000);
    let mut holes: Vec<(i64, i64, bool)> = Vec::new();
    for _ in 0..6 {
        holes.push((30_000_000, 350_000, true));
    }

    for _ in 0..1000 {
        for hole in holes.iter_mut() {
            // Positions from -50 cm to 150 cm, far beyond the bore.
            hole.0 = (rand() as i64 % 200_000_000) - 50_000_000;
            hole.1 = (rand() as i64 % 500_000) + 100_000;
            hole.2 = rand() % 2 == 0;
        }
        let positions: Vec<Option<i64>> = holes.iter().map(|h| Some(h.0)).collect();
        let radii: Vec<Option<i64>> = holes.iter().map(|h| Some(h.1)).collect();
        let open: Vec<bool> = holes.iter().map(|h| h.2).collect();
        flute.set_holes(&positions, &radii, &open).unwrap();

        let snapshot = flute.traversal_snapshot();
        assert_eq!(snapshot.len(), 6);
        for w in snapshot.windows(2) {
            assert!(w[0].position >= w[1].position);
        }
        let _guess = flute.pitch_guess_millihertz();
        let _estimate = flute.estimate_hole_position(440_000, 300_000);
        for (stored, wanted) in flute.holes.iter().zip(holes.iter()) {
            assert_eq!(stored.position, wanted.0);
        }
    }
}
