use flyte_core::model::{
    Flute, FluteError, Hole, DEFAULT_CORK_POSITION, DEFAULT_EMBOUCHURE_CHIMNEY,
    DEFAULT_EMBOUCHURE_HOLE_RADIUS, DEFAULT_RADIUS, DIM_LIMIT, NEG_DIM_LIMIT,
};

fn some3(a: i64, b: i64, c: i64) -> Vec<Option<i64>> {
    vec![Some(a), Some(b), Some(c)]
}

#[test]
fn new_flute_has_defaults_and_no_holes() {
    let flute = Flute::new(60_000_000, 950_000, 400_000);
    assert_eq!(flute.length, 60_000_000);
    assert_eq!(flute.bore_radius, 950_000);
    assert_eq!(flute.wall_thickness, 400_000);
    assert!(flute.holes.is_empty());
    assert_eq!(flute.cork_position, DEFAULT_CORK_POSITION);
    assert_eq!(flute.embouchure_hole_radius, DEFAULT_EMBOUCHURE_HOLE_RADIUS);
    assert_eq!(flute.embouchure_chimney, DEFAULT_EMBOUCHURE_CHIMNEY);
}

#[test]
fn new_flute_clamps_extreme_dimensions() {
    let flute = Flute::new(i64::MAX, i64::MIN, 7);
    assert_eq!(flute.length, DIM_LIMIT);
    assert_eq!(flute.bore_radius, NEG_DIM_LIMIT);
    assert_eq!(flute.wall_thickness, 7);
}

#[test]
fn set_holes_replaces_collection_in_order() {
    let mut flute = Flute::new(60_000_000, 950_000, 400_000);
    let positions = some3(10_000_000, 30_000_000, 20_000_000);
    let radii = some3(300_000, 300_000, 300_000);
    let open = vec![true, false, true];
    assert!(flute.set_holes(&positions, &radii, &open).is_ok());
    assert_eq!(flute.holes.len(), 3);
    assert_eq!(flute.holes[0].position, 10_000_000);
    assert_eq!(flute.holes[1].position, 30_000_000);
    assert_eq!(flute.holes[2].position, 20_000_000);
    assert!(flute.holes[0].open);
    assert!(!flute.holes[1].open);
    assert!(flute.holes[2].open);
}

#[test]
fn set_holes_length_mismatch_is_reported_and_keeps_state() {
    let mut flute = Flute::new(60_000_000, 950_000, 400_000);
    let positions = some3(10_000_000, 30_000_000, 20_000_000);
    let radii = some3(300_000, 300_000, 300_000);
    let open = vec![true, false, true];
    assert!(flute.set_holes(&positions, &radii, &open).is_ok());

    let short_radii = vec![Some(300_000), Some(300_000)];
    let result = flute.set_holes(&positions, &short_radii, &open);
    assert_eq!(result, Err(FluteError::LengthMismatch));
    assert_eq!(flute.holes.len(), 3);
    assert_eq!(flute.holes[1].position, 30_000_000);

    let short_open = vec![true];
    let result = flute.set_holes(&positions, &radii, &short_open);
    assert_eq!(result, Err(FluteError::LengthMismatch));
    assert_eq!(flute.holes.len(), 3);
}

#[test]
fn set_holes_sanitizes_absent_readings() {
    let mut flute = Flute::new(60_000_000, 950_000, 400_000);
    let positions = vec![None, Some(25_000_000)];
    let radii = vec![Some(200_000), None];
    let open = vec![true, true];
    assert!(flute.set_holes(&positions, &radii, &open).is_ok());
    assert_eq!(flute.holes[0].position, 0);
    assert_eq!(flute.holes[0].radius, 200_000);
    assert_eq!(flute.holes[1].position, 25_000_000);
    assert_eq!(flute.holes[1].radius, DEFAULT_RADIUS);
}

#[test]
fn set_holes_tolerates_out_of_range_geometry() {
    let mut flute = Flute::new(60_000_000, 950_000, 400_000);
    let positions = vec![Some(-50_000_000), Some(150_000_000)];
    let radii = vec![Some(-300_000), Some(600_000)];
    let open = vec![true, false];
    assert!(flute.set_holes(&positions, &radii, &open).is_ok());
    assert_eq!(flute.holes[0].position, -50_000_000);
    assert_eq!(flute.holes[0].radius, -300_000);
    assert_eq!(flute.holes[1].position, 150_000_000);
}

#[test]
fn update_hole_rewrites_one_entry() {
    let mut flute = Flute::new(60_000_000, 950_000, 400_000);
    let positions = some3(10_000_000, 30_000_000, 20_000_000);
    let radii = some3(300_000, 300_000, 300_000);
    let open = vec![true, true, true];
    assert!(flute.set_holes(&positions, &radii, &open).is_ok());

    assert!(flute
        .update_hole(1, Some(35_000_000), Some(250_000), false)
        .is_ok());
    assert_eq!(flute.holes[0].position, 10_000_000);
    assert_eq!(flute.holes[1].position, 35_000_000);
    assert_eq!(flute.holes[1].radius, 250_000);
    assert!(!flute.holes[1].open);
    assert_eq!(flute.holes[2].position, 20_000_000);
}

#[test]
fn update_hole_index_out_of_bounds_is_reported() {
    let mut flute = Flute::new(60_000_000, 950_000, 400_000);
    let positions = some3(10_000_000, 30_000_000, 20_000_000);
    let radii = some3(300_000, 300_000, 300_000);
    let open = vec![true, true, true];
    assert!(flute.set_holes(&positions, &radii, &open).is_ok());

    let result = flute.update_hole(3, Some(1_000_000), Some(100_000), true);
    assert_eq!(result, Err(FluteError::IndexOutOfBounds));
    assert_eq!(flute.holes.len(), 3);
    assert_eq!(flute.holes[2].position, 20_000_000);

    let empty = &mut Flute::new(60_000_000, 950_000, 400_000);
    assert_eq!(
        empty.update_hole(0, Some(0), Some(100_000), true),
        Err(FluteError::IndexOutOfBounds)
    );
}

#[test]
fn update_hole_sanitizes_absent_readings() {
    let mut flute = Flute::new(60_000_000, 950_000, 400_000);
    let positions = vec![Some(10_000_000)];
    let radii = vec![Some(300_000)];
    let open = vec![true];
    assert!(flute.set_holes(&positions, &radii, &open).is_ok());

    assert!(flute.update_hole(0, None, None, false).is_ok());
    assert_eq!(
        flute.holes[0],
        Hole { position: 0, radius: DEFAULT_RADIUS, open: false }
    );
}
