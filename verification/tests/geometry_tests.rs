use flyte_core::geometry::{generate_flute_mesh, GroupName, Mesh, CIRCLE_ONE};
use flyte_core::model::Flute;

fn circle_table(segments: usize) -> Vec<(i64, i64)> {
    let mut table = Vec::new();
    for i in 0..segments {
        let theta = 2.0 * std::f64::consts::PI * (i as f64) / (segments as f64);
        let c = (theta.cos() * CIRCLE_ONE as f64).round() as i64;
        let s = (theta.sin() * CIRCLE_ONE as f64).round() as i64;
        table.push((c, s));
    }
    table
}

#[test]
fn obj_string_renders_exact_records() {
    let mut mesh = Mesh::new();
    mesh.set_group(GroupName::TubeBody);
    let a = mesh.add_vertex(12345, -500, 0);
    let b = mesh.add_vertex(0, 0, 10000);
    let c = mesh.add_vertex(20000, 0, 0);
    assert_eq!((a, b, c), (1, 2, 3));
    mesh.add_face(&vec![1, 2, 3]);
    let expected = "# Flyte Architect Export\n\
                    o FluteProject\n\
                    v 1.2345 -0.0500 0.0000\n\
                    v 0.0000 0.0000 1.0000\n\
                    v 2.0000 0.0000 0.0000\n\
                    g TubeBody\n\
                    f 1 2 3\n";
    assert_eq!(mesh.to_obj_string(), expected);
}

#[test]
fn empty_groups_are_skipped_in_obj_output() {
    let mut mesh = Mesh::new();
    mesh.add_vertex(0, 0, 0);
    mesh.set_group(GroupName::HoleCutters);
    let out = mesh.to_obj_string();
    assert_eq!(out, "# Flyte Architect Export\no FluteProject\nv 0.0000 0.0000 0.0000\n");
    assert!(!out.contains("g "));
}

#[test]
fn set_group_only_opens_new_group_on_change() {
    let mut mesh = Mesh::new();
    mesh.set_group(GroupName::TubeBody);
    mesh.set_group(GroupName::TubeBody);
    mesh.set_group(GroupName::HoleCutters);
    assert_eq!(mesh.groups.len(), 3);
}

#[test]
fn flute_mesh_counts_follow_open_holes() {
    let mut flute = Flute::new(60_000_000, 950_000, 400_000);
    let positions = vec![Some(30_000_000), Some(20_000_000), Some(40_000_000)];
    let radii = vec![Some(300_000), Some(300_000), Some(250_000)];
    let open = vec![true, false, true];
    flute.set_holes(&positions, &radii, &open).unwrap();

    let body = circle_table(64);
    let cutter = circle_table(32);
    let mesh = generate_flute_mesh(&flute, &body, &cutter);

    // Tube body: 4 rings of 64; cutters: 2 rings of 32 per open hole and
    // for the embouchure cutter.
    assert_eq!(mesh.vertices.len(), 256 + 64 * 2 + 64);
    assert_eq!(mesh.groups.len(), 4);
    assert_eq!(mesh.groups[0].faces.len(), 0);
    assert_eq!(mesh.groups[1].faces.len(), 256);
    assert_eq!(mesh.groups[2].faces.len(), 34 * 2);
    assert_eq!(mesh.groups[3].faces.len(), 34);

    for group in &mesh.groups {
        for face in &group.faces {
            for &idx in face {
                assert!(1 <= idx && idx <= mesh.vertices.len());
            }
        }
    }

    // Tube body: the first quad stitches the left and right outer rings
    // (vertices 65..128 and 193..256), and the last quad of that band wraps
    // around to the rings' first segment.
    assert_eq!(mesh.groups[1].faces[0], vec![65, 66, 194, 193]);
    assert_eq!(mesh.groups[1].faces[63], vec![128, 65, 193, 256]);
    // The first open hole's cutter: rings at 257..288 and 289..320, stitched
    // unflipped, then a reversed bottom cap and an unreversed top cap.
    assert_eq!(mesh.groups[2].faces[0], vec![257, 289, 290, 258]);
    let bottom_cap = &mesh.groups[2].faces[32];
    assert_eq!(bottom_cap.len(), 32);
    assert_eq!(bottom_cap[0], 288);
    assert_eq!(bottom_cap[31], 257);
    let top_cap = &mesh.groups[2].faces[33];
    assert_eq!(top_cap[0], 289);
    assert_eq!(top_cap[31], 320);
}

#[test]
fn flute_mesh_obj_export_has_all_sections() {
    let mut flute = Flute::new(60_000_000, 950_000, 400_000);
    flute
        .set_holes(&vec![Some(30_000_000)], &vec![Some(300_000)], &vec![true])
        .unwrap();
    let mesh = generate_flute_mesh(&flute, &circle_table(64), &circle_table(32));
    let obj = mesh.to_obj_string();

    assert!(obj.starts_with("# Flyte Architect Export\no FluteProject\n"));
    assert!(obj.contains("g TubeBody\n"));
    assert!(obj.contains("g HoleCutters\n"));
    assert!(obj.contains("g MouthHoleCutter\n"));
    assert!(!obj.contains("g default"));

    let vertex_records = obj.lines().filter(|l| l.starts_with("v ")).count();
    assert_eq!(vertex_records, mesh.vertices.len());
    let face_records = obj.lines().filter(|l| l.starts_with("f ")).count();
    assert_eq!(face_records, 256 + 34 + 34);

    // The tube's far-end ring sits at the bore length: 60 cm.
    assert!(obj.contains("v 60.0000 "));
    // The left extension reaches 5 cm before the embouchure.
    assert!(obj.contains("v -5.0000 "));
    // Cutter rings run from half a centimetre inside the bore wall
    // (0.95 - 0.5 cm) to half a centimetre past it (0.95 + 0.4 + 0.5 cm).
    assert!(obj.contains(" 0.4500 "));
    assert!(obj.contains(" 1.8500 "));
    // The first cutter vertex sits on the open hole's centreline plus its
    // radius: 30 cm + 0.3 cm.
    assert!(obj.contains("v 30.3000 0.4500 0.0000\n"));
}
