use flyscene::bytes::{copy_bytes, encode_words_le};
use flyscene::model::{plan_mesh, plan_model, MeshInput, ModelError};

fn mesh(nv: usize, material_id: Option<usize>) -> MeshInput {
    let mut positions = Vec::new();
    let mut texcoords = Vec::new();
    let mut normals = Vec::new();
    for v in 0..nv as u32 {
        positions.extend_from_slice(&[v * 10, v * 10 + 1, v * 10 + 2]);
        texcoords.extend_from_slice(&[v * 10 + 3, v * 10 + 4]);
        normals.extend_from_slice(&[v * 10 + 5, v * 10 + 6, v * 10 + 7]);
    }
    MeshInput {
        name: String::from("part"),
        positions,
        texcoords,
        normals,
        indices: vec![0, 1, 2],
        material_id,
    }
}

#[test]
fn planning_interleaves_attributes_in_order() {
    let d = plan_mesh(mesh(2, Some(0)), 1).unwrap();
    assert_eq!(d.name, "part");
    assert_eq!(d.material_index, 0);
    assert_eq!(d.indices, vec![0, 1, 2]);
    assert_eq!(
        d.vertex_words,
        vec![0, 1, 2, 3, 4, 5, 6, 7, 10, 11, 12, 13, 14, 15, 16, 17],
    );
}

#[test]
fn missing_material_reference_defaults_to_zero() {
    let d = plan_mesh(mesh(1, None), 3).unwrap();
    assert_eq!(d.material_index, 0);
}

#[test]
fn truncated_positions_are_malformed() {
    let mut m = mesh(2, Some(0));
    m.positions.pop();
    assert_eq!(plan_mesh(m, 1).unwrap_err(), ModelError::MalformedGeometry);
}

#[test]
fn wrong_texcoord_count_is_malformed() {
    let mut m = mesh(2, Some(0));
    m.texcoords.push(9);
    assert_eq!(plan_mesh(m, 1).unwrap_err(), ModelError::MalformedGeometry);
}

#[test]
fn out_of_range_material_is_unknown() {
    assert_eq!(plan_mesh(mesh(1, Some(2)), 2).unwrap_err(), ModelError::UnknownMaterial);
}

#[test]
fn default_material_with_no_materials_is_unknown() {
    assert_eq!(plan_mesh(mesh(1, None), 0).unwrap_err(), ModelError::UnknownMaterial);
}

#[test]
fn plan_keeps_every_mesh_and_checks_every_material() {
    // Three geometry groups against two material records: three plans come
    // out, each naming a material below two.
    let inputs = vec![mesh(1, Some(1)), mesh(2, None), mesh(3, Some(0))];
    let plans = plan_model(inputs, 2).unwrap();
    assert_eq!(plans.len(), 3);
    assert_eq!(plans[0].material_index, 1);
    assert_eq!(plans[1].material_index, 0);
    assert_eq!(plans[2].material_index, 0);
    for p in &plans {
        assert!(p.material_index < 2);
    }
}

#[test]
fn planning_reports_the_first_failure() {
    let inputs = vec![mesh(1, Some(0)), mesh(1, Some(5)), mesh(1, None)];
    assert_eq!(plan_model(inputs, 1).unwrap_err(), ModelError::UnknownMaterial);
    let mut bad = mesh(1, Some(5));
    bad.normals.pop();
    let inputs = vec![bad, mesh(1, Some(9))];
    assert_eq!(plan_model(inputs, 1).unwrap_err(), ModelError::MalformedGeometry);
}

#[test]
fn words_encode_little_endian() {
    assert_eq!(encode_words_le(&vec![0x0403_0201]), vec![1, 2, 3, 4]);
    assert_eq!(
        encode_words_le(&vec![0xdead_beef, 0x0000_00ff]),
        vec![0xef, 0xbe, 0xad, 0xde, 0xff, 0, 0, 0],
    );
    assert_eq!(encode_words_le(&Vec::new()), Vec::<u8>::new());
}

#[test]
fn byte_copies_are_exact() {
    let src: [u8; 5] = [9, 8, 7, 6, 5];
    assert_eq!(copy_bytes(&src), vec![9, 8, 7, 6, 5]);
    assert_eq!(copy_bytes(&[]), Vec::<u8>::new());
}
