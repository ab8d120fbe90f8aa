use glam::Vec3;
use model_viewer::mesh::{assemble, GeometryLoadError, Mesh, SubMesh};
use model_viewer::mtl::check_colours;
use model_viewer::obj::{check_references, load_obj, material_libraries};

fn word(x: f32) -> u32 {
    x.to_bits()
}

fn triangle(origin: f32) -> SubMesh {
    SubMesh {
        positions: vec![
            Vec3::new(origin, 0.0, 0.0),
            Vec3::new(origin + 1.0, 0.0, 0.0),
            Vec3::new(origin, 1.0, 0.0),
        ],
        normals: vec![],
        indices: vec![0, 1, 2],
    }
}

#[test]
fn empty_model_gives_empty_mesh() {
    let mesh = assemble(&vec![]).unwrap();
    assert!(mesh.vertices().is_empty());
    assert!(mesh.indices().is_empty());
    assert_eq!(mesh.vertex_count(), 0);
}

#[test]
fn vertex_is_position_then_normal() {
    let sub = SubMesh {
        positions: vec![Vec3::new(1.0, 2.0, 3.0)],
        normals: vec![Vec3::new(4.0, 5.0, 6.0)],
        indices: vec![0, 0, 0],
    };
    let mesh = assemble(&vec![sub]).unwrap();
    assert_eq!(
        mesh.vertices(),
        &vec![word(1.0), word(2.0), word(3.0), word(4.0), word(5.0), word(6.0)]
    );
    assert_eq!(mesh.indices(), &vec![0, 0, 0]);
}

#[test]
fn missing_normals_are_synthesized() {
    let mesh = assemble(&vec![triangle(0.0)]).unwrap();
    assert_eq!(mesh.vertices().len(), 18);
    for v in 0..3 {
        assert_eq!(mesh.vertices()[6 * v + 3], word(0.0));
        assert_eq!(mesh.vertices()[6 * v + 4], word(0.0));
        assert_eq!(mesh.vertices()[6 * v + 5], word(1.0));
    }
    assert_eq!(mesh.vertices()[6], word(1.0));
    assert_eq!(mesh.vertices()[13], word(1.0));
}

#[test]
fn indices_of_a_later_submesh_are_raised_by_the_vertices_before_it() {
    let a = triangle(0.0);
    let b = SubMesh {
        positions: vec![
            Vec3::new(0.0, 0.0, 1.0),
            Vec3::new(1.0, 0.0, 1.0),
            Vec3::new(0.0, 1.0, 1.0),
            Vec3::new(1.0, 1.0, 1.0),
        ],
        normals: vec![],
        indices: vec![0, 1, 2, 2, 1, 3],
    };
    let mesh = assemble(&vec![a, b]).unwrap();
    assert_eq!(mesh.vertex_count(), 7);
    assert_eq!(mesh.vertices().len(), 6 * 7);
    assert_eq!(mesh.indices(), &vec![0, 1, 2, 3, 4, 5, 5, 4, 6]);
    assert_eq!(mesh.indices().len() % 3, 0);
    for i in mesh.indices() {
        assert!((*i as usize) < mesh.vertex_count());
    }
    assert_eq!(mesh.vertices()[6 * 6], word(1.0));
    assert_eq!(mesh.vertices()[6 * 6 + 2], word(1.0));
}

#[test]
fn append_raises_indices_and_keeps_the_mesh_on_error() {
    let mut mesh = Mesh::new();
    assert_eq!(mesh.append(&triangle(0.0)), Ok(()));
    assert_eq!(mesh.append(&triangle(2.0)), Ok(()));
    assert_eq!(mesh.indices(), &vec![0, 1, 2, 3, 4, 5]);
    let bad = SubMesh { positions: vec![Vec3::ZERO], normals: vec![], indices: vec![0, 0, 1] };
    assert_eq!(mesh.append(&bad), Err(GeometryLoadError::IndexOutOfRange));
    assert_eq!(mesh.indices(), &vec![0, 1, 2, 3, 4, 5]);
    assert_eq!(mesh.vertices().len(), 36);
}

#[test]
fn partial_triangle_is_rejected() {
    let sub = SubMesh { positions: vec![Vec3::ZERO], normals: vec![], indices: vec![0, 0] };
    assert_eq!(sub.check(), Some(GeometryLoadError::PartialTriangle));
    assert_eq!(assemble(&vec![sub]).err(), Some(GeometryLoadError::PartialTriangle));
}

#[test]
fn index_out_of_range_is_rejected() {
    let sub = SubMesh {
        positions: vec![Vec3::ZERO, Vec3::ONE],
        normals: vec![Vec3::X, Vec3::X],
        indices: vec![0, 1, 2],
    };
    assert_eq!(sub.check(), Some(GeometryLoadError::IndexOutOfRange));
    assert_eq!(assemble(&vec![sub]).err(), Some(GeometryLoadError::IndexOutOfRange));
}

#[test]
fn partial_normals_are_rejected() {
    let sub = SubMesh {
        positions: vec![Vec3::ZERO, Vec3::ONE],
        normals: vec![Vec3::X],
        indices: vec![0, 1, 1],
    };
    assert_eq!(sub.check(), Some(GeometryLoadError::PartialNormals));
    assert_eq!(assemble(&vec![sub]).err(), Some(GeometryLoadError::PartialNormals));
}

#[test]
fn sound_submesh_passes_the_check() {
    assert_eq!(triangle(0.0).check(), None);
}

#[test]
fn first_bad_submesh_decides_the_error() {
    let partial = SubMesh { positions: vec![Vec3::ZERO], normals: vec![], indices: vec![0] };
    let out_of_range = SubMesh { positions: vec![], normals: vec![], indices: vec![0, 0, 0] };
    let r = assemble(&vec![triangle(0.0), out_of_range, partial]);
    assert_eq!(r.err(), Some(GeometryLoadError::IndexOutOfRange));
}

#[test]
fn obj_text_with_normals_is_loaded() {
    let text = b"v 0 0 0\nv 1 0 0\nv 0 1 0\nvn 0 0 1\nf 1//1 2//1 3//1\n";
    let mesh = load_obj(text, b"").unwrap();
    assert_eq!(mesh.vertex_count(), 3);
    assert_eq!(mesh.indices(), &vec![0, 1, 2]);
    assert_eq!(
        &mesh.vertices()[6..12],
        &[word(1.0), word(0.0), word(0.0), word(0.0), word(0.0), word(1.0)]
    );
}

#[test]
fn obj_text_without_normals_gets_them_synthesized() {
    let text = b"v 0 0 0\nv 1 0 0\nv 0 1 0\nf 1 2 3\n";
    let mesh = load_obj(text, b"").unwrap();
    assert_eq!(mesh.vertices().len(), 18);
    assert_eq!(
        &mesh.vertices()[0..6],
        &[word(0.0), word(0.0), word(0.0), word(0.0), word(0.0), word(1.0)]
    );
}

#[test]
fn obj_quad_is_triangulated() {
    let text = b"v 0 0 0\nv 1 0 0\nv 1 1 0\nv 0 1 0\nf 1 2 3 4\n";
    let mesh = load_obj(text, b"").unwrap();
    assert_eq!(mesh.vertex_count(), 4);
    assert_eq!(mesh.indices(), &vec![0, 1, 2, 0, 2, 3]);
}

#[test]
fn obj_objects_are_concatenated() {
    let text = b"o a\nv 0 0 0\nv 1 0 0\nv 0 1 0\nf 1 2 3\no b\nv 0 0 1\nv 1 0 1\nv 0 1 1\nf 4 5 6\n";
    let mesh = load_obj(text, b"").unwrap();
    assert_eq!(mesh.vertex_count(), 6);
    assert_eq!(mesh.indices(), &vec![0, 1, 2, 3, 4, 5]);
    assert_eq!(mesh.vertices()[3 * 6 + 2], word(1.0));
}

#[test]
fn obj_relative_position_indices_are_accepted() {
    let text = b"v 0 0 0\nv 1 0 0\nv 0 1 0\nf -3 -2 -1\n";
    let mesh = load_obj(text, b"").unwrap();
    assert_eq!(mesh.indices(), &vec![0, 1, 2]);
}

#[test]
fn malformed_obj_text_is_a_parse_error() {
    let text = b"v 0 0\nf 1 2 3\n";
    assert_eq!(
        load_obj(text, b"").err(),
        Some(GeometryLoadError::Parse(tobj::LoadError::PositionParseError))
    );
    let face = b"v 0 0 0\nf 1 2 9\n";
    assert_eq!(
        load_obj(face, b"").err(),
        Some(GeometryLoadError::Parse(tobj::LoadError::FaceVertexOutOfBounds))
    );
}

#[test]
fn relative_normal_references_are_loaded() {
    let text = b"v 0 0 0\nv 1 0 0\nv 0 1 0\nvn 0 0 1\nf 1//-1 2//-1 3//-1\n";
    let mesh = load_obj(text, b"").unwrap();
    assert_eq!(mesh.vertex_count(), 3);
    assert_eq!(mesh.indices(), &vec![0, 1, 2]);
    assert_eq!(&mesh.vertices()[3..6], &[word(0.0), word(0.0), word(1.0)]);
}

#[test]
fn relative_references_of_all_three_kinds_are_loaded() {
    let text = b"v 0 0 0\nv 1 0 0\nv 0 1 0\nvt 0 0\nvt 1 0\nvt 0 1\nvn 0 0 1\nvn 0 1 0\nf -3/-3/-2 -2/-2/-2 -1/-1/-1\n";
    let mesh = load_obj(text, b"").unwrap();
    assert_eq!(mesh.vertex_count(), 3);
    assert_eq!(&mesh.vertices()[3..6], &[word(0.0), word(0.0), word(1.0)]);
    assert_eq!(&mesh.vertices()[15..18], &[word(0.0), word(1.0), word(0.0)]);
}

#[test]
fn slash_in_a_comment_or_a_name_is_not_a_reference() {
    let text = b"# see docs/-draft and a/1234567890123\no parts/-7\nmtllib lib/+x.mtl\nv 0 0 0\nv 1 0 0\nv 0 1 0\nf 1 2 3\n";
    assert!(check_references(text));
    let mesh = load_obj(text, b"").unwrap();
    assert_eq!(mesh.indices(), &vec![0, 1, 2]);
}

#[test]
fn reference_one_before_the_first_counts_as_none() {
    let text = b"v 0 0 0\nv 1 0 0\nv 0 1 0\nvn 0 1 0\nf 1//-2 2//-2 3//-2\n";
    let mesh = load_obj(text, b"").unwrap();
    assert_eq!(mesh.vertex_count(), 3);
    // No normal was referred to, so the normals are synthesized.
    assert_eq!(&mesh.vertices()[3..6], &[word(0.0), word(0.0), word(1.0)]);
}

#[test]
fn reference_further_back_than_its_list_is_unsupported() {
    let normal = b"v 0 0 0\nvn 0 0 1\nf 1//-3 1//-1 1//-1\n";
    assert_eq!(load_obj(normal, b"").err(), Some(GeometryLoadError::UnsupportedReference));
    let texture = b"v 0 0 0\nvn 0 0 1\nvn 0 0 1\nvt 0 0\nf 1/-3/-3 1/1/1 1/1/1\n";
    assert_eq!(load_obj(texture, b"").err(), Some(GeometryLoadError::UnsupportedReference));
    let later = b"v 0 0 0\nf 1//-2 1 1\nvn 0 0 1\nvn 0 0 1\n";
    assert_eq!(load_obj(later, b"").err(), Some(GeometryLoadError::UnsupportedReference));
}

#[test]
fn reference_of_ten_digits_is_unsupported() {
    let long = b"v 0 0 0\nvn 0 0 1\nf 1//1234567890 1//1 1//1\n";
    assert_eq!(load_obj(long, b"").err(), Some(GeometryLoadError::UnsupportedReference));
    let signed = b"v 0 0 0\nvn 0 0 1\nf 1//+1234567890 1//1 1//1\n";
    assert_eq!(load_obj(signed, b"").err(), Some(GeometryLoadError::UnsupportedReference));
}

#[test]
fn references_are_checked_in_face_lines_only() {
    assert!(check_references(b""));
    assert!(check_references(b"/"));
    assert!(check_references(b"f 1/2/3 -4/5/6"));
    assert!(check_references(b"f 1//999999999 2"));
    assert!(check_references(b"f 1//0000000000001"));
    assert!(check_references(b"f 1/+2"));
    assert!(check_references(b"f 1/-1"));
    assert!(check_references(b"f 1/-0"));
    assert!(check_references(b"f -9/1"));
    assert!(check_references(b"v -1.5 0.1234567890123 2"));
    assert!(check_references(b"g a/-5\nusemtl m/1234567890"));
    assert!(!check_references(b"f 1//1000000000"));
    assert!(!check_references(b"f 1/-2"));
    assert!(!check_references(b"l 1/-2"));
    assert!(!check_references(b"  \tf 1/-2"));
    assert!(!check_references(b"v 0 0 0\nf 1/-2\nv 0 0 0"));
}

#[test]
fn lines_of_texture_coordinates_and_normals_are_counted_apart() {
    assert!(check_references(b"vt 0 0\nvt 0 0\nf 1/-3"));
    assert!(!check_references(b"vt 0 0\nvt 0 0\nf 1/-4"));
    assert!(!check_references(b"vt 0 0\nvt 0 0\nf 1//-2"));
    assert!(check_references(b"vn 0 0 1\nvn 0 0 1\nf 1//-3"));
    assert!(!check_references(b"vn 0 0 1\nvn 0 0 1\nf 1/-2/1"));
    assert!(check_references(b"vn 0 0 1\nvt 0 0\nf 1/-2/-2"));
    // Behind a third slash, and where a byte beyond ASCII may part the
    // words anew, the shorter list decides.
    assert!(!check_references(b"vn 0 0 1\nvn 0 0 1\nf 1/1/1/-3"));
    assert!(!check_references("vn 0 0 1\nvn 0 0 1\nf 1/1\u{a0}1//-3".as_bytes()));
    assert!(check_references("vn 0 0 1\nvt 0 0\nf 1/1\u{a0}1//-2".as_bytes()));
    // A word that only begins like `vn` is no normal.
    assert!(!check_references(b"vnx 0 0 1\nf 1//-2"));
    assert!(!check_references(b"v 0 0 1\nf 1//-2"));
}

#[test]
fn byte_beyond_ascii_at_the_head_of_a_line_is_taken_for_white_space() {
    assert!(!check_references("\u{a0}f 1//-2".as_bytes()));
    assert!(check_references("\u{a0}f 1//-1".as_bytes()));
    assert!(check_references("# \u{a0}f 1//-2".as_bytes()));
}

#[test]
fn positions_with_nan_and_infinity_are_loaded() {
    let text = b"v inf 0 0 inf\nv nan 0 0\nv 0 1 0\nv 0 0 0\nv 1 0 0\nf 1 2 3\nf 3 4 5\n";
    let mesh = load_obj(text, b"").unwrap();
    assert_eq!(mesh.vertex_count(), 5);
    assert!(f32::from_bits(mesh.vertices()[0]).is_nan());
    assert!(f32::from_bits(mesh.vertices()[6]).is_nan());
    for v in 0..5 {
        for c in 3..6 {
            assert!(f32::from_bits(mesh.vertices()[6 * v + c]).is_finite());
        }
    }
    // Vertex 2 is part of both triangles; the NaN of the first spoils its sum.
    assert_eq!(&mesh.vertices()[15..18], &[0, 0, 0]);
    assert_eq!(&mesh.vertices()[21..24], &[word(0.0), word(0.0), word(1.0)]);
}

#[test]
fn obj_face_with_and_without_normal_reference_has_partial_normals() {
    let text = b"v 0 0 0\nv 1 0 0\nv 0 1 0\nvn 0 0 1\nf 1//1 2 3\n";
    assert_eq!(load_obj(text, b"").err(), Some(GeometryLoadError::PartialNormals));
}

#[test]
fn obj_references_out_of_range_are_parse_errors() {
    let normal = b"v 0 0 0\nvn 0 0 1\nf 1//999999999 1//1 1//1\n";
    assert_eq!(
        load_obj(normal, b"").err(),
        Some(GeometryLoadError::Parse(tobj::LoadError::FaceNormalOutOfBounds))
    );
    let texture = b"v 0 0 0\nvt 0 0\nf 1/999999999 1/1 1/1\n";
    assert_eq!(
        load_obj(texture, b"").err(),
        Some(GeometryLoadError::Parse(tobj::LoadError::FaceTexCoordOutOfBounds))
    );
    let position = b"v 0 0 0\nf 1 2 -9223372036854775808\n";
    assert_eq!(
        load_obj(position, b"").err(),
        Some(GeometryLoadError::Parse(tobj::LoadError::FaceVertexOutOfBounds))
    );
}

#[test]
fn obj_text_that_is_not_utf8_is_a_read_error() {
    let text = [b'v', b' ', 0xff, 0xfe, b'\n'];
    assert_eq!(
        load_obj(&text, b"").err(),
        Some(GeometryLoadError::Parse(tobj::LoadError::ReadError))
    );
}

#[test]
fn empty_obj_text_gives_one_empty_submesh() {
    let mesh = load_obj(b"", b"").unwrap();
    assert_eq!(mesh.vertex_count(), 0);
    assert!(mesh.indices().is_empty());
}

#[test]
fn unknown_materials_do_not_split_the_mesh() {
    let text = b"mtllib missing.mtl\nv 0 0 0\nv 1 0 0\nv 0 1 0\nv 1 1 0\nusemtl a\nf 1 2 3\nusemtl b\nf 2 4 3\n";
    let mesh = load_obj(text, b"").unwrap();
    assert_eq!(mesh.vertex_count(), 4);
    assert_eq!(mesh.indices(), &vec![0, 1, 2, 1, 3, 2]);
}

#[test]
fn change_to_a_known_material_starts_a_new_submesh() {
    let text = b"mtllib lib.mtl\nv 0 0 0\nv 1 0 0\nv 0 1 0\nv 1 1 0\nusemtl a\nf 1 2 3\nusemtl b\nf 2 4 3\n";
    let materials = b"newmtl a\nKd 1 0 0\nnewmtl b\nKd 0 1 0\n";
    let mesh = load_obj(text, materials).unwrap();
    // The second sub-mesh has vertices of its own for the two that it shares.
    assert_eq!(mesh.vertex_count(), 6);
    assert_eq!(mesh.indices(), &vec![0, 1, 2, 3, 4, 5]);
    assert_eq!(&mesh.vertices()[18..21], &[word(1.0), word(0.0), word(0.0)]);
    assert_eq!(&mesh.vertices()[24..27], &[word(1.0), word(1.0), word(0.0)]);
}

#[test]
fn same_material_again_starts_no_submesh() {
    let text = b"mtllib lib.mtl\nv 0 0 0\nv 1 0 0\nv 0 1 0\nv 1 1 0\nusemtl a\nf 1 2 3\nusemtl a\nf 2 4 3\n";
    let mesh = load_obj(text, b"newmtl a\nKd 1 0 0\n").unwrap();
    assert_eq!(mesh.vertex_count(), 4);
}

#[test]
fn material_library_without_a_reference_to_it_changes_nothing() {
    let text = b"v 0 0 0\nv 1 0 0\nv 0 1 0\nusemtl a\nf 1 2 3\n";
    let mesh = load_obj(text, b"newmtl a\nKd 1 0 0\n").unwrap();
    assert_eq!(mesh.vertex_count(), 3);
}

#[test]
fn malformed_material_library_counts_as_none() {
    let text = b"mtllib lib.mtl\nv 0 0 0\nv 1 0 0\nv 0 1 0\nv 1 1 0\nusemtl a\nf 1 2 3\nusemtl b\nf 2 4 3\n";
    let mesh = load_obj(text, b"newmtl a\nKd red green blue\nnewmtl b\n").unwrap();
    assert_eq!(mesh.vertex_count(), 4);
}

#[test]
fn colour_with_fewer_than_three_values_is_an_error() {
    let text = b"mtllib lib.mtl\nv 0 0 0\nv 1 0 0\nv 0 1 0\nf 1 2 3\n";
    for materials in [&b"newmtl a\nKd 1 0\n"[..], b"newmtl a\nKa", b"Ks 1\n", b"  Ke 0.5 0.5"] {
        assert_eq!(load_obj(text, materials).err(), Some(GeometryLoadError::IncompleteColour));
    }
    // The references of the model are looked at first.
    let bad = b"v 0 0 0\nf 1//-2 1 1\n";
    assert_eq!(load_obj(bad, b"Kd 1").err(), Some(GeometryLoadError::UnsupportedReference));
}

#[test]
fn colours_are_checked_line_by_line() {
    assert!(check_colours(b""));
    assert!(check_colours(b"newmtl a\nKa 1 1 1\nKd 0.5 0.5 0.5\nKs 0 0 0\nKe 0 0 0\nNs 10\nd 1\n"));
    assert!(check_colours(b"Kd 1 2 3"));
    assert!(check_colours(b"\tKd\t1\t2\t3\r\n"));
    assert!(check_colours(b"Kd spectral file.rfl 1"));
    assert!(check_colours(b"Km 0.5\nK\nKdx 1\nmap_Kd a.png\n# Kd 1\n"));
    assert!(!check_colours(b"Kd 1 2"));
    assert!(!check_colours(b"Kd 1 2\nKd 1 2 3\n"));
    assert!(!check_colours(b"Kd 1 2 3\nKa\n"));
    assert!(!check_colours(b"Kd"));
    assert!(!check_colours(b"Kd  \t "));
    // A byte beyond ASCII may be white space to the parser.
    assert!(!check_colours("Kd\u{a0}1 2".as_bytes()));
    assert!(!check_colours("\u{a0}Kd 1 2".as_bytes()));
    assert!(!check_colours("Kd 1 2 \u{a0}".as_bytes()));
    assert!(check_colours("Kd\u{a0}1 2 3 4".as_bytes()));
}

#[test]
fn material_libraries_are_named_in_the_order_of_the_text() {
    let text = b"mtllib a.mtl\nv 0 0 0\nmtllib sub dir/b c.mtl\nv 1 0 0\nv 0 1 0\nf 1 2 3\n";
    assert_eq!(
        material_libraries(text),
        Ok(vec![String::from("a.mtl"), String::from("sub dir/b c.mtl")])
    );
    assert_eq!(material_libraries(b"v 0 0 0\nf 1 1 1\n"), Ok(vec![]));
    assert_eq!(material_libraries(b""), Ok(vec![]));
    assert_eq!(
        material_libraries(b"mtllib a.mtl\nf 1//-2 1 1\n"),
        Err(GeometryLoadError::UnsupportedReference)
    );
}
