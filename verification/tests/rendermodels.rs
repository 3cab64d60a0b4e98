use std::io::Write;
use xrizer::input::profiles::Profile;
use xrizer::openxr_data::Hand;
use xrizer::rendermodels::{
    build_mesh_topology, cstr_write_out, load_model_topology, obj_text_safe, try_load_model_topology, decompress_model, get_component_count,
    get_component_name, get_component_render_model_name, get_component_state,
    get_render_model_count, get_render_model_data, get_render_model_name,
    load_render_model_request, load_texture_request, render_model_has_component,
    render_model_table, ModelResource, OwnedTexture, RenderModelData, RenderModelError,
    VertexKey, COMPONENT_PROPERTIES, DEFAULT_COMPONENT, RENDER_MODEL_COLOR,
};

const SOME_MODEL: &[u8] = b"generic_controller";

#[test]
fn get_render_model_data_able_to_resolve_all_elements() {
    for (name, expected) in render_model_table() {
        let asset = get_render_model_data(name.as_bytes()).expect("plain name should resolve");
        assert_eq!(asset, expected);
        let braced = format!("{{some_driver}}{name}");
        let asset = get_render_model_data(braced.as_bytes()).expect("braced name should resolve");
        assert_eq!(asset, expected);
    }
}

#[test]
fn mirrored_models_share_a_resource() {
    let l = get_render_model_data(b"valve_controller_knu_1_0_left").unwrap();
    let r = get_render_model_data(b"{indexcontroller}valve_controller_knu_1_0_right").unwrap();
    assert_eq!(l.resource, ModelResource::ValveControllerKnu10Left);
    assert_eq!(r.resource, ModelResource::ValveControllerKnu10Left);
    assert!(!l.flipped);
    assert!(r.flipped);
}

#[test]
fn unknown_and_invalid_names_resolve_to_nothing() {
    assert_eq!(get_render_model_data(b"unknown_model"), None);
    assert_eq!(get_render_model_data(b"{driver"), None);
    assert_eq!(get_render_model_data(b"{driver}"), None);
    assert_eq!(get_render_model_data(&[0xff, 0xfe]), None);
}

#[test]
fn every_profile_render_model_resolves() {
    for p in [Profile::ViveWands, Profile::Knuckles, Profile::OculusTouch, Profile::ViveFocus3, Profile::SimpleController] {
        for h in [Hand::Left, Hand::Right] {
            let name = *p.properties().render_model_name.get(h);
            assert!(get_render_model_data(name.as_bytes()).is_some(), "{name}");
        }
    }
}

#[test]
fn cstr_write_out_contract() {
    let s = b"hello";
    let required = cstr_write_out(s, None);
    assert_eq!(required.ret, 6);
    assert!(required.written.is_none());
    let wrote = cstr_write_out(s, Some(required.ret - 1));
    assert_eq!(wrote.ret, 0);
    assert!(wrote.written.is_none());
    let wrote = cstr_write_out(s, Some(required.ret));
    assert_eq!(wrote.ret, required.ret);
    assert_eq!(wrote.written.unwrap(), b"hello\0".to_vec());
}

#[test]
fn render_model_count_and_iter_name() {
    let table = render_model_table();
    assert_eq!(get_render_model_count() as usize, table.len());
    assert_eq!(get_render_model_count(), 11);
    for (idx, (expected, _)) in table.iter().enumerate() {
        let required = get_render_model_name(idx as u32, None);
        assert!(required.ret > 0);
        let wrote = get_render_model_name(idx as u32, Some(required.ret));
        assert_eq!(wrote.ret, required.ret);
        let bytes = wrote.written.unwrap();
        assert_eq!(&bytes[..bytes.len() - 1], expected.as_bytes());
        assert_eq!(bytes.len(), required.ret as usize);
    }
    assert_eq!(get_render_model_name(table.len() as u32, Some(8)).ret, 0);
}

#[test]
fn render_model_names_are_sorted() {
    let table = render_model_table();
    for w in table.windows(2) {
        assert!(w[0].0 < w[1].0);
    }
}

#[test]
fn get_component_count_contract() {
    assert_eq!(get_component_count(None), 0);
    assert_eq!(get_component_count(Some(b"")), 0);
    assert_eq!(get_component_count(Some(SOME_MODEL)), 1);
}

#[test]
fn get_component_name_contract() {
    assert_eq!(get_component_name(false, 0, None).ret, 0);
    assert_eq!(get_component_name(false, 0, Some(1)).ret, 0);
    let required = get_component_name(true, 0, None);
    assert!(required.ret > 0);
    let wrote = get_component_name(true, 0, Some(required.ret));
    assert_eq!(wrote.ret, required.ret);
    let bytes = wrote.written.unwrap();
    assert_eq!(&bytes[..bytes.len() - 1], DEFAULT_COMPONENT.as_bytes());
    assert_eq!(get_component_name(false, 1, Some(32)).ret, 0);
    assert_eq!(get_component_name(true, 1, Some(32)).ret, 0);
}

#[test]
fn render_model_has_component_contract() {
    assert!(render_model_has_component(Some(SOME_MODEL), Some(DEFAULT_COMPONENT.as_bytes())));
    assert!(!render_model_has_component(Some(SOME_MODEL), Some(b"not_xrizer_component")));
    assert!(!render_model_has_component(Some(b"unknown_model"), Some(DEFAULT_COMPONENT.as_bytes())));
    assert!(!render_model_has_component(None, Some(DEFAULT_COMPONENT.as_bytes())));
}

#[test]
fn component_render_model_name_contract() {
    let comp = Some(DEFAULT_COMPONENT.as_bytes());
    assert_eq!(get_component_render_model_name(None, comp, None).ret, 0);
    assert_eq!(get_component_render_model_name(Some(SOME_MODEL), None, None).ret, 0);
    assert_eq!(get_component_render_model_name(None, comp, Some(64)).ret, 0);
    assert_eq!(get_component_render_model_name(Some(SOME_MODEL), None, Some(64)).ret, 0);
    let required = get_component_render_model_name(Some(SOME_MODEL), comp, None);
    assert!(required.ret > 0);
    let wrote = get_component_render_model_name(Some(SOME_MODEL), comp, Some(required.ret));
    assert_eq!(wrote.ret, required.ret);
    let bytes = wrote.written.unwrap();
    assert_eq!(&bytes[..bytes.len() - 1], SOME_MODEL);
    assert_eq!(get_component_render_model_name(Some(SOME_MODEL), Some(b"not_xrizer_component"), None).ret, 0);
    assert_eq!(get_component_render_model_name(Some(b"unknown_model"), comp, None).ret, 0);
}

#[test]
fn get_component_state_contract() {
    let comp = Some(DEFAULT_COMPONENT.as_bytes());
    assert_eq!(get_component_state(None, comp, true), None);
    assert_eq!(get_component_state(Some(SOME_MODEL), None, true), None);
    assert_eq!(get_component_state(Some(SOME_MODEL), comp, false), None);
    let props = get_component_state(Some(SOME_MODEL), comp, true).unwrap();
    assert_eq!(props, COMPONENT_PROPERTIES);
    let visible = 1u32 << 1;
    let is_static = 1u32 << 0;
    assert_ne!(props & visible, 0);
    assert_ne!(props & is_static, 0);
}

#[test]
fn load_and_free_texture_contract() {
    let mut data: RenderModelData<()> = RenderModelData::new();
    assert!(matches!(load_texture_request(false, 0), Err(RenderModelError::InvalidArg)));
    assert!(matches!(load_texture_request(true, -1), Err(RenderModelError::InvalidTexture)));
    let tex = load_texture_request(true, 0).unwrap();
    assert_eq!((tex.width, tex.height), (1, 1));
    assert_eq!(tex.data, RENDER_MODEL_COLOR.to_vec());
    let out = 0x1000usize;
    data.insert_texture(out, tex);
    assert!(data.has_texture(out));
    assert!(data.remove_texture(out));
    assert!(!data.has_texture(out));
    // freeing an already freed element: no-op
    assert!(!data.remove_texture(out));
    // a pointer never handed out is not ours
    assert!(!data.remove_texture(111111));
}

#[test]
fn load_and_free_render_model_contract() {
    let mut data: RenderModelData<u32> = RenderModelData::new();
    assert_eq!(load_render_model_request(false, Some(SOME_MODEL)), Err(RenderModelError::InvalidArg));
    assert_eq!(load_render_model_request(true, None), Err(RenderModelError::InvalidArg));
    assert_eq!(load_render_model_request(true, Some(b"unknown_model")), Err(RenderModelError::InvalidArg));
    let asset = load_render_model_request(true, Some(b"{driver}generic_controller")).unwrap();
    assert_eq!(asset.resource, ModelResource::GenericController);
    let out = 0x2000usize;
    data.insert_model(out, 7);
    assert!(data.has_model(out));
    assert!(data.remove_model(out));
    assert!(!data.has_model(out));
    assert!(!data.remove_model(out));
    assert!(!data.remove_model(111111));
}

#[test]
fn dummy_texture_is_one_texel() {
    let t = OwnedTexture::new_dummy();
    assert_eq!(t.width, 1);
    assert_eq!(t.height, 1);
    assert_eq!(t.data, vec![32, 32, 32, 255]);
}

fn key(p: usize) -> VertexKey {
    (p, None, None)
}

#[test]
fn quad_is_fan_triangulated() {
    let polys = vec![vec![key(0), key(1), key(2), key(3)]];
    let (verts, indices) = build_mesh_topology(&polys, 4, false).unwrap();
    assert_eq!(verts, vec![key(0), key(1), key(2), key(3)]);
    assert_eq!(indices, vec![0, 1, 2, 0, 2, 3]);
}

#[test]
fn mirrored_model_reverses_winding() {
    let polys = vec![vec![key(0), key(1), key(2), key(3)]];
    let (_, indices) = build_mesh_topology(&polys, 4, true).unwrap();
    assert_eq!(indices, vec![0, 2, 1, 0, 3, 2]);
}

#[test]
fn shared_vertices_are_reused() {
    let polys = vec![
        vec![key(0), key(1), key(2)],
        vec![key(2), key(1), key(3)],
        vec![(2, Some(0), None), key(3), key(0)],
        vec![key(0), key(1)],
    ];
    let (verts, indices) = build_mesh_topology(&polys, 4, false).unwrap();
    assert_eq!(verts, vec![key(0), key(1), key(2), key(3), (2, Some(0), None)]);
    assert_eq!(indices, vec![0, 1, 2, 2, 1, 3, 4, 3, 0]);
    assert_eq!(indices.len() % 3, 0);
    assert!(indices.iter().all(|&i| (i as usize) < verts.len()));
}

#[test]
fn missing_position_is_invalid_model() {
    let polys = vec![vec![key(0), key(1), key(5)]];
    assert_eq!(build_mesh_topology(&polys, 4, false), Err(RenderModelError::InvalidModel));
    // a short polygon is dropped before its vertices are looked at
    let polys = vec![vec![key(0), key(9)]];
    assert_eq!(build_mesh_topology(&polys, 4, false), Ok((vec![], vec![])));
}

#[test]
fn too_many_vertices() {
    let n = 65537;
    let poly: Vec<VertexKey> = (0..n).map(key).collect();
    assert_eq!(build_mesh_topology(&vec![poly], n, false), Err(RenderModelError::TooManyVertices));
    let poly: Vec<VertexKey> = (0..65536).map(key).collect();
    let (verts, indices) = build_mesh_topology(&vec![poly], n, false).unwrap();
    assert_eq!(verts.len(), 65536);
    assert_eq!(indices.len(), 3 * 65534);
}

#[test]
fn lz4_frames_decompress() {
    let text = b"v 0 0 0\nv 1 0 0\nv 0 1 0\nf 1 2 3\n".repeat(20);
    let mut enc = lz4_flex::frame::FrameEncoder::new(Vec::new());
    enc.write_all(&text).unwrap();
    let compressed = enc.finish().unwrap();
    assert_ne!(compressed, text);
    assert_eq!(decompress_model(&compressed).unwrap(), text);
    assert_eq!(decompress_model(b"not an lz4 frame"), Err(RenderModelError::InvalidModel));
}

fn compress(text: &[u8]) -> Vec<u8> {
    let mut enc = lz4_flex::frame::FrameEncoder::new(Vec::new());
    enc.write_all(text).unwrap();
    enc.finish().unwrap()
}

#[test]
fn obj_model_topology_from_compressed_bytes() {
    // A quad in one group and a triangle in a second object, with a
    // relative reference; the quad is fanned into two triangles.
    let text = b"v 0 0 0\nv 1 0 0\nv 1 1 0\nv 0 1 0\nvn 0 0 1\nf 1//1 2//1 3//1 4//1\no other\nf -1 -2 -3\n";
    let (keys, indices) = load_model_topology(&compress(text), false).unwrap();
    assert_eq!(keys, vec![(0, None, Some(0)), (1, None, Some(0)), (2, None, Some(0)), (3, None, Some(0)), (3, None, None), (2, None, None), (1, None, None)]);
    assert_eq!(indices, vec![0, 1, 2, 0, 2, 3, 4, 5, 6]);
    // Mirrored: the winding of every triangle is reversed.
    let (_, flipped) = load_model_topology(&compress(text), true).unwrap();
    assert_eq!(flipped, vec![0, 2, 1, 0, 3, 2, 4, 6, 5]);
    // Through the checked entry point, the same.
    assert_eq!(try_load_model_topology(&compress(text), false), Some(Ok((keys, indices))));
}

#[test]
fn obj_model_errors() {
    // Not an LZ4 frame.
    assert_eq!(load_model_topology(b"not an lz4 frame", false), Err(RenderModelError::InvalidModel));
    // A face with a zero vertex reference: the parser rejects the text.
    assert_eq!(load_model_topology(&compress(b"v 0 0 0\nf 0 1 1\n"), false), Err(RenderModelError::InvalidModel));
    // A face referring to a position that does not exist.
    assert_eq!(load_model_topology(&compress(b"v 0 0 0\nf 1 2 3\n"), false), Err(RenderModelError::InvalidModel));
}

#[test]
fn obj_text_that_the_parser_would_cut() {
    // An ideographic space before `o`: the parser would cut the line after
    // its first byte, inside that character.
    let bad = "\u{3000}o name\n".as_bytes();
    assert!(!obj_text_safe(bad));
    assert_eq!(try_load_model_topology(&compress(bad), false), None);
    // `g` followed by a non-breaking space: cut after the second byte.
    assert!(!obj_text_safe("g\u{a0}x\n".as_bytes()));
    // A no-break space is two bytes: the second byte is a boundary.
    assert!(obj_text_safe("\u{a0}g x\n".as_bytes()));
    // Non-ASCII names after the keyword are fine.
    assert!(obj_text_safe("o caf\u{e9}\ng gr\u{fc}n\n# \u{e9}\n".as_bytes()));
    // A comment starting with a multi-byte character is fine too.
    assert!(obj_text_safe("#\u{e9}t\u{e9}\nv 0 0 0\n".as_bytes()));
}
