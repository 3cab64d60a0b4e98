//! The render model interface: the table of built-in controller models,
//! name resolution (with or without a `{driver}` prefix), the single static
//! component every model has, the C-string out-parameter convention, the
//! registry of models and textures handed out to the application, and the
//! index buffer built from a model's OBJ polygons.
use vstd::prelude::*;
use vstd::utf8::*;
use vstd::string::*;
use crate::text::{chars_of, bytes_equal};

verus! {

/// The OpenVR render model errors (`EVRRenderModelError`, success
/// excepted: it is the `Ok` of the results here).
#[derive(Copy, Clone, Debug, PartialEq, Eq, Structural)]
pub enum RenderModelError {
    Loading,
    NotSupported,
    InvalidArg,
    InvalidModel,
    NoShapes,
    MultipleShapes,
    TooManyVertices,
    MultipleTextures,
    BufferTooSmall,
    NotEnoughNormals,
    NotEnoughTexCoords,
    InvalidTexture,
}

/// The compressed OBJ resources shipped with the runtime.
#[derive(Copy, Clone, Debug, PartialEq, Eq, Structural)]
pub enum ModelResource {
    GenericController,
    OculusQuest2ControllerLeft,
    OculusQuestPlusControllerLeft,
    ValveControllerKnu10Left,
    ViveFocus3ControllerLeft,
    VrControllerVive15,
    VrTrackerVive30,
}

/// A model of the table: its resource, and whether the resource is the
/// other hand's model, to be mirrored.
#[derive(Copy, Clone, Debug, PartialEq, Eq, Structural)]
pub struct RenderModelAsset {
    pub resource: ModelResource,
    pub flipped: bool,
}

/// The colour of the one texel of every model's texture.
pub const RENDER_MODEL_COLOR: [u8; 4] = [32, 32, 32, 255];

/// The name of the one component every model has.
pub const DEFAULT_COMPONENT: &'static str = "xrizer_component";

/// The number of models in the table.
pub const RENDER_MODEL_COUNT: u32 = 11;

/// The bits of `EVRComponentProperty` a component reports: visible
/// (`1 << 1`) and static (`1 << 0`).
pub const COMPONENT_PROPERTIES: u32 = 3;

pub open spec fn asset(resource: ModelResource, flipped: bool) -> RenderModelAsset {
    RenderModelAsset { resource, flipped }
}

/// The built-in models, by name, in the order of their names.
pub open spec fn spec_render_model_table() -> Seq<(Seq<char>, RenderModelAsset)> {
    seq![
        ("generic_controller"@, asset(ModelResource::GenericController, false)),
        ("oculus_quest2_controller_left"@, asset(ModelResource::OculusQuest2ControllerLeft, false)),
        ("oculus_quest2_controller_right"@, asset(ModelResource::OculusQuest2ControllerLeft, true)),
        ("oculus_quest_plus_controller_left"@, asset(ModelResource::OculusQuestPlusControllerLeft, false)),
        ("oculus_quest_plus_controller_right"@, asset(ModelResource::OculusQuestPlusControllerLeft, true)),
        ("valve_controller_knu_1_0_left"@, asset(ModelResource::ValveControllerKnu10Left, false)),
        ("valve_controller_knu_1_0_right"@, asset(ModelResource::ValveControllerKnu10Left, true)),
        ("vive_focus3_controller_left"@, asset(ModelResource::ViveFocus3ControllerLeft, false)),
        ("vive_focus3_controller_right"@, asset(ModelResource::ViveFocus3ControllerLeft, true)),
        ("vr_controller_vive_1_5"@, asset(ModelResource::VrControllerVive15, false)),
        ("vr_tracker_vive_3_0"@, asset(ModelResource::VrTrackerVive30, false)),
    ]
}

/// The table, as the executable code walks it.
pub fn render_model_table() -> (t: Vec<(&'static str, RenderModelAsset)>)
    ensures
        t@.len() == spec_render_model_table().len(),
        forall|i: int|
            0 <= i < t@.len() ==> (#[trigger] t@[i]).0@ == spec_render_model_table()[i].0 && t@[i].1
                == spec_render_model_table()[i].1,
{
    let t = vec![
        ("generic_controller", RenderModelAsset { resource: ModelResource::GenericController, flipped: false }),
        ("oculus_quest2_controller_left", RenderModelAsset { resource: ModelResource::OculusQuest2ControllerLeft, flipped: false }),
        ("oculus_quest2_controller_right", RenderModelAsset { resource: ModelResource::OculusQuest2ControllerLeft, flipped: true }),
        ("oculus_quest_plus_controller_left", RenderModelAsset { resource: ModelResource::OculusQuestPlusControllerLeft, flipped: false }),
        ("oculus_quest_plus_controller_right", RenderModelAsset { resource: ModelResource::OculusQuestPlusControllerLeft, flipped: true }),
        ("valve_controller_knu_1_0_left", RenderModelAsset { resource: ModelResource::ValveControllerKnu10Left, flipped: false }),
        ("valve_controller_knu_1_0_right", RenderModelAsset { resource: ModelResource::ValveControllerKnu10Left, flipped: true }),
        ("vive_focus3_controller_left", RenderModelAsset { resource: ModelResource::ViveFocus3ControllerLeft, flipped: false }),
        ("vive_focus3_controller_right", RenderModelAsset { resource: ModelResource::ViveFocus3ControllerLeft, flipped: true }),
        ("vr_controller_vive_1_5", RenderModelAsset { resource: ModelResource::VrControllerVive15, flipped: false }),
        ("vr_tracker_vive_3_0", RenderModelAsset { resource: ModelResource::VrTrackerVive30, flipped: false }),
    ];
    assert(t@.len() == spec_render_model_table().len());
    t
}

/// The asset of the first entry named `name`.
pub open spec fn lookup_in(table: Seq<(Seq<char>, RenderModelAsset)>, name: Seq<char>) -> Option<
    RenderModelAsset,
>
    decreases table.len(),
{
    if table.len() == 0 {
        None
    } else if table[0].0 == name {
        Some(table[0].1)
    } else {
        lookup_in(table.drop_first(), name)
    }
}

/// The index of the first `}` after a leading `{`, if the name has both.
pub open spec fn is_first_close_brace(s: Seq<char>, j: int) -> bool {
    &&& 1 <= j < s.len()
    &&& s[j] == '}'
    &&& forall|k: int| 1 <= k < j ==> s[k] != '}'
}

/// The model part of a name: what follows `{driver}` where the name starts
/// with such a prefix, the whole name otherwise.
pub open spec fn model_name_part(s: Seq<char>) -> Seq<char> {
    if s.len() > 0 && s[0] == '{' && exists|j: int| is_first_close_brace(s, j) {
        let j = choose|j: int| is_first_close_brace(s, j);
        s.subrange(j + 1, s.len() as int)
    } else {
        s
    }
}

/// The model a name (given as the bytes of a C string) resolves to: none
/// unless the bytes are UTF-8 and their model part names a table entry.
pub open spec fn spec_resolve_model(name: Seq<u8>) -> Option<RenderModelAsset> {
    if valid_utf8(name) {
        lookup_in(spec_render_model_table(), model_name_part(decode_utf8(name)))
    } else {
        None
    }
}

/// `std::str::from_utf8`: the text that the bytes encode, or nothing
/// exactly when they are not valid UTF-8.
#[verifier::external_body]
fn utf8_str(bytes: &[u8]) -> (r: Option<&str>)
    ensures
        match r {
            Some(s) => s.spec_bytes() == bytes@,
            None => !valid_utf8(bytes@),
        },
{
    std::str::from_utf8(bytes).ok()
}

proof fn lemma_least_close_brace_unique(s: Seq<char>, a: int, b: int)
    requires
        is_first_close_brace(s, a),
        is_first_close_brace(s, b),
    ensures
        a == b,
{
    if a < b {
        assert(s[a] != '}');
    } else if b < a {
        assert(s[b] != '}');
    }
}

/// The model part of a name.
pub fn strip_driver_prefix(s: &Vec<char>) -> (r: Vec<char>)
    ensures
        r@ == model_name_part(s@),
{
    let n = s.len();
    if n == 0 || s[0] != '{' {
        return s.clone();
    }
    let mut j: usize = 1;
    while j < n
        invariant
            1 <= j <= n,
            n == s@.len(),
            s@[0] == '{',
            forall|k: int| 1 <= k < j ==> s@[k] != '}',
        decreases n - j,
    {
        if s[j] == '}' {
            assert(is_first_close_brace(s@, j as int));
            proof {
                let c = choose|c: int| is_first_close_brace(s@, c);
                lemma_least_close_brace_unique(s@, c, j as int);
            }
            let mut r: Vec<char> = Vec::new();
            let mut k: usize = j + 1;
            while k < n
                invariant
                    j + 1 <= k <= n,
                    n == s@.len(),
                    r@ == s@.subrange(j + 1, k as int),
                decreases n - k,
            {
                r.push(s[k]);
                k = k + 1;
                assert(r@ =~= s@.subrange(j + 1, k as int));
            }
            return r;
        }
        j = j + 1;
    }
    assert(!exists|c: int| is_first_close_brace(s@, c));
    s.clone()
}

/// The asset of the table entry named `name`.
pub fn lookup_render_model(name: &Vec<char>) -> (r: Option<RenderModelAsset>)
    ensures
        r == lookup_in(spec_render_model_table(), name@),
{
    let table = render_model_table();
    let ghost t = spec_render_model_table();
    assert(t.subrange(0, t.len() as int) =~= t);
    let mut i: usize = 0;
    while i < table.len()
        invariant
            i <= table@.len(),
            table@.len() == t.len(),
            t == spec_render_model_table(),
            forall|k: int|
                0 <= k < table@.len() ==> (#[trigger] table@[k]).0@ == t[k].0 && table@[k].1
                    == t[k].1,
            lookup_in(t, name@) == lookup_in(t.subrange(i as int, t.len() as int), name@),
        decreases table@.len() - i,
    {
        let entry = table[i];
        assert(t.subrange(i as int, t.len() as int).drop_first() =~= t.subrange(
            i + 1,
            t.len() as int,
        ));
        if crate::text::chars_equal_str(name.as_slice(), entry.0) {
            return Some(entry.1);
        }
        i = i + 1;
    }
    None
}

/// Resolves a model name given as the bytes of a C string.
pub fn get_render_model_data(name: &[u8]) -> (r: Option<RenderModelAsset>)
    ensures
        r == spec_resolve_model(name@),
{
    match utf8_str(name) {
        None => None,
        Some(s) => {
            proof {
                encode_utf8_valid_utf8(s@);
                encode_utf8_decode_utf8(s@);
            }
            let chars = chars_of(s);
            let model = strip_driver_prefix(&chars);
            lookup_render_model(&model)
        },
    }
}

/// What a C-string out-parameter call answers: the value it returns and,
/// where it copies, the bytes it copies into the caller's buffer.
#[derive(Debug)]
pub struct CStrWriteOut {
    pub ret: u32,
    pub written: Option<Vec<u8>>,
}

/// The answer of a call that writes nothing and returns 0.
pub open spec fn nothing_written(r: CStrWriteOut) -> bool {
    r.ret == 0 && r.written.is_none()
}

/// The answer of `cstr_write_out` for the string `content` and a buffer of
/// `out_len` bytes (`None` when the caller gave no buffer).
pub open spec fn spec_cstr_write_out(content: Seq<u8>, out_len: Option<u32>, r: CStrWriteOut) -> bool {
    let n = content.len() + 1;
    match out_len {
        None => r.ret == n as u32 && r.written.is_none(),
        Some(l) => if l < n as u32 {
            nothing_written(r)
        } else {
            &&& r.ret == n as u32
            &&& r.written matches Some(w) && w@ == content.push(0u8)
        },
    }
}

fn no_write() -> (r: CStrWriteOut)
    ensures
        nothing_written(r),
{
    CStrWriteOut { ret: 0, written: None }
}

/// The size of a C string of `len` bytes with its NUL, as a `u32`.
fn cstr_size(len: usize) -> (n: u32)
    ensures
        n == (len + 1) as u32,
{
    let a = len as u32;
    let n = a.wrapping_add(1);
    assert(n == (len + 1) as u32) by (bit_vector)
        requires
            a == len as u32,
            n == (if a + 1 > 0xffff_ffffu32 {
                (a + 1 - 0x1_0000_0000) as u32
            } else {
                (a + 1) as u32
            }),
    ;
    n
}

/// Writes a C string into a caller's buffer: without a buffer, only the
/// size it needs (with the NUL); with one too small, nothing and 0; else the
/// string with its NUL, and its size.
pub fn cstr_write_out(content: &[u8], out_len: Option<u32>) -> (r: CStrWriteOut)
    ensures
        spec_cstr_write_out(content@, out_len, r),
{
    let n = cstr_size(content.len());
    match out_len {
        None => CStrWriteOut { ret: n, written: None },
        Some(l) => {
            if l < n {
                no_write()
            } else {
                let mut w: Vec<u8> = Vec::new();
                let mut i: usize = 0;
                while i < content.len()
                    invariant
                        i <= content@.len(),
                        w@ == content@.subrange(0, i as int),
                    decreases content@.len() - i,
                {
                    w.push(content[i]);
                    i = i + 1;
                    assert(w@ =~= content@.subrange(0, i as int));
                }
                w.push(0u8);
                assert(w@ =~= content@.push(0u8));
                CStrWriteOut { ret: n, written: Some(w) }
            }
        },
    }
}

/// Asking for the size first and then passing a buffer of exactly that
/// size copies the whole string with its NUL and returns the same size.
pub proof fn lemma_size_query_then_write(content: Seq<u8>, query: CStrWriteOut, write: CStrWriteOut)
    requires
        spec_cstr_write_out(content, None, query),
        spec_cstr_write_out(content, Some(query.ret), write),
    ensures
        write.ret == query.ret,
        write.written matches Some(w) && w@ == content.push(0u8),
{
}

/// The bytes of the component name.
pub open spec fn default_component_bytes() -> Seq<u8> {
    encode_utf8(DEFAULT_COMPONENT@)
}

/// Whether a model has the given component: it does when it is a known
/// model and the component is the default one. A missing name (a null
/// pointer) has none.
pub open spec fn spec_has_component(model: Option<Seq<u8>>, component: Option<Seq<u8>>) -> bool {
    match (model, component) {
        (Some(m), Some(c)) => c == default_component_bytes() && spec_resolve_model(m).is_some(),
        _ => false,
    }
}

/// Whether `component` is the default component.
fn is_default_component(component: &[u8]) -> (r: bool)
    ensures
        r == (component@ == default_component_bytes()),
{
    let d = DEFAULT_COMPONENT.as_bytes();
    bytes_equal(component, d)
}

/// `RenderModelHasComponent`.
pub fn render_model_has_component(model: Option<&[u8]>, component: Option<&[u8]>) -> (r: bool)
    ensures
        r == spec_has_component(
            match model {
                Some(m) => Some(m@),
                None => None,
            },
            match component {
                Some(c) => Some(c@),
                None => None,
            },
        ),
{
    match (model, component) {
        (Some(m), Some(c)) => is_default_component(c) && get_render_model_data(m).is_some(),
        _ => false,
    }
}

/// `GetComponentState`: the component properties written into the state
/// (with identity transforms, every model being static), or nothing when a
/// pointer is null or the model or component is unknown.
pub fn get_component_state(model: Option<&[u8]>, component: Option<&[u8]>, state_given: bool) -> (r:
    Option<u32>)
    ensures
        r == (if state_given && spec_has_component(
            match model {
                Some(m) => Some(m@),
                None => None,
            },
            match component {
                Some(c) => Some(c@),
                None => None,
            },
        ) {
            Some(COMPONENT_PROPERTIES)
        } else {
            None
        }),
{
    if !state_given {
        return None;
    }
    if render_model_has_component(model, component) {
        Some(COMPONENT_PROPERTIES)
    } else {
        None
    }
}

/// `GetComponentRenderModelName`: a known model's default component is the
/// model itself, so its name is echoed back.
pub fn get_component_render_model_name(
    model: Option<&[u8]>,
    component: Option<&[u8]>,
    out_len: Option<u32>,
) -> (r: CStrWriteOut)
    ensures
        match model {
            Some(m) => if spec_has_component(
                Some(m@),
                match component {
                    Some(c) => Some(c@),
                    None => None,
                },
            ) {
                spec_cstr_write_out(m@, out_len, r)
            } else {
                nothing_written(r)
            },
            None => nothing_written(r),
        },
{
    match model {
        Some(m) => {
            if render_model_has_component(model, component) {
                cstr_write_out(m, out_len)
            } else {
                no_write()
            }
        },
        None => no_write(),
    }
}

/// `GetComponentName`: every model, known or not, has the default
/// component at index 0 and nothing after it.
pub fn get_component_name(model_given: bool, component_index: u32, out_len: Option<u32>) -> (r:
    CStrWriteOut)
    ensures
        if model_given && component_index == 0 {
            spec_cstr_write_out(default_component_bytes(), out_len, r)
        } else {
            nothing_written(r)
        },
{
    if !model_given || component_index > 0 {
        return no_write();
    }
    let d = DEFAULT_COMPONENT.as_bytes();
    cstr_write_out(d, out_len)
}

/// `GetComponentCount`: one component for any non-empty name.
pub fn get_component_count(model: Option<&[u8]>) -> (r: u32)
    ensures
        r == match model {
            Some(m) => if m@.len() == 0 {
                0u32
            } else {
                1u32
            },
            None => 0u32,
        },
{
    match model {
        Some(m) => if m.len() == 0 {
            0
        } else {
            1
        },
        None => 0,
    }
}

/// `GetRenderModelCount`.
pub fn get_render_model_count() -> (r: u32)
    ensures
        r == spec_render_model_table().len(),
{
    RENDER_MODEL_COUNT
}

/// `GetRenderModelName`: the name of the model at `index` in the table.
pub fn get_render_model_name(index: u32, out_len: Option<u32>) -> (r: CStrWriteOut)
    ensures
        if index < spec_render_model_table().len() {
            spec_cstr_write_out(encode_utf8(spec_render_model_table()[index as int].0), out_len, r)
        } else {
            nothing_written(r)
        },
{
    let table = render_model_table();
    if index as usize >= table.len() {
        return no_write();
    }
    let name = table[index as usize].0;
    let bytes = name.as_bytes();
    cstr_write_out(bytes, out_len)
}

/// A name with a `{driver}` prefix resolves as the name without it: for
/// any driver text without a `}` and any model name.
pub proof fn lemma_driver_prefix_ignored(driver: Seq<char>, name: Seq<char>)
    requires
        !driver.contains('}'),
    ensures
        model_name_part(seq!['{'] + driver + seq!['}'] + name) == name,
{
    let s = seq!['{'] + driver + seq!['}'] + name;
    let j: int = driver.len() as int + 1;
    assert(s[j] == '}');
    assert forall|k: int| 1 <= k < j implies s[k] != '}' by {
        assert(s[k] == driver[k - 1]);
    }
    assert(is_first_close_brace(s, j));
    let c = choose|c: int| is_first_close_brace(s, c);
    lemma_least_close_brace_unique(s, c, j);
    assert(s.subrange(j + 1, s.len() as int) =~= name);
}

/// A name that does not start with `{` is its own model part.
pub proof fn lemma_plain_name_kept(name: Seq<char>)
    requires
        name.len() == 0 || name[0] != '{',
    ensures
        model_name_part(name) == name,
{
}

/// An OBJ vertex reference (`obj::IndexTuple`): the indices of its
/// position, texture coordinate and normal.
pub type VertexKey = (usize, Option<usize>, Option<usize>);

/// The most vertices an index buffer of `u16` can address.
pub const MAX_MESH_VERTICES: usize = 65536;

/// Looks a vertex reference up among the vertices made so far: a known one
/// gives its index; a new one becomes the next vertex, unless its position
/// does not exist (`InvalidModel`) or the buffer is full
/// (`TooManyVertices`).
pub open spec fn spec_map_vertex(seen: Seq<VertexKey>, key: VertexKey, positions: nat) -> Result<
    (Seq<VertexKey>, int),
    RenderModelError,
> {
    if seen.contains(key) {
        Ok((seen, seen.index_of(key)))
    } else if key.0 >= positions {
        Err(RenderModelError::InvalidModel)
    } else if seen.len() >= MAX_MESH_VERTICES {
        Err(RenderModelError::TooManyVertices)
    } else {
        Ok((seen.push(key), seen.len() as int))
    }
}

/// Maps the vertex references of a polygon in order, giving the vertex
/// index of each.
pub open spec fn spec_map_vertices(seen: Seq<VertexKey>, keys: Seq<VertexKey>, positions: nat) -> Result<
    (Seq<VertexKey>, Seq<u16>),
    RenderModelError,
>
    decreases keys.len(),
{
    if keys.len() == 0 {
        Ok((seen, Seq::empty()))
    } else {
        match spec_map_vertices(seen, keys.drop_last(), positions) {
            Err(e) => Err(e),
            Ok((s, ids)) => match spec_map_vertex(s, keys.last(), positions) {
                Err(e) => Err(e),
                Ok((s2, i)) => Ok((s2, ids.push(i as u16))),
            },
        }
    }
}

/// The fan triangulation of a polygon's vertex indices: `(0, i, i + 1)` for
/// each `i` from 1, with the last two swapped in a mirrored model so that
/// the front faces stay in front.
pub open spec fn fan_triangles(ids: Seq<u16>, flipped: bool) -> Seq<u16>
    decreases ids.len(),
{
    if ids.len() < 3 {
        Seq::empty()
    } else {
        let n = ids.len() as int;
        fan_triangles(ids.drop_last(), flipped) + if flipped {
            seq![ids[0], ids[n - 1], ids[n - 2]]
        } else {
            seq![ids[0], ids[n - 2], ids[n - 1]]
        }
    }
}

/// Adds one polygon to the mesh; one with fewer than three vertices is
/// dropped.
pub open spec fn spec_add_polygon(
    seen: Seq<VertexKey>,
    indices: Seq<u16>,
    poly: Seq<VertexKey>,
    positions: nat,
    flipped: bool,
) -> Result<(Seq<VertexKey>, Seq<u16>), RenderModelError> {
    if poly.len() < 3 {
        Ok((seen, indices))
    } else {
        match spec_map_vertices(seen, poly, positions) {
            Err(e) => Err(e),
            Ok((s, ids)) => Ok((s, indices + fan_triangles(ids, flipped))),
        }
    }
}

/// The vertices (as OBJ references, in order of first use) and the index
/// buffer of a model made of `polys`, or the error that stops it.
pub open spec fn spec_build_mesh(polys: Seq<Seq<VertexKey>>, positions: nat, flipped: bool) -> Result<
    (Seq<VertexKey>, Seq<u16>),
    RenderModelError,
>
    decreases polys.len(),
{
    if polys.len() == 0 {
        Ok((Seq::empty(), Seq::empty()))
    } else {
        match spec_build_mesh(polys.drop_last(), positions, flipped) {
            Err(e) => Err(e),
            Ok((s, ind)) => spec_add_polygon(s, ind, polys.last(), positions, flipped),
        }
    }
}

/// An error in mapping a prefix of a polygon is the error of the whole.
proof fn lemma_map_vertices_error_prefix(
    seen: Seq<VertexKey>,
    keys: Seq<VertexKey>,
    k: int,
    positions: nat,
    e: RenderModelError,
)
    requires
        0 <= k <= keys.len(),
        spec_map_vertices(seen, keys.subrange(0, k), positions) == Err::<(Seq<VertexKey>, Seq<u16>), RenderModelError>(e),
    ensures
        spec_map_vertices(seen, keys, positions) == Err::<(Seq<VertexKey>, Seq<u16>), RenderModelError>(e),
    decreases keys.len() - k,
{
    if k == keys.len() {
        assert(keys.subrange(0, k) =~= keys);
    } else {
        assert(keys.subrange(0, k + 1).drop_last() =~= keys.subrange(0, k));
        lemma_map_vertices_error_prefix(seen, keys, k + 1, positions, e);
    }
}

/// An error in building the mesh of a prefix of the polygons is the error
/// of the whole.
proof fn lemma_build_mesh_error_prefix(
    polys: Seq<Seq<VertexKey>>,
    k: int,
    positions: nat,
    flipped: bool,
    e: RenderModelError,
)
    requires
        0 <= k <= polys.len(),
        spec_build_mesh(polys.subrange(0, k), positions, flipped) == Err::<(Seq<VertexKey>, Seq<u16>), RenderModelError>(e),
    ensures
        spec_build_mesh(polys, positions, flipped) == Err::<(Seq<VertexKey>, Seq<u16>), RenderModelError>(e),
    decreases polys.len() - k,
{
    if k == polys.len() {
        assert(polys.subrange(0, k) =~= polys);
    } else {
        assert(polys.subrange(0, k + 1).drop_last() =~= polys.subrange(0, k));
        lemma_build_mesh_error_prefix(polys, k + 1, positions, flipped, e);
    }
}

fn option_eq(a: Option<usize>, b: Option<usize>) -> (r: bool)
    ensures
        r == (a == b),
{
    match (a, b) {
        (Some(x), Some(y)) => x == y,
        (None, None) => true,
        _ => false,
    }
}

fn key_eq(a: &VertexKey, b: &VertexKey) -> (r: bool)
    ensures
        r == (*a == *b),
{
    a.0 == b.0 && option_eq(a.1, b.1) && option_eq(a.2, b.2)
}

fn copy_indices(v: &Vec<u16>) -> (r: Vec<u16>)
    ensures
        r@ == v@,
{
    let mut r: Vec<u16> = Vec::new();
    let mut i: usize = 0;
    while i < v.len()
        invariant
            i <= v@.len(),
            r@ == v@.subrange(0, i as int),
        decreases v@.len() - i,
    {
        r.push(v[i]);
        i = i + 1;
        assert(r@ =~= v@.subrange(0, i as int));
    }
    assert(r@ =~= v@);
    r
}

/// The vertices made so far, with, for each position, the vertices that
/// use it (so that a lookup only scans the vertices of one position).
struct VertexTable {
    keys: Vec<VertexKey>,
    by_position: Vec<Vec<u16>>,
}

impl VertexTable {
    spec fn wf(&self, positions: nat) -> bool {
        &&& self.by_position@.len() == positions
        &&& self.keys@.len() <= MAX_MESH_VERTICES
        &&& self.keys@.no_duplicates()
        &&& forall|v: int|
            0 <= v < self.keys@.len() ==> (#[trigger] self.keys@[v]).0 < positions
                && self.by_position@[self.keys@[v].0 as int]@.contains(v as u16)
        &&& forall|p: int, k: int|
            0 <= p < positions && 0 <= k < self.by_position@[p]@.len() ==> (
            #[trigger] self.by_position@[p]@[k]) < self.keys@.len() && self.keys@[self.by_position@[p]@[k] as int].0 == p
    }

    fn new(positions: usize) -> (t: Self)
        ensures
            t.wf(positions as nat),
            t.keys@ == Seq::<VertexKey>::empty(),
    {
        let mut by_position: Vec<Vec<u16>> = Vec::new();
        let mut i: usize = 0;
        while i < positions
            invariant
                i <= positions,
                by_position@.len() == i,
                forall|p: int| 0 <= p < i ==> (#[trigger] by_position@[p])@.len() == 0,
            decreases positions - i,
        {
            by_position.push(Vec::new());
            i = i + 1;
        }
        VertexTable { keys: Vec::new(), by_position }
    }

    fn map_vertex(&mut self, key: VertexKey, positions: usize) -> (r: Result<u16, RenderModelError>)
        requires
            old(self).wf(positions as nat),
        ensures
            final(self).wf(positions as nat),
            match spec_map_vertex(old(self).keys@, key, positions as nat) {
                Ok((s, i)) => r == Ok::<u16, RenderModelError>(i as u16) && final(self).keys@ == s,
                Err(e) => r == Err::<u16, RenderModelError>(e),
            },
    {
        let ghost keys0 = self.keys@;
        if key.0 >= positions {
            proof {
                if keys0.contains(key) {
                    let v = choose|v: int| 0 <= v < keys0.len() && keys0[v] == key;
                    assert(keys0[v].0 < positions);
                }
            }
            return Err(RenderModelError::InvalidModel);
        }
        let bucket = &self.by_position[key.0];
        let mut k: usize = 0;
        while k < bucket.len()
            invariant
                self.wf(positions as nat),
                self.keys@ == keys0,
                key.0 < positions,
                *bucket == self.by_position@[key.0 as int],
                k <= bucket@.len(),
                forall|j: int| 0 <= j < k ==> self.keys@[(#[trigger] bucket@[j]) as int] != key,
            decreases bucket@.len() - k,
        {
            let v = bucket[k];
            assert(self.by_position@[key.0 as int]@[k as int] == v);
            if key_eq(&self.keys[v as usize], &key) {
                proof {
                    assert(keys0.contains(key));
                    let i = keys0.index_of(key);
                    if i != v as int {
                        assert(keys0[i] == keys0[v as int]);
                    }
                }
                return Ok(v);
            }
            k = k + 1;
        }
        proof {
            if keys0.contains(key) {
                let v = choose|v: int| 0 <= v < keys0.len() && keys0[v] == key;
                assert(self.by_position@[keys0[v].0 as int]@.contains(v as u16));
                let j = choose|j: int| 0 <= j < bucket@.len() && bucket@[j] == v as u16;
                assert(self.keys@[bucket@[j] as int] != key);
            }
        }
        if self.keys.len() >= MAX_MESH_VERTICES {
            return Err(RenderModelError::TooManyVertices);
        }
        let v = self.keys.len() as u16;
        let mut nb = copy_indices(&self.by_position[key.0]);
        nb.push(v);
        let ghost old_by = self.by_position@;
        self.keys.push(key);
        self.by_position.set(key.0, nb);
        proof {
            let ks = self.keys@;
            let by = self.by_position@;
            assert(ks.no_duplicates()) by {
                assert forall|a: int, b: int|
                    0 <= a < ks.len() && 0 <= b < ks.len() && a != b implies ks[a] != ks[b] by {
                    if a == keys0.len() {
                        assert(ks[b] == keys0[b]);
                    } else if b == keys0.len() {
                        assert(ks[a] == keys0[a]);
                    }
                }
            }
            assert forall|w: int| 0 <= w < ks.len() implies (#[trigger] ks[w]).0 < positions
                && by[ks[w].0 as int]@.contains(w as u16) by {
                if w == keys0.len() {
                    assert(by[key.0 as int]@[by[key.0 as int]@.len() - 1] == v);
                } else {
                    assert(ks[w] == keys0[w]);
                    assert(old_by[keys0[w].0 as int]@.contains(w as u16));
                    if keys0[w].0 == key.0 {
                        let j = choose|j: int| 0 <= j < old_by[key.0 as int]@.len() && old_by[key.0 as int]@[j] == w as u16;
                        assert(by[key.0 as int]@[j] == w as u16);
                    }
                }
            }
            assert forall|p: int, k2: int|
                0 <= p < positions && 0 <= k2 < by[p]@.len() implies (#[trigger] by[p]@[k2]) < ks.len()
                && ks[by[p]@[k2] as int].0 == p by {
                if p == key.0 as int {
                    if k2 < old_by[p]@.len() {
                        assert(by[p]@[k2] == old_by[p]@[k2]);
                    }
                } else {
                    assert(by[p] == old_by[p]);
                }
            }
        }
        Ok(v)
    }
}

/// The vertices and index buffer of a model made of `polys` (the polygons
/// of all objects and groups of the OBJ file, in file order), whose file
/// has `positions` vertex positions; the vertices are given by their OBJ
/// references, in order of first use.
pub fn build_mesh_topology(polys: &Vec<Vec<VertexKey>>, positions: usize, flipped: bool) -> (r: Result<
    (Vec<VertexKey>, Vec<u16>),
    RenderModelError,
>)
    ensures
        match spec_build_mesh(polys@.map_values(|p: Vec<VertexKey>| p@), positions as nat, flipped) {
            Ok((s, ind)) => r matches Ok((v, i)) && v@ == s && i@ == ind,
            Err(e) => r == Err::<(Vec<VertexKey>, Vec<u16>), RenderModelError>(e),
        },
{
    let ghost ps = polys@.map_values(|p: Vec<VertexKey>| p@);
    let mut table = VertexTable::new(positions);
    let mut indices: Vec<u16> = Vec::new();
    let mut pi: usize = 0;
    assert(ps.subrange(0, 0) =~= Seq::<Seq<VertexKey>>::empty());
    while pi < polys.len()
        invariant
            pi <= polys@.len(),
            ps == polys@.map_values(|p: Vec<VertexKey>| p@),
            ps.len() == polys@.len(),
            table.wf(positions as nat),
            spec_build_mesh(ps.subrange(0, pi as int), positions as nat, flipped) == Ok::<
                (Seq<VertexKey>, Seq<u16>),
                RenderModelError,
            >((table.keys@, indices@)),
        decreases polys@.len() - pi,
    {
        let poly = &polys[pi];
        let ghost seen0 = table.keys@;
        let ghost ind0 = indices@;
        assert(ps.subrange(0, pi + 1).drop_last() =~= ps.subrange(0, pi as int));
        assert(ps.subrange(0, pi + 1).last() == poly@);
        if poly.len() >= 3 {
            let mut ids: Vec<u16> = Vec::new();
            let mut j: usize = 0;
            assert(poly@.subrange(0, 0) =~= Seq::<VertexKey>::empty());
            while j < poly.len()
                invariant
                    j <= poly@.len(),
                    ids@.len() == j,
                    poly@.len() >= 3,
                    pi < polys@.len(),
                    ps == polys@.map_values(|p: Vec<VertexKey>| p@),
                    ps.len() == polys@.len(),
                    ps.subrange(0, pi + 1).drop_last() == ps.subrange(0, pi as int),
                    ps.subrange(0, pi + 1).last() == poly@,
                    spec_build_mesh(ps.subrange(0, pi as int), positions as nat, flipped) == Ok::<
                        (Seq<VertexKey>, Seq<u16>),
                        RenderModelError,
                    >((seen0, ind0)),
                    table.wf(positions as nat),
                    spec_map_vertices(seen0, poly@.subrange(0, j as int), positions as nat) == Ok::<
                        (Seq<VertexKey>, Seq<u16>),
                        RenderModelError,
                    >((table.keys@, ids@)),
                decreases poly@.len() - j,
            {
                assert(poly@.subrange(0, j + 1).drop_last() =~= poly@.subrange(0, j as int));
                let key = poly[j];
                match table.map_vertex(key, positions) {
                    Ok(v) => {
                        ids.push(v);
                    },
                    Err(e) => {
                        proof {
                            lemma_map_vertices_error_prefix(seen0, poly@, j + 1, positions as nat, e);
                            lemma_build_mesh_error_prefix(ps, pi + 1, positions as nat, flipped, e);
                        }
                        return Err(e);
                    },
                }
                j = j + 1;
            }
            assert(poly@.subrange(0, poly@.len() as int) =~= poly@);
            let n = ids.len();
            let mut i: usize = 1;
            assert(fan_triangles(ids@.subrange(0, 2), flipped) =~= Seq::<u16>::empty());
            assert(ind0 + Seq::<u16>::empty() =~= ind0);
            while i + 1 < n
                invariant
                    1 <= i < n,
                    n == ids@.len(),
                    indices@ == ind0 + fan_triangles(ids@.subrange(0, i + 1), flipped),
                decreases n - i,
            {
                let a = ids[0];
                let b = ids[i];
                let c = ids[i + 1];
                let ghost before = indices@;
                if flipped {
                    indices.push(a);
                    indices.push(c);
                    indices.push(b);
                } else {
                    indices.push(a);
                    indices.push(b);
                    indices.push(c);
                }
                proof {
                    let sub = ids@.subrange(0, i + 2);
                    assert(sub.drop_last() =~= ids@.subrange(0, i + 1));
                    assert(sub[0] == a && sub[i as int] == b && sub[i + 1] == c);
                    assert(indices@ =~= ind0 + fan_triangles(sub, flipped));
                }
                i = i + 1;
            }
            assert(ids@.subrange(0, n as int) =~= ids@);
        }
        pi = pi + 1;
    }
    assert(ps.subrange(0, polys@.len() as int) =~= ps);
    Ok((table.keys, indices))
}

/// The vertices made so far reference existing positions and fit the
/// index type.
pub open spec fn vertices_valid(seen: Seq<VertexKey>, positions: nat) -> bool {
    &&& seen.len() <= MAX_MESH_VERTICES
    &&& forall|v: int| 0 <= v < seen.len() ==> (#[trigger] seen[v]).0 < positions
}

proof fn lemma_map_vertex_valid(seen: Seq<VertexKey>, key: VertexKey, positions: nat)
    requires
        vertices_valid(seen, positions),
    ensures
        spec_map_vertex(seen, key, positions) matches Ok((s, i)) ==> {
            &&& vertices_valid(s, positions)
            &&& 0 <= i < s.len()
            &&& s.len() >= seen.len()
            &&& forall|v: int| 0 <= v < seen.len() ==> s[v] == seen[v]
        },
{
    if seen.contains(key) {
        let w = choose|w: int| 0 <= w < seen.len() && seen[w] == key;
        assert(0 <= w < seen.len() && seen[w] == key);
    }
}

proof fn lemma_map_vertices_valid(seen: Seq<VertexKey>, keys: Seq<VertexKey>, positions: nat)
    requires
        vertices_valid(seen, positions),
    ensures
        spec_map_vertices(seen, keys, positions) matches Ok((s, ids)) ==> {
            &&& vertices_valid(s, positions)
            &&& ids.len() == keys.len()
            &&& forall|k: int| 0 <= k < ids.len() ==> (#[trigger] ids[k]) < s.len()
            &&& s.len() >= seen.len()
            &&& forall|v: int| 0 <= v < seen.len() ==> s[v] == seen[v]
        },
    decreases keys.len(),
{
    if keys.len() > 0 {
        lemma_map_vertices_valid(seen, keys.drop_last(), positions);
        if let Ok((s, ids)) = spec_map_vertices(seen, keys.drop_last(), positions) {
            lemma_map_vertex_valid(s, keys.last(), positions);
            if let Ok((s2, i)) = spec_map_vertex(s, keys.last(), positions) {
                let ids2 = ids.push(i as u16);
                assert forall|k: int| 0 <= k < ids2.len() implies (#[trigger] ids2[k]) < s2.len() by {
                    if k < ids.len() {
                        assert(ids2[k] == ids[k]);
                    }
                }
            }
        }
    }
}

proof fn lemma_fan_triangles_valid(ids: Seq<u16>, flipped: bool, bound: int)
    requires
        forall|k: int| 0 <= k < ids.len() ==> (#[trigger] ids[k]) < bound,
    ensures
        fan_triangles(ids, flipped).len() % 3 == 0,
        forall|k: int|
            0 <= k < fan_triangles(ids, flipped).len() ==> (#[trigger] fan_triangles(ids, flipped)[k])
                < bound,
    decreases ids.len(),
{
    if ids.len() >= 3 {
        let rest = ids.drop_last();
        lemma_fan_triangles_valid(rest, flipped, bound);
        let n = ids.len() as int;
        assert(ids[0] < bound && ids[n - 1] < bound && ids[n - 2] < bound);
        let f = fan_triangles(ids, flipped);
        let fr = fan_triangles(rest, flipped);
        assert forall|k: int| 0 <= k < f.len() implies (#[trigger] f[k]) < bound by {
            if k < fr.len() {
                assert(f[k] == fr[k]);
            }
        }
    }
}

/// The mesh of any polygons, when it is built, is a triangle list whose
/// indices all name one of its vertices, and whose vertices all reference
/// an existing position and fit the `u16` index type.
pub proof fn lemma_mesh_well_formed(polys: Seq<Seq<VertexKey>>, positions: nat, flipped: bool)
    ensures
        spec_build_mesh(polys, positions, flipped) matches Ok((s, ind)) ==> {
            &&& vertices_valid(s, positions)
            &&& ind.len() % 3 == 0
            &&& forall|k: int| 0 <= k < ind.len() ==> (#[trigger] ind[k]) < s.len()
        },
    decreases polys.len(),
{
    if polys.len() > 0 {
        lemma_mesh_well_formed(polys.drop_last(), positions, flipped);
        if let Ok((s, ind)) = spec_build_mesh(polys.drop_last(), positions, flipped) {
            let poly = polys.last();
            if poly.len() >= 3 {
                lemma_map_vertices_valid(s, poly, positions);
                if let Ok((s2, ids)) = spec_map_vertices(s, poly, positions) {
                    lemma_fan_triangles_valid(ids, flipped, s2.len() as int);
                    let f = fan_triangles(ids, flipped);
                    let ind2 = ind + f;
                    assert forall|k: int| 0 <= k < ind2.len() implies (#[trigger] ind2[k]) < s2.len() by {
                        if k < ind.len() {
                            assert(ind2[k] == ind[k]);
                        } else {
                            assert(ind2[k] == f[k - ind.len()]);
                        }
                    }
                }
            }
        }
    }
}

/// The bytes an LZ4 frame (the format of the `lz4` tool) decompresses to,
/// or nothing when the frame is malformed.
pub uninterp spec fn lz4_frame_decompress(compressed: Seq<u8>) -> Option<Seq<u8>>;

/// Decompresses one LZ4 frame with `lz4_flex::frame::FrameDecoder`, reading
/// it to the end. The result depends on the compressed bytes alone; it is
/// named, not described.
#[verifier::external_body]
fn lz4_frame_decode(compressed: &[u8]) -> (r: Option<Vec<u8>>)
    ensures
        match r {
            Some(v) => lz4_frame_decompress(compressed@) == Some(v@),
            None => lz4_frame_decompress(compressed@).is_none(),
        },
{
    let mut out: Vec<u8> = Vec::new();
    let mut decoder = lz4_flex::frame::FrameDecoder::new(compressed);
    match std::io::Read::read_to_end(&mut decoder, &mut out) {
        Ok(_) => Some(out),
        Err(_) => None,
    }
}

/// The OBJ text of a model resource: its decompressed bytes, or
/// `InvalidModel` when the resource does not decompress.
pub fn decompress_model(compressed: &[u8]) -> (r: Result<Vec<u8>, RenderModelError>)
    ensures
        match lz4_frame_decompress(compressed@) {
            Some(v) => r matches Ok(b) && b@ == v,
            None => r == Err::<Vec<u8>, RenderModelError>(RenderModelError::InvalidModel),
        },
{
    match lz4_frame_decode(compressed) {
        Some(v) => Ok(v),
        None => Err(RenderModelError::InvalidModel),
    }
}

/// A texture handed out to the application.
#[derive(Debug)]
pub struct OwnedTexture {
    pub width: u16,
    pub height: u16,
    pub data: Vec<u8>,
}

impl OwnedTexture {
    /// The 1x1 texture of every model, in the render model colour.
    pub fn new_dummy() -> (t: Self)
        ensures
            t.width == 1,
            t.height == 1,
            t.data@ == seq![32u8, 32u8, 32u8, 255u8],
    {
        OwnedTexture { width: 1, height: 1, data: vec![32u8, 32u8, 32u8, 255u8] }
    }
}

/// What `LoadTexture_Async` hands out: the dummy texture, unless the
/// application gave no place to put it (`InvalidArg`) or asked for a
/// negative id (`InvalidTexture`).
pub fn load_texture_request(out_given: bool, texture_id: i32) -> (r: Result<OwnedTexture, RenderModelError>)
    ensures
        !out_given ==> (r matches Err(e) && e == RenderModelError::InvalidArg),
        out_given && texture_id < 0 ==> (r matches Err(e) && e == RenderModelError::InvalidTexture),
        out_given && texture_id >= 0 ==> (r matches Ok(t) && t.width == 1 && t.height == 1 && t.data@
            == seq![32u8, 32u8, 32u8, 255u8]),
{
    if !out_given {
        return Err(RenderModelError::InvalidArg);
    }
    if texture_id < 0 {
        return Err(RenderModelError::InvalidTexture);
    }
    Ok(OwnedTexture::new_dummy())
}

/// What `LoadRenderModel_Async` loads: the asset the name resolves to, or
/// `InvalidArg` when there is no place to put the model, no name, or a
/// name that resolves to nothing.
pub fn load_render_model_request(out_given: bool, name: Option<&[u8]>) -> (r: Result<
    RenderModelAsset,
    RenderModelError,
>)
    ensures
        r == (if !out_given {
            Err(RenderModelError::InvalidArg)
        } else {
            match name {
                None => Err(RenderModelError::InvalidArg),
                Some(n) => match spec_resolve_model(n@) {
                    Some(a) => Ok(a),
                    None => Err(RenderModelError::InvalidArg),
                },
            }
        }),
{
    if !out_given {
        return Err(RenderModelError::InvalidArg);
    }
    match name {
        None => Err(RenderModelError::InvalidArg),
        Some(n) => match get_render_model_data(n) {
            Some(a) => Ok(a),
            None => Err(RenderModelError::InvalidArg),
        },
    }
}

/// The models and textures handed out to the application, by the address
/// it was given, so that a later free can tell them from pointers that are
/// not ours.
pub struct RenderModelData<M> {
    loaded_model_data: std::collections::HashMap<usize, M>,
    loaded_textures: std::collections::HashMap<usize, OwnedTexture>,
}

impl<M> RenderModelData<M> {
    /// The models handed out, by address.
    pub closed spec fn models(&self) -> Map<usize, M> {
        self.loaded_model_data@
    }

    /// The textures handed out, by address.
    pub closed spec fn textures(&self) -> Map<usize, OwnedTexture> {
        self.loaded_textures@
    }

    pub fn new() -> (r: Self)
        ensures
            r.models() == Map::<usize, M>::empty(),
            r.textures() == Map::<usize, OwnedTexture>::empty(),
    {
        RenderModelData {
            loaded_model_data: std::collections::HashMap::new(),
            loaded_textures: std::collections::HashMap::new(),
        }
    }

    /// Records a texture handed out at `key`.
    pub fn insert_texture(&mut self, key: usize, texture: OwnedTexture)
        ensures
            final(self).textures() == old(self).textures().insert(key, texture),
            final(self).models() == old(self).models(),
    {
        broadcast use vstd::std_specs::hash::group_hash_axioms;

        self.loaded_textures.insert(key, texture);
    }

    /// Forgets the texture at `key`: true when it was ours (and is to be
    /// freed), false for any other pointer, which is left alone.
    pub fn remove_texture(&mut self, key: usize) -> (r: bool)
        ensures
            r == old(self).textures().contains_key(key),
            final(self).textures() == old(self).textures().remove(key),
            final(self).models() == old(self).models(),
    {
        broadcast use vstd::std_specs::hash::group_hash_axioms;

        self.loaded_textures.remove(&key).is_some()
    }

    /// Whether a texture is handed out at `key`.
    pub fn has_texture(&self, key: usize) -> (r: bool)
        ensures
            r == self.textures().contains_key(key),
    {
        broadcast use vstd::std_specs::hash::group_hash_axioms;

        self.loaded_textures.contains_key(&key)
    }

    /// Records a model handed out at `key`.
    pub fn insert_model(&mut self, key: usize, model: M)
        ensures
            final(self).models() == old(self).models().insert(key, model),
            final(self).textures() == old(self).textures(),
    {
        broadcast use vstd::std_specs::hash::group_hash_axioms;

        self.loaded_model_data.insert(key, model);
    }

    /// Forgets the model at `key`: true when it was ours (and is to be
    /// freed), false for any other pointer, which is left alone.
    pub fn remove_model(&mut self, key: usize) -> (r: bool)
        ensures
            r == old(self).models().contains_key(key),
            final(self).models() == old(self).models().remove(key),
            final(self).textures() == old(self).textures(),
    {
        broadcast use vstd::std_specs::hash::group_hash_axioms;

        self.loaded_model_data.remove(&key).is_some()
    }

    /// Whether a model is handed out at `key`.
    pub fn has_model(&self, key: usize) -> (r: bool)
        ensures
            r == self.models().contains_key(key),
    {
        broadcast use vstd::std_specs::hash::group_hash_axioms;

        self.loaded_model_data.contains_key(&key)
    }
}

/// What is loaded at an address is freed by the first free of it; a second
/// free of it, like a free of an address never handed out, finds nothing
/// and changes nothing.
pub proof fn lemma_free_once<V>(handed_out: Map<usize, V>, key: usize, value: V)
    ensures
        handed_out.insert(key, value).contains_key(key),
        !handed_out.insert(key, value).remove(key).contains_key(key),
        handed_out.insert(key, value).remove(key).remove(key) == handed_out.insert(key, value).remove(
            key,
        ),
        !handed_out.contains_key(key) ==> handed_out.remove(key) == handed_out,
{
    assert(handed_out.insert(key, value).remove(key).remove(key) =~= handed_out.insert(key, value).remove(key));
    if !handed_out.contains_key(key) {
        assert(handed_out.remove(key) =~= handed_out);
    }
}

proof fn lemma_lookup_listed(t: Seq<(Seq<char>, RenderModelAsset)>, i: int)
    requires
        0 <= i < t.len(),
    ensures
        lookup_in(t, t[i].0).is_some(),
    decreases i,
{
    if t[0].0 != t[i].0 {
        assert(t.drop_first()[i - 1] == t[i]);
        lemma_lookup_listed(t.drop_first(), i - 1);
    }
}

proof fn lemma_listed_names_start_plain(i: int)
    requires
        0 <= i < spec_render_model_table().len(),
    ensures
        spec_render_model_table()[i].0.len() > 0,
        spec_render_model_table()[i].0[0] != '{',
{
    reveal_strlit("generic_controller");
    reveal_strlit("oculus_quest2_controller_left");
    reveal_strlit("oculus_quest2_controller_right");
    reveal_strlit("oculus_quest_plus_controller_left");
    reveal_strlit("oculus_quest_plus_controller_right");
    reveal_strlit("valve_controller_knu_1_0_left");
    reveal_strlit("valve_controller_knu_1_0_right");
    reveal_strlit("vive_focus3_controller_left");
    reveal_strlit("vive_focus3_controller_right");
    reveal_strlit("vr_controller_vive_1_5");
    reveal_strlit("vr_tracker_vive_3_0");
}

/// Every model the table lists resolves by its own name, and a name with
/// any `{driver}` prefix resolves as the name without it.
pub proof fn lemma_listed_models_resolve(i: int, driver: Seq<char>)
    requires
        0 <= i < spec_render_model_table().len(),
        !driver.contains('}'),
    ensures
        spec_resolve_model(encode_utf8(spec_render_model_table()[i].0)) == lookup_in(
            spec_render_model_table(),
            spec_render_model_table()[i].0,
        ),
        spec_resolve_model(encode_utf8(spec_render_model_table()[i].0)).is_some(),
        spec_resolve_model(
            encode_utf8(seq!['{'] + driver + seq!['}'] + spec_render_model_table()[i].0),
        ) == spec_resolve_model(encode_utf8(spec_render_model_table()[i].0)),
{
    let t = spec_render_model_table();
    let n = t[i].0;
    let prefixed = seq!['{'] + driver + seq!['}'] + n;
    lemma_listed_names_start_plain(i);
    lemma_plain_name_kept(n);
    lemma_driver_prefix_ignored(driver, n);
    lemma_lookup_listed(t, i);
    encode_utf8_valid_utf8(n);
    encode_utf8_decode_utf8(n);
    encode_utf8_valid_utf8(prefixed);
    encode_utf8_decode_utf8(prefixed);
}


// ------------------------------------------------------------ OBJ models

/// Whether `c` is white space as `char::is_whitespace` has it (the Unicode
/// `White_Space` property), which is how the OBJ parser splits a line
/// into words.
pub open spec fn is_white_space(c: char) -> bool {
    let u = c as u32;
    ||| 0x9 <= u <= 0xd
    ||| u == 0x20
    ||| u == 0x85
    ||| u == 0xa0
    ||| u == 0x1680
    ||| 0x2000 <= u <= 0x200a
    ||| u == 0x2028
    ||| u == 0x2029
    ||| u == 0x202f
    ||| u == 0x205f
    ||| u == 0x3000
}

fn white_space(c: char) -> (r: bool)
    ensures
        r == is_white_space(c),
{
    let u = c as u32;
    (0x9 <= u && u <= 0xd) || u == 0x20 || u == 0x85 || u == 0xa0 || u == 0x1680 || (0x2000 <= u
        && u <= 0x200a) || u == 0x2028 || u == 0x2029 || u == 0x202f || u == 0x205f || u == 0x3000
}

/// The first word of `cs` runs from `i` to `j`: white space before it,
/// none in it, and white space or the end after it (empty at the end of a
/// blank line).
pub open spec fn is_first_word(cs: Seq<char>, i: int, j: int) -> bool {
    &&& 0 <= i <= j <= cs.len()
    &&& forall|k: int| 0 <= k < i ==> is_white_space(#[trigger] cs[k])
    &&& i == cs.len() || !is_white_space(cs[i])
    &&& forall|k: int| i <= k < j ==> !is_white_space(#[trigger] cs[k])
    &&& j == cs.len() || is_white_space(cs[j])
}

/// Whether the first word of `cs` is the one character `c`.
pub open spec fn first_word_is_char(cs: Seq<char>, c: char) -> bool {
    exists|i: int| #[trigger] is_first_word(cs, i, i + 1) && cs[i] == c
}

proof fn lemma_first_word_unique(cs: Seq<char>, i: int, j: int, i2: int, j2: int)
    requires
        is_first_word(cs, i, j),
        is_first_word(cs, i2, j2),
    ensures
        i == i2,
        j == j2,
{
    if i < i2 {
        assert(is_white_space(cs[i]));
    } else if i2 < i {
        assert(is_white_space(cs[i2]));
    }
    if j < j2 {
        assert(!is_white_space(cs[j]));
    } else if j2 < j {
        assert(!is_white_space(cs[j2]));
    }
}

fn first_word_bounds(cs: &Vec<char>) -> (r: (usize, usize))
    ensures
        is_first_word(cs@, r.0 as int, r.1 as int),
{
    let mut i: usize = 0;
    while i < cs.len() && white_space(cs[i])
        invariant
            i <= cs@.len(),
            forall|k: int| 0 <= k < i ==> is_white_space(#[trigger] cs@[k]),
        decreases cs@.len() - i,
    {
        i = i + 1;
    }
    let mut j: usize = i;
    while j < cs.len() && !white_space(cs[j])
        invariant
            i <= j <= cs@.len(),
            forall|k: int| i <= k < j ==> !is_white_space(#[trigger] cs@[k]),
        decreases cs@.len() - j,
    {
        j = j + 1;
    }
    (i, j)
}

fn first_word_is(cs: &Vec<char>, c: char) -> (r: bool)
    ensures
        r == first_word_is_char(cs@, c),
{
    let (i, j) = first_word_bounds(cs);
    let r = i < j && j - i == 1 && cs[i] == c;
    proof {
        if first_word_is_char(cs@, c) {
            let i2 = choose|i2: int| #[trigger] is_first_word(cs@, i2, i2 + 1) && cs@[i2] == c;
            lemma_first_word_unique(cs@, i as int, j as int, i2, i2 + 1);
        }
        if r {
            assert(is_first_word(cs@, i as int, i + 1));
        }
    }
    r
}

/// Whether the OBJ parser would cut `line` inside a character, which makes
/// it panic: it cuts a line of more than two bytes whose first word is `o`
/// after its first byte, and one whose first word is `g` after its second.
pub open spec fn obj_line_cuts_char(line: Seq<u8>) -> bool {
    &&& valid_utf8(line)
    &&& line.len() > 2
    &&& {
        ||| first_word_is_char(decode_utf8(line), 'o') && is_continuation_byte(line[1])
        ||| first_word_is_char(decode_utf8(line), 'g') && is_continuation_byte(line[2])
    }
}

/// The lines of a text: its pieces between line feeds.
pub open spec fn text_lines(text: Seq<u8>) -> Seq<Seq<u8>>
    decreases text.len(),
{
    if text.len() == 0 {
        seq![Seq::<u8>::empty()]
    } else {
        let prev = text_lines(text.drop_last());
        if text.last() == 10u8 {
            prev.push(Seq::<u8>::empty())
        } else {
            prev.update(prev.len() - 1, prev.last().push(text.last()))
        }
    }
}

proof fn lemma_text_lines_nonempty(text: Seq<u8>)
    ensures
        text_lines(text).len() >= 1,
    decreases text.len(),
{
    if text.len() > 0 {
        lemma_text_lines_nonempty(text.drop_last());
    }
}

/// Whether the OBJ parser reads `text` without panicking: no line of it is
/// cut inside a character. (This also rules out texts in which such a line
/// only follows a line that the parser already rejects.)
pub open spec fn obj_text_parses_safely(text: Seq<u8>) -> bool {
    forall|j: int| 0 <= j < text_lines(text).len() ==> !obj_line_cuts_char(#[trigger] text_lines(text)[j])
}

fn line_cuts_char(line: &Vec<u8>) -> (r: bool)
    ensures
        r == obj_line_cuts_char(line@),
{
    if line.len() <= 2 {
        return false;
    }
    let c1 = 0x80u8 <= line[1] && line[1] <= 0xbfu8;
    let c2 = 0x80u8 <= line[2] && line[2] <= 0xbfu8;
    if !c1 && !c2 {
        return false;
    }
    match utf8_str(line.as_slice()) {
        None => false,
        Some(s) => {
            proof {
                encode_utf8_valid_utf8(s@);
                encode_utf8_decode_utf8(s@);
            }
            let cs = chars_of(s);
            (c1 && first_word_is(&cs, 'o')) || (c2 && first_word_is(&cs, 'g'))
        },
    }
}

/// Whether the OBJ parser reads `text` without panicking.
pub fn obj_text_safe(text: &[u8]) -> (r: bool)
    ensures
        r == obj_text_parses_safely(text@),
{
    let mut safe = true;
    let mut cur: Vec<u8> = Vec::new();
    let mut i: usize = 0;
    assert(text@.subrange(0, 0) =~= Seq::<u8>::empty());
    while i < text.len()
        invariant
            i <= text@.len(),
            text_lines(text@.subrange(0, i as int)).len() >= 1,
            cur@ == text_lines(text@.subrange(0, i as int)).last(),
            safe == forall|j: int|
                0 <= j < text_lines(text@.subrange(0, i as int)).len() - 1 ==> !obj_line_cuts_char(
                    #[trigger] text_lines(text@.subrange(0, i as int))[j],
                ),
        decreases text@.len() - i,
    {
        let ghost pre = text@.subrange(0, i as int);
        let ghost post = text@.subrange(0, i + 1);
        assert(post.drop_last() =~= pre);
        assert(post.last() == text@[i as int]);
        proof {
            lemma_text_lines_nonempty(pre);
        }
        let b = text[i];
        if b == 10u8 {
            let cut = line_cuts_char(&cur);
            safe = safe && !cut;
            cur = Vec::new();
            assert(cur@ =~= Seq::<u8>::empty());
            let ghost lp = text_lines(pre);
            assert(text_lines(post) == lp.push(Seq::<u8>::empty()));
            assert(safe == forall|j: int|
                0 <= j < text_lines(post).len() - 1 ==> !obj_line_cuts_char(
                    #[trigger] text_lines(post)[j],
                )) by {
                if safe {
                    assert forall|j: int| 0 <= j < text_lines(post).len() - 1 implies !obj_line_cuts_char(
                        #[trigger] text_lines(post)[j],
                    ) by {
                        assert(text_lines(post)[j] == lp[j]);
                    }
                } else if !cut {
                    let j = choose|j: int| 0 <= j < lp.len() - 1 && obj_line_cuts_char(#[trigger] lp[j]);
                    assert(text_lines(post)[j] == lp[j]);
                } else {
                    assert(text_lines(post)[lp.len() - 1] == lp[lp.len() - 1]);
                }
            }
        } else {
            cur.push(b);
            let ghost lp = text_lines(pre);
            assert(text_lines(post) == lp.update(lp.len() - 1, lp.last().push(b)));
            assert(safe == forall|j: int|
                0 <= j < text_lines(post).len() - 1 ==> !obj_line_cuts_char(
                    #[trigger] text_lines(post)[j],
                )) by {
                if safe {
                    assert forall|j: int| 0 <= j < text_lines(post).len() - 1 implies !obj_line_cuts_char(
                        #[trigger] text_lines(post)[j],
                    ) by {
                        assert(text_lines(post)[j] == lp[j]);
                    }
                } else {
                    let j = choose|j: int| 0 <= j < lp.len() - 1 && obj_line_cuts_char(#[trigger] lp[j]);
                    assert(text_lines(post)[j] == lp[j]);
                }
            }
        }
        i = i + 1;
    }
    assert(text@.subrange(0, text@.len() as int) =~= text@);
    let last_cut = line_cuts_char(&cur);
    let r = safe && !last_cut;
    proof {
        let ls = text_lines(text@);
        if r {
            assert forall|j: int| 0 <= j < ls.len() implies !obj_line_cuts_char(#[trigger] ls[j]) by {
                if j < ls.len() - 1 {
                } else {
                    assert(ls[j] == cur@);
                }
            }
        } else if !safe {
            let j = choose|j: int| 0 <= j < ls.len() - 1 && obj_line_cuts_char(#[trigger] ls[j]);
        } else {
            assert(obj_line_cuts_char(ls[ls.len() - 1]));
        }
    }
    r
}


/// The polygons of an OBJ file by object, group and polygon, each vertex by
/// its `(position, texture, normal)` references, and the number of vertex
/// positions, as `obj::ObjData::load_buf` reads them from `text`; nothing
/// when it rejects the text.
pub uninterp spec fn obj_topology(text: Seq<u8>) -> Option<(Seq<Seq<Seq<Seq<VertexKey>>>>, nat)>;

/// The objects of a parsed OBJ file, as sequences.
pub open spec fn objects_view(v: Seq<Vec<Vec<Vec<VertexKey>>>>) -> Seq<Seq<Seq<Seq<VertexKey>>>> {
    v.map_values(
        |o: Vec<Vec<Vec<VertexKey>>>|
            o@.map_values(|g: Vec<Vec<VertexKey>>| g@.map_values(|p: Vec<VertexKey>| p@)),
    )
}

/// Parses OBJ text with `obj::ObjData::load_buf` and copies out, one for
/// one, the vertex references of every polygon of every group of every
/// object, and the number of vertex positions. The result is named, not
/// described. `requires` leaves out the texts on which the parser panics
/// (see [`obj_text_parses_safely`]).
#[verifier::external_body]
fn obj_parse_topology(text: &[u8]) -> (r: Option<(Vec<Vec<Vec<Vec<VertexKey>>>>, usize)>)
    requires
        obj_text_parses_safely(text@),
    ensures
        match r {
            Some((objects, n)) => obj_topology(text@) == Some((objects_view(objects@), n as nat)),
            None => obj_topology(text@).is_none(),
        },
{
    let obj = obj::ObjData::load_buf(text).ok()?;
    let objects = obj.objects.iter().map(|o| {
        o.groups.iter().map(|g| {
            g.polys.iter().map(|p| p.0.iter().map(|t| (t.0, t.1, t.2)).collect()).collect()
        }).collect()
    }).collect();
    Some((objects, obj.position.len()))
}

/// The polygons of a group list, group after group.
pub open spec fn group_polygons(groups: Seq<Seq<Seq<VertexKey>>>) -> Seq<Seq<VertexKey>>
    decreases groups.len(),
{
    if groups.len() == 0 {
        Seq::empty()
    } else {
        group_polygons(groups.drop_last()) + groups.last()
    }
}

/// The polygons of all objects and groups of an OBJ file, in file order.
pub open spec fn obj_polygons(objects: Seq<Seq<Seq<Seq<VertexKey>>>>) -> Seq<Seq<VertexKey>>
    decreases objects.len(),
{
    if objects.len() == 0 {
        Seq::empty()
    } else {
        obj_polygons(objects.drop_last()) + group_polygons(objects.last())
    }
}

fn copy_polygon(p: &Vec<VertexKey>) -> (r: Vec<VertexKey>)
    ensures
        r@ == p@,
{
    let mut r: Vec<VertexKey> = Vec::new();
    let mut m: usize = 0;
    while m < p.len()
        invariant
            m <= p@.len(),
            r@ == p@.subrange(0, m as int),
        decreases p@.len() - m,
    {
        r.push(p[m]);
        m = m + 1;
        assert(r@ =~= p@.subrange(0, m as int));
    }
    assert(p@.subrange(0, p@.len() as int) =~= p@);
    r
}

/// The polygons of all objects and groups, in file order.
fn flatten_polygons(objects: &Vec<Vec<Vec<Vec<VertexKey>>>>) -> (r: Vec<Vec<VertexKey>>)
    ensures
        r@.map_values(|p: Vec<VertexKey>| p@) == obj_polygons(objects_view(objects@)),
{
    let ghost ov = objects_view(objects@);
    let mut r: Vec<Vec<VertexKey>> = Vec::new();
    let mut o: usize = 0;
    assert(ov.subrange(0, 0) =~= Seq::<Seq<Seq<Seq<VertexKey>>>>::empty());
    assert(r@.map_values(|p: Vec<VertexKey>| p@) =~= Seq::<Seq<VertexKey>>::empty());
    while o < objects.len()
        invariant
            o <= objects@.len(),
            ov == objects_view(objects@),
            ov.len() == objects@.len(),
            r@.map_values(|p: Vec<VertexKey>| p@) == obj_polygons(ov.subrange(0, o as int)),
        decreases objects@.len() - o,
    {
        let groups = &objects[o];
        let ghost gv = ov[o as int];
        assert(gv == groups@.map_values(|g: Vec<Vec<VertexKey>>| g@.map_values(|p: Vec<VertexKey>| p@)));
        let ghost base = r@.map_values(|p: Vec<VertexKey>| p@);
        let mut g: usize = 0;
        assert(gv.subrange(0, 0) =~= Seq::<Seq<Seq<VertexKey>>>::empty());
        assert(base + group_polygons(gv.subrange(0, 0)) =~= base);
        while g < groups.len()
            invariant
                o < objects@.len(),
                g <= groups@.len(),
                groups == objects@[o as int],
                gv == groups@.map_values(|g: Vec<Vec<VertexKey>>| g@.map_values(|p: Vec<VertexKey>| p@)),
                gv.len() == groups@.len(),
                r@.map_values(|p: Vec<VertexKey>| p@) == base + group_polygons(gv.subrange(0, g as int)),
            decreases groups@.len() - g,
        {
            let polys = &groups[g];
            let ghost pv = gv[g as int];
            assert(pv == polys@.map_values(|p: Vec<VertexKey>| p@));
            let ghost mid = r@.map_values(|p: Vec<VertexKey>| p@);
            let mut k: usize = 0;
            assert(mid + pv.subrange(0, 0) =~= mid);
            while k < polys.len()
                invariant
                    k <= polys@.len(),
                    g < groups@.len(),
                    polys == groups@[g as int],
                    pv == polys@.map_values(|p: Vec<VertexKey>| p@),
                    r@.map_values(|p: Vec<VertexKey>| p@) == mid + pv.subrange(0, k as int),
                decreases polys@.len() - k,
            {
                let ghost before = r@;
                let c = copy_polygon(&polys[k]);
                r.push(c);
                k = k + 1;
                assert(r@.map_values(|p: Vec<VertexKey>| p@) =~= before.map_values(
                    |p: Vec<VertexKey>| p@,
                ).push(pv[k - 1]));
                assert(mid + pv.subrange(0, k as int) =~= (mid + pv.subrange(0, k - 1)).push(
                    pv[k - 1],
                ));
            }
            assert(pv.subrange(0, polys@.len() as int) =~= pv);
            let ghost gs = gv.subrange(0, g + 1);
            assert(gs.drop_last() =~= gv.subrange(0, g as int));
            assert(gs.last() == pv);
            g = g + 1;
            assert(base + group_polygons(gv.subrange(0, g as int)) =~= mid + pv);
        }
        assert(gv.subrange(0, groups@.len() as int) =~= gv);
        let ghost os = ov.subrange(0, o + 1);
        assert(os.drop_last() =~= ov.subrange(0, o as int));
        assert(os.last() == gv);
        o = o + 1;
    }
    assert(ov.subrange(0, objects@.len() as int) =~= ov);
    r
}

/// The vertices and index buffer of a model given by its OBJ text, or the
/// error: `InvalidModel` when the OBJ parser rejects the text.
pub open spec fn spec_model_topology(text: Seq<u8>, flipped: bool) -> Result<
    (Seq<VertexKey>, Seq<u16>),
    RenderModelError,
> {
    match obj_topology(text) {
        None => Err(RenderModelError::InvalidModel),
        Some((objects, n)) => spec_build_mesh(obj_polygons(objects), n, flipped),
    }
}

/// The vertices and index buffer of a model given by its compressed
/// resource: `InvalidModel` when it does not decompress.
pub open spec fn spec_load_model_topology(compressed: Seq<u8>, flipped: bool) -> Result<
    (Seq<VertexKey>, Seq<u16>),
    RenderModelError,
> {
    match lz4_frame_decompress(compressed) {
        None => Err(RenderModelError::InvalidModel),
        Some(text) => spec_model_topology(text, flipped),
    }
}

/// A mesh topology result, as sequences.
pub open spec fn topology_view(r: Result<(Vec<VertexKey>, Vec<u16>), RenderModelError>) -> Result<
    (Seq<VertexKey>, Seq<u16>),
    RenderModelError,
> {
    match r {
        Ok((k, i)) => Ok((k@, i@)),
        Err(e) => Err(e),
    }
}

fn model_topology_from_text(text: &[u8], flipped: bool) -> (r: Result<
    (Vec<VertexKey>, Vec<u16>),
    RenderModelError,
>)
    requires
        obj_text_parses_safely(text@),
    ensures
        topology_view(r) == spec_model_topology(text@, flipped),
{
    match obj_parse_topology(text) {
        None => Err(RenderModelError::InvalidModel),
        Some((objects, n)) => {
            let polys = flatten_polygons(&objects);
            build_mesh_topology(&polys, n, flipped)
        },
    }
}

/// The vertices (by their OBJ references, in order of first use) and the
/// index buffer of a compressed OBJ model resource; `right` models are
/// mirrored (`flipped`), which reverses the winding of their triangles.
/// `InvalidModel` when the resource does not decompress or the OBJ parser
/// rejects it. `requires` leaves out resources whose text makes the parser
/// panic; [`try_load_model_topology`] checks for them first.
pub fn load_model_topology(compressed: &[u8], flipped: bool) -> (r: Result<
    (Vec<VertexKey>, Vec<u16>),
    RenderModelError,
>)
    requires
        lz4_frame_decompress(compressed@) matches Some(text) ==> obj_text_parses_safely(text),
    ensures
        topology_view(r) == spec_load_model_topology(compressed@, flipped),
{
    match decompress_model(compressed) {
        Err(e) => Err(e),
        Ok(text) => model_topology_from_text(text.as_slice(), flipped),
    }
}

/// [`load_model_topology`], with the check that the parser reads the text
/// without panicking made first: `None` exactly when the resource
/// decompresses to a text that it would not read.
pub fn try_load_model_topology(compressed: &[u8], flipped: bool) -> (r: Option<
    Result<(Vec<VertexKey>, Vec<u16>), RenderModelError>,
>)
    ensures
        match lz4_frame_decompress(compressed@) {
            Some(text) if !obj_text_parses_safely(text) => r.is_none(),
            _ => r matches Some(t) && topology_view(t) == spec_load_model_topology(compressed@, flipped),
        },
{
    match decompress_model(compressed) {
        Err(e) => Some(Err(e)),
        Ok(text) => {
            if obj_text_safe(text.as_slice()) {
                Some(load_model_topology(compressed, flipped))
            } else {
                None
            }
        },
    }
}


/// The resources that hold a left-hand controller model.
pub open spec fn is_left_hand_resource(r: ModelResource) -> bool {
    ||| r == ModelResource::OculusQuest2ControllerLeft
    ||| r == ModelResource::OculusQuestPlusControllerLeft
    ||| r == ModelResource::ValveControllerKnu10Left
    ||| r == ModelResource::ViveFocus3ControllerLeft
}

/// Whether `s` ends with `suffix`.
pub open spec fn ends_with(s: Seq<char>, suffix: Seq<char>) -> bool {
    &&& s.len() >= suffix.len()
    &&& forall|k: int| 0 <= k < suffix.len() ==> #[trigger] s[s.len() - suffix.len() + k] == suffix[k]
}

/// Right-hand models are their left-hand model mirrored: every table entry
/// named `..._right` is a left-hand resource, flipped, and the entry named
/// `..._left` with the same stem has the same resource, unflipped; every
/// other entry is drawn as it is.
pub proof fn lemma_right_models_are_mirrored_left_models(i: int)
    requires
        0 <= i < spec_render_model_table().len(),
    ensures
        ({
            let (name, a) = spec_render_model_table()[i];
            &&& ends_with(name, "_right"@) ==> {
                &&& a.flipped
                &&& is_left_hand_resource(a.resource)
                &&& exists|k: int|
                    0 <= k < spec_render_model_table().len() && #[trigger] spec_render_model_table()[k]
                        == (name.subrange(0, name.len() - 6) + "_left"@, asset(a.resource, false))
            }
            &&& !ends_with(name, "_right"@) ==> !a.flipped
            &&& ends_with(name, "_left"@) ==> is_left_hand_resource(a.resource)
        }),
{
    reveal_strlit("generic_controller");
    reveal_strlit("oculus_quest2_controller_left");
    reveal_strlit("oculus_quest2_controller_right");
    reveal_strlit("oculus_quest_plus_controller_left");
    reveal_strlit("oculus_quest_plus_controller_right");
    reveal_strlit("valve_controller_knu_1_0_left");
    reveal_strlit("valve_controller_knu_1_0_right");
    reveal_strlit("vive_focus3_controller_left");
    reveal_strlit("vive_focus3_controller_right");
    reveal_strlit("vr_controller_vive_1_5");
    reveal_strlit("vr_tracker_vive_3_0");
    reveal_strlit("_right");
    reveal_strlit("_left");
    let t = spec_render_model_table();
    let name = t[i].0;
    let a = t[i].1;
    assert(name[name.len() - 6 + 0] == name[name.len() - 6]);
    assert(name[name.len() - 5 + 0] == name[name.len() - 5]);
    if i == 2 || i == 4 || i == 6 || i == 8 {
        assert(t[i - 1].0 =~= name.subrange(0, name.len() - 6) + "_left"@);
        assert(t[i - 1] == (name.subrange(0, name.len() - 6) + "_left"@, asset(a.resource, false)));
    }
}
} // verus!
