//! The asset import pipeline's decisions and decoding.
//!
//! The surrounding application opens the document, reads buffer files and
//! converts the parsed document into the plain structures here; this
//! module then makes every import decision and decodes every accessor,
//! producing a plan whose arrays the application only has to run through
//! the floating-point steps (texture loads, UV wraparound, tangents) and
//! upload.

use vstd::prelude::*;
use crate::accessor::AccessorView;
use crate::accessor::DecodeError;
use crate::accessor::decoded_scalar;
use crate::accessor::float_bits_of;
use crate::accessor::float_representable;
use crate::accessor::index_representable;
use crate::accessor::index_value;
use crate::accessor::load_2d_array;
use crate::accessor::load_3d_array;
use crate::accessor::load_indices;
use crate::material::MaterialResolution;
use crate::material::MaterialSource;
use crate::material::resolution_of;
use crate::material::resolve_material;
use crate::transform::NodeTransform;
use crate::transform::TransformParts;
use crate::transform::decompose_transform;
use crate::transform::decomposition_of;

verus! {

/// The well-known relative path substituted for every texture that fails
/// to resolve. Callers must guarantee an asset exists there, or the
/// fallback itself fails.
pub fn missing_texture_path() -> (r: &'static str)
    ensures
        r@ == "assets/missing_texture.png"@,
{
    "assets/missing_texture.png"
}

/// One buffer of the document: its bytes if its source was a URI the
/// application could read, or the mark of a source kind the import does
/// not support (such as data embedded in the document).
pub enum BufferData {
    Uri { data: Vec<u8> },
    Unsupported,
}

/// An accessor together with the buffer it reads.
#[derive(Clone, Copy, PartialEq, Eq, Debug)]
pub struct DocAccessor {
    pub buffer: usize,
    pub view: AccessorView,
}

/// One primitive as the document states it. Attribute semantics other
/// than positions, normals and the first texture-coordinate channel are
/// dropped when the document is read.
#[derive(Clone, Copy)]
pub struct PrimitiveSource {
    pub indices: Option<DocAccessor>,
    pub positions: Option<DocAccessor>,
    pub normals: Option<DocAccessor>,
    pub tex_coords: Option<DocAccessor>,
    pub material_index: usize,
}

/// One scene node: its transform, and its mesh if it has one.
pub struct NodeSource {
    pub transform: NodeTransform,
    pub primitives: Option<Vec<PrimitiveSource>>,
}

/// A whole document, reduced to what the import reads.
pub struct GltfDoc {
    pub buffers: Vec<BufferData>,
    pub materials: Vec<MaterialSource>,
    pub default_scene: Option<Vec<NodeSource>>,
}

/// Why an import failed.
#[derive(Clone, Copy, PartialEq, Eq, Structural, Debug)]
pub enum ImportError {
    /// A primitive has no index accessor.
    MissingIndices,
    /// The document names no default scene.
    MissingDefaultScene,
    /// A node of the scene has no mesh.
    MissingMeshOnNode,
    /// A buffer's source is not a URI.
    UnsupportedBufferSource,
    /// An accessor failed to decode.
    Decode(DecodeError),
}

/// The decoded arrays of one primitive, ready for vertex assembly.
#[derive(Debug)]
pub struct PrimitiveData {
    pub indices: Vec<u32>,
    pub positions: Vec<[u32; 3]>,
    pub normals: Vec<[u32; 3]>,
    pub tex_coords: Vec<[u32; 2]>,
    pub material_index: usize,
}

/// One node's share of the import plan.
#[derive(Debug)]
pub struct NodePlan {
    pub transform: TransformParts,
    pub primitives: Vec<PrimitiveData>,
}

/// Everything the import decided and decoded: the application loads the
/// resolved textures, wraps texture coordinates, reconstructs tangents
/// and uploads buffers, in this order, and registers the result.
#[derive(Debug)]
pub struct ImportPlan {
    pub materials: Vec<MaterialResolution>,
    pub nodes: Vec<NodePlan>,
}

/// The bytes of buffer `i`; empty for an unsupported source.
pub open spec fn buffer_bytes(buffers: Seq<BufferData>, i: int) -> Seq<u8> {
    match buffers[i] {
        BufferData::Uri { data } => data@,
        BufferData::Unsupported => Seq::empty(),
    }
}

/// The structural conditions the exec code relies on: in-range buffer
/// references and the dimensionality each attribute kind declares.
pub open spec fn accessor_wf(acc: DocAccessor, buffers: Seq<BufferData>, dim: int) -> bool {
    &&& acc.buffer < buffers.len()
    &&& acc.view.wf()
    &&& acc.view.dimension == dim
}

/// Every accessor of the primitive is well-formed for its kind.
pub open spec fn primitive_wf(prim: PrimitiveSource, buffers: Seq<BufferData>) -> bool {
    &&& (prim.indices matches Some(acc) ==> accessor_wf(acc, buffers, 1))
    &&& (prim.positions matches Some(acc) ==> accessor_wf(acc, buffers, 3))
    &&& (prim.normals matches Some(acc) ==> accessor_wf(acc, buffers, 3))
    &&& (prim.tex_coords matches Some(acc) ==> accessor_wf(acc, buffers, 2))
}

/// Every accessor of the document is well-formed.
pub open spec fn doc_wf(doc: GltfDoc) -> bool {
    doc.default_scene matches Some(nodes) ==> forall|n: int|
        0 <= n < nodes.len() ==> (#[trigger] nodes[n].primitives matches Some(prims)
            ==> forall|p: int|
            0 <= p < prims.len() ==> primitive_wf(#[trigger] prims[p], doc.buffers@))
}

/// One accessor decodes as `u32` indices without error.
pub open spec fn indices_decode_ok(acc: DocAccessor, buffers: Seq<BufferData>) -> bool {
    let bytes = buffer_bytes(buffers, acc.buffer as int);
    &&& acc.view.in_bounds(bytes.len() as int)
    &&& forall|i: int|
        0 <= i < acc.view.count ==> index_representable(
            decoded_scalar(bytes, acc.view, i, 0),
            acc.view.data_type,
        )
}

/// One accessor decodes as float bit patterns without error, at the given
/// dimensionality.
pub open spec fn floats_decode_ok(acc: DocAccessor, buffers: Seq<BufferData>, dim: int) -> bool {
    let bytes = buffer_bytes(buffers, acc.buffer as int);
    &&& acc.view.in_bounds(bytes.len() as int)
    &&& forall|i: int, d: int|
        0 <= i < acc.view.count && 0 <= d < dim ==> float_representable(
            decoded_scalar(bytes, acc.view, i, d),
            acc.view.data_type,
        )
}

/// The primitive has an index accessor and each of its accessors decodes
/// without error.
pub open spec fn primitive_decode_ok(prim: PrimitiveSource, buffers: Seq<BufferData>) -> bool {
    &&& prim.indices is Some
    &&& indices_decode_ok(prim.indices->Some_0, buffers)
    &&& (prim.positions matches Some(acc) ==> floats_decode_ok(acc, buffers, 3))
    &&& (prim.normals matches Some(acc) ==> floats_decode_ok(acc, buffers, 3))
    &&& (prim.tex_coords matches Some(acc) ==> floats_decode_ok(acc, buffers, 2))
}

/// `data` holds exactly the decoded arrays of `prim`: indices as `u32`
/// values, attributes as float bit patterns, an absent attribute as an
/// empty array, and the material reference carried over.
pub open spec fn primitive_decoded(
    prim: PrimitiveSource,
    buffers: Seq<BufferData>,
    data: PrimitiveData,
) -> bool {
    &&& match prim.indices {
        Some(acc) => {
            let bytes = buffer_bytes(buffers, acc.buffer as int);
            &&& data.indices@.len() == acc.view.count
            &&& forall|i: int|
                0 <= i < acc.view.count ==> data.indices@[i] == index_value(
                    decoded_scalar(bytes, acc.view, i, 0),
                    acc.view.data_type,
                )
        },
        None => false,
    }
    &&& match prim.positions {
        Some(acc) => {
            let bytes = buffer_bytes(buffers, acc.buffer as int);
            &&& data.positions@.len() == acc.view.count
            &&& forall|i: int|
                0 <= i < acc.view.count ==> float_bits_of(
                    data.positions@[i][0],
                    decoded_scalar(bytes, acc.view, i, 0),
                    acc.view.data_type,
                ) && float_bits_of(
                    data.positions@[i][1],
                    decoded_scalar(bytes, acc.view, i, 1),
                    acc.view.data_type,
                ) && float_bits_of(
                    data.positions@[i][2],
                    decoded_scalar(bytes, acc.view, i, 2),
                    acc.view.data_type,
                )
        },
        None => data.positions@.len() == 0,
    }
    &&& match prim.normals {
        Some(acc) => {
            let bytes = buffer_bytes(buffers, acc.buffer as int);
            &&& data.normals@.len() == acc.view.count
            &&& forall|i: int|
                0 <= i < acc.view.count ==> float_bits_of(
                    data.normals@[i][0],
                    decoded_scalar(bytes, acc.view, i, 0),
                    acc.view.data_type,
                ) && float_bits_of(
                    data.normals@[i][1],
                    decoded_scalar(bytes, acc.view, i, 1),
                    acc.view.data_type,
                ) && float_bits_of(
                    data.normals@[i][2],
                    decoded_scalar(bytes, acc.view, i, 2),
                    acc.view.data_type,
                )
        },
        None => data.normals@.len() == 0,
    }
    &&& match prim.tex_coords {
        Some(acc) => {
            let bytes = buffer_bytes(buffers, acc.buffer as int);
            &&& data.tex_coords@.len() == acc.view.count
            &&& forall|i: int|
                0 <= i < acc.view.count ==> float_bits_of(
                    data.tex_coords@[i][0],
                    decoded_scalar(bytes, acc.view, i, 0),
                    acc.view.data_type,
                ) && float_bits_of(
                    data.tex_coords@[i][1],
                    decoded_scalar(bytes, acc.view, i, 1),
                    acc.view.data_type,
                )
        },
        None => data.tex_coords@.len() == 0,
    }
    &&& data.material_index == prim.material_index
}

/// Fetches the byte vector of a URI buffer.
fn uri_buffer<'a>(buffers: &'a Vec<BufferData>, i: usize) -> (r: Result<&'a Vec<u8>, ImportError>)
    requires
        i < buffers@.len(),
    ensures
        match r {
            Ok(data) => buffers@[i as int] matches BufferData::Uri { data: d } && data@ == d@
                && data@ == buffer_bytes(buffers@, i as int),
            Err(e) => e == ImportError::UnsupportedBufferSource && !(buffers@[i as int]
                is Uri),
        },
{
    match &buffers[i] {
        BufferData::Uri { data } => Ok(data),
        BufferData::Unsupported => Err(ImportError::UnsupportedBufferSource),
    }
}

/// Decodes one primitive's accessors.
///
/// Fails with `MissingIndices` exactly when the primitive has no index
/// accessor, and with a decode error exactly when one of its accessors
/// fails to decode; an absent attribute decodes to an empty array.
pub fn decode_primitive(buffers: &Vec<BufferData>, prim: &PrimitiveSource) -> (r: Result<
    PrimitiveData,
    ImportError,
>)
    requires
        primitive_wf(*prim, buffers@),
        forall|i: int| 0 <= i < buffers@.len() ==> #[trigger] buffers@[i] is Uri,
    ensures
        r is Ok <==> primitive_decode_ok(*prim, buffers@),
        match r {
            Ok(data) => primitive_decoded(*prim, buffers@, data),
            Err(e) => {
                &&& (e == ImportError::MissingIndices <==> prim.indices is None)
                &&& (e is Decode ==> !primitive_decode_ok(*prim, buffers@))
                &&& (e is MissingIndices || e is Decode)
            },
        },
{
    let indices_acc = match &prim.indices {
        Some(acc) => acc,
        None => {
            return Err(ImportError::MissingIndices);
        },
    };
    let data = match uri_buffer(buffers, indices_acc.buffer) {
        Ok(d) => d,
        Err(e) => {
            return Err(e);
        },
    };
    let indices = match load_indices(data, &indices_acc.view) {
        Ok(v) => v,
        Err(e) => {
            return Err(ImportError::Decode(e));
        },
    };
    let positions = match &prim.positions {
        Some(acc) => {
            let data = match uri_buffer(buffers, acc.buffer) {
                Ok(d) => d,
                Err(e) => {
                    return Err(e);
                },
            };
            match load_3d_array(data, &acc.view) {
                Ok(v) => v,
                Err(e) => {
                    return Err(ImportError::Decode(e));
                },
            }
        },
        None => Vec::new(),
    };
    let normals = match &prim.normals {
        Some(acc) => {
            let data = match uri_buffer(buffers, acc.buffer) {
                Ok(d) => d,
                Err(e) => {
                    return Err(e);
                },
            };
            match load_3d_array(data, &acc.view) {
                Ok(v) => v,
                Err(e) => {
                    return Err(ImportError::Decode(e));
                },
            }
        },
        None => Vec::new(),
    };
    let tex_coords = match &prim.tex_coords {
        Some(acc) => {
            let data = match uri_buffer(buffers, acc.buffer) {
                Ok(d) => d,
                Err(e) => {
                    return Err(e);
                },
            };
            match load_2d_array(data, &acc.view) {
                Ok(v) => v,
                Err(e) => {
                    return Err(ImportError::Decode(e));
                },
            }
        },
        None => Vec::new(),
    };
    Ok(PrimitiveData {
        indices,
        positions,
        normals,
        tex_coords,
        material_index: prim.material_index,
    })
}

/// Every buffer's source is a URI.
pub open spec fn all_buffers_uri(buffers: Seq<BufferData>) -> bool {
    forall|b: int| 0 <= b < buffers.len() ==> #[trigger] buffers[b] is Uri
}

/// Every node of the scene has a mesh.
pub open spec fn all_nodes_meshed(nodes: Seq<NodeSource>) -> bool {
    forall|n: int| 0 <= n < nodes.len() ==> (#[trigger] nodes[n]).primitives is Some
}

/// Every primitive of the scene has indices and decodes cleanly.
pub open spec fn all_primitives_decode_ok(
    nodes: Seq<NodeSource>,
    buffers: Seq<BufferData>,
) -> bool {
    forall|n: int|
        0 <= n < nodes.len() ==> ((#[trigger] nodes[n]).primitives matches Some(prims)
            ==> forall|p: int|
            0 <= p < prims@.len() ==> primitive_decode_ok(#[trigger] prims@[p], buffers))
}

/// Primitive `p` of node `n` exists and lacks an index accessor.
pub open spec fn primitive_missing_indices(nodes: Seq<NodeSource>, n: int, p: int) -> bool {
    &&& 0 <= n < nodes.len()
    &&& nodes[n].primitives is Some
    &&& 0 <= p < nodes[n].primitives->Some_0@.len()
    &&& nodes[n].primitives->Some_0@[p].indices is None
}

/// Some primitive of the scene has no index accessor.
pub open spec fn some_primitive_missing_indices(nodes: Seq<NodeSource>) -> bool {
    exists|n: int, p: int| #[trigger] primitive_missing_indices(nodes, n, p)
}

/// The import succeeds on this document.
pub open spec fn import_ok(doc: GltfDoc) -> bool {
    &&& doc.default_scene is Some
    &&& all_buffers_uri(doc.buffers@)
    &&& all_nodes_meshed(doc.default_scene->Some_0@)
    &&& all_primitives_decode_ok(doc.default_scene->Some_0@, doc.buffers@)
}

/// One node's plan: its decomposed transform and its primitives decoded
/// in order.
pub open spec fn node_planned(node: NodeSource, buffers: Seq<BufferData>, plan: NodePlan) -> bool {
    &&& decomposition_of(node.transform, plan.transform)
    &&& match node.primitives {
        Some(prims) => {
            &&& plan.primitives@.len() == prims@.len()
            &&& forall|p: int|
                0 <= p < prims@.len() ==> primitive_decoded(
                    prims@[p],
                    buffers,
                    #[trigger] plan.primitives@[p],
                )
        },
        None => false,
    }
}

/// The whole plan: material resolutions and node plans, in document
/// order.
pub open spec fn plan_of(doc: GltfDoc, plan: ImportPlan) -> bool {
    &&& plan.materials@.len() == doc.materials@.len()
    &&& forall|m: int|
        0 <= m < doc.materials@.len() ==> resolution_of(
            doc.materials@[m],
            #[trigger] plan.materials@[m],
        )
    &&& doc.default_scene matches Some(nodes) && plan.nodes@.len() == nodes@.len()
        && forall|n: int|
        0 <= n < nodes@.len() ==> node_planned(nodes@[n], doc.buffers@, #[trigger] plan.nodes@[n])
}

/// Runs the import's decision and decoding steps over a whole document.
///
/// Succeeds exactly when the document has a default scene, every buffer
/// is URI-sourced, every node of the scene has a mesh, and every
/// primitive has indices and decodes; each error names the condition
/// that failed.
pub fn import_plan(doc: &GltfDoc) -> (r: Result<ImportPlan, ImportError>)
    requires
        doc_wf(*doc),
    ensures
        r is Ok <==> import_ok(*doc),
        match r {
            Ok(plan) => plan_of(*doc, plan),
            Err(e) => match e {
                ImportError::MissingDefaultScene => doc.default_scene is None,
                ImportError::UnsupportedBufferSource => !all_buffers_uri(doc.buffers@),
                ImportError::MissingMeshOnNode => doc.default_scene matches Some(nodes)
                    && !all_nodes_meshed(nodes@),
                ImportError::MissingIndices => doc.default_scene matches Some(nodes)
                    && some_primitive_missing_indices(nodes@),
                ImportError::Decode(_) => doc.default_scene matches Some(nodes)
                    && !all_primitives_decode_ok(nodes@, doc.buffers@),
            },
        },
{
    let nodes = match &doc.default_scene {
        Some(nodes) => nodes,
        None => {
            return Err(ImportError::MissingDefaultScene);
        },
    };
    let mut b: usize = 0;
    while b < doc.buffers.len()
        invariant
            b <= doc.buffers@.len(),
            forall|k: int| 0 <= k < b ==> #[trigger] doc.buffers@[k] is Uri,
        decreases doc.buffers@.len() - b,
    {
        match &doc.buffers[b] {
            BufferData::Uri { data: _ } => {},
            BufferData::Unsupported => {
                return Err(ImportError::UnsupportedBufferSource);
            },
        }
        b = b + 1;
    }
    let mut materials: Vec<MaterialResolution> = Vec::new();
    let mut m: usize = 0;
    while m < doc.materials.len()
        invariant
            m <= doc.materials@.len(),
            materials@.len() == m,
            forall|k: int|
                0 <= k < m ==> resolution_of(doc.materials@[k], #[trigger] materials@[k]),
        decreases doc.materials@.len() - m,
    {
        materials.push(resolve_material(&doc.materials[m]));
        m = m + 1;
    }
    let mut plan_nodes: Vec<NodePlan> = Vec::new();
    let mut n: usize = 0;
    while n < nodes.len()
        invariant
            n <= nodes@.len(),
            nodes@ == doc.default_scene->Some_0@,
            doc_wf(*doc),
            doc.default_scene is Some,
            all_buffers_uri(doc.buffers@),
            plan_nodes@.len() == n,
            forall|k: int|
                0 <= k < n ==> node_planned(nodes@[k], doc.buffers@, #[trigger] plan_nodes@[k]),
            forall|k: int|
                0 <= k < n ==> ((#[trigger] nodes@[k]).primitives matches Some(prims)
                    ==> forall|p: int|
                    0 <= p < prims@.len() ==> primitive_decode_ok(
                        #[trigger] prims@[p],
                        doc.buffers@,
                    )),
        decreases nodes@.len() - n,
    {
        let node = &nodes[n];
        let prims = match &node.primitives {
            Some(p) => p,
            None => {
                return Err(ImportError::MissingMeshOnNode);
            },
        };
        let transform = decompose_transform(&node.transform);
        let mut datas: Vec<PrimitiveData> = Vec::new();
        let mut p: usize = 0;
        while p < prims.len()
            invariant
                p <= prims@.len(),
                nodes@ == doc.default_scene->Some_0@,
                n < nodes@.len(),
                nodes@[n as int].primitives matches Some(pr) && pr@ == prims@,
                doc_wf(*doc),
                doc.default_scene is Some,
                all_buffers_uri(doc.buffers@),
                datas@.len() == p,
                forall|k: int|
                    0 <= k < p ==> primitive_decoded(
                        prims@[k],
                        doc.buffers@,
                        #[trigger] datas@[k],
                    ),
                forall|k: int|
                    0 <= k < p ==> primitive_decode_ok(#[trigger] prims@[k], doc.buffers@),
            decreases prims@.len() - p,
        {
            proof {
                assert(primitive_wf(prims@[p as int], doc.buffers@));
            }
            match decode_primitive(&doc.buffers, &prims[p]) {
                Ok(d) => {
                    datas.push(d);
                },
                Err(e) => {
                    proof {
                        assert(!primitive_decode_ok(prims@[p as int], doc.buffers@));
                        assert(!all_primitives_decode_ok(nodes@, doc.buffers@));
                        if e is MissingIndices {
                            assert(primitive_missing_indices(nodes@, n as int, p as int));
                            assert(some_primitive_missing_indices(nodes@));
                        }
                    }
                    return Err(e);
                },
            }
            p = p + 1;
        }
        plan_nodes.push(NodePlan { transform, primitives: datas });
        n = n + 1;
    }
    proof {
        assert forall|k: int| 0 <= k < nodes@.len() implies (#[trigger] nodes@[k]).primitives
            is Some by {
            assert(node_planned(nodes@[k], doc.buffers@, plan_nodes@[k]));
        }
        assert(all_nodes_meshed(nodes@));
        assert(all_primitives_decode_ok(nodes@, doc.buffers@));
    }
    Ok(ImportPlan { materials, nodes: plan_nodes })
}

/// Which decoder a texture file's extension selects.
#[derive(Clone, Copy, PartialEq, Eq, Structural, Debug)]
pub enum ImageFormatChoice {
    Png,
    Tga,
    Tiff,
    Jpeg,
    Bmp,
    /// No pattern matched: the reader guesses the format from the bytes.
    Guess,
}

/// The exact byte patterns the format selection matches, dot included.
pub open spec fn format_pattern(choice: ImageFormatChoice) -> Seq<u8> {
    match choice {
        ImageFormatChoice::Png => seq![46u8, 112u8, 110u8, 103u8],
        ImageFormatChoice::Tga => seq![46u8, 116u8, 103u8, 97u8],
        ImageFormatChoice::Tiff => seq![46u8, 116u8, 105u8, 102u8, 102u8],
        ImageFormatChoice::Jpeg => seq![46u8, 106u8, 112u8, 101u8, 103u8],
        ImageFormatChoice::Bmp => seq![46u8, 98u8, 109u8, 112u8],
        ImageFormatChoice::Guess => Seq::empty(),
    }
}

/// Whether two byte slices hold the same bytes.
fn bytes_equal(a: &[u8], b: &[u8]) -> (r: bool)
    ensures
        r <==> a@ =~= b@,
{
    if a.len() != b.len() {
        return false;
    }
    let mut i: usize = 0;
    while i < a.len()
        invariant
            i <= a@.len(),
            a@.len() == b@.len(),
            forall|k: int| 0 <= k < i ==> a@[k] == b@[k],
        decreases a@.len() - i,
    {
        if a[i] != b[i] {
            return false;
        }
        i = i + 1;
    }
    true
}

/// Selects the image decoder for a texture file's extension, given as
/// bytes. Each named format is chosen exactly when the extension equals
/// its pattern — a dot followed by the format's name; anything else,
/// including a missing extension, leaves the reader to guess from the
/// file's contents.
pub fn image_format_for_extension(extension: Option<&[u8]>) -> (r: ImageFormatChoice)
    ensures
        match extension {
            Some(e) => {
                &&& (r == ImageFormatChoice::Png <==> e@ =~= format_pattern(
                    ImageFormatChoice::Png,
                ))
                &&& (r == ImageFormatChoice::Tga <==> e@ =~= format_pattern(
                    ImageFormatChoice::Tga,
                ))
                &&& (r == ImageFormatChoice::Tiff <==> e@ =~= format_pattern(
                    ImageFormatChoice::Tiff,
                ))
                &&& (r == ImageFormatChoice::Jpeg <==> e@ =~= format_pattern(
                    ImageFormatChoice::Jpeg,
                ))
                &&& (r == ImageFormatChoice::Bmp <==> e@ =~= format_pattern(
                    ImageFormatChoice::Bmp,
                ))
            },
            None => r == ImageFormatChoice::Guess,
        },
{
    let e = match extension {
        Some(e) => e,
        None => {
            return ImageFormatChoice::Guess;
        },
    };
    let png: [u8; 4] = [46, 112, 110, 103];
    let tga: [u8; 4] = [46, 116, 103, 97];
    let tiff: [u8; 5] = [46, 116, 105, 102, 102];
    let jpeg: [u8; 5] = [46, 106, 112, 101, 103];
    let bmp: [u8; 4] = [46, 98, 109, 112];
    if bytes_equal(e, png.as_slice()) {
        ImageFormatChoice::Png
    } else if bytes_equal(e, tga.as_slice()) {
        ImageFormatChoice::Tga
    } else if bytes_equal(e, tiff.as_slice()) {
        ImageFormatChoice::Tiff
    } else if bytes_equal(e, jpeg.as_slice()) {
        ImageFormatChoice::Jpeg
    } else if bytes_equal(e, bmp.as_slice()) {
        ImageFormatChoice::Bmp
    } else {
        ImageFormatChoice::Guess
    }
}

} // verus!
