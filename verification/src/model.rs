//! The loaded model: planning first, then GPU assembly.
//!
//! Planning is pure: the raw per-mesh attribute arrays that the mesh-file
//! loader produced (positions, texture coordinates, normals, as 32-bit
//! words) are interleaved into vertex records, and each mesh's material
//! reference is resolved (a mesh without one uses material zero) and
//! checked. Assembly then turns each plan into GPU buffers and each
//! material into a texture with its bind group. Every mesh of an assembled
//! model refers to a material the model really has.

use vstd::prelude::*;

use crate::bytes::encode_words_le;
use crate::gpu;
use crate::gpu::BufferKind;
use crate::texture::TextureBundle;

verus! {

/// Why a model could not be built.
#[derive(Clone, Copy, PartialEq, Eq, Structural, Debug)]
pub enum ModelError {
    /// A mesh's attribute arrays do not describe whole vertices (positions
    /// not in threes, or texture coordinates or normals of the wrong
    /// length), or its index list cannot be counted in 32 bits.
    MalformedGeometry,
    /// A mesh refers to a material the file does not define.
    UnknownMaterial,
    /// A material has a zero extent, or pixel bytes that do not match its
    /// stated dimensions.
    BadTexture,
}

/// One geometry group as the mesh-file loader hands it over: attribute
/// arrays of 32-bit words (three position and three normal words per
/// vertex, two texture-coordinate words), the index list, and the index of
/// the material the group uses, if it names one.
pub struct MeshInput {
    pub name: String,
    pub positions: Vec<u32>,
    pub texcoords: Vec<u32>,
    pub normals: Vec<u32>,
    pub indices: Vec<u32>,
    pub material_id: Option<usize>,
}

/// One material record: a name and its decoded diffuse texture, as tightly
/// packed RGBA bytes of the stated dimensions.
pub struct MaterialInput {
    pub name: String,
    pub width: u32,
    pub height: u32,
    pub rgba: Vec<u8>,
}

/// A planned mesh: interleaved vertex words, the index list, and the
/// resolved (valid) material index.
#[derive(Debug)]
pub struct MeshData {
    pub name: String,
    pub vertex_words: Vec<u32>,
    pub indices: Vec<u32>,
    pub material_index: usize,
}

/// The attribute arrays describe whole vertices, and the indices can be
/// counted in 32 bits.
pub open spec fn geometry_ok(positions: Seq<u32>, texcoords: Seq<u32>, normals: Seq<u32>, indices: Seq<u32>) -> bool {
    &&& positions.len() % 3 == 0
    &&& texcoords.len() == 2 * (positions.len() / 3)
    &&& normals.len() == positions.len()
    &&& indices.len() <= u32::MAX
}

/// The material a mesh uses: the one it names, or material zero.
pub open spec fn chosen_material(material_id: Option<usize>) -> int {
    match material_id {
        Some(id) => id as int,
        None => 0,
    }
}

/// A whole mesh input is plannable against `material_count` materials.
pub open spec fn mesh_ok(m: MeshInput, material_count: int) -> bool {
    &&& geometry_ok(m.positions@, m.texcoords@, m.normals@, m.indices@)
    &&& chosen_material(m.material_id) < material_count
}

/// The error planning a bad mesh input reports: malformed geometry is
/// noticed before an unknown material.
pub open spec fn plan_error_of(m: MeshInput, material_count: int) -> ModelError {
    if !geometry_ok(m.positions@, m.texcoords@, m.normals@, m.indices@) {
        ModelError::MalformedGeometry
    } else {
        ModelError::UnknownMaterial
    }
}

/// Vertex `v` of `ws` interleaves its three attributes in the fixed order
/// position, texture coordinates, normal.
pub open spec fn vertex_ok(p: Seq<u32>, t: Seq<u32>, n: Seq<u32>, ws: Seq<u32>, v: int) -> bool {
    &&& ws[8 * v] == p[3 * v]
    &&& ws[8 * v + 1] == p[3 * v + 1]
    &&& ws[8 * v + 2] == p[3 * v + 2]
    &&& ws[8 * v + 3] == t[2 * v]
    &&& ws[8 * v + 4] == t[2 * v + 1]
    &&& ws[8 * v + 5] == n[3 * v]
    &&& ws[8 * v + 6] == n[3 * v + 1]
    &&& ws[8 * v + 7] == n[3 * v + 2]
}

/// `d` is the plan of `m`: same name and indices, the resolved material,
/// and the fully interleaved vertex words.
pub open spec fn planned(m: MeshInput, d: MeshData, material_count: int) -> bool {
    &&& d.name == m.name
    &&& d.indices == m.indices
    &&& d.material_index == chosen_material(m.material_id)
    &&& d.material_index < material_count
    &&& d.vertex_words@.len() == 8 * (m.positions@.len() / 3)
    &&& forall|v: int|
        0 <= v < m.positions@.len() / 3 ==> #[trigger] vertex_ok(
            m.positions@,
            m.texcoords@,
            m.normals@,
            d.vertex_words@,
            v,
        )
}

/// Plans one mesh: checks the geometry and the material reference, and
/// interleaves the attribute arrays into vertex records.
#[verifier::loop_isolation(false)]
pub fn plan_mesh(input: MeshInput, material_count: usize) -> (r: Result<MeshData, ModelError>)
    ensures
        r is Ok <==> mesh_ok(input, material_count as int),
        r is Ok ==> planned(input, r->Ok_0, material_count as int),
        r is Err ==> r->Err_0 == plan_error_of(input, material_count as int),
{
    let nv = input.positions.len() / 3;
    proof {
        vstd::arithmetic::div_mod::lemma_fundamental_div_mod(input.positions@.len() as int, 3);
    }
    if input.positions.len() % 3 != 0 || input.texcoords.len() != 2 * nv
        || input.normals.len() != input.positions.len()
        || input.indices.len() as u64 > u32::MAX as u64 {
        return Err(ModelError::MalformedGeometry);
    }
    let material_index = match input.material_id {
        Some(id) => id,
        None => 0,
    };
    if material_index >= material_count {
        return Err(ModelError::UnknownMaterial);
    }

    let mut ws: Vec<u32> = Vec::new();
    let mut v: usize = 0;
    while v < nv
        invariant
            0 <= v <= nv,
            nv == input.positions@.len() / 3,
            3 * nv == input.positions@.len(),
            input.texcoords@.len() == 2 * nv,
            input.normals@.len() == input.positions@.len(),
            ws@.len() == 8 * v,
            forall|u: int|
                0 <= u < v ==> #[trigger] vertex_ok(
                    input.positions@,
                    input.texcoords@,
                    input.normals@,
                    ws@,
                    u,
                ),
        decreases nv - v,
    {
        let ghost ws0 = ws@;
        ws.push(input.positions[3 * v]);
        ws.push(input.positions[3 * v + 1]);
        ws.push(input.positions[3 * v + 2]);
        ws.push(input.texcoords[2 * v]);
        ws.push(input.texcoords[2 * v + 1]);
        ws.push(input.normals[3 * v]);
        ws.push(input.normals[3 * v + 1]);
        ws.push(input.normals[3 * v + 2]);
        proof {
            assert(vertex_ok(
                input.positions@,
                input.texcoords@,
                input.normals@,
                ws@,
                v as int,
            ));
            assert forall|u: int| 0 <= u < v implies #[trigger] vertex_ok(
                input.positions@,
                input.texcoords@,
                input.normals@,
                ws@,
                u,
            ) by {
                assert(vertex_ok(
                    input.positions@,
                    input.texcoords@,
                    input.normals@,
                    ws0,
                    u,
                ));
            };
        }
        v = v + 1;
    }
    Ok(MeshData { name: input.name, vertex_words: ws, indices: input.indices, material_index })
}

/// Plans every mesh of a model against `material_count` materials,
/// reporting the first failure.
#[verifier::loop_isolation(false)]
pub fn plan_model(inputs: Vec<MeshInput>, material_count: usize) -> (r: Result<
    Vec<MeshData>,
    ModelError,
>)
    ensures
        r is Ok <==> (forall|i: int|
            0 <= i < inputs@.len() ==> #[trigger] mesh_ok(inputs@[i], material_count as int)),
        r is Ok ==> {
            &&& r->Ok_0@.len() == inputs@.len()
            &&& forall|i: int|
                0 <= i < inputs@.len() ==> #[trigger] planned(
                    inputs@[i],
                    r->Ok_0@[i],
                    material_count as int,
                )
        },
        r is Err ==> exists|i: int|
            {
                &&& 0 <= i < inputs@.len()
                &&& !#[trigger] mesh_ok(inputs@[i], material_count as int)
                &&& (forall|j: int| 0 <= j < i ==> mesh_ok(#[trigger] inputs@[j], material_count as int))
                &&& r->Err_0 == plan_error_of(inputs@[i], material_count as int)
            },
{
    let ghost inputs0 = inputs@;
    let mut rest = inputs;
    let mut out: Vec<MeshData> = Vec::new();
    while rest.len() > 0
        invariant
            out@.len() + rest@.len() == inputs0.len(),
            rest@ == inputs0.skip(out@.len() as int),
            forall|i: int|
                0 <= i < out@.len() ==> #[trigger] planned(inputs0[i], out@[i], material_count as int),
            forall|i: int|
                0 <= i < out@.len() ==> #[trigger] mesh_ok(inputs0[i], material_count as int),
        decreases rest@.len(),
    {
        let m = rest.remove(0);
        proof {
            assert(inputs0.skip(out@.len() as int)[0] == inputs0[out@.len() as int]);
        }
        assert(m == inputs0[out@.len() as int]);
        match plan_mesh(m, material_count) {
            Ok(d) => {
                out.push(d);
            }
            Err(e) => {
                proof {
                    let bad = out@.len() as int;
                    assert(0 <= bad < inputs0.len());
                    assert(!mesh_ok(inputs0[bad], material_count as int));
                    assert(e == plan_error_of(inputs0[bad], material_count as int));
                    assert(forall|j: int|
                        0 <= j < bad ==> mesh_ok(#[trigger] inputs0[j], material_count as int));
                }
                return Err(e);
            }
        }
        proof {
            assert(rest@ =~= inputs0.skip(out@.len() as int));
        }
    }
    proof {
        assert(forall|i: int|
            0 <= i < inputs0.len() ==> #[trigger] mesh_ok(inputs0[i], material_count as int));
    }
    Ok(out)
}

/// One GPU-resident mesh: its vertex and index buffers, how many indices to
/// draw, and which of the owning model's materials it uses.
pub struct Mesh {
    pub name: String,
    pub vertex_buffer: wgpu::Buffer,
    pub index_buffer: wgpu::Buffer,
    pub index_count: u32,
    pub material_index: usize,
}

/// One material: its diffuse texture and the bind group binding that
/// texture's view and sampler to the pipeline's material slot.
pub struct Material {
    pub name: String,
    pub diffuse_texture: TextureBundle,
    pub bind_group: wgpu::BindGroup,
}

/// The loaded model: an ordered list of meshes and an ordered list of
/// materials, built once at load time.
pub struct Model {
    pub meshes: Vec<Mesh>,
    pub materials: Vec<Material>,
}

/// The material record has a real (nonzero) extent and its pixel bytes
/// match its stated dimensions.
pub open spec fn texture_ok(m: MaterialInput) -> bool {
    &&& m.width > 0
    &&& m.height > 0
    &&& m.rgba@.len() == 4 * m.width * m.height
    &&& 4 * m.width <= u32::MAX
}

impl Model {
    /// Every mesh refers to a material the model has.
    pub open spec fn wf(self) -> bool {
        forall|i: int|
            0 <= i < self.meshes@.len() ==> #[trigger] self.meshes@[i].material_index
                < self.materials@.len()
    }

    /// Builds the GPU-resident model from planned meshes and material
    /// records: per material a texture upload and a bind group, per mesh a
    /// vertex and an index buffer. Fails exactly when some material has a
    /// zero extent or pixel bytes that do not match its dimensions.
    #[verifier::loop_isolation(false)]
    pub fn assemble(
        device: &wgpu::Device,
        queue: &wgpu::Queue,
        material_layout: &wgpu::BindGroupLayout,
        meshes: Vec<MeshData>,
        materials: Vec<MaterialInput>,
    ) -> (r: Result<Model, ModelError>)
        requires
            forall|i: int|
                0 <= i < meshes@.len() ==> #[trigger] meshes@[i].material_index < materials@.len(),
            forall|i: int| 0 <= i < meshes@.len() ==> #[trigger] meshes@[i].indices@.len() <= u32::MAX,
        ensures
            r is Ok <==> (forall|i: int| 0 <= i < materials@.len() ==> #[trigger] texture_ok(materials@[i])),
            r is Err ==> r->Err_0 == ModelError::BadTexture,
            r is Ok ==> {
                &&& r->Ok_0.wf()
                &&& r->Ok_0.meshes@.len() == meshes@.len()
                &&& r->Ok_0.materials@.len() == materials@.len()
                &&& forall|i: int|
                    0 <= i < meshes@.len() ==> {
                        &&& (#[trigger] r->Ok_0.meshes@[i]).name == meshes@[i].name
                        &&& r->Ok_0.meshes@[i].index_count == meshes@[i].indices@.len()
                        &&& r->Ok_0.meshes@[i].material_index == meshes@[i].material_index
                    }
                &&& forall|i: int|
                    0 <= i < materials@.len() ==> {
                        &&& (#[trigger] r->Ok_0.materials@[i]).name == materials@[i].name
                        &&& r->Ok_0.materials@[i].diffuse_texture.width == materials@[i].width
                        &&& r->Ok_0.materials@[i].diffuse_texture.height == materials@[i].height
                    }
            },
    {
        let ghost materials0 = materials@;
        let mut mat_rest = materials;
        let mut built_materials: Vec<Material> = Vec::new();
        while mat_rest.len() > 0
            invariant
                built_materials@.len() + mat_rest@.len() == materials0.len(),
                mat_rest@ == materials0.skip(built_materials@.len() as int),
                forall|i: int|
                    0 <= i < built_materials@.len() ==> #[trigger] texture_ok(materials0[i]),
                forall|i: int|
                    0 <= i < built_materials@.len() ==> {
                        &&& (#[trigger] built_materials@[i]).name == materials0[i].name
                        &&& built_materials@[i].diffuse_texture.width == materials0[i].width
                        &&& built_materials@[i].diffuse_texture.height == materials0[i].height
                    },
            decreases mat_rest@.len(),
        {
            let m = mat_rest.remove(0);
            proof {
                assert(materials0.skip(built_materials@.len() as int)[0] == materials0[built_materials@.len() as int]);
            }
            assert(m == materials0[built_materials@.len() as int]);
            if m.width == 0 || m.height == 0 {
                proof {
                    let bad = built_materials@.len() as int;
                    assert(!texture_ok(materials0[bad]));
                }
                return Err(ModelError::BadTexture);
            }
            let row: u64 = 4u64 * (m.width as u64);
            if row > u32::MAX as u64 {
                proof {
                    let bad = built_materials@.len() as int;
                    assert(!texture_ok(materials0[bad]));
                }
                return Err(ModelError::BadTexture);
            }
            proof {
                assert(row * (m.height as u64) < u64::MAX) by (nonlinear_arith)
                    requires
                        row <= 0xffff_ffffu64,
                        m.height <= 0xffff_ffffu32,
                ;
                assert(row as int * m.height as int == 4 * m.width as int * m.height as int)
                    by (nonlinear_arith)
                    requires
                        row as int == 4 * m.width as int,
                ;
            }
            if (m.rgba.len() as u64) != row * (m.height as u64) {
                proof {
                    let bad = built_materials@.len() as int;
                    assert(!texture_ok(materials0[bad]));
                }
                return Err(ModelError::BadTexture);
            }
            let diffuse_texture = TextureBundle::from_image_bytes(device, queue, m.width, m.height, m.rgba.as_slice());
            let bind_group = gpu::create_material_bind_group(
                device,
                material_layout,
                &diffuse_texture.view,
                &diffuse_texture.sampler,
            );
            built_materials.push(Material { name: m.name, diffuse_texture, bind_group });
            proof {
                assert(mat_rest@ =~= materials0.skip(built_materials@.len() as int));
            }
        }

        let ghost meshes0 = meshes@;
        let mut mesh_rest = meshes;
        let mut built_meshes: Vec<Mesh> = Vec::new();
        while mesh_rest.len() > 0
            invariant
                built_meshes@.len() + mesh_rest@.len() == meshes0.len(),
                mesh_rest@ == meshes0.skip(built_meshes@.len() as int),
                built_materials@.len() == materials0.len(),
                forall|i: int|
                    0 <= i < meshes0.len() ==> #[trigger] meshes0[i].material_index
                        < materials0.len(),
                forall|i: int| 0 <= i < meshes0.len() ==> #[trigger] meshes0[i].indices@.len() <= u32::MAX,
                forall|i: int|
                    0 <= i < built_meshes@.len() ==> {
                        &&& (#[trigger] built_meshes@[i]).name == meshes0[i].name
                        &&& built_meshes@[i].index_count == meshes0[i].indices@.len()
                        &&& built_meshes@[i].material_index == meshes0[i].material_index
                    },
            decreases mesh_rest@.len(),
        {
            let d = mesh_rest.remove(0);
            assert(d == meshes0[built_meshes@.len() as int]);
            let vertex_bytes = encode_words_le(&d.vertex_words);
            let index_bytes = encode_words_le(&d.indices);
            let vertex_buffer = gpu::create_buffer_with_bytes(
                device,
                BufferKind::Vertex,
                vertex_bytes.as_slice(),
            );
            let index_buffer = gpu::create_buffer_with_bytes(
                device,
                BufferKind::Index,
                index_bytes.as_slice(),
            );
            let index_count = d.indices.len() as u32;
            built_meshes.push(Mesh {
                name: d.name,
                vertex_buffer,
                index_buffer,
                index_count,
                material_index: d.material_index,
            });
            proof {
                assert(mesh_rest@ =~= meshes0.skip(built_meshes@.len() as int));
            }
        }

        Ok(Model { meshes: built_meshes, materials: built_materials })
    }
}

} // verus!
