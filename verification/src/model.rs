//! The scene geometry data model: a Model owns one vertex buffer, one index
//! buffer, its attribute list, meshes of sub-meshes, and materials; plus the
//! procedural shape generators and the scene-import assembler.
//!
//! Vertex data is interleaved by block: all positions, then all normals,
//! then all texture coordinates, concatenated into one buffer; each
//! attribute's offset marks where its block begins, in scalar elements.

use vstd::prelude::*;

use crate::buffer::{spec_new_buffer, Buffer};
use crate::device::{CommandView, Device};
use crate::texture::{Texture, TextureDesc};
use crate::bytes::{extend_scalars, le_seq, lemma_le_seq_concat, lemma_le_seq_len};
use crate::material::{ColorBits, Material, NEG_ONE_BITS, ONE_BITS, ZERO_BITS};
use crate::stream::{
    float_block_attributes, spec_block_prefix, Attribute, Dimension, Format, Slot, Type, Usage,
};

verus! {

/// The procedural shapes the model cache owns.
#[derive(Copy, Debug, Clone, PartialEq, Eq, Hash, Structural)]
pub enum Shape {
    Cube,
    Sphere,
    Quad,
}

/// A contiguous slice of the shared index buffer plus the index of the
/// material it is drawn with.
#[derive(Copy, Debug, Clone, PartialEq, Eq, Structural)]
pub struct SubMesh {
    pub start_index: usize,
    pub num_indices: usize,
    pub material_index: usize,
}

impl SubMesh {
    pub fn new(start_index: usize, num_indices: usize, material_index: usize) -> (s: SubMesh)
        ensures
            s == (SubMesh { start_index, num_indices, material_index }),
    {
        SubMesh { start_index, num_indices, material_index }
    }
}

/// One mesh: a local transform (sixteen scalar bit patterns, row major) and
/// its sub-meshes.
pub struct Mesh {
    pub matrix: Vec<u32>,
    pub sub_meshes: Vec<SubMesh>,
}

/// The identity transform, as scalar bit patterns.
pub open spec fn spec_identity_matrix() -> Seq<u32> {
    seq![
        ONE_BITS, ZERO_BITS, ZERO_BITS, ZERO_BITS,
        ZERO_BITS, ONE_BITS, ZERO_BITS, ZERO_BITS,
        ZERO_BITS, ZERO_BITS, ONE_BITS, ZERO_BITS,
        ZERO_BITS, ZERO_BITS, ZERO_BITS, ONE_BITS,
    ]
}

/// Builds the identity transform.
pub fn identity_matrix() -> (m: Vec<u32>)
    ensures
        m@ == spec_identity_matrix(),
{
    let mut m: Vec<u32> = Vec::new();
    m.push(ONE_BITS);
    m.push(ZERO_BITS);
    m.push(ZERO_BITS);
    m.push(ZERO_BITS);
    m.push(ZERO_BITS);
    m.push(ONE_BITS);
    m.push(ZERO_BITS);
    m.push(ZERO_BITS);
    m.push(ZERO_BITS);
    m.push(ZERO_BITS);
    m.push(ONE_BITS);
    m.push(ZERO_BITS);
    m.push(ZERO_BITS);
    m.push(ZERO_BITS);
    m.push(ZERO_BITS);
    m.push(ONE_BITS);
    proof {
        assert(m@ =~= spec_identity_matrix());
    }
    m
}

impl Default for Mesh {
    fn default() -> (m: Mesh)
        ensures
            m.matrix@ == spec_identity_matrix(),
            m.sub_meshes@ == Seq::<SubMesh>::empty(),
    {
        let m = Mesh { matrix: identity_matrix(), sub_meshes: Vec::new() };
        proof {
            assert(m.sub_meshes@ =~= Seq::<SubMesh>::empty());
        }
        m
    }
}

/// A model: its two buffers, its attribute layout, its meshes and its
/// materials. Sub-objects have no independent lifetime.
pub struct Model {
    pub index_buffer: Buffer,
    pub vertex_buffer: Buffer,
    pub attributes: Vec<Attribute>,
    pub meshes: Vec<Mesh>,
    pub materials: Vec<Material>,
}

impl Model {
    /// Number of index elements in the index buffer (four bytes each).
    pub open spec fn index_count(self) -> int {
        self.index_buffer.data@.len() as int / 4
    }

    /// Structural soundness: the index buffer holds whole 32-bit indices,
    /// every mesh transform has sixteen entries, and every sub-mesh points
    /// at a real material and a real slice of the index buffer.
    pub open spec fn wf(self) -> bool {
        &&& self.index_buffer.data@.len() % 4 == 0
        &&& forall|i: int|
            0 <= i < self.meshes@.len() ==> (#[trigger] self.meshes@[i]).matrix@.len() == 16
        &&& forall|i: int, j: int|
            0 <= i < self.meshes@.len() && 0 <= j < self.meshes@[i].sub_meshes@.len() ==> {
                let sm = #[trigger] self.meshes@[i].sub_meshes@[j];
                &&& sm.material_index < self.materials@.len()
                &&& sm.start_index + sm.num_indices <= self.index_count()
            }
    }
}

impl Default for Model {
    fn default() -> (m: Model)
        ensures
            m.wf(),
            m.vertex_buffer@ == spec_new_buffer(Seq::<u8>::empty()),
            m.index_buffer@ == spec_new_buffer(Seq::<u8>::empty()),
            m.attributes@ == Seq::<Attribute>::empty(),
            m.meshes@.len() == 0,
            m.materials@.len() == 0,
    {
        let m = Model {
            index_buffer: Buffer::default(),
            vertex_buffer: Buffer::default(),
            attributes: Vec::new(),
            meshes: Vec::new(),
            materials: Vec::new(),
        };
        proof {
            assert(m.attributes@ =~= Seq::<Attribute>::empty());
        }
        m
    }
}

/// True of the material the procedural shapes are built with: the default
/// white material with no maps.
pub open spec fn is_default_material(m: Material) -> bool {
    &&& m.albedo_map is None
    &&& m.normal_map is None
    &&& m.specular_map is None
    &&& m.emissive_map is None
    &&& m.color == (ColorBits { x: ONE_BITS, y: ONE_BITS, z: ONE_BITS })
    &&& m.roughness == ONE_BITS
    &&& m.metallic == ZERO_BITS
    &&& m.ao == ONE_BITS
}

/// The quad's position scalars: four corners of the unit square in the z = 0
/// plane, as a triangle strip order.
pub open spec fn quad_positions() -> Seq<u32> {
    seq![
        NEG_ONE_BITS, ONE_BITS, ZERO_BITS,
        NEG_ONE_BITS, NEG_ONE_BITS, ZERO_BITS,
        ONE_BITS, ONE_BITS, ZERO_BITS,
        ONE_BITS, NEG_ONE_BITS, ZERO_BITS,
    ]
}

/// The quad's normal scalars: all zero.
pub open spec fn quad_normals() -> Seq<u32> {
    seq![
        ZERO_BITS, ZERO_BITS, ZERO_BITS,
        ZERO_BITS, ZERO_BITS, ZERO_BITS,
        ZERO_BITS, ZERO_BITS, ZERO_BITS,
        ZERO_BITS, ZERO_BITS, ZERO_BITS,
    ]
}

/// The quad's texture coordinates, one pair per corner.
pub open spec fn quad_tex_coords() -> Seq<u32> {
    seq![
        ZERO_BITS, ONE_BITS,
        ZERO_BITS, ZERO_BITS,
        ONE_BITS, ONE_BITS,
        ONE_BITS, ZERO_BITS,
    ]
}

/// The quad's two triangles.
pub open spec fn quad_indices() -> Seq<u32> {
    seq![0u32, 1u32, 2u32, 1u32, 2u32, 3u32]
}

fn push3(v: &mut Vec<u32>, a: u32, b: u32, c: u32)
    ensures
        final(v)@ == old(v)@ + seq![a, b, c],
{
    v.push(a);
    v.push(b);
    v.push(c);
    proof {
        assert(v@ =~= old(v)@ + seq![a, b, c]);
    }
}

/// The standard attribute blocks of a position/normal/uv model whose blocks
/// hold `p`, `n` and `t` scalars: position at element 0, normal after the
/// positions, texture coordinates after the normals (the third block is
/// omitted when `t` is zero).
pub open spec fn spec_block_layout(p: nat, n: nat, t: nat) -> Seq<Attribute> {
    let pos = Attribute {
        format: Format { dimension: Dimension::VEC3, _type: Type::FLOAT, usage: Usage::DATA },
        slot: Slot::Position,
        offset: 0,
    };
    let norm = Attribute {
        format: Format { dimension: Dimension::VEC3, _type: Type::FLOAT, usage: Usage::DATA },
        slot: Slot::Normal,
        offset: p as usize,
    };
    let uv = Attribute {
        format: Format { dimension: Dimension::VEC2, _type: Type::FLOAT, usage: Usage::DATA },
        slot: Slot::TexCoord,
        offset: (p + n) as usize,
    };
    if t == 0 {
        seq![pos, norm]
    } else {
        seq![pos, norm, uv]
    }
}

/// Builds the position/normal(/uv) attribute list for blocks of `p`, `n` and
/// `t` scalars; each attribute's element offset is the sum of the block
/// sizes before it.
fn block_layout(p: usize, n: usize, t: usize) -> (attrs: Vec<Attribute>)
    requires
        p + n + t <= usize::MAX,
    ensures
        attrs@ == spec_block_layout(p as nat, n as nat, t as nat),
{
    let mut blocks: Vec<(Slot, Dimension, usize)> = Vec::new();
    blocks.push((Slot::Position, Dimension::VEC3, p));
    blocks.push((Slot::Normal, Dimension::VEC3, n));
    if t > 0 {
        blocks.push((Slot::TexCoord, Dimension::VEC2, t));
    }
    proof {
        if t > 0 {
            assert(blocks@ =~= seq![
                (Slot::Position, Dimension::VEC3, p),
                (Slot::Normal, Dimension::VEC3, n),
                (Slot::TexCoord, Dimension::VEC2, t),
            ]);
            assert(spec_block_prefix(blocks@, 0) == 0);
            assert(spec_block_prefix(blocks@, 1) == p);
            assert(spec_block_prefix(blocks@, 2) == p + n);
            assert(spec_block_prefix(blocks@, 3) == p + n + t);
        } else {
            assert(blocks@ =~= seq![
                (Slot::Position, Dimension::VEC3, p),
                (Slot::Normal, Dimension::VEC3, n),
            ]);
            assert(spec_block_prefix(blocks@, 0) == 0);
            assert(spec_block_prefix(blocks@, 1) == p);
            assert(spec_block_prefix(blocks@, 2) == p + n);
        }
    }
    let attrs = float_block_attributes(&blocks);
    proof {
        assert(attrs@ =~= spec_block_layout(p as nat, n as nat, t as nat));
    }
    attrs
}

/// One mesh with one sub-mesh spanning `num_indices` indices from the start
/// of the index buffer, drawn with material 0, under the identity transform.
fn single_submesh_mesh(num_indices: usize) -> (m: Mesh)
    ensures
        m.matrix@ == spec_identity_matrix(),
        m.sub_meshes@ == seq![
            SubMesh { start_index: 0, num_indices, material_index: 0 },
        ],
{
    let mut sub_meshes: Vec<SubMesh> = Vec::new();
    sub_meshes.push(SubMesh::new(0, num_indices, 0));
    proof {
        assert(sub_meshes@ =~= seq![
            SubMesh { start_index: 0, num_indices, material_index: 0 },
        ]);
    }
    Mesh { matrix: identity_matrix(), sub_meshes }
}

/// Generates the unit quad: four position/normal/uv vertices in one
/// block-interleaved vertex buffer, six indices, one sub-mesh covering all
/// of them, one default material.
pub fn generate_quad_model() -> (m: Model)
    ensures
        is_quad_model(m),
{
    let mut scalars: Vec<u32> = Vec::new();
    push3(&mut scalars, NEG_ONE_BITS, ONE_BITS, ZERO_BITS);
    push3(&mut scalars, NEG_ONE_BITS, NEG_ONE_BITS, ZERO_BITS);
    push3(&mut scalars, ONE_BITS, ONE_BITS, ZERO_BITS);
    push3(&mut scalars, ONE_BITS, NEG_ONE_BITS, ZERO_BITS);
    push3(&mut scalars, ZERO_BITS, ZERO_BITS, ZERO_BITS);
    push3(&mut scalars, ZERO_BITS, ZERO_BITS, ZERO_BITS);
    push3(&mut scalars, ZERO_BITS, ZERO_BITS, ZERO_BITS);
    push3(&mut scalars, ZERO_BITS, ZERO_BITS, ZERO_BITS);
    push3(&mut scalars, ZERO_BITS, ONE_BITS, ZERO_BITS);
    scalars.push(ZERO_BITS);
    push3(&mut scalars, ONE_BITS, ONE_BITS, ONE_BITS);
    scalars.push(ZERO_BITS);
    proof {
        assert(scalars@ =~= quad_positions() + quad_normals() + quad_tex_coords());
    }
    let mut indices: Vec<u32> = Vec::new();
    push3(&mut indices, 0, 1, 2);
    push3(&mut indices, 1, 2, 3);
    proof {
        assert(indices@ =~= quad_indices());
    }

    let mut buffer_data: Vec<u8> = Vec::new();
    extend_scalars(&mut buffer_data, &scalars);
    let vertex_buffer = Buffer::new(buffer_data);

    let mut index_buffer_data: Vec<u8> = Vec::new();
    extend_scalars(&mut index_buffer_data, &indices);
    let index_buffer = Buffer::new(index_buffer_data);

    let attributes = block_layout(12, 12, 8);

    let mut meshes: Vec<Mesh> = Vec::new();
    meshes.push(single_submesh_mesh(6));
    let mut materials: Vec<Material> = Vec::new();
    materials.push(Material::default());

    let m = Model { index_buffer, vertex_buffer, attributes, meshes, materials };
    proof {
        lemma_le_seq_len(quad_indices());
        assert(m.index_buffer.data@ =~= le_seq(quad_indices()));
        assert(m.vertex_buffer.data@ =~= le_seq(
            quad_positions() + quad_normals() + quad_tex_coords(),
        ));
    }
    m
}

} // verus!

verus! {

/// The cube's position scalars: six faces of four corners each, all
/// coordinates plus or minus one.
pub open spec fn cube_positions() -> Seq<u32> {
    seq![
        // right
        ONE_BITS, ONE_BITS, ONE_BITS, ONE_BITS, ONE_BITS, NEG_ONE_BITS,
        ONE_BITS, NEG_ONE_BITS, ONE_BITS, ONE_BITS, NEG_ONE_BITS, NEG_ONE_BITS,
        // top
        ONE_BITS, ONE_BITS, ONE_BITS, ONE_BITS, ONE_BITS, NEG_ONE_BITS,
        NEG_ONE_BITS, ONE_BITS, NEG_ONE_BITS, NEG_ONE_BITS, ONE_BITS, ONE_BITS,
        // bottom
        ONE_BITS, NEG_ONE_BITS, ONE_BITS, ONE_BITS, NEG_ONE_BITS, NEG_ONE_BITS,
        NEG_ONE_BITS, NEG_ONE_BITS, NEG_ONE_BITS, NEG_ONE_BITS, NEG_ONE_BITS, ONE_BITS,
        // left
        NEG_ONE_BITS, ONE_BITS, ONE_BITS, NEG_ONE_BITS, ONE_BITS, NEG_ONE_BITS,
        NEG_ONE_BITS, NEG_ONE_BITS, ONE_BITS, NEG_ONE_BITS, NEG_ONE_BITS, NEG_ONE_BITS,
        // front
        ONE_BITS, ONE_BITS, NEG_ONE_BITS, ONE_BITS, NEG_ONE_BITS, NEG_ONE_BITS,
        NEG_ONE_BITS, NEG_ONE_BITS, NEG_ONE_BITS, NEG_ONE_BITS, ONE_BITS, NEG_ONE_BITS,
        // back
        ONE_BITS, ONE_BITS, ONE_BITS, ONE_BITS, NEG_ONE_BITS, ONE_BITS,
        NEG_ONE_BITS, NEG_ONE_BITS, ONE_BITS, NEG_ONE_BITS, ONE_BITS, ONE_BITS,
    ]
}

/// The cube's normal scalars: one axis-aligned unit normal per face corner.
pub open spec fn cube_normals() -> Seq<u32> {
    seq![
        // right
        ONE_BITS, ZERO_BITS, ZERO_BITS, ONE_BITS, ZERO_BITS, ZERO_BITS,
        ONE_BITS, ZERO_BITS, ZERO_BITS, ONE_BITS, ZERO_BITS, ZERO_BITS,
        // top
        ZERO_BITS, ONE_BITS, ZERO_BITS, ZERO_BITS, ONE_BITS, ZERO_BITS,
        ZERO_BITS, ONE_BITS, ZERO_BITS, ZERO_BITS, ONE_BITS, ZERO_BITS,
        // bottom
        ZERO_BITS, NEG_ONE_BITS, ZERO_BITS, ZERO_BITS, NEG_ONE_BITS, ZERO_BITS,
        ZERO_BITS, NEG_ONE_BITS, ZERO_BITS, ZERO_BITS, NEG_ONE_BITS, ZERO_BITS,
        // left
        NEG_ONE_BITS, ZERO_BITS, ZERO_BITS, NEG_ONE_BITS, ZERO_BITS, ZERO_BITS,
        NEG_ONE_BITS, ZERO_BITS, ZERO_BITS, NEG_ONE_BITS, ZERO_BITS, ZERO_BITS,
        // front
        ZERO_BITS, ZERO_BITS, NEG_ONE_BITS, ZERO_BITS, ZERO_BITS, NEG_ONE_BITS,
        ZERO_BITS, ZERO_BITS, NEG_ONE_BITS, ZERO_BITS, ZERO_BITS, NEG_ONE_BITS,
        // back
        ZERO_BITS, ZERO_BITS, ONE_BITS, ZERO_BITS, ZERO_BITS, ONE_BITS,
        ZERO_BITS, ZERO_BITS, ONE_BITS, ZERO_BITS, ZERO_BITS, ONE_BITS,
    ]
}

/// The cube's twelve triangles, two per face.
pub open spec fn cube_indices() -> Seq<u32> {
    seq![
        0u32, 1u32, 2u32, 2u32, 1u32, 3u32,
        4u32, 5u32, 6u32, 4u32, 6u32, 7u32,
        8u32, 9u32, 10u32, 8u32, 10u32, 11u32,
        12u32, 13u32, 14u32, 13u32, 14u32, 15u32,
        16u32, 17u32, 18u32, 16u32, 18u32, 19u32,
        20u32, 21u32, 22u32, 20u32, 22u32, 23u32,
    ]
}

/// Generates the unit cube: 24 position/normal vertices (four per face) in
/// one block-interleaved vertex buffer, 36 indices, one sub-mesh covering
/// all of them, one default material.
#[verifier::rlimit(50)]
pub fn generate_cube_model() -> (m: Model)
    ensures
        is_cube_model(m),
{
    let mut scalars: Vec<u32> = Vec::new();
    // right
    push3(&mut scalars, ONE_BITS, ONE_BITS, ONE_BITS);
    push3(&mut scalars, ONE_BITS, ONE_BITS, NEG_ONE_BITS);
    push3(&mut scalars, ONE_BITS, NEG_ONE_BITS, ONE_BITS);
    push3(&mut scalars, ONE_BITS, NEG_ONE_BITS, NEG_ONE_BITS);
    // top
    push3(&mut scalars, ONE_BITS, ONE_BITS, ONE_BITS);
    push3(&mut scalars, ONE_BITS, ONE_BITS, NEG_ONE_BITS);
    push3(&mut scalars, NEG_ONE_BITS, ONE_BITS, NEG_ONE_BITS);
    push3(&mut scalars, NEG_ONE_BITS, ONE_BITS, ONE_BITS);
    // bottom
    push3(&mut scalars, ONE_BITS, NEG_ONE_BITS, ONE_BITS);
    push3(&mut scalars, ONE_BITS, NEG_ONE_BITS, NEG_ONE_BITS);
    push3(&mut scalars, NEG_ONE_BITS, NEG_ONE_BITS, NEG_ONE_BITS);
    push3(&mut scalars, NEG_ONE_BITS, NEG_ONE_BITS, ONE_BITS);
    // left
    push3(&mut scalars, NEG_ONE_BITS, ONE_BITS, ONE_BITS);
    push3(&mut scalars, NEG_ONE_BITS, ONE_BITS, NEG_ONE_BITS);
    push3(&mut scalars, NEG_ONE_BITS, NEG_ONE_BITS, ONE_BITS);
    push3(&mut scalars, NEG_ONE_BITS, NEG_ONE_BITS, NEG_ONE_BITS);
    // front
    push3(&mut scalars, ONE_BITS, ONE_BITS, NEG_ONE_BITS);
    push3(&mut scalars, ONE_BITS, NEG_ONE_BITS, NEG_ONE_BITS);
    push3(&mut scalars, NEG_ONE_BITS, NEG_ONE_BITS, NEG_ONE_BITS);
    push3(&mut scalars, NEG_ONE_BITS, ONE_BITS, NEG_ONE_BITS);
    // back
    push3(&mut scalars, ONE_BITS, ONE_BITS, ONE_BITS);
    push3(&mut scalars, ONE_BITS, NEG_ONE_BITS, ONE_BITS);
    push3(&mut scalars, NEG_ONE_BITS, NEG_ONE_BITS, ONE_BITS);
    push3(&mut scalars, NEG_ONE_BITS, ONE_BITS, ONE_BITS);
    proof {
        assert(scalars@ =~= cube_positions());
    }
    // normals, one per face corner
    push3(&mut scalars, ONE_BITS, ZERO_BITS, ZERO_BITS);
    push3(&mut scalars, ONE_BITS, ZERO_BITS, ZERO_BITS);
    push3(&mut scalars, ONE_BITS, ZERO_BITS, ZERO_BITS);
    push3(&mut scalars, ONE_BITS, ZERO_BITS, ZERO_BITS);
    push3(&mut scalars, ZERO_BITS, ONE_BITS, ZERO_BITS);
    push3(&mut scalars, ZERO_BITS, ONE_BITS, ZERO_BITS);
    push3(&mut scalars, ZERO_BITS, ONE_BITS, ZERO_BITS);
    push3(&mut scalars, ZERO_BITS, ONE_BITS, ZERO_BITS);
    push3(&mut scalars, ZERO_BITS, NEG_ONE_BITS, ZERO_BITS);
    push3(&mut scalars, ZERO_BITS, NEG_ONE_BITS, ZERO_BITS);
    push3(&mut scalars, ZERO_BITS, NEG_ONE_BITS, ZERO_BITS);
    push3(&mut scalars, ZERO_BITS, NEG_ONE_BITS, ZERO_BITS);
    push3(&mut scalars, NEG_ONE_BITS, ZERO_BITS, ZERO_BITS);
    push3(&mut scalars, NEG_ONE_BITS, ZERO_BITS, ZERO_BITS);
    push3(&mut scalars, NEG_ONE_BITS, ZERO_BITS, ZERO_BITS);
    push3(&mut scalars, NEG_ONE_BITS, ZERO_BITS, ZERO_BITS);
    push3(&mut scalars, ZERO_BITS, ZERO_BITS, NEG_ONE_BITS);
    push3(&mut scalars, ZERO_BITS, ZERO_BITS, NEG_ONE_BITS);
    push3(&mut scalars, ZERO_BITS, ZERO_BITS, NEG_ONE_BITS);
    push3(&mut scalars, ZERO_BITS, ZERO_BITS, NEG_ONE_BITS);
    push3(&mut scalars, ZERO_BITS, ZERO_BITS, ONE_BITS);
    push3(&mut scalars, ZERO_BITS, ZERO_BITS, ONE_BITS);
    push3(&mut scalars, ZERO_BITS, ZERO_BITS, ONE_BITS);
    push3(&mut scalars, ZERO_BITS, ZERO_BITS, ONE_BITS);
    proof {
        assert(scalars@ =~= cube_positions() + cube_normals());
    }
    let mut indices: Vec<u32> = Vec::new();
    push3(&mut indices, 0, 1, 2);
    push3(&mut indices, 2, 1, 3);
    push3(&mut indices, 4, 5, 6);
    push3(&mut indices, 4, 6, 7);
    push3(&mut indices, 8, 9, 10);
    push3(&mut indices, 8, 10, 11);
    push3(&mut indices, 12, 13, 14);
    push3(&mut indices, 13, 14, 15);
    push3(&mut indices, 16, 17, 18);
    push3(&mut indices, 16, 18, 19);
    push3(&mut indices, 20, 21, 22);
    push3(&mut indices, 20, 22, 23);
    proof {
        assert(indices@ =~= cube_indices());
    }

    let mut buffer_data: Vec<u8> = Vec::new();
    extend_scalars(&mut buffer_data, &scalars);
    let vertex_buffer = Buffer::new(buffer_data);

    let mut index_buffer_data: Vec<u8> = Vec::new();
    extend_scalars(&mut index_buffer_data, &indices);
    let index_buffer = Buffer::new(index_buffer_data);

    let attributes = block_layout(72, 72, 0);

    let mut meshes: Vec<Mesh> = Vec::new();
    meshes.push(single_submesh_mesh(36));
    let mut materials: Vec<Material> = Vec::new();
    materials.push(Material::default());

    let m = Model { index_buffer, vertex_buffer, attributes, meshes, materials };
    proof {
        lemma_le_seq_len(cube_indices());
        assert(m.index_buffer.data@ =~= le_seq(cube_indices()));
        assert(m.vertex_buffer.data@ =~= le_seq(cube_positions() + cube_normals()));
    }
    m
}

} // verus!

verus! {

/// Latitude and longitude segment counts of the procedural sphere.
pub const Y_SEGMENTS: u32 = 64;

pub const X_SEGMENTS: u32 = 64;

/// Grid vertices of a sphere tessellated into `y` by `x` segments: one
/// position/normal pair per grid point, poles included.
pub open spec fn spec_sphere_vertex_count(y: nat, x: nat) -> nat {
    (y + 1) * (x + 1)
}

/// Index entries of the tessellation: each grid cell yields two triangles,
/// except that cells of the first and last latitude row yield only one (the
/// other would be degenerate at the pole), so rows contribute
/// `6x` each but the two pole rows only `3x`.
pub open spec fn spec_sphere_index_count(y: nat, x: nat) -> nat {
    if y == 0 {
        0
    } else {
        (6 * y - 6) as nat * x
    }
}

/// Index entries of one latitude row `i` per column: three for the upper
/// triangle unless the row touches the north pole, three for the lower
/// unless it touches the south pole.
pub open spec fn spec_row_triples(y: nat, i: nat) -> nat {
    (if i != 0 {
        3nat
    } else {
        0nat
    }) + (if i + 1 != y {
        3nat
    } else {
        0nat
    })
}

/// Index entries of the first `i` latitude rows.
pub open spec fn spec_partial_count(y: nat, x: nat, i: nat) -> nat {
    if i == 0 {
        0
    } else if y == 1 {
        0
    } else if i < y {
        (3 + 6 * (i - 1)) as nat * x
    } else {
        (6 * y - 6) as nat * x
    }
}

/// Finishing row `i` adds one row's worth of entries to the running total.
proof fn lemma_partial_count_step(y: nat, x: nat, i: nat)
    requires
        i < y,
    ensures
        spec_partial_count(y, x, i) + x * spec_row_triples(y, i) == spec_partial_count(
            y,
            x,
            (i + 1) as nat,
        ),
{
    if y == 1 {
        assert(x * 0 == 0) by (nonlinear_arith);
    } else if i == 0 {
        assert(x * 3 == 3nat * x) by (nonlinear_arith);
    } else if i + 1 < y {
        assert((3 + 6 * (i - 1)) as nat * x + x * 6 == (3 + 6 * i) as nat * x) by (nonlinear_arith)
            requires
                i >= 1,
        ;
    } else {
        assert((3 + 6 * (i - 1)) as nat * x + x * 3 == (6 * y - 6) as nat * x) by (nonlinear_arith)
            requires
                i >= 1 && i + 1 == y,
        ;
    }
}

/// The triangle indices one grid cell (latitude row `i`, column `j`)
/// contributes: the upper triangle unless the row touches the north pole,
/// then the lower triangle unless it touches the south pole.
pub open spec fn spec_cell_indices(y: nat, x: nat, i: nat, j: nat) -> Seq<u32> {
    let k1 = i * (x + 1) + j;
    let k2 = k1 + x + 1;
    (if i != 0 {
        seq![k1 as u32, k2 as u32, (k1 + 1) as u32]
    } else {
        Seq::<u32>::empty()
    }) + (if i + 1 != y {
        seq![(k1 + 1) as u32, k2 as u32, (k2 + 1) as u32]
    } else {
        Seq::<u32>::empty()
    })
}

/// The indices of the first `j` cells of latitude row `i`, in column order.
pub open spec fn spec_row_indices(y: nat, x: nat, i: nat, j: nat) -> Seq<u32>
    decreases j,
{
    if j == 0 {
        Seq::empty()
    } else {
        spec_row_indices(y, x, i, (j - 1) as nat) + spec_cell_indices(y, x, i, (j - 1) as nat)
    }
}

/// The indices of the first `i` latitude rows, in row order.
pub open spec fn spec_rows_indices(y: nat, x: nat, i: nat) -> Seq<u32>
    decreases i,
{
    if i == 0 {
        Seq::empty()
    } else {
        spec_rows_indices(y, x, (i - 1) as nat) + spec_row_indices(y, x, (i - 1) as nat, x)
    }
}

/// The whole tessellation's index sequence, row by row, cell by cell.
pub open spec fn spec_sphere_indices(y: nat, x: nat) -> Seq<u32> {
    spec_rows_indices(y, x, y)
}

/// Generates the sphere's triangle indices for a `y_segments` by
/// `x_segments` grid: exactly the cell-by-cell sequence of
/// [`spec_sphere_indices`], with the documented number of entries, each a
/// valid grid vertex index.
pub fn generate_sphere_indices(y_segments: u32, x_segments: u32) -> (indices: Vec<u32>)
    requires
        (y_segments + 1) * (x_segments + 1) <= u32::MAX,
    ensures
        indices@ == spec_sphere_indices(y_segments as nat, x_segments as nat),
        indices@.len() == spec_sphere_index_count(y_segments as nat, x_segments as nat),
        forall|k: int|
            0 <= k < indices@.len() ==> (#[trigger] indices@[k]) < spec_sphere_vertex_count(
                y_segments as nat,
                x_segments as nat,
            ),
{
    let y = y_segments;
    let x = x_segments;
    let mut indices: Vec<u32> = Vec::new();
    let mut i: u32 = 0;
    while i < y
        invariant
            i <= y,
            (y + 1) * (x + 1) <= u32::MAX,
            indices@ == spec_rows_indices(y as nat, x as nat, i as nat),
            indices@.len() == spec_partial_count(y as nat, x as nat, i as nat),
            forall|k: int|
                0 <= k < indices@.len() ==> (#[trigger] indices@[k]) < spec_sphere_vertex_count(
                    y as nat,
                    x as nat,
                ),
        decreases y - i,
    {
        proof {
            assert((i + 1) * (x + 1) <= (y + 1) * (x + 1) && (i + 2) * (x + 1) <= (y + 1) * (x + 1)
                && i * (x + 1) + (x + 1) == (i + 1) * (x + 1) && (i + 1) * (x + 1) + (x + 1) == (i
                + 2) * (x + 1)) by (nonlinear_arith)
                requires
                    i < y,
            ;
        }
        let mut k1: u32 = i * (x + 1);
        let mut k2: u32 = k1 + x + 1;
        let ghost t = spec_row_triples(y as nat, i as nat);
        let ghost row_base = indices@.len();
        let mut j: u32 = 0;
        while j < x
            invariant
                j <= x,
                i < y,
                (y + 1) * (x + 1) <= u32::MAX,
                k1 == i * (x + 1) + j,
                k2 == k1 + x + 1,
                t == spec_row_triples(y as nat, i as nat),
                row_base == spec_partial_count(y as nat, x as nat, i as nat),
                indices@ == spec_rows_indices(y as nat, x as nat, i as nat) + spec_row_indices(
                    y as nat,
                    x as nat,
                    i as nat,
                    j as nat,
                ),
                indices@.len() == row_base + j * t,
                forall|k: int|
                    0 <= k < indices@.len() ==> (#[trigger] indices@[k])
                        < spec_sphere_vertex_count(y as nat, x as nat),
            decreases x - j,
        {
            proof {
                assert(i * (x + 1) + (x + 1) == (i + 1) * (x + 1) && (i + 1) * (x + 1) + (x + 1)
                    == (i + 2) * (x + 1) && i * (x + 1) + j + 1 < (i + 1) * (x + 1) && (i + 1) * (x
                    + 1) + j + 1 < (i + 2) * (x + 1) && (i + 2) * (x + 1) <= (y + 1) * (x + 1))
                    by (nonlinear_arith)
                    requires
                        i < y && j < x,
                ;
            }
            if i != 0 {
                indices.push(k1);
                indices.push(k2);
                indices.push(k1 + 1);
            }
            if i != y - 1 {
                indices.push(k1 + 1);
                indices.push(k2);
                indices.push(k2 + 1);
            }
            proof {
                assert(j * t + t == (j + 1) * t) by (nonlinear_arith);
                assert(i as nat + 1 != y as nat <==> i != y - 1);
                assert(spec_row_indices(y as nat, x as nat, i as nat, j as nat + 1)
                    == spec_row_indices(y as nat, x as nat, i as nat, j as nat)
                    + spec_cell_indices(y as nat, x as nat, i as nat, j as nat));
                assert(indices@ =~= spec_rows_indices(y as nat, x as nat, i as nat)
                    + spec_row_indices(y as nat, x as nat, i as nat, j as nat)
                    + spec_cell_indices(y as nat, x as nat, i as nat, j as nat));
                assert(indices@ =~= spec_rows_indices(y as nat, x as nat, i as nat)
                    + spec_row_indices(y as nat, x as nat, i as nat, j as nat + 1));
            }
            k1 = k1 + 1;
            k2 = k2 + 1;
            j = j + 1;
        }
        proof {
            assert(x * t == x * spec_row_triples(y as nat, i as nat)) by (nonlinear_arith)
                requires
                    t == spec_row_triples(y as nat, i as nat),
            ;
            assert(indices@.len() == row_base + x * t);
            lemma_partial_count_step(y as nat, x as nat, i as nat);
            assert(spec_rows_indices(y as nat, x as nat, i as nat + 1) == spec_rows_indices(
                y as nat,
                x as nat,
                i as nat,
            ) + spec_row_indices(y as nat, x as nat, i as nat, x as nat));
            assert(indices@ =~= spec_rows_indices(y as nat, x as nat, i as nat + 1));
        }
        i = i + 1;
    }
    proof {
        if y == 0 {
        } else if y == 1 {
            assert(spec_sphere_index_count(1, x as nat) == 0nat * (x as nat));
            assert(0nat * (x as nat) == 0) by (nonlinear_arith);
        }
        assert(indices@.len() == spec_sphere_index_count(y as nat, x as nat));
    }
    indices
}

} // verus!

verus! {

/// The cube's geometry, independent of its buffers' upload state: what a
/// capture pass needs of the model it draws.
pub open spec fn has_cube_geometry(m: Model) -> bool {
    &&& m.wf()
    &&& m.vertex_buffer.data@ == le_seq(cube_positions() + cube_normals())
    &&& m.index_buffer.data@ == le_seq(cube_indices())
    &&& m.attributes@ == spec_block_layout(72, 72, 0)
    &&& m.meshes@.len() == 1
    &&& m.meshes@[0].sub_meshes@ == seq![
        SubMesh { start_index: 0, num_indices: 36, material_index: 0 },
    ]
}

/// The quad's geometry, independent of its buffers' upload state.
pub open spec fn has_quad_geometry(m: Model) -> bool {
    &&& m.wf()
    &&& m.vertex_buffer.data@ == le_seq(quad_positions() + quad_normals() + quad_tex_coords())
    &&& m.index_buffer.data@ == le_seq(quad_indices())
    &&& m.attributes@ == spec_block_layout(12, 12, 8)
    &&& m.meshes@.len() == 1
    &&& m.meshes@[0].sub_meshes@ == seq![
        SubMesh { start_index: 0, num_indices: 6, material_index: 0 },
    ]
}

/// The block layout's attributes are all valid float attributes whose byte
/// offsets fit, so they can be bound.
pub proof fn lemma_block_layout_valid(p: nat, n: nat, t: nat)
    requires
        4 * (p + n + t) <= usize::MAX,
    ensures
        forall|k: int| 0 <= k < spec_block_layout(p, n, t).len() ==> {
            let a = #[trigger] spec_block_layout(p, n, t)[k];
            &&& a.format._type != Type::NUM
            &&& a.format.dimension != Dimension::NUM
            &&& crate::stream::spec_total_offset(a) <= usize::MAX
        },
{
    let s = spec_block_layout(p, n, t);
    assert forall|k: int| 0 <= k < s.len() implies {
        let a = #[trigger] s[k];
        &&& a.format._type != Type::NUM
        &&& a.format.dimension != Dimension::NUM
        &&& crate::stream::spec_total_offset(a) <= usize::MAX
    } by {
        if k == 0 {
            assert(s[0].offset == 0);
        } else if k == 1 {
            assert(s[1].offset == p);
        } else {
            assert(s[2].offset == p + n);
        }
    }
}

/// A model is the unit quad as [`generate_quad_model`] builds it.
pub open spec fn is_quad_model(m: Model) -> bool {
    &&& m.wf()
    &&& m.vertex_buffer@ == spec_new_buffer(
        le_seq(quad_positions() + quad_normals() + quad_tex_coords()),
    )
    &&& m.index_buffer@ == spec_new_buffer(le_seq(quad_indices()))
    &&& m.attributes@ == spec_block_layout(12, 12, 8)
    &&& m.meshes@.len() == 1
    &&& m.meshes@[0].matrix@ == spec_identity_matrix()
    &&& m.meshes@[0].sub_meshes@ == seq![
        SubMesh { start_index: 0, num_indices: 6, material_index: 0 },
    ]
    &&& m.materials@.len() == 1
    &&& is_default_material(m.materials@[0])
}

/// A model is the unit cube as [`generate_cube_model`] builds it.
pub open spec fn is_cube_model(m: Model) -> bool {
    &&& m.wf()
    &&& m.vertex_buffer@ == spec_new_buffer(le_seq(cube_positions() + cube_normals()))
    &&& m.index_buffer@ == spec_new_buffer(le_seq(cube_indices()))
    &&& m.attributes@ == spec_block_layout(72, 72, 0)
    &&& m.meshes@.len() == 1
    &&& m.meshes@[0].matrix@ == spec_identity_matrix()
    &&& m.meshes@[0].sub_meshes@ == seq![
        SubMesh { start_index: 0, num_indices: 36, material_index: 0 },
    ]
    &&& m.materials@.len() == 1
    &&& is_default_material(m.materials@[0])
}

/// A model is the tessellated unit sphere built from the given grid scalars:
/// its normal block repeats its position block (a unit sphere's normals are
/// its positions), and its one sub-mesh spans the documented index count.
pub open spec fn is_sphere_model(m: Model, unit_scalars: Seq<u32>) -> bool {
    &&& m.wf()
    &&& m.vertex_buffer@ == spec_new_buffer(le_seq(unit_scalars + unit_scalars))
    &&& m.index_buffer@ == spec_new_buffer(
        le_seq(spec_sphere_indices(Y_SEGMENTS as nat, X_SEGMENTS as nat)),
    )
    &&& m.index_buffer.data@.len() == 4 * spec_sphere_index_count(
        Y_SEGMENTS as nat,
        X_SEGMENTS as nat,
    )
    &&& m.attributes@ == spec_block_layout(
        unit_scalars.len(),
        unit_scalars.len(),
        0,
    )
    &&& m.meshes@.len() == 1
    &&& m.meshes@[0].matrix@ == spec_identity_matrix()
    &&& m.meshes@[0].sub_meshes@ == seq![
        SubMesh {
            start_index: 0,
            num_indices: spec_sphere_index_count(Y_SEGMENTS as nat, X_SEGMENTS as nat) as usize,
            material_index: 0,
        },
    ]
    &&& m.materials@.len() == 1
    &&& is_default_material(m.materials@[0])
}

/// Generates the tessellated unit sphere from one scalar per grid-vertex
/// coordinate (the host evaluates the spherical parametrization, which is
/// floating-point work): exactly one position/normal pair per grid vertex,
/// with the normals repeating the positions, and the documented number of
/// triangle indices, all in range.
pub fn generate_sphere_model(unit_scalars: Vec<u32>) -> (m: Model)
    requires
        unit_scalars@.len() == 3 * spec_sphere_vertex_count(Y_SEGMENTS as nat, X_SEGMENTS as nat),
    ensures
        is_sphere_model(m, unit_scalars@),
{
    proof {
        assert((65nat) * (65nat) == 4225) by (nonlinear_arith);
        assert(3 * spec_sphere_vertex_count(Y_SEGMENTS as nat, X_SEGMENTS as nat) == 12675);
    }
    let indices = generate_sphere_indices(Y_SEGMENTS, X_SEGMENTS);
    let num_indices = indices.len();

    let mut buffer_data: Vec<u8> = Vec::new();
    extend_scalars(&mut buffer_data, &unit_scalars);
    extend_scalars(&mut buffer_data, &unit_scalars);
    proof {
        lemma_le_seq_concat(unit_scalars@, unit_scalars@);
        assert(buffer_data@ =~= le_seq(unit_scalars@ + unit_scalars@));
    }
    let vertex_buffer = Buffer::new(buffer_data);

    let mut index_buffer_data: Vec<u8> = Vec::new();
    extend_scalars(&mut index_buffer_data, &indices);
    let index_buffer = Buffer::new(index_buffer_data);

    let attributes = block_layout(unit_scalars.len(), unit_scalars.len(), 0);

    let mut meshes: Vec<Mesh> = Vec::new();
    meshes.push(single_submesh_mesh(num_indices));
    let mut materials: Vec<Material> = Vec::new();
    materials.push(Material::default());

    let m = Model { index_buffer, vertex_buffer, attributes, meshes, materials };
    proof {
        lemma_le_seq_len(indices@);
        assert(m.index_buffer.data@ =~= le_seq(indices@));
    }
    m
}

/// Owns exactly one instance of each procedural shape, generated once at
/// construction and shared by every caller for the process lifetime.
pub struct ModelCache {
    pub cube: Model,
    pub sphere: Model,
    pub quad: Model,
}

impl ModelCache {
    /// Which field a shape key names.
    pub open spec fn spec_shape(self, shape: Shape) -> Model {
        match shape {
            Shape::Cube => self.cube,
            Shape::Sphere => self.sphere,
            Shape::Quad => self.quad,
        }
    }

    /// Generates the three procedural shapes. The sphere's grid scalars are
    /// supplied by the host, which evaluates the spherical parametrization.
    pub fn new(sphere_unit_scalars: Vec<u32>) -> (c: ModelCache)
        requires
            sphere_unit_scalars@.len() == 3 * spec_sphere_vertex_count(
                Y_SEGMENTS as nat,
                X_SEGMENTS as nat,
            ),
        ensures
            is_quad_model(c.quad),
            is_cube_model(c.cube),
            is_sphere_model(c.sphere, sphere_unit_scalars@),
    {
        let quad = generate_quad_model();
        let cube = generate_cube_model();
        let sphere = generate_sphere_model(sphere_unit_scalars);
        ModelCache { cube, sphere, quad }
    }

    /// The cached instance of the given shape.
    pub fn shape(&self, shape: &Shape) -> (m: &Model)
        ensures
            *m == self.spec_shape(*shape),
    {
        match shape {
            Shape::Cube => &self.cube,
            Shape::Sphere => &self.sphere,
            Shape::Quad => &self.quad,
        }
    }

    /// Mutable access to the cached instance of the given shape (binding a
    /// model's buffers marks them clean, so drawing needs it mutable).
    pub fn shape_mut(&mut self, shape: Shape) -> (m: &mut Model)
        ensures
            *m == old(self).spec_shape(shape),
            shape == Shape::Cube ==> *final(self) == (ModelCache {
                cube: *final(m),
                sphere: old(self).sphere,
                quad: old(self).quad,
            }),
            shape == Shape::Sphere ==> *final(self) == (ModelCache {
                cube: old(self).cube,
                sphere: *final(m),
                quad: old(self).quad,
            }),
            shape == Shape::Quad ==> *final(self) == (ModelCache {
                cube: old(self).cube,
                sphere: old(self).sphere,
                quad: *final(m),
            }),
    {
        match shape {
            Shape::Cube => &mut self.cube,
            Shape::Sphere => &mut self.sphere,
            Shape::Quad => &mut self.quad,
        }
    }
}

} // verus!

verus! {

/// One texture blob a scene import hands over: raw pixels plus dimensions.
pub struct TextureInput {
    pub pixels: Vec<u8>,
    pub width: u32,
    pub height: u32,
}

/// One imported material: the PBR factors (as scalar bit patterns) and up to
/// four optional texture blobs.
pub struct MaterialInput {
    pub color: ColorBits,
    pub roughness: u32,
    pub metallic: u32,
    pub albedo: Option<TextureInput>,
    pub normal: Option<TextureInput>,
    pub specular: Option<TextureInput>,
    pub emissive: Option<TextureInput>,
}

/// One imported primitive: its vertex streams (as scalar bit patterns),
/// its indices, and its material. A stream the file does not supply is
/// `None`.
pub struct PrimitiveInput {
    pub positions: Option<Vec<u32>>,
    pub normals: Option<Vec<u32>>,
    pub tex_coords: Option<Vec<u32>>,
    pub indices: Option<Vec<u32>>,
    pub material: MaterialInput,
}

/// One imported node that carries a mesh: its primitives, in order.
pub struct MeshInput {
    pub primitives: Vec<PrimitiveInput>,
}

/// Why a scene import is rejected.
#[derive(Copy, Debug, Clone, PartialEq, Eq, Structural)]
pub enum LoadError {
    NoScene,
    MissingPositions,
    MissingNormals,
    MissingTexCoords,
    MissingIndices,
}

/// The first stream a primitive is missing, if any, checked in the order
/// positions, normals, texture coordinates, indices.
pub open spec fn prim_defect(p: PrimitiveInput) -> Option<LoadError> {
    if p.positions is None {
        Some(LoadError::MissingPositions)
    } else if p.normals is None {
        Some(LoadError::MissingNormals)
    } else if p.tex_coords is None {
        Some(LoadError::MissingTexCoords)
    } else if p.indices is None {
        Some(LoadError::MissingIndices)
    } else {
        None
    }
}

/// The first defect over a primitive list, in order.
pub open spec fn first_defect(ps: Seq<PrimitiveInput>) -> Option<LoadError>
    decreases ps.len(),
{
    if ps.len() == 0 {
        None
    } else if prim_defect(ps.first()) is Some {
        prim_defect(ps.first())
    } else {
        first_defect(ps.drop_first())
    }
}

pub proof fn lemma_first_defect_concat(a: Seq<PrimitiveInput>, b: Seq<PrimitiveInput>)
    ensures
        first_defect(a + b) == (if first_defect(a) is Some {
            first_defect(a)
        } else {
            first_defect(b)
        }),
    decreases a.len(),
{
    if a.len() == 0 {
        assert(a + b =~= b);
    } else {
        lemma_first_defect_concat(a.drop_first(), b);
        assert((a + b).drop_first() =~= a.drop_first() + b);
        assert((a + b).first() == a.first());
    }
}

/// The primitives of a node list, flattened in traversal order.
pub open spec fn flat_prims(nodes: Seq<MeshInput>) -> Seq<PrimitiveInput>
    decreases nodes.len(),
{
    if nodes.len() == 0 {
        Seq::empty()
    } else {
        nodes.first().primitives@ + flat_prims(nodes.drop_first())
    }
}

pub proof fn lemma_flat_prims_concat(a: Seq<MeshInput>, b: Seq<MeshInput>)
    ensures
        flat_prims(a + b) == flat_prims(a) + flat_prims(b),
    decreases a.len(),
{
    if a.len() == 0 {
        assert(a + b =~= b);
        assert(flat_prims(a) + flat_prims(b) =~= flat_prims(b));
    } else {
        lemma_flat_prims_concat(a.drop_first(), b);
        assert((a + b).drop_first() =~= a.drop_first() + b);
        assert((a + b).first() == a.first());
        assert(flat_prims(a + b) =~= flat_prims(a) + flat_prims(b));
    }
}

/// The scalars of an optional stream: empty when absent.
pub open spec fn opt_scalars(o: Option<Vec<u32>>) -> Seq<u32> {
    match o {
        Some(v) => v@,
        None => Seq::empty(),
    }
}

/// All position scalars of a primitive list, concatenated in order.
pub open spec fn cat_positions(ps: Seq<PrimitiveInput>) -> Seq<u32>
    decreases ps.len(),
{
    if ps.len() == 0 {
        Seq::empty()
    } else {
        cat_positions(ps.drop_last()) + opt_scalars(ps.last().positions)
    }
}

/// All normal scalars of a primitive list, concatenated in order.
pub open spec fn cat_normals(ps: Seq<PrimitiveInput>) -> Seq<u32>
    decreases ps.len(),
{
    if ps.len() == 0 {
        Seq::empty()
    } else {
        cat_normals(ps.drop_last()) + opt_scalars(ps.last().normals)
    }
}

/// All texture-coordinate scalars of a primitive list, concatenated in order.
pub open spec fn cat_tex_coords(ps: Seq<PrimitiveInput>) -> Seq<u32>
    decreases ps.len(),
{
    if ps.len() == 0 {
        Seq::empty()
    } else {
        cat_tex_coords(ps.drop_last()) + opt_scalars(ps.last().tex_coords)
    }
}

/// All index entries of a primitive list, concatenated in order.
pub open spec fn cat_indices(ps: Seq<PrimitiveInput>) -> Seq<u32>
    decreases ps.len(),
{
    if ps.len() == 0 {
        Seq::empty()
    } else {
        cat_indices(ps.drop_last()) + opt_scalars(ps.last().indices)
    }
}

/// The sub-meshes of a mesh list, flattened in order.
pub open spec fn flat_submeshes(meshes: Seq<Mesh>) -> Seq<SubMesh>
    decreases meshes.len(),
{
    if meshes.len() == 0 {
        Seq::empty()
    } else {
        flat_submeshes(meshes.drop_last()) + meshes.last().sub_meshes@
    }
}

/// The sub-mesh the loader records for the k-th primitive overall: its
/// indices start where the previous primitives' indices end, span exactly
/// its own index count, and name the k-th material slot.
pub open spec fn spec_submesh_at(flat: Seq<PrimitiveInput>, k: int) -> SubMesh {
    SubMesh {
        start_index: cat_indices(flat.take(k)).len() as usize,
        num_indices: opt_scalars(flat[k].indices).len() as usize,
        material_index: k as usize,
    }
}

/// The sampling settings the scene loader creates textures with.
pub open spec fn gltf_texture_desc() -> TextureDesc {
    TextureDesc {
        wrap_s: crate::texture::WrapMode::REPEAT,
        wrap_t: crate::texture::WrapMode::REPEAT,
        min_filter: crate::texture::Filter::LINEAR,
        mag_filter: crate::texture::Filter::LINEAR,
    }
}

/// The pixel format the scene loader creates textures with.
pub open spec fn gltf_texture_format() -> Format {
    Format { dimension: Dimension::VEC3, _type: Type::UINT8, usage: Usage::RGB }
}

/// The texture the loader creates with handle `id` from one imported blob.
pub open spec fn spec_gltf_texture(id: u32, t: TextureInput) -> Texture {
    Texture {
        id,
        format: gltf_texture_format(),
        _type: crate::texture::Type::Tex2D,
        width: t.width,
        height: t.height,
        texture_desc: gltf_texture_desc(),
    }
}

/// One when the optional texture is supplied, zero otherwise.
pub open spec fn opt_tex(o: Option<TextureInput>) -> int {
    if o is Some {
        1
    } else {
        0
    }
}

/// Number of textures one imported material creates.
pub open spec fn spec_map_count(i: MaterialInput) -> int {
    opt_tex(i.albedo) + opt_tex(i.normal) + opt_tex(i.specular) + opt_tex(i.emissive)
}

/// The commands one imported material's texture creations append: one
/// texture-creation block per supplied blob, in the order albedo, normal,
/// specular, emissive, with consecutive fresh handles from `fresh`.
pub open spec fn spec_material_log(i: MaterialInput, fresh: u32) -> Seq<CommandView> {
    let f2 = (fresh + opt_tex(i.albedo)) as u32;
    let f3 = (f2 + opt_tex(i.normal)) as u32;
    let f4 = (f3 + opt_tex(i.specular)) as u32;
    (match i.albedo {
        Some(t) => crate::texture::spec_texture_new_log(
            fresh,
            t.pixels@,
            gltf_texture_desc(),
            t.width,
            t.height,
            gltf_texture_format(),
        ),
        None => Seq::<CommandView>::empty(),
    }) + (match i.normal {
        Some(t) => crate::texture::spec_texture_new_log(
            f2,
            t.pixels@,
            gltf_texture_desc(),
            t.width,
            t.height,
            gltf_texture_format(),
        ),
        None => Seq::<CommandView>::empty(),
    }) + (match i.specular {
        Some(t) => crate::texture::spec_texture_new_log(
            f3,
            t.pixels@,
            gltf_texture_desc(),
            t.width,
            t.height,
            gltf_texture_format(),
        ),
        None => Seq::<CommandView>::empty(),
    }) + (match i.emissive {
        Some(t) => crate::texture::spec_texture_new_log(
            f4,
            t.pixels@,
            gltf_texture_desc(),
            t.width,
            t.height,
            gltf_texture_format(),
        ),
        None => Seq::<CommandView>::empty(),
    })
}

/// The material the loader builds from one imported material, its textures
/// numbered from `fresh`: the factors carried over, ambient occlusion one,
/// and each supplied blob as an owned texture.
pub open spec fn spec_material(i: MaterialInput, fresh: u32) -> Material {
    let f2 = (fresh + opt_tex(i.albedo)) as u32;
    let f3 = (f2 + opt_tex(i.normal)) as u32;
    let f4 = (f3 + opt_tex(i.specular)) as u32;
    Material {
        albedo_map: match i.albedo {
            Some(t) => Some(spec_gltf_texture(fresh, t)),
            None => None,
        },
        normal_map: match i.normal {
            Some(t) => Some(spec_gltf_texture(f2, t)),
            None => None,
        },
        specular_map: match i.specular {
            Some(t) => Some(spec_gltf_texture(f3, t)),
            None => None,
        },
        emissive_map: match i.emissive {
            Some(t) => Some(spec_gltf_texture(f4, t)),
            None => None,
        },
        color: i.color,
        roughness: i.roughness,
        metallic: i.metallic,
        ao: ONE_BITS,
    }
}

/// The loader-visible shape of a built material against its input: the
/// factors, ambient occlusion one, and per supplied blob a texture of that
/// blob's dimensions with the loader's format and sampling settings.
pub open spec fn material_matches(m: Material, i: MaterialInput) -> bool {
    &&& m.color == i.color
    &&& m.roughness == i.roughness
    &&& m.metallic == i.metallic
    &&& m.ao == ONE_BITS
    &&& match (m.albedo_map, i.albedo) {
        (Some(t), Some(b)) => t.width == b.width && t.height == b.height && t.format
            == gltf_texture_format() && t._type == crate::texture::Type::Tex2D && t.texture_desc
            == gltf_texture_desc(),
        (None, None) => true,
        _ => false,
    }
    &&& match (m.normal_map, i.normal) {
        (Some(t), Some(b)) => t.width == b.width && t.height == b.height && t.format
            == gltf_texture_format() && t._type == crate::texture::Type::Tex2D && t.texture_desc
            == gltf_texture_desc(),
        (None, None) => true,
        _ => false,
    }
    &&& match (m.specular_map, i.specular) {
        (Some(t), Some(b)) => t.width == b.width && t.height == b.height && t.format
            == gltf_texture_format() && t._type == crate::texture::Type::Tex2D && t.texture_desc
            == gltf_texture_desc(),
        (None, None) => true,
        _ => false,
    }
    &&& match (m.emissive_map, i.emissive) {
        (Some(t), Some(b)) => t.width == b.width && t.height == b.height && t.format
            == gltf_texture_format() && t._type == crate::texture::Type::Tex2D && t.texture_desc
            == gltf_texture_desc(),
        (None, None) => true,
        _ => false,
    }
}

} // verus!

verus! {

/// Creates one GPU texture from an imported texture blob, with the repeat
/// wrap and linear filter settings the scene loader uses: exactly one
/// texture-creation block, uploading the blob's pixels.
fn load_gltf_texture(dev: &mut Device, data: &TextureInput) -> (t: Texture)
    requires
        old(dev).wf(),
        old(dev).next_handle < u32::MAX,
    ensures
        final(dev).wf(),
        final(dev).next_handle == old(dev).next_handle + 1,
        t == spec_gltf_texture(old(dev).next_handle, *data),
        t.id >= 1,
        final(dev).log() == old(dev).log() + crate::texture::spec_texture_new_log(
            old(dev).next_handle,
            data.pixels@,
            gltf_texture_desc(),
            data.width,
            data.height,
            gltf_texture_format(),
        ),
{
    let format = Format::new(Dimension::VEC3, Type::UINT8, Usage::RGB);
    let texture_desc = TextureDesc {
        wrap_s: crate::texture::WrapMode::REPEAT,
        wrap_t: crate::texture::WrapMode::REPEAT,
        min_filter: crate::texture::Filter::LINEAR,
        mag_filter: crate::texture::Filter::LINEAR,
    };
    Texture::new(
        dev,
        &data.pixels,
        texture_desc,
        data.width,
        data.height,
        format,
        crate::texture::Type::Tex2D,
    )
}

/// Builds one material from an imported material: the factors are carried
/// over (ambient occlusion defaults to one), and each supplied texture blob
/// becomes an owned GPU texture, created by exactly the texture-creation
/// commands of [`spec_material_log`].
fn load_gltf_material(dev: &mut Device, input: &MaterialInput) -> (m: Material)
    requires
        old(dev).wf(),
        old(dev).next_handle as int + 4 <= u32::MAX,
    ensures
        final(dev).wf(),
        final(dev).next_handle == old(dev).next_handle + spec_map_count(*input),
        m == spec_material(*input, old(dev).next_handle),
        material_matches(m, *input),
        final(dev).log() == old(dev).log() + spec_material_log(*input, old(dev).next_handle),
{
    let ghost n0 = old(dev).next_handle;
    let albedo_map = match &input.albedo {
        Some(t) => Some(load_gltf_texture(dev, t)),
        None => None,
    };
    let normal_map = match &input.normal {
        Some(t) => Some(load_gltf_texture(dev, t)),
        None => None,
    };
    let specular_map = match &input.specular {
        Some(t) => Some(load_gltf_texture(dev, t)),
        None => None,
    };
    let emissive_map = match &input.emissive {
        Some(t) => Some(load_gltf_texture(dev, t)),
        None => None,
    };
    let mut m = Material::new(input.color, input.roughness, input.metallic, ONE_BITS);
    m.albedo_map = albedo_map;
    m.normal_map = normal_map;
    m.specular_map = specular_map;
    m.emissive_map = emissive_map;
    proof {
        assert(dev.log() =~= old(dev).log() + spec_material_log(*input, n0));
    }
    m
}

/// Assembles a model from an imported scene: every node's primitives are
/// appended into one shared pair of buffers (positions, then normals, then
/// texture coordinates, each block concatenated over all primitives in
/// traversal order), one sub-mesh per primitive records its index slice and
/// material slot, and one material per primitive is created.
///
/// Fails with `NoScene` exactly when no scene was found, and otherwise with
/// the first missing stream of the first incomplete primitive, checked in
/// the order positions, normals, texture coordinates, indices.
#[verifier::rlimit(100)]
pub fn load_gltf_model(dev: &mut Device, scene: Option<Vec<MeshInput>>) -> (r: Result<
    Model,
    LoadError,
>)
    requires
        old(dev).wf(),
        scene matches Some(nodes) ==> old(dev).next_handle as int + 4 * flat_prims(nodes@).len()
            + 4 <= u32::MAX,
    ensures
        final(dev).wf(),
        scene is None ==> (r matches Err(e) && e == LoadError::NoScene),
        scene matches Some(nodes) ==> match first_defect(flat_prims(nodes@)) {
            Some(e) => (r matches Err(e2) && e2 == e),
            None => (r matches Ok(m) && {
                let flat = flat_prims(nodes@);
                &&& m.wf()
                &&& m.meshes@.len() == nodes@.len()
                &&& forall|n: int|
                    0 <= n < nodes@.len() ==> (#[trigger] m.meshes@[n]).sub_meshes@.len()
                        == nodes@[n].primitives@.len() && m.meshes@[n].matrix@
                        == spec_identity_matrix()
                &&& m.materials@.len() == flat.len()
                &&& forall|k: int|
                    0 <= k < flat.len() ==> material_matches(
                        #[trigger] m.materials@[k],
                        flat[k].material,
                    )
                &&& m.attributes@ == spec_block_layout(
                    cat_positions(flat).len(),
                    cat_normals(flat).len(),
                    cat_tex_coords(flat).len(),
                )
                &&& m.vertex_buffer@ == spec_new_buffer(
                    le_seq(cat_positions(flat) + cat_normals(flat) + cat_tex_coords(flat)),
                )
                &&& m.index_buffer@ == spec_new_buffer(le_seq(cat_indices(flat)))
                &&& flat_submeshes(m.meshes@).len() == flat.len()
                &&& forall|k: int|
                    0 <= k < flat.len() ==> #[trigger] flat_submeshes(m.meshes@)[k]
                        == spec_submesh_at(flat, k)
            }),
        },
{
    let nodes = match scene {
        None => {
            return Err(LoadError::NoScene);
        },
        Some(nodes) => nodes,
    };
    let ghost flat = flat_prims(nodes@);
    let mut positions: Vec<u32> = Vec::new();
    let mut normals: Vec<u32> = Vec::new();
    let mut tex_coords: Vec<u32> = Vec::new();
    let mut indices: Vec<u32> = Vec::new();
    let mut meshes: Vec<Mesh> = Vec::new();
    let mut materials: Vec<Material> = Vec::new();
    let mut i: usize = 0;
    while i < nodes.len()
        invariant
            i <= nodes@.len(),
            scene == Some(nodes),
            dev.wf(),
            flat == flat_prims(nodes@),
            old(dev).next_handle as int + 4 * flat.len() + 4 <= u32::MAX,
            dev.next_handle as int <= old(dev).next_handle as int + 4 * flat_prims(
                nodes@.take(i as int),
            ).len(),
            flat_prims(nodes@.take(i as int)).len() <= flat.len(),
            first_defect(flat_prims(nodes@.take(i as int))) is None,
            positions@ == cat_positions(flat_prims(nodes@.take(i as int))),
            normals@ == cat_normals(flat_prims(nodes@.take(i as int))),
            tex_coords@ == cat_tex_coords(flat_prims(nodes@.take(i as int))),
            indices@ == cat_indices(flat_prims(nodes@.take(i as int))),
            materials@.len() == flat_prims(nodes@.take(i as int)).len(),
            forall|k: int|
                0 <= k < materials@.len() ==> material_matches(
                    #[trigger] materials@[k],
                    flat_prims(nodes@.take(i as int))[k].material,
                ),
            flat_submeshes(meshes@).len() == flat_prims(nodes@.take(i as int)).len(),
            forall|k: int|
                0 <= k < flat_submeshes(meshes@).len() ==> #[trigger] flat_submeshes(meshes@)[k]
                    == spec_submesh_at(flat_prims(nodes@.take(i as int)), k),
            meshes@.len() == i,
            forall|n: int|
                0 <= n < i ==> (#[trigger] meshes@[n]).sub_meshes@.len()
                    == nodes@[n].primitives@.len() && meshes@[n].matrix@
                    == spec_identity_matrix(),
            forall|n: int, k: int|
                0 <= n < meshes@.len() && 0 <= k < meshes@[n].sub_meshes@.len() ==> {
                    let sm = #[trigger] meshes@[n].sub_meshes@[k];
                    &&& sm.material_index < materials@.len()
                    &&& sm.start_index + sm.num_indices <= indices@.len()
                },
        decreases nodes@.len() - i,
    {
        let ghost fp_i = flat_prims(nodes@.take(i as int));
        proof {
            assert(nodes@ =~= nodes@.take(i as int) + nodes@.skip(i as int));
            lemma_flat_prims_concat(nodes@.take(i as int), nodes@.skip(i as int));
            assert(nodes@.skip(i as int).first() == nodes@[i as int]);
            assert(nodes@.skip(i as int).drop_first() =~= nodes@.skip(i as int + 1));
            assert(flat =~= fp_i + (nodes@[i as int].primitives@ + flat_prims(
                nodes@.skip(i as int + 1),
            )));
        }
        let node = &nodes[i];
        let mut sub_meshes: Vec<SubMesh> = Vec::new();
        let mut j: usize = 0;
        while j < node.primitives.len()
            invariant
                j <= node.primitives@.len(),
                node == &nodes@[i as int],
                i < nodes@.len(),
                scene == Some(nodes),
                dev.wf(),
                flat == flat_prims(nodes@),
                fp_i == flat_prims(nodes@.take(i as int)),
                flat =~= fp_i + (nodes@[i as int].primitives@ + flat_prims(
                    nodes@.skip(i as int + 1),
                )),
                old(dev).next_handle as int + 4 * flat.len() + 4 <= u32::MAX,
                dev.next_handle as int <= old(dev).next_handle as int + 4 * (fp_i.len() + j),
                first_defect(fp_i + node.primitives@.take(j as int)) is None,
                positions@ == cat_positions(fp_i + node.primitives@.take(j as int)),
                normals@ == cat_normals(fp_i + node.primitives@.take(j as int)),
                tex_coords@ == cat_tex_coords(fp_i + node.primitives@.take(j as int)),
                indices@ == cat_indices(fp_i + node.primitives@.take(j as int)),
                materials@.len() == fp_i.len() + j,
                forall|k: int|
                    0 <= k < materials@.len() ==> material_matches(
                        #[trigger] materials@[k],
                        (fp_i + node.primitives@.take(j as int))[k].material,
                    ),
                flat_submeshes(meshes@).len() == fp_i.len(),
                (flat_submeshes(meshes@) + sub_meshes@).len() == fp_i.len() + j,
                forall|k: int|
                    0 <= k < fp_i.len() + j ==> #[trigger] (flat_submeshes(meshes@)
                        + sub_meshes@)[k] == spec_submesh_at(
                        fp_i + node.primitives@.take(j as int),
                        k,
                    ),
                sub_meshes@.len() == j,
                meshes@.len() == i,
                forall|n: int|
                    0 <= n < i ==> (#[trigger] meshes@[n]).sub_meshes@.len()
                        == nodes@[n].primitives@.len() && meshes@[n].matrix@
                        == spec_identity_matrix(),
                forall|n: int, k: int|
                    0 <= n < meshes@.len() && 0 <= k < meshes@[n].sub_meshes@.len() ==> {
                        let sm = #[trigger] meshes@[n].sub_meshes@[k];
                        &&& sm.material_index < materials@.len()
                        &&& sm.start_index + sm.num_indices <= indices@.len()
                    },
                forall|k: int|
                    0 <= k < j ==> {
                        let sm = #[trigger] sub_meshes@[k];
                        &&& sm.material_index < materials@.len()
                        &&& sm.start_index + sm.num_indices <= indices@.len()
                    },
            decreases node.primitives@.len() - j,
        {
            let ghost fp = fp_i + node.primitives@.take(j as int);
            let prim = &node.primitives[j];
            proof {
                let p_cur = node.primitives@[j as int];
                let tail3 = node.primitives@.skip(j as int + 1) + flat_prims(
                    nodes@.skip(i as int + 1),
                );
                assert(flat =~= fp_i + (node.primitives@.take(j as int) + (seq![p_cur] + tail3)));
                lemma_first_defect_concat(fp_i, node.primitives@.take(j as int));
                lemma_first_defect_concat(
                    node.primitives@.take(j as int),
                    seq![p_cur] + tail3,
                );
                lemma_first_defect_concat(
                    fp_i,
                    node.primitives@.take(j as int) + (seq![p_cur] + tail3),
                );
                assert((seq![p_cur] + tail3).first() == p_cur);
                assert(prim_defect(p_cur) is Some ==> first_defect(flat) == prim_defect(p_cur));
            }
            let p_stream = match &prim.positions {
                None => {
                    return Err(LoadError::MissingPositions);
                },
                Some(p) => p,
            };
            let n_stream = match &prim.normals {
                None => {
                    return Err(LoadError::MissingNormals);
                },
                Some(n) => n,
            };
            let t_stream = match &prim.tex_coords {
                None => {
                    return Err(LoadError::MissingTexCoords);
                },
                Some(t) => t,
            };
            let ix_stream = match &prim.indices {
                None => {
                    return Err(LoadError::MissingIndices);
                },
                Some(ix) => ix,
            };
            let ghost table0 = flat_submeshes(meshes@) + sub_meshes@;
            let ghost materials0 = materials@;
            let material = load_gltf_material(dev, &prim.material);
            sub_meshes.push(SubMesh::new(indices.len(), ix_stream.len(), materials.len()));
            crate::bytes::extend_u32s(&mut positions, p_stream);
            crate::bytes::extend_u32s(&mut normals, n_stream);
            crate::bytes::extend_u32s(&mut tex_coords, t_stream);
            crate::bytes::extend_u32s(&mut indices, ix_stream);
            materials.push(material);
            proof {
                let p_cur = node.primitives@[j as int];
                let fp2 = fp_i + node.primitives@.take(j as int + 1);
                assert(fp2 =~= fp.push(p_cur));
                assert(fp2.drop_last() =~= fp);
                lemma_first_defect_concat(fp, seq![p_cur]);
                assert(fp2 =~= fp + seq![p_cur]);
                assert(first_defect(seq![p_cur]) == prim_defect(p_cur)) by {
                    reveal_with_fuel(first_defect, 3);
                    assert(seq![p_cur].drop_first() =~= Seq::<PrimitiveInput>::empty());
                }
                // streams: one primitive's scalars appended to each block
                assert(positions@ =~= cat_positions(fp2));
                assert(normals@ =~= cat_normals(fp2));
                assert(tex_coords@ =~= cat_tex_coords(fp2));
                assert(indices@ =~= cat_indices(fp2));
                // the sub-mesh table gains exactly this primitive's entry
                assert forall|k: int| 0 <= k < fp.len() implies spec_submesh_at(fp2, k)
                    == spec_submesh_at(fp, k) by {
                    assert(fp2.take(k) =~= fp.take(k));
                }
                assert(fp2.take(fp.len() as int) =~= fp);
                assert((flat_submeshes(meshes@) + sub_meshes@)[fp.len() as int]
                    == spec_submesh_at(fp2, fp.len() as int));
                assert(flat_submeshes(meshes@) + sub_meshes@ =~= table0.push(
                    sub_meshes@.last(),
                ));
                // materials gain exactly this primitive's material
                assert(materials@ =~= materials0.push(material));
            }
            j = j + 1;
        }
        let ghost meshes0 = meshes@;
        let ghost subs_final = sub_meshes@;
        meshes.push(Mesh { matrix: identity_matrix(), sub_meshes });
        proof {
            assert(meshes@.drop_last() =~= meshes0);
            assert(flat_submeshes(meshes@) =~= flat_submeshes(meshes0) + subs_final);
            assert(node.primitives@.take(node.primitives@.len() as int) =~= node.primitives@);
            assert(nodes@.take(i as int + 1) =~= nodes@.take(i as int) + seq![nodes@[i as int]]);
            lemma_flat_prims_concat(nodes@.take(i as int), seq![nodes@[i as int]]);
            assert(flat_prims(seq![nodes@[i as int]]) =~= nodes@[i as int].primitives@) by {
                reveal_with_fuel(flat_prims, 3);
                assert(seq![nodes@[i as int]].drop_first() =~= Seq::<MeshInput>::empty());
                assert(nodes@[i as int].primitives@ + Seq::<PrimitiveInput>::empty()
                    =~= nodes@[i as int].primitives@);
            }
            assert(flat_prims(nodes@.take(i as int + 1)) =~= fp_i + nodes@[i as int].primitives@);
            assert(flat_prims(nodes@.take(i as int + 1)).len() <= flat.len());
        }
        i = i + 1;
    }
    proof {
        assert(nodes@.take(nodes@.len() as int) =~= nodes@);
    }

    let mut buffer_data: Vec<u8> = Vec::new();
    extend_scalars(&mut buffer_data, &positions);
    extend_scalars(&mut buffer_data, &normals);
    extend_scalars(&mut buffer_data, &tex_coords);
    proof {
        lemma_le_seq_len(positions@);
        lemma_le_seq_len(normals@);
        lemma_le_seq_len(tex_coords@);
        lemma_le_seq_len(indices@);
        lemma_le_seq_concat(positions@, normals@);
        lemma_le_seq_concat(positions@ + normals@, tex_coords@);
        assert(buffer_data@ =~= le_seq(positions@ + normals@ + tex_coords@));
        assert(positions@ + normals@ + tex_coords@ =~= cat_positions(flat) + cat_normals(flat)
            + cat_tex_coords(flat));
    }
    let total = buffer_data.len();
    proof {
        assert(buffer_data@.len() == 4 * positions@.len() + 4 * normals@.len() + 4
            * tex_coords@.len());
        assert(positions@.len() + normals@.len() + tex_coords@.len() <= total);
    }
    let attributes = block_layout(positions.len(), normals.len(), tex_coords.len());
    let vertex_buffer = Buffer::new(buffer_data);

    let mut index_buffer_data: Vec<u8> = Vec::new();
    extend_scalars(&mut index_buffer_data, &indices);
    let index_buffer = Buffer::new(index_buffer_data);

    let m = Model { index_buffer, vertex_buffer, attributes, meshes, materials };
    Ok(m)
}

} // verus!
