//! Vertex stream descriptors: the element type, dimension and usage of one
//! vertex attribute, and the derived byte strides and offsets.
//!
//! A model's vertex data is interleaved by block, not per vertex: all
//! positions, then all normals, then all texture coordinates are concatenated
//! into one buffer, and each attribute's `offset` (in scalar elements, not
//! bytes) marks where its block begins.

use vstd::prelude::*;

verus! {

/// Element type of one attribute component.
///
/// `NUM` is a count marker, not a real element type; the size functions do
/// not accept it.
#[allow(non_camel_case_types)]
#[derive(Copy, Debug, Clone, PartialEq, Eq, Structural)]
pub enum Type {
    FLOAT,
    INT8,
    INT16,
    INT32,
    UINT8,
    UINT16,
    UINT32,
    NUM,
}

/// How the attribute's components are interpreted when the data backs a
/// texture upload.
#[derive(Copy, Debug, Clone, PartialEq, Eq, Structural)]
pub enum Usage {
    DATA,
    RED,
    RG,
    RGB,
    RGBA,
}

/// Component count of one attribute element.
///
/// `NUM` is a count marker, not a real dimension; the size functions do not
/// accept it.
#[allow(non_camel_case_types)]
#[derive(Copy, Debug, Clone, PartialEq, Eq, Structural)]
pub enum Dimension {
    SCALAR,
    VEC2,
    VEC3,
    VED4,
    NUM,
}

/// Size in bytes of one component of the given element type.
pub open spec fn spec_type_size(t: Type) -> nat {
    match t {
        Type::FLOAT => 4,
        Type::INT8 => 1,
        Type::INT16 => 2,
        Type::INT32 => 4,
        Type::UINT8 => 1,
        Type::UINT16 => 2,
        Type::UINT32 => 4,
        Type::NUM => 0,
    }
}

/// Number of components of the given dimension.
pub open spec fn spec_dimension_size(d: Dimension) -> nat {
    match d {
        Dimension::SCALAR => 1,
        Dimension::VEC2 => 2,
        Dimension::VEC3 => 3,
        Dimension::VED4 => 4,
        Dimension::NUM => 0,
    }
}

/// Byte stride of one whole element of the given format: component size
/// times component count.
pub open spec fn spec_stride(f: Format) -> nat {
    spec_type_size(f._type) * spec_dimension_size(f.dimension)
}

/// Format of one vertex attribute or texel: element type, component count,
/// and usage.
#[derive(Copy, Debug, Clone, PartialEq, Eq, Structural)]
pub struct Format {
    pub dimension: Dimension,
    pub _type: Type,
    pub usage: Usage,
}

impl Format {
    pub fn new(dimension: Dimension, _type: Type, usage: Usage) -> (f: Format)
        ensures
            f == (Format { dimension, _type, usage }),
    {
        Format { dimension, _type, usage }
    }

    /// Size in bytes of one component.
    ///
    /// `NUM` is a count marker and names no element type; asking for its size
    /// is a programming error, so it is excluded rather than answered.
    pub fn type_size(&self) -> (n: usize)
        requires
            self._type != Type::NUM,
        ensures
            n == spec_type_size(self._type),
            1 <= n <= 4,
    {
        match self._type {
            Type::FLOAT => 4,
            Type::INT8 => 1,
            Type::INT16 => 2,
            Type::INT32 => 4,
            Type::UINT8 => 1,
            Type::UINT16 => 2,
            Type::UINT32 => 4,
            Type::NUM => 4,
        }
    }

    /// Number of components of one element.
    pub fn dimension_size(&self) -> (n: usize)
        requires
            self.dimension != Dimension::NUM,
        ensures
            n == spec_dimension_size(self.dimension),
            1 <= n <= 4,
    {
        match self.dimension {
            Dimension::SCALAR => 1,
            Dimension::VEC2 => 2,
            Dimension::VEC3 => 3,
            Dimension::VED4 => 4,
            Dimension::NUM => 1,
        }
    }

    /// Byte stride of one whole element: for every valid (type, dimension)
    /// pair the stride is the component size times the component count.
    pub fn stride(self) -> (n: usize)
        requires
            self._type != Type::NUM,
            self.dimension != Dimension::NUM,
        ensures
            n == spec_stride(self),
            n == spec_type_size(self._type) * spec_dimension_size(self.dimension),
            1 <= n <= 16,
    {
        self.type_size() * self.dimension_size()
    }
}

/// The shader input a vertex attribute feeds.
#[derive(Copy, Debug, Clone, PartialEq, Eq, Structural)]
pub enum Slot {
    Position,
    Normal,
    TexCoord,
}

/// Index of the shader input slot, as the graphics API numbers them.
pub open spec fn spec_slot_index(s: Slot) -> nat {
    match s {
        Slot::Position => 0,
        Slot::Normal => 1,
        Slot::TexCoord => 2,
    }
}

impl Slot {
    /// The shader input slot's number.
    pub fn index(self) -> (n: u32)
        ensures
            n == spec_slot_index(self),
    {
        match self {
            Slot::Position => 0,
            Slot::Normal => 1,
            Slot::TexCoord => 2,
        }
    }
}

/// One vertex attribute: its format, the shader slot it feeds, and where its
/// block begins in the shared vertex buffer, counted in scalar elements.
#[derive(Copy, Debug, Clone, PartialEq, Eq, Structural)]
pub struct Attribute {
    pub format: Format,
    pub slot: Slot,
    pub offset: usize,
}

/// Byte offset of an attribute's block: element offset times component size.
pub open spec fn spec_total_offset(a: Attribute) -> int {
    a.offset * spec_type_size(a.format._type)
}

impl Attribute {
    /// Byte offset of this attribute's block in the shared vertex buffer.
    pub fn get_total_offset(self) -> (n: usize)
        requires
            self.format._type != Type::NUM,
            self.offset * spec_type_size(self.format._type) <= usize::MAX,
        ensures
            n == spec_total_offset(self),
    {
        self.offset * self.format.type_size()
    }
}

/// Scalar element count of the first `k` blocks of `blocks`, where each block
/// is a (slot, dimension, scalar count) triple.
pub open spec fn spec_block_prefix(blocks: Seq<(Slot, Dimension, usize)>, k: int) -> int
    decreases k,
{
    if k <= 0 {
        0
    } else {
        spec_block_prefix(blocks, k - 1) + blocks[k - 1].2
    }
}

/// Builds the attribute list for a vertex buffer made of consecutive float
/// blocks: the k-th attribute's element offset is the sum of the sizes of the
/// blocks before it, so its byte offset is that sum times the float size.
pub fn float_block_attributes(blocks: &Vec<(Slot, Dimension, usize)>) -> (attrs: Vec<Attribute>)
    requires
        spec_block_prefix(blocks@, blocks@.len() as int) <= usize::MAX,
        forall|k: int| 0 <= k < blocks@.len() ==> #[trigger] blocks@[k].1 != Dimension::NUM,
    ensures
        attrs@.len() == blocks@.len(),
        forall|k: int| 0 <= k < blocks@.len() ==> #[trigger] attrs@[k] == (Attribute {
            format: Format { dimension: blocks@[k].1, _type: Type::FLOAT, usage: Usage::DATA },
            slot: blocks@[k].0,
            offset: spec_block_prefix(blocks@, k) as usize,
        }),
{
    let mut attrs: Vec<Attribute> = Vec::new();
    let mut offset: usize = 0;
    let mut i: usize = 0;
    while i < blocks.len()
        invariant
            i <= blocks@.len(),
            attrs@.len() == i,
            offset == spec_block_prefix(blocks@, i as int),
            spec_block_prefix(blocks@, blocks@.len() as int) <= usize::MAX,
            forall|k: int| 0 <= k < blocks@.len() ==> #[trigger] blocks@[k].1 != Dimension::NUM,
            forall|k: int| 0 <= k < i ==> #[trigger] attrs@[k] == (Attribute {
                format: Format { dimension: blocks@[k].1, _type: Type::FLOAT, usage: Usage::DATA },
                slot: blocks@[k].0,
                offset: spec_block_prefix(blocks@, k) as usize,
            }),
        decreases blocks@.len() - i,
    {
        let (slot, dimension, size) = blocks[i];
        attrs.push(Attribute {
            format: Format { dimension, _type: Type::FLOAT, usage: Usage::DATA },
            slot,
            offset,
        });
        proof {
            lemma_block_prefix_monotonic(blocks@, i + 1 as int, blocks@.len() as int);
        }
        offset = offset + size;
        i = i + 1;
    }
    attrs
}

/// Prefix sums of nonnegative block sizes grow with the prefix length.
proof fn lemma_block_prefix_monotonic(blocks: Seq<(Slot, Dimension, usize)>, j: int, k: int)
    requires
        0 <= j <= k,
    ensures
        spec_block_prefix(blocks, j) <= spec_block_prefix(blocks, k),
    decreases k - j,
{
    if j < k {
        lemma_block_prefix_monotonic(blocks, j, k - 1);
    }
}

} // verus!
