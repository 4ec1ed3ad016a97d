//! The layout of interleaved vertex data: where each attribute of a vertex
//! starts, and how far one vertex is from the next.

use vstd::prelude::*;

verus! {

/// The format of one vertex attribute: a vector of 32-bit floats.
#[derive(Clone, Copy, Debug, PartialEq, Eq, Structural)]
pub enum VertexFormat {
    Float32x3,
    Float32x4,
}

/// How a vertex buffer is stepped through.
#[derive(Clone, Copy, Debug, PartialEq, Eq, Structural)]
pub enum StepMode {
    Vertex,
    Instance,
}

/// One attribute of a vertex: its format, the byte at which it starts
/// inside the vertex, and the shader input that reads it.
#[derive(Clone, Copy, Debug, PartialEq, Eq, Structural)]
pub struct VertexAttribute {
    pub format: VertexFormat,
    pub offset: u64,
    pub shader_location: u32,
}

/// The layout of a vertex buffer.
#[derive(Clone, Debug, PartialEq, Eq)]
pub struct VertexBufferLayout {
    /// The distance in bytes from one vertex to the next.
    pub array_stride: u64,
    pub step_mode: StepMode,
    pub attributes: Vec<VertexAttribute>,
}

impl VertexFormat {
    /// The number of floats in an attribute of this format.
    pub open spec fn components(self) -> nat {
        match self {
            VertexFormat::Float32x3 => 3,
            VertexFormat::Float32x4 => 4,
        }
    }

    /// The number of bytes in an attribute of this format.
    pub open spec fn bytes(self) -> nat {
        4 * self.components()
    }

    /// The number of floats in an attribute of this format.
    pub fn component_count(&self) -> (count: u32)
        ensures
            count == self.components(),
    {
        match self {
            VertexFormat::Float32x3 => 3,
            VertexFormat::Float32x4 => 4,
        }
    }

    /// The number of bytes in an attribute of this format.
    pub fn size(&self) -> (bytes: u64)
        ensures
            bytes == self.bytes(),
    {
        match self {
            VertexFormat::Float32x3 => 12,
            VertexFormat::Float32x4 => 16,
        }
    }
}

/// The bytes that the first `count` of `formats` take up when they are
/// packed one after the other.
pub open spec fn packed_bytes(formats: Seq<VertexFormat>, count: int) -> nat
    decreases count,
{
    if count <= 0 {
        0
    } else {
        packed_bytes(formats, count - 1) + formats[count - 1].bytes()
    }
}

/// Attribute `i` of a vertex whose attributes have the given formats and
/// are packed in that order, each read by the shader input of its place.
pub open spec fn packed_attribute(formats: Seq<VertexFormat>, i: int) -> VertexAttribute {
    VertexAttribute {
        format: formats[i],
        offset: packed_bytes(formats, i) as u64,
        shader_location: i as u32,
    }
}

/// Lays out the attributes of a vertex one after the other, without gaps,
/// in the order of `formats`. Attribute `i` goes to shader input `i`, so
/// there can be no more attributes than shader inputs can be numbered.
pub fn packed_attributes(formats: &Vec<VertexFormat>) -> (attributes: Vec<VertexAttribute>)
    requires
        formats.len() <= u32::MAX,
    ensures
        attributes.len() == formats.len(),
        forall|i: int|
            0 <= i < formats.len() ==> #[trigger] attributes[i] == packed_attribute(formats@, i),
{
    let mut attributes: Vec<VertexAttribute> = Vec::new();
    let mut offset: u64 = 0;
    let mut i: usize = 0;
    while i < formats.len()
        invariant
            i <= formats.len() <= u32::MAX,
            attributes.len() == i,
            offset == packed_bytes(formats@, i as int),
            offset <= 16 * i,
            forall|j: int| 0 <= j < i ==> #[trigger] attributes[j] == packed_attribute(formats@, j),
        decreases formats.len() - i,
    {
        let format: VertexFormat = formats[i];
        attributes.push(VertexAttribute { format, offset, shader_location: i as u32 });
        offset = offset + format.size();
        i += 1;
    }
    attributes
}

/// The distance from one vertex to the next when its attributes are packed:
/// the bytes that all of them take up.
pub fn packed_stride(formats: &Vec<VertexFormat>) -> (stride: u64)
    requires
        formats.len() <= u32::MAX,
    ensures
        stride == packed_bytes(formats@, formats.len() as int),
{
    let mut stride: u64 = 0;
    let mut i: usize = 0;
    while i < formats.len()
        invariant
            i <= formats.len() <= u32::MAX,
            stride == packed_bytes(formats@, i as int),
            stride <= 16 * i,
        decreases formats.len() - i,
    {
        stride = stride + formats[i].size();
        i += 1;
    }
    stride
}

/// Packed bytes grow with the number of attributes counted.
pub proof fn lemma_packed_bytes_grow(formats: Seq<VertexFormat>, i: int, j: int)
    requires
        0 <= i <= j,
    ensures
        packed_bytes(formats, i) <= packed_bytes(formats, j),
        i < j ==> packed_bytes(formats, i) + formats[i].bytes() <= packed_bytes(formats, j),
    decreases j - i,
{
    if i < j {
        lemma_packed_bytes_grow(formats, i, j - 1);
    }
}

/// Packed attributes do not overlap, and each one ends inside the vertex:
/// an attribute ends where the next one starts or before, and the last one
/// ends at the stride.
pub proof fn lemma_packed_attributes_disjoint(formats: Seq<VertexFormat>, i: int, j: int)
    requires
        0 <= i < j <= formats.len(),
    ensures
        packed_bytes(formats, i) + formats[i].bytes() <= packed_bytes(formats, j),
        packed_bytes(formats, i) + formats[i].bytes() <= packed_bytes(
            formats,
            formats.len() as int,
        ),
{
    lemma_packed_bytes_grow(formats, i, j);
    lemma_packed_bytes_grow(formats, i, formats.len() as int);
}

/// The vertex of the scene: a position and a colour, four floats each. The
/// library knows how such a vertex is laid out, not what it holds.
#[derive(Clone, Copy, Debug, PartialEq, Eq, Structural)]
pub struct Vertex {}

impl Vertex {
    /// The formats of the scene vertex's attributes, in order: position,
    /// then colour.
    pub open spec fn formats() -> Seq<VertexFormat> {
        seq![VertexFormat::Float32x4, VertexFormat::Float32x4]
    }

    /// The size of one scene vertex in bytes.
    pub open spec fn stride() -> u64 {
        32
    }

    /// The attributes of the scene vertex: the position at byte 0 for
    /// shader input 0, the colour at byte 16 for shader input 1.
    pub fn vertex_attributes() -> (attributes: Vec<VertexAttribute>)
        ensures
            attributes@ == seq![
                VertexAttribute {
                    format: VertexFormat::Float32x4,
                    offset: 0,
                    shader_location: 0,
                },
                VertexAttribute {
                    format: VertexFormat::Float32x4,
                    offset: 16,
                    shader_location: 1,
                },
            ],
            forall|i: int|
                0 <= i < 2 ==> #[trigger] attributes[i] == packed_attribute(Self::formats(), i),
    {
        let mut formats: Vec<VertexFormat> = Vec::new();
        formats.push(VertexFormat::Float32x4);
        formats.push(VertexFormat::Float32x4);
        let attributes: Vec<VertexAttribute> = packed_attributes(&formats);
        proof {
            assert(formats@ =~= Self::formats());
            reveal_with_fuel(packed_bytes, 3);
            assert(attributes[0] == packed_attribute(formats@, 0));
            assert(attributes[1] == packed_attribute(formats@, 1));
        }
        attributes
    }

    /// The layout of a buffer of scene vertices with the given attributes:
    /// stepped per vertex, one vertex every 32 bytes.
    pub fn description(attributes: Vec<VertexAttribute>) -> (layout: VertexBufferLayout)
        ensures
            layout.array_stride == Self::stride(),
            layout.array_stride == packed_bytes(Self::formats(), 2),
            layout.step_mode == StepMode::Vertex,
            layout.attributes == attributes,
    {
        let mut formats: Vec<VertexFormat> = Vec::new();
        formats.push(VertexFormat::Float32x4);
        formats.push(VertexFormat::Float32x4);
        let array_stride: u64 = packed_stride(&formats);
        proof {
            assert(formats@ =~= Self::formats());
            reveal_with_fuel(packed_bytes, 3);
        }
        VertexBufferLayout { array_stride, step_mode: StepMode::Vertex, attributes }
    }
}

} // verus!
