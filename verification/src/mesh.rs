//! The polygon that is drawn: its corners, the order in which they are
//! joined into triangles, and how both lie in the buffers handed to the GPU.
//!
//! Every coordinate is a single-precision number kept as its raw bit
//! pattern. Nothing here computes with coordinates; the driver turns the
//! bit patterns back into numbers when it fills the vertex buffer.

use vstd::prelude::*;

verus! {

/// The number of corners of the polygon.
pub const VERTEX_COUNT: usize = 5;

/// Where each corner lies, in clip space: `x`, `y`, `z`. The corners are
/// listed counter-clockwise.
pub const POSITIONS: [[u32; 3]; VERTEX_COUNT] = [
    [0xbdb1d0d5, 0x3efc1c5c, 0x00000000],
    [0xbefd8236, 0x3d8e835a, 0x00000000],
    [0xbe607229, 0xbee6175f, 0x00000000],
    [0x3eb826aa, 0xbeb1d51f, 0x00000000],
    [0x3ee208d8, 0x3e705e9c, 0x00000000],
];

/// Which point of the texture is drawn at each corner: `u`, `v`.
pub const TEX_COORDS: [[u32; 2]; VERTEX_COUNT] = [
    [0x3ed38bcb, 0x3bf8e90a],
    [0x3b9f7280, 0x3edc5f2a],
    [0x3e8fc6ec, 0x3f730baf],
    [0x3f5c1355, 0x3f58ea90],
    [0x3f71046c, 0x3e87d0b2],
];

/// The corners of the triangles that make up the polygon, three entries to
/// a triangle, each entry the number of a corner.
pub const INDICES: [u16; 9] = [0, 1, 4, 1, 2, 4, 2, 3, 4];

/// One corner of the polygon.
#[derive(Clone, Copy, Debug, PartialEq, Eq)]
pub struct Vertex {
    pub position: [u32; 3],
    pub tex_coords: [u32; 2],
}

/// What a vertex attribute is made of.
#[derive(Clone, Copy, Debug, PartialEq, Eq, Structural)]
pub enum VertexFormat {
    /// Two single-precision numbers.
    Float32x2,
    /// Three single-precision numbers.
    Float32x3,
}

impl VertexFormat {
    /// The number of bytes an attribute of this format takes up.
    pub open spec fn spec_size(self) -> nat {
        match self {
            VertexFormat::Float32x2 => 8,
            VertexFormat::Float32x3 => 12,
        }
    }

    /// The number of bytes an attribute of this format takes up.
    pub fn size(&self) -> (n: u64)
        ensures
            n == self.spec_size(),
    {
        match self {
            VertexFormat::Float32x2 => 8,
            VertexFormat::Float32x3 => 12,
        }
    }
}

/// How often the GPU moves on to the next element of a vertex buffer.
#[derive(Clone, Copy, Debug, PartialEq, Eq, Structural)]
pub enum VertexStepMode {
    /// Once for every vertex.
    Vertex,
    /// Once for every instance.
    Instance,
}

/// One input of the vertex shader and where it is found inside an element
/// of a vertex buffer.
#[derive(Clone, Copy, Debug, PartialEq, Eq, Structural)]
pub struct VertexAttribute {
    pub format: VertexFormat,
    /// The distance in bytes from the start of the element.
    pub offset: u64,
    /// The input of the vertex shader that receives the attribute.
    pub shader_location: u32,
}

impl VertexAttribute {
    /// The first byte after the attribute, counted from the start of the
    /// element.
    pub open spec fn end(self) -> nat {
        self.offset as nat + self.format.spec_size()
    }
}

/// How the elements of a vertex buffer are laid out.
#[derive(Debug, PartialEq, Eq)]
pub struct VertexBufferLayout {
    /// The distance in bytes from one element to the next.
    pub array_stride: u64,
    pub step_mode: VertexStepMode,
    pub attributes: Vec<VertexAttribute>,
}

impl VertexBufferLayout {
    /// Every attribute lies inside one element, no two attributes share a
    /// byte, and no two attributes feed the same shader input.
    pub open spec fn well_formed(&self) -> bool {
        &&& forall|i: int|
            0 <= i < self.attributes@.len() ==> (#[trigger] self.attributes@[i]).end()
                <= self.array_stride
        &&& forall|i: int, j: int|
            0 <= i < j < self.attributes@.len() ==> {
                let a = #[trigger] self.attributes@[i];
                let b = #[trigger] self.attributes@[j];
                &&& a.end() <= b.offset || b.end() <= a.offset
                &&& a.shader_location != b.shader_location
            }
    }

    /// The attributes follow one another without gaps, the first starts
    /// with the element and the last ends with it, and the shader inputs
    /// are numbered in the same order from zero.
    pub open spec fn packed(&self) -> bool {
        &&& self.attributes@.len() > 0
        &&& self.attributes@[0].offset == 0
        &&& self.attributes@.last().end() == self.array_stride
        &&& forall|i: int|
            0 <= i < self.attributes@.len() ==> (#[trigger] self.attributes@[i]).shader_location
                == i
        &&& forall|i: int| 0 < i < self.attributes@.len() ==> #[trigger] self.adjoins(i)
    }

    /// Attribute `i` starts where the attribute before it ends.
    pub open spec fn adjoins(&self, i: int) -> bool {
        self.attributes@[i].offset == self.attributes@[i - 1].end()
    }
}

/// In a packed layout every attribute ends no later than any later
/// attribute starts.
proof fn lemma_packed_attributes_ascend(layout: VertexBufferLayout, i: int, j: int)
    requires
        layout.packed(),
        0 <= i < j < layout.attributes@.len(),
    ensures
        layout.attributes@[i].end() <= layout.attributes@[j].offset,
    decreases j - i,
{
    assert(layout.adjoins(j));
    if i + 1 < j {
        lemma_packed_attributes_ascend(layout, i, j - 1);
    }
}

/// A packed layout is well formed: attributes that follow one another
/// without gaps cannot overlap, none of them reaches past the element, and
/// numbering the shader inputs in order gives each attribute its own.
pub proof fn lemma_packed_is_well_formed(layout: VertexBufferLayout)
    requires
        layout.packed(),
    ensures
        layout.well_formed(),
{
    let n = layout.attributes@.len() as int;
    assert forall|i: int| 0 <= i < n implies (#[trigger] layout.attributes@[i]).end()
        <= layout.array_stride by {
        if i < n - 1 {
            lemma_packed_attributes_ascend(layout, i, n - 1);
        }
    }
    assert forall|i: int, j: int| 0 <= i < j < n implies {
        let a = #[trigger] layout.attributes@[i];
        let b = #[trigger] layout.attributes@[j];
        &&& a.end() <= b.offset || b.end() <= a.offset
        &&& a.shader_location != b.shader_location
    } by {
        lemma_packed_attributes_ascend(layout, i, j);
    }
}

impl Vertex {
    /// The number of bytes a vertex takes up in a vertex buffer: four for
    /// each of its coordinates.
    pub open spec fn spec_size() -> nat {
        4 * (3 + 2)
    }

    /// The attributes of a vertex as the vertex shader receives them: the
    /// position at input 0, the texture coordinates right behind it at
    /// input 1.
    pub open spec fn attributes() -> Seq<VertexAttribute> {
        seq![
            VertexAttribute { format: VertexFormat::Float32x3, offset: 0, shader_location: 0 },
            VertexAttribute { format: VertexFormat::Float32x2, offset: 12, shader_location: 1 },
        ]
    }

    /// Describes how vertices lie in a vertex buffer: one after another,
    /// each with its attributes packed in the order of its fields.
    pub fn desc() -> (layout: VertexBufferLayout)
        ensures
            layout.array_stride == Vertex::spec_size(),
            layout.step_mode == VertexStepMode::Vertex,
            layout.attributes@ == Vertex::attributes(),
            layout.packed(),
            layout.well_formed(),
    {
        let position = VertexAttribute {
            format: VertexFormat::Float32x3,
            offset: 0,
            shader_location: 0,
        };
        let tex_coords = VertexAttribute {
            format: VertexFormat::Float32x2,
            offset: position.format.size(),
            shader_location: 1,
        };
        let array_stride: u64 = tex_coords.offset + tex_coords.format.size();
        let layout = VertexBufferLayout {
            array_stride,
            step_mode: VertexStepMode::Vertex,
            attributes: vec![position, tex_coords],
        };
        assert(layout.attributes@ =~= Vertex::attributes());
        proof {
            lemma_packed_is_well_formed(layout);
        }
        layout
    }
}

/// The corner with the given number.
pub open spec fn vertex_at(i: int) -> Vertex {
    Vertex { position: POSITIONS@[i], tex_coords: TEX_COORDS@[i] }
}

/// The corners of the polygon, in the order in which [`INDICES`] numbers
/// them.
pub fn vertices() -> (list: Vec<Vertex>)
    ensures
        list@.len() == VERTEX_COUNT,
        forall|i: int| 0 <= i < VERTEX_COUNT ==> #[trigger] list@[i] == vertex_at(i),
{
    let mut list: Vec<Vertex> = Vec::new();
    let mut i: usize = 0;
    while i < VERTEX_COUNT
        invariant
            i <= VERTEX_COUNT,
            list@.len() == i,
            forall|j: int| 0 <= j < i ==> #[trigger] list@[j] == vertex_at(j),
        decreases VERTEX_COUNT - i,
    {
        list.push(Vertex { position: POSITIONS[i], tex_coords: TEX_COORDS[i] });
        i += 1;
    }
    list
}

/// The index list describes whole triangles, every entry names a corner
/// that exists, and no triangle uses a corner twice.
pub proof fn lemma_indices_describe_triangles()
    ensures
        INDICES@.len() % 3 == 0,
        forall|k: int| 0 <= k < INDICES@.len() ==> (#[trigger] INDICES@[k]) < VERTEX_COUNT,
        forall|t: int|
            0 <= t < INDICES@.len() / 3 ==> (#[trigger] INDICES@[3 * t] != INDICES@[3 * t + 1]
                && INDICES@[3 * t + 1] != INDICES@[3 * t + 2] && INDICES@[3 * t] != INDICES@[3 * t
                + 2]),
{
}

/// The order in which the bytes of a number lie in memory.
#[derive(Clone, Copy, Debug, PartialEq, Eq, Structural)]
pub enum ByteOrder {
    /// The least significant byte comes first.
    LittleEndian,
    /// The most significant byte comes first.
    BigEndian,
}

/// The less significant byte of a 16-bit number.
pub open spec fn low_byte(x: u16) -> u8 {
    (x % 256) as u8
}

/// The more significant byte of a 16-bit number.
pub open spec fn high_byte(x: u16) -> u8 {
    (x / 256) as u8
}

/// `bytes` holds the numbers `words`, one after another, each as two bytes
/// in the given order.
pub open spec fn stores(bytes: Seq<u8>, words: Seq<u16>, order: ByteOrder) -> bool {
    &&& bytes.len() == 2 * words.len()
    &&& forall|i: int|
        0 <= i < words.len() ==> match order {
            ByteOrder::LittleEndian => {
                &&& bytes[2 * i] == low_byte(#[trigger] words[i])
                &&& bytes[2 * i + 1] == high_byte(words[i])
            },
            ByteOrder::BigEndian => {
                &&& bytes[2 * i] == high_byte(#[trigger] words[i])
                &&& bytes[2 * i + 1] == low_byte(words[i])
            },
        }
}

/// Bytes that hold a list of numbers in a known order hold no other list:
/// the numbers can be read back from the bytes.
pub proof fn lemma_bytes_determine_words(
    bytes: Seq<u8>,
    a: Seq<u16>,
    b: Seq<u16>,
    order: ByteOrder,
)
    requires
        stores(bytes, a, order),
        stores(bytes, b, order),
    ensures
        a == b,
{
    assert forall|i: int| 0 <= i < a.len() implies a[i] == b[i] by {
        let x = a[i];
        let y = b[i];
        assert(low_byte(x) == low_byte(y));
        assert(high_byte(x) == high_byte(y));
        assert(x == 256 * (x / 256) + x % 256);
        assert(y == 256 * (y / 256) + y % 256);
    }
    assert(a =~= b);
}

/// `bytemuck::cast_slice`, from 16-bit numbers to bytes.
///
/// The call hands back the very memory that holds the numbers, seen as
/// bytes. A byte is neither larger nor more strictly aligned than a 16-bit
/// number, so the call cannot fail. Each number then shows as two bytes in
/// the byte order of the machine, which is one of two; which one is not
/// claimed.
#[verifier::external_body]
fn bytes_of(words: &[u16]) -> (bytes: &[u8])
    ensures
        stores(bytes@, words@, ByteOrder::LittleEndian) || stores(
            bytes@,
            words@,
            ByteOrder::BigEndian,
        ),
{
    bytemuck::cast_slice(words)
}

/// The contents of the index buffer: the index list as it lies in memory.
pub fn index_bytes() -> (bytes: &'static [u8])
    ensures
        bytes@.len() == 2 * INDICES@.len(),
        stores(bytes@, INDICES@, ByteOrder::LittleEndian) || stores(
            bytes@,
            INDICES@,
            ByteOrder::BigEndian,
        ),
{
    bytes_of(&INDICES)
}

} // verus!
