//! The vertex format, the fixed vertex data and the bytes of the vertex
//! buffer.
//!
//! Coordinates and colour channels are single-precision numbers. The library
//! holds each as its IEEE-754 encoding in a `u32`, which is also what the
//! vertex buffer is filled with.

use vstd::prelude::*;

verus! {

/// Encoding of 0.0.
pub const F32_ZERO: u32 = 0x0000_0000;

/// Encoding of 0.5.
pub const F32_HALF: u32 = 0x3F00_0000;

/// Encoding of -0.5.
pub const F32_MINUS_HALF: u32 = 0xBF00_0000;

/// Encoding of 1.0.
pub const F32_ONE: u32 = 0x3F80_0000;

/// Number of 32-bit words that one vertex takes in the vertex buffer.
pub const WORDS_PER_VERTEX: u64 = 6;

/// Format of one vertex attribute.
#[derive(Clone, Copy, Debug, PartialEq, Eq, Structural)]
pub enum VertexFormat {
    Float32,
    Float32x2,
    Float32x3,
    Float32x4,
}

impl VertexFormat {
    /// Number of single-precision components.
    pub open spec fn components(self) -> nat {
        match self {
            VertexFormat::Float32 => 1,
            VertexFormat::Float32x2 => 2,
            VertexFormat::Float32x3 => 3,
            VertexFormat::Float32x4 => 4,
        }
    }

    /// Number of bytes that an attribute of this format takes.
    pub open spec fn byte_size(self) -> nat {
        4 * self.components()
    }

    /// Number of bytes that an attribute of this format takes.
    pub fn size(&self) -> (bytes: u64)
        ensures
            bytes == self.byte_size(),
    {
        match self {
            VertexFormat::Float32 => 4,
            VertexFormat::Float32x2 => 8,
            VertexFormat::Float32x3 => 12,
            VertexFormat::Float32x4 => 16,
        }
    }
}

/// How often the vertex buffer is stepped forward.
#[derive(Clone, Copy, Debug, PartialEq, Eq, Structural)]
pub enum VertexStepMode {
    Vertex,
    Instance,
}

/// One input of the vertex stage.
#[derive(Clone, Copy, Debug, PartialEq, Eq, Structural)]
pub struct VertexAttribute {
    pub format: VertexFormat,
    /// Byte offset of the attribute from the start of its vertex.
    pub offset: u64,
    /// Input location of the attribute in the vertex shader.
    pub shader_location: u32,
}

impl VertexAttribute {
    /// Offset of the first byte after the attribute.
    pub open spec fn end(self) -> int {
        self.offset + self.format.byte_size()
    }
}

/// How the vertex stage reads the vertex buffer.
#[derive(Clone, Debug, PartialEq, Eq)]
pub struct VertexBufferLayout {
    /// Distance in bytes from one vertex to the next.
    pub array_stride: u64,
    pub step_mode: VertexStepMode,
    pub attributes: Vec<VertexAttribute>,
}

impl VertexBufferLayout {
    /// The attributes follow each other without overlap inside one stride,
    /// and no two of them share a shader location.
    pub open spec fn well_formed(&self) -> bool {
        &&& forall|i: int|
            0 <= i < self.attributes@.len() ==> (#[trigger] self.attributes@[i]).end()
                <= self.array_stride
        &&& forall|i: int, j: int|
            0 <= i < j < self.attributes@.len() ==> (#[trigger] self.attributes@[i]).end() <= (
            #[trigger] self.attributes@[j]).offset
        &&& forall|i: int, j: int|
            0 <= i < j < self.attributes@.len() ==> (#[trigger] self.attributes@[i]).shader_location
                != (#[trigger] self.attributes@[j]).shader_location
    }

    /// The layout of [`Vertex`]: a position at location 0 and a colour at
    /// location 1, three components each, interleaved per vertex.
    pub open spec fn describes_vertex(&self) -> bool {
        &&& self.array_stride == 24
        &&& self.step_mode == VertexStepMode::Vertex
        &&& self.attributes@ == seq![
            VertexAttribute { format: VertexFormat::Float32x3, offset: 0, shader_location: 0 },
            VertexAttribute { format: VertexFormat::Float32x3, offset: 12, shader_location: 1 },
        ]
    }
}

/// A vertex: a position and a colour, three single-precision numbers each,
/// held as their encodings. In the vertex buffer the position comes first.
#[derive(Clone, Copy, Debug, PartialEq, Eq)]
pub struct Vertex {
    pub position: [u32; 3],
    pub color: [u32; 3],
}

impl Vertex {
    /// The words of the vertex in buffer order: position, then colour.
    pub open spec fn words(self) -> Seq<u32> {
        self.position@ + self.color@
    }

    /// Describes how a buffer of vertices is laid out for the vertex stage.
    pub fn desc() -> (layout: VertexBufferLayout)
        ensures
            layout.describes_vertex(),
            layout.well_formed(),
            layout.array_stride == 4 * WORDS_PER_VERTEX,
    {
        let position = VertexAttribute {
            format: VertexFormat::Float32x3,
            offset: 0,
            shader_location: 0,
        };
        let color = VertexAttribute {
            format: VertexFormat::Float32x3,
            offset: position.offset + position.format.size(),
            shader_location: 1,
        };
        let array_stride = color.offset + color.format.size();
        let mut attributes: Vec<VertexAttribute> = Vec::new();
        attributes.push(position);
        attributes.push(color);
        assert(attributes@ =~= seq![position, color]);
        VertexBufferLayout { array_stride, step_mode: VertexStepMode::Vertex, attributes }
    }
}

/// The fixed triangle: the top corner in red, the bottom left corner in
/// green, the bottom right corner in blue. Seen with x to the right and y
/// upwards this order is counter-clockwise, so the triangle faces the viewer.
pub open spec fn triangle() -> Seq<Vertex> {
    seq![
        Vertex { position: [F32_ZERO, F32_HALF, F32_ZERO], color: [F32_ONE, F32_ZERO, F32_ZERO] },
        Vertex {
            position: [F32_MINUS_HALF, F32_MINUS_HALF, F32_ZERO],
            color: [F32_ZERO, F32_ONE, F32_ZERO],
        },
        Vertex {
            position: [F32_HALF, F32_MINUS_HALF, F32_ZERO],
            color: [F32_ZERO, F32_ZERO, F32_ONE],
        },
    ]
}

/// The vertices of the fixed triangle.
pub fn vertices() -> (vertices: Vec<Vertex>)
    ensures
        vertices@ == triangle(),
{
    let mut vertices: Vec<Vertex> = Vec::new();
    vertices.push(
        Vertex { position: [F32_ZERO, F32_HALF, F32_ZERO], color: [F32_ONE, F32_ZERO, F32_ZERO] },
    );
    vertices.push(
        Vertex {
            position: [F32_MINUS_HALF, F32_MINUS_HALF, F32_ZERO],
            color: [F32_ZERO, F32_ONE, F32_ZERO],
        },
    );
    vertices.push(
        Vertex {
            position: [F32_HALF, F32_MINUS_HALF, F32_ZERO],
            color: [F32_ZERO, F32_ZERO, F32_ONE],
        },
    );
    vertices
}

/// Twice the number that an encoding stands for, for the four encodings that
/// the triangle is made of.
pub open spec fn doubled(encoding: u32) -> int {
    if encoding == F32_HALF {
        1
    } else if encoding == F32_MINUS_HALF {
        -1
    } else if encoding == F32_ONE {
        2
    } else {
        0
    }
}

/// Which way three corners run when seen with x to the right and y upwards:
/// positive for counter-clockwise, negative for clockwise, zero where they
/// lie on one line. The value is eight times the area that they enclose.
pub open spec fn winding(a: Vertex, b: Vertex, c: Vertex) -> int {
    (doubled(b.position[0]) - doubled(a.position[0])) * (doubled(c.position[1]) - doubled(
        a.position[1],
    )) - (doubled(c.position[0]) - doubled(a.position[0])) * (doubled(b.position[1]) - doubled(
        a.position[1],
    ))
}

/// The corners of the triangle run counter-clockwise, so a pipeline that
/// takes counter-clockwise for the front and throws the back away draws it.
pub proof fn lemma_triangle_is_counter_clockwise()
    ensures
        triangle().len() == 3,
        winding(triangle()[0], triangle()[1], triangle()[2]) == 4,
        winding(triangle()[0], triangle()[1], triangle()[2]) > 0,
{
    let t = triangle();
    assert(doubled(t[0].position[0]) == 0 && doubled(t[0].position[1]) == 1);
    assert(doubled(t[1].position[0]) == -1 && doubled(t[1].position[1]) == -1);
    assert(doubled(t[2].position[0]) == 1 && doubled(t[2].position[1]) == -1);
}

/// The words of a vertex that an attribute covers.
pub open spec fn attribute_words(vertex: Vertex, attribute: VertexAttribute) -> Seq<u32> {
    vertex.words().subrange(attribute.offset as int / 4, attribute.end() / 4)
}

/// The layout of [`Vertex`] reads what the vertex holds: the attribute at
/// location 0 covers the position, the one at location 1 the colour, and
/// the stride is the size of one vertex.
pub proof fn lemma_layout_reads_position_and_color(layout: VertexBufferLayout, vertex: Vertex)
    requires
        layout.describes_vertex(),
    ensures
        layout.attributes@[0].shader_location == 0,
        attribute_words(vertex, layout.attributes@[0]) == vertex.position@,
        layout.attributes@[1].shader_location == 1,
        attribute_words(vertex, layout.attributes@[1]) == vertex.color@,
        layout.array_stride == 4 * vertex.words().len(),
{
    broadcast use vstd::array::array_len_matches_n;

    assert(attribute_words(vertex, layout.attributes@[0]) =~= vertex.position@);
    assert(attribute_words(vertex, layout.attributes@[1]) =~= vertex.color@);
}

/// The words of a run of vertices, one vertex after the other.
pub open spec fn interleaved(vertices: Seq<Vertex>) -> Seq<u32>
    decreases vertices.len(),
{
    if vertices.len() == 0 {
        Seq::empty()
    } else {
        interleaved(vertices.drop_last()) + vertices.last().words()
    }
}

/// The four bytes of a word, least significant first.
pub open spec fn le_bytes(word: u32) -> Seq<u8> {
    seq![
        (word % 256) as u8,
        (word / 256 % 256) as u8,
        (word / 65536 % 256) as u8,
        (word / 16777216 % 256) as u8,
    ]
}

/// The four bytes of a word, most significant first.
pub open spec fn be_bytes(word: u32) -> Seq<u8> {
    seq![
        (word / 16777216 % 256) as u8,
        (word / 65536 % 256) as u8,
        (word / 256 % 256) as u8,
        (word % 256) as u8,
    ]
}

/// The bytes of a run of words, each word in the given byte order.
pub open spec fn words_to_bytes(words: Seq<u32>, little_endian: bool) -> Seq<u8>
    decreases words.len(),
{
    if words.len() == 0 {
        Seq::empty()
    } else {
        words_to_bytes(words.drop_last(), little_endian) + if little_endian {
            le_bytes(words.last())
        } else {
            be_bytes(words.last())
        }
    }
}

/// `interleaved` yields six words per vertex.
pub proof fn lemma_interleaved_len(vertices: Seq<Vertex>)
    ensures
        interleaved(vertices).len() == WORDS_PER_VERTEX * vertices.len(),
    decreases vertices.len(),
{
    broadcast use vstd::array::array_len_matches_n;

    if vertices.len() > 0 {
        lemma_interleaved_len(vertices.drop_last());
    }
}

/// `words_to_bytes` yields four bytes per word.
pub proof fn lemma_words_to_bytes_len(words: Seq<u32>, little_endian: bool)
    ensures
        words_to_bytes(words, little_endian).len() == 4 * words.len(),
    decreases words.len(),
{
    if words.len() > 0 {
        lemma_words_to_bytes_len(words.drop_last(), little_endian);
    }
}

/// Lays the vertices out as the words of a vertex buffer.
pub fn vertex_words(vertices: &Vec<Vertex>) -> (words: Vec<u32>)
    ensures
        words@ == interleaved(vertices@),
{
    broadcast use vstd::array::array_len_matches_n;

    let mut words: Vec<u32> = Vec::new();
    let mut i: usize = 0;
    while i < vertices.len()
        invariant
            i <= vertices.len(),
            words@ == interleaved(vertices@.take(i as int)),
        decreases vertices.len() - i,
    {
        let vertex = &vertices[i];
        proof {
            let next = vertices@.take(i + 1);
            assert(next.drop_last() == vertices@.take(i as int));
        }
        let ghost before = words@;
        words.push(vertex.position[0]);
        words.push(vertex.position[1]);
        words.push(vertex.position[2]);
        words.push(vertex.color[0]);
        words.push(vertex.color[1]);
        words.push(vertex.color[2]);
        assert(words@ == before + vertex.words());
        i += 1;
    }
    assert(vertices@.take(vertices@.len() as int) == vertices@);
    words
}

/// `bytemuck::cast_slice` from `u32` to `u8`: the bytes that the words take in
/// memory. A byte has alignment one and a word is four bytes, so the cast
/// never fails; each word gives its four bytes in the byte order of the
/// machine, which is the same for all of them.
#[verifier::external_body]
fn words_as_bytes(words: &Vec<u32>) -> (bytes: Vec<u8>)
    ensures
        bytes@ == words_to_bytes(words@, true) || bytes@ == words_to_bytes(words@, false),
{
    bytemuck::cast_slice::<u32, u8>(words.as_slice()).to_vec()
}

/// The vertex data as it is uploaded to the GPU once, at start-up, and the
/// number of vertices in it.
#[derive(Clone, Debug, PartialEq, Eq)]
pub struct GeometryBuffer {
    contents: Vec<u8>,
    vertex_count: u32,
}

impl GeometryBuffer {
    /// The bytes of the buffer.
    pub closed spec fn bytes(&self) -> Seq<u8> {
        self.contents@
    }

    /// The number of vertices in the buffer.
    pub closed spec fn count(&self) -> nat {
        self.vertex_count as nat
    }

    /// The buffer holds exactly the given vertices, interleaved, in the byte
    /// order of the machine.
    pub open spec fn holds(&self, vertices: Seq<Vertex>) -> bool {
        &&& self.count() == vertices.len()
        &&& self.bytes().len() == 4 * WORDS_PER_VERTEX * vertices.len()
        &&& (self.bytes() == words_to_bytes(interleaved(vertices), true) || self.bytes()
            == words_to_bytes(interleaved(vertices), false))
    }

    /// Builds the buffer for the given vertices.
    pub fn new(vertices: &Vec<Vertex>) -> (buffer: GeometryBuffer)
        requires
            vertices@.len() <= u32::MAX,
        ensures
            buffer.holds(vertices@),
    {
        let words = vertex_words(vertices);
        let contents = words_as_bytes(&words);
        proof {
            lemma_interleaved_len(vertices@);
            lemma_words_to_bytes_len(words@, true);
            lemma_words_to_bytes_len(words@, false);
        }
        GeometryBuffer { contents, vertex_count: vertices.len() as u32 }
    }

    /// The bytes to upload.
    pub fn contents(&self) -> (contents: &Vec<u8>)
        ensures
            contents@ == self.bytes(),
    {
        &self.contents
    }

    /// The number of vertices to draw.
    pub fn vertex_count(&self) -> (count: u32)
        ensures
            count == self.count(),
    {
        self.vertex_count
    }
}

} // verus!
