use triangle_renderer::geometry::{
    vertex_words, vertices, GeometryBuffer, Vertex, VertexAttribute, VertexFormat, VertexStepMode,
    F32_HALF, F32_MINUS_HALF, F32_ONE, F32_ZERO, WORDS_PER_VERTEX,
};

fn decoded(words: [u32; 3]) -> [f32; 3] {
    [f32::from_bits(words[0]), f32::from_bits(words[1]), f32::from_bits(words[2])]
}

#[test]
fn encodings_are_those_of_the_numbers() {
    assert_eq!(F32_ZERO, 0.0f32.to_bits());
    assert_eq!(F32_HALF, 0.5f32.to_bits());
    assert_eq!(F32_MINUS_HALF, (-0.5f32).to_bits());
    assert_eq!(F32_ONE, 1.0f32.to_bits());
}

#[test]
fn formats_take_four_bytes_per_component() {
    assert_eq!(VertexFormat::Float32.size(), 4);
    assert_eq!(VertexFormat::Float32x2.size(), 8);
    assert_eq!(VertexFormat::Float32x3.size(), 12);
    assert_eq!(VertexFormat::Float32x4.size(), 16);
}

#[test]
fn layout_has_position_then_color() {
    let layout = Vertex::desc();
    assert_eq!(layout.array_stride, 24);
    assert_eq!(layout.array_stride, std::mem::size_of::<[f32; 6]>() as u64);
    assert_eq!(layout.array_stride, 4 * WORDS_PER_VERTEX);
    assert_eq!(layout.step_mode, VertexStepMode::Vertex);
    assert_eq!(
        layout.attributes,
        vec![
            VertexAttribute { format: VertexFormat::Float32x3, offset: 0, shader_location: 0 },
            VertexAttribute { format: VertexFormat::Float32x3, offset: 12, shader_location: 1 },
        ]
    );
}

#[test]
fn layout_attributes_are_packed() {
    let layout = Vertex::desc();
    let mut end = 0;
    for attribute in &layout.attributes {
        assert_eq!(attribute.offset, end);
        end = attribute.offset + attribute.format.size();
    }
    assert_eq!(end, layout.array_stride);
}

#[test]
fn triangle_has_three_colored_corners() {
    let vertices = vertices();
    assert_eq!(vertices.len(), 3);
    assert_eq!(decoded(vertices[0].position), [0.0, 0.5, 0.0]);
    assert_eq!(decoded(vertices[0].color), [1.0, 0.0, 0.0]);
    assert_eq!(decoded(vertices[1].position), [-0.5, -0.5, 0.0]);
    assert_eq!(decoded(vertices[1].color), [0.0, 1.0, 0.0]);
    assert_eq!(decoded(vertices[2].position), [0.5, -0.5, 0.0]);
    assert_eq!(decoded(vertices[2].color), [0.0, 0.0, 1.0]);
}

#[test]
fn triangle_is_counter_clockwise() {
    let vertices = vertices();
    let [ax, ay, _] = decoded(vertices[0].position);
    let [bx, by, _] = decoded(vertices[1].position);
    let [cx, cy, _] = decoded(vertices[2].position);
    let doubled_area = (bx - ax) * (cy - ay) - (cx - ax) * (by - ay);
    assert_eq!(doubled_area, 1.0);
}

#[test]
fn words_follow_the_vertices() {
    let vertices = vec![
        Vertex { position: [1, 2, 3], color: [4, 5, 6] },
        Vertex { position: [7, 8, 9], color: [10, 11, 12] },
    ];
    assert_eq!(vertex_words(&vertices), vec![1, 2, 3, 4, 5, 6, 7, 8, 9, 10, 11, 12]);
    assert_eq!(vertex_words(&Vec::new()), Vec::<u32>::new());
}

#[test]
fn words_of_the_triangle() {
    let words = vertex_words(&vertices());
    let numbers: Vec<f32> = words.iter().map(|word| f32::from_bits(*word)).collect();
    assert_eq!(
        numbers,
        vec![
            0.0, 0.5, 0.0, 1.0, 0.0, 0.0, //
            -0.5, -0.5, 0.0, 0.0, 1.0, 0.0, //
            0.5, -0.5, 0.0, 0.0, 0.0, 1.0,
        ]
    );
}

#[test]
fn buffer_holds_the_words_in_machine_byte_order() {
    let vertices = vertices();
    let buffer = GeometryBuffer::new(&vertices);
    assert_eq!(buffer.vertex_count(), 3);
    assert_eq!(buffer.contents().len(), 72);
    let mut expected = Vec::new();
    for word in vertex_words(&vertices) {
        expected.extend_from_slice(&word.to_ne_bytes());
    }
    assert_eq!(buffer.contents(), &expected);
}

#[test]
fn buffer_bytes_read_back_as_the_numbers() {
    let buffer = GeometryBuffer::new(&vertices());
    let numbers: Vec<f32> = buffer
        .contents()
        .chunks(4)
        .map(|bytes| f32::from_ne_bytes([bytes[0], bytes[1], bytes[2], bytes[3]]))
        .collect();
    assert_eq!(numbers.len(), 18);
    assert_eq!(&numbers[0..6], &[0.0, 0.5, 0.0, 1.0, 0.0, 0.0]);
    assert_eq!(&numbers[6..12], &[-0.5, -0.5, 0.0, 0.0, 1.0, 0.0]);
    assert_eq!(&numbers[12..18], &[0.5, -0.5, 0.0, 0.0, 0.0, 1.0]);
}

#[test]
fn buffer_of_other_vertices() {
    let vertices = vec![Vertex { position: [0x0102_0304, 0, 0xFFFF_FFFF], color: [1, 256, 65536] }];
    let buffer = GeometryBuffer::new(&vertices);
    assert_eq!(buffer.vertex_count(), 1);
    let mut expected = Vec::new();
    for word in [0x0102_0304u32, 0, 0xFFFF_FFFF, 1, 256, 65536] {
        expected.extend_from_slice(&word.to_ne_bytes());
    }
    assert_eq!(buffer.contents(), &expected);
}

#[test]
fn buffer_of_no_vertices_is_empty() {
    let buffer = GeometryBuffer::new(&Vec::new());
    assert_eq!(buffer.vertex_count(), 0);
    assert!(buffer.contents().is_empty());
}
