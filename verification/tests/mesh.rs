use render_loop::mesh::{
    index_bytes, vertices, Vertex, VertexAttribute, VertexBufferLayout, VertexFormat,
    VertexStepMode, INDICES, POSITIONS, TEX_COORDS, VERTEX_COUNT,
};

#[test]
fn layout_packs_position_and_texture_coordinates() {
    assert_eq!(
        Vertex::desc(),
        VertexBufferLayout {
            array_stride: 20,
            step_mode: VertexStepMode::Vertex,
            attributes: vec![
                VertexAttribute { format: VertexFormat::Float32x3, offset: 0, shader_location: 0 },
                VertexAttribute { format: VertexFormat::Float32x2, offset: 12, shader_location: 1 },
            ],
        }
    );
}

#[test]
fn layout_matches_a_vertex_in_memory() {
    let layout = Vertex::desc();
    assert_eq!(layout.array_stride, std::mem::size_of::<[f32; 3]>() as u64 + std::mem::size_of::<[f32; 2]>() as u64);
    assert_eq!(layout.attributes[1].offset, std::mem::size_of::<[f32; 3]>() as u64);
    assert_eq!(layout.array_stride, std::mem::size_of::<Vertex>() as u64);
}

#[test]
fn format_sizes_count_four_bytes_a_component() {
    assert_eq!(VertexFormat::Float32x2.size(), 8);
    assert_eq!(VertexFormat::Float32x3.size(), 12);
}

#[test]
fn vertices_are_the_five_corners() {
    let corners: [([f32; 3], [f32; 2]); 5] = [
        ([-0.0868241, 0.49240386, 0.0], [0.4131759, 0.00759614]),
        ([-0.49513406, 0.06958647, 0.0], [0.0048659444, 0.43041354]),
        ([-0.21918549, -0.44939706, 0.0], [0.28081453, 0.949397]),
        ([0.35966998, -0.3473291, 0.0], [0.85967, 0.84732914]),
        ([0.44147372, 0.2347359, 0.0], [0.9414737, 0.2652641]),
    ];
    let list = vertices();
    assert_eq!(list.len(), VERTEX_COUNT);
    assert_eq!(list.len(), corners.len());
    for (vertex, (position, tex_coords)) in list.iter().zip(corners.iter()) {
        assert_eq!(vertex.position.map(f32::from_bits), *position);
        assert_eq!(vertex.tex_coords.map(f32::from_bits), *tex_coords);
    }
}

#[test]
fn vertices_come_from_the_coordinate_tables() {
    let list = vertices();
    for i in 0..VERTEX_COUNT {
        assert_eq!(list[i], Vertex { position: POSITIONS[i], tex_coords: TEX_COORDS[i] });
    }
}

#[test]
fn texture_coordinates_mirror_positions() {
    for vertex in vertices() {
        let [x, y, z] = vertex.position.map(f32::from_bits);
        let [u, v] = vertex.tex_coords.map(f32::from_bits);
        assert_eq!(z, 0.0);
        assert!((u - (x + 0.5)).abs() < 1e-6);
        assert!((v - (0.5 - y)).abs() < 1e-6);
    }
}

#[test]
fn indices_are_three_triangles_around_the_last_corner() {
    assert_eq!(INDICES, [0, 1, 4, 1, 2, 4, 2, 3, 4]);
}

#[test]
fn indices_name_existing_corners() {
    assert_eq!(INDICES.len() % 3, 0);
    for triangle in INDICES.chunks(3) {
        for index in triangle {
            assert!((*index as usize) < VERTEX_COUNT);
        }
        assert_ne!(triangle[0], triangle[1]);
        assert_ne!(triangle[1], triangle[2]);
        assert_ne!(triangle[0], triangle[2]);
    }
}

#[test]
fn index_bytes_hold_the_indices_in_memory_order() {
    let bytes = index_bytes();
    assert_eq!(bytes.len(), 18);
    let read_back: Vec<u16> =
        bytes.chunks(2).map(|pair| u16::from_ne_bytes([pair[0], pair[1]])).collect();
    assert_eq!(read_back, INDICES.to_vec());
}

#[test]
fn index_bytes_use_one_of_the_two_byte_orders() {
    let bytes = index_bytes();
    let little: Vec<u8> = INDICES.iter().flat_map(|index| index.to_le_bytes()).collect();
    let big: Vec<u8> = INDICES.iter().flat_map(|index| index.to_be_bytes()).collect();
    assert!(bytes == little.as_slice() || bytes == big.as_slice());
    assert_eq!(bytes == little.as_slice(), 1u16.to_ne_bytes() == 1u16.to_le_bytes());
}
