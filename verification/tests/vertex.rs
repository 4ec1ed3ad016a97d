use app_core::vertex::{
    packed_attributes, packed_stride, StepMode, Vertex, VertexAttribute, VertexBufferLayout,
    VertexFormat,
};

#[test]
fn formats_have_three_and_four_floats() {
    assert_eq!(VertexFormat::Float32x3.component_count(), 3);
    assert_eq!(VertexFormat::Float32x4.component_count(), 4);
    assert_eq!(VertexFormat::Float32x3.size(), 12);
    assert_eq!(VertexFormat::Float32x4.size(), 16);
}

#[test]
fn scene_vertex_has_position_then_color() {
    assert_eq!(
        Vertex::vertex_attributes(),
        vec![
            VertexAttribute { format: VertexFormat::Float32x4, offset: 0, shader_location: 0 },
            VertexAttribute { format: VertexFormat::Float32x4, offset: 16, shader_location: 1 },
        ]
    );
}

#[test]
fn scene_vertex_is_32_bytes_wide() {
    let layout = Vertex::description(Vertex::vertex_attributes());
    assert_eq!(
        layout,
        VertexBufferLayout {
            array_stride: 32,
            step_mode: StepMode::Vertex,
            attributes: Vertex::vertex_attributes(),
        }
    );
    assert_eq!(layout.array_stride, std::mem::size_of::<[[f32; 4]; 2]>() as u64);
}

#[test]
fn description_keeps_the_attributes_it_is_given() {
    let attributes =
        vec![VertexAttribute { format: VertexFormat::Float32x3, offset: 4, shader_location: 9 }];
    let layout = Vertex::description(attributes.clone());
    assert_eq!(layout.attributes, attributes);
    assert_eq!(layout.array_stride, 32);
    assert_eq!(layout.step_mode, StepMode::Vertex);
    assert_eq!(Vertex::description(vec![]).attributes, vec![]);
}

#[test]
fn attributes_are_packed_in_order() {
    let formats = vec![
        VertexFormat::Float32x3,
        VertexFormat::Float32x4,
        VertexFormat::Float32x3,
        VertexFormat::Float32x3,
    ];
    assert_eq!(
        packed_attributes(&formats),
        vec![
            VertexAttribute { format: VertexFormat::Float32x3, offset: 0, shader_location: 0 },
            VertexAttribute { format: VertexFormat::Float32x4, offset: 12, shader_location: 1 },
            VertexAttribute { format: VertexFormat::Float32x3, offset: 28, shader_location: 2 },
            VertexAttribute { format: VertexFormat::Float32x3, offset: 40, shader_location: 3 },
        ]
    );
    assert_eq!(packed_stride(&formats), 52);
}

#[test]
fn no_attributes_take_no_room() {
    assert_eq!(packed_attributes(&vec![]), vec![]);
    assert_eq!(packed_stride(&vec![]), 0);
}

#[test]
fn packed_attributes_do_not_overlap() {
    let formats = vec![
        VertexFormat::Float32x4,
        VertexFormat::Float32x3,
        VertexFormat::Float32x4,
        VertexFormat::Float32x3,
        VertexFormat::Float32x3,
    ];
    let attributes = packed_attributes(&formats);
    let stride = packed_stride(&formats);
    for pair in attributes.windows(2) {
        assert_eq!(pair[0].offset + pair[0].format.size(), pair[1].offset);
    }
    let last = attributes.last().unwrap();
    assert_eq!(last.offset + last.format.size(), stride);
}
