use render_gl::layout::{
    triangle_vertex_layout, vertex_attrib_pointers, vertex_buffer_byte_len, AttributeBinding,
    ComponentType, FieldLayout, LayoutError, GL_FLOAT,
};

fn field(name: &str, location: Option<u32>, components: u32) -> FieldLayout {
    FieldLayout {
        name: name.to_string(),
        location,
        components,
        component_type: ComponentType::Float32,
    }
}

#[test]
fn component_widths_and_codes() {
    assert_eq!(ComponentType::Float32.byte_width(), 4);
    assert_eq!(ComponentType::Float32.gl_type_code(), GL_FLOAT);
    assert_eq!(GL_FLOAT, 0x1406);
}

#[test]
fn field_byte_size_is_count_times_width() {
    assert_eq!(field("a", Some(0), 3).byte_size(), 12);
    assert_eq!(field("b", Some(1), 1).byte_size(), 4);
}

#[test]
fn offsets_are_running_sums_and_stride_is_the_total() {
    // Field byte sizes 4, 8, 12, 16: offsets 0, 4, 12, 24; stride 40.
    let fields = vec![
        field("a", Some(0), 1),
        field("b", Some(1), 2),
        field("c", Some(2), 3),
        field("d", Some(3), 4),
    ];
    let binds = vertex_attrib_pointers(&fields).unwrap();
    assert_eq!(binds.len(), 4);
    let offsets: Vec<u32> = binds.iter().map(|b| b.offset).collect();
    assert_eq!(offsets, vec![0, 4, 12, 24]);
    for b in &binds {
        assert_eq!(b.stride, 40);
        assert_eq!(b.type_code, GL_FLOAT);
        assert!(!b.normalized);
    }
    let locations: Vec<u32> = binds.iter().map(|b| b.location).collect();
    assert_eq!(locations, vec![0, 1, 2, 3]);
}

#[test]
fn single_field_record_has_zero_offset_and_own_stride() {
    let fields = vec![field("only", Some(5), 2)];
    let binds = vertex_attrib_pointers(&fields).unwrap();
    assert_eq!(
        binds,
        vec![AttributeBinding {
            location: 5,
            components: 2,
            type_code: GL_FLOAT,
            normalized: false,
            stride: 8,
            offset: 0,
        }]
    );
}

#[test]
fn empty_record_generates_no_bindings() {
    let fields: Vec<FieldLayout> = Vec::new();
    let binds = vertex_attrib_pointers(&fields).unwrap();
    assert!(binds.is_empty());
}

#[test]
fn missing_annotation_refuses_generation_naming_the_field() {
    let fields = vec![field("pos", Some(0), 3), field("clr", None, 3)];
    let e = vertex_attrib_pointers(&fields).unwrap_err();
    assert_eq!(
        e,
        LayoutError::MissingLocation {
            field: "clr".to_string()
        }
    );
}

#[test]
fn first_field_missing_its_annotation_is_the_one_named() {
    let fields = vec![field("a", Some(0), 3), field("b", None, 3), field("c", None, 3)];
    let e = vertex_attrib_pointers(&fields).unwrap_err();
    assert_eq!(
        e,
        LayoutError::MissingLocation {
            field: "b".to_string()
        }
    );
}

#[test]
fn triangle_record_is_two_float_triples_24_bytes_apart() {
    let fields = triangle_vertex_layout();
    let binds = vertex_attrib_pointers(&fields).unwrap();
    assert_eq!(
        binds,
        vec![
            AttributeBinding {
                location: 0,
                components: 3,
                type_code: GL_FLOAT,
                normalized: false,
                stride: 24,
                offset: 0,
            },
            AttributeBinding {
                location: 1,
                components: 3,
                type_code: GL_FLOAT,
                normalized: false,
                stride: 24,
                offset: 12,
            },
        ]
    );
}

#[test]
fn three_vertex_triangle_payload_is_72_bytes() {
    assert_eq!(vertex_buffer_byte_len(3, 24), 72);
}
