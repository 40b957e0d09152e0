use pbr_demo::stream::{Attribute, Dimension, Format, Slot, Type, Usage};

#[test]
fn stride_float_vec3() {
    let f = Format::new(Dimension::VEC3, Type::FLOAT, Usage::DATA);
    assert_eq!(f.type_size(), 4);
    assert_eq!(f.dimension_size(), 3);
    assert_eq!(f.stride(), 12);
}

#[test]
fn stride_uint8_vec4() {
    let f = Format::new(Dimension::VED4, Type::UINT8, Usage::RGBA);
    assert_eq!(f.type_size(), 1);
    assert_eq!(f.stride(), 4);
}

#[test]
fn stride_all_pairs_are_products() {
    let types = [
        (Type::FLOAT, 4),
        (Type::INT8, 1),
        (Type::INT16, 2),
        (Type::INT32, 4),
        (Type::UINT8, 1),
        (Type::UINT16, 2),
        (Type::UINT32, 4),
    ];
    let dims = [
        (Dimension::SCALAR, 1),
        (Dimension::VEC2, 2),
        (Dimension::VEC3, 3),
        (Dimension::VED4, 4),
    ];
    for &(t, ts) in types.iter() {
        for &(d, ds) in dims.iter() {
            let f = Format::new(d, t, Usage::DATA);
            assert_eq!(f.stride(), ts * ds);
        }
    }
}

#[test]
fn total_offset_counts_elements_times_type_size() {
    let a = Attribute {
        format: Format::new(Dimension::VEC3, Type::FLOAT, Usage::DATA),
        slot: Slot::Normal,
        offset: 24,
    };
    assert_eq!(a.get_total_offset(), 96);
}

#[test]
fn block_attribute_offsets_are_prefix_sums() {
    let blocks = vec![
        (Slot::Position, Dimension::VEC3, 12usize),
        (Slot::Normal, Dimension::VEC3, 12usize),
        (Slot::TexCoord, Dimension::VEC2, 8usize),
    ];
    let attrs = pbr_demo::stream::float_block_attributes(&blocks);
    assert_eq!(attrs.len(), 3);
    assert_eq!(attrs[0].offset, 0);
    assert_eq!(attrs[1].offset, 12);
    assert_eq!(attrs[2].offset, 24);
    assert_eq!(attrs[0].get_total_offset(), 0);
    assert_eq!(attrs[1].get_total_offset(), 48);
    assert_eq!(attrs[2].get_total_offset(), 96);
}

#[test]
fn slot_indices() {
    assert_eq!(Slot::Position.index(), 0);
    assert_eq!(Slot::Normal.index(), 1);
    assert_eq!(Slot::TexCoord.index(), 2);
}
