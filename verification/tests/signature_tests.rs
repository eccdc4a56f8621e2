use model_inspector::signature::{Dimension, ElementType, SlotType, TensorSignature};

#[test]
fn element_types_have_their_names() {
    let named = [
        (ElementType::Float32, "float32"),
        (ElementType::Uint8, "uint8"),
        (ElementType::Int8, "int8"),
        (ElementType::Uint16, "uint16"),
        (ElementType::Int16, "int16"),
        (ElementType::Int32, "int32"),
        (ElementType::Int64, "int64"),
        (ElementType::String, "string"),
        (ElementType::Bool, "bool"),
        (ElementType::Float16, "float16"),
        (ElementType::Float64, "float64"),
        (ElementType::Uint32, "uint32"),
        (ElementType::Uint64, "uint64"),
        (ElementType::Bfloat16, "bfloat16"),
        (ElementType::Complex64, "complex64"),
        (ElementType::Complex128, "complex128"),
        (ElementType::Float8E4M3FN, "float8e4m3fn"),
        (ElementType::Float8E4M3FNUZ, "float8e4m3fnuz"),
        (ElementType::Float8E5M2, "float8e5m2"),
        (ElementType::Float8E5M2FNUZ, "float8e5m2fnuz"),
        (ElementType::Uint4, "uint4"),
        (ElementType::Int4, "int4"),
        (ElementType::Float4E2M1, "float4e2m1"),
        (ElementType::Uint2, "uint2"),
        (ElementType::Int2, "int2"),
        (ElementType::Float8E8M0, "float8e8m0"),
        (ElementType::Undefined, "undefined"),
    ];
    for (elem, name) in named {
        assert_eq!(elem.name(), name);
    }
}

#[test]
fn a_fixed_dimension_is_written_as_its_size() {
    assert_eq!(Dimension::new(28).render(), "28");
    assert_eq!(Dimension::new(0).render(), "0");
    assert!(!Dimension::new(0).is_dynamic());
    assert!(!Dimension::new(28).is_dynamic());
}

#[test]
fn a_fixed_dimension_does_not_show_a_symbol() {
    let dim = Dimension { size: 3, symbol: "channels".to_string() };
    assert_eq!(dim.render(), "3");
}

#[test]
fn an_open_dimension_is_marked() {
    assert_eq!(Dimension::new(-1).render(), "?");
    assert!(Dimension::new(-1).is_dynamic());
    assert_eq!(Dimension::named("batch").render(), "?batch");
    assert!(Dimension::named("batch").is_dynamic());
    assert_eq!(Dimension::named("batch").size, -1);
    let other = Dimension { size: -7, symbol: "N".to_string() };
    assert_eq!(other.render(), "?N");
}

#[test]
fn an_open_dimension_named_like_a_number_differs_from_a_fixed_one() {
    assert_ne!(Dimension::named("3").render(), Dimension::new(3).render());
}

#[test]
fn a_tensor_is_written_with_its_element_type_and_shape() {
    let kind = SlotType::tensor(ElementType::Float32, &vec![1, 1, 28, 28]);
    assert_eq!(kind.render(), "tensor<float32>[1, 1, 28, 28]");
}

#[test]
fn a_tensor_without_dimensions_has_an_empty_shape() {
    let kind = SlotType::tensor(ElementType::Int64, &vec![]);
    assert_eq!(kind.render(), "tensor<int64>[]");
}

#[test]
fn a_tensor_shows_its_open_dimensions() {
    let kind = SlotType::Tensor {
        elem: ElementType::Uint8,
        dims: vec![Dimension::named("batch"), Dimension::new(-1), Dimension::new(224), Dimension::new(3)],
    };
    assert_eq!(kind.render(), "tensor<uint8>[?batch, ?, 224, 3]");
}

#[test]
fn the_tensor_constructor_keeps_the_sizes_in_order() {
    match SlotType::tensor(ElementType::Bool, &vec![2, -1, 5]) {
        SlotType::Tensor { elem, dims } => {
            assert_eq!(elem, ElementType::Bool);
            let sizes: Vec<i64> = dims.iter().map(|d| d.size).collect();
            assert_eq!(sizes, vec![2, -1, 5]);
            assert!(dims.iter().all(|d| d.symbol.is_empty()));
        }
        other => panic!("not a tensor: {:?}", other),
    }
}

#[test]
fn containers_are_written_around_what_they_hold() {
    let map = SlotType::Mapping { key: ElementType::Int64, value: ElementType::Float32 };
    assert_eq!(map.render(), "map<int64, float32>");
    let seq = SlotType::Sequence(Box::new(SlotType::Mapping {
        key: ElementType::String,
        value: ElementType::Float32,
    }));
    assert_eq!(seq.render(), "sequence<map<string, float32>>");
    let opt = SlotType::Optional(Box::new(SlotType::Sequence(Box::new(SlotType::tensor(
        ElementType::Float16,
        &vec![1, 3],
    )))));
    assert_eq!(opt.render(), "optional<sequence<tensor<float16>[1, 3]>>");
}

#[test]
fn a_slot_is_described_in_three_lines() {
    let slot = TensorSignature::new("Input3", SlotType::tensor(ElementType::Float32, &vec![1, 1, 28, 28]));
    assert_eq!(
        slot.describe(),
        vec![
            "   Name: Input3".to_string(),
            "   Type: tensor<float32>[1, 1, 28, 28]".to_string(),
            "   ---".to_string(),
        ]
    );
}

#[test]
fn a_slot_name_is_kept_verbatim() {
    let name = "  odd name: with/slash\tand tab ";
    let slot = TensorSignature::new(name, SlotType::tensor(ElementType::Float32, &vec![]));
    assert_eq!(slot.name, name);
    assert_eq!(slot.describe()[0], format!("   Name: {}", name));
    let empty = TensorSignature::new("", SlotType::tensor(ElementType::Float32, &vec![]));
    assert_eq!(empty.describe()[0], "   Name: ");
}
