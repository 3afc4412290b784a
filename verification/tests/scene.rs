use kubgrupp::camera::{Camera, CameraKey, Direction};
use kubgrupp::device::{contains_name, pick_physical_device, same_name, supports_all};
use kubgrupp::features::{
    EnabledFeatures, FeatureError, VkFeatures, PHYSICAL_DEVICE_FEATURES_2,
};
use kubgrupp::scene::param_field::{parse_field_words, parse_toml_field, FieldError};
use kubgrupp::scene::value::Value as FieldValue;
use kubgrupp::scene::scenes::brdf_params::{get_brdf_params_buffer_and_indices, BrdfError};
use kubgrupp::scene::scenes::mesh::{spirv_words, Object, Shader, ShaderError, SPIRV_MAGIC};
use kubgrupp::scene::shader_type::{
    parse_simple_type, parse_type, parse_type_str, ShaderType, TypeError,
};
use kubgrupp::scene::transform::{
    parse_action, parse_transform_line, split_ascii_whitespace, trim_text, TransformAction,
    TransformError,
};
use kubgrupp::scene::type_lexer::{LexError, TokenIter};
use kubgrupp::utils::{
    first_family, memory_alignment, offset_alignment, query_queue_families, BufferUse,
    QueueFamily, QueuePurpose,
};

fn object(brdf_i: usize, params: &[u8]) -> Object {
    Object {
        transform: [0; 16],
        mesh_i: 0,
        brdf_i,
        brdf_params: params.to_vec(),
        vertex_index: 0,
    }
}

fn array(element: ShaderType, size: u64) -> ShaderType {
    ShaderType::Array(Box::new(element), size)
}

#[test]
fn test_vkfeatures() {
    let features = VkFeatures::new(vec![
        EnabledFeatures::new(
            ash::vk::StructureType::PHYSICAL_DEVICE_FEATURES_2.as_raw(),
            std::mem::size_of::<ash::vk::PhysicalDeviceFeatures2>(),
            std::mem::align_of::<ash::vk::PhysicalDeviceFeatures2>(),
            vec![16 + 17 * 4],
        ),
        EnabledFeatures::new(
            ash::vk::StructureType::PHYSICAL_DEVICE_ACCELERATION_STRUCTURE_FEATURES_KHR.as_raw(),
            std::mem::size_of::<ash::vk::PhysicalDeviceAccelerationStructureFeaturesKHR>(),
            std::mem::align_of::<ash::vk::PhysicalDeviceAccelerationStructureFeaturesKHR>(),
            vec![16, 32],
        ),
        EnabledFeatures::new(
            ash::vk::StructureType::PHYSICAL_DEVICE_RAY_TRACING_PIPELINE_FEATURES_KHR.as_raw(),
            std::mem::size_of::<ash::vk::PhysicalDeviceRayTracingPipelineFeaturesKHR>(),
            std::mem::align_of::<ash::vk::PhysicalDeviceRayTracingPipelineFeaturesKHR>(),
            vec![16],
        ),
    ])
    .unwrap();

    let list = features.get_list();
    let features_to_pass_to_func = list.get();

    let cloned = list.clone();
    println!("{:?}", features_to_pass_to_func);
    println!("{:?}", cloned);
    assert_eq!(features_to_pass_to_func.len(), 3);
    assert_eq!(cloned.get(), features_to_pass_to_func);
}

#[test]
fn feature_chain_head_is_the_one_of_the_device() {
    assert_eq!(
        PHYSICAL_DEVICE_FEATURES_2,
        ash::vk::StructureType::PHYSICAL_DEVICE_FEATURES_2.as_raw()
    );
}

#[test]
fn feature_lists_are_checked() {
    let head = || EnabledFeatures::new(PHYSICAL_DEVICE_FEATURES_2, 240, 8, vec![84]);
    assert_eq!(VkFeatures::new(vec![]).unwrap_err(), FeatureError::NoHead);
    assert_eq!(
        VkFeatures::new(vec![EnabledFeatures::new(51, 40, 8, vec![16])]).unwrap_err(),
        FeatureError::NoHead
    );
    assert_eq!(
        VkFeatures::new(vec![
            head(),
            EnabledFeatures::new(51, 40, 8, vec![16]),
            EnabledFeatures::new(51, 40, 8, vec![20]),
        ])
        .unwrap_err(),
        FeatureError::Duplicate(2)
    );
    assert_eq!(
        VkFeatures::new(vec![head(), EnabledFeatures::new(51, 40, 8, vec![16, 37])]).unwrap_err(),
        FeatureError::Offset(1)
    );
    assert!(VkFeatures::new(vec![head(), EnabledFeatures::new(51, 40, 8, vec![16, 36])]).is_ok());
}

#[test]
fn features_are_supported_where_every_flag_is_set() {
    let features = VkFeatures::new(vec![
        EnabledFeatures::new(PHYSICAL_DEVICE_FEATURES_2, 240, 8, vec![]),
        EnabledFeatures::new(51, 40, 8, vec![16, 20]),
    ])
    .unwrap();
    let list = features.get_list();
    assert!(list.supported(&[vec![], vec![1, 1]]));
    assert!(!list.supported(&[vec![], vec![1, 0]]));
    assert!(!list.supported(&[vec![], vec![1]]));
    assert!(!list.supported(&[vec![]]));
    assert!(!list.supported(&[vec![1], vec![1, 1]]));
}

#[test]
fn brdf_parameters_are_packed_by_material() {
    let objects = vec![
        object(1, &[1, 2, 3]),
        object(0, &[10, 11, 12, 13]),
        object(1, &[4, 5, 6]),
        object(2, &[]),
        object(0, &[14, 15, 16, 17]),
    ];
    let (data, offsets) = get_brdf_params_buffer_and_indices(&objects, 3).unwrap();
    assert_eq!(
        data,
        vec![10, 11, 12, 13, 14, 15, 16, 17, 0, 1, 2, 3, 4, 5, 6]
    );
    assert_eq!(offsets, vec![3, 0, 4, 0, 1]);
}

#[test]
fn brdf_parameters_of_nothing() {
    let (data, offsets) = get_brdf_params_buffer_and_indices(&[], 2).unwrap();
    assert!(data.is_empty() && offsets.is_empty());
    let (data, offsets) =
        get_brdf_params_buffer_and_indices(&[object(0, &[]), object(0, &[])], 1).unwrap();
    assert!(data.is_empty());
    assert_eq!(offsets, vec![0, 1]);
}

#[test]
fn brdf_of_an_unknown_material_is_rejected() {
    let objects = vec![object(0, &[1]), object(2, &[1]), object(3, &[1])];
    assert_eq!(
        get_brdf_params_buffer_and_indices(&objects, 2).unwrap_err(),
        BrdfError::MaterialIndex(1)
    );
    assert_eq!(
        get_brdf_params_buffer_and_indices(&objects, 0).unwrap_err(),
        BrdfError::MaterialIndex(0)
    );
}

#[test]
fn simple_types() {
    assert_eq!(parse_type_str("float"), Ok(ShaderType::Float));
    assert_eq!(parse_type_str("  int"), Ok(ShaderType::Int));
    assert_eq!(parse_type_str("uint"), Ok(ShaderType::UInt));
    assert_eq!(parse_type_str("vec3"), Ok(ShaderType::Vec3));
    assert_eq!(parse_type_str("vec2"), Ok(ShaderType::Vec2));
    assert_eq!(parse_simple_type("vec2"), Ok(ShaderType::Vec2));
    assert_eq!(parse_simple_type("vec4"), Err(TypeError::UnknownTypename));
    assert_eq!(parse_type_str("double"), Err(TypeError::UnknownTypename));
}

#[test]
fn array_types() {
    assert_eq!(
        parse_type_str("[vec3; 5]"),
        Ok(array(ShaderType::Vec3, 5))
    );
    assert_eq!(
        parse_type_str("  [[vec3;   5];1] "),
        Ok(array(array(ShaderType::Vec3, 5), 1))
    );
    assert_eq!(
        parse_type_str("[[[float;2];3];4]"),
        Ok(array(array(array(ShaderType::Float, 2), 3), 4))
    );
    assert_eq!(parse_type_str("[uint;0]"), Ok(array(ShaderType::UInt, 0)));
}

#[test]
fn what_follows_a_type_is_not_read() {
    assert_eq!(parse_type_str("float]"), Ok(ShaderType::Float));
    let mut tokens = TokenIter::new("[int;2];7");
    assert_eq!(parse_type(&mut tokens), Ok(array(ShaderType::Int, 2)));
    assert_eq!(tokens.collect().len(), 2);
}

#[test]
fn type_faults() {
    assert_eq!(parse_type_str(""), Err(TypeError::Incomplete));
    assert_eq!(parse_type_str("   "), Err(TypeError::Incomplete));
    assert_eq!(parse_type_str("[float"), Err(TypeError::Incomplete));
    assert_eq!(parse_type_str("[float;"), Err(TypeError::Incomplete));
    assert_eq!(parse_type_str("[float;3"), Err(TypeError::Incomplete));
    assert_eq!(parse_type_str("["), Err(TypeError::Incomplete));
    assert_eq!(parse_type_str("5"), Err(TypeError::UnexpectedToken));
    assert_eq!(parse_type_str("]"), Err(TypeError::UnexpectedToken));
    assert_eq!(parse_type_str(";"), Err(TypeError::UnexpectedToken));
    assert_eq!(parse_type_str("[float 3]"), Err(TypeError::Lexer(LexError::InvalidStart(' '))));
    assert_eq!(parse_type_str("[float]"), Err(TypeError::MissingSemicolon));
    assert_eq!(parse_type_str("[float;int]"), Err(TypeError::MissingSize));
    assert_eq!(parse_type_str("[float;3;"), Err(TypeError::MissingBracket));
    assert_eq!(parse_type_str("[bool;3]"), Err(TypeError::UnknownTypename));
    assert_eq!(
        parse_type_str("?"),
        Err(TypeError::Lexer(LexError::InvalidStart('?')))
    );
    assert_eq!(
        parse_type_str("[int;99999999999999999999]"),
        Err(TypeError::Lexer(LexError::IntegerTooLarge))
    );
}

#[test]
fn spirv_code_is_read_lowest_byte_first() {
    let bytes = [0x03, 0x02, 0x23, 0x07, 0x78, 0x56, 0x34, 0x12];
    assert_eq!(spirv_words(&bytes), Ok(vec![SPIRV_MAGIC, 0x1234_5678]));
    assert_eq!(spirv_words(&[]), Err(ShaderError::InvalidSize));
    assert_eq!(spirv_words(&bytes[..7]), Err(ShaderError::InvalidSize));
    assert_eq!(spirv_words(&bytes[4..]), Err(ShaderError::InvalidMagic));
    assert_eq!(
        spirv_words(&[0x07, 0x23, 0x02, 0x03]),
        Err(ShaderError::InvalidMagic)
    );
}

#[test]
fn shader_is_compiled_once() {
    let shader = Shader::Uncompiled("diffuse".to_string(), vec![SPIRV_MAGIC, 1, 2]);
    assert_eq!(shader.name(), "diffuse");
    assert_eq!(shader.code(), Some(&vec![SPIRV_MAGIC, 1, 2]));
    let compiled = shader.compile(0x55);
    assert_eq!(compiled, Shader::Compiled("diffuse".to_string(), 0x55));
    assert_eq!(compiled.module(), 0x55);
    assert_eq!(compiled.code(), None);
    assert_eq!(compiled.compile(0x66), compiled);
    assert_eq!(compiled.name(), "diffuse");
}

#[test]
fn queue_families_are_the_first_that_serve() {
    let families = [
        QueueFamily { graphics: true, compute: false, transfer: true, present: false },
        QueueFamily { graphics: false, compute: true, transfer: true, present: false },
        QueueFamily { graphics: true, compute: true, transfer: false, present: true },
    ];
    let info = query_queue_families(&families).unwrap();
    assert_eq!(info.graphics_index, Some(0));
    assert_eq!(info.compute_index, Some(1));
    assert_eq!(info.transfer_index, Some(0));
    assert_eq!(info.present_index, Some(2));
    assert_eq!(first_family(&families[..2], QueuePurpose::Present), None);
    let info = query_queue_families(&[]).unwrap();
    assert_eq!(
        (info.graphics_index, info.compute_index, info.transfer_index, info.present_index),
        (None, None, None, None)
    );
}

#[test]
fn buffer_alignments() {
    let storage = BufferUse { storage_buffer: true, uniform_buffer: true };
    let uniform = BufferUse { storage_buffer: false, uniform_buffer: true };
    let other = BufferUse { storage_buffer: false, uniform_buffer: false };
    assert_eq!(offset_alignment(storage, 16, 64), 16);
    assert_eq!(offset_alignment(uniform, 16, 64), 64);
    assert_eq!(offset_alignment(other, 16, 64), 1);
    assert_eq!(memory_alignment(48, 0), Some(48));
    assert_eq!(memory_alignment(u64::MAX, 0), Some(u64::MAX));
    assert_eq!(memory_alignment(48, 128), Some(128));
    assert_eq!(memory_alignment(256, 128), Some(256));
    assert_eq!(memory_alignment(1 << 32, 128), None);
    assert_eq!(memory_alignment(u32::MAX as u64, 128), None);
}

#[test]
fn camera_keys_set_and_clear_directions() {
    let mut camera = Camera::new();
    camera.handle_key_input(CameraKey::KeyW, true);
    camera.handle_key_input(CameraKey::KeyA, true);
    camera.handle_key_input(CameraKey::Space, true);
    assert_eq!(camera.movement_direction, 0x1 | 0x4 | 0x10);
    assert!(camera.is_moving(Direction::Forward));
    assert!(camera.is_moving(Direction::Left));
    assert!(camera.is_moving(Direction::Up));
    assert!(!camera.is_moving(Direction::Down));
    camera.handle_key_input(CameraKey::KeyA, false);
    camera.handle_key_input(CameraKey::Other, true);
    assert_eq!(camera.movement_direction, 0x1 | 0x10);
    camera.handle_key_input(CameraKey::KeyS, true);
    camera.handle_key_input(CameraKey::KeyD, true);
    camera.handle_key_input(CameraKey::ControlLeft, true);
    assert_eq!(camera.movement_direction, 0x1 | 0x2 | 0x8 | 0x10 | 0x20);
    assert!(!camera.slow);
    camera.handle_key_input(CameraKey::AltLeft, true);
    assert!(camera.slow);
    camera.handle_key_input(CameraKey::AltLeft, false);
    assert!(!camera.slow);
    assert_eq!(Direction::Still.bit(), 0);
    assert_eq!(CameraKey::AltLeft.direction(), None);
}

#[test]
fn camera_view_is_computed_once_for_a_change() {
    let mut camera = Camera::new();
    assert!(!camera.update_view());
    camera.mark_updated();
    assert!(camera.update_view());
    assert!(!camera.update_view());
}

fn number(value: f32) -> FieldValue {
    FieldValue::Float(value.to_bits())
}

fn integer(value: i64) -> FieldValue {
    FieldValue::Integer { value, float: (value as f32).to_bits() }
}

#[test]
fn parameter_scalars() {
    assert_eq!(
        parse_field_words(&number(1.5), &ShaderType::Float),
        Ok(vec![1.5f32.to_bits()])
    );
    assert_eq!(
        parse_field_words(&integer(3), &ShaderType::Float),
        Ok(vec![3.0f32.to_bits()])
    );
    assert_eq!(parse_field_words(&integer(7), &ShaderType::UInt), Ok(vec![7]));
    assert_eq!(
        parse_field_words(&integer(u32::MAX as i64), &ShaderType::UInt),
        Ok(vec![u32::MAX])
    );
    assert_eq!(parse_field_words(&integer(-1), &ShaderType::Int), Ok(vec![u32::MAX]));
    assert_eq!(
        parse_field_words(&integer(i32::MIN as i64), &ShaderType::Int),
        Ok(vec![0x8000_0000])
    );
    assert_eq!(
        parse_toml_field(&integer(0x0403_0201), &ShaderType::UInt),
        Ok(0x0403_0201u32.to_ne_bytes().to_vec())
    );
    assert_eq!(
        parse_toml_field(&number(2.5), &ShaderType::Float),
        Ok(2.5f32.to_ne_bytes().to_vec())
    );
}

#[test]
fn parameter_vectors_and_arrays() {
    let v3 = FieldValue::Array(vec![number(1.0), integer(2), number(3.0)]);
    assert_eq!(
        parse_field_words(&v3, &ShaderType::Vec3),
        Ok(vec![1.0f32.to_bits(), 2.0f32.to_bits(), 3.0f32.to_bits()])
    );
    let v2 = FieldValue::Array(vec![number(0.5), number(0.25)]);
    assert_eq!(
        parse_field_words(&v2, &ShaderType::Vec2),
        Ok(vec![0.5f32.to_bits(), 0.25f32.to_bits()])
    );
    let list = FieldValue::Array(vec![
        FieldValue::Array(vec![integer(1), integer(2)]),
        FieldValue::Array(vec![]),
        FieldValue::Array(vec![integer(3)]),
    ]);
    assert_eq!(
        parse_field_words(&list, &array(array(ShaderType::UInt, 2), 9)),
        Ok(vec![1, 2, 3])
    );
    let bytes = parse_toml_field(&v2, &ShaderType::Vec2).unwrap();
    assert_eq!(&bytes[0..4], &0.5f32.to_ne_bytes());
    assert_eq!(&bytes[4..8], &0.25f32.to_ne_bytes());
}

#[test]
fn parameter_faults() {
    assert_eq!(
        parse_field_words(&FieldValue::Other, &ShaderType::Float),
        Err(FieldError::ExpectedNumber)
    );
    assert_eq!(
        parse_field_words(&number(1.0), &ShaderType::Vec3),
        Err(FieldError::ExpectedVec3)
    );
    let two = FieldValue::Array(vec![number(1.0), number(2.0)]);
    assert_eq!(parse_field_words(&two, &ShaderType::Vec3), Err(FieldError::ExpectedVec3));
    let mixed = FieldValue::Array(vec![number(1.0), FieldValue::Other, number(2.0)]);
    assert_eq!(parse_field_words(&mixed, &ShaderType::Vec3), Err(FieldError::ExpectedNumber));
    assert_eq!(parse_field_words(&mixed, &ShaderType::Vec2), Err(FieldError::ExpectedVec2));
    assert_eq!(
        parse_field_words(&number(1.0), &ShaderType::UInt),
        Err(FieldError::ExpectedInteger)
    );
    assert_eq!(parse_field_words(&integer(-1), &ShaderType::UInt), Err(FieldError::OutOfRange));
    assert_eq!(
        parse_field_words(&integer(1 << 32), &ShaderType::UInt),
        Err(FieldError::OutOfRange)
    );
    assert_eq!(
        parse_field_words(&integer(1 << 31), &ShaderType::Int),
        Err(FieldError::OutOfRange)
    );
    assert_eq!(
        parse_field_words(&integer(1), &array(ShaderType::Int, 1)),
        Err(FieldError::ExpectedArray)
    );
    let list = FieldValue::Array(vec![integer(1), integer(-5), FieldValue::Other]);
    assert_eq!(
        parse_field_words(&list, &array(ShaderType::UInt, 3)),
        Err(FieldError::OutOfRange)
    );
    assert_eq!(
        parse_toml_field(&list, &array(ShaderType::UInt, 3)),
        Err(FieldError::OutOfRange)
    );
}

#[test]
fn device_names_and_choice() {
    let names = |list: &[&str]| list.iter().map(|n| n.as_bytes().to_vec()).collect::<Vec<_>>();
    let supported = names(&["VK_KHR_swapchain", "VK_KHR_ray_tracing_pipeline", "VK_KHR_maintenance1"]);
    assert!(same_name(b"abc", b"abc"));
    assert!(!same_name(b"abc", b"abd"));
    assert!(!same_name(b"abc", b"ab"));
    assert!(same_name(b"", b""));
    assert!(contains_name(&supported, b"VK_KHR_swapchain"));
    assert!(!contains_name(&supported, b"VK_KHR_swapchai"));
    assert!(!contains_name(&[], b"VK_KHR_swapchain"));
    assert!(supports_all(&names(&["VK_KHR_maintenance1", "VK_KHR_swapchain"]), &supported));
    assert!(!supports_all(
        &names(&["VK_KHR_swapchain", "VK_KHR_acceleration_structure"]),
        &supported
    ));
    assert!(supports_all(&[], &supported));
    assert!(supports_all(&[], &[]));
    assert_eq!(pick_physical_device(&[]), None);
    assert_eq!(pick_physical_device(&[false]), Some(0));
    assert_eq!(pick_physical_device(&[false, false, false]), Some(0));
    assert_eq!(pick_physical_device(&[false, true, true]), Some(1));
    assert_eq!(pick_physical_device(&[true, false]), Some(0));
}

#[test]
fn transform_lines() {
    let step = parse_transform_line("  translate 1 -2.5   3e2 ").unwrap().unwrap();
    assert_eq!(step.action, TransformAction::Translate);
    assert_eq!(step.numbers, vec!["1", "-2.5", "3e2"]);
    let step = parse_transform_line("rotate\t90 0 0 1").unwrap().unwrap();
    assert_eq!(step.action, TransformAction::Rotate);
    assert_eq!(step.numbers, vec!["90", "0", "0", "1"]);
    let step = parse_transform_line("scale 2 2 2").unwrap().unwrap();
    assert_eq!(step.action, TransformAction::Scale);
    let step = parse_transform_line("lookat 0 0 5 0 0 0 0 1 0\r").unwrap().unwrap();
    assert_eq!(step.action, TransformAction::LookAt);
    assert_eq!(step.numbers.len(), 9);
    let step = parse_transform_line("identity and more").unwrap().unwrap();
    assert_eq!(step.action, TransformAction::Identity);
    assert!(step.numbers.is_empty());
}

#[test]
fn transform_lines_that_say_nothing() {
    assert_eq!(parse_transform_line(""), Ok(None));
    assert_eq!(parse_transform_line("   \t "), Ok(None));
    assert_eq!(parse_transform_line("# translate 1 2 3"), Ok(None));
    assert_eq!(parse_transform_line("  #comment"), Ok(None));
    assert_eq!(parse_transform_line("\u{2003}\u{a0}"), Ok(None));
}

#[test]
fn transform_line_faults() {
    assert_eq!(
        parse_transform_line("translate 1 2"),
        Err(TransformError::MissingNumber(TransformAction::Translate))
    );
    assert_eq!(
        parse_transform_line("translate 1 2 3 4"),
        Err(TransformError::ExtraInfo(TransformAction::Translate))
    );
    assert_eq!(
        parse_transform_line("rotate 1 2 3"),
        Err(TransformError::MissingNumber(TransformAction::Rotate))
    );
    assert_eq!(
        parse_transform_line("lookat 1 2 3 4 5 6 7 8 9 10"),
        Err(TransformError::ExtraInfo(TransformAction::LookAt))
    );
    assert_eq!(parse_transform_line("shear 1 2 3"), Err(TransformError::InvalidAction));
    assert_eq!(parse_transform_line("Translate 1 2 3"), Err(TransformError::InvalidAction));
}

#[test]
fn texts_are_trimmed_and_split() {
    assert_eq!(trim_text("  a b  "), "a b");
    assert_eq!(trim_text("\u{3000}x\u{2028}"), "x");
    assert_eq!(trim_text(""), "");
    assert_eq!(trim_text(" \n\t"), "");
    assert_eq!(split_ascii_whitespace(" a  bc\td\n"), vec!["a", "bc", "d"]);
    assert_eq!(split_ascii_whitespace("a\u{a0}b c"), vec!["a\u{a0}b", "c"]);
    assert!(split_ascii_whitespace("  ").is_empty());
    assert_eq!(TransformAction::LookAt.number_count(), 9);
    assert_eq!(parse_action("scale"), Some(TransformAction::Scale));
    assert_eq!(parse_action("scal"), None);
}
