use heph_gl::shader::{
    entry_point_of, global_of, metadata_from_module, verify_shader_language, GlobalSpace,
    PipelineStage, Shader, ShaderBinding, ShaderBindingType, ShaderError, SpirvEntryPoint,
    SpirvGlobal, SpirvModule,
};

fn parse(data: &[u8]) -> Result<SpirvModule, String> {
    match naga::front::spv::parse_u8_slice(data, &naga::front::spv::Options::default()) {
        Ok(module) => Ok(SpirvModule {
            entry_points: module
                .entry_points
                .iter()
                .map(|e| entry_point_of(&e.name, e.stage, e.workgroup_size))
                .collect(),
            globals: module
                .global_variables
                .iter()
                .map(|(_, g)| global_of(g.binding.map(|b| (b.group, b.binding)), g.space))
                .collect(),
        }),
        Err(error) => Err(error.to_string()),
    }
}

fn words_to_bytes(words: &[u32]) -> Vec<u8> {
    words.iter().flat_map(|w| w.to_le_bytes()).collect()
}

fn compute_shader() -> Vec<u8> {
    let op = |count: u32, opcode: u32| (count << 16) | opcode;
    words_to_bytes(&[
        0x0723_0203,
        0x0001_0000,
        0,
        9,
        0,
        op(2, 17),
        1,
        op(3, 14),
        0,
        1,
        op(5, 15),
        5,
        1,
        0x6e69_616d,
        0,
        op(6, 16),
        1,
        17,
        64,
        1,
        1,
        op(3, 71),
        5,
        2,
        op(5, 72),
        5,
        0,
        35,
        0,
        op(4, 71),
        7,
        34,
        1,
        op(4, 71),
        7,
        33,
        2,
        op(2, 19),
        2,
        op(3, 33),
        3,
        2,
        op(4, 21),
        4,
        32,
        0,
        op(3, 30),
        5,
        4,
        op(4, 32),
        6,
        2,
        5,
        op(4, 59),
        6,
        7,
        2,
        op(5, 54),
        2,
        1,
        0,
        3,
        op(2, 248),
        8,
        op(1, 253),
        op(1, 56),
    ])
}

#[test]
fn shader_language_is_checked_by_magic_number() {
    assert!(verify_shader_language(&[0x03, 0x02, 0x23, 0x07]).is_ok());
    assert!(matches!(
        verify_shader_language(&[0x03, 0x02, 0x23]),
        Err(ShaderError::UnsupportedShaderLanguage)
    ));
    assert!(matches!(
        verify_shader_language(b"#version 450"),
        Err(ShaderError::UnsupportedShaderLanguage)
    ));
}

#[test]
fn loads_a_compute_shader() {
    let data = compute_shader();
    let shader =
        Shader::from_parsed("shaders/test.spv".to_string(), data.clone(), parse(&data)).unwrap();
    assert_eq!(shader.file_path, "shaders/test.spv");
    assert_eq!(shader.data(), &data);
    let metadata = shader.metadata();
    assert_eq!(metadata.entry_name, "main");
    assert_eq!(metadata.stage, PipelineStage::Compute);
    assert_eq!(metadata.size, [64, 1, 1]);
    assert_eq!(
        metadata.bindings,
        vec![ShaderBinding {
            group: 1,
            binding: 2,
            binding_type: ShaderBindingType::UniformBuffer
        }]
    );
    assert_eq!(shader.group_count(), 2);
}

#[test]
fn rejects_what_is_not_spirv() {
    let glsl = b"#version 450\nvoid main() {}".to_vec();
    let parsed = parse(&glsl);
    assert!(matches!(
        Shader::from_parsed("a.comp".to_string(), glsl, parsed),
        Err(ShaderError::UnsupportedShaderLanguage)
    ));
    assert!(matches!(
        Shader::from_parsed("".to_string(), Vec::new(), Err("empty".to_string())),
        Err(ShaderError::UnsupportedShaderLanguage)
    ));
}

#[test]
fn reports_parse_errors() {
    let truncated = words_to_bytes(&[0x0723_0203, 0x0001_0000]);
    let parsed = parse(&truncated);
    assert!(parsed.is_err());
    match Shader::from_parsed("t.spv".to_string(), truncated, parsed.clone()) {
        Err(ShaderError::Fail(msg)) => assert_eq!(msg, parsed.unwrap_err()),
        _ => panic!("expected a parse failure"),
    }
    let module = SpirvModule {
        entry_points: vec![entry("compute")],
        globals: vec![],
    };
    match Shader::from_parsed("u.spv".to_string(), compute_shader(), Ok(module)) {
        Err(ShaderError::Fail(msg)) => {
            assert_eq!(msg, "Shader must contain exactly one entry point named main.")
        }
        _ => panic!("expected a missing entry point"),
    }
}

fn entry(name: &str) -> SpirvEntryPoint {
    SpirvEntryPoint {
        name: name.to_string(),
        stage: PipelineStage::Fragment,
        workgroup_size: [0, 0, 0],
    }
}

#[test]
fn metadata_needs_a_single_main_entry_point() {
    let globals = vec![
        SpirvGlobal {
            binding: Some((0, 1)),
            space: GlobalSpace::Storage,
        },
        SpirvGlobal {
            binding: None,
            space: GlobalSpace::Uniform,
        },
        SpirvGlobal {
            binding: Some((3, 0)),
            space: GlobalSpace::Other,
        },
        SpirvGlobal {
            binding: Some((2, 4)),
            space: GlobalSpace::Uniform,
        },
    ];
    let module = SpirvModule {
        entry_points: vec![entry("main")],
        globals: globals.clone(),
    };
    let metadata = metadata_from_module(&module).unwrap();
    assert_eq!(metadata.stage, PipelineStage::Fragment);
    assert_eq!(
        metadata.bindings,
        vec![
            ShaderBinding {
                group: 0,
                binding: 1,
                binding_type: ShaderBindingType::StorageBuffer
            },
            ShaderBinding {
                group: 2,
                binding: 4,
                binding_type: ShaderBindingType::UniformBuffer
            },
        ]
    );
    for bad in [vec![entry("other")], vec![], vec![entry("main"), entry("main")]] {
        let module = SpirvModule {
            entry_points: bad,
            globals: globals.clone(),
        };
        match metadata_from_module(&module) {
            Err(ShaderError::Fail(msg)) => {
                assert_eq!(msg, "Shader must contain exactly one entry point named main.")
            }
            _ => panic!("expected an error"),
        }
    }
}

#[test]
fn shader_error_fail_keeps_message() {
    match ShaderError::fail("x") {
        ShaderError::Fail(m) => assert_eq!(m, "x"),
        _ => panic!(),
    }
}
