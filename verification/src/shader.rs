use vstd::prelude::*;

verus! {

#[verifier::external_type_specification]
pub struct ExNagaShaderStage(naga::ShaderStage);

#[verifier::external_type_specification]
#[verifier::external_body]
pub struct ExNagaStorageAccess(naga::StorageAccess);

#[verifier::external_type_specification]
pub struct ExNagaAddressSpace(naga::AddressSpace);

/// The stage of the programmable pipeline that a shader runs in.
#[derive(Debug, Clone, Copy, PartialEq, Eq, Structural)]
pub enum PipelineStage {
    Vertex,
    Fragment,
    Compute,
    /// Any other stage (task, mesh, ray tracing).
    Other,
}

/// The kind of buffer a shader binding refers to.
#[derive(Debug, Clone, Copy, PartialEq, Eq, Structural)]
pub enum ShaderBindingType {
    UniformBuffer,
    StorageBuffer,
}

/// A buffer binding that a shader declares.
#[derive(Debug, Clone, Copy, PartialEq, Eq, Structural)]
pub struct ShaderBinding {
    pub group: u32,
    pub binding: u32,
    pub binding_type: ShaderBindingType,
}

/// What the renderer reads of a shader.
#[derive(Debug, Clone)]
pub struct ShaderMetadata {
    pub entry_name: String,
    pub stage: PipelineStage,
    pub size: [u32; 3],
    pub bindings: Vec<ShaderBinding>,
}

/// The address space of a global variable, as far as bindings go.
#[derive(Debug, Clone, Copy, PartialEq, Eq, Structural)]
pub enum GlobalSpace {
    Uniform,
    Storage,
    Other,
}

/// A global variable of a parsed SPIR-V module.
#[derive(Debug, Clone, Copy, PartialEq, Eq)]
pub struct SpirvGlobal {
    /// The bind group and binding number, for resources.
    pub binding: Option<(u32, u32)>,
    /// Where the variable lives.
    pub space: GlobalSpace,
}

/// An entry point of a parsed SPIR-V module.
#[derive(Debug, Clone)]
pub struct SpirvEntryPoint {
    pub name: String,
    pub stage: PipelineStage,
    pub workgroup_size: [u32; 3],
}

impl View for SpirvEntryPoint {
    type V = (Seq<char>, PipelineStage, [u32; 3]);

    open spec fn view(&self) -> (Seq<char>, PipelineStage, [u32; 3]) {
        (self.name@, self.stage, self.workgroup_size)
    }
}

/// What the renderer reads of a parsed SPIR-V module.
#[derive(Debug, Clone)]
pub struct SpirvModule {
    pub entry_points: Vec<SpirvEntryPoint>,
    pub globals: Vec<SpirvGlobal>,
}

impl View for SpirvModule {
    type V = (Seq<(Seq<char>, PipelineStage, [u32; 3])>, Seq<SpirvGlobal>);

    open spec fn view(&self) -> (Seq<(Seq<char>, PipelineStage, [u32; 3])>, Seq<SpirvGlobal>) {
        (self.entry_points@.map_values(|e: SpirvEntryPoint| e@), self.globals@)
    }
}

/// Converts naga's shader stage.
pub fn stage_of(stage: naga::ShaderStage) -> (s: PipelineStage)
    ensures
        s == match stage {
            naga::ShaderStage::Vertex => PipelineStage::Vertex,
            naga::ShaderStage::Fragment => PipelineStage::Fragment,
            naga::ShaderStage::Compute => PipelineStage::Compute,
            _ => PipelineStage::Other,
        },
{
    match stage {
        naga::ShaderStage::Vertex => PipelineStage::Vertex,
        naga::ShaderStage::Fragment => PipelineStage::Fragment,
        naga::ShaderStage::Compute => PipelineStage::Compute,
        _ => PipelineStage::Other,
    }
}

/// Describes an entry point of a naga module.
pub fn entry_point_of(name: &String, stage: naga::ShaderStage, workgroup_size: [u32; 3]) -> (e:
    SpirvEntryPoint)
    ensures
        e.name@ == name@,
        e.stage == stage_of_spec(stage),
        e.workgroup_size == workgroup_size,
{
    SpirvEntryPoint { name: name.clone(), stage: stage_of(stage), workgroup_size }
}

/// The shader stage that naga's stage converts to.
pub open spec fn stage_of_spec(stage: naga::ShaderStage) -> PipelineStage {
    match stage {
        naga::ShaderStage::Vertex => PipelineStage::Vertex,
        naga::ShaderStage::Fragment => PipelineStage::Fragment,
        naga::ShaderStage::Compute => PipelineStage::Compute,
        _ => PipelineStage::Other,
    }
}

/// Describes a global variable of a naga module.
pub fn global_of(binding: Option<(u32, u32)>, space: naga::AddressSpace) -> (g: SpirvGlobal)
    ensures
        g.binding == binding,
        g.space == match space {
            naga::AddressSpace::Uniform => GlobalSpace::Uniform,
            naga::AddressSpace::Storage { .. } => GlobalSpace::Storage,
            _ => GlobalSpace::Other,
        },
{
    let space = match space {
        naga::AddressSpace::Uniform => GlobalSpace::Uniform,
        naga::AddressSpace::Storage { .. } => GlobalSpace::Storage,
        _ => GlobalSpace::Other,
    };
    SpirvGlobal { binding, space }
}

/// Represents a loaded shader resource containing compiled bytecode.
pub struct Shader {
    /// The file path of the shader.
    pub file_path: String,
    /// The compiled bytecode.
    pub(crate) data: Vec<u8>,
    /// The metadata extracted from the shader.
    pub(crate) metadata: ShaderMetadata,
}

/// The errors of loading a shader.
#[derive(Debug)]
pub enum ShaderError {
    UnsupportedShaderLanguage,
    Fail(String),
}

impl ShaderError {
    /// Creates a new `Fail` error from the provided message.
    pub fn fail(msg: &str) -> (e: Self)
        ensures
            e matches ShaderError::Fail(m) && m@ == msg@,
    {
        ShaderError::Fail(String::from_str(msg))
    }
}

/// The magic number that starts a SPIR-V module.
pub const SPIRV_MAGIC: u32 = 0x0723_0203;

/// The little-endian `u32` in the first four bytes of `data`.
pub open spec fn le_word(data: Seq<u8>) -> int {
    data[0] as int + 256 * data[1] as int + 65536 * data[2] as int + 16777216 * data[3] as int
}

/// Whether `data` starts with the SPIR-V magic number.
pub open spec fn is_spirv(data: Seq<u8>) -> bool {
    data.len() >= 4 && le_word(data) == SPIRV_MAGIC
}

/// The bindings that a module's globals declare: those with a binding in the
/// uniform or storage space, in order.
pub open spec fn global_bindings(globals: Seq<SpirvGlobal>) -> Seq<ShaderBinding>
    decreases globals.len(),
{
    if globals.len() == 0 {
        Seq::empty()
    } else {
        let prev = global_bindings(globals.drop_last());
        let g = globals.last();
        match g.binding {
            Some((group, binding)) => match g.space {
                GlobalSpace::Uniform => prev.push(
                    ShaderBinding { group, binding, binding_type: ShaderBindingType::UniformBuffer },
                ),
                GlobalSpace::Storage => prev.push(
                    ShaderBinding { group, binding, binding_type: ShaderBindingType::StorageBuffer },
                ),
                GlobalSpace::Other => prev,
            },
            None => prev,
        }
    }
}

/// Whether a module has exactly one entry point and it is named `main`.
pub open spec fn has_single_main(entry_points: Seq<(Seq<char>, PipelineStage, [u32; 3])>) -> bool {
    entry_points.len() == 1 && entry_points[0].0 == "main"@
}

/// A group number read as a signed 32-bit integer.
pub open spec fn group_as_i32(group: u32) -> int {
    if group < 0x8000_0000 {
        group as int
    } else {
        group as int - 0x1_0000_0000
    }
}

/// The largest group of `bindings` read as signed, or `-1` for no bindings.
pub open spec fn max_group(bindings: Seq<ShaderBinding>) -> int
    decreases bindings.len(),
{
    if bindings.len() == 0 {
        -1
    } else {
        let prev = max_group(bindings.drop_last());
        let g = group_as_i32(bindings.last().group);
        if g > prev {
            g
        } else {
            prev
        }
    }
}

/// Checks whether the entered shader is written in a supported language.
pub fn verify_shader_language(data: &[u8]) -> (r: Result<(), ShaderError>)
    ensures
        r is Ok <==> is_spirv(data@),
        r is Err ==> r matches Err(ShaderError::UnsupportedShaderLanguage),
{
    if data.len() < 4 {
        return Err(ShaderError::UnsupportedShaderLanguage);
    }
    let magic: u32 = data[0] as u32 + 256 * (data[1] as u32) + 65536 * (data[2] as u32) + 16777216
        * (data[3] as u32);
    if magic != SPIRV_MAGIC {
        Err(ShaderError::UnsupportedShaderLanguage)
    } else {
        Ok(())
    }
}

/// Reads the metadata of a parsed module. The module must have exactly one
/// entry point, named `main`; its stage and workgroup size are taken, and the
/// uniform and storage globals with a binding become the bindings.
pub fn metadata_from_module(module: &SpirvModule) -> (r: Result<ShaderMetadata, ShaderError>)
    ensures
        r is Ok <==> has_single_main(module@.0),
        r is Err ==> (r matches Err(ShaderError::Fail(m)) && m@
            == "Shader must contain exactly one entry point named main."@),
        r matches Ok(md) ==> {
            &&& md.entry_name@ == "main"@
            &&& md.stage == module@.0[0].1
            &&& md.size == module@.0[0].2
            &&& md.bindings@ == global_bindings(module@.1)
        },
{
    let main = String::from_str("main");
    if module.entry_points.len() != 1 || module.entry_points[0].name != main {
        return Err(ShaderError::fail("Shader must contain exactly one entry point named main."));
    }
    let entry_point = &module.entry_points[0];
    let mut bindings: Vec<ShaderBinding> = Vec::new();
    let mut i: usize = 0;
    while i < module.globals.len()
        invariant
            i <= module.globals@.len(),
            bindings@ == global_bindings(module.globals@.take(i as int)),
        decreases module.globals@.len() - i,
    {
        proof {
            assert(module.globals@.take(i + 1).drop_last() =~= module.globals@.take(i as int));
            assert(module.globals@.take(i + 1).last() == module.globals@[i as int]);
        }
        let global = module.globals[i];
        match global.binding {
            Some((group, binding)) => match global.space {
                GlobalSpace::Uniform => {
                    bindings.push(
                        ShaderBinding {
                            group,
                            binding,
                            binding_type: ShaderBindingType::UniformBuffer,
                        },
                    );
                },
                GlobalSpace::Storage => {
                    bindings.push(
                        ShaderBinding {
                            group,
                            binding,
                            binding_type: ShaderBindingType::StorageBuffer,
                        },
                    );
                },
                GlobalSpace::Other => {},
            },
            None => {},
        }
        i = i + 1;
    }
    proof {
        assert(module.globals@.take(module.globals@.len() as int) =~= module.globals@);
    }
    Ok(
        ShaderMetadata {
            entry_name: entry_point.name.clone(),
            stage: entry_point.stage,
            size: entry_point.workgroup_size,
            bindings,
        },
    )
}

impl Shader {
    /// The file path of the shader.
    pub closed spec fn spec_file_path(&self) -> Seq<char> {
        self.file_path@
    }

    /// The compiled bytecode.
    pub closed spec fn spec_data(&self) -> Seq<u8> {
        self.data@
    }

    /// The bindings declared by the shader.
    pub closed spec fn spec_bindings(&self) -> Seq<ShaderBinding> {
        self.metadata.bindings@
    }

    /// The name of the shader's entry point.
    pub closed spec fn spec_entry_name(&self) -> Seq<char> {
        self.metadata.entry_name@
    }

    /// The pipeline stage of the shader's entry point.
    pub closed spec fn spec_stage(&self) -> PipelineStage {
        self.metadata.stage
    }

    /// The workgroup size of the shader's entry point.
    pub closed spec fn spec_size(&self) -> [u32; 3] {
        self.metadata.size
    }

    /// Builds a shader from its bytes and what the SPIR-V parser made of them
    /// (the module, or the parser's error text). The bytes must be SPIR-V, and
    /// the module must have exactly one entry point, named `main`.
    pub fn from_parsed(
        file_path: String,
        data: Vec<u8>,
        parsed: Result<SpirvModule, String>,
    ) -> (r: Result<Self, ShaderError>)
        ensures
            !is_spirv(data@) ==> r matches Err(ShaderError::UnsupportedShaderLanguage),
            is_spirv(data@) ==> match parsed {
                Err(msg) => r matches Err(ShaderError::Fail(m)) && m@ == msg@,
                Ok(module) => if has_single_main(module@.0) {
                    r matches Ok(shader) && shader.spec_file_path() == file_path@ && shader.spec_data()
                        == data@ && shader.spec_entry_name() == "main"@ && shader.spec_stage()
                        == module@.0[0].1 && shader.spec_size() == module@.0[0].2
                        && shader.spec_bindings() == global_bindings(module@.1)
                } else {
                    r matches Err(ShaderError::Fail(m)) && m@
                        == "Shader must contain exactly one entry point named main."@
                },
            },
    {
        verify_shader_language(data.as_slice())?;
        let module = match parsed {
            Ok(module) => module,
            Err(msg) => {
                return Err(ShaderError::Fail(msg));
            },
        };
        let metadata = metadata_from_module(&module)?;
        Ok(Shader { file_path, data, metadata })
    }

    /// The compiled bytecode.
    pub fn data(&self) -> (d: &Vec<u8>)
        ensures
            d@ == self.spec_data(),
    {
        &self.data
    }

    /// The metadata extracted from the shader.
    pub fn metadata(&self) -> (m: &ShaderMetadata)
        ensures
            m.entry_name@ == self.spec_entry_name(),
            m.stage == self.spec_stage(),
            m.size == self.spec_size(),
            m.bindings@ == self.spec_bindings(),
    {
        &self.metadata
    }

    /// Calculates the number of resource groups: one more than the largest
    /// group number among the bindings (read as a signed 32-bit value), `0`
    /// without bindings.
    pub fn group_count(&self) -> (n: u32)
        requires
            forall|i: int|
                0 <= i < self.spec_bindings().len() ==> (#[trigger] self.spec_bindings()[i]).group
                    != 0x7FFF_FFFF,
        ensures
            n == (max_group(self.spec_bindings()) + 1) as u32,
    {
        let bindings = &self.metadata.bindings;
        let mut max_group_value: i32 = -1;
        let mut i: usize = 0;
        while i < bindings.len()
            invariant
                i <= bindings@.len(),
                bindings@ == self.spec_bindings(),
                max_group_value == max_group(bindings@.take(i as int)),
                max_group_value < 0x7FFF_FFFF,
                forall|k: int|
                    0 <= k < self.spec_bindings().len() ==> (#[trigger] self.spec_bindings()[k]).group
                        != 0x7FFF_FFFF,
            decreases bindings@.len() - i,
        {
            proof {
                assert(bindings@.take(i + 1).drop_last() =~= bindings@.take(i as int));
                assert(bindings@.take(i + 1).last() == bindings@[i as int]);
            }
            let group = bindings[i].group;
            assert(self.spec_bindings()[i as int].group == group);
            let g: i32 = if group < 0x8000_0000 {
                group as i32
            } else {
                (group as i64 - 0x1_0000_0000) as i32
            };
            if g > max_group_value {
                max_group_value = g;
            }
            i = i + 1;
        }
        proof {
            assert(bindings@.take(bindings@.len() as int) =~= bindings@);
        }
        let next: i32 = max_group_value + 1;
        (#[verifier::truncate] (next as u32))
    }
}

/// A group number read as signed is its bits taken as an `i32`.
pub proof fn lemma_group_as_i32(group: u32)
    ensures
        group_as_i32(group) == (group as i32) as int,
{
    assert(group < 0x8000_0000 ==> (group as i32) as int == group as int) by (bit_vector);
    assert(group >= 0x8000_0000 ==> (group as i32) as int == group as int - 0x1_0000_0000) by (
    bit_vector);
}

/// The group count is one more than the largest group: `max_group` is the
/// larger of `-1` and every binding's group read as signed, so it is at least
/// each of them and at least `-1`, and it is either `-1` or one of them.
pub proof fn lemma_max_group(bindings: Seq<ShaderBinding>)
    ensures
        forall|i: int|
            0 <= i < bindings.len() ==> max_group(bindings) >= group_as_i32(
                #[trigger] bindings[i].group,
            ),
        max_group(bindings) >= -1,
        max_group(bindings) == -1 || exists|i: int|
            0 <= i < bindings.len() && max_group(bindings) == group_as_i32(
                #[trigger] bindings[i].group,
            ),
        bindings.len() == 0 ==> max_group(bindings) == -1,
    decreases bindings.len(),
{
    if bindings.len() > 0 {
        let prefix = bindings.drop_last();
        lemma_max_group(prefix);
        assert forall|i: int| 0 <= i < bindings.len() implies max_group(bindings) >= group_as_i32(
            #[trigger] bindings[i].group,
        ) by {
            if i < prefix.len() {
                assert(prefix[i] == bindings[i]);
            }
        }
        let last = bindings.len() - 1;
        if group_as_i32(bindings[last].group) > max_group(prefix) {
            assert(max_group(bindings) == group_as_i32(bindings[last].group));
        } else if max_group(prefix) != -1 {
            let k = choose|k: int|
                0 <= k < prefix.len() && max_group(prefix) == group_as_i32(
                    #[trigger] prefix[k].group,
                );
            assert(prefix[k] == bindings[k]);
            assert(max_group(bindings) == group_as_i32(bindings[k].group));
        }
    }
}

} // verus!
