use frame_loop::backend::{Action, BindSlot, Command, LoadOp, PipelineSlot};
use frame_loop::binder::{
    BindError, Buffer, BufferHandle, ResourceBinder, ResourceRef, TextureHandle, Vertex,
};
use frame_loop::capability::{CapabilitySet, Feature};
use frame_loop::compositor::{quad_index_list, CommandEncoder, DepthCompositor, DepthTarget};
use frame_loop::context::{AdapterDescription, DeviceOutcome, GraphicsContext, InitError};
use frame_loop::motion::{MovingQuad, PERIOD};
use frame_loop::pipeline::{
    same_entries, BindGroupLayout, BindingKind, BuildError, LayoutEntry, Pipeline,
    PipelineBuilder, ShaderModule, ShaderStage,
};
use frame_loop::surface::{
    clamp_extent, PresentMode, SurfaceConfig, SurfaceManager, TextureFormat,
};

fn entry(binding: u32, kind: BindingKind) -> LayoutEntry {
    LayoutEntry { binding, kind }
}

fn module_stage(id: u32, entry_point: &str, bindings: Vec<LayoutEntry>) -> ShaderStage {
    ShaderStage { module: ShaderModule { id, bindings }, entry_point: entry_point.to_string() }
}

fn time_layout() -> Vec<LayoutEntry> {
    vec![entry(0, BindingKind::UniformBuffer)]
}

fn described(features: CapabilitySet) -> AdapterDescription {
    AdapterDescription {
        features,
        formats: vec![TextureFormat::Rgba8UnormSrgb, TextureFormat::Bgra8Unorm],
        present_modes: vec![PresentMode::Mailbox, PresentMode::Fifo],
    }
}

#[test]
fn capability_set_holds_what_was_put_in() {
    let none = CapabilitySet::empty();
    assert!(!none.contains(Feature::MeshShader));
    assert!(!none.contains(Feature::PassthroughShader));
    let mesh = none.with(Feature::MeshShader);
    assert!(mesh.contains(Feature::MeshShader));
    assert!(!mesh.contains(Feature::PassthroughShader));
    assert_eq!(mesh.with(Feature::MeshShader), mesh);
    let both = mesh.with(Feature::PassthroughShader);
    assert_eq!(both, CapabilitySet::mesh_shading());
}

#[test]
fn capability_set_contains_all_is_inclusion() {
    let none = CapabilitySet::empty();
    let mesh = none.with(Feature::MeshShader);
    let pass = none.with(Feature::PassthroughShader);
    let both = CapabilitySet::mesh_shading();
    assert!(none.contains_all(&none));
    assert!(mesh.contains_all(&none));
    assert!(both.contains_all(&mesh));
    assert!(both.contains_all(&pass));
    assert!(both.contains_all(&both));
    assert!(!none.contains_all(&mesh));
    assert!(!mesh.contains_all(&pass));
    assert!(!mesh.contains_all(&both));
    assert!(!pass.contains_all(&both));
}

#[test]
fn zero_extent_is_clamped_to_one() {
    assert_eq!(clamp_extent(0), 1);
    assert_eq!(clamp_extent(1), 1);
    assert_eq!(clamp_extent(2), 2);
    assert_eq!(clamp_extent(u32::MAX), u32::MAX);
}

fn context() -> GraphicsContext {
    GraphicsContext::initialize(
        &Some(described(CapabilitySet::empty())),
        CapabilitySet::empty(),
        DeviceOutcome::Created,
    )
    .unwrap()
}

#[test]
fn surface_is_configured_with_the_clamped_size() {
    let mut calls = vec![Action::Exit];
    let manager = SurfaceManager::configure(&context(), 0, 0, &mut calls);
    let expected = SurfaceConfig {
        format: TextureFormat::Rgba8UnormSrgb,
        width: 1,
        height: 1,
        present_mode: PresentMode::Mailbox,
    };
    assert_eq!(manager.config(), expected);
    assert_eq!(calls, vec![Action::Exit, Action::ConfigureSurface { config: expected }]);
    let mut calls = vec![];
    let large = SurfaceManager::configure(&context(), 800, 600, &mut calls);
    assert_eq!((large.config().width, large.config().height), (800, 600));
    assert_eq!(calls, vec![Action::ConfigureSurface { config: large.config() }]);
}

#[test]
fn reconfigure_clamps_each_dimension_alone() {
    let mut calls = vec![];
    let mut manager = SurfaceManager::configure(&context(), 800, 600, &mut calls);
    manager.reconfigure(0, 300, &mut calls);
    assert_eq!((manager.config().width, manager.config().height), (1, 300));
    manager.reconfigure(400, 0, &mut calls);
    assert_eq!((manager.config().width, manager.config().height), (400, 1));
    manager.reconfigure(0, 0, &mut calls);
    assert_eq!((manager.config().width, manager.config().height), (1, 1));
    assert_eq!(manager.config().format, TextureFormat::Rgba8UnormSrgb);
    assert_eq!(manager.config().present_mode, PresentMode::Mailbox);
    let sizes: Vec<(u32, u32)> = calls
        .iter()
        .map(|call| match call {
            Action::ConfigureSurface { config } => (config.width, config.height),
            _ => panic!("only the surface is configured"),
        })
        .collect();
    assert_eq!(sizes, vec![(800, 600), (1, 300), (400, 1), (1, 1)]);
}

#[test]
fn reconfigure_with_the_same_size_changes_nothing() {
    let mut calls = vec![];
    let mut manager = SurfaceManager::configure(&context(), 800, 600, &mut calls);
    manager.reconfigure(1024, 0, &mut calls);
    let once = manager;
    manager.reconfigure(1024, 0, &mut calls);
    assert_eq!(manager, once);
    manager.reconfigure(1024, 1, &mut calls);
    assert_eq!(manager, once);
    assert_eq!(calls.len(), 4);
    assert_eq!(calls[1], calls[2]);
    assert_eq!(calls[2], calls[3]);
}

#[test]
fn negotiation_refuses_a_missing_adapter() {
    assert_eq!(
        GraphicsContext::negotiate(&None, &CapabilitySet::empty()),
        Err(InitError::NoAdapter)
    );
    assert_eq!(
        GraphicsContext::initialize(&None, CapabilitySet::empty(), DeviceOutcome::Created),
        Err(InitError::NoAdapter)
    );
}

#[test]
fn negotiation_refuses_an_adapter_that_cannot_present() {
    let mut formatless = described(CapabilitySet::mesh_shading());
    formatless.formats.clear();
    assert_eq!(
        GraphicsContext::negotiate(&Some(formatless), &CapabilitySet::empty()),
        Err(InitError::NoAdapter)
    );
    let mut modeless = described(CapabilitySet::mesh_shading());
    modeless.present_modes.clear();
    assert_eq!(
        GraphicsContext::negotiate(&Some(modeless), &CapabilitySet::mesh_shading()),
        Err(InitError::NoAdapter)
    );
}

#[test]
fn negotiation_tests_presentation_before_features() {
    let mut poor = described(CapabilitySet::empty());
    poor.formats.clear();
    assert_eq!(
        GraphicsContext::negotiate(&Some(poor), &CapabilitySet::mesh_shading()),
        Err(InitError::NoAdapter)
    );
}

#[test]
fn negotiation_refuses_a_missing_feature() {
    let only_mesh = CapabilitySet::empty().with(Feature::MeshShader);
    assert_eq!(
        GraphicsContext::negotiate(&Some(described(only_mesh)), &CapabilitySet::mesh_shading()),
        Err(InitError::MissingFeature)
    );
    assert_eq!(
        GraphicsContext::initialize(
            &Some(described(CapabilitySet::empty())),
            only_mesh,
            DeviceOutcome::Created
        ),
        Err(InitError::MissingFeature)
    );
    assert_eq!(
        GraphicsContext::negotiate(&Some(described(only_mesh)), &only_mesh),
        Ok(())
    );
}

#[test]
fn initialization_reports_a_failed_device_last() {
    let adapter = Some(described(CapabilitySet::mesh_shading()));
    assert_eq!(
        GraphicsContext::initialize(&adapter, CapabilitySet::empty(), DeviceOutcome::Failed),
        Err(InitError::DeviceCreationFailed)
    );
    assert_eq!(
        GraphicsContext::initialize(
            &Some(described(CapabilitySet::empty())),
            CapabilitySet::mesh_shading(),
            DeviceOutcome::Failed
        ),
        Err(InitError::MissingFeature)
    );
    assert_eq!(
        GraphicsContext::initialize(&None, CapabilitySet::empty(), DeviceOutcome::Failed),
        Err(InitError::NoAdapter)
    );
}

#[test]
fn context_holds_required_features_and_first_choices() {
    let only_mesh = CapabilitySet::empty().with(Feature::MeshShader);
    let context = GraphicsContext::initialize(
        &Some(described(CapabilitySet::mesh_shading())),
        only_mesh,
        DeviceOutcome::Created,
    )
    .unwrap();
    assert_eq!(context.features(), only_mesh);
    assert_eq!(context.format(), TextureFormat::Rgba8UnormSrgb);
    assert_eq!(context.present_mode(), PresentMode::Mailbox);
}

#[test]
fn same_entries_compares_slot_by_slot() {
    let a = vec![entry(0, BindingKind::Texture), entry(1, BindingKind::Sampler)];
    assert!(same_entries(&a, &a.clone()));
    assert!(same_entries(&vec![], &vec![]));
    assert!(!same_entries(&a, &vec![entry(0, BindingKind::Texture)]));
    assert!(!same_entries(&vec![], &a));
    assert!(!same_entries(
        &a,
        &vec![entry(0, BindingKind::Texture), entry(1, BindingKind::Texture)]
    ));
    assert!(!same_entries(
        &a,
        &vec![entry(0, BindingKind::Texture), entry(2, BindingKind::Sampler)]
    ));
    assert!(!same_entries(
        &a,
        &vec![entry(1, BindingKind::Sampler), entry(0, BindingKind::Texture)]
    ));
}

#[test]
fn classic_build_keeps_what_it_was_given() {
    let builder = PipelineBuilder::new(
        CapabilitySet::empty(),
        BindGroupLayout { entries: time_layout() },
    );
    let mut calls = vec![Action::ConfigureSurface {
        config: SurfaceConfig {
            format: TextureFormat::Bgra8Unorm,
            width: 2,
            height: 3,
            present_mode: PresentMode::Fifo,
        },
    }];
    let before = calls.clone();
    let built = builder.build_classic(
        module_stage(4, "vs_main", time_layout()),
        module_stage(5, "fs_main", time_layout()),
        vec![],
        TextureFormat::Bgra8Unorm,
        Some(TextureFormat::Depth32Float),
        &mut calls,
    );
    assert_eq!(
        built,
        Ok(Pipeline::Classic {
            vertex: module_stage(4, "vs_main", time_layout()),
            fragment: module_stage(5, "fs_main", time_layout()),
            vertex_buffers: vec![],
            color_target: TextureFormat::Bgra8Unorm,
            depth_format: Some(TextureFormat::Depth32Float),
        })
    );
    assert_eq!(calls[..1], before[..]);
    assert_eq!(
        calls[1..],
        [
            Action::CreateShaderModule { module: 4 },
            Action::CreateShaderModule { module: 5 },
            Action::CreateBindGroupLayout,
            Action::CreatePipelineLayout,
            Action::CreatePipeline,
        ]
    );
    assert_eq!(builder.layout().entries, time_layout());
}

#[test]
fn classic_build_without_bindings_makes_no_bind_group_layout() {
    let builder =
        PipelineBuilder::new(CapabilitySet::empty(), BindGroupLayout { entries: vec![] });
    let mut calls = vec![];
    let built = builder.build_classic(
        module_stage(0, "vertex", vec![]),
        module_stage(0, "fragment", vec![]),
        vec![],
        TextureFormat::Rgba8Unorm,
        None,
        &mut calls,
    );
    assert!(built.is_ok());
    assert_eq!(
        calls,
        vec![
            Action::CreateShaderModule { module: 0 },
            Action::CreateShaderModule { module: 0 },
            Action::CreatePipelineLayout,
            Action::CreatePipeline,
        ]
    );
}

#[test]
fn classic_build_refuses_another_number_of_bindings() {
    let four = vec![
        entry(0, BindingKind::Texture),
        entry(1, BindingKind::Sampler),
        entry(2, BindingKind::Texture),
        entry(3, BindingKind::Sampler),
    ];
    let two = vec![entry(0, BindingKind::Texture), entry(1, BindingKind::Sampler)];
    let builder =
        PipelineBuilder::new(CapabilitySet::empty(), BindGroupLayout { entries: four.clone() });
    let mut calls = vec![Action::RequestRedraw];
    let fragment_short = builder.build_classic(
        module_stage(1, "vertex", four.clone()),
        module_stage(1, "fragment", two.clone()),
        vec![],
        TextureFormat::Bgra8Unorm,
        None,
        &mut calls,
    );
    assert_eq!(fragment_short, Err(BuildError::LayoutMismatch));
    let vertex_short = builder.build_classic(
        module_stage(1, "vertex", two),
        module_stage(1, "fragment", four.clone()),
        vec![],
        TextureFormat::Bgra8Unorm,
        None,
        &mut calls,
    );
    assert_eq!(vertex_short, Err(BuildError::LayoutMismatch));
    let none_declared = builder.build_classic(
        module_stage(1, "vertex", vec![]),
        module_stage(1, "fragment", vec![]),
        vec![],
        TextureFormat::Bgra8Unorm,
        None,
        &mut calls,
    );
    assert_eq!(none_declared, Err(BuildError::LayoutMismatch));
    assert_eq!(calls, vec![Action::RequestRedraw]);
}

#[test]
fn classic_build_refuses_other_kinds_in_the_same_number() {
    let layout = vec![entry(0, BindingKind::Texture), entry(1, BindingKind::Sampler)];
    let other = vec![entry(0, BindingKind::Texture), entry(1, BindingKind::UniformBuffer)];
    let builder =
        PipelineBuilder::new(CapabilitySet::mesh_shading(), BindGroupLayout { entries: layout });
    let mut calls = vec![];
    let built = builder.build_classic(
        module_stage(1, "vertex", other.clone()),
        module_stage(1, "fragment", other),
        vec![],
        TextureFormat::Bgra8Unorm,
        None,
        &mut calls,
    );
    assert_eq!(built, Err(BuildError::LayoutMismatch));
    assert!(calls.is_empty());
}

#[test]
fn mesh_build_needs_the_mesh_shader_feature() {
    let only_pass = CapabilitySet::empty().with(Feature::PassthroughShader);
    for capabilities in [CapabilitySet::empty(), only_pass] {
        let builder =
            PipelineBuilder::new(capabilities, BindGroupLayout { entries: time_layout() });
        let mut calls = vec![Action::Present];
        let built = builder.build_mesh(
            Some(module_stage(1, "task", time_layout())),
            module_stage(2, "mesh", time_layout()),
            module_stage(3, "fragment", time_layout()),
            TextureFormat::Bgra8UnormSrgb,
            &mut calls,
        );
        assert_eq!(built, Err(BuildError::MissingFeature));
        assert_eq!(calls, vec![Action::Present]);
    }
}

#[test]
fn mesh_build_tests_the_feature_before_the_layout() {
    let builder =
        PipelineBuilder::new(CapabilitySet::empty(), BindGroupLayout { entries: time_layout() });
    let mut calls = vec![];
    let built = builder.build_mesh(
        None,
        module_stage(2, "mesh", vec![]),
        module_stage(3, "fragment", vec![]),
        TextureFormat::Bgra8UnormSrgb,
        &mut calls,
    );
    assert_eq!(built, Err(BuildError::MissingFeature));
    assert!(calls.is_empty());
}

#[test]
fn mesh_build_refuses_a_module_that_disagrees_with_the_layout() {
    let only_mesh = CapabilitySet::empty().with(Feature::MeshShader);
    let builder = PipelineBuilder::new(only_mesh, BindGroupLayout { entries: time_layout() });
    let mut calls = vec![];
    let task_off = builder.build_mesh(
        Some(module_stage(1, "task", vec![])),
        module_stage(2, "mesh", time_layout()),
        module_stage(3, "fragment", time_layout()),
        TextureFormat::Bgra8UnormSrgb,
        &mut calls,
    );
    assert_eq!(task_off, Err(BuildError::LayoutMismatch));
    let mesh_off = builder.build_mesh(
        None,
        module_stage(2, "mesh", vec![]),
        module_stage(3, "fragment", time_layout()),
        TextureFormat::Bgra8UnormSrgb,
        &mut calls,
    );
    assert_eq!(mesh_off, Err(BuildError::LayoutMismatch));
    let fragment_off = builder.build_mesh(
        None,
        module_stage(2, "mesh", time_layout()),
        module_stage(3, "fragment", vec![entry(0, BindingKind::Texture)]),
        TextureFormat::Bgra8UnormSrgb,
        &mut calls,
    );
    assert_eq!(fragment_off, Err(BuildError::LayoutMismatch));
    assert!(calls.is_empty());
}

#[test]
fn mesh_build_with_and_without_task_stage() {
    let only_mesh = CapabilitySet::empty().with(Feature::MeshShader);
    let builder = PipelineBuilder::new(only_mesh, BindGroupLayout { entries: time_layout() });
    let mut calls = vec![];
    let with_task = builder.build_mesh(
        Some(module_stage(1, "task", time_layout())),
        module_stage(2, "mesh", time_layout()),
        module_stage(3, "fragment", time_layout()),
        TextureFormat::Bgra8UnormSrgb,
        &mut calls,
    );
    assert_eq!(
        with_task,
        Ok(Pipeline::MeshShading {
            task: Some(module_stage(1, "task", time_layout())),
            mesh: module_stage(2, "mesh", time_layout()),
            fragment: module_stage(3, "fragment", time_layout()),
            color_target: TextureFormat::Bgra8UnormSrgb,
        })
    );
    assert_eq!(
        calls,
        vec![
            Action::CreateShaderModule { module: 1 },
            Action::CreateShaderModule { module: 2 },
            Action::CreateShaderModule { module: 3 },
            Action::CreateBindGroupLayout,
            Action::CreatePipelineLayout,
            Action::CreatePipeline,
        ]
    );
    let mut later = vec![];
    let without_task = builder.build_mesh(
        None,
        module_stage(2, "mesh", time_layout()),
        module_stage(3, "fragment", time_layout()),
        TextureFormat::Bgra8UnormSrgb,
        &mut later,
    );
    assert_eq!(
        without_task,
        Ok(Pipeline::MeshShading {
            task: None,
            mesh: module_stage(2, "mesh", time_layout()),
            fragment: module_stage(3, "fragment", time_layout()),
            color_target: TextureFormat::Bgra8UnormSrgb,
        })
    );
    assert_eq!(
        later,
        vec![
            Action::CreateShaderModule { module: 2 },
            Action::CreateShaderModule { module: 3 },
            Action::CreateBindGroupLayout,
            Action::CreatePipelineLayout,
            Action::CreatePipeline,
        ]
    );
    assert_eq!(builder.into_layout().entries, time_layout());
}

#[test]
fn uniform_is_created_and_updated_in_place() {
    let mut binder = ResourceBinder::new();
    assert_eq!(binder.buffer_count(), 0);
    let first = binder.create_uniform(vec![1, 2, 3, 4]);
    let second = binder.create_uniform(vec![]);
    assert_eq!((first, second), (BufferHandle(0), BufferHandle(1)));
    assert_eq!(binder.buffer_count(), 2);
    assert_eq!(binder.buffer(first), Some(&Buffer::Uniform { bytes: vec![1, 2, 3, 4] }));
    assert_eq!(binder.update_uniform(first, vec![9, 8, 7, 6]), Ok(()));
    assert_eq!(binder.buffer(first), Some(&Buffer::Uniform { bytes: vec![9, 8, 7, 6] }));
    assert_eq!(binder.buffer(second), Some(&Buffer::Uniform { bytes: vec![] }));
    assert_eq!(binder.update_uniform(second, vec![]), Ok(()));
    assert_eq!(binder.buffer(BufferHandle(2)), None);
}

#[test]
fn uniform_update_of_the_wrong_size_is_refused() {
    let mut binder = ResourceBinder::new();
    let handle = binder.create_uniform(vec![1, 2, 3, 4]);
    assert_eq!(binder.update_uniform(handle, vec![1, 2, 3]), Err(BindError::SizeMismatch));
    assert_eq!(binder.update_uniform(handle, vec![1, 2, 3, 4, 5]), Err(BindError::SizeMismatch));
    assert_eq!(binder.update_uniform(handle, vec![]), Err(BindError::SizeMismatch));
    assert_eq!(binder.buffer(handle), Some(&Buffer::Uniform { bytes: vec![1, 2, 3, 4] }));
}

#[test]
fn only_uniform_buffers_take_updates() {
    let mut binder = ResourceBinder::new();
    let vertices = binder.create_vertex_buffer(vec![Vertex { x: 1, y: 2, z: 3, u: 4, v: 5 }]);
    let indices = binder.create_index_buffer(vec![0, 1]);
    assert_eq!(binder.update_uniform(vertices, vec![0; 20]), Err(BindError::NotWritable));
    assert_eq!(binder.update_uniform(indices, vec![0; 4]), Err(BindError::NotWritable));
    assert_eq!(binder.update_uniform(BufferHandle(2), vec![]), Err(BindError::UnknownBuffer));
    assert_eq!(
        binder.update_uniform(BufferHandle(usize::MAX), vec![1]),
        Err(BindError::UnknownBuffer)
    );
    assert_eq!(
        binder.buffer(vertices),
        Some(&Buffer::Vertices { vertices: vec![Vertex { x: 1, y: 2, z: 3, u: 4, v: 5 }] })
    );
}

#[test]
fn index_buffer_keeps_indices_and_their_bytes() {
    let mut binder = ResourceBinder::new();
    let indices: Vec<u16> = vec![0, 1, 2, 0, 2, 3, 0x1234, 0xffff];
    let handle = binder.create_index_buffer(indices.clone());
    let mut bytes = Vec::new();
    for index in &indices {
        bytes.extend_from_slice(&index.to_ne_bytes());
    }
    assert_eq!(bytes.len(), 16);
    assert_eq!(binder.buffer(handle), Some(&Buffer::Indices { indices, bytes }));
}

#[test]
fn index_bytes_are_in_one_of_the_two_byte_orders() {
    let mut binder = ResourceBinder::new();
    let handle = binder.create_index_buffer(vec![0x0102, 0x0304]);
    let low_first = vec![0x02, 0x01, 0x04, 0x03];
    let high_first = vec![0x01, 0x02, 0x03, 0x04];
    match binder.buffer(handle) {
        Some(Buffer::Indices { bytes, .. }) => {
            assert!(*bytes == low_first || *bytes == high_first);
        }
        _ => panic!("the handle names an index buffer"),
    }
    let empty = binder.create_index_buffer(vec![]);
    assert_eq!(
        binder.buffer(empty),
        Some(&Buffer::Indices { indices: vec![], bytes: vec![] })
    );
}

#[test]
fn vertex_buffer_is_rebuilt_in_place() {
    let mut binder = ResourceBinder::new();
    let uniform = binder.create_uniform(vec![0; 4]);
    let handle = binder.create_vertex_buffer(vec![]);
    let corner = Vertex { x: -7, y: -20, z: 50, u: 0, v: 0 };
    assert!(binder.rebuild_vertex_buffer(handle, vec![corner]));
    assert_eq!(binder.buffer(handle), Some(&Buffer::Vertices { vertices: vec![corner] }));
    assert!(!binder.rebuild_vertex_buffer(uniform, vec![corner]));
    assert!(!binder.rebuild_vertex_buffer(BufferHandle(2), vec![corner]));
    assert_eq!(binder.buffer(uniform), Some(&Buffer::Uniform { bytes: vec![0; 4] }));
    assert_eq!(binder.buffer_count(), 2);
}

#[test]
fn textures_are_numbered_in_order() {
    let mut binder = ResourceBinder::new();
    assert_eq!(binder.create_texture(40), TextureHandle(0));
    assert_eq!(binder.create_texture(41), TextureHandle(1));
    assert_eq!(binder.create_texture(40), TextureHandle(2));
    assert_eq!(binder.texture_count(), 3);
    assert_eq!(binder.texture(TextureHandle(1)), Some(41));
    assert_eq!(binder.texture(TextureHandle(2)), Some(40));
    assert_eq!(binder.texture(TextureHandle(3)), None);
    assert_eq!(binder.buffer_count(), 0);
}

#[test]
fn bind_sets_share_resources_and_layout() {
    let mut binder = ResourceBinder::new();
    let uniform = binder.create_uniform(vec![0; 4]);
    let layout = BindGroupLayout { entries: time_layout() };
    let one = binder.create_texture_binding(&layout, vec![ResourceRef::Buffer(uniform)]);
    let other = binder.create_texture_binding(&layout, vec![ResourceRef::Buffer(uniform)]);
    assert_eq!(one.layout(), &time_layout());
    assert_eq!(one.resources(), &vec![ResourceRef::Buffer(uniform)]);
    assert_eq!(one, other);
    let views = vec![
        ResourceRef::TextureView(TextureHandle(0)),
        ResourceRef::Sampler(TextureHandle(0)),
    ];
    let textured = binder.create_texture_binding(
        &BindGroupLayout {
            entries: vec![entry(0, BindingKind::Texture), entry(1, BindingKind::Sampler)],
        },
        views.clone(),
    );
    assert_eq!(textured.resources(), &views);
    assert_eq!(
        textured.layout(),
        &vec![entry(0, BindingKind::Texture), entry(1, BindingKind::Sampler)]
    );
}

#[test]
fn depth_target_has_the_size_of_the_surface() {
    let config = SurfaceConfig {
        format: TextureFormat::Bgra8Unorm,
        width: 640,
        height: 1,
        present_mode: PresentMode::Fifo,
    };
    assert_eq!(
        DepthTarget::create(&config),
        DepthTarget { width: 640, height: 1, format: TextureFormat::Depth32Float }
    );
}

#[test]
fn encoder_keeps_the_order_of_recording() {
    let mut encoder = CommandEncoder::new();
    encoder.record(Command::BeginPass { color: LoadOp::Load, depth: true });
    encoder.record(Command::Draw { vertices: 3 });
    encoder.record(Command::EndPass);
    assert_eq!(
        encoder.finish(),
        vec![
            Command::BeginPass { color: LoadOp::Load, depth: true },
            Command::Draw { vertices: 3 },
            Command::EndPass,
        ]
    );
    assert_eq!(CommandEncoder::new().finish(), vec![]);
}

#[test]
fn compositor_sets_up_resizes_and_renders() {
    let config = SurfaceConfig {
        format: TextureFormat::Bgra8Unorm,
        width: 800,
        height: 600,
        present_mode: PresentMode::Fifo,
    };
    let mut binder = ResourceBinder::new();
    binder.create_uniform(vec![0; 4]);
    let mut calls = vec![Action::RequestRedraw];
    let mut compositor = DepthCompositor::new(&config, &mut binder, &mut calls);
    assert_eq!(
        calls,
        vec![
            Action::RequestRedraw,
            Action::CreateDepthTarget { width: 800, height: 600 },
            Action::CreateBuffer { buffer: BufferHandle(1) },
            Action::CreateBuffer { buffer: BufferHandle(2) },
            Action::CreateOverlayPipeline,
            Action::CreateBindSet { set: BindSlot::Overlay },
        ]
    );
    assert_eq!(
        compositor.target(),
        DepthTarget { width: 800, height: 600, format: TextureFormat::Depth32Float }
    );
    assert_eq!(
        binder.buffer(BufferHandle(1)),
        Some(&Buffer::Vertices {
            vertices: vec![
                Vertex { x: -100, y: -100, z: 0, u: 0, v: 100 },
                Vertex { x: 100, y: -100, z: 0, u: 100, v: 100 },
                Vertex { x: 100, y: 100, z: 0, u: 100, v: 0 },
                Vertex { x: -100, y: 100, z: 0, u: 0, v: 0 },
            ]
        })
    );
    match binder.buffer(BufferHandle(2)) {
        Some(Buffer::Indices { indices, bytes }) => {
            assert_eq!(indices, &vec![0, 1, 2, 0, 2, 3]);
            assert_eq!(bytes.len(), 12);
        }
        _ => panic!("the compositor made an index buffer"),
    }
    assert_eq!(
        compositor.bind_set().layout(),
        &vec![entry(0, BindingKind::Texture), entry(1, BindingKind::Sampler)]
    );
    assert_eq!(
        compositor.bind_set().resources(),
        &vec![ResourceRef::DepthView, ResourceRef::DepthSampler]
    );

    let small = SurfaceConfig { width: 1, height: 1, ..config };
    let mut later = vec![];
    compositor.resize(&small, &binder, &mut later);
    assert_eq!(
        later,
        vec![
            Action::CreateDepthTarget { width: 1, height: 1 },
            Action::CreateBindSet { set: BindSlot::Overlay },
        ]
    );
    assert_eq!(
        compositor.target(),
        DepthTarget { width: 1, height: 1, format: TextureFormat::Depth32Float }
    );
    assert_eq!(binder.buffer_count(), 3);

    let mut encoder = CommandEncoder::new();
    encoder.record(Command::EndPass);
    compositor.render(&mut encoder);
    assert_eq!(
        encoder.finish(),
        vec![
            Command::EndPass,
            Command::BeginPass { color: LoadOp::Load, depth: false },
            Command::SetPipeline { pipeline: PipelineSlot::Overlay },
            Command::SetBindGroup { index: 0, set: BindSlot::Overlay },
            Command::SetVertexBuffer { slot: 0, buffer: BufferHandle(1) },
            Command::SetIndexBuffer { buffer: BufferHandle(2) },
            Command::DrawIndexed { indices: 6 },
            Command::EndPass,
        ]
    );
}

#[test]
fn quad_indices_are_two_triangles() {
    assert_eq!(quad_index_list(), vec![0, 1, 2, 0, 2, 3]);
}

#[test]
fn moving_quad_steps_left_and_starts_over() {
    assert_eq!(PERIOD, 100);
    let mut quad = MovingQuad::new();
    assert_eq!(quad.position(), 0);
    assert_eq!(quad.x_offset(), 0);
    quad.advance();
    assert_eq!(quad.position(), 1);
    assert_eq!(quad.x_offset(), -1);
    for _ in 0..98 {
        quad.advance();
    }
    assert_eq!(quad.position(), 99);
    assert_eq!(quad.x_offset(), -99);
    quad.advance();
    assert_eq!(quad.position(), 0);
    assert_eq!(quad.x_offset(), 0);
}

#[test]
fn moving_quad_corners_follow_the_offset() {
    let mut quad = MovingQuad::new();
    assert_eq!(
        quad.vertices(),
        vec![
            Vertex { x: 0, y: -20, z: 50, u: 0, v: 0 },
            Vertex { x: 0, y: -70, z: 50, u: 0, v: 100 },
            Vertex { x: 50, y: -70, z: 50, u: 100, v: 100 },
            Vertex { x: 50, y: -20, z: 50, u: 100, v: 0 },
        ]
    );
    for _ in 0..75 {
        quad.advance();
    }
    assert_eq!(
        quad.vertices(),
        vec![
            Vertex { x: -75, y: -20, z: 50, u: 0, v: 0 },
            Vertex { x: -75, y: -70, z: 50, u: 0, v: 100 },
            Vertex { x: -25, y: -70, z: 50, u: 100, v: 100 },
            Vertex { x: -25, y: -20, z: 50, u: 100, v: 0 },
        ]
    );
}
