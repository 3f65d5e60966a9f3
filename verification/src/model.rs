//! The frame loop as mathematics: what it holds in each state, and what
//! each transition makes of it. The contracts of the frame loop say
//! that the code does exactly this.

use crate::backend::{Action, BindSlot, Color, Command, FatalError, LoadOp, PipelineSlot};
use crate::binder::{
    update_verdict, BindError, BindSetView, BinderView, BufferHandle, BufferView, ResourceRef,
    TextureHandle,
};
use crate::capability::Feature;
use crate::compositor::{
    compositor_calls, compositor_for, overlay_pass, quad_indices, retarget_calls, target_for,
    with_overlay_buffers, CompositorView, DepthTarget,
};
use crate::context::{initialization, GraphicsContext};
use crate::motion::{next_position, quad_at, PERIOD};
use crate::pipeline::{
    classic_build, classic_calls, mesh_build, mesh_calls, BuildError, LayoutEntry, Pipeline,
};
use crate::scene::{
    Acquisition, Content, DrawPlan, Event, Key, LoopState, Program, SceneDescription, Startup,
    WindowEvent,
};
use crate::surface::{first_config, resized_config, SurfaceConfig, TextureFormat};
use vstd::prelude::*;

verus! {

/// What the frame loop holds while it is ready or rendering.
pub struct Model {
    pub context: GraphicsContext,
    pub config: SurfaceConfig,
    pub pipeline: Pipeline,
    pub binder: BinderView,
    /// The bind sets of the scene; commands name them by position.
    pub bind_sets: Seq<BindSetView>,
    pub plan: DrawPlan,
    /// The per-frame uniform, if the program has one.
    pub uniform: Option<BufferHandle>,
    pub clear: Color,
    /// Whether the scene pass tests depth.
    pub depth_test: bool,
    /// The depth target, where the loop keeps it itself.
    pub depth_target: Option<DepthTarget>,
    /// The depth compositor, which then keeps the depth target.
    pub compositor: Option<CompositorView>,
    /// Where the moving quad is.
    pub position: nat,
}

/// The frame loop in each of its states.
pub enum LoopView {
    Uninitialized(SceneDescription),
    Ready(Model),
    Rendering(Model),
    Closed,
}

impl LoopView {
    /// The state, without what is held in it.
    pub open spec fn state(self) -> LoopState {
        match self {
            LoopView::Uninitialized(_) => LoopState::Uninitialized,
            LoopView::Ready(_) => LoopState::Ready,
            LoopView::Rendering(_) => LoopState::Rendering,
            LoopView::Closed => LoopState::Closed,
        }
    }

    /// What is held, in the two states that hold something.
    pub open spec fn model(self) -> Option<Model> {
        match self {
            LoopView::Ready(held) => Some(held),
            LoopView::Rendering(held) => Some(held),
            _ => None,
        }
    }

    /// The configuration of the surface, while the loop runs.
    pub open spec fn config(self) -> Option<SurfaceConfig> {
        match self.model() {
            Some(held) => Some(held.config),
            None => None,
        }
    }

    /// The context, while the loop runs.
    pub open spec fn context(self) -> Option<GraphicsContext> {
        match self.model() {
            Some(held) => Some(held.context),
            None => None,
        }
    }

    /// How the scene is drawn, while the loop runs.
    pub open spec fn plan(self) -> Option<DrawPlan> {
        match self.model() {
            Some(held) => Some(held.plan),
            None => None,
        }
    }
}

impl Model {
    /// The depth target of the surface, whoever keeps it.
    pub open spec fn depth(self) -> Option<DepthTarget> {
        match self.compositor {
            Some(compositor) => Some(compositor.target),
            None => self.depth_target,
        }
    }

    /// The invariant of a running loop. No dimension of the surface is
    /// zero. The depth target, if there is one, is as large as the
    /// surface, and only one of loop and compositor keeps one; a scene
    /// pass that tests depth has one. The quad's position is within
    /// the period. And every handle that the loop keeps names what it
    /// is used as: the uniform's a uniform buffer, those of the plan
    /// and of the compositor vertex and index buffers, the index
    /// buffers with as many indices as are drawn, and the bind sets
    /// name resources that exist.
    pub open spec fn wf(self) -> bool {
        &&& self.config.wf()
        &&& self.position < PERIOD
        &&& self.depth() matches Some(target) ==> target == target_for(self.config)
        &&& self.compositor is Some ==> self.depth_target is None
        &&& self.depth_test ==> self.depth() is Some
        &&& self.uniform matches Some(handle) ==> holds_uniform(self.binder, handle)
        &&& plan_lives(self.binder, self.plan)
        &&& self.compositor matches Some(compositor) ==> holds_vertices(
            self.binder,
            compositor.vertex_buffer,
        ) && holds_indices(self.binder, compositor.index_buffer, 6) && set_lives(
            self.binder,
            true,
            compositor.bind_set,
        )
        &&& forall|i: int|
            0 <= i < self.bind_sets.len() ==> set_lives(
                self.binder,
                self.depth() is Some,
                #[trigger] self.bind_sets[i],
            )
    }
}

/// Whether what a loop holds, if it holds anything, meets the
/// invariant.
pub open spec fn sound(view: LoopView) -> bool {
    view.model() matches Some(held) ==> held.wf()
}

/// Whether the handle names a uniform buffer of the binder.
pub open spec fn holds_uniform(binder: BinderView, handle: BufferHandle) -> bool {
    handle.0 < binder.buffers.len() && binder.buffers[handle.0 as int] is Uniform
}

/// Whether the handle names a vertex buffer of the binder.
pub open spec fn holds_vertices(binder: BinderView, handle: BufferHandle) -> bool {
    handle.0 < binder.buffers.len() && binder.buffers[handle.0 as int] is Vertices
}

/// Whether the handle names an index buffer of the binder that holds
/// `count` indices.
pub open spec fn holds_indices(binder: BinderView, handle: BufferHandle, count: int) -> bool {
    handle.0 < binder.buffers.len() && (binder.buffers[handle.0 as int] matches BufferView::Indices {
        indices,
    } && indices.len() == count)
}

/// Whether the buffers that the plan draws from exist, each of its
/// kind, and the index buffers hold as many indices as are drawn.
pub open spec fn plan_lives(binder: BinderView, plan: DrawPlan) -> bool {
    match plan {
        DrawPlan::Generated { .. } => true,
        DrawPlan::MeshTasks { .. } => true,
        DrawPlan::Quad { vertex_buffer, index_buffer, indices } => holds_vertices(
            binder,
            vertex_buffer,
        ) && holds_indices(binder, index_buffer, indices as int),
        DrawPlan::Layered {
            vertex_buffer,
            index_buffer,
            indices,
            mover_vertex_buffer,
            mover_index_buffer,
        } => holds_vertices(binder, vertex_buffer) && holds_indices(
            binder,
            index_buffer,
            indices as int,
        ) && holds_vertices(binder, mover_vertex_buffer) && holds_indices(
            binder,
            mover_index_buffer,
            6,
        ),
    }
}

/// Whether the resource exists: a buffer or a texture in the binder,
/// view and sampler of the depth target where there is one.
pub open spec fn resource_lives(binder: BinderView, depth: bool, resource: ResourceRef) -> bool {
    match resource {
        ResourceRef::Buffer(handle) => handle.0 < binder.buffers.len(),
        ResourceRef::TextureView(handle) => handle.0 < binder.textures.len(),
        ResourceRef::Sampler(handle) => handle.0 < binder.textures.len(),
        ResourceRef::DepthView => depth,
        ResourceRef::DepthSampler => depth,
    }
}

/// Whether every resource that the bind set names exists.
pub open spec fn set_lives(binder: BinderView, depth: bool, set: BindSetView) -> bool {
    forall|j: int|
        0 <= j < set.resources.len() ==> resource_lives(binder, depth, #[trigger] set.resources[j])
}

// ---------------------------------------------------------------------
// Startup
// ---------------------------------------------------------------------

/// The handle of the buffer at `place`.
pub open spec fn buffer_at(place: int) -> BufferHandle {
    BufferHandle(place as usize)
}

/// The calls that create `count` textures from handle `first` on.
pub open spec fn texture_calls(first: int, count: int) -> Seq<Action> {
    Seq::new(
        count as nat,
        |i: int| Action::CreateTexture { texture: TextureHandle((first + i) as usize) },
    )
}

/// View and sampler of each of `count` textures from handle `first` on.
pub open spec fn texture_views(first: int, count: int) -> Seq<ResourceRef> {
    Seq::new(
        (2 * count) as nat,
        |i: int|
            if i % 2 == 0 {
                ResourceRef::TextureView(TextureHandle((first + i / 2) as usize))
            } else {
                ResourceRef::Sampler(TextureHandle((first + i / 2) as usize))
            },
    )
}

/// What a bind set of the scene binds: the uniform, if there is one,
/// then view and sampler of each texture.
pub open spec fn scene_resources(uniform: Option<BufferHandle>, first: int, count: int) -> Seq<
    ResourceRef,
> {
    (match uniform {
        Some(handle) => seq![ResourceRef::Buffer(handle)],
        None => Seq::<ResourceRef>::empty(),
    }) + texture_views(first, count)
}

/// The uniform of a scene is its first buffer.
pub open spec fn uniform_slot(uniform: Option<Vec<u8>>) -> Option<BufferHandle> {
    match uniform {
        Some(_) => Some(buffer_at(0)),
        None => None,
    }
}

/// How many buffers stand before those of the content.
pub open spec fn content_base(uniform: Option<Vec<u8>>) -> int {
    match uniform {
        Some(_) => 1,
        None => 0,
    }
}

/// The buffer of the uniform, where there is one.
pub open spec fn uniform_buffers(uniform: Option<Vec<u8>>) -> Seq<BufferView> {
    match uniform {
        Some(bytes) => seq![BufferView::Uniform { bytes: bytes@ }],
        None => Seq::<BufferView>::empty(),
    }
}

/// The buffers of the content: of a mesh its corners and indices; of
/// the moving quad its indices, and its corners at the start.
pub open spec fn content_buffers(content: Content) -> Seq<BufferView> {
    match content {
        Content::Generated { .. } => Seq::<BufferView>::empty(),
        Content::Quad { corners, indices } => seq![
            BufferView::Vertices { vertices: corners@ },
            BufferView::Indices { indices: indices@ },
        ],
        Content::Layered { corners, indices, .. } => seq![
            BufferView::Vertices { vertices: corners@ },
            BufferView::Indices { indices: indices@ },
            BufferView::Indices { indices: quad_indices() },
            BufferView::Vertices { vertices: quad_at(0) },
        ],
    }
}

/// The textures of the foreground, where there is one.
pub open spec fn foreground_textures(content: Content) -> Seq<u32> {
    match content {
        Content::Layered { foreground_textures, .. } => foreground_textures@,
        _ => Seq::<u32>::empty(),
    }
}

/// How the content is drawn, its buffers standing from `base` on.
pub open spec fn content_plan(content: Content, base: int) -> DrawPlan {
    match content {
        Content::Generated { vertices } => DrawPlan::Generated { vertices },
        Content::Quad { corners, indices } => DrawPlan::Quad {
            vertex_buffer: buffer_at(base),
            index_buffer: buffer_at(base + 1),
            indices: indices@.len() as usize,
        },
        Content::Layered { corners, indices, .. } => DrawPlan::Layered {
            vertex_buffer: buffer_at(base),
            index_buffer: buffer_at(base + 1),
            indices: indices@.len() as usize,
            mover_index_buffer: buffer_at(base + 2),
            mover_vertex_buffer: buffer_at(base + 3),
        },
    }
}

/// The calls that bring the content into being. The textures of the
/// scene number `textures`; `bound` says whether the pipeline binds
/// anything.
pub open spec fn content_calls(content: Content, base: int, textures: int, bound: bool) -> Seq<
    Action,
> {
    match content {
        Content::Generated { .. } => Seq::<Action>::empty(),
        Content::Quad { .. } => seq![
            Action::CreateBuffer { buffer: buffer_at(base) },
            Action::CreateBuffer { buffer: buffer_at(base + 1) },
        ],
        Content::Layered { foreground_textures, .. } => seq![
            Action::CreateBuffer { buffer: buffer_at(base) },
            Action::CreateBuffer { buffer: buffer_at(base + 1) },
        ] + texture_calls(textures, foreground_textures@.len() as int) + (if bound {
            seq![Action::CreateBindSet { set: BindSlot::Scene(1) }]
        } else {
            Seq::<Action>::empty()
        }) + seq![
            Action::CreateBuffer { buffer: buffer_at(base + 2) },
            Action::CreateBuffer { buffer: buffer_at(base + 3) },
        ],
    }
}

/// What the program of a scene draws, if it is a classic one.
pub open spec fn content_of(program: Program) -> Option<Content> {
    match program {
        Program::Classic { content, .. } => Some(content),
        Program::MeshShading { .. } => None,
    }
}

/// The depth format of the pipeline, if it has one.
pub open spec fn depth_format_of(program: Program) -> Option<TextureFormat> {
    match program {
        Program::Classic { depth_format, .. } => depth_format,
        Program::MeshShading { .. } => None,
    }
}

/// The pipeline that the program builds for a device with
/// `capabilities`, binding `layout` and drawing to `color_target`.
pub open spec fn program_build(
    capabilities: Set<Feature>,
    layout: Seq<LayoutEntry>,
    program: Program,
    color_target: TextureFormat,
) -> Result<Pipeline, BuildError> {
    match program {
        Program::Classic { vertex, fragment, vertex_buffers, depth_format, .. } => classic_build(
            layout,
            vertex,
            fragment,
            vertex_buffers,
            color_target,
            depth_format,
        ),
        Program::MeshShading { task, mesh, fragment, .. } => mesh_build(
            capabilities,
            layout,
            task,
            mesh,
            fragment,
            color_target,
        ),
    }
}

/// The pipeline that the program builds on `context`, binding `layout`:
/// it draws to the format of the surface.
pub open spec fn built(context: GraphicsContext, layout: Seq<LayoutEntry>, program: Program)
    -> Result<Pipeline, BuildError> {
    program_build(context.spec_features()@, layout, program, context.spec_format())
}

/// The calls of that build, where it succeeds.
pub open spec fn build_calls(layout: Seq<LayoutEntry>, program: Program) -> Seq<Action> {
    match program {
        Program::Classic { vertex, fragment, .. } => classic_calls(layout, vertex, fragment),
        Program::MeshShading { task, mesh, fragment, .. } => mesh_calls(
            layout,
            task,
            mesh,
            fragment,
        ),
    }
}

/// What the binder holds for the scene, before a compositor adds its
/// buffers.
pub open spec fn scene_binder(
    uniform: Option<Vec<u8>>,
    textures: Seq<u32>,
    content: Option<Content>,
) -> BinderView {
    BinderView {
        buffers: uniform_buffers(uniform) + (match content {
            Some(content) => content_buffers(content),
            None => Seq::<BufferView>::empty(),
        }),
        textures: textures + (match content {
            Some(content) => foreground_textures(content),
            None => Seq::<u32>::empty(),
        }),
    }
}

/// The bind sets of the scene: none where the layout has no slots;
/// else one for the scene, and one for the foreground where there is
/// one.
pub open spec fn scene_bind_sets(
    layout: Seq<LayoutEntry>,
    uniform: Option<Vec<u8>>,
    textures: int,
    content: Option<Content>,
) -> Seq<BindSetView> {
    if layout.len() == 0 {
        Seq::<BindSetView>::empty()
    } else {
        seq![
            BindSetView { layout, resources: scene_resources(uniform_slot(uniform), 0, textures) },
        ] + (match content {
            Some(Content::Layered { foreground_textures, .. }) => seq![
                BindSetView {
                    layout,
                    resources: scene_resources(
                        uniform_slot(uniform),
                        textures,
                        foreground_textures@.len() as int,
                    ),
                },
            ],
            _ => Seq::<BindSetView>::empty(),
        })
    }
}

/// How the scene is drawn.
pub open spec fn scene_plan(uniform: Option<Vec<u8>>, program: Program) -> DrawPlan {
    match program {
        Program::Classic { content, .. } => content_plan(content, content_base(uniform)),
        Program::MeshShading { groups, .. } => DrawPlan::MeshTasks { groups },
    }
}

/// What a loop holds that has just come up with `pipeline`.
pub open spec fn ready_model(
    scene: SceneDescription,
    context: GraphicsContext,
    pipeline: Pipeline,
    width: u32,
    height: u32,
) -> Model {
    let config = first_config(context, width, height);
    let binder = scene_binder(scene.uniform, scene.textures@, content_of(scene.program));
    Model {
        context,
        config,
        pipeline,
        binder: if scene.overlay {
            with_overlay_buffers(binder)
        } else {
            binder
        },
        bind_sets: scene_bind_sets(
            scene.layout@,
            scene.uniform,
            scene.textures@.len() as int,
            content_of(scene.program),
        ),
        plan: scene_plan(scene.uniform, scene.program),
        uniform: uniform_slot(scene.uniform),
        clear: scene.clear,
        depth_test: depth_format_of(scene.program) is Some,
        depth_target: if !scene.overlay && depth_format_of(scene.program) is Some {
            Some(target_for(config))
        } else {
            None
        },
        compositor: if scene.overlay {
            Some(compositor_for(config, binder))
        } else {
            None
        },
        position: 0,
    }
}

/// The calls that bring the resources of the scene into being, in
/// order: the uniform, the textures, the bind set, the content.
pub open spec fn resource_calls(
    layout: Seq<LayoutEntry>,
    uniform: Option<Vec<u8>>,
    textures: int,
    content: Option<Content>,
) -> Seq<Action> {
    (match uniform {
        Some(_) => seq![Action::CreateBuffer { buffer: buffer_at(0) }],
        None => Seq::<Action>::empty(),
    }) + texture_calls(0, textures) + (if layout.len() == 0 {
        Seq::<Action>::empty()
    } else {
        seq![Action::CreateBindSet { set: BindSlot::Scene(0) }]
    }) + (match content {
        Some(content) => content_calls(content, content_base(uniform), textures, layout.len() != 0),
        None => Seq::<Action>::empty(),
    })
}

/// The calls that bring the depth target into being, with or without
/// a compositor; none where the program uses no depth.
pub open spec fn depth_calls(held: Model) -> Seq<Action> {
    match held.compositor {
        Some(compositor) => compositor_calls(compositor),
        None => match held.depth_target {
            Some(target) => seq![
                Action::CreateDepthTarget { width: target.width, height: target.height },
            ],
            None => Seq::<Action>::empty(),
        },
    }
}

/// What the window's coming up makes of a loop that was made with
/// `scene`: a running loop, or on the first obstacle a closed one.
pub open spec fn resumed_view(scene: SceneDescription, startup: Startup) -> LoopView {
    match initialization(startup.adapter, scene.required, startup.device) {
        Err(_) => LoopView::Closed,
        Ok(context) => match built(context, scene.layout@, scene.program) {
            Err(_) => LoopView::Closed,
            Ok(pipeline) => LoopView::Ready(
                ready_model(scene, context, pipeline, startup.width, startup.height),
            ),
        },
    }
}

/// The calls that go with it. A startup that fails asks nothing of the
/// backend: it names the obstacle and leaves.
pub open spec fn resumed_calls(scene: SceneDescription, startup: Startup) -> Seq<Action> {
    match initialization(startup.adapter, scene.required, startup.device) {
        Err(e) => seq![Action::Fatal { error: FatalError::Init(e) }, Action::Exit],
        Ok(context) => match built(context, scene.layout@, scene.program) {
            Err(e) => seq![Action::Fatal { error: FatalError::Build(e) }, Action::Exit],
            Ok(pipeline) => {
                let held = ready_model(scene, context, pipeline, startup.width, startup.height);
                seq![Action::ConfigureSurface { config: held.config }] + build_calls(
                    scene.layout@,
                    scene.program,
                ) + resource_calls(
                    scene.layout@,
                    scene.uniform,
                    scene.textures@.len() as int,
                    content_of(scene.program),
                ) + depth_calls(held)
            },
        },
    }
}

// ---------------------------------------------------------------------
// A frame
// ---------------------------------------------------------------------

/// The draws of the scene pass. `foreground_bound` says whether the
/// foreground has a bind set of its own.
pub open spec fn draw_commands(plan: DrawPlan, foreground_bound: bool) -> Seq<Command> {
    match plan {
        DrawPlan::Generated { vertices } => seq![Command::Draw { vertices }],
        DrawPlan::Quad { vertex_buffer, index_buffer, indices } => seq![
            Command::SetVertexBuffer { slot: 0, buffer: vertex_buffer },
            Command::SetIndexBuffer { buffer: index_buffer },
            Command::DrawIndexed { indices },
        ],
        DrawPlan::Layered {
            vertex_buffer,
            index_buffer,
            indices,
            mover_vertex_buffer,
            mover_index_buffer,
        } => seq![
            Command::SetVertexBuffer { slot: 0, buffer: vertex_buffer },
            Command::SetIndexBuffer { buffer: index_buffer },
            Command::DrawIndexed { indices },
        ] + (if foreground_bound {
            seq![Command::SetBindGroup { index: 0, set: BindSlot::Scene(1) }]
        } else {
            Seq::<Command>::empty()
        }) + seq![
            Command::SetVertexBuffer { slot: 0, buffer: mover_vertex_buffer },
            Command::SetIndexBuffer { buffer: mover_index_buffer },
            Command::DrawIndexed { indices: 6 },
        ],
        DrawPlan::MeshTasks { groups } => seq![
            Command::DrawMeshTasks { x: groups.x, y: groups.y, z: groups.z },
        ],
    }
}

/// The scene pass: it clears the view, binds the pipeline and the bind
/// set of the scene, and draws.
pub open spec fn scene_pass(held: Model) -> Seq<Command> {
    seq![
        Command::BeginPass { color: LoadOp::Clear(held.clear), depth: held.depth_test },
        Command::SetPipeline { pipeline: PipelineSlot::Scene },
    ] + (if held.bind_sets.len() > 0 {
        seq![Command::SetBindGroup { index: 0, set: BindSlot::Scene(0) }]
    } else {
        Seq::<Command>::empty()
    }) + draw_commands(held.plan, held.bind_sets.len() > 1) + seq![Command::EndPass]
}

/// The command buffer of a frame: the scene pass and then, where there
/// is a compositor, its overlay pass.
pub open spec fn frame_commands(held: Model) -> Seq<Command> {
    scene_pass(held) + (match held.compositor {
        Some(compositor) => overlay_pass(compositor),
        None => Seq::<Command>::empty(),
    })
}

/// Whether a frame with this value of the uniform can be drawn: the
/// value must have the size of the uniform, where there is one.
pub open spec fn frame_verdict(held: Model, elapsed: Seq<u8>) -> Result<(), BindError> {
    match held.uniform {
        Some(handle) => update_verdict(held.binder, handle, elapsed),
        None => Ok(()),
    }
}

/// What the loop holds after a frame: the uniform holds the value of
/// this frame, and the moving quad has moved a step on and has its
/// corners where it now is.
pub open spec fn frame_model(held: Model, elapsed: Seq<u8>) -> Model {
    let written = match held.uniform {
        Some(handle) => held.binder.buffers.update(
            handle.0 as int,
            BufferView::Uniform { bytes: elapsed },
        ),
        None => held.binder.buffers,
    };
    match held.plan {
        DrawPlan::Layered { mover_vertex_buffer, .. } => Model {
            binder: BinderView {
                buffers: written.update(
                    mover_vertex_buffer.0 as int,
                    BufferView::Vertices { vertices: quad_at(next_position(held.position)) },
                ),
                ..held.binder
            },
            position: next_position(held.position),
            ..held
        },
        _ => Model { binder: BinderView { buffers: written, ..held.binder }, ..held },
    }
}

/// The calls of a frame, in order: the uniform is written, the moving
/// quad's buffer is made anew, the command buffer is submitted, the
/// image is presented.
pub open spec fn frame_actions(held: Model) -> Seq<Action> {
    (match held.uniform {
        Some(handle) => seq![Action::WriteBuffer { buffer: handle }],
        None => Seq::<Action>::empty(),
    }) + (match held.plan {
        DrawPlan::Layered { mover_vertex_buffer, .. } => seq![
            Action::CreateBuffer { buffer: mover_vertex_buffer },
        ],
        _ => Seq::<Action>::empty(),
    }) + seq![Action::Submit, Action::Present]
}

/// What the outcome of an acquisition makes of a rendering loop: on
/// an image, a ready loop after the frame, or a closed one where the
/// value of the uniform has the wrong size; on none, the loop as it
/// was, ready again.
pub open spec fn acquired_view(held: Model, frame: Acquisition) -> LoopView {
    match frame {
        Acquisition::Failed => LoopView::Ready(held),
        Acquisition::Acquired { elapsed } => match frame_verdict(held, elapsed@) {
            Ok(()) => LoopView::Ready(frame_model(held, elapsed@)),
            Err(_) => LoopView::Closed,
        },
    }
}

/// The calls that go with it.
pub open spec fn acquired_calls(held: Model, frame: Acquisition) -> Seq<Action> {
    match frame {
        Acquisition::Failed => seq![Action::SkipFrame],
        Acquisition::Acquired { elapsed } => match frame_verdict(held, elapsed@) {
            Ok(()) => frame_actions(held),
            Err(e) => fatal_actions(FatalError::Bind(e)),
        },
    }
}

/// The command buffer that goes with it: that of the frame where one
/// is drawn, none otherwise.
pub open spec fn acquired_commands(held: Model, frame: Acquisition) -> Seq<Command> {
    match frame {
        Acquisition::Failed => Seq::<Command>::empty(),
        Acquisition::Acquired { elapsed } => match frame_verdict(held, elapsed@) {
            Ok(()) => frame_commands(held),
            Err(_) => Seq::<Command>::empty(),
        },
    }
}

// ---------------------------------------------------------------------
// Window events
// ---------------------------------------------------------------------

/// Whether the event closes the loop.
pub open spec fn closes(event: WindowEvent) -> bool {
    event == WindowEvent::CloseRequested || event == (WindowEvent::KeyPressed { key: Key::Escape })
}

/// What a window event makes of the loop. Closing closes any loop. A
/// resize and a redraw request count only for a ready loop; anything
/// else leaves the loop as it is.
pub open spec fn window_view(before: LoopView, event: WindowEvent) -> LoopView {
    if closes(event) {
        LoopView::Closed
    } else {
        match (before, event) {
            (LoopView::Ready(held), WindowEvent::Resized { width, height }) => LoopView::Ready(
                resized_model(held, width, height),
            ),
            (LoopView::Ready(held), WindowEvent::RedrawRequested) => LoopView::Rendering(held),
            _ => before,
        }
    }
}

/// The calls that go with it.
pub open spec fn window_calls(before: LoopView, event: WindowEvent) -> Seq<Action> {
    if closes(event) {
        match before {
            LoopView::Uninitialized(_) => seq![Action::Exit],
            LoopView::Ready(_) => closing_actions(),
            LoopView::Rendering(_) => closing_actions(),
            LoopView::Closed => Seq::<Action>::empty(),
        }
    } else {
        match (before, event) {
            (LoopView::Ready(held), WindowEvent::Resized { width, height }) => resize_actions(
                held,
                width,
                height,
            ),
            (LoopView::Ready(held), WindowEvent::RedrawRequested) => seq![Action::AcquireFrame],
            _ => Seq::<Action>::empty(),
        }
    }
}

// ---------------------------------------------------------------------
// The transitions of the loop, whatever its state
// ---------------------------------------------------------------------

/// What the window's coming up makes of the loop: an uninitialized
/// loop comes up or closes; any other stays as it is, for a loop comes
/// up only once.
pub open spec fn started_view(before: LoopView, startup: Startup) -> LoopView {
    match before {
        LoopView::Uninitialized(scene) => resumed_view(scene, startup),
        _ => before,
    }
}

/// The calls that go with it.
pub open spec fn started_calls(before: LoopView, startup: Startup) -> Seq<Action> {
    match before {
        LoopView::Uninitialized(scene) => resumed_calls(scene, startup),
        _ => Seq::<Action>::empty(),
    }
}

/// What the outcome of an acquisition makes of the loop: it counts
/// only for a rendering loop, which alone has asked for an image.
pub open spec fn drawn_view(before: LoopView, frame: Acquisition) -> LoopView {
    match before {
        LoopView::Rendering(held) => acquired_view(held, frame),
        _ => before,
    }
}

/// The calls that go with it.
pub open spec fn drawn_calls(before: LoopView, frame: Acquisition) -> Seq<Action> {
    match before {
        LoopView::Rendering(held) => acquired_calls(held, frame),
        _ => Seq::<Action>::empty(),
    }
}

/// The command buffer that goes with it.
pub open spec fn drawn_commands(before: LoopView, frame: Acquisition) -> Seq<Command> {
    match before {
        LoopView::Rendering(held) => acquired_commands(held, frame),
        _ => Seq::<Command>::empty(),
    }
}

/// The window event that an event other than `Resumed` is.
pub open spec fn window_part(event: Event) -> WindowEvent {
    match event {
        Event::Resized { width, height } => WindowEvent::Resized { width, height },
        Event::KeyPressed { key } => WindowEvent::KeyPressed { key },
        Event::RedrawRequested => WindowEvent::RedrawRequested,
        _ => WindowEvent::CloseRequested,
    }
}

/// What any of the five events makes of the loop.
pub open spec fn event_view(before: LoopView, event: Event) -> LoopView {
    match event {
        Event::Resumed(startup) => started_view(before, startup),
        _ => window_view(before, window_part(event)),
    }
}

/// The calls that go with it.
pub open spec fn event_calls(before: LoopView, event: Event) -> Seq<Action> {
    match event {
        Event::Resumed(startup) => started_calls(before, startup),
        _ => window_calls(before, window_part(event)),
    }
}

// ---------------------------------------------------------------------
// Resize and close
// ---------------------------------------------------------------------

/// What the loop holds after a resize: the new configuration, and a
/// new depth target for it where it had one.
pub open spec fn resized_model(held: Model, width: u32, height: u32) -> Model {
    let config = resized_config(held.config, width, height);
    Model {
        config,
        depth_target: match held.depth_target {
            Some(_) => Some(target_for(config)),
            None => None,
        },
        compositor: match held.compositor {
            Some(compositor) => Some(CompositorView { target: target_for(config), ..compositor }),
            None => None,
        },
        ..held
    }
}

/// The calls of a resize: the surface is configured, the depth target
/// made anew, a redraw requested.
pub open spec fn resize_actions(held: Model, width: u32, height: u32) -> Seq<Action> {
    let after = resized_model(held, width, height);
    seq![Action::ConfigureSurface { config: after.config }] + (match after.compositor {
        Some(compositor) => retarget_calls(compositor.target),
        None => match after.depth_target {
            Some(target) => seq![
                Action::CreateDepthTarget { width: target.width, height: target.height },
            ],
            None => Seq::<Action>::empty(),
        },
    }) + seq![Action::RequestRedraw]
}

/// The calls that close a running loop: the surface goes before the
/// window that it refers to.
pub open spec fn closing_actions() -> Seq<Action> {
    seq![Action::ReleaseSurface, Action::ReleaseWindow, Action::Exit]
}

/// The calls that end a running loop on an error.
pub open spec fn fatal_actions(error: FatalError) -> Seq<Action> {
    seq![Action::Fatal { error }] + closing_actions()
}

} // verus!
