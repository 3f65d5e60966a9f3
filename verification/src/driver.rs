//! The frame loop: a state machine from the events of the window, and
//! from what came of the calls it asked for, to the next state and the
//! calls to make now.
//!
//! The loop has at most one frame in the making. It keeps no fence: it
//! does not wait for the device to finish a frame before it records
//! the next, and leaves the pace to the acquisition of the next image,
//! which waits until the display has one free. So a resize may make
//! the depth target anew while a frame that used the old one is still
//! in flight; the loop accepts that.

use crate::backend::{Action, BindSlot, Color, Command, FatalError, LoadOp, PipelineSlot};
use crate::binder::{set_views, BindSet, BufferHandle, ResourceBinder};
use crate::compositor::{target_for, CommandEncoder, DepthCompositor, DepthTarget};
use crate::context::GraphicsContext;
use crate::model::{
    acquired_calls, acquired_commands, acquired_view, build_calls, closing_actions, content_of,
    depth_format_of, draw_commands, drawn_calls, drawn_commands, drawn_view, event_calls,
    event_view, fatal_actions, program_build, ready_model, resize_actions, resized_model,
    resumed_calls, resumed_view, sound, started_calls, started_view, window_calls, window_view,
    LoopView, Model,
};
use crate::motion::{offset_at, MovingQuad, PERIOD};
use crate::pipeline::{BuildError, Pipeline, PipelineBuilder};
use crate::scene::{
    Acquisition, Content, DrawPlan, Event, Key, LoopState, Program, SceneDescription, Startup,
    TaskGroups, WindowEvent,
};
use crate::setup::{allocate_scene, SceneResources};
use crate::surface::{SurfaceConfig, SurfaceManager, TextureFormat};
use crate::theorems::ready_model_is_sound;
use vstd::prelude::*;

verus! {

/// All that a running loop holds. It exists only while the loop is
/// ready or rendering, and then whole.
#[derive(Debug, PartialEq, Eq)]
struct Resources {
    context: GraphicsContext,
    surface: SurfaceManager,
    pipeline: Pipeline,
    binder: ResourceBinder,
    bind_sets: Vec<BindSet>,
    plan: DrawPlan,
    uniform: Option<BufferHandle>,
    clear: Color,
    depth_test: bool,
    depth_target: Option<DepthTarget>,
    compositor: Option<DepthCompositor>,
    mover: MovingQuad,
}

impl Resources {
    closed spec fn model(self) -> Model {
        Model {
            context: self.context,
            config: self.surface.spec_config(),
            pipeline: self.pipeline,
            binder: self.binder@,
            bind_sets: set_views(self.bind_sets@),
            plan: self.plan,
            uniform: self.uniform,
            clear: self.clear,
            depth_test: self.depth_test,
            depth_target: self.depth_target,
            compositor: match self.compositor {
                Some(compositor) => Some(compositor@),
                None => None,
            },
            position: self.mover@,
        }
    }

    #[verifier::type_invariant]
    spec fn sound(self) -> bool {
        self.model().wf() && self.binder.wf()
    }
}

#[derive(Debug, PartialEq, Eq)]
enum Stage {
    Uninitialized(SceneDescription),
    Ready(Resources),
    Rendering(Resources),
    Closed,
}

/// The frame loop. It begins uninitialized, runs between ready and
/// rendering, and ends closed.
#[derive(Debug, PartialEq, Eq)]
pub struct FrameLoop {
    stage: Stage,
}

impl View for FrameLoop {
    type V = LoopView;

    closed spec fn view(&self) -> LoopView {
        match self.stage {
            Stage::Uninitialized(scene) => LoopView::Uninitialized(scene),
            Stage::Ready(held) => LoopView::Ready(held.model()),
            Stage::Rendering(held) => LoopView::Rendering(held.model()),
            Stage::Closed => LoopView::Closed,
        }
    }
}

/// What a transition leaves: the loop in its next state, the calls
/// that the host makes now, in this order, and the command buffer that
/// it submits where `Action::Submit` is among them.
#[derive(Debug, PartialEq, Eq)]
pub struct Transition {
    pub next: FrameLoop,
    pub actions: Vec<Action>,
    pub commands: Vec<Command>,
}

/// A transition without calls.
fn quiet(stage: Stage) -> (transition: Transition)
    ensures
        transition.next.stage == stage,
        transition.actions@ == Seq::<Action>::empty(),
        transition.commands@ == Seq::<Command>::empty(),
{
    Transition { next: FrameLoop { stage }, actions: Vec::new(), commands: Vec::new() }
}

/// The end of a startup that met an obstacle.
fn refused(error: FatalError) -> (transition: Transition)
    ensures
        transition.next.stage == Stage::Closed,
        transition.actions@ == seq![Action::Fatal { error }, Action::Exit],
        transition.commands@ == Seq::<Command>::empty(),
{
    let mut actions: Vec<Action> = Vec::new();
    actions.push(Action::Fatal { error });
    actions.push(Action::Exit);
    Transition { next: FrameLoop { stage: Stage::Closed }, actions, commands: Vec::new() }
}

/// The end of a running loop: the surface is released, then the
/// window. With an error, the error is named first.
fn closed(error: Option<FatalError>) -> (transition: Transition)
    ensures
        transition.next.stage == Stage::Closed,
        transition.actions@ == (match error {
            Some(error) => fatal_actions(error),
            None => closing_actions(),
        }),
        transition.commands@ == Seq::<Command>::empty(),
{
    let mut actions: Vec<Action> = Vec::new();
    match error {
        Some(error) => {
            actions.push(Action::Fatal { error });
        },
        None => {},
    }
    actions.push(Action::ReleaseSurface);
    actions.push(Action::ReleaseWindow);
    actions.push(Action::Exit);
    Transition { next: FrameLoop { stage: Stage::Closed }, actions, commands: Vec::new() }
}

/// What a build leaves besides the pipeline.
struct Built {
    pipeline: Pipeline,
    content: Option<Content>,
    groups: TaskGroups,
    depth_test: bool,
}

impl Built {
    spec fn plan_groups(self, program: Program) -> bool {
        program matches Program::MeshShading { groups, .. } ==> self.groups == groups
    }
}

/// Builds the pipeline of the program, of the variant that the program
/// is of, and hands on what the program draws.
fn build_program(
    builder: &PipelineBuilder,
    program: Program,
    color_target: TextureFormat,
    calls: &mut Vec<Action>,
) -> (outcome: Result<Built, BuildError>)
    ensures
        outcome matches Err(e) ==> program_build(
            builder.spec_capabilities()@,
            builder.spec_layout()@,
            program,
            color_target,
        ) == Err::<Pipeline, BuildError>(e) && final(calls)@ == old(calls)@,
        outcome matches Ok(made) ==> program_build(
            builder.spec_capabilities()@,
            builder.spec_layout()@,
            program,
            color_target,
        ) == Ok::<Pipeline, BuildError>(made.pipeline) && made.content == content_of(program)
            && made.depth_test == (depth_format_of(program) is Some) && made.plan_groups(program)
            && final(calls)@ == old(calls)@ + build_calls(builder.spec_layout()@, program),
{
    match program {
        Program::Classic { vertex, fragment, vertex_buffers, depth_format, content } => {
            let depth_test = depth_format.is_some();
            match builder.build_classic(
                vertex,
                fragment,
                vertex_buffers,
                color_target,
                depth_format,
                calls,
            ) {
                Err(e) => Err(e),
                Ok(pipeline) => Ok(
                    Built {
                        pipeline,
                        content: Some(content),
                        groups: TaskGroups { x: 0, y: 0, z: 0 },
                        depth_test,
                    },
                ),
            }
        },
        Program::MeshShading { task, mesh, fragment, groups } => {
            match builder.build_mesh(task, mesh, fragment, color_target, calls) {
                Err(e) => Err(e),
                Ok(pipeline) => Ok(Built { pipeline, content: None, groups, depth_test: false }),
            }
        },
    }
}

/// Brings a loop up: context, surface, pipeline, resources, in this
/// order, and stops at the first that fails.
fn start(scene: SceneDescription, startup: Startup) -> (transition: Transition)
    ensures
        transition.next@ == resumed_view(scene, startup),
        transition.actions@ == resumed_calls(scene, startup),
        transition.commands@ == Seq::<Command>::empty(),
{
    let SceneDescription { required, layout, program, clear, uniform, textures, overlay } = scene;
    let context = match GraphicsContext::initialize(&startup.adapter, required, startup.device) {
        Err(e) => {
            return refused(FatalError::Init(e));
        },
        Ok(context) => context,
    };
    let mut calls: Vec<Action> = Vec::new();
    let surface = SurfaceManager::configure(&context, startup.width, startup.height, &mut calls);
    let config = surface.config();
    let builder = PipelineBuilder::new(context.features(), layout);
    let made = match build_program(&builder, program, context.format(), &mut calls) {
        Err(e) => {
            return refused(FatalError::Build(e));
        },
        Ok(made) => made,
    };
    let Built { pipeline, content, groups, depth_test } = made;
    let layout = builder.into_layout();
    let SceneResources { mut binder, bind_sets, plan, uniform: handle } = allocate_scene(
        &layout,
        uniform,
        textures,
        content,
        groups,
        &mut calls,
    );
    let mut depth_target: Option<DepthTarget> = None;
    let mut compositor: Option<DepthCompositor> = None;
    if overlay {
        compositor = Some(DepthCompositor::new(&config, &mut binder, &mut calls));
    } else if depth_test {
        depth_target = Some(DepthTarget::create(&config));
        calls.push(Action::CreateDepthTarget { width: config.width, height: config.height });
    }
    let mover = MovingQuad::new();
    proof {
        let expected = ready_model(scene, context, pipeline, startup.width, startup.height);
        binder.handles_suffice();
        ready_model_is_sound(scene, context, pipeline, startup.width, startup.height);
    }
    let held = Resources {
        context,
        surface,
        pipeline,
        binder,
        bind_sets,
        plan,
        uniform: handle,
        clear,
        depth_test,
        depth_target,
        compositor,
        mover,
    };
    Transition { next: FrameLoop { stage: Stage::Ready(held) }, actions: calls, commands: Vec::new() }
}

/// Follows a change of the window's size: the surface takes the size,
/// clamped, and the depth target is made anew for it.
fn resize(held: Resources, width: u32, height: u32) -> (transition: Transition)
    ensures
        transition.next@ == LoopView::Ready(resized_model(held.model(), width, height)),
        transition.actions@ == resize_actions(held.model(), width, height),
        transition.commands@ == Seq::<Command>::empty(),
{
    proof {
        use_type_invariant(&held);
    }
    let Resources {
        context,
        mut surface,
        pipeline,
        binder,
        bind_sets,
        plan,
        uniform,
        clear,
        depth_test,
        depth_target,
        compositor,
        mover,
    } = held;
    let mut actions: Vec<Action> = Vec::new();
    surface.reconfigure(width, height, &mut actions);
    let config = surface.config();
    let compositor = match compositor {
        Some(mut compositor) => {
            compositor.resize(&config, &binder, &mut actions);
            Some(compositor)
        },
        None => None,
    };
    let depth_target = match depth_target {
        Some(_) => {
            actions.push(Action::CreateDepthTarget { width: config.width, height: config.height });
            Some(DepthTarget::create(&config))
        },
        None => None,
    };
    actions.push(Action::RequestRedraw);
    let after = Resources {
        context,
        surface,
        pipeline,
        binder,
        bind_sets,
        plan,
        uniform,
        clear,
        depth_test,
        depth_target,
        compositor,
        mover,
    };
    Transition { next: FrameLoop { stage: Stage::Ready(after) }, actions, commands: Vec::new() }
}

/// Records the scene pass.
fn record_scene(
    encoder: &mut CommandEncoder,
    clear: Color,
    depth_test: bool,
    bind_sets: usize,
    plan: DrawPlan,
)
    ensures
        final(encoder)@ == old(encoder)@ + seq![
            Command::BeginPass { color: LoadOp::Clear(clear), depth: depth_test },
            Command::SetPipeline { pipeline: PipelineSlot::Scene },
        ] + (if bind_sets > 0 {
            seq![Command::SetBindGroup { index: 0, set: BindSlot::Scene(0) }]
        } else {
            Seq::<Command>::empty()
        }) + draw_commands(plan, bind_sets > 1) + seq![Command::EndPass],
{
    encoder.record(Command::BeginPass { color: LoadOp::Clear(clear), depth: depth_test });
    encoder.record(Command::SetPipeline { pipeline: PipelineSlot::Scene });
    if bind_sets > 0 {
        encoder.record(Command::SetBindGroup { index: 0, set: BindSlot::Scene(0) });
    }
    match plan {
        DrawPlan::Generated { vertices } => {
            encoder.record(Command::Draw { vertices });
        },
        DrawPlan::Quad { vertex_buffer, index_buffer, indices } => {
            encoder.record(Command::SetVertexBuffer { slot: 0, buffer: vertex_buffer });
            encoder.record(Command::SetIndexBuffer { buffer: index_buffer });
            encoder.record(Command::DrawIndexed { indices });
        },
        DrawPlan::Layered {
            vertex_buffer,
            index_buffer,
            indices,
            mover_vertex_buffer,
            mover_index_buffer,
        } => {
            encoder.record(Command::SetVertexBuffer { slot: 0, buffer: vertex_buffer });
            encoder.record(Command::SetIndexBuffer { buffer: index_buffer });
            encoder.record(Command::DrawIndexed { indices });
            if bind_sets > 1 {
                encoder.record(Command::SetBindGroup { index: 0, set: BindSlot::Scene(1) });
            }
            encoder.record(Command::SetVertexBuffer { slot: 0, buffer: mover_vertex_buffer });
            encoder.record(Command::SetIndexBuffer { buffer: mover_index_buffer });
            encoder.record(Command::DrawIndexed { indices: 6 });
        },
        DrawPlan::MeshTasks { groups } => {
            encoder.record(Command::DrawMeshTasks { x: groups.x, y: groups.y, z: groups.z });
        },
    }
    encoder.record(Command::EndPass);
}

/// Draws one frame into the image that was acquired: writes the
/// uniform, moves the quad, records the scene pass and then the
/// overlay pass, submits and presents.
fn draw(held: Resources, elapsed: Vec<u8>) -> (transition: Transition)
    ensures
        transition.next@ == acquired_view(held.model(), Acquisition::Acquired { elapsed }),
        transition.actions@ == acquired_calls(held.model(), Acquisition::Acquired { elapsed }),
        transition.commands@ == acquired_commands(
            held.model(),
            Acquisition::Acquired { elapsed },
        ),
{
    proof {
        use_type_invariant(&held);
    }
    let Resources {
        context,
        surface,
        pipeline,
        mut binder,
        bind_sets,
        plan,
        uniform,
        clear,
        depth_test,
        depth_target,
        compositor,
        mut mover,
    } = held;
    let mut actions: Vec<Action> = Vec::new();
    match uniform {
        Some(handle) => {
            match binder.update_uniform(handle, elapsed) {
                Err(e) => {
                    return closed(Some(FatalError::Bind(e)));
                },
                Ok(()) => {
                    actions.push(Action::WriteBuffer { buffer: handle });
                },
            }
        },
        None => {},
    }
    match plan {
        DrawPlan::Layered { mover_vertex_buffer, .. } => {
            mover.advance();
            binder.rebuild_vertex_buffer(mover_vertex_buffer, mover.vertices());
            actions.push(Action::CreateBuffer { buffer: mover_vertex_buffer });
        },
        _ => {},
    }
    let mut encoder = CommandEncoder::new();
    record_scene(&mut encoder, clear, depth_test, bind_sets.len(), plan);
    match &compositor {
        Some(compositor) => {
            compositor.render(&mut encoder);
        },
        None => {},
    }
    actions.push(Action::Submit);
    actions.push(Action::Present);
    let after = Resources {
        context,
        surface,
        pipeline,
        binder,
        bind_sets,
        plan,
        uniform,
        clear,
        depth_test,
        depth_target,
        compositor,
        mover,
    };
    let commands = encoder.finish();
    Transition { next: FrameLoop { stage: Stage::Ready(after) }, actions, commands }
}

impl FrameLoop {
    /// What a loop holds meets the invariant, always.
    fn attest(&self)
        ensures
            sound(self@),
    {
        match &self.stage {
            Stage::Ready(held) => {
                proof {
                    use_type_invariant(held);
                }
            },
            Stage::Rendering(held) => {
                proof {
                    use_type_invariant(held);
                }
            },
            _ => {},
        }
    }

    /// One of the four events of a window that is up. A close request
    /// and the Escape key close the loop, whatever its state: a
    /// running loop releases the surface and then the window, and a
    /// frame that is being drawn is dropped. A ready loop follows a
    /// resize and answers a redraw request by asking for the next
    /// image. Everything else leaves the loop as it is.
    pub fn window_event(self, event: WindowEvent) -> (transition: Transition)
        ensures
            transition.next@ == window_view(self@, event),
            transition.actions@ == window_calls(self@, event),
            transition.commands@ == Seq::<Command>::empty(),
            sound(transition.next@),
    {
        let closing = match event {
            WindowEvent::CloseRequested => true,
            WindowEvent::KeyPressed { key: Key::Escape } => true,
            _ => false,
        };
        let transition = if closing {
            match self.stage {
                Stage::Uninitialized(_) => {
                    let mut actions: Vec<Action> = Vec::new();
                    actions.push(Action::Exit);
                    Transition {
                        next: FrameLoop { stage: Stage::Closed },
                        actions,
                        commands: Vec::new(),
                    }
                },
                Stage::Closed => quiet(Stage::Closed),
                _ => closed(None),
            }
        } else {
            match self.stage {
                Stage::Ready(held) => match event {
                    WindowEvent::Resized { width, height } => resize(held, width, height),
                    WindowEvent::RedrawRequested => {
                        let mut actions: Vec<Action> = Vec::new();
                        actions.push(Action::AcquireFrame);
                        Transition {
                            next: FrameLoop { stage: Stage::Rendering(held) },
                            actions,
                            commands: Vec::new(),
                        }
                    },
                    _ => quiet(Stage::Ready(held)),
                },
                other => quiet(other),
            }
        };
        transition.next.attest();
        transition
    }

    /// What came of the attempt to acquire the next image, which a
    /// rendering loop has asked for. With an image the loop draws the
    /// frame and is ready again; but where the value given for the
    /// uniform has not the size of the uniform, the loop closes, and
    /// nothing is submitted. Without an image the frame is skipped,
    /// and the loop is ready again as it was. A loop that is not
    /// rendering has asked for no image and stays as it is.
    pub fn frame_acquired(self, frame: Acquisition) -> (transition: Transition)
        ensures
            transition.next@ == drawn_view(self@, frame),
            transition.actions@ == drawn_calls(self@, frame),
            transition.commands@ == drawn_commands(self@, frame),
            sound(transition.next@),
    {
        let transition = match self.stage {
            Stage::Rendering(held) => match frame {
                Acquisition::Failed => {
                    let mut actions: Vec<Action> = Vec::new();
                    actions.push(Action::SkipFrame);
                    Transition {
                        next: FrameLoop { stage: Stage::Ready(held) },
                        actions,
                        commands: Vec::new(),
                    }
                },
                Acquisition::Acquired { elapsed } => draw(held, elapsed),
            },
            other => quiet(other),
        };
        transition.next.attest();
        transition
    }

    /// Any of the five events that the loop has a handler for.
    pub fn handle(self, event: Event) -> (transition: Transition)
        ensures
            transition.next@ == event_view(self@, event),
            transition.actions@ == event_calls(self@, event),
            transition.commands@ == Seq::<Command>::empty(),
            sound(transition.next@),
    {
        match event {
            Event::Resumed(startup) => self.resumed(startup),
            Event::Resized { width, height } => self.window_event(
                WindowEvent::Resized { width, height },
            ),
            Event::CloseRequested => self.window_event(WindowEvent::CloseRequested),
            Event::KeyPressed { key } => self.window_event(WindowEvent::KeyPressed { key }),
            Event::RedrawRequested => self.window_event(WindowEvent::RedrawRequested),
        }
    }

    /// The events of this round are dealt with. While there is a
    /// window, the loop asks for the next redraw at once: it draws as
    /// fast as images can be had.
    pub fn about_to_wait(&self) -> (request: Option<Action>)
        ensures
            request == (if self@.model() is Some {
                Some(Action::RequestRedraw)
            } else {
                None
            }),
    {
        match &self.stage {
            Stage::Ready(_) => Some(Action::RequestRedraw),
            Stage::Rendering(_) => Some(Action::RequestRedraw),
            _ => None,
        }
    }

    /// The window has come up. An uninitialized loop comes up with it,
    /// or closes on the first obstacle, which ends the program; any
    /// other loop stays as it is, for a loop comes up only once.
    pub fn resumed(self, startup: Startup) -> (transition: Transition)
        ensures
            transition.next@ == started_view(self@, startup),
            transition.actions@ == started_calls(self@, startup),
            transition.commands@ == Seq::<Command>::empty(),
            sound(transition.next@),
    {
        let transition = match self.stage {
            Stage::Uninitialized(scene) => start(scene, startup),
            other => quiet(other),
        };
        transition.next.attest();
        transition
    }

    /// What a running loop holds.
    fn held(&self) -> (held: Option<&Resources>)
        ensures
            held is Some == self@.model() is Some,
            held matches Some(resources) ==> self@.model() == Some(resources.model())
                && resources.model().wf(),
    {
        match &self.stage {
            Stage::Ready(resources) => {
                proof {
                    use_type_invariant(resources);
                }
                Some(resources)
            },
            Stage::Rendering(resources) => {
                proof {
                    use_type_invariant(resources);
                }
                Some(resources)
            },
            _ => None,
        }
    }

    /// The configuration of the surface, while the loop runs. Neither
    /// of its dimensions is ever zero.
    pub fn config(&self) -> (config: Option<SurfaceConfig>)
        ensures
            config == self@.config(),
            config matches Some(found) ==> found.wf(),
    {
        match self.held() {
            Some(resources) => Some(resources.surface.config()),
            None => None,
        }
    }

    /// The context, while the loop runs.
    pub fn context(&self) -> (context: Option<GraphicsContext>)
        ensures
            context == self@.context(),
    {
        match self.held() {
            Some(resources) => Some(resources.context),
            None => None,
        }
    }

    /// The pipeline of the scene, while the loop runs.
    pub fn pipeline(&self) -> (pipeline: Option<&Pipeline>)
        ensures
            pipeline is Some == self@.model() is Some,
            pipeline matches Some(found) ==> *found == self@.model()->Some_0.pipeline,
    {
        match self.held() {
            Some(resources) => Some(&resources.pipeline),
            None => None,
        }
    }

    /// The binder with the buffers and textures, while the loop runs.
    pub fn binder(&self) -> (binder: Option<&ResourceBinder>)
        ensures
            binder is Some == self@.model() is Some,
            binder matches Some(found) ==> found@ == self@.model()->Some_0.binder && found.wf(),
    {
        match &self.stage {
            Stage::Ready(resources) => {
                proof {
                    use_type_invariant(resources);
                }
                Some(&resources.binder)
            },
            Stage::Rendering(resources) => {
                proof {
                    use_type_invariant(resources);
                }
                Some(&resources.binder)
            },
            _ => None,
        }
    }

    /// The bind sets of the scene, while the loop runs.
    pub fn bind_sets(&self) -> (sets: Option<&Vec<BindSet>>)
        ensures
            sets is Some == self@.model() is Some,
            sets matches Some(found) ==> set_views(found@) == self@.model()->Some_0.bind_sets,
    {
        match self.held() {
            Some(resources) => Some(&resources.bind_sets),
            None => None,
        }
    }

    /// How the scene is drawn, while the loop runs.
    pub fn plan(&self) -> (plan: Option<DrawPlan>)
        ensures
            plan == self@.plan(),
    {
        match self.held() {
            Some(resources) => Some(resources.plan),
            None => None,
        }
    }

    /// The handle of the per-frame uniform, where a running loop has
    /// one.
    pub fn uniform(&self) -> (uniform: Option<BufferHandle>)
        ensures
            uniform == (match self@.model() {
                Some(held) => held.uniform,
                None => None,
            }),
    {
        match self.held() {
            Some(resources) => resources.uniform,
            None => None,
        }
    }

    /// Where the moving quad is, while the loop runs: so many steps
    /// from its start, and fewer than a period.
    pub fn position(&self) -> (position: Option<u32>)
        ensures
            position is Some == self@.model() is Some,
            position matches Some(steps) ==> steps == self@.model()->Some_0.position && steps
                < PERIOD,
    {
        match self.held() {
            Some(resources) => Some(resources.mover.position()),
            None => None,
        }
    }

    /// The horizontal offset of the moving quad in hundredths of a
    /// unit, while the loop runs.
    pub fn x_offset(&self) -> (offset: Option<i32>)
        ensures
            offset is Some == self@.model() is Some,
            offset matches Some(hundredths) ==> hundredths == offset_at(
                self@.model()->Some_0.position,
            ),
    {
        match self.held() {
            Some(resources) => Some(resources.mover.x_offset()),
            None => None,
        }
    }

    /// The depth target of the surface, where a running loop has one,
    /// whether the loop keeps it or its compositor. It is as large as
    /// the surface.
    pub fn depth_target(&self) -> (target: Option<DepthTarget>)
        ensures
            target == (match self@.model() {
                Some(held) => held.depth(),
                None => None,
            }),
            target matches Some(found) ==> found == target_for(
                self@.model()->Some_0.config,
            ),
    {
        match self.held() {
            Some(resources) => match &resources.compositor {
                Some(compositor) => Some(compositor.target()),
                None => resources.depth_target,
            },
            None => None,
        }
    }

    /// The depth compositor, where a running loop has one.
    pub fn compositor(&self) -> (compositor: Option<&DepthCompositor>)
        ensures
            compositor is Some == (self@.model() matches Some(held) && held.compositor is Some),
            compositor matches Some(found) ==> Some(found@) == self@.model()->Some_0.compositor,
    {
        match self.held() {
            Some(resources) => match &resources.compositor {
                Some(compositor) => Some(compositor),
                None => None,
            },
            None => None,
        }
    }

    /// A loop for `scene`, not yet initialized.
    pub fn new(scene: SceneDescription) -> (created: FrameLoop)
        ensures
            created@ == LoopView::Uninitialized(scene),
    {
        FrameLoop { stage: Stage::Uninitialized(scene) }
    }

    /// The state that the loop is in.
    pub fn state(&self) -> (state: LoopState)
        ensures
            state == self@.state(),
    {
        match &self.stage {
            Stage::Uninitialized(_) => LoopState::Uninitialized,
            Stage::Ready(_) => LoopState::Ready,
            Stage::Rendering(_) => LoopState::Rendering,
            Stage::Closed => LoopState::Closed,
        }
    }
}

} // verus!
