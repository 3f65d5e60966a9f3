//! The depth target of the surface, the encoder that a frame's passes
//! are recorded into, and the compositor that shows the depth target
//! as an overlay in a pass of its own.

use crate::backend::{Action, BindSlot, Command, LoadOp, PipelineSlot};
use crate::binder::{BindSet, BindSetView, BufferHandle, ResourceBinder, ResourceRef, Vertex};
use crate::binder::{BinderView, BufferView};
use crate::pipeline::{BindGroupLayout, BindingKind, LayoutEntry};
use crate::surface::{SurfaceConfig, TextureFormat};
use vstd::prelude::*;

verus! {

/// A depth texture. It never changes size: when the surface does, the
/// target is dropped and another is made.
#[derive(Clone, Copy, Debug, PartialEq, Eq, Structural)]
pub struct DepthTarget {
    pub width: u32,
    pub height: u32,
    pub format: TextureFormat,
}

/// The depth target that goes with a surface configured as `config`.
pub open spec fn target_for(config: SurfaceConfig) -> DepthTarget {
    DepthTarget { width: config.width, height: config.height, format: TextureFormat::Depth32Float }
}

impl DepthTarget {
    /// A depth target of the size of the surface.
    pub fn create(config: &SurfaceConfig) -> (target: DepthTarget)
        ensures
            target == target_for(*config),
    {
        DepthTarget {
            width: config.width,
            height: config.height,
            format: TextureFormat::Depth32Float,
        }
    }
}

/// Records the commands of one command buffer, in order.
#[derive(Debug, PartialEq, Eq)]
pub struct CommandEncoder {
    commands: Vec<Command>,
}

impl View for CommandEncoder {
    type V = Seq<Command>;

    closed spec fn view(&self) -> Seq<Command> {
        self.commands@
    }
}

impl CommandEncoder {
    /// An encoder that has recorded nothing.
    pub fn new() -> (encoder: CommandEncoder)
        ensures
            encoder@ == Seq::<Command>::empty(),
    {
        CommandEncoder { commands: Vec::new() }
    }

    /// Records `command` after all that is recorded.
    pub fn record(&mut self, command: Command)
        ensures
            final(self)@ == old(self)@.push(command),
    {
        self.commands.push(command);
    }

    /// Ends the recording: the command buffer, ready to be submitted.
    pub fn finish(self) -> (commands: Vec<Command>)
        ensures
            commands@ == self@,
    {
        self.commands
    }
}

/// The slots through which the overlay samples the depth target.
pub open spec fn overlay_layout() -> Seq<LayoutEntry> {
    seq![
        LayoutEntry { binding: 0, kind: BindingKind::Texture },
        LayoutEntry { binding: 1, kind: BindingKind::Sampler },
    ]
}

/// What is bound to them: view and sampler of the depth target.
pub open spec fn overlay_resources() -> Seq<ResourceRef> {
    seq![ResourceRef::DepthView, ResourceRef::DepthSampler]
}

/// The corners of the overlay: the whole of the view, from the lower
/// left counter-clockwise, in hundredths of a unit.
pub open spec fn overlay_corners() -> Seq<Vertex> {
    seq![
        Vertex { x: -100i32, y: -100i32, z: 0, u: 0, v: 100 },
        Vertex { x: 100, y: -100i32, z: 0, u: 100, v: 100 },
        Vertex { x: 100, y: 100, z: 0, u: 100, v: 0 },
        Vertex { x: -100i32, y: 100, z: 0, u: 0, v: 0 },
    ]
}

/// The two triangles of a quad, over its four corners.
pub open spec fn quad_indices() -> Seq<u16> {
    seq![0u16, 1u16, 2u16, 0u16, 2u16, 3u16]
}

/// A depth compositor as mathematics.
pub struct CompositorView {
    pub target: DepthTarget,
    pub vertex_buffer: BufferHandle,
    pub index_buffer: BufferHandle,
    pub bind_set: BindSetView,
}

/// The pass that the compositor records: it keeps what is in the view,
/// tests no depth, and draws the depth target over the whole of it.
pub open spec fn overlay_pass(compositor: CompositorView) -> Seq<Command> {
    seq![
        Command::BeginPass { color: LoadOp::Load, depth: false },
        Command::SetPipeline { pipeline: PipelineSlot::Overlay },
        Command::SetBindGroup { index: 0, set: BindSlot::Overlay },
        Command::SetVertexBuffer { slot: 0, buffer: compositor.vertex_buffer },
        Command::SetIndexBuffer { buffer: compositor.index_buffer },
        Command::DrawIndexed { indices: 6 },
        Command::EndPass,
    ]
}

/// The backend calls that set a compositor up, in order. The pipeline
/// comes before the bind set, which is made for its layout.
pub open spec fn compositor_calls(compositor: CompositorView) -> Seq<Action> {
    seq![
        Action::CreateDepthTarget {
            width: compositor.target.width,
            height: compositor.target.height,
        },
        Action::CreateBuffer { buffer: compositor.vertex_buffer },
        Action::CreateBuffer { buffer: compositor.index_buffer },
        Action::CreateOverlayPipeline,
        Action::CreateBindSet { set: BindSlot::Overlay },
    ]
}

/// The backend calls that follow a change of the surface's size: the
/// target is made anew, and with it the bind set that names its view.
pub open spec fn retarget_calls(target: DepthTarget) -> Seq<Action> {
    seq![
        Action::CreateDepthTarget { width: target.width, height: target.height },
        Action::CreateBindSet { set: BindSlot::Overlay },
    ]
}

/// What a binder holds once a compositor has made its two buffers.
pub open spec fn with_overlay_buffers(binder: BinderView) -> BinderView {
    BinderView {
        buffers: binder.buffers.push(BufferView::Vertices { vertices: overlay_corners() }).push(
            BufferView::Indices { indices: quad_indices() },
        ),
        ..binder
    }
}

/// The compositor that a surface configured as `config` gets from a
/// binder that holds `binder`.
pub open spec fn compositor_for(config: SurfaceConfig, binder: BinderView) -> CompositorView {
    CompositorView {
        target: target_for(config),
        vertex_buffer: BufferHandle(binder.buffers.len() as usize),
        index_buffer: BufferHandle((binder.buffers.len() + 1) as usize),
        bind_set: BindSetView { layout: overlay_layout(), resources: overlay_resources() },
    }
}

/// Shows the depth target of the surface as an overlay. It keeps the
/// target, which is always as large as the surface was when the
/// compositor was made or last resized.
#[derive(Debug, PartialEq, Eq)]
pub struct DepthCompositor {
    target: DepthTarget,
    vertex_buffer: BufferHandle,
    index_buffer: BufferHandle,
    bind_set: BindSet,
}

impl View for DepthCompositor {
    type V = CompositorView;

    closed spec fn view(&self) -> CompositorView {
        CompositorView {
            target: self.target,
            vertex_buffer: self.vertex_buffer,
            index_buffer: self.index_buffer,
            bind_set: self.bind_set@,
        }
    }
}

/// The overlay's bind set, made anew.
fn overlay_bind_set(binder: &ResourceBinder) -> (set: BindSet)
    ensures
        set@ == (BindSetView { layout: overlay_layout(), resources: overlay_resources() }),
{
    let mut entries: Vec<LayoutEntry> = Vec::new();
    entries.push(LayoutEntry { binding: 0, kind: BindingKind::Texture });
    entries.push(LayoutEntry { binding: 1, kind: BindingKind::Sampler });
    let layout = BindGroupLayout { entries };
    let mut views: Vec<ResourceRef> = Vec::new();
    views.push(ResourceRef::DepthView);
    views.push(ResourceRef::DepthSampler);
    assert(layout@ =~= overlay_layout());
    assert(views@ =~= overlay_resources());
    binder.create_texture_binding(&layout, views)
}

impl DepthCompositor {
    #[verifier::type_invariant]
    spec fn binds_the_depth_target(self) -> bool {
        self.bind_set@ == (BindSetView { layout: overlay_layout(), resources: overlay_resources() })
    }

    /// A compositor for a surface configured as `config`. Its two
    /// buffers come from `binder`; the calls that set it up are
    /// appended to `calls`.
    pub fn new(config: &SurfaceConfig, binder: &mut ResourceBinder, calls: &mut Vec<Action>) -> (made:
        DepthCompositor)
        ensures
            made@ == compositor_for(*config, old(binder)@),
            final(binder)@ == with_overlay_buffers(old(binder)@),
            old(binder).wf() ==> final(binder).wf(),
            final(calls)@ == old(calls)@ + compositor_calls(made@),
    {
        let target = DepthTarget::create(config);
        let mut corners: Vec<Vertex> = Vec::new();
        corners.push(Vertex { x: -100, y: -100, z: 0, u: 0, v: 100 });
        corners.push(Vertex { x: 100, y: -100, z: 0, u: 100, v: 100 });
        corners.push(Vertex { x: 100, y: 100, z: 0, u: 100, v: 0 });
        corners.push(Vertex { x: -100, y: 100, z: 0, u: 0, v: 0 });
        assert(corners@ =~= overlay_corners());
        let vertex_buffer = binder.create_vertex_buffer(corners);
        let index_buffer = binder.create_index_buffer(quad_index_list());
        let bind_set = overlay_bind_set(binder);
        let made = DepthCompositor { target, vertex_buffer, index_buffer, bind_set };
        calls.push(Action::CreateDepthTarget { width: target.width, height: target.height });
        calls.push(Action::CreateBuffer { buffer: vertex_buffer });
        calls.push(Action::CreateBuffer { buffer: index_buffer });
        calls.push(Action::CreateOverlayPipeline);
        calls.push(Action::CreateBindSet { set: BindSlot::Overlay });
        made
    }

    /// Follows a change of the surface's size: drops the target, makes
    /// one of the new size, and makes the bind set anew for it. The
    /// calls for it are appended to `calls`.
    pub fn resize(&mut self, config: &SurfaceConfig, binder: &ResourceBinder, calls: &mut Vec<Action>)
        ensures
            final(self)@ == (CompositorView { target: target_for(*config), ..old(self)@ }),
            final(calls)@ == old(calls)@ + retarget_calls(target_for(*config)),
    {
        proof {
            use_type_invariant(&*self);
        }
        self.target = DepthTarget::create(config);
        self.bind_set = overlay_bind_set(binder);
        calls.push(Action::CreateDepthTarget { width: config.width, height: config.height });
        calls.push(Action::CreateBindSet { set: BindSlot::Overlay });
    }

    /// Records the overlay pass after all that `encoder` has recorded.
    /// Like every pass of a frame it draws to the view of the image
    /// that was acquired, and it keeps what is there: so it draws over
    /// what the passes before it left in the view.
    pub fn render(&self, encoder: &mut CommandEncoder)
        ensures
            final(encoder)@ == old(encoder)@ + overlay_pass(self@),
    {
        encoder.record(Command::BeginPass { color: LoadOp::Load, depth: false });
        encoder.record(Command::SetPipeline { pipeline: PipelineSlot::Overlay });
        encoder.record(Command::SetBindGroup { index: 0, set: BindSlot::Overlay });
        encoder.record(Command::SetVertexBuffer { slot: 0, buffer: self.vertex_buffer });
        encoder.record(Command::SetIndexBuffer { buffer: self.index_buffer });
        encoder.record(Command::DrawIndexed { indices: 6 });
        encoder.record(Command::EndPass);
    }

    /// The depth target.
    pub fn target(&self) -> (target: DepthTarget)
        ensures
            target == self@.target,
    {
        self.target
    }

    /// The bind set through which the overlay samples the target.
    pub fn bind_set(&self) -> (set: &BindSet)
        ensures
            set@ == self@.bind_set,
    {
        &self.bind_set
    }
}

/// The indices of the two triangles of a quad.
pub fn quad_index_list() -> (indices: Vec<u16>)
    ensures
        indices@ == quad_indices(),
{
    let mut indices: Vec<u16> = Vec::new();
    indices.push(0);
    indices.push(1);
    indices.push(2);
    indices.push(0);
    indices.push(2);
    indices.push(3);
    indices
}

} // verus!
