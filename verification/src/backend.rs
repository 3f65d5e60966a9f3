//! The vocabulary between the core and its host: the calls on the
//! graphics backend and the window that the core asks for, and the
//! commands it records into a frame's command buffer.

use crate::binder::{BindError, BufferHandle, TextureHandle};
use crate::context::InitError;
use crate::pipeline::BuildError;
use crate::surface::SurfaceConfig;
use vstd::prelude::*;

verus! {

/// A colour in thousandths of full intensity per channel.
#[derive(Clone, Copy, Debug, PartialEq, Eq, Structural)]
pub struct Color {
    pub red: u16,
    pub green: u16,
    pub blue: u16,
    pub alpha: u16,
}

/// What a pass does with the colour target before it draws.
#[derive(Clone, Copy, Debug, PartialEq, Eq, Structural)]
pub enum LoadOp {
    /// Fill it with this colour.
    Clear(Color),
    /// Keep what earlier passes wrote.
    Load,
}

/// Which pipeline a pass binds.
#[derive(Clone, Copy, Debug, PartialEq, Eq, Structural)]
pub enum PipelineSlot {
    /// The pipeline of the scene.
    Scene,
    /// The pipeline with which the depth compositor draws its overlay.
    Overlay,
}

/// Which bind set a pass binds.
#[derive(Clone, Copy, Debug, PartialEq, Eq, Structural)]
pub enum BindSlot {
    /// A bind set of the scene, by its position among them.
    Scene(usize),
    /// The bind set through which the overlay samples the depth target.
    Overlay,
}

/// One recorded operation of a command buffer.
#[derive(Clone, Copy, Debug, PartialEq, Eq, Structural)]
pub enum Command {
    /// Opens a pass on the frame's view. With `depth`, the pass also
    /// clears the depth target to the far plane and tests against it.
    BeginPass { color: LoadOp, depth: bool },
    SetPipeline { pipeline: PipelineSlot },
    SetBindGroup { index: u32, set: BindSlot },
    SetVertexBuffer { slot: u32, buffer: BufferHandle },
    SetIndexBuffer { buffer: BufferHandle },
    /// Draws `vertices` vertices that the vertex stage makes up itself.
    Draw { vertices: u32 },
    /// Draws `indices` indices of the bound index buffer.
    DrawIndexed { indices: usize },
    /// Dispatches task groups; geometry comes from the mesh stage.
    DrawMeshTasks { x: u32, y: u32, z: u32 },
    EndPass,
}

/// Why the program ends before its time.
#[derive(Clone, Copy, Debug, PartialEq, Eq, Structural)]
pub enum FatalError {
    Init(InitError),
    Build(BuildError),
    Bind(BindError),
}

/// One call that the host is to make, on the backend or on the window.
/// The host makes the calls of a transition in the order given.
#[derive(Clone, Copy, Debug, PartialEq, Eq, Structural)]
pub enum Action {
    ConfigureSurface { config: SurfaceConfig },
    CreateShaderModule { module: u32 },
    CreateBindGroupLayout,
    CreatePipelineLayout,
    /// Create the pipeline that the frame loop now holds.
    CreatePipeline,
    /// Create the pipeline with which the depth compositor draws,
    /// and the layout of its bind set.
    CreateOverlayPipeline,
    CreateTexture { texture: TextureHandle },
    /// Create the buffer, or create it anew, from what the binder holds
    /// for it.
    CreateBuffer { buffer: BufferHandle },
    CreateBindSet { set: BindSlot },
    /// Drop the depth target, if there is one, and create one of this
    /// size.
    CreateDepthTarget { width: u32, height: u32 },
    AcquireFrame,
    /// Copy what the binder holds for the buffer to the device.
    WriteBuffer { buffer: BufferHandle },
    /// Submit the command buffer of this transition to the queue.
    Submit,
    Present,
    RequestRedraw,
    /// Note that no frame could be acquired; nothing is drawn.
    SkipFrame,
    ReleaseSurface,
    ReleaseWindow,
    Exit,
    Fatal { error: FatalError },
}

} // verus!
