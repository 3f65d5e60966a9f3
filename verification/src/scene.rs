//! What a program draws: the description that the frame loop is made
//! with, the events that its host reports, and the plan by which it
//! records each frame.

use crate::backend::Color;
use crate::binder::{BufferHandle, Vertex};
use crate::capability::CapabilitySet;
use crate::context::{AdapterDescription, DeviceOutcome};
use crate::pipeline::{BindGroupLayout, ShaderStage, VertexBufferLayout};
use crate::surface::TextureFormat;
use vstd::prelude::*;

verus! {

/// How many task groups a mesh-shading draw dispatches in each
/// direction.
#[derive(Clone, Copy, Debug, PartialEq, Eq, Structural)]
pub struct TaskGroups {
    pub x: u32,
    pub y: u32,
    pub z: u32,
}

/// What a classic program draws.
#[derive(Debug, PartialEq, Eq)]
pub enum Content {
    /// So many vertices, which the vertex stage makes up itself.
    Generated { vertices: u32 },
    /// One indexed mesh.
    Quad { corners: Vec<Vertex>, indices: Vec<u16> },
    /// An indexed mesh behind, and before it a quad that moves with
    /// every frame and has textures of its own.
    Layered { corners: Vec<Vertex>, indices: Vec<u16>, foreground_textures: Vec<u32> },
}

/// The stages of the program and what they draw. The variant decides
/// the variant of the pipeline.
#[derive(Debug, PartialEq, Eq)]
pub enum Program {
    Classic {
        vertex: ShaderStage,
        fragment: ShaderStage,
        vertex_buffers: Vec<VertexBufferLayout>,
        depth_format: Option<TextureFormat>,
        content: Content,
    },
    MeshShading {
        task: Option<ShaderStage>,
        mesh: ShaderStage,
        fragment: ShaderStage,
        groups: TaskGroups,
    },
}

/// All that the frame loop is told of the program it runs.
#[derive(Debug, PartialEq, Eq)]
pub struct SceneDescription {
    /// The device features that the program cannot do without.
    pub required: CapabilitySet,
    /// The slots that its pipeline binds; none, if it binds nothing.
    pub layout: BindGroupLayout,
    pub program: Program,
    /// What the scene pass clears the view to.
    pub clear: Color,
    /// The first value of the per-frame uniform, if the program has one.
    /// Its length is the size of the uniform for good.
    pub uniform: Option<Vec<u8>>,
    /// The images of the textures that the scene samples.
    pub textures: Vec<u32>,
    /// Whether the depth target is shown as an overlay.
    pub overlay: bool,
}

/// What the host found when the window came up.
#[derive(Debug, PartialEq, Eq)]
pub struct Startup {
    /// The inner size of the window.
    pub width: u32,
    pub height: u32,
    /// The adapter that the backend offered for the window's surface.
    pub adapter: Option<AdapterDescription>,
    /// What became of the request for a device. The host asks for one
    /// only where `GraphicsContext::negotiate` allows it; otherwise
    /// this field is not read.
    pub device: DeviceOutcome,
}

/// A key, as far as the frame loop tells keys apart.
#[derive(Clone, Copy, Debug, PartialEq, Eq, Structural)]
pub enum Key {
    Escape,
    Other,
}

/// What the window reports once it is up.
#[derive(Clone, Copy, Debug, PartialEq, Eq, Structural)]
pub enum WindowEvent {
    Resized { width: u32, height: u32 },
    CloseRequested,
    KeyPressed { key: Key },
    RedrawRequested,
}

/// The five events that the frame loop has a handler for.
#[derive(Debug, PartialEq, Eq)]
pub enum Event {
    Resumed(Startup),
    Resized { width: u32, height: u32 },
    CloseRequested,
    KeyPressed { key: Key },
    RedrawRequested,
}

/// What came of the attempt to acquire the next image of the surface.
#[derive(Debug, PartialEq, Eq)]
pub enum Acquisition {
    /// There is an image. `elapsed` is the value of the per-frame
    /// uniform for this frame, taken after the image was acquired.
    Acquired { elapsed: Vec<u8> },
    /// There is none for now.
    Failed,
}

/// The states of the frame loop.
#[derive(Clone, Copy, Debug, PartialEq, Eq, Structural)]
pub enum LoopState {
    Uninitialized,
    Ready,
    Rendering,
    Closed,
}

/// How the scene pass draws, with the handles of the buffers it binds.
#[derive(Clone, Copy, Debug, PartialEq, Eq, Structural)]
pub enum DrawPlan {
    Generated { vertices: u32 },
    Quad { vertex_buffer: BufferHandle, index_buffer: BufferHandle, indices: usize },
    Layered {
        vertex_buffer: BufferHandle,
        index_buffer: BufferHandle,
        indices: usize,
        mover_vertex_buffer: BufferHandle,
        mover_index_buffer: BufferHandle,
    },
    MeshTasks { groups: TaskGroups },
}

} // verus!
