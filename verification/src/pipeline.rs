//! Pipelines and their builder. A pipeline is checked against the
//! bind-group layout when it is built, never when it draws.

use crate::backend::Action;
use crate::capability::{CapabilitySet, Feature};
use crate::surface::TextureFormat;
use vstd::prelude::*;

verus! {

/// Why a pipeline could not be built. Each of them ends the program.
#[derive(Clone, Copy, Debug, PartialEq, Eq, Structural)]
pub enum BuildError {
    /// The device lacks a feature that the pipeline variant requires.
    MissingFeature,
    /// A shader module does not declare the bindings of the layout.
    LayoutMismatch,
}

/// What kind of resource a binding slot takes.
#[derive(Clone, Copy, Debug, PartialEq, Eq, Structural)]
pub enum BindingKind {
    UniformBuffer,
    Texture,
    Sampler,
}

/// One binding slot: its number and the kind of resource it takes.
#[derive(Clone, Copy, Debug, PartialEq, Eq, Structural)]
pub struct LayoutEntry {
    pub binding: u32,
    pub kind: BindingKind,
}

/// The binding slots of a bind group, in the order of declaration. A
/// layout without entries stands for a pipeline that binds nothing.
#[derive(Debug, PartialEq, Eq)]
pub struct BindGroupLayout {
    pub entries: Vec<LayoutEntry>,
}

impl View for BindGroupLayout {
    type V = Seq<LayoutEntry>;

    open spec fn view(&self) -> Seq<LayoutEntry> {
        self.entries@
    }
}

/// A shader module: the number under which the host keeps its source,
/// and the binding slots that the source declares, in order.
#[derive(Debug, PartialEq, Eq)]
pub struct ShaderModule {
    pub id: u32,
    pub bindings: Vec<LayoutEntry>,
}

/// One stage of a pipeline: a module and the entry point in it.
#[derive(Debug, PartialEq, Eq)]
pub struct ShaderStage {
    pub module: ShaderModule,
    pub entry_point: String,
}

/// The type of one vertex attribute.
#[derive(Clone, Copy, Debug, PartialEq, Eq, Structural)]
pub enum VertexFormat {
    Float32x2,
    Float32x3,
    Float32x4,
}

/// One attribute of a vertex: where the shader reads it, where it lies
/// in the vertex, and its type.
#[derive(Clone, Copy, Debug, PartialEq, Eq, Structural)]
pub struct VertexAttribute {
    pub location: u32,
    pub offset: u32,
    pub format: VertexFormat,
}

/// How the vertices of one vertex buffer are laid out.
#[derive(Debug, PartialEq, Eq)]
pub struct VertexBufferLayout {
    pub stride: u32,
    pub attributes: Vec<VertexAttribute>,
}

/// A built pipeline. Nothing changes it afterwards. Who draws with it
/// matches on the variant: a classic pipeline reads vertex and index
/// buffers, a mesh-shading pipeline is dispatched by task groups.
#[derive(Debug, PartialEq, Eq)]
pub enum Pipeline {
    Classic {
        vertex: ShaderStage,
        fragment: ShaderStage,
        vertex_buffers: Vec<VertexBufferLayout>,
        color_target: TextureFormat,
        depth_format: Option<TextureFormat>,
    },
    MeshShading {
        task: Option<ShaderStage>,
        mesh: ShaderStage,
        fragment: ShaderStage,
        color_target: TextureFormat,
    },
}

/// Whether the module of `stage` declares exactly the slots of `layout`.
pub open spec fn stage_matches(layout: Seq<LayoutEntry>, stage: ShaderStage) -> bool {
    stage.module.bindings@ == layout
}

/// What a missing task stage counts as: it declares nothing that could
/// disagree with the layout.
pub open spec fn task_matches(layout: Seq<LayoutEntry>, task: Option<ShaderStage>) -> bool {
    match task {
        None => true,
        Some(stage) => stage_matches(layout, stage),
    }
}

/// The backend calls that bring a bind-group layout into being: none
/// for a layout without entries.
pub open spec fn layout_calls(layout: Seq<LayoutEntry>) -> Seq<Action> {
    if layout.len() == 0 {
        Seq::<Action>::empty()
    } else {
        seq![Action::CreateBindGroupLayout]
    }
}

/// The backend calls of a classic build, in order. The host creates a
/// module the first time its number comes up.
pub open spec fn classic_calls(
    layout: Seq<LayoutEntry>,
    vertex: ShaderStage,
    fragment: ShaderStage,
) -> Seq<Action> {
    seq![
        Action::CreateShaderModule { module: vertex.module.id },
        Action::CreateShaderModule { module: fragment.module.id },
    ] + layout_calls(layout) + seq![Action::CreatePipelineLayout, Action::CreatePipeline]
}

/// The backend calls of a mesh-shading build, in order.
pub open spec fn mesh_calls(
    layout: Seq<LayoutEntry>,
    task: Option<ShaderStage>,
    mesh: ShaderStage,
    fragment: ShaderStage,
) -> Seq<Action> {
    (match task {
        None => Seq::<Action>::empty(),
        Some(stage) => seq![Action::CreateShaderModule { module: stage.module.id }],
    }) + seq![
        Action::CreateShaderModule { module: mesh.module.id },
        Action::CreateShaderModule { module: fragment.module.id },
    ] + layout_calls(layout) + seq![Action::CreatePipelineLayout, Action::CreatePipeline]
}

/// What a classic build comes to.
pub open spec fn classic_build(
    layout: Seq<LayoutEntry>,
    vertex: ShaderStage,
    fragment: ShaderStage,
    vertex_buffers: Vec<VertexBufferLayout>,
    color_target: TextureFormat,
    depth_format: Option<TextureFormat>,
) -> Result<Pipeline, BuildError> {
    if stage_matches(layout, vertex) && stage_matches(layout, fragment) {
        Ok(Pipeline::Classic { vertex, fragment, vertex_buffers, color_target, depth_format })
    } else {
        Err(BuildError::LayoutMismatch)
    }
}

/// What a mesh-shading build comes to on a device with `capabilities`.
/// The feature is tested before the layout.
pub open spec fn mesh_build(
    capabilities: Set<Feature>,
    layout: Seq<LayoutEntry>,
    task: Option<ShaderStage>,
    mesh: ShaderStage,
    fragment: ShaderStage,
    color_target: TextureFormat,
) -> Result<Pipeline, BuildError> {
    if !capabilities.contains(Feature::MeshShader) {
        Err(BuildError::MissingFeature)
    } else if task_matches(layout, task) && stage_matches(layout, mesh) && stage_matches(
        layout,
        fragment,
    ) {
        Ok(Pipeline::MeshShading { task, mesh, fragment, color_target })
    } else {
        Err(BuildError::LayoutMismatch)
    }
}

/// Whether two lists of binding slots are the same list.
pub fn same_entries(a: &Vec<LayoutEntry>, b: &Vec<LayoutEntry>) -> (same: bool)
    ensures
        same == (a@ == b@),
{
    if a.len() != b.len() {
        return false;
    }
    let mut i: usize = 0;
    while i < a.len()
        invariant
            a.len() == b.len(),
            i <= a.len(),
            forall|k: int| 0 <= k < i ==> a@[k] == b@[k],
        decreases a.len() - i,
    {
        if a[i] != b[i] {
            return false;
        }
        i += 1;
    }
    assert(a@ =~= b@);
    true
}

/// Builds pipelines for one device and one bind-group layout.
#[derive(Debug, PartialEq, Eq)]
pub struct PipelineBuilder {
    capabilities: CapabilitySet,
    layout: BindGroupLayout,
}

impl PipelineBuilder {
    /// The features of the device that the pipelines are built for.
    pub closed spec fn spec_capabilities(&self) -> CapabilitySet {
        self.capabilities
    }

    /// The layout that every pipeline of this builder binds.
    pub closed spec fn spec_layout(&self) -> BindGroupLayout {
        self.layout
    }

    /// A builder for a device with `capabilities`, whose pipelines bind
    /// `layout`.
    pub fn new(capabilities: CapabilitySet, layout: BindGroupLayout) -> (builder: PipelineBuilder)
        ensures
            builder.spec_capabilities() == capabilities,
            builder.spec_layout() == layout,
    {
        PipelineBuilder { capabilities, layout }
    }

    /// The layout that every pipeline of this builder binds.
    pub fn layout(&self) -> (layout: &BindGroupLayout)
        ensures
            *layout == self.spec_layout(),
    {
        &self.layout
    }

    /// Gives the layout back when the building is done.
    pub fn into_layout(self) -> (layout: BindGroupLayout)
        ensures
            layout == self.spec_layout(),
    {
        self.layout
    }

    /// Builds a pipeline of vertex and fragment stage over vertex and
    /// index buffers. Both modules must declare the slots of the
    /// layout; so a module with another number of bindings than the
    /// layout never builds. A build that fails asks nothing of the
    /// backend; one that succeeds appends its calls to `calls`.
    pub fn build_classic(
        &self,
        vertex: ShaderStage,
        fragment: ShaderStage,
        vertex_buffers: Vec<VertexBufferLayout>,
        color_target: TextureFormat,
        depth_format: Option<TextureFormat>,
        calls: &mut Vec<Action>,
    ) -> (built: Result<Pipeline, BuildError>)
        ensures
            built == classic_build(
                self.spec_layout()@,
                vertex,
                fragment,
                vertex_buffers,
                color_target,
                depth_format,
            ),
            vertex.module.bindings@.len() != self.spec_layout()@.len()
                || fragment.module.bindings@.len() != self.spec_layout()@.len() ==> built == Err::<
                Pipeline,
                BuildError,
            >(BuildError::LayoutMismatch),
            built is Err ==> final(calls)@ == old(calls)@,
            built is Ok ==> final(calls)@ == old(calls)@ + classic_calls(
                self.spec_layout()@,
                vertex,
                fragment,
            ),
    {
        if !same_entries(&vertex.module.bindings, &self.layout.entries) || !same_entries(
            &fragment.module.bindings,
            &self.layout.entries,
        ) {
            return Err(BuildError::LayoutMismatch);
        }
        calls.push(Action::CreateShaderModule { module: vertex.module.id });
        calls.push(Action::CreateShaderModule { module: fragment.module.id });
        if self.layout.entries.len() > 0 {
            calls.push(Action::CreateBindGroupLayout);
        }
        calls.push(Action::CreatePipelineLayout);
        calls.push(Action::CreatePipeline);
        Ok(Pipeline::Classic { vertex, fragment, vertex_buffers, color_target, depth_format })
    }

    /// Builds a pipeline of task, mesh and fragment stage; the task
    /// stage may be left out. The device must have the mesh-shader
    /// feature, and that is tested first; then every module given must
    /// declare the slots of the layout. A build that fails asks nothing
    /// of the backend; one that succeeds appends its calls to `calls`.
    pub fn build_mesh(
        &self,
        task: Option<ShaderStage>,
        mesh: ShaderStage,
        fragment: ShaderStage,
        color_target: TextureFormat,
        calls: &mut Vec<Action>,
    ) -> (built: Result<Pipeline, BuildError>)
        ensures
            built == mesh_build(
                self.spec_capabilities()@,
                self.spec_layout()@,
                task,
                mesh,
                fragment,
                color_target,
            ),
            !self.spec_capabilities()@.contains(Feature::MeshShader) ==> built == Err::<
                Pipeline,
                BuildError,
            >(BuildError::MissingFeature),
            built is Err ==> final(calls)@ == old(calls)@,
            built is Ok ==> final(calls)@ == old(calls)@ + mesh_calls(
                self.spec_layout()@,
                task,
                mesh,
                fragment,
            ),
    {
        if !self.capabilities.contains(Feature::MeshShader) {
            return Err(BuildError::MissingFeature);
        }
        let task_agrees = match &task {
            None => true,
            Some(stage) => same_entries(&stage.module.bindings, &self.layout.entries),
        };
        if !task_agrees || !same_entries(&mesh.module.bindings, &self.layout.entries)
            || !same_entries(&fragment.module.bindings, &self.layout.entries) {
            return Err(BuildError::LayoutMismatch);
        }
        match &task {
            None => {},
            Some(stage) => {
                calls.push(Action::CreateShaderModule { module: stage.module.id });
            },
        }
        calls.push(Action::CreateShaderModule { module: mesh.module.id });
        calls.push(Action::CreateShaderModule { module: fragment.module.id });
        if self.layout.entries.len() > 0 {
            calls.push(Action::CreateBindGroupLayout);
        }
        calls.push(Action::CreatePipelineLayout);
        calls.push(Action::CreatePipeline);
        Ok(Pipeline::MeshShading { task, mesh, fragment, color_target })
    }
}

} // verus!
