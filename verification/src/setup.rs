//! The steps by which the resources of a scene come into being.

use crate::backend::{Action, BindSlot};
use crate::binder::{
    set_views, BindSet, BindSetView, BinderView, BufferHandle, ResourceBinder, ResourceRef,
    TextureHandle,
};
use crate::compositor::quad_index_list;
use crate::model::{
    buffer_at, content_base, content_buffers, content_calls, content_plan, foreground_textures,
    resource_calls, scene_bind_sets, scene_binder, scene_resources, texture_calls, texture_views,
    uniform_buffers, uniform_slot,
};
use crate::motion::MovingQuad;
use crate::pipeline::BindGroupLayout;
use crate::scene::{Content, DrawPlan, TaskGroups};
use vstd::prelude::*;

verus! {

/// Creates the uniform buffer, where the scene has a uniform.
pub(crate) fn allocate_uniform(
    binder: &mut ResourceBinder,
    calls: &mut Vec<Action>,
    uniform: Option<Vec<u8>>,
) -> (handle: Option<BufferHandle>)
    requires
        old(binder)@.buffers.len() == 0,
        old(binder).wf(),
    ensures
        handle == uniform_slot(uniform),
        final(binder).wf(),
        final(binder)@ == (BinderView { buffers: uniform_buffers(uniform), ..old(binder)@ }),
        final(calls)@ == old(calls)@ + (match uniform {
            Some(_) => seq![Action::CreateBuffer { buffer: buffer_at(0) }],
            None => Seq::<Action>::empty(),
        }),
{
    match uniform {
        Some(bytes) => {
            let handle = binder.create_uniform(bytes);
            calls.push(Action::CreateBuffer { buffer: handle });
            assert(binder@.buffers =~= uniform_buffers(uniform));
            Some(handle)
        },
        None => {
            assert(binder@.buffers =~= uniform_buffers(uniform));
            None
        },
    }
}

/// Creates a texture for each image, in order.
pub(crate) fn allocate_textures(
    binder: &mut ResourceBinder,
    calls: &mut Vec<Action>,
    images: &Vec<u32>,
)
    requires
        old(binder).wf(),
    ensures
        final(binder).wf(),
        final(binder)@ == (BinderView {
            textures: old(binder)@.textures + images@,
            ..old(binder)@
        }),
        final(calls)@ == old(calls)@ + texture_calls(
            old(binder)@.textures.len() as int,
            images@.len() as int,
        ),
{
    let ghost first = binder@.textures.len() as int;
    let mut i: usize = 0;
    while i < images.len()
        invariant
            i <= images.len(),
            binder.wf(),
            binder@ == (BinderView {
                textures: old(binder)@.textures + images@.take(i as int),
                ..old(binder)@
            }),
            calls@ == old(calls)@ + texture_calls(first, i as int),
            first == old(binder)@.textures.len(),
        decreases images.len() - i,
    {
        let handle = binder.create_texture(images[i]);
        calls.push(Action::CreateTexture { texture: handle });
        assert(binder@.textures =~= old(binder)@.textures + images@.take(i + 1));
        i += 1;
    }
    assert(images@.take(images@.len() as int) =~= images@);
}

/// What a bind set of the scene binds: the uniform, if there is one,
/// then view and sampler of each texture from `first` up to `end`.
pub(crate) fn resource_list(uniform: Option<BufferHandle>, first: usize, end: usize) -> (views:
    Vec<ResourceRef>)
    requires
        first <= end,
    ensures
        views@ == scene_resources(uniform, first as int, end - first),
{
    let mut views: Vec<ResourceRef> = Vec::new();
    let ghost head = match uniform {
        Some(handle) => seq![ResourceRef::Buffer(handle)],
        None => Seq::<ResourceRef>::empty(),
    };
    match uniform {
        Some(handle) => {
            views.push(ResourceRef::Buffer(handle));
        },
        None => {},
    }
    let mut texture: usize = first;
    while texture < end
        invariant
            first <= texture <= end,
            views@ == head + texture_views(first as int, texture - first),
        decreases end - texture,
    {
        views.push(ResourceRef::TextureView(TextureHandle(texture)));
        views.push(ResourceRef::Sampler(TextureHandle(texture)));
        texture += 1;
    }
    views
}

/// Makes a bind set of the scene, unless the layout has no slots.
pub(crate) fn allocate_bind_set(
    binder: &ResourceBinder,
    sets: &mut Vec<BindSet>,
    calls: &mut Vec<Action>,
    layout: &BindGroupLayout,
    views: Vec<ResourceRef>,
)
    ensures
        layout@.len() == 0 ==> final(sets)@ == old(sets)@ && final(calls)@ == old(calls)@,
        layout@.len() != 0 ==> final(sets)@.len() == old(sets)@.len() + 1,
        layout@.len() != 0 ==> set_views(final(sets)@) == set_views(old(sets)@).push(
            BindSetView { layout: layout@, resources: views@ },
        ) && final(calls)@ == old(calls)@.push(
            Action::CreateBindSet { set: BindSlot::Scene(old(sets)@.len() as usize) },
        ),
{
    if layout.entries.len() != 0 {
        let place = sets.len();
        let set = binder.create_texture_binding(layout, views);
        sets.push(set);
        calls.push(Action::CreateBindSet { set: BindSlot::Scene(place) });
    }
}

/// Creates the buffers, textures and bind set of the content, and
/// says how it is drawn.
pub(crate) fn allocate_content(
    binder: &mut ResourceBinder,
    sets: &mut Vec<BindSet>,
    calls: &mut Vec<Action>,
    layout: &BindGroupLayout,
    uniform: Option<BufferHandle>,
    content: Content,
) -> (plan: DrawPlan)
    requires
        old(binder).wf(),
        layout@.len() != 0 ==> old(sets)@.len() == 1,
    ensures
        final(binder).wf(),
        plan == content_plan(content, old(binder)@.buffers.len() as int),
        final(binder)@ == (BinderView {
            buffers: old(binder)@.buffers + content_buffers(content),
            textures: old(binder)@.textures + foreground_textures(content),
        }),
        set_views(final(sets)@) == set_views(old(sets)@) + (match content {
            Content::Layered { foreground_textures, .. } if layout@.len() != 0 => seq![
                BindSetView {
                    layout: layout@,
                    resources: scene_resources(
                        uniform,
                        old(binder)@.textures.len() as int,
                        foreground_textures@.len() as int,
                    ),
                },
            ],
            _ => Seq::<BindSetView>::empty(),
        }),
        final(calls)@ == old(calls)@ + content_calls(
            content,
            old(binder)@.buffers.len() as int,
            old(binder)@.textures.len() as int,
            layout@.len() != 0,
        ),
{
    match content {
        Content::Generated { vertices } => DrawPlan::Generated { vertices },
        Content::Quad { corners, indices } => {
            let count = indices.len();
            let vertex_buffer = binder.create_vertex_buffer(corners);
            let index_buffer = binder.create_index_buffer(indices);
            calls.push(Action::CreateBuffer { buffer: vertex_buffer });
            calls.push(Action::CreateBuffer { buffer: index_buffer });
            assert(binder@.buffers =~= old(binder)@.buffers + content_buffers(content));
            DrawPlan::Quad { vertex_buffer, index_buffer, indices: count }
        },
        Content::Layered { corners, indices, foreground_textures } => {
            let count = indices.len();
            let vertex_buffer = binder.create_vertex_buffer(corners);
            let index_buffer = binder.create_index_buffer(indices);
            calls.push(Action::CreateBuffer { buffer: vertex_buffer });
            calls.push(Action::CreateBuffer { buffer: index_buffer });
            let first = binder.texture_count();
            allocate_textures(binder, calls, &foreground_textures);
            let views = resource_list(uniform, first, binder.texture_count());
            allocate_bind_set(binder, sets, calls, layout, views);
            let mover_index_buffer = binder.create_index_buffer(quad_index_list());
            let mover_vertex_buffer = binder.create_vertex_buffer(MovingQuad::new().vertices());
            calls.push(Action::CreateBuffer { buffer: mover_index_buffer });
            calls.push(Action::CreateBuffer { buffer: mover_vertex_buffer });
            assert(binder@.buffers =~= old(binder)@.buffers + content_buffers(content));
            DrawPlan::Layered {
                vertex_buffer,
                index_buffer,
                indices: count,
                mover_vertex_buffer,
                mover_index_buffer,
            }
        },
    }
}

/// The resources of a scene, once they are allocated.
pub(crate) struct SceneResources {
    pub(crate) binder: ResourceBinder,
    pub(crate) bind_sets: Vec<BindSet>,
    pub(crate) plan: DrawPlan,
    pub(crate) uniform: Option<BufferHandle>,
}

/// Allocates what the scene draws with: the uniform, the textures,
/// the bind set, the content, in this order.
pub(crate) fn allocate_scene(
    layout: &BindGroupLayout,
    uniform: Option<Vec<u8>>,
    textures: Vec<u32>,
    content: Option<Content>,
    groups: TaskGroups,
    calls: &mut Vec<Action>,
) -> (made: SceneResources)
    ensures
        made.binder.wf(),
        made.binder@ == scene_binder(uniform, textures@, content),
        set_views(made.bind_sets@) == scene_bind_sets(
            layout@,
            uniform,
            textures@.len() as int,
            content,
        ),
        made.plan == (match content {
            Some(content) => content_plan(content, content_base(uniform)),
            None => DrawPlan::MeshTasks { groups },
        }),
        made.uniform == uniform_slot(uniform),
        final(calls)@ == old(calls)@ + resource_calls(
            layout@,
            uniform,
            textures@.len() as int,
            content,
        ),
{
    let mut binder = ResourceBinder::new();
    let mut bind_sets: Vec<BindSet> = Vec::new();
    let handle = allocate_uniform(&mut binder, calls, uniform);
    allocate_textures(&mut binder, calls, &textures);
    let views = resource_list(handle, 0, binder.texture_count());
    allocate_bind_set(&binder, &mut bind_sets, calls, layout, views);
    let plan = match content {
        Some(content) => allocate_content(
            &mut binder,
            &mut bind_sets,
            calls,
            layout,
            handle,
            content,
        ),
        None => DrawPlan::MeshTasks { groups },
    };
    SceneResources { binder, bind_sets, plan, uniform: handle }
}

} // verus!
