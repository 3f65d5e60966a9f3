//! What holds of the frame loop in every state and over every run.

use crate::backend::{Action, BindSlot, FatalError};
use crate::binder::{BindSetView, BinderView, BufferHandle, BufferView};
use crate::capability::Feature;
use crate::compositor::target_for;
use crate::context::{initialization, GraphicsContext};
use crate::model::{
    acquired_calls, acquired_commands, buffer_at, build_calls, built, closes, content_base,
    content_calls, content_of, depth_calls, drawn_view, fatal_actions, frame_actions, frame_model,
    frame_verdict, ready_model, resized_model, resource_calls, resource_lives, resumed_calls,
    resumed_view, scene_binder, scene_resources, set_lives, sound, started_view, texture_calls,
    texture_views, uniform_slot, window_calls, window_view, LoopView, Model,
};
use crate::motion::{position_after, steps_add_modulo_period, PERIOD};
use crate::pipeline::{layout_calls, BuildError, LayoutEntry, Pipeline};
use crate::scene::{Acquisition, Content, Program, SceneDescription, Startup, WindowEvent};
use crate::surface::resized_config;
use vstd::prelude::*;

verus! {

/// The resources of a bind set of the scene exist, where the textures
/// that it names are among those of the binder, and the uniform among
/// its buffers.
pub proof fn scene_resources_live(
    binder: BinderView,
    depth: bool,
    layout: Seq<LayoutEntry>,
    uniform: Option<BufferHandle>,
    first: int,
    count: int,
)
    requires
        0 <= first,
        0 <= count,
        first + count <= binder.textures.len() <= usize::MAX,
        uniform matches Some(handle) ==> handle.0 < binder.buffers.len(),
    ensures
        set_lives(
            binder,
            depth,
            BindSetView { layout, resources: scene_resources(uniform, first, count) },
        ),
{
    let resources = scene_resources(uniform, first, count);
    let views = texture_views(first, count);
    assert forall|j: int| 0 <= j < resources.len() implies resource_lives(
        binder,
        depth,
        #[trigger] resources[j],
    ) by {
        let lead: int = if uniform is Some {
            1
        } else {
            0
        };
        if j >= lead {
            let i = j - lead;
            assert(resources[j] == views[i]);
            assert(0 <= i / 2 < count);
        }
    }
}

/// What a loop holds that has just come up meets the invariant, where
/// the scene has no more textures than a handle can name.
pub proof fn ready_model_is_sound(
    scene: SceneDescription,
    context: GraphicsContext,
    pipeline: Pipeline,
    width: u32,
    height: u32,
)
    requires
        scene_binder(scene.uniform, scene.textures@, content_of(scene.program)).textures.len()
            <= usize::MAX,
    ensures
        ready_model(scene, context, pipeline, width, height).wf(),
{
    let held = ready_model(scene, context, pipeline, width, height);
    let content = content_of(scene.program);
    let textures = scene.textures@.len() as int;
    let uniform = uniform_slot(scene.uniform);
    match content {
        Some(Content::Quad { corners, indices }) => {
            assert(indices@.len() == indices.len());
        },
        Some(Content::Layered { corners, indices, .. }) => {
            assert(indices@.len() == indices.len());
        },
        _ => {},
    }
    if scene.layout@.len() != 0 {
        scene_resources_live(
            held.binder,
            held.depth() is Some,
            scene.layout@,
            uniform,
            0,
            textures,
        );
        match content {
            Some(Content::Layered { foreground_textures, .. }) => {
                scene_resources_live(
                    held.binder,
                    held.depth() is Some,
                    scene.layout@,
                    uniform,
                    textures,
                    foreground_textures@.len() as int,
                );
            },
            _ => {},
        }
    }
    assert forall|i: int| 0 <= i < held.bind_sets.len() implies set_lives(
        held.binder,
        held.depth() is Some,
        #[trigger] held.bind_sets[i],
    ) by {}
}

/// Every transition leaves the invariant in force, whatever the event
/// and whatever came of the calls; so it holds in every state that a
/// loop can reach. In particular no resize, to whatever size, leaves a
/// dimension of the surface zero, and no frame leaves a handle that
/// names nothing.
pub proof fn every_transition_is_sound(
    before: LoopView,
    startup: Startup,
    event: WindowEvent,
    frame: Acquisition,
)
    requires
        sound(before),
        before matches LoopView::Uninitialized(scene) ==> scene_binder(
            scene.uniform,
            scene.textures@,
            content_of(scene.program),
        ).textures.len() <= usize::MAX,
    ensures
        sound(started_view(before, startup)),
        sound(window_view(before, event)),
        sound(drawn_view(before, frame)),
{
    match before {
        LoopView::Uninitialized(scene) => {
            match initialization(startup.adapter, scene.required, startup.device) {
                Err(_) => {},
                Ok(context) => match built(context, scene.layout@, scene.program) {
                    Err(_) => {},
                    Ok(pipeline) => {
                        ready_model_is_sound(
                            scene,
                            context,
                            pipeline,
                            startup.width,
                            startup.height,
                        );
                    },
                },
            }
        },
        _ => {},
    }
}

/// A resize to a size with a zero in it configures a one in its place,
/// and the depth target follows the surface. Nothing else changes: the
/// pipeline in particular is not built again.
pub proof fn resize_follows_the_clamped_size(held: Model, width: u32, height: u32)
    ensures
        resized_model(held, width, height).config == resized_config(held.config, width, height),
        width == 0 ==> resized_model(held, width, height).config.width == 1,
        height == 0 ==> resized_model(held, width, height).config.height == 1,
        held.depth() is Some ==> resized_model(held, width, height).depth() == Some(
            target_for(resized_config(held.config, width, height)),
        ),
        held.depth() is None ==> resized_model(held, width, height).depth() is None,
        resized_model(held, width, height).pipeline == held.pipeline,
        resized_model(held, width, height).binder == held.binder,
        resized_model(held, width, height).bind_sets == held.bind_sets,
        resized_model(held, width, height).position == held.position,
{
}

/// Resizing twice to one size leaves what resizing once leaves.
pub proof fn resize_is_idempotent(held: Model, width: u32, height: u32)
    ensures
        resized_model(resized_model(held, width, height), width, height) == resized_model(
            held,
            width,
            height,
        ),
{
}

/// A mesh-shading program does not come up on an adapter without the
/// mesh-shader feature, whether or not the scene asks for the
/// feature: the loop closes, and the backend is asked for nothing.
pub proof fn mesh_program_needs_mesh_shader(scene: SceneDescription, startup: Startup)
    requires
        scene.program is MeshShading,
        startup.adapter matches Some(found) ==> !found.features@.contains(Feature::MeshShader),
    ensures
        resumed_view(scene, startup) == LoopView::Closed,
        initialization(startup.adapter, scene.required, startup.device) matches Err(e)
            ==> resumed_calls(scene, startup) == seq![
            Action::Fatal { error: FatalError::Init(e) },
            Action::Exit,
        ],
        initialization(startup.adapter, scene.required, startup.device) is Ok ==> resumed_calls(
            scene,
            startup,
        ) == seq![
            Action::Fatal { error: FatalError::Build(BuildError::MissingFeature) },
            Action::Exit,
        ],
{
    match initialization(startup.adapter, scene.required, startup.device) {
        Err(e) => {},
        Ok(context) => {
            let found = startup.adapter->Some_0;
            GraphicsContext::made_of_holds(
                scene.required,
                found.formats@[0],
                found.present_modes@[0],
            );
        },
    }
}

/// A classic program one of whose modules declares another number of
/// bindings than the layout does not come up: the loop closes on the
/// mismatch, the backend is asked for nothing, and so nothing is ever
/// drawn.
pub proof fn mismatched_program_never_draws(scene: SceneDescription, startup: Startup)
    requires
        scene.program matches Program::Classic { vertex, fragment, .. }
            && (vertex.module.bindings@.len() != scene.layout@.len()
            || fragment.module.bindings@.len() != scene.layout@.len()),
        initialization(startup.adapter, scene.required, startup.device) is Ok,
    ensures
        resumed_view(scene, startup) == LoopView::Closed,
        resumed_calls(scene, startup) == seq![
            Action::Fatal { error: FatalError::Build(BuildError::LayoutMismatch) },
            Action::Exit,
        ],
{
}

/// Whoever closes a running loop releases the surface before the
/// window, and releases each once.
pub proof fn surface_goes_before_window(before: LoopView, event: WindowEvent)
    requires
        closes(event),
        before.model() is Some,
    ensures
        window_view(before, event) == LoopView::Closed,
        released_in_order(window_calls(before, event)),
{
}

/// A loop that ends on an error releases the surface before the
/// window too.
pub proof fn fatal_end_releases_in_order(error: FatalError)
    ensures
        released_in_order(fatal_actions(error)),
{
    assert(fatal_actions(error)[1] == Action::ReleaseSurface);
    assert(fatal_actions(error)[2] == Action::ReleaseWindow);
}

/// Whether `calls` release surface and window, each once, and the
/// surface first.
pub open spec fn released_in_order(calls: Seq<Action>) -> bool {
    exists|surface: int, window: int|
        {
            &&& 0 <= surface < window < calls.len()
            &&& calls[surface] == Action::ReleaseSurface
            &&& calls[window] == Action::ReleaseWindow
            &&& forall|i: int|
                0 <= i < calls.len() && i != surface ==> calls[i] != Action::ReleaseSurface
            &&& forall|i: int|
                0 <= i < calls.len() && i != window ==> calls[i] != Action::ReleaseWindow
        }
}

/// What the device holds for the uniform buffer `buffer` when the host
/// has made `calls`, in order, and held `before` at first. Only two
/// calls change it, the write to the buffer and its creation: each
/// copies what the binder holds.
pub open spec fn device_holds(
    before: Seq<u8>,
    binder: BinderView,
    buffer: BufferHandle,
    calls: Seq<Action>,
) -> Seq<u8>
    decreases calls.len(),
{
    if calls.len() == 0 {
        before
    } else if calls.last() == (Action::WriteBuffer { buffer }) || calls.last() == (
    Action::CreateBuffer { buffer }) {
        match binder.buffers[buffer.0 as int] {
            BufferView::Uniform { bytes } => bytes,
            _ => before,
        }
    } else {
        device_holds(before, binder, buffer, calls.drop_last())
    }
}

/// Whether the submission among `calls` is the call at `place`, and
/// the only one.
pub open spec fn submits_at(calls: Seq<Action>, place: int) -> bool {
    &&& 0 <= place < calls.len()
    &&& forall|i: int| 0 <= i < calls.len() ==> (calls[i] == Action::Submit <==> i == place)
}

/// Where the submission stands among the calls of a frame: behind the
/// write of the uniform and the rebuilding of the moving quad, as far
/// as the scene has them.
pub open spec fn submission_place(held: Model) -> int {
    (if held.uniform is Some {
        1int
    } else {
        0int
    }) + (if held.plan is Layered {
        1int
    } else {
        0int
    })
}

/// Every frame that is drawn submits one command buffer, and presents
/// after it.
pub proof fn frame_submits_once(held: Model)
    ensures
        submits_at(frame_actions(held), submission_place(held)),
        frame_actions(held).len() == submission_place(held) + 2,
        frame_actions(held).last() == Action::Present,
{
    assert(frame_actions(held)[submission_place(held)] == Action::Submit);
}

/// The draws of a frame read the value of the uniform that came with
/// this frame, whatever the device held before: the value is written
/// before the command buffer is submitted, and nothing is written
/// between.
pub proof fn draws_read_this_frames_uniform(held: Model, elapsed: Seq<u8>, stale: Seq<u8>)
    requires
        held.wf(),
        held.uniform is Some,
        frame_verdict(held, elapsed) is Ok,
    ensures
        device_holds(
            stale,
            frame_model(held, elapsed).binder,
            held.uniform->Some_0,
            frame_actions(held).take(submission_place(held)),
        ) == elapsed,
{
    let calls = frame_actions(held);
    let after = frame_model(held, elapsed).binder;
    let handle = held.uniform->Some_0;
    let first = calls.take(1);
    assert(device_holds(stale, after, handle, first) == elapsed);
    if held.plan is Layered {
        let both = calls.take(2);
        assert(both.drop_last() =~= first);
    }
}

/// Only a frame that is drawn submits: no window event does, no
/// skipped frame, no frame that ends the loop. And there is a command
/// buffer only where one is submitted.
pub proof fn only_a_drawn_frame_submits(
    before: LoopView,
    event: WindowEvent,
    held: Model,
    frame: Acquisition,
)
    ensures
        !window_calls(before, event).contains(Action::Submit),
        acquired_calls(held, frame).contains(Action::Submit) <==> (frame matches Acquisition::Acquired {
            elapsed,
        } && frame_verdict(held, elapsed@) is Ok),
        acquired_commands(held, frame).len() > 0 ==> acquired_calls(held, frame).contains(
            Action::Submit,
        ),
{
    frame_submits_once(held);
    match frame {
        Acquisition::Failed => {},
        Acquisition::Acquired { elapsed } => match frame_verdict(held, elapsed@) {
            Ok(()) => {
                assert(frame_actions(held)[submission_place(held)] == Action::Submit);
            },
            Err(e) => {},
        },
    }
}

/// What neither of two lists of calls holds, they do not hold together.
proof fn joined_lack(first: Seq<Action>, second: Seq<Action>, call: Action)
    requires
        !first.contains(call),
        !second.contains(call),
    ensures
        !(first + second).contains(call),
{
    if (first + second).contains(call) {
        let i = choose|i: int| 0 <= i < (first + second).len() && (first + second)[i] == call;
        if i < first.len() {
            assert(first[i] == call);
        } else {
            assert(second[i - first.len()] == call);
        }
    }
}

/// Startup submits nothing either.
pub proof fn startup_submits_nothing(scene: SceneDescription, startup: Startup)
    ensures
        !resumed_calls(scene, startup).contains(Action::Submit),
{
    let submit = Action::Submit;
    match initialization(startup.adapter, scene.required, startup.device) {
        Err(e) => {},
        Ok(context) => match built(context, scene.layout@, scene.program) {
            Err(e) => {},
            Ok(pipeline) => {
                let held = ready_model(scene, context, pipeline, startup.width, startup.height);
                let configured = seq![Action::ConfigureSurface { config: held.config }];
                let builds = build_calls(scene.layout@, scene.program);
                let textures = scene.textures@.len() as int;
                let content = content_of(scene.program);
                let base = content_base(scene.uniform);
                let bound = scene.layout@.len() != 0;
                let uniform_part = match scene.uniform {
                    Some(_) => seq![Action::CreateBuffer { buffer: buffer_at(0) }],
                    None => Seq::<Action>::empty(),
                };
                let set_part = if scene.layout@.len() == 0 {
                    Seq::<Action>::empty()
                } else {
                    seq![Action::CreateBindSet { set: BindSlot::Scene(0) }]
                };
                let content_part = match content {
                    Some(content) => content_calls(content, base, textures, bound),
                    None => Seq::<Action>::empty(),
                };
                match content {
                    Some(Content::Layered { foreground_textures, .. }) => {
                        let head = seq![
                            Action::CreateBuffer { buffer: buffer_at(base) },
                            Action::CreateBuffer { buffer: buffer_at(base + 1) },
                        ];
                        let middle = texture_calls(textures, foreground_textures@.len() as int);
                        let set = if bound {
                            seq![Action::CreateBindSet { set: BindSlot::Scene(1) }]
                        } else {
                            Seq::<Action>::empty()
                        };
                        let tail = seq![
                            Action::CreateBuffer { buffer: buffer_at(base + 2) },
                            Action::CreateBuffer { buffer: buffer_at(base + 3) },
                        ];
                        joined_lack(head, middle, submit);
                        joined_lack(head + middle, set, submit);
                        joined_lack(head + middle + set, tail, submit);
                    },
                    _ => {},
                }
                joined_lack(uniform_part, texture_calls(0, textures), submit);
                joined_lack(uniform_part + texture_calls(0, textures), set_part, submit);
                joined_lack(
                    uniform_part + texture_calls(0, textures) + set_part,
                    content_part,
                    submit,
                );
                let resources = resource_calls(scene.layout@, scene.uniform, textures, content);
                assert(!builds.contains(submit)) by {
                    let layout_part = layout_calls(scene.layout@);
                    let last = seq![Action::CreatePipelineLayout, Action::CreatePipeline];
                    match scene.program {
                        Program::Classic { vertex, fragment, .. } => {
                            let modules = seq![
                                Action::CreateShaderModule { module: vertex.module.id },
                                Action::CreateShaderModule { module: fragment.module.id },
                            ];
                            joined_lack(modules, layout_part, submit);
                            joined_lack(modules + layout_part, last, submit);
                        },
                        Program::MeshShading { task, mesh, fragment, .. } => {
                            let first = match task {
                                None => Seq::<Action>::empty(),
                                Some(stage) => seq![
                                    Action::CreateShaderModule { module: stage.module.id },
                                ],
                            };
                            let modules = seq![
                                Action::CreateShaderModule { module: mesh.module.id },
                                Action::CreateShaderModule { module: fragment.module.id },
                            ];
                            joined_lack(first, modules, submit);
                            joined_lack(first + modules, layout_part, submit);
                            joined_lack(first + modules + layout_part, last, submit);
                        },
                    }
                }
                joined_lack(configured, builds, submit);
                joined_lack(configured + builds, resources, submit);
                joined_lack(configured + builds + resources, depth_calls(held), submit);
            },
        },
    }
}

/// What the loop holds after one frame for each of `values`, in order.
pub open spec fn after_frames(held: Model, values: Seq<Seq<u8>>) -> Model
    decreases values.len(),
{
    if values.len() == 0 {
        held
    } else {
        frame_model(after_frames(held, values.drop_last()), values.last())
    }
}

/// The moving quad moves with the frames: after so many frames it is
/// where so many steps lead, which is their number more, modulo the
/// period; and after a whole period of frames it is where it was.
pub proof fn moving_quad_follows_the_frames(held: Model, values: Seq<Seq<u8>>)
    requires
        held.wf(),
        held.plan is Layered,
    ensures
        after_frames(held, values).plan == held.plan,
        after_frames(held, values).position == position_after(held.position, values.len()),
        after_frames(held, values).position == (held.position + values.len()) % (PERIOD as nat),
        values.len() == PERIOD ==> after_frames(held, values).position == held.position,
    decreases values.len(),
{
    steps_add_modulo_period(held.position, values.len());
    if values.len() > 0 {
        moving_quad_follows_the_frames(held, values.drop_last());
    }
}

/// A scene without a moving quad leaves the position alone.
pub proof fn still_scene_keeps_its_position(held: Model, elapsed: Seq<u8>)
    requires
        !(held.plan is Layered),
    ensures
        frame_model(held, elapsed).position == held.position,
{
}

} // verus!
