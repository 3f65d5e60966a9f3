//! The order that the commands of a command buffer have to keep: passes
//! do not nest, everything else stands inside a pass, and a draw finds
//! bound what it reads.

use crate::backend::{BindSlot, Command, LoadOp, PipelineSlot};
use crate::compositor::{overlay_pass, CompositorView};
use crate::model::{
    draw_commands, frame_commands, frame_model, frame_verdict, holds_vertices, scene_pass, Model,
};
use crate::scene::DrawPlan;
use vstd::prelude::*;

verus! {

/// Where a recording stands: outside of any pass, or inside one, and
/// then what the pass has bound so far.
pub enum Recording {
    Outside,
    Inside { pipeline: bool, vertices: bool, indices: bool },
}

/// Where a recording stands after one more command; `None` once a
/// command came out of order.
pub open spec fn after_command(state: Option<Recording>, command: Command) -> Option<Recording> {
    match state {
        None => None,
        Some(Recording::Outside) => match command {
            Command::BeginPass { .. } => Some(
                Recording::Inside { pipeline: false, vertices: false, indices: false },
            ),
            _ => None,
        },
        Some(Recording::Inside { pipeline, vertices, indices }) => match command {
            Command::BeginPass { .. } => None,
            Command::EndPass => Some(Recording::Outside),
            Command::SetPipeline { .. } => Some(
                Recording::Inside { pipeline: true, vertices, indices },
            ),
            Command::SetBindGroup { .. } => state,
            Command::SetVertexBuffer { .. } => Some(
                Recording::Inside { pipeline, vertices: true, indices },
            ),
            Command::SetIndexBuffer { .. } => Some(
                Recording::Inside { pipeline, vertices, indices: true },
            ),
            Command::Draw { .. } => if pipeline {
                state
            } else {
                None
            },
            Command::DrawIndexed { .. } => if pipeline && vertices && indices {
                state
            } else {
                None
            },
            Command::DrawMeshTasks { .. } => if pipeline {
                state
            } else {
                None
            },
        },
    }
}

/// Where a recording stands after `commands`, in order.
pub open spec fn after_commands(state: Option<Recording>, commands: Seq<Command>) -> Option<
    Recording,
>
    decreases commands.len(),
{
    if commands.len() == 0 {
        state
    } else {
        after_command(after_commands(state, commands.drop_last()), commands.last())
    }
}

/// Whether `commands` make up a command buffer: whole passes, one
/// after another, each in order.
pub open spec fn well_recorded(commands: Seq<Command>) -> bool {
    after_commands(Some(Recording::Outside), commands) == Some(Recording::Outside)
}

/// How many passes `commands` begin.
pub open spec fn passes(commands: Seq<Command>) -> nat
    decreases commands.len(),
{
    if commands.len() == 0 {
        0
    } else {
        passes(commands.drop_last()) + (if commands.last() is BeginPass {
            1nat
        } else {
            0nat
        })
    }
}

/// One command more.
proof fn one_more(state: Option<Recording>, commands: Seq<Command>, command: Command)
    ensures
        after_commands(state, commands.push(command)) == after_command(
            after_commands(state, commands),
            command,
        ),
        passes(commands.push(command)) == passes(commands) + (if command is BeginPass {
            1nat
        } else {
            0nat
        }),
{
    assert(commands.push(command).drop_last() =~= commands);
}

/// Recording two lists one after the other is recording the one that
/// they make together.
pub proof fn recorded_in_turn(state: Option<Recording>, first: Seq<Command>, second: Seq<Command>)
    ensures
        after_commands(state, first + second) == after_commands(
            after_commands(state, first),
            second,
        ),
        passes(first + second) == passes(first) + passes(second),
    decreases second.len(),
{
    if second.len() > 0 {
        recorded_in_turn(state, first, second.drop_last());
        assert((first + second).drop_last() =~= first + second.drop_last());
    }
}

/// The draws of a plan, recorded in a pass with the pipeline bound,
/// leave the pass open and the pipeline bound, and begin no pass.
proof fn draws_stay_in_the_pass(plan: DrawPlan, foreground_bound: bool, vertices: bool, indices: bool)
    ensures
        after_commands(
            Some(Recording::Inside { pipeline: true, vertices, indices }),
            draw_commands(plan, foreground_bound),
        ) matches Some(Recording::Inside { pipeline: true, .. }),
        passes(draw_commands(plan, foreground_bound)) == 0,
{
    let begin = Some(Recording::Inside { pipeline: true, vertices, indices });
    let none = Seq::<Command>::empty();
    match plan {
        DrawPlan::Generated { vertices: count } => {
            one_more(begin, none, Command::Draw { vertices: count });
        },
        DrawPlan::MeshTasks { groups } => {
            let dispatch = Command::DrawMeshTasks { x: groups.x, y: groups.y, z: groups.z };
            one_more(begin, none, dispatch);
        },
        DrawPlan::Quad { vertex_buffer, index_buffer, indices: count } => {
            let a = Command::SetVertexBuffer { slot: 0, buffer: vertex_buffer };
            let b = Command::SetIndexBuffer { buffer: index_buffer };
            let c = Command::DrawIndexed { indices: count };
            one_more(begin, none, a);
            one_more(begin, none.push(a), b);
            one_more(begin, none.push(a).push(b), c);
            assert(draw_commands(plan, foreground_bound) =~= none.push(a).push(b).push(c));
        },
        DrawPlan::Layered {
            vertex_buffer,
            index_buffer,
            indices: count,
            mover_vertex_buffer,
            mover_index_buffer,
        } => {
            let a = Command::SetVertexBuffer { slot: 0, buffer: vertex_buffer };
            let b = Command::SetIndexBuffer { buffer: index_buffer };
            let c = Command::DrawIndexed { indices: count };
            let back = none.push(a).push(b).push(c);
            one_more(begin, none, a);
            one_more(begin, none.push(a), b);
            one_more(begin, none.push(a).push(b), c);
            let middle = after_commands(begin, back);
            let bind = if foreground_bound {
                none.push(Command::SetBindGroup { index: 0, set: BindSlot::Scene(1) })
            } else {
                none
            };
            if foreground_bound {
                one_more(
                    middle,
                    none,
                    Command::SetBindGroup { index: 0, set: BindSlot::Scene(1) },
                );
            }
            let bound = after_commands(middle, bind);
            let d = Command::SetVertexBuffer { slot: 0, buffer: mover_vertex_buffer };
            let e = Command::SetIndexBuffer { buffer: mover_index_buffer };
            let f = Command::DrawIndexed { indices: 6 };
            let front = none.push(d).push(e).push(f);
            one_more(bound, none, d);
            one_more(bound, none.push(d), e);
            one_more(bound, none.push(d).push(e), f);
            recorded_in_turn(begin, back, bind);
            recorded_in_turn(begin, back + bind, front);
            assert(draw_commands(plan, foreground_bound) =~= back + bind + front);
        },
    }
}

/// The scene pass is one whole pass.
pub proof fn scene_pass_is_whole(held: Model)
    ensures
        well_recorded(scene_pass(held)),
        passes(scene_pass(held)) == 1,
{
    let outside = Some(Recording::Outside);
    let none = Seq::<Command>::empty();
    let begin = Command::BeginPass {
        color: LoadOp::Clear(held.clear),
        depth: held.depth_test,
    };
    let pipeline = Command::SetPipeline { pipeline: PipelineSlot::Scene };
    let head = none.push(begin).push(pipeline);
    one_more(outside, none, begin);
    one_more(outside, none.push(begin), pipeline);
    let bind_command = Command::SetBindGroup { index: 0, set: BindSlot::Scene(0) };
    let bind = if held.bind_sets.len() > 0 {
        none.push(bind_command)
    } else {
        none
    };
    let opened = after_commands(outside, head);
    if held.bind_sets.len() > 0 {
        one_more(opened, none, bind_command);
    }
    let draws = draw_commands(held.plan, held.bind_sets.len() > 1);
    draws_stay_in_the_pass(held.plan, held.bind_sets.len() > 1, false, false);
    let end = none.push(Command::EndPass);
    recorded_in_turn(outside, head, bind);
    recorded_in_turn(outside, head + bind, draws);
    one_more(after_commands(outside, head + bind + draws), none, Command::EndPass);
    recorded_in_turn(outside, head + bind + draws, end);
    assert(scene_pass(held) =~= head + bind + draws + end);
}

/// The overlay pass is one whole pass.
pub proof fn overlay_pass_is_whole(compositor: CompositorView)
    ensures
        well_recorded(overlay_pass(compositor)),
        passes(overlay_pass(compositor)) == 1,
{
    let outside = Some(Recording::Outside);
    let none = Seq::<Command>::empty();
    let a = Command::BeginPass { color: LoadOp::Load, depth: false };
    let b = Command::SetPipeline { pipeline: PipelineSlot::Overlay };
    let c = Command::SetBindGroup { index: 0, set: BindSlot::Overlay };
    let d = Command::SetVertexBuffer { slot: 0, buffer: compositor.vertex_buffer };
    let e = Command::SetIndexBuffer { buffer: compositor.index_buffer };
    let f = Command::DrawIndexed { indices: 6 };
    let g = Command::EndPass;
    one_more(outside, none, a);
    one_more(outside, none.push(a), b);
    one_more(outside, none.push(a).push(b), c);
    one_more(outside, none.push(a).push(b).push(c), d);
    one_more(outside, none.push(a).push(b).push(c).push(d), e);
    one_more(outside, none.push(a).push(b).push(c).push(d).push(e), f);
    one_more(outside, none.push(a).push(b).push(c).push(d).push(e).push(f), g);
    assert(overlay_pass(compositor) =~= none.push(a).push(b).push(c).push(d).push(e).push(f).push(
        g,
    ));
}

/// The command buffer of every frame is well recorded: the scene pass,
/// whole, and behind it the overlay pass, whole, where there is a
/// compositor. So the overlay is drawn over what the scene pass left
/// in the view.
pub proof fn frame_is_well_recorded(held: Model)
    ensures
        well_recorded(frame_commands(held)),
        passes(frame_commands(held)) == (if held.compositor is Some {
            2nat
        } else {
            1nat
        }),
        frame_commands(held).subrange(0, scene_pass(held).len() as int) == scene_pass(held),
        held.compositor matches Some(compositor) ==> frame_commands(held).subrange(
            scene_pass(held).len() as int,
            frame_commands(held).len() as int,
        ) == overlay_pass(compositor),
{
    scene_pass_is_whole(held);
    match held.compositor {
        Some(compositor) => {
            overlay_pass_is_whole(compositor);
            recorded_in_turn(
                Some(Recording::Outside),
                scene_pass(held),
                overlay_pass(compositor),
            );
        },
        None => {
        },
    }
}

/// Whether what the command names exists in what the loop holds: the
/// bind sets, the buffers, each of the kind it is bound as, the
/// compositor's pipeline, and a depth target for a pass that tests
/// depth.
pub open spec fn command_lives(held: Model, command: Command) -> bool {
    match command {
        Command::BeginPass { depth, .. } => depth ==> held.depth() is Some,
        Command::SetPipeline { pipeline } => pipeline == PipelineSlot::Overlay
            ==> held.compositor is Some,
        Command::SetBindGroup { set, .. } => match set {
            BindSlot::Scene(place) => place < held.bind_sets.len(),
            BindSlot::Overlay => held.compositor is Some,
        },
        Command::SetVertexBuffer { buffer, .. } => holds_vertices(held.binder, buffer),
        Command::SetIndexBuffer { buffer } => buffer.0 < held.binder.buffers.len()
            && held.binder.buffers[buffer.0 as int] is Indices,
        _ => true,
    }
}

/// No command of a frame names what does not exist: every buffer,
/// bind set and target that the command buffer uses is held by the
/// loop when the command buffer is submitted.
pub proof fn frame_names_what_exists(held: Model, elapsed: Seq<u8>)
    requires
        held.wf(),
        frame_verdict(held, elapsed) is Ok,
    ensures
        forall|i: int|
            0 <= i < frame_commands(held).len() ==> command_lives(
                frame_model(held, elapsed),
                #[trigger] frame_commands(held)[i],
            ),
{
    let after = frame_model(held, elapsed);
    let scene = scene_pass(held);
    let draws = draw_commands(held.plan, held.bind_sets.len() > 1);
    let lead: int = if held.bind_sets.len() > 0 {
        3
    } else {
        2
    };
    assert forall|i: int| 0 <= i < scene.len() implies command_lives(after, #[trigger] scene[i]) by {
        if lead <= i < lead + draws.len() {
            assert(scene[i] == draws[i - lead]);
        }
    }
    assert forall|i: int| 0 <= i < frame_commands(held).len() implies command_lives(
        after,
        #[trigger] frame_commands(held)[i],
    ) by {
        if i < scene.len() {
            assert(frame_commands(held)[i] == scene[i]);
        } else {
            assert(frame_commands(held)[i] == overlay_pass(held.compositor->Some_0)[i
                - scene.len()]);
        }
    }
}

} // verus!
