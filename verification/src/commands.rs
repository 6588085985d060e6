//! The per-frame command sequence: clear the render target to the fixed
//! background color, bind the pipeline and the static vertex buffer, and
//! issue a single non-indexed draw over the whole triangle.

use vstd::prelude::*;

verus! {

/// How many vertices the static triangle holds.
pub const TRIANGLE_VERTEX_COUNT: u32 = 3;

/// An RGBA color with each channel in thousandths of full intensity
/// (0 is black, 1000 is full).
#[derive(Copy, Clone, PartialEq, Eq, Structural, Debug)]
pub struct Color {
    pub red_milli: u16,
    pub green_milli: u16,
    pub blue_milli: u16,
    pub alpha_milli: u16,
}

/// The fixed background color the target is cleared to every frame.
pub open spec fn background_color() -> Color {
    Color { red_milli: 100, green_milli: 200, blue_milli: 300, alpha_milli: 1000 }
}

/// One recorded command of a frame's render pass.
#[derive(Copy, Clone, PartialEq, Eq, Structural, Debug)]
pub enum Command {
    /// Clear the frame's render target to the given color.
    ClearTarget(Color),
    /// Bind the render pipeline object.
    BindPipeline,
    /// Bind the static vertex buffer at slot 0.
    BindVertexBuffer,
    /// A non-indexed draw over `[first_vertex, first_vertex + vertex_count)`
    /// and instances `[first_instance, first_instance + instance_count)`.
    Draw {
        first_vertex: u32,
        vertex_count: u32,
        first_instance: u32,
        instance_count: u32,
    },
}

/// The whole command sequence of one frame: clear, bind pipeline, bind
/// buffer, then exactly one draw of vertex range [0, 3) and instance
/// range [0, 1).
pub open spec fn frame_commands() -> Seq<Command> {
    seq![
        Command::ClearTarget(background_color()),
        Command::BindPipeline,
        Command::BindVertexBuffer,
        Command::Draw {
            first_vertex: 0,
            vertex_count: TRIANGLE_VERTEX_COUNT,
            first_instance: 0,
            instance_count: 1,
        },
    ]
}

/// Records one frame's commands. The result is always the same fixed
/// sequence ending in a single draw of vertex range [0, 3) with instance
/// range [0, 1).
pub fn record_frame_commands() -> (cmds: Vec<Command>)
    ensures
        cmds@ == frame_commands(),
{
    let mut cmds: Vec<Command> = Vec::new();
    cmds.push(
        Command::ClearTarget(
            Color { red_milli: 100, green_milli: 200, blue_milli: 300, alpha_milli: 1000 },
        ),
    );
    cmds.push(Command::BindPipeline);
    cmds.push(Command::BindVertexBuffer);
    cmds.push(
        Command::Draw {
            first_vertex: 0,
            vertex_count: TRIANGLE_VERTEX_COUNT,
            first_instance: 0,
            instance_count: 1,
        },
    );
    proof {
        assert(cmds@ =~= frame_commands());
    }
    cmds
}

} // verus!
