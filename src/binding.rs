use vstd::prelude::*;

use crate::command::{Command, Topology};
use crate::frame::frame_sequence;
use crate::mesh::buffer_sequence;

verus! {

/// The part of the driver's state that a draw call or an attribute
/// description reads: the active program, the selected texture unit, the
/// texture bound to each unit's 2D target, and the bound vertex array and
/// array buffer.
pub struct Bindings {
    pub program: Option<u32>,
    pub active_unit: u32,
    pub textures: Map<u32, u32>,
    pub vertex_array: Option<u32>,
    pub array_buffer: Option<u32>,
}

/// The bindings after the driver runs `c`.
pub open spec fn step(b: Bindings, c: Command) -> Bindings {
    match c {
        Command::UseProgram(p) => Bindings { program: Some(p), ..b },
        Command::ActiveTexture(u) => Bindings { active_unit: u, ..b },
        Command::BindTexture2d(t) => Bindings { textures: b.textures.insert(b.active_unit, t), ..b },
        Command::BindVertexArray(v) => Bindings { vertex_array: Some(v), ..b },
        Command::BindArrayBuffer(a) => Bindings { array_buffer: Some(a), ..b },
        _ => b,
    }
}

/// The bindings after the driver runs every command of `s`, from `b`.
pub open spec fn run(b: Bindings, s: Seq<Command>) -> Bindings
    decreases s.len(),
{
    if s.len() == 0 {
        b
    } else {
        step(run(b, s.drop_last()), s.last())
    }
}

/// Whatever was bound before, a frame's draw call runs with the frame's
/// program active, its texture bound to its texture unit and its vertex
/// array bound.
pub proof fn frame_draws_with_its_bindings(
    b: Bindings,
    program: u32,
    texture: u32,
    unit: u32,
    vertex_array: u32,
    length: i32,
)
    ensures
        ({
            let s = frame_sequence(program, texture, unit, vertex_array, length);
            let before = run(b, s.drop_last());
            &&& s.last() == (Command::DrawArrays { mode: Topology::Triangles, first: 0, count: length })
            &&& before.program == Some(program)
            &&& before.textures.contains_key(unit)
            &&& before.textures[unit] == texture
            &&& before.vertex_array == Some(vertex_array)
        }),
{
    let s = frame_sequence(program, texture, unit, vertex_array, length);
    let t = s.drop_last();
    assert(t.drop_last().drop_last().drop_last().drop_last().drop_last().drop_last() =~= Seq::<Command>::empty());
    reveal_with_fuel(run, 7);
}

/// Whatever was bound before, an attribute is described while the vertex
/// array it belongs to and the buffer just filled are bound.
pub proof fn attribute_reads_its_buffer(
    b: Bindings,
    vertex_array: u32,
    buffer: u32,
    value_count: int,
    size: i32,
    index: u32,
)
    ensures
        ({
            let s = buffer_sequence(vertex_array, buffer, value_count, size, index);
            let before = run(b, s.drop_last());
            &&& s.last() == (Command::VertexAttribFloats { index, size })
            &&& before.vertex_array == Some(vertex_array)
            &&& before.array_buffer == Some(buffer)
        }),
{
    let s = buffer_sequence(vertex_array, buffer, value_count, size, index);
    let t = s.drop_last();
    assert(t.drop_last().drop_last().drop_last().drop_last() =~= Seq::<Command>::empty());
    reveal_with_fuel(run, 5);
}

} // verus!
