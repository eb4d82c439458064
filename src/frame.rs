use vstd::prelude::*;

use crate::command::{
    count_where,
    is_clear,
    is_draw,
    is_program_bind,
    is_texture_bind,
    Command,
    Topology,
};
use crate::mesh::{draw_arrays, draw_sequence, VertexArray};
use crate::texture::bind_texture;

verus! {

/// Gray of the cleared background, in thousandths of full intensity.
pub const CLEAR_GRAY: u16 = 300;

/// Full opacity, in thousandths.
pub const OPAQUE: u16 = 1000;

/// Commands that clear the color buffer to opaque gray and the depth buffer.
pub open spec fn clear_sequence() -> Seq<Command> {
    seq![
        Command::ClearColor { red: CLEAR_GRAY, green: CLEAR_GRAY, blue: CLEAR_GRAY, alpha: OPAQUE },
        Command::Clear { color: true, depth: true },
    ]
}

/// Commands of one frame: clear, bind the program, bind the texture to
/// `unit`, draw the vertex array as triangles.
pub open spec fn frame_sequence(program: u32, texture: u32, unit: u32, vertex_array: u32, length: i32) -> Seq<Command> {
    clear_sequence() + seq![Command::UseProgram(program)] + seq![
        Command::ActiveTexture(unit),
        Command::BindTexture2d(texture),
    ] + draw_sequence(vertex_array, length, Topology::Triangles)
}

/// Commands that clear the color and depth buffers.
pub fn clear() -> (r: Vec<Command>)
    ensures
        r@ == clear_sequence(),
{
    vec![
        Command::ClearColor { red: CLEAR_GRAY, green: CLEAR_GRAY, blue: CLEAR_GRAY, alpha: OPAQUE },
        Command::Clear { color: true, depth: true },
    ]
}

/// The command that makes `program` the active program.
pub fn use_program(program: u32) -> (r: Command)
    ensures
        r == Command::UseProgram(program),
{
    Command::UseProgram(program)
}

/// Commands of one frame that draws `vertex_array` with `program` and
/// `texture` bound to texture unit `unit`. The frame is then presented by
/// the caller.
pub fn render_frame(program: u32, texture: u32, unit: u32, vertex_array: &VertexArray) -> (r: Vec<
    Command,
>)
    ensures
        r@ == frame_sequence(program, texture, unit, vertex_array.handle(), vertex_array.length()),
{
    let mut r = clear();
    r.push(use_program(program));
    let mut t = bind_texture(texture, unit);
    r.append(&mut t);
    let mut d = draw_arrays(vertex_array);
    r.append(&mut d);
    r
}

/// A frame issues exactly one clear, one program bind, one texture bind and
/// one draw call, and its draw call covers the whole vertex array as a
/// triangle list from the first vertex. The sequence is a function of the
/// inputs alone, so every frame with the same inputs issues the same
/// commands.
pub proof fn frame_issues_each_step_once(
    program: u32,
    texture: u32,
    unit: u32,
    vertex_array: u32,
    length: i32,
)
    ensures
        count_where(frame_sequence(program, texture, unit, vertex_array, length), |c: Command| is_clear(c)) == 1,
        count_where(frame_sequence(program, texture, unit, vertex_array, length), |c: Command| is_program_bind(c)) == 1,
        count_where(frame_sequence(program, texture, unit, vertex_array, length), |c: Command| is_texture_bind(c)) == 1,
        count_where(frame_sequence(program, texture, unit, vertex_array, length), |c: Command| is_draw(c)) == 1,
        frame_sequence(program, texture, unit, vertex_array, length).last() == (Command::DrawArrays {
            mode: Topology::Triangles,
            first: 0,
            count: length,
        }),
{
    let s = frame_sequence(program, texture, unit, vertex_array, length);
    let t = seq![
        Command::ClearColor { red: CLEAR_GRAY, green: CLEAR_GRAY, blue: CLEAR_GRAY, alpha: OPAQUE },
        Command::Clear { color: true, depth: true },
        Command::UseProgram(program),
        Command::ActiveTexture(unit),
        Command::BindTexture2d(texture),
        Command::BindVertexArray(vertex_array),
        Command::DrawArrays { mode: Topology::Triangles, first: 0, count: length },
    ];
    assert(s =~= t);
    reveal_with_fuel(count_where, 8);
    assert(t.drop_last().drop_last().drop_last().drop_last().drop_last().drop_last().drop_last() =~= Seq::<Command>::empty());
}

/// Two frames drawn from the same program, texture, unit and vertex array
/// issue identical commands, draw parameters included.
pub proof fn frames_are_identical(
    program: u32,
    texture: u32,
    unit: u32,
    first: &VertexArray,
    second: &VertexArray,
)
    requires
        first.handle() == second.handle(),
        first.length() == second.length(),
    ensures
        frame_sequence(program, texture, unit, first.handle(), first.length()) == frame_sequence(
            program,
            texture,
            unit,
            second.handle(),
            second.length(),
        ),
{
}

} // verus!
