use vstd::prelude::*;

use crate::command::{Command, Topology};

verus! {

/// A vertex array object together with the number of vertices it holds,
/// which the driver's name alone cannot tell, and the attribute slots that
/// already have a buffer.
#[derive(Debug)]
pub struct VertexArray {
    vertex_array: u32,
    length: i32,
    slots: Vec<u32>,
}

/// Why a buffer could not be attached to a vertex array.
#[derive(Clone, Copy, Debug, PartialEq, Eq, Structural)]
pub enum BufferError {
    /// The number of components per vertex is outside `1..=4`.
    ComponentWidth { size: i32 },
    /// The values do not split into whole vertices.
    PartialVertex { value_count: usize, size: i32 },
    /// The values hold another number of vertices than the vertex array.
    VertexCount { vertices: usize, length: i32 },
    /// The attribute slot already has a buffer.
    SlotTaken { index: u32 },
}

/// Number of vertices in `value_count` values of `size` components each.
pub open spec fn vertex_count(value_count: int, size: int) -> int {
    value_count / size
}

/// Outcome of attaching `value_count` values of `size` components to a
/// vertex array of `length` vertices whose taken slots are `slots`.
pub open spec fn buffer_check(value_count: int, size: int, length: int, slots: Seq<u32>, index: u32) -> Result<(), BufferError> {
    if size < 1 || size > 4 {
        Err(BufferError::ComponentWidth { size: size as i32 })
    } else if value_count % size != 0 {
        Err(BufferError::PartialVertex { value_count: value_count as usize, size: size as i32 })
    } else if vertex_count(value_count, size) != length {
        Err(BufferError::VertexCount { vertices: vertex_count(value_count, size) as usize, length: length as i32 })
    } else if slots.contains(index) {
        Err(BufferError::SlotTaken { index })
    } else {
        Ok(())
    }
}

/// Commands that fill `buffer` with `value_count` 32-bit floats and wire it
/// to attribute `index` of `vertex_array`, `size` components per vertex.
pub open spec fn buffer_sequence(vertex_array: u32, buffer: u32, value_count: int, size: i32, index: u32) -> Seq<Command> {
    seq![
        Command::BindVertexArray(vertex_array),
        Command::BindArrayBuffer(buffer),
        Command::BufferStaticData { byte_len: (value_count * 4) as usize },
        Command::EnableVertexAttribArray(index),
        Command::VertexAttribFloats { index, size },
    ]
}

/// The draw call of a vertex array of `length` vertices.
pub open spec fn draw_sequence(vertex_array: u32, length: i32, mode: Topology) -> Seq<Command> {
    seq![
        Command::BindVertexArray(vertex_array),
        Command::DrawArrays { mode, first: 0, count: length },
    ]
}

impl VertexArray {
    /// The driver's name of the vertex array.
    pub closed spec fn handle(&self) -> u32 {
        self.vertex_array
    }

    /// The number of vertices every attached buffer holds.
    pub closed spec fn length(&self) -> i32 {
        self.length
    }

    /// The attribute slots that have a buffer, in the order they were filled.
    pub closed spec fn slots(&self) -> Seq<u32> {
        self.slots@
    }

    /// A vertex count is never negative and no slot has two buffers.
    pub open spec fn wf(&self) -> bool {
        &&& self.length() >= 0
        &&& self.slots().no_duplicates()
    }

    /// The driver's name of the vertex array.
    pub fn name(&self) -> (r: u32)
        ensures
            r == self.handle(),
    {
        self.vertex_array
    }

    /// The number of vertices it holds.
    pub fn len(&self) -> (r: i32)
        ensures
            r == self.length(),
    {
        self.length
    }
}

/// Records the vertex array the driver named `vertex_array`, which will hold
/// `length` vertices; `None` for a negative length.
pub fn gen_vertex_array(vertex_array: u32, length: i32) -> (r: Option<VertexArray>)
    ensures
        r is None <==> length < 0,
        r matches Some(va) ==> {
            &&& va.wf()
            &&& va.handle() == vertex_array
            &&& va.length() == length
            &&& va.slots() == Seq::<u32>::empty()
        },
{
    if length < 0 {
        None
    } else {
        let r = VertexArray { vertex_array, length, slots: Vec::new() };
        assert(r.slots@ =~= Seq::<u32>::empty());
        Some(r)
    }
}

/// Attaches a buffer named `buffer`, holding `value_count` floats of `size`
/// components per vertex, to attribute slot `attrib_index` of `vertex_array`,
/// and returns the commands that upload and describe it.
///
/// The values must split into exactly as many vertices as the vertex array
/// holds, `size` must be in `1..=4` and the slot must be free; otherwise the
/// vertex array is left as it was.
pub fn gen_buffer(
    vertex_array: &mut VertexArray,
    buffer: u32,
    value_count: usize,
    size: i32,
    attrib_index: u32,
) -> (r: Result<Vec<Command>, BufferError>)
    requires
        old(vertex_array).wf(),
        value_count * 4 <= isize::MAX,
    ensures
        final(vertex_array).wf(),
        final(vertex_array).handle() == old(vertex_array).handle(),
        final(vertex_array).length() == old(vertex_array).length(),
        match buffer_check(value_count as int, size as int, old(vertex_array).length() as int, old(vertex_array).slots(), attrib_index) {
            Ok(()) => {
                &&& r matches Ok(cmds)
                &&& cmds@ == buffer_sequence(old(vertex_array).handle(), buffer, value_count as int, size, attrib_index)
                &&& final(vertex_array).slots() == old(vertex_array).slots().push(attrib_index)
            },
            Err(e) => {
                &&& r == Err::<Vec<Command>, BufferError>(e)
                &&& final(vertex_array).slots() == old(vertex_array).slots()
            },
        },
{
    if size < 1 || size > 4 {
        return Err(BufferError::ComponentWidth { size });
    }
    let width = size as usize;
    if value_count % width != 0 {
        return Err(BufferError::PartialVertex { value_count, size });
    }
    let vertices = value_count / width;
    if vertices != vertex_array.length as usize {
        return Err(BufferError::VertexCount { vertices, length: vertex_array.length });
    }
    let mut taken = false;
    let mut i: usize = 0;
    while i < vertex_array.slots.len()
        invariant
            i <= vertex_array.slots@.len(),
            taken <==> exists|j: int| 0 <= j < i && vertex_array.slots@[j] == attrib_index,
        decreases vertex_array.slots@.len() - i,
    {
        if vertex_array.slots[i] == attrib_index {
            taken = true;
        }
        i = i + 1;
    }
    if taken {
        return Err(BufferError::SlotTaken { index: attrib_index });
    }
    vertex_array.slots.push(attrib_index);
    Ok(vec![
        Command::BindVertexArray(vertex_array.vertex_array),
        Command::BindArrayBuffer(buffer),
        Command::BufferStaticData { byte_len: value_count * 4 },
        Command::EnableVertexAttribArray(attrib_index),
        Command::VertexAttribFloats { index: attrib_index, size },
    ])
}

/// Commands that draw every vertex of `vertex_array` as primitives of `mode`.
pub fn draw_arrays_as(vertex_array: &VertexArray, mode: Topology) -> (r: Vec<Command>)
    ensures
        r@ == draw_sequence(vertex_array.handle(), vertex_array.length(), mode),
{
    vec![
        Command::BindVertexArray(vertex_array.vertex_array),
        Command::DrawArrays { mode, first: 0, count: vertex_array.length },
    ]
}

/// Commands that draw every vertex of `vertex_array` as a triangle list.
pub fn draw_arrays(vertex_array: &VertexArray) -> (r: Vec<Command>)
    ensures
        r@ == draw_sequence(vertex_array.handle(), vertex_array.length(), Topology::Triangles),
{
    draw_arrays_as(vertex_array, Topology::Triangles)
}

/// A buffer accepted by a vertex array holds whole vertices, exactly as many
/// as the vertex array records, and the draw call of that vertex array then
/// covers all of them from the first.
pub proof fn accepted_buffer_matches_draw(
    vertex_array: u32,
    length: i32,
    slots: Seq<u32>,
    value_count: int,
    size: int,
    index: u32,
    mode: Topology,
)
    requires
        buffer_check(value_count, size, length as int, slots, index) is Ok,
    ensures
        value_count % size == 0,
        vertex_count(value_count, size) == length,
        value_count == length * size,
        draw_sequence(vertex_array, length, mode)[1] == (Command::DrawArrays {
            mode,
            first: 0,
            count: vertex_count(value_count, size) as i32,
        }),
{
    assert(value_count == size * (value_count / size) + value_count % size) by (nonlinear_arith)
        requires
            size >= 1,
    ;
    assert(size * (value_count / size) == (value_count / size) * size) by (nonlinear_arith);
}

} // verus!
