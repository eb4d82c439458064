use vstd::prelude::*;

verus! {

/// How the vertices of a draw call are assembled into primitives.
#[derive(Clone, Copy, Debug, PartialEq, Eq, Structural)]
pub enum Topology {
    Triangles,
    Lines,
    Points,
}

/// Texel filtering of a sampler.
#[derive(Clone, Copy, Debug, PartialEq, Eq, Structural)]
pub enum Filter {
    Nearest,
    Linear,
}

/// Behaviour of texture coordinates outside `[0, 1]`.
#[derive(Clone, Copy, Debug, PartialEq, Eq, Structural)]
pub enum Wrap {
    Repeat,
    ClampToEdge,
    MirroredRepeat,
}

/// Pixel layouts a texture can be stored in: 8 bits per channel.
#[derive(Clone, Copy, Debug, PartialEq, Eq, Structural)]
pub enum PixelFormat {
    Rgb,
    Rgba,
}

/// One sampler setting of the texture bound to the 2D target.
#[derive(Clone, Copy, Debug, PartialEq, Eq, Structural)]
pub enum TexParameter {
    MinFilter(Filter),
    MagFilter(Filter),
    WrapS(Wrap),
    WrapT(Wrap),
}

/// One call into the graphics driver.
///
/// Object names (`u32`) are the ones the driver handed out. Colors are in
/// thousandths of full intensity. Bulk data (vertex values, pixels) is not
/// carried here: the command gives its size and the caller passes the bytes.
#[derive(Clone, Copy, Debug, PartialEq, Eq, Structural)]
pub enum Command {
    ClearColor { red: u16, green: u16, blue: u16, alpha: u16 },
    Clear { color: bool, depth: bool },
    AttachShader { program: u32, shader: u32 },
    LinkProgram(u32),
    DeleteShader(u32),
    UseProgram(u32),
    BindVertexArray(u32),
    BindArrayBuffer(u32),
    /// Upload `byte_len` bytes to the bound array buffer, for static drawing.
    BufferStaticData { byte_len: usize },
    EnableVertexAttribArray(u32),
    /// Attribute `index` reads `size` tightly packed 32-bit floats per
    /// vertex, not normalized, from the bound array buffer.
    VertexAttribFloats { index: u32, size: i32 },
    /// Select texture unit `unit` (0 for the first unit).
    ActiveTexture(u32),
    BindTexture2d(u32),
    TexParameter(TexParameter),
    /// Define level `level` of the bound 2D texture; `with_pixels` tells
    /// whether the caller's pixel bytes are uploaded or the storage is left
    /// undefined.
    TexImage2d { level: i32, format: PixelFormat, width: i32, height: i32, with_pixels: bool },
    GenerateMipmap,
    DrawArrays { mode: Topology, first: i32, count: i32 },
}

/// Number of commands in `s` that satisfy `p`.
pub open spec fn count_where(s: Seq<Command>, p: spec_fn(Command) -> bool) -> nat
    decreases s.len(),
{
    if s.len() == 0 {
        0
    } else {
        count_where(s.drop_last(), p) + if p(s.last()) {
            1nat
        } else {
            0nat
        }
    }
}

/// Number of times `c` occurs in `s`.
pub open spec fn occurrences(s: Seq<Command>, c: Command) -> nat {
    count_where(s, |x: Command| x == c)
}

pub open spec fn is_clear(c: Command) -> bool {
    c is Clear
}

pub open spec fn is_program_bind(c: Command) -> bool {
    c is UseProgram
}

pub open spec fn is_texture_bind(c: Command) -> bool {
    c is BindTexture2d
}

pub open spec fn is_draw(c: Command) -> bool {
    c is DrawArrays
}

pub open spec fn is_shader_delete(c: Command) -> bool {
    c is DeleteShader
}

} // verus!
