use vstd::prelude::*;

use crate::command::{count_where, is_shader_delete, occurrences, Command};

verus! {

/// The two programmable stages a program is linked from.
#[derive(Clone, Copy, Debug, PartialEq, Eq, Structural)]
pub enum ShaderStage {
    Vertex,
    Fragment,
}

/// Why a shader stage or a program could not be built.
#[derive(Debug)]
pub enum ShaderError {
    /// The source text does not end with a nul byte.
    MissingNulTerminator,
    /// The source text holds a nul byte before its last byte.
    InteriorNul { position: usize },
    /// The driver rejected the stage; `log` is its diagnostic text.
    CompileFailed { stage: ShaderStage, log: Vec<u8> },
    /// The driver could not link the program; `log` is its diagnostic text.
    LinkFailed { log: Vec<u8> },
}

/// Text handed to the driver for `content`: the content and one nul byte.
pub open spec fn nul_terminated(content: Seq<u8>) -> Seq<u8> {
    content.push(0u8)
}

/// `source` is acceptable as a C string: its last byte is the only nul.
pub open spec fn is_nul_terminated(source: Seq<u8>) -> bool {
    &&& source.len() > 0
    &&& source.last() == 0u8
    &&& forall|i: int| 0 <= i < source.len() - 1 ==> source[i] != 0u8
}

/// Index of the first nul byte of `s`, or its length if it has none.
pub open spec fn first_nul(s: Seq<u8>) -> int
    decreases s.len(),
{
    if s.len() == 0 {
        0
    } else if s[0] == 0u8 {
        0
    } else {
        1 + first_nul(s.drop_first())
    }
}

/// Diagnostic text of a driver log buffer: the bytes before the first nul.
pub open spec fn log_text(log: Seq<u8>) -> Seq<u8> {
    log.take(first_nul(log))
}

proof fn lemma_first_nul(s: Seq<u8>)
    ensures
        0 <= first_nul(s) <= s.len(),
        first_nul(s) < s.len() ==> s[first_nul(s)] == 0u8,
        forall|i: int| 0 <= i < first_nul(s) ==> s[i] != 0u8,
    decreases s.len(),
{
    if s.len() > 0 && s[0] != 0u8 {
        lemma_first_nul(s.drop_first());
        assert forall|i: int| 0 <= i < first_nul(s) implies s[i] != 0u8 by {
            if i > 0 {
                assert(s[i] == s.drop_first()[i - 1]);
            }
        }
    }
}

proof fn lemma_first_nul_is_first(s: Seq<u8>, k: int)
    requires
        0 <= k <= s.len(),
        k < s.len() ==> s[k] == 0u8,
        forall|i: int| 0 <= i < k ==> s[i] != 0u8,
    ensures
        first_nul(s) == k,
    decreases s.len(),
{
    if s.len() > 0 && k > 0 {
        let t = s.drop_first();
        assert forall|i: int| 0 <= i < k - 1 implies t[i] != 0u8 by {
            assert(t[i] == s[i + 1]);
        }
        lemma_first_nul_is_first(t, k - 1);
    }
}

/// Appends the nul byte that the driver needs after a shader's text.
pub fn with_nul_terminator(content: Vec<u8>) -> (r: Vec<u8>)
    ensures
        r@ == nul_terminated(content@),
{
    let mut r = content;
    r.push(0u8);
    r
}

/// Checks that `source` can be handed to the driver as a C string.
pub fn check_source(source: &[u8]) -> (r: Result<(), ShaderError>)
    ensures
        r is Ok <==> is_nul_terminated(source@),
        r matches Err(ShaderError::MissingNulTerminator) <==> (source@.len() == 0
            || source@.last() != 0u8),
        r matches Err(ShaderError::InteriorNul { position }) ==> {
            &&& source@.len() > 0
            &&& source@.last() == 0u8
            &&& position < source@.len() - 1
            &&& position == first_nul(source@)
        },
{
    let n = source.len();
    if n == 0 || source[n - 1] != 0u8 {
        return Err(ShaderError::MissingNulTerminator);
    }
    let mut i: usize = 0;
    while i < n - 1
        invariant
            n == source@.len(),
            n > 0,
            source@.last() == 0u8,
            i <= n - 1,
            forall|j: int| 0 <= j < i ==> source@[j] != 0u8,
        decreases n - 1 - i,
    {
        if source[i] == 0u8 {
            proof {
                lemma_first_nul_is_first(source@, i as int);
            }
            return Err(ShaderError::InteriorNul { position: i });
        }
        i = i + 1;
    }
    Ok(())
}

/// The diagnostic text of a log buffer filled by the driver.
pub fn info_log_text(log: &[u8]) -> (r: Vec<u8>)
    ensures
        r@ == log_text(log@),
{
    proof {
        lemma_first_nul(log@);
    }
    let mut r: Vec<u8> = Vec::new();
    let mut i: usize = 0;
    while i < log.len() && log[i] != 0u8
        invariant
            i <= log@.len(),
            i <= first_nul(log@),
            r@ == log@.take(i as int),
            0 <= first_nul(log@) <= log@.len(),
            first_nul(log@) < log@.len() ==> log@[first_nul(log@)] == 0u8,
        decreases log@.len() - i,
    {
        r.push(log[i]);
        i = i + 1;
        assert(r@ == log@.take(i as int));
    }
    assert(i == first_nul(log@));
    r
}

/// Size of the buffer to fetch a log whose reported length is `len`.
pub fn info_log_capacity(len: i32) -> (r: usize)
    ensures
        len <= 0 ==> r == 0,
        len > 0 ==> r == len,
{
    if len <= 0 {
        0
    } else {
        len as usize
    }
}

/// Result of compiling `shader` for `stage`, given the compile status the
/// driver reported (zero for failure) and its log buffer.
pub fn compile_outcome(stage: ShaderStage, shader: u32, status: i32, log: &[u8]) -> (r: Result<
    u32,
    ShaderError,
>)
    ensures
        status != 0 ==> r == Ok::<u32, ShaderError>(shader),
        status == 0 ==> (r matches Err(ShaderError::CompileFailed { stage: s, log: l }) && s
            == stage && l@ == log_text(log@)),
{
    if status != 0 {
        Ok(shader)
    } else {
        Err(ShaderError::CompileFailed { stage, log: info_log_text(log) })
    }
}

/// Commands that build `program` from two compiled stages: attach both,
/// link, then release both stage objects whatever the link's outcome.
pub open spec fn link_sequence(program: u32, vertex: u32, fragment: u32) -> Seq<Command> {
    seq![
        Command::AttachShader { program, shader: vertex },
        Command::AttachShader { program, shader: fragment },
        Command::LinkProgram(program),
        Command::DeleteShader(vertex),
        Command::DeleteShader(fragment),
    ]
}

/// Commands that link `program` from its vertex and fragment stages.
pub fn link_commands(program: u32, vertex: u32, fragment: u32) -> (r: Vec<Command>)
    ensures
        r@ == link_sequence(program, vertex, fragment),
{
    vec![
        Command::AttachShader { program, shader: vertex },
        Command::AttachShader { program, shader: fragment },
        Command::LinkProgram(program),
        Command::DeleteShader(vertex),
        Command::DeleteShader(fragment),
    ]
}

/// Result of linking `program`, given the link status the driver reported
/// (zero for failure) and its log buffer.
pub fn link_outcome(program: u32, status: i32, log: &[u8]) -> (r: Result<u32, ShaderError>)
    ensures
        status != 0 ==> r == Ok::<u32, ShaderError>(program),
        status == 0 ==> (r matches Err(ShaderError::LinkFailed { log: l }) && l@ == log_text(
            log@,
        )),
{
    if status != 0 {
        Ok(program)
    } else {
        Err(ShaderError::LinkFailed { log: info_log_text(log) })
    }
}

/// Linking releases each of two distinct stages exactly once, and nothing
/// else: the sequence does not depend on whether the link succeeds, so no
/// stage object outlives it.
pub proof fn link_releases_each_stage_once(program: u32, vertex: u32, fragment: u32)
    requires
        vertex != fragment,
    ensures
        occurrences(link_sequence(program, vertex, fragment), Command::DeleteShader(vertex)) == 1,
        occurrences(link_sequence(program, vertex, fragment), Command::DeleteShader(fragment))
            == 1,
        count_where(link_sequence(program, vertex, fragment), |c: Command| is_shader_delete(c))
            == 2,
        link_sequence(program, vertex, fragment).last() == Command::DeleteShader(fragment),
        link_sequence(program, vertex, fragment)[3] == Command::DeleteShader(vertex),
        link_sequence(program, vertex, fragment)[2] == Command::LinkProgram(program),
{
    let s = link_sequence(program, vertex, fragment);
    reveal_with_fuel(count_where, 6);
    assert(s.drop_last().drop_last().drop_last().drop_last().drop_last() =~= Seq::<Command>::empty());
}

} // verus!
