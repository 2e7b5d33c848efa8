//! What the agent says of its GPUs.

use vstd::prelude::*;

use crate::gpu;
use crate::text;

verus! {

/// Only the first line of a listing counts.
pub proof fn law_the_first_line_counts(line: Seq<char>, rest: Seq<char>)
    requires
        !line.contains('\n'),
    ensures
        gpu::gpu_in(line + seq!['\n'] + rest) == gpu::gpu_in(line),
{
    let s = line + seq!['\n'] + rest;
    text::lemma_first_place(line, '\n');
    text::lemma_first_place(s, '\n');
    let k = text::first_place(s, '\n');
    assert(s[line.len() as int] == '\n');
    if k < line.len() {
        assert(s[k] == line[k]);
        assert(line.contains(line[k]));
    }
    if text::first_place(line, '\n') < line.len() {
        assert(line.contains(line[text::first_place(line, '\n')]));
    }
    assert(s.take(k) =~= line);
    assert(line.take(line.len() as int) =~= line);
}

/// A line of a model, a comma and a number is a GPU of that model with that much
/// memory; what stands after the comma counts as nothing where it is no number.
pub proof fn law_a_gpu_is_a_model_and_a_number(
    line: Seq<char>,
    model: Seq<char>,
    memory: Seq<char>,
)
    requires
        !line.contains('\n'),
        text::trimmed(line) == model + seq![','] + memory,
        !model.contains(','),
    ensures
        gpu::gpu_in(line).0 == text::trimmed(model),
        gpu::gpu_in(line).1 == (match text::parsed_i32(text::trimmed(memory)) {
            Some(n) => n,
            None => 0,
        }),
{
    text::lemma_first_place(line, '\n');
    if text::first_place(line, '\n') < line.len() {
        assert(line.contains(line[text::first_place(line, '\n')]));
    }
    assert(line.take(line.len() as int) =~= line);
    let core = model + seq![','] + memory;
    text::lemma_first_place(core, ',');
    let c = text::first_place(core, ',');
    assert(core[model.len() as int] == ',');
    if c < model.len() {
        assert(core[c] == model[c]);
        assert(model.contains(model[c]));
    }
    assert(core.take(c) =~= model);
    assert(core.skip(c + 1) =~= memory);
}

/// A line without a comma is a model of which the memory is not known.
pub proof fn law_a_lone_model_has_no_memory(line: Seq<char>)
    requires
        !line.contains('\n'),
        !text::trimmed(line).contains(','),
    ensures
        gpu::gpu_in(line) == (text::trimmed(line), 0int),
{
    text::lemma_first_place(line, '\n');
    if text::first_place(line, '\n') < line.len() {
        assert(line.contains(line[text::first_place(line, '\n')]));
    }
    assert(line.take(line.len() as int) =~= line);
    let core = text::trimmed(line);
    text::lemma_first_place(core, ',');
    if text::first_place(core, ',') < core.len() {
        assert(core.contains(core[text::first_place(core, ',')]));
    }
}

/// Docker passes GPUs on just where `nvidia-smi` can be run and `docker info` printed
/// something with `nvidia` in it.
pub proof fn law_gpu_support_needs_both(smi_runs: bool, runtimes: &[u8])
    ensures
        gpu::gpu_support(smi_runs, Some(runtimes)) == (smi_runs && text::occurs_in(
            "nvidia"@,
            text::utf8_lossy(runtimes@),
        )),
        !gpu::gpu_support(smi_runs, None),
{
}

} // verus!
