//! What the agent learns of the machine's GPUs from the output of `nvidia-smi`
//! and `docker info`.

use vstd::prelude::*;
use vstd::string::*;
use vstd::utf8::*;

use crate::text;

verus! {

/// The GPU that the first line of a listing describes: its model stands before
/// the first comma, its memory in megabytes after it. A line without a comma is
/// the model alone, and what is no number counts as 0.
pub open spec fn gpu_in(listing: Seq<char>) -> (Seq<char>, int) {
    let line = text::trimmed(listing.take(text::first_place(listing, '\n')));
    let comma = text::first_place(line, ',');
    if comma < line.len() {
        (
            text::trimmed(line.take(comma)),
            match text::parsed_i32(text::trimmed(line.skip(comma + 1))) {
                Some(n) => n,
                None => 0,
            },
        )
    } else {
        (line, 0)
    }
}

/// The GPU that a listing describes.
pub fn gpu_from_listing(listing: &str) -> (r: (String, i32))
    ensures
        (r.0@, r.1 as int) == gpu_in(listing@),
{
    let chars: Vec<char> = text::chars_of(listing);
    assert(chars@.skip(0) =~= chars@);
    let end: usize = text::find_char(&chars, '\n', 0);
    let first: &str = listing.substring_char(0, end);
    assert(first@ =~= listing@.take(end as int));
    let line: &str = text::trim(first);
    let line_chars: Vec<char> = text::chars_of(line);
    let n: usize = line_chars.len();
    assert(line_chars@.skip(0) =~= line_chars@);
    let comma: usize = text::find_char(&line_chars, ',', 0);
    if comma < n {
        let before: &str = line.substring_char(0, comma);
        let after: &str = line.substring_char(comma + 1, n);
        assert(before@ =~= line@.take(comma as int));
        assert(after@ =~= line@.skip(comma + 1));
        let vram_mb: i32 = match text::parse_i32(text::trim(after)) {
            Some(v) => v,
            None => 0,
        };
        (text::trim(before).to_owned(), vram_mb)
    } else {
        (line.to_owned(), 0)
    }
}

/// The model and memory, in megabytes, of the machine's GPU. `listing` is what
/// `nvidia-smi` printed, or `None` where it failed or is missing.
pub fn query_gpu_info(listing: Option<&[u8]>) -> (r: (String, i32))
    ensures
        (r.0@, r.1 as int) == (match listing {
            Some(bytes) => gpu_in(text::utf8_lossy(bytes@)),
            None => ("unknown"@, 0int),
        }),
        listing is Some && valid_utf8(listing->0@) ==> (r.0@, r.1 as int) == gpu_in(
            decode_utf8(listing->0@),
        ),
{
    match listing {
        Some(bytes) => gpu_from_listing(text::lossy_text(bytes).as_str()),
        None => ("unknown".to_owned(), 0),
    }
}

/// The PCI addresses of the machine's GPUs, one to a line of the listing.
/// `listing` is what `nvidia-smi` printed, or `None` where it failed or is
/// missing.
pub fn detect_nvidia_pci_devices(listing: Option<&[u8]>) -> (r: Vec<String>)
    ensures
        text::texts(r@) == (match listing {
            Some(bytes) => text::filled_lines(text::utf8_lossy(bytes@)),
            None => seq![],
        }),
        listing is Some && valid_utf8(listing->0@) ==> text::texts(r@) == text::filled_lines(
            decode_utf8(listing->0@),
        ),
{
    match listing {
        Some(bytes) => text::trimmed_lines(text::lossy_text(bytes).as_str()),
        None => {
            let none: Vec<String> = Vec::new();
            assert(text::texts(none@) =~= seq![]);
            none
        },
    }
}

/// Docker can pass GPUs on: `nvidia-smi` can be run, and `docker info` names an
/// NVIDIA runtime.
pub open spec fn gpu_support(smi_runs: bool, runtimes: Option<&[u8]>) -> bool {
    smi_runs && runtimes is Some && text::occurs_in("nvidia"@, text::utf8_lossy(runtimes->0@))
}

/// Whether Docker can pass GPUs on: `nvidia-smi` can be run, and `docker info`
/// names an NVIDIA runtime. `runtimes` is what `docker info` printed, or `None`
/// where it failed, is missing or was not asked.
pub fn docker_has_gpu_support(smi_runs: bool, runtimes: Option<&[u8]>) -> (r: bool)
    ensures
        r == gpu_support(smi_runs, runtimes),
        runtimes is Some && valid_utf8(runtimes->0@) ==> r == (smi_runs && text::occurs_in(
            "nvidia"@,
            decode_utf8(runtimes->0@),
        )),
{
    match runtimes {
        Some(bytes) => smi_runs && text::contains(text::lossy_text(bytes).as_str(), "nvidia"),
        None => false,
    }
}

/// What is known of Docker and GPUs. Once it is known it stays so, and there is
/// nothing more to ask.
#[derive(Debug)]
pub struct GpuSupport {
    known: Option<bool>,
}

impl GpuSupport {
    /// Whether Docker can pass GPUs on, as far as it is known.
    pub closed spec fn answer(self) -> Option<bool> {
        self.known
    }

    /// Nothing is known yet.
    pub fn new() -> (r: Self)
        ensures
            r.answer() is None,
    {
        GpuSupport { known: None }
    }

    /// Whether Docker can pass GPUs on, if it is known: then no command is run.
    pub fn known(&self) -> (r: Option<bool>)
        ensures
            r == self.answer(),
    {
        self.known
    }

    /// Takes what the commands gave, unless the answer is known already.
    pub fn settle(&mut self, smi_runs: bool, runtimes: Option<&[u8]>) -> (r: bool)
        ensures
            final(self).answer() == Some(r),
            r == (match old(self).answer() {
                Some(known) => known,
                None => gpu_support(smi_runs, runtimes),
            }),
    {
        match self.known {
            Some(known) => known,
            None => {
                let answer: bool = docker_has_gpu_support(smi_runs, runtimes);
                self.known = Some(answer);
                answer
            },
        }
    }
}

} // verus!
