//! Option values: the words a user may give for the graphics backend, the
//! rendering profile, the anti-aliasing level and the presentation mode, and
//! the comma-separated number lists for the camera pose and the light
//! direction.

use crate::text::{
    fields, is_field, joined, lemma_fields_of_joined, lowercase, same_text, split_fields, texts,
    to_lowercase,
};
use vstd::prelude::*;

verus! {

/// A graphics API to render with.
#[derive(Clone, Copy, Debug, PartialEq, Eq, Structural)]
pub enum Backend {
    Vulkan,
    Dx12,
    Dx11,
    Metal,
    Gl,
}

/// Where the renderer does its culling and batching.
#[derive(Clone, Copy, Debug, PartialEq, Eq, Structural)]
pub enum RendererProfile {
    CpuDriven,
    GpuDriven,
}

/// Samples per pixel.
#[derive(Clone, Copy, Debug, PartialEq, Eq, Structural)]
pub enum SampleCount {
    One,
    Four,
}

/// How finished frames reach the screen.
#[derive(Clone, Copy, Debug, PartialEq, Eq, Structural)]
pub enum PresentMode {
    Immediate,
    Fifo,
    Mailbox,
}

/// The backend that a lower-case word names, if any.
pub open spec fn backend_named(word: Seq<char>) -> Option<Backend> {
    if word == "vulkan"@ || word == "vk"@ {
        Some(Backend::Vulkan)
    } else if word == "dx12"@ || word == "12"@ {
        Some(Backend::Dx12)
    } else if word == "dx11"@ || word == "11"@ {
        Some(Backend::Dx11)
    } else if word == "metal"@ || word == "mtl"@ {
        Some(Backend::Metal)
    } else if word == "opengl"@ || word == "gl"@ {
        Some(Backend::Gl)
    } else {
        None
    }
}

/// The profile that a lower-case word names, if any.
pub open spec fn profile_named(word: Seq<char>) -> Option<RendererProfile> {
    if word == "legacy"@ || word == "c"@ || word == "cpu"@ {
        Some(RendererProfile::CpuDriven)
    } else if word == "modern"@ || word == "g"@ || word == "gpu"@ {
        Some(RendererProfile::GpuDriven)
    } else {
        None
    }
}

/// The sample count that a word names, if any.
pub open spec fn msaa_named(word: Seq<char>) -> Option<SampleCount> {
    if word == "1"@ {
        Some(SampleCount::One)
    } else if word == "4"@ {
        Some(SampleCount::Four)
    } else {
        None
    }
}

/// The presentation mode that a lower-case word names, if any.
pub open spec fn vsync_named(word: Seq<char>) -> Option<PresentMode> {
    if word == "immediate"@ {
        Some(PresentMode::Immediate)
    } else if word == "fifo"@ {
        Some(PresentMode::Fifo)
    } else if word == "mailbox"@ {
        Some(PresentMode::Mailbox)
    } else {
        None
    }
}

/// What a reader returns for a word: the value that the word names, or the
/// reader's message where it names none.
pub open spec fn reads_as<T>(out: Result<T, &'static str>, named: Option<T>, message: &str) -> bool {
    match out {
        Ok(value) => named == Some(value),
        Err(e) => named is None && e@ == message@,
    }
}

/// Reads a backend from a word that is already in lower case.
pub fn backend_from_word(word: &str) -> (out: Result<Backend, &'static str>)
    ensures
        reads_as(out, backend_named(word@), "unknown backend"),
{
    if same_text(word, "vulkan") || same_text(word, "vk") {
        Ok(Backend::Vulkan)
    } else if same_text(word, "dx12") || same_text(word, "12") {
        Ok(Backend::Dx12)
    } else if same_text(word, "dx11") || same_text(word, "11") {
        Ok(Backend::Dx11)
    } else if same_text(word, "metal") || same_text(word, "mtl") {
        Ok(Backend::Metal)
    } else if same_text(word, "opengl") || same_text(word, "gl") {
        Ok(Backend::Gl)
    } else {
        Err("unknown backend")
    }
}

/// Reads a backend, whatever the case of the letters.
pub fn extract_backend(value: &str) -> (out: Result<Backend, &'static str>)
    ensures
        reads_as(out, backend_named(lowercase(value@)), "unknown backend"),
{
    let word = to_lowercase(value);
    backend_from_word(word.as_str())
}

/// Reads a rendering profile from a word that is already in lower case.
pub fn profile_from_word(word: &str) -> (out: Result<RendererProfile, &'static str>)
    ensures
        reads_as(out, profile_named(word@), "unknown rendermode"),
{
    if same_text(word, "legacy") || same_text(word, "c") || same_text(word, "cpu") {
        Ok(RendererProfile::CpuDriven)
    } else if same_text(word, "modern") || same_text(word, "g") || same_text(word, "gpu") {
        Ok(RendererProfile::GpuDriven)
    } else {
        Err("unknown rendermode")
    }
}

/// Reads a rendering profile, whatever the case of the letters.
pub fn extract_profile(value: &str) -> (out: Result<RendererProfile, &'static str>)
    ensures
        reads_as(out, profile_named(lowercase(value@)), "unknown rendermode"),
{
    let word = to_lowercase(value);
    profile_from_word(word.as_str())
}

/// Reads an anti-aliasing level: `1` or `4`, written exactly so.
pub fn extract_msaa(value: &str) -> (out: Result<SampleCount, &'static str>)
    ensures
        reads_as(out, msaa_named(value@), "invalid msaa count"),
{
    if same_text(value, "1") {
        Ok(SampleCount::One)
    } else if same_text(value, "4") {
        Ok(SampleCount::Four)
    } else {
        Err("invalid msaa count")
    }
}

/// Reads a presentation mode from a word that is already in lower case.
pub fn vsync_from_word(word: &str) -> (out: Result<PresentMode, &'static str>)
    ensures
        reads_as(out, vsync_named(word@), "invalid msaa count"),
{
    if same_text(word, "immediate") {
        Ok(PresentMode::Immediate)
    } else if same_text(word, "fifo") {
        Ok(PresentMode::Fifo)
    } else if same_text(word, "mailbox") {
        Ok(PresentMode::Mailbox)
    } else {
        Err("invalid msaa count")
    }
}

/// Reads a presentation mode, whatever the case of the letters. A word that
/// names none is answered with the same message as a bad anti-aliasing level.
pub fn extract_vsync(value: &str) -> (out: Result<PresentMode, &'static str>)
    ensures
        reads_as(out, vsync_named(lowercase(value@)), "invalid msaa count"),
{
    let word = to_lowercase(value);
    vsync_from_word(word.as_str())
}

/// What a list reader returns: the trimmed fields of `value` where there are
/// exactly `count` of them, else the reader's message.
pub open spec fn reads_list(
    out: Result<Vec<String>, &'static str>,
    value: Seq<char>,
    count: nat,
    message: &str,
) -> bool {
    match out {
        Ok(list) => fields(value).len() == count && texts(list@) == fields(value),
        Err(e) => fields(value).len() != count && e@ == message@,
    }
}

/// Reads a list of exactly `count` comma-separated fields, such as the five
/// of a camera pose `x,y,z,pitch,yaw`. The fields come back trimmed and still
/// as text, in their order: turning each into a number is the caller's part.
pub fn extract_array(value: &str, count: usize) -> (out: Result<Vec<String>, &'static str>)
    ensures
        reads_list(out, value@, count as nat, "Mismatched argument count"),
{
    let list = split_fields(value);
    if list.len() != count {
        Err("Mismatched argument count")
    } else {
        Ok(list)
    }
}

/// Reads the three comma-separated fields of a light direction `x,y,z`. The
/// fields come back trimmed and still as text, in their order.
pub fn extract_vec3(value: &str) -> (out: Result<Vec<String>, &'static str>)
    ensures
        reads_list(out, value@, 3, "Directional lights are defined with 3 values"),
{
    let list = split_fields(value);
    if list.len() != 3 {
        Err("Directional lights are defined with 3 values")
    } else {
        Ok(list)
    }
}

/// A written list reads back. Where `parts` are `count` fields, whatever a
/// list reader returns for them written with commas in between is the fields
/// themselves: it cannot be the reader's message. A pose printed as
/// `x,y,z,pitch,yaw` is such a text.
pub proof fn lemma_written_list_reads_back(
    parts: Seq<Seq<char>>,
    out: Result<Vec<String>, &'static str>,
    count: nat,
    message: &str,
)
    requires
        parts.len() == count,
        count >= 1,
        forall|i: int| 0 <= i < parts.len() ==> is_field(#[trigger] parts[i]),
        reads_list(out, joined(parts, ','), count, message),
    ensures
        out is Ok,
        texts(out->Ok_0@) == parts,
{
    lemma_fields_of_joined(parts);
}

} // verus!
