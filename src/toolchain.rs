//! Toolchain state: the version probe and the decision to refresh the
//! version-stamped essential files.
use vstd::prelude::*;
use crate::essential::essential_names;

verus! {

/// Failures of the toolchain layer that are decided by this library.
#[derive(Clone, Copy, Debug, PartialEq, Eq, Structural)]
pub enum ToolchainError {
    /// The version query did not print exactly one line.
    InvalidVersionOutput,
}

/// Reads the version string out of the lines printed by the version query:
/// exactly one line is the version, anything else is an error.
pub fn parse_version_output(lines: &Vec<String>) -> (r: Result<String, ToolchainError>)
    ensures
        r is Ok <==> lines@.len() == 1,
        r is Ok ==> r->Ok_0@ == lines@[0]@,
        r is Err ==> r->Err_0 == ToolchainError::InvalidVersionOutput,
{
    if lines.len() == 1 {
        Ok(lines[0].clone())
    } else {
        Err(ToolchainError::InvalidVersionOutput)
    }
}

/// Whether the essential files must be (re)generated after a probe found
/// `current`, given the version known before (if any).
pub open spec fn version_changed(previous: Option<Seq<char>>, current: Seq<char>) -> bool {
    match previous {
        Some(p) => p != current,
        None => true,
    }
}

pub fn needs_essential_files(previous: &Option<String>, current: &String) -> (r: bool)
    ensures
        r == version_changed(
            match previous {
                Some(p) => Some(p@),
                None => None,
            },
            current@,
        ),
{
    match previous {
        Some(p) => !(*p == *current),
        None => true,
    }
}

pub open spec fn opt_view(v: Option<String>) -> Option<Seq<char>> {
    match v {
        Some(s) => Some(s@),
        None => None,
    }
}

/// The toolchain version this builder last probed.
pub struct ToolchainState {
    pub version: Option<String>,
}

impl ToolchainState {
    pub fn new() -> (r: ToolchainState)
        ensures
            r.version is None,
    {
        ToolchainState { version: None }
    }

    /// Records the version found by a probe, and tells whether the essential
    /// files must be generated for it.
    pub fn record_version(&mut self, current: String) -> (r: bool)
        ensures
            r == version_changed(opt_view(old(self).version), current@),
            final(self).version == Some(current),
    {
        let r = match &self.version {
            Some(p) => !(*p == current),
            None => true,
        };
        self.version = Some(current);
        r
    }
}

/// Essential files follow the toolchain version: a version that differs from
/// the one known before (or the first one) always triggers their generation,
/// probing the same version again does not, and the published names are a
/// function of the version alone.
pub proof fn lemma_essential_files_follow_version(
    previous: Option<Seq<char>>,
    current: Seq<char>,
    again: Seq<char>,
)
    ensures
        previous != Some(current) ==> version_changed(previous, current),
        !version_changed(Some(current), current),
        current == again ==> essential_names(current) == essential_names(again),
{
}

} // verus!
