//! Reading what a working copy sits on out of the answers of two probes.
//!
//! A probe is a git invocation that prints the name asked for. It names
//! nothing where it exits with a failure, whatever it printed, and where it
//! prints nothing but white space. Neither is an error.

use crate::refs::{LocalRefState, LocalRefView, RefKind};
use crate::text::{trim, trimmed};
use vstd::prelude::*;

verus! {

/// What came of one probe.
#[derive(Debug, PartialEq, Eq)]
pub struct ProbeOutput {
    /// Whether the probe exited successfully.
    pub success: bool,
    /// What it printed.
    pub text: String,
}

/// The outcome of a probe as a mathematical value.
pub struct ProbeOutputView {
    pub success: bool,
    pub text: Seq<char>,
}

impl View for ProbeOutput {
    type V = ProbeOutputView;

    open spec fn view(&self) -> ProbeOutputView {
        ProbeOutputView { success: self.success, text: self.text@ }
    }
}

/// What one probe says: the position it names, where it succeeded and printed
/// a name; nothing where it failed or its output is blank.
pub open spec fn observed(kind: RefKind, probe: ProbeOutputView) -> Option<LocalRefView> {
    if probe.success && trimmed(probe.text).len() > 0 {
        Some(LocalRefView { name: trimmed(probe.text), kind: Some(kind) })
    } else {
        None
    }
}

/// The position reported where no probe names one.
pub open spec fn unknown_view() -> LocalRefView {
    LocalRefView { name: "<unknown>"@, kind: None }
}

/// The observed position, from the outcome of the tag probe and of the branch
/// probe: the tag exactly at `HEAD` where the tag probe names one, else the
/// current branch where the branch probe names one, else unknown.
pub open spec fn current_ref(tag: ProbeOutputView, branch: ProbeOutputView) -> LocalRefView {
    match observed(RefKind::Tag, tag) {
        Some(state) => state,
        None => match observed(RefKind::Branch, branch) {
            Some(state) => state,
            None => unknown_view(),
        },
    }
}

/// A probe that failed names nothing, whatever it printed.
pub proof fn law_failed_probe_names_nothing(kind: RefKind, text: Seq<char>)
    ensures
        observed(kind, ProbeOutputView { success: false, text }) is None,
{
}

/// Where the tag probe failed, the position is what the branch probe alone
/// says.
pub proof fn law_failed_tag_probe_leaves_the_branch(text: Seq<char>, branch: ProbeOutputView)
    ensures
        current_ref(ProbeOutputView { success: false, text }, branch) == match observed(
            RefKind::Branch,
            branch,
        ) {
            Some(state) => state,
            None => unknown_view(),
        },
{
}

/// Reads the outcome of one probe.
pub fn observe(kind: RefKind, probe: &ProbeOutput) -> (r: Option<LocalRefState>)
    ensures
        match r {
            Some(state) => observed(kind, probe@) == Some(state@),
            None => observed(kind, probe@) is None,
        },
{
    if !probe.success {
        return None;
    }
    let name = trim(probe.text.as_str());
    if name.is_empty() {
        None
    } else {
        Some(LocalRefState { name: String::from_str(name), kind: Some(kind) })
    }
}

/// The position reported where no probe names one.
pub fn unknown_ref() -> (r: LocalRefState)
    ensures
        r@ == unknown_view(),
{
    LocalRefState { name: String::from_str("<unknown>"), kind: None }
}

/// Determines the current position from the outcome of both probes. The branch
/// probe's outcome is read only where the tag probe named nothing, so a caller
/// that has not run it may pass anything for it in that case.
pub fn current_ref_name(tag: &ProbeOutput, branch: &ProbeOutput) -> (r: LocalRefState)
    ensures
        r@ == current_ref(tag@, branch@),
{
    match observe(RefKind::Tag, tag) {
        Some(state) => state,
        None => match observe(RefKind::Branch, branch) {
            Some(state) => state,
            None => unknown_ref(),
        },
    }
}

} // verus!
