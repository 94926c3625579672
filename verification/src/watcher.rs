//! The detection worker's decisions. Each qualifying release spawns one
//! independent worker outside the library; after the settle delay it queries
//! the accessibility layer, hands the report in as a [`FocusQuery`], and this
//! module decides what, if anything, is surfaced.

use crate::extract::FocusQuery;
use crate::extract::extract;
use crate::extract::extract_spec;
use crate::output::DetectionOutput;
use crate::output::all_whitespace;
use crate::output::output_stage;
use vstd::prelude::*;

verus! {

/// One worker's run: extract the focused element's selection text and
/// surface it with the gesture's duration, unless the text is blank. Every
/// failure the query reported has already collapsed to the empty string, so
/// nothing here can fail: a worker that found nothing simply stays silent.
pub fn run_detection(duration_ms: u64, q: &FocusQuery) -> (r: Option<DetectionOutput>)
    ensures
        r is None <==> all_whitespace(extract_spec(*q)),
        r matches Some(o) ==> o.duration_ms == duration_ms && o.text@ == extract_spec(*q),
{
    let text = extract(q);
    output_stage(duration_ms, text)
}

/// Start-up policy: the event loop runs only when the hook installed with a
/// valid handle. By documented policy an invalid handle is not an error —
/// the start operation logs it and still reports success; it just never
/// enters the loop.
pub fn enter_event_loop(hook_valid: bool) -> (run: bool)
    ensures
        run == hook_valid,
{
    hook_valid
}

} // verus!
