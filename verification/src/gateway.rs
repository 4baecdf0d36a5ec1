//! The streaming gateway's request decisions.
//!
//! The HTTP layer hands the gateway whatever input bytes the upload
//! carried. A request without input is rejected with a single terminal
//! status event and no generation task is started; a request with input
//! opens a generation session and is to deliver the session's startup
//! events before anything else.

use vstd::prelude::*;
use vstd::string::StringExecFns;
use crate::event::{EventView, GenerationEvent};
use crate::generate::{is_terminal_event, spec_startup_events, GenConfig, Phase, Session};

verus! {

/// Startup configuration for the model loader, chosen at process start.
#[derive(Clone, Debug)]
pub struct ModelArgs {
    /// Where to find the model weights; the loader's default when absent.
    pub model: Option<String>,
    /// Where to find the tokenizer; the loader's default when absent.
    pub tokenizer: Option<String>,
    /// Run on the CPU rather than an accelerator.
    pub cpu: bool,
    /// Load the quantized variant of the weights.
    pub quantized: bool,
}

/// What the gateway does with one upload.
pub enum UploadOutcome {
    /// No input bytes were found: deliver this one terminal status event
    /// and close the stream; no generation task is started.
    Rejected(GenerationEvent),
    /// Input was found: run this session in a background task, delivering
    /// the startup events first, then hand it the input bytes.
    Accepted(Session, Vec<GenerationEvent>, Vec<u8>),
}

/// Decide a request: reject it exactly when the upload carried no input
/// bytes, otherwise open a generation session over them.
pub fn handle_upload(input: Option<Vec<u8>>, config: GenConfig) -> (r: UploadOutcome)
    requires
        config.valid(),
    ensures
        r is Rejected <==> input is None,
        r matches UploadOutcome::Rejected(e) ==> e@ == EventView::Status(
            "Error: no image found"@,
        ) && is_terminal_event(e@),
        r matches UploadOutcome::Accepted(s, evs, bytes) ==> {
            &&& s.wf()
            &&& s.phase == Phase::Loading
            &&& s.config == config
            &&& s.emitted@ == spec_startup_events()
            &&& evs@.len() == 2
            &&& evs@[0]@ == EventView::Status("Loading model..."@)
            &&& evs@[1]@ == EventView::Status("Loading image..."@)
            &&& input matches Some(b) && bytes@ == b@
        },
{
    match input {
        None => {
            proof {
                reveal_strlit("Error: no image found");
                reveal_strlit("Error: ");
                assert(("Error: no image found"@).subrange(0, 7) =~= "Error: "@);
            }
            UploadOutcome::Rejected(
                GenerationEvent::Status(String::from_str("Error: no image found")),
            )
        },
        Some(bytes) => {
            let (s, evs) = Session::start(config);
            UploadOutcome::Accepted(s, evs, bytes)
        },
    }
}

} // verus!
