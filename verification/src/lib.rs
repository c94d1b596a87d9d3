use vstd::prelude::*;

pub mod adaptors;
pub mod error;
pub mod flags;
pub mod json;
pub mod num_text;

use crate::adaptors::Adaptor;
use crate::json::Json;

verus! {

/// One normalized completion result: the text a backend generated. All
/// backend-specific metadata is discarded during normalization.
#[derive(Debug)]
pub struct Generation {
    pub generated_text: String,
}

impl View for Generation {
    type V = Seq<char>;

    open spec fn view(&self) -> Seq<char> {
        self.generated_text@
    }
}

/// The normalized sampling controls shared across backends. `temperature`
/// and `top_p` carry the decimal text of a JSON number, so that the wire
/// form is reproduced exactly as the caller wrote it.
#[derive(Debug)]
pub struct GenerationParams {
    pub max_new_tokens: u32,
    pub temperature: String,
    pub do_sample: bool,
    pub top_p: String,
    pub stop_tokens: Vec<String>,
}

impl GenerationParams {
    /// Both number texts are well-formed JSON numbers, so every built body
    /// is a structurally valid JSON document.
    pub open spec fn wf(&self) -> bool {
        crate::num_text::is_json_number(self.temperature@) && crate::num_text::is_json_number(
            self.top_p@,
        )
    }

    /// Assembles a parameter set, rejecting a `temperature` or `top_p` text
    /// that is not a JSON number.
    pub fn new(
        max_new_tokens: u32,
        temperature: String,
        do_sample: bool,
        top_p: String,
        stop_tokens: Vec<String>,
    ) -> (r: Option<GenerationParams>)
        ensures
            r is Some <==> crate::num_text::is_json_number(temperature@)
                && crate::num_text::is_json_number(top_p@),
            r matches Some(p) ==> p == (GenerationParams {
                max_new_tokens,
                temperature,
                do_sample,
                top_p,
                stop_tokens,
            }) && p.wf(),
    {
        if !crate::num_text::check_json_number(temperature.as_str()) {
            return None;
        }
        if !crate::num_text::check_json_number(top_p.as_str()) {
            return None;
        }
        Some(GenerationParams { max_new_tokens, temperature, do_sample, top_p, stop_tokens })
    }
}

/// Wraps `GenerationParams` with an optional backend selector (absent means
/// the default backend) and an optional caller-supplied request template
/// object, used only by backends that need a `model` identifier taken from
/// that object.
pub struct CompletionParams {
    pub request_params: GenerationParams,
    pub adaptor: Option<Adaptor>,
    pub request_body: Option<Vec<(String, Json)>>,
}

} // verus!
