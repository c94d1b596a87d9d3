use vstd::prelude::*;
use crate::adaptors::Adaptor;
use crate::num_text::{dec_str, u32_to_string};

verus! {

/// The shared error payload of the HuggingFace-style API, TGI and Ollama:
/// a free-form message.
#[derive(Debug)]
pub struct APIError {
    pub error: String,
}

/// Where an OpenAI-compatible backend locates an error: a field name or an
/// index.
#[derive(Debug)]
pub enum OpenAIErrorLoc {
    Text(String),
    Index(u32),
}

/// One detail record of an OpenAI-compatible backend error.
#[derive(Debug)]
pub struct OpenAIErrorDetail {
    pub loc: OpenAIErrorLoc,
    pub msg: String,
    pub kind: String,
}

/// The error payload of an OpenAI-compatible backend: its detail records,
/// in the order the backend sent them.
#[derive(Debug)]
pub struct OpenAIError {
    pub detail: Vec<OpenAIErrorDetail>,
}

/// Mathematical model of `OpenAIErrorLoc`.
pub enum LocSpec {
    Text(Seq<char>),
    Index(u32),
}

/// Mathematical model of `OpenAIErrorDetail`.
pub struct DetailSpec {
    pub loc: LocSpec,
    pub msg: Seq<char>,
    pub kind: Seq<char>,
}

impl View for OpenAIErrorLoc {
    type V = LocSpec;

    open spec fn view(&self) -> LocSpec {
        match self {
            OpenAIErrorLoc::Text(s) => LocSpec::Text(s@),
            OpenAIErrorLoc::Index(n) => LocSpec::Index(*n),
        }
    }
}

impl View for OpenAIErrorDetail {
    type V = DetailSpec;

    open spec fn view(&self) -> DetailSpec {
        DetailSpec { loc: self.loc@, msg: self.msg@, kind: self.kind@ }
    }
}

/// The model of a detail list: each record's model, in order.
pub open spec fn details_view(ds: Seq<OpenAIErrorDetail>) -> Seq<DetailSpec> {
    Seq::new(ds.len(), |i: int| ds[i]@)
}

impl View for OpenAIError {
    type V = Seq<DetailSpec>;

    open spec fn view(&self) -> Seq<DetailSpec> {
        details_view(self.detail@)
    }
}

/// The text a location renders to: the field name itself, or the canonical
/// decimal text of the index.
pub open spec fn loc_text(l: OpenAIErrorLoc) -> Seq<char> {
    match l {
        OpenAIErrorLoc::Text(s) => s@,
        OpenAIErrorLoc::Index(n) => dec_str(n as nat),
    }
}

/// The rendered form of one detail record.
pub open spec fn detail_line(d: OpenAIErrorDetail) -> Seq<char> {
    loc_text(d.loc) + ": "@ + d.msg@ + " ("@ + d.kind@ + ")"@
}

/// The rendered form of a detail list: one line per record, separated by
/// newlines.
pub open spec fn render_details(ds: Seq<OpenAIErrorDetail>) -> Seq<char>
    decreases ds.len(),
{
    if ds.len() == 0 {
        Seq::empty()
    } else if ds.len() == 1 {
        detail_line(ds[0])
    } else {
        render_details(ds.drop_last()) + "\n"@ + detail_line(ds.last())
    }
}

impl OpenAIError {
    /// Renders every detail record as `loc: msg (kind)`, one line each.
    pub fn to_display_string(&self) -> (r: String)
        ensures
            r@ == render_details(self.detail@),
    {
        let mut out = String::new();
        let mut i: usize = 0;
        while i < self.detail.len()
            invariant
                i <= self.detail@.len(),
                out@ == render_details(self.detail@.subrange(0, i as int)),
            decreases self.detail@.len() - i,
        {
            if i != 0 {
                out.append("\n");
            }
            let d = &self.detail[i];
            match &d.loc {
                OpenAIErrorLoc::Text(s) => {
                    out.append(s.as_str());
                },
                OpenAIErrorLoc::Index(n) => {
                    let rendered = u32_to_string(*n);
                    out.append(rendered.as_str());
                },
            }
            out.append(": ");
            out.append(d.msg.as_str());
            out.append(" (");
            out.append(d.kind.as_str());
            out.append(")");
            proof {
                let ds = self.detail@;
                let pre = ds.subrange(0, i as int);
                let cur = ds.subrange(0, i as int + 1);
                assert(cur.drop_last() =~= pre);
                assert(cur.last() == ds[i as int]);
                assert(out@ =~= render_details(cur));
            }
            i = i + 1;
        }
        proof {
            assert(self.detail@.subrange(0, i as int) =~= self.detail@);
        }
        out
    }
}

/// Everything that can go wrong in this layer, kept inspectable: each
/// backend-reported error keeps that backend's native payload.
#[derive(Debug)]
pub enum Error {
    /// A header value held a character that HTTP refuses.
    InvalidHeaderValue,
    /// Ollama or an OpenAI-compatible backend was chosen without a
    /// `model`-bearing request body.
    MissingModel,
    /// TGI answered with the multi-result shape: the caller selected the
    /// wrong backend variant.
    InvalidAdaptor,
    /// The response text is not JSON at all; `size` is its length.
    InvalidJson { adaptor: Adaptor, size: usize },
    /// The response is JSON but matches no valid shape for the backend;
    /// `size` is the text's length.
    UnknownShape { adaptor: Adaptor, size: usize },
    /// TGI reported an error.
    Tgi(APIError),
    /// The HuggingFace-style API reported an error.
    InferenceApi(APIError),
    /// Ollama reported an error.
    Ollama(APIError),
    /// An OpenAI-compatible backend reported an error.
    OpenAI(OpenAIError),
}

} // verus!
