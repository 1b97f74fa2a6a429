//! The edits endpoint: an input text and an instruction for editing it.

use vstd::prelude::*;
use vstd::string::StringExecFns;
use crate::json::{
    decimal_json, json_string, string_from_chars, write_decimal, write_json_string, write_lit,
    Decimal,
};
use crate::endpoints::{post_request, Endpoint, Request};

verus! {

/// Given a prompt and an instruction, the model returns an edited version
/// of the prompt.
#[derive(Debug, Clone)]
pub struct Edit {
    /// The input text to use as a starting point for the edit.
    pub input: String,
    /// The instruction that tells the model how to edit the prompt.
    pub instruction: String,
    /// What sampling temperature to use.
    pub temperature: Decimal,
    /// Nucleus-sampling probability mass; an alternative to `temperature`.
    pub top_p: Decimal,
}

/// The serialized body of an edit request: every field, in declaration
/// order, under its wire name.
pub open spec fn edit_json(e: Edit) -> Seq<char> {
    "{\"input\":"@ + json_string(e.input@) + ",\"instruction\":"@ + json_string(e.instruction@)
        + ",\"temperature\":"@ + decimal_json(e.temperature) + ",\"top_p\":"@ + decimal_json(
        e.top_p,
    ) + "}"@
}

impl Edit {
    /// Serializes this payload to its JSON body.
    pub fn to_json(&self) -> (s: String)
        ensures
            s@ == edit_json(*self),
    {
        let mut out: Vec<char> = Vec::new();
        write_lit(&mut out, "{\"input\":");
        write_json_string(&mut out, self.input.as_str());
        write_lit(&mut out, ",\"instruction\":");
        write_json_string(&mut out, self.instruction.as_str());
        write_lit(&mut out, ",\"temperature\":");
        write_decimal(&mut out, &self.temperature);
        write_lit(&mut out, ",\"top_p\":");
        write_decimal(&mut out, &self.top_p);
        write_lit(&mut out, "}");
        proof {
            assert(out@ =~= edit_json(*self));
        }
        string_from_chars(&out)
    }
}

impl Default for Edit {
    /// Empty texts and zero temperatures.
    fn default() -> (r: Self)
        ensures
            r.input@ == Seq::<char>::empty(),
            r.instruction@ == Seq::<char>::empty(),
            r.temperature == (Decimal { negative: false, mantissa: 0, scale: 1 }),
            r.top_p == (Decimal { negative: false, mantissa: 0, scale: 1 }),
    {
        Edit {
            input: String::new(),
            instruction: String::new(),
            temperature: Decimal::zero(),
            top_p: Decimal::zero(),
        }
    }
}

/// The default-constructed payload serializes to the documented default
/// field values: empty texts and zero temperatures.
pub proof fn lemma_edit_default_json(e: Edit)
    requires
        e.input@ == Seq::<char>::empty(),
        e.instruction@ == Seq::<char>::empty(),
        e.temperature == (Decimal { negative: false, mantissa: 0, scale: 1 }),
        e.top_p == (Decimal { negative: false, mantissa: 0, scale: 1 }),
    ensures
        edit_json(e) == "{\"input\":\"\",\"instruction\":\"\",\"temperature\":0.0,\"top_p\":0.0}"@,
{
    reveal_strlit("{\"input\":\"\",\"instruction\":\"\",\"temperature\":0.0,\"top_p\":0.0}");
    reveal_strlit("{\"input\":");
    reveal_strlit(",\"instruction\":");
    reveal_strlit(",\"temperature\":");
    reveal_strlit(",\"top_p\":");
    reveal_strlit("}");
    crate::json::lemma_decimal_tenth_zero();
    assert(edit_json(e) =~= "{\"input\":\"\",\"instruction\":\"\",\"temperature\":0.0,\"top_p\":0.0}"@);
}

impl Endpoint for Edit {
    open spec fn body_spec(&self) -> Seq<char> {
        edit_json(*self)
    }

    open spec fn url_spec(&self, engine_id: Option<&str>) -> Seq<char> {
        match engine_id {
            Option::Some(e) => "https://api.openai.com/v1/engines/"@ + e@ + "/edits"@,
            Option::None => Seq::empty(),
        }
    }

    open spec fn needs_engine(&self) -> bool {
        true
    }

    fn requires_engine(&self) -> (b: bool) {
        true
    }

    fn request(&self, auth_token: &str, engine_id: Option<&str>) -> (r: Request) {
        let engine: &str = match engine_id {
            Option::Some(e) => e,
            Option::None => unreached(),
        };
        let mut url: String = "https://api.openai.com/v1/engines/".to_owned();
        url.append(engine);
        url.append("/edits");
        let body: String = self.to_json();
        post_request(url, auth_token, body)
    }
}

} // verus!
