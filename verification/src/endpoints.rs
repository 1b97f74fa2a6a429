//! The shared wire types: engine models, the response record, the error
//! taxonomy, and the request descriptor that every endpoint produces.

pub mod answer;
pub mod classification;
pub mod edits;
pub mod search;

use vstd::prelude::*;
use vstd::string::StringExecFns;
use crate::json::{dec_digits, string_from_chars, write_lit, write_u64, Decimal};

verus! {

/// The engines a request can name.
#[derive(Debug, Clone, PartialEq, Eq, Structural)]
pub enum Model {
    Ada,
    Babbage,
    Curie,
    Davinci,
}

/// The JSON text of a model name: the lowercase engine name as a string.
pub open spec fn model_json(m: Model) -> Seq<char> {
    match m {
        Model::Ada => "\"ada\""@,
        Model::Babbage => "\"babbage\""@,
        Model::Curie => "\"curie\""@,
        Model::Davinci => "\"davinci\""@,
    }
}

impl Default for Model {
    fn default() -> (r: Self)
        ensures
            r == Model::Ada,
    {
        Model::Ada
    }
}

/// Appends the JSON text of a model name.
pub fn write_model(out: &mut Vec<char>, m: &Model)
    ensures
        final(out)@ == old(out)@ + model_json(*m),
{
    match m {
        Model::Ada => write_lit(out, "\"ada\""),
        Model::Babbage => write_lit(out, "\"babbage\""),
        Model::Curie => write_lit(out, "\"curie\""),
        Model::Davinci => write_lit(out, "\"davinci\""),
    }
}

/// One generated completion inside a response.
#[derive(Debug, Clone, PartialEq, Eq)]
pub struct Choice {
    pub text: String,
    pub index: usize,
    pub logprobs: Option<u32>,
    pub finish_reason: Option<String>,
}

/// One ranked document inside a search response.
#[derive(Debug, Clone, PartialEq)]
pub struct Data {
    pub document: u32,
    pub object: String,
    pub score: Decimal,
}

/// One labeled example a classification response selected.
#[derive(Debug, Clone, PartialEq)]
pub struct SelectedExample {
    pub document: u32,
    pub label: String,
    pub text: String,
}

/// One document an answer response selected.
#[derive(Debug, Clone, PartialEq)]
pub struct SelectedDocument {
    pub document: u32,
    pub text: String,
}

/// The reply record; endpoints populate different subsets, so every field
/// is optional.
#[derive(Debug, Clone)]
pub struct Response {
    pub id: Option<String>,
    pub object: Option<String>,
    pub created: Option<u64>,
    pub model: Option<String>,
    pub choices: Option<Vec<Choice>>,
    pub data: Option<Vec<Data>>,
    pub completion: Option<String>,
    pub label: Option<String>,
    pub search_model: Option<Model>,
    pub selected_examples: Option<Vec<SelectedExample>>,
    pub selected_documents: Option<Vec<SelectedDocument>>,
}

/// The closed error taxonomy: local I/O failure, transport failure,
/// a non-success HTTP status (carrying the status), and a response body
/// that did not deserialize.
#[derive(Debug, Clone, PartialEq, Eq)]
pub enum ResponseError {
    Io(String),
    Hyper(String),
    ErrorCode(u16),
    Serialization(String),
}

/// The display text of an error.
pub open spec fn error_message(e: ResponseError) -> Seq<char> {
    match e {
        ResponseError::Io(m) => "IO error: "@ + m@,
        ResponseError::Hyper(m) => "Hyper error: "@ + m@,
        ResponseError::ErrorCode(s) => "Error code: "@ + dec_digits(s as nat),
        ResponseError::Serialization(m) => "Serialization error: "@ + m@,
    }
}

impl ResponseError {
    /// The display text of this error.
    pub fn message(&self) -> (r: String)
        ensures
            r@ == error_message(*self),
    {
        match self {
            ResponseError::Io(m) => {
                let mut s: String = "IO error: ".to_owned();
                s.append(m.as_str());
                s
            },
            ResponseError::Hyper(m) => {
                let mut s: String = "Hyper error: ".to_owned();
                s.append(m.as_str());
                s
            },
            ResponseError::ErrorCode(c) => {
                let mut v: Vec<char> = Vec::new();
                write_u64(&mut v, *c as u64);
                let digits: String = string_from_chars(&v);
                let mut s: String = "Error code: ".to_owned();
                s.append(digits.as_str());
                proof {
                    assert(v@ =~= dec_digits(*c as nat));
                }
                s
            },
            ResponseError::Serialization(m) => {
                let mut s: String = "Serialization error: ".to_owned();
                s.append(m.as_str());
                s
            },
        }
    }
}

/// A request descriptor: everything a transport needs to issue the call.
#[derive(Debug, Clone)]
pub struct Request {
    pub method: String,
    pub url: String,
    pub authorization: String,
    pub content_type: String,
    pub body: String,
}

/// The value of the authorization header for a bearer token.
pub open spec fn bearer(token: Seq<char>) -> Seq<char> {
    "Bearer "@ + token
}

/// Builds the POST descriptor every endpoint shares: JSON content type and
/// bearer-token authorization.
pub fn post_request(url: String, auth_token: &str, body: String) -> (r: Request)
    ensures
        r.method@ == "POST"@,
        r.url@ == url@,
        r.authorization@ == bearer(auth_token@),
        r.content_type@ == "application/json"@,
        r.body@ == body@,
{
    let mut auth: String = "Bearer ".to_owned();
    auth.append(auth_token);
    Request {
        method: "POST".to_owned(),
        url,
        authorization: auth,
        content_type: "application/json".to_owned(),
        body,
    }
}

/// An endpoint: a payload that can form the request descriptor for its
/// provider-defined URL.
pub trait Endpoint: Sized {
    /// The serialized JSON body this payload produces.
    spec fn body_spec(&self) -> Seq<char>;

    /// The URL the request goes to, given the optional engine id.
    spec fn url_spec(&self, engine_id: Option<&str>) -> Seq<char>;

    /// Whether this endpoint's URL embeds an engine id.
    spec fn needs_engine(&self) -> bool;

    /// Says at run time whether an engine id must be supplied.
    fn requires_engine(&self) -> (b: bool)
        ensures
            b == self.needs_engine(),
    ;

    /// Forms the request descriptor for this payload.
    fn request(&self, auth_token: &str, engine_id: Option<&str>) -> (r: Request)
        requires
            self.needs_engine() ==> engine_id is Some,
        ensures
            r.method@ == "POST"@,
            r.url@ == self.url_spec(engine_id),
            r.authorization@ == bearer(auth_token@),
            r.content_type@ == "application/json"@,
            r.body@ == self.body_spec(),
    ;
}

} // verus!
