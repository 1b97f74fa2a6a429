//! The answers endpoint: answers a question from documents and examples.

use vstd::prelude::*;
use crate::json::{
    bias_object_json, bool_json, dec_digits, decimal_json, json_string, opt_string_json,
    pair_list_json, string_from_chars, string_list_json, write_bias_object, write_bool,
    write_decimal, write_json_char, write_json_string, write_lit, write_opt_string,
    write_pair_list, write_string_list, write_u64, Decimal,
};
use crate::endpoints::{model_json, post_request, write_model, Endpoint, Model, Request};

verus! {

/// Given a question, a set of documents, and some examples, the API
/// generates an answer to the question based on the information in the
/// set of documents.
#[derive(Debug, Clone)]
pub struct Answer {
    /// ID of the engine to use for completion.
    pub model: Model,
    /// The question to answer.
    pub question: String,
    /// A list of question-answer pairs to learn from.
    pub examples: Vec<[String; 2]>,
    /// A text snippet containing the contextual information used to
    /// generate the answers for the examples provided.
    pub examples_context: String,
    /// List of documents from which the answer for the input question
    /// should be derived. You should specify either documents or a file,
    /// but not both.
    pub documents: Vec<String>,
    /// The ID of an uploaded file that contains documents to search over.
    /// You should specify either documents or a file, but not both.
    pub file: Option<String>,
    /// ID of the engine to use for search.
    pub search_model: Model,
    /// The maximum number of documents to be ranked by search when using
    /// file.
    pub max_rerank: u32,
    /// What sampling temperature to use.
    pub temperature: Decimal,
    /// Include the log probabilities on this many most likely tokens.
    pub logprobs: u32,
    /// The maximum number of tokens allowed for the generated answer.
    pub max_tokens: u32,
    /// Up to four sequences where the API will stop generating further
    /// tokens.
    pub stop: Option<[char; 4]>,
    /// How many answers to generate for each question.
    pub n: u32,
    /// Token-id to bias entries that modify the likelihood of those tokens
    /// appearing in the completion.
    pub logit_bias: Vec<(String, i32)>,
    /// When set, each document entry in the returned JSON carries a
    /// metadata field. This flag only takes effect when file is set.
    pub return_metadata: bool,
    /// When set, the returned JSON includes the final prompt.
    pub return_prompt: bool,
    /// Object names whose full information should be expanded in the
    /// response.
    pub expand: Vec<String>,
    /// A unique identifier representing the end-user, for abuse monitoring.
    pub user: String,
}

/// The JSON text of the stop field: `null`, or an array of four
/// one-character strings.
pub open spec fn stop_json(o: Option<[char; 4]>) -> Seq<char> {
    match o {
        Option::None => "null"@,
        Option::Some(a) => seq!['['] + json_string(seq![a@[0]]) + seq![','] + json_string(
            seq![a@[1]],
        ) + seq![','] + json_string(seq![a@[2]]) + seq![','] + json_string(seq![a@[3]]) + seq![']'],
    }
}

/// Appends the JSON text of the stop field.
pub fn write_stop(out: &mut Vec<char>, o: &Option<[char; 4]>)
    ensures
        final(out)@ == old(out)@ + stop_json(*o),
{
    match o {
        Option::None => write_lit(out, "null"),
        Option::Some(a) => {
            out.push('[');
            write_json_char(out, a[0]);
            out.push(',');
            write_json_char(out, a[1]);
            out.push(',');
            write_json_char(out, a[2]);
            out.push(',');
            write_json_char(out, a[3]);
            out.push(']');
            proof {
                assert(out@ =~= old(out)@ + stop_json(*o));
            }
        },
    }
}

/// The serialized body of an answer request: every field, in declaration
/// order, under its wire name.
pub open spec fn answer_json(a: Answer) -> Seq<char> {
    "{\"model\":"@ + model_json(a.model) + ",\"question\":"@ + json_string(a.question@)
        + ",\"examples\":"@ + pair_list_json(a.examples@) + ",\"examples_context\":"@ + json_string(
        a.examples_context@,
    ) + ",\"documents\":"@ + string_list_json(a.documents@) + ",\"file\":"@ + opt_string_json(
        a.file,
    ) + ",\"search_model\":"@ + model_json(a.search_model) + ",\"max_rerank\":"@ + dec_digits(
        a.max_rerank as nat,
    ) + ",\"temperature\":"@ + decimal_json(a.temperature) + ",\"logprobs\":"@ + dec_digits(
        a.logprobs as nat,
    ) + ",\"max_tokens\":"@ + dec_digits(a.max_tokens as nat) + ",\"stop\":"@ + stop_json(a.stop)
        + ",\"n\":"@ + dec_digits(a.n as nat) + ",\"logit_bias\":"@ + bias_object_json(
        a.logit_bias@,
    ) + ",\"return_metadata\":"@ + bool_json(a.return_metadata) + ",\"return_prompt\":"@
        + bool_json(a.return_prompt) + ",\"expand\":"@ + string_list_json(a.expand@) + ",\"user\":"@
        + json_string(a.user@) + "}"@
}

impl Answer {
    /// Serializes this payload to its JSON body.
    pub fn to_json(&self) -> (s: String)
        ensures
            s@ == answer_json(*self),
    {
        let mut out: Vec<char> = Vec::new();
        write_lit(&mut out, "{\"model\":");
        write_model(&mut out, &self.model);
        write_lit(&mut out, ",\"question\":");
        write_json_string(&mut out, self.question.as_str());
        write_lit(&mut out, ",\"examples\":");
        write_pair_list(&mut out, &self.examples);
        write_lit(&mut out, ",\"examples_context\":");
        write_json_string(&mut out, self.examples_context.as_str());
        write_lit(&mut out, ",\"documents\":");
        write_string_list(&mut out, &self.documents);
        write_lit(&mut out, ",\"file\":");
        write_opt_string(&mut out, &self.file);
        write_lit(&mut out, ",\"search_model\":");
        write_model(&mut out, &self.search_model);
        write_lit(&mut out, ",\"max_rerank\":");
        write_u64(&mut out, self.max_rerank as u64);
        write_lit(&mut out, ",\"temperature\":");
        write_decimal(&mut out, &self.temperature);
        write_lit(&mut out, ",\"logprobs\":");
        write_u64(&mut out, self.logprobs as u64);
        write_lit(&mut out, ",\"max_tokens\":");
        write_u64(&mut out, self.max_tokens as u64);
        write_lit(&mut out, ",\"stop\":");
        write_stop(&mut out, &self.stop);
        write_lit(&mut out, ",\"n\":");
        write_u64(&mut out, self.n as u64);
        write_lit(&mut out, ",\"logit_bias\":");
        write_bias_object(&mut out, &self.logit_bias);
        write_lit(&mut out, ",\"return_metadata\":");
        write_bool(&mut out, self.return_metadata);
        write_lit(&mut out, ",\"return_prompt\":");
        write_bool(&mut out, self.return_prompt);
        write_lit(&mut out, ",\"expand\":");
        write_string_list(&mut out, &self.expand);
        write_lit(&mut out, ",\"user\":");
        write_json_string(&mut out, self.user.as_str());
        write_lit(&mut out, "}");
        proof {
            assert(out@ =~= answer_json(*self));
        }
        string_from_chars(&out)
    }
}

impl Default for Answer {
    /// The ada models over an empty question, re-ranking at most 200
    /// documents, sixteen answer tokens, one answer, and everything else
    /// empty or off.
    fn default() -> (r: Self)
        ensures
            r.model == Model::Ada,
            r.question@ == Seq::<char>::empty(),
            r.examples@ == Seq::<[String; 2]>::empty(),
            r.examples_context@ == Seq::<char>::empty(),
            r.documents@ == Seq::<String>::empty(),
            r.file is None,
            r.search_model == Model::Ada,
            r.max_rerank == 200,
            r.temperature == (Decimal { negative: false, mantissa: 0, scale: 1 }),
            r.logprobs == 0,
            r.max_tokens == 16,
            r.stop is None,
            r.n == 1,
            r.logit_bias@ == Seq::<(String, i32)>::empty(),
            r.return_metadata == false,
            r.return_prompt == false,
            r.expand@ == Seq::<String>::empty(),
            r.user@ == Seq::<char>::empty(),
    {
        Answer {
            model: Model::Ada,
            question: String::new(),
            examples: Vec::new(),
            examples_context: String::new(),
            documents: Vec::new(),
            file: Option::None,
            search_model: Model::Ada,
            max_rerank: 200,
            temperature: Decimal::zero(),
            logprobs: 0,
            max_tokens: 16,
            stop: Option::None,
            n: 1,
            logit_bias: Vec::new(),
            return_metadata: false,
            return_prompt: false,
            expand: Vec::new(),
            user: String::new(),
        }
    }
}

/// The default-constructed payload serializes to the documented default
/// field values: the ada models, at most 200 re-ranked documents, sixteen
/// answer tokens, one answer, and everything else empty, null or off.
pub proof fn lemma_answer_default_json(a: Answer)
    requires
        a.model == Model::Ada,
        a.question@ == Seq::<char>::empty(),
        a.examples@ == Seq::<[String; 2]>::empty(),
        a.examples_context@ == Seq::<char>::empty(),
        a.documents@ == Seq::<String>::empty(),
        a.file is None,
        a.search_model == Model::Ada,
        a.max_rerank == 200,
        a.temperature == (Decimal { negative: false, mantissa: 0, scale: 1 }),
        a.logprobs == 0,
        a.max_tokens == 16,
        a.stop is None,
        a.n == 1,
        a.logit_bias@ == Seq::<(String, i32)>::empty(),
        a.return_metadata == false,
        a.return_prompt == false,
        a.expand@ == Seq::<String>::empty(),
        a.user@ == Seq::<char>::empty(),
    ensures
        answer_json(a)
            == "{\"model\":\"ada\",\"question\":\"\",\"examples\":[],\"examples_context\":\"\",\"documents\":[],\"file\":null,\"search_model\":\"ada\",\"max_rerank\":200,\"temperature\":0.0,\"logprobs\":0,\"max_tokens\":16,\"stop\":null,\"n\":1,\"logit_bias\":{},\"return_metadata\":false,\"return_prompt\":false,\"expand\":[],\"user\":\"\"}"@,
{
    reveal_strlit(
        "{\"model\":\"ada\",\"question\":\"\",\"examples\":[],\"examples_context\":\"\",\"documents\":[],\"file\":null,\"search_model\":\"ada\",\"max_rerank\":200,\"temperature\":0.0,\"logprobs\":0,\"max_tokens\":16,\"stop\":null,\"n\":1,\"logit_bias\":{},\"return_metadata\":false,\"return_prompt\":false,\"expand\":[],\"user\":\"\"}",
    );
    reveal_strlit("{\"model\":");
    reveal_strlit("\"ada\"");
    reveal_strlit(",\"question\":");
    reveal_strlit(",\"examples\":");
    reveal_strlit(",\"examples_context\":");
    reveal_strlit(",\"documents\":");
    reveal_strlit(",\"file\":");
    reveal_strlit("null");
    reveal_strlit(",\"search_model\":");
    reveal_strlit(",\"max_rerank\":");
    reveal_strlit(",\"temperature\":");
    reveal_strlit(",\"logprobs\":");
    reveal_strlit(",\"max_tokens\":");
    reveal_strlit(",\"stop\":");
    reveal_strlit(",\"n\":");
    reveal_strlit(",\"logit_bias\":");
    reveal_strlit(",\"return_metadata\":");
    reveal_strlit("false");
    reveal_strlit(",\"return_prompt\":");
    reveal_strlit(",\"expand\":");
    reveal_strlit(",\"user\":");
    reveal_strlit("}");
    reveal_with_fuel(dec_digits, 4);
    assert(dec_digits(200) =~= seq!['2', '0', '0']);
    assert(dec_digits(16) =~= seq!['1', '6']);
    crate::json::lemma_decimal_tenth_zero();
    assert(answer_json(a)
        =~= "{\"model\":\"ada\",\"question\":\"\",\"examples\":[],\"examples_context\":\"\",\"documents\":[],\"file\":null,\"search_model\":\"ada\",\"max_rerank\":200,\"temperature\":0.0,\"logprobs\":0,\"max_tokens\":16,\"stop\":null,\"n\":1,\"logit_bias\":{},\"return_metadata\":false,\"return_prompt\":false,\"expand\":[],\"user\":\"\"}"@);
}

impl Endpoint for Answer {
    open spec fn body_spec(&self) -> Seq<char> {
        answer_json(*self)
    }

    open spec fn url_spec(&self, engine_id: Option<&str>) -> Seq<char> {
        "https://api.openai.com/v1/answers"@
    }

    open spec fn needs_engine(&self) -> bool {
        false
    }

    fn requires_engine(&self) -> (b: bool) {
        false
    }

    fn request(&self, auth_token: &str, engine_id: Option<&str>) -> (r: Request) {
        let url: String = "https://api.openai.com/v1/answers".to_owned();
        let body: String = self.to_json();
        post_request(url, auth_token, body)
    }
}

} // verus!
