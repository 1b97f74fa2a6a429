//! The classification endpoint: predicts the most likely label for a query
//! from labeled examples.

use vstd::prelude::*;
use crate::json::{
    bias_object_json, bool_json, dec_digits, decimal_json, json_string, opt_string_json,
    pair_list_json, string_from_chars, string_list_json, write_bias_object, write_bool,
    write_decimal, write_json_string, write_lit, write_opt_string, write_pair_list,
    write_string_list, write_u64, Decimal,
};
use crate::endpoints::{model_json, post_request, write_model, Endpoint, Model, Request};

verus! {

/// Given a query and a set of labeled examples, the model predicts the
/// most likely label for the query.
#[derive(Debug, Clone)]
pub struct Classification {
    /// ID of the engine to use for completion.
    pub model: Model,
    /// Query to be classified.
    pub query: String,
    /// A list of examples, each a text with its label. You should specify
    /// either examples or file, but not both.
    pub examples: Vec<[String; 2]>,
    /// The ID of the uploaded file that contains training examples.
    /// You should specify either examples or file, but not both.
    pub file: Option<String>,
    /// The set of categories being classified; collected from the examples
    /// when absent.
    pub labels: Vec<String>,
    /// ID of the engine to use for search.
    pub search_model: Model,
    /// What sampling temperature to use.
    pub temperature: Decimal,
    /// Include the log probabilities on this many most likely tokens.
    pub logprobs: u32,
    /// The maximum number of examples to be ranked by search when using
    /// file.
    pub max_examples: u32,
    /// Token-id to bias entries that modify the likelihood of those tokens
    /// appearing in the completion.
    pub logit_bias: Vec<(String, i32)>,
    /// When set, the returned JSON includes the final prompt.
    pub return_prompt: bool,
    /// When set, each document entry in the returned JSON carries a
    /// metadata field. This flag only takes effect when file is set.
    pub return_metadata: bool,
    /// Object names whose full information should be expanded in the
    /// response.
    pub expand: Vec<String>,
    /// A unique identifier representing the end-user, for abuse monitoring.
    pub user: String,
}

/// The serialized body of a classification request: every field, in
/// declaration order, under its wire name.
pub open spec fn classification_json(c: Classification) -> Seq<char> {
    "{\"model\":"@ + model_json(c.model) + ",\"query\":"@ + json_string(c.query@)
        + ",\"examples\":"@ + pair_list_json(c.examples@) + ",\"file\":"@ + opt_string_json(c.file)
        + ",\"labels\":"@ + string_list_json(c.labels@) + ",\"search_model\":"@ + model_json(
        c.search_model,
    ) + ",\"temperature\":"@ + decimal_json(c.temperature) + ",\"logprobs\":"@ + dec_digits(
        c.logprobs as nat,
    ) + ",\"max_examples\":"@ + dec_digits(c.max_examples as nat) + ",\"logit_bias\":"@
        + bias_object_json(c.logit_bias@) + ",\"return_prompt\":"@ + bool_json(c.return_prompt)
        + ",\"return_metadata\":"@ + bool_json(c.return_metadata) + ",\"expand\":"@
        + string_list_json(c.expand@) + ",\"user\":"@ + json_string(c.user@) + "}"@
}

impl Classification {
    /// Serializes this payload to its JSON body.
    pub fn to_json(&self) -> (s: String)
        ensures
            s@ == classification_json(*self),
    {
        let mut out: Vec<char> = Vec::new();
        write_lit(&mut out, "{\"model\":");
        write_model(&mut out, &self.model);
        write_lit(&mut out, ",\"query\":");
        write_json_string(&mut out, self.query.as_str());
        write_lit(&mut out, ",\"examples\":");
        write_pair_list(&mut out, &self.examples);
        write_lit(&mut out, ",\"file\":");
        write_opt_string(&mut out, &self.file);
        write_lit(&mut out, ",\"labels\":");
        write_string_list(&mut out, &self.labels);
        write_lit(&mut out, ",\"search_model\":");
        write_model(&mut out, &self.search_model);
        write_lit(&mut out, ",\"temperature\":");
        write_decimal(&mut out, &self.temperature);
        write_lit(&mut out, ",\"logprobs\":");
        write_u64(&mut out, self.logprobs as u64);
        write_lit(&mut out, ",\"max_examples\":");
        write_u64(&mut out, self.max_examples as u64);
        write_lit(&mut out, ",\"logit_bias\":");
        write_bias_object(&mut out, &self.logit_bias);
        write_lit(&mut out, ",\"return_prompt\":");
        write_bool(&mut out, self.return_prompt);
        write_lit(&mut out, ",\"return_metadata\":");
        write_bool(&mut out, self.return_metadata);
        write_lit(&mut out, ",\"expand\":");
        write_string_list(&mut out, &self.expand);
        write_lit(&mut out, ",\"user\":");
        write_json_string(&mut out, self.user.as_str());
        write_lit(&mut out, "}");
        proof {
            assert(out@ =~= classification_json(*self));
        }
        string_from_chars(&out)
    }
}

impl Default for Classification {
    /// The davinci completion model over an empty query, with the default
    /// search model, at most 200 ranked examples, and everything else
    /// empty or off.
    fn default() -> (r: Self)
        ensures
            r.model == Model::Davinci,
            r.query@ == Seq::<char>::empty(),
            r.examples@ == Seq::<[String; 2]>::empty(),
            r.file is None,
            r.labels@ == Seq::<String>::empty(),
            r.search_model == Model::Ada,
            r.temperature == (Decimal { negative: false, mantissa: 0, scale: 1 }),
            r.logprobs == 0,
            r.max_examples == 200,
            r.logit_bias@ == Seq::<(String, i32)>::empty(),
            r.return_prompt == false,
            r.return_metadata == false,
            r.expand@ == Seq::<String>::empty(),
            r.user@ == Seq::<char>::empty(),
    {
        Classification {
            model: Model::Davinci,
            query: String::new(),
            examples: Vec::new(),
            file: Option::None,
            labels: Vec::new(),
            search_model: Model::default(),
            temperature: Decimal::zero(),
            logprobs: 0,
            max_examples: 200,
            logit_bias: Vec::new(),
            return_prompt: false,
            return_metadata: false,
            expand: Vec::new(),
            user: String::new(),
        }
    }
}

/// The default-constructed payload serializes to the documented default
/// field values: the davinci completion model, the ada search model, zero
/// temperature, at most 200 ranked examples, and everything else empty,
/// null or off.
pub proof fn lemma_classification_default_json(c: Classification)
    requires
        c.model == Model::Davinci,
        c.query@ == Seq::<char>::empty(),
        c.examples@ == Seq::<[String; 2]>::empty(),
        c.file is None,
        c.labels@ == Seq::<String>::empty(),
        c.search_model == Model::Ada,
        c.temperature == (Decimal { negative: false, mantissa: 0, scale: 1 }),
        c.logprobs == 0,
        c.max_examples == 200,
        c.logit_bias@ == Seq::<(String, i32)>::empty(),
        c.return_prompt == false,
        c.return_metadata == false,
        c.expand@ == Seq::<String>::empty(),
        c.user@ == Seq::<char>::empty(),
    ensures
        classification_json(c)
            == "{\"model\":\"davinci\",\"query\":\"\",\"examples\":[],\"file\":null,\"labels\":[],\"search_model\":\"ada\",\"temperature\":0.0,\"logprobs\":0,\"max_examples\":200,\"logit_bias\":{},\"return_prompt\":false,\"return_metadata\":false,\"expand\":[],\"user\":\"\"}"@,
{
    reveal_strlit(
        "{\"model\":\"davinci\",\"query\":\"\",\"examples\":[],\"file\":null,\"labels\":[],\"search_model\":\"ada\",\"temperature\":0.0,\"logprobs\":0,\"max_examples\":200,\"logit_bias\":{},\"return_prompt\":false,\"return_metadata\":false,\"expand\":[],\"user\":\"\"}",
    );
    reveal_strlit("{\"model\":");
    reveal_strlit("\"davinci\"");
    reveal_strlit(",\"query\":");
    reveal_strlit(",\"examples\":");
    reveal_strlit(",\"file\":");
    reveal_strlit("null");
    reveal_strlit(",\"labels\":");
    reveal_strlit(",\"search_model\":");
    reveal_strlit("\"ada\"");
    reveal_strlit(",\"temperature\":");
    reveal_strlit(",\"logprobs\":");
    reveal_strlit(",\"max_examples\":");
    reveal_strlit(",\"logit_bias\":");
    reveal_strlit(",\"return_prompt\":");
    reveal_strlit("false");
    reveal_strlit(",\"return_metadata\":");
    reveal_strlit(",\"expand\":");
    reveal_strlit(",\"user\":");
    reveal_strlit("}");
    reveal_with_fuel(dec_digits, 4);
    assert(dec_digits(200) =~= seq!['2', '0', '0']);
    crate::json::lemma_decimal_tenth_zero();
    assert(classification_json(c)
        =~= "{\"model\":\"davinci\",\"query\":\"\",\"examples\":[],\"file\":null,\"labels\":[],\"search_model\":\"ada\",\"temperature\":0.0,\"logprobs\":0,\"max_examples\":200,\"logit_bias\":{},\"return_prompt\":false,\"return_metadata\":false,\"expand\":[],\"user\":\"\"}"@);
}

impl Endpoint for Classification {
    open spec fn body_spec(&self) -> Seq<char> {
        classification_json(*self)
    }

    open spec fn url_spec(&self, engine_id: Option<&str>) -> Seq<char> {
        "https://api.openai.com/v1/classifications"@
    }

    open spec fn needs_engine(&self) -> bool {
        false
    }

    fn requires_engine(&self) -> (b: bool) {
        false
    }

    fn request(&self, auth_token: &str, engine_id: Option<&str>) -> (r: Request) {
        let url: String = "https://api.openai.com/v1/classifications".to_owned();
        let body: String = self.to_json();
        post_request(url, auth_token, body)
    }
}

} // verus!
