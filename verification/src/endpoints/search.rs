//! The search endpoint: ranks documents by semantic similarity to a query.

use vstd::prelude::*;
use vstd::string::StringExecFns;
use crate::json::{
    bool_json, dec_digits, json_string, opt_string_json, string_from_chars, string_list_json,
    write_bool, write_json_string, write_lit, write_opt_string, write_string_list, write_u64,
};
use crate::endpoints::{post_request, Endpoint, Request};

verus! {

/// Given a query and a set of documents or labels, the model ranks each
/// document based on its semantic similarity to the provided query.
#[derive(Debug, Clone)]
pub struct Search {
    /// Query to search against the documents.
    pub query: String,
    /// Up to 200 documents to search over, provided as a list of strings.
    pub documents: Vec<String>,
    /// The ID of an uploaded file that contains documents to search over.
    /// You should specify either documents or a file, but not both.
    pub file: Option<String>,
    /// The maximum number of documents to be re-ranked and returned by
    /// search. This flag only takes effect when file is set.
    pub max_rerank: u32,
    /// When set, each document entry in the returned JSON carries a
    /// metadata field. This flag only takes effect when file is set.
    pub return_metadata: bool,
    /// A unique identifier representing the end-user, for abuse monitoring.
    pub user: String,
}

/// The serialized body of a search request: every field, in declaration
/// order, under its wire name.
pub open spec fn search_json(s: Search) -> Seq<char> {
    "{\"query\":"@ + json_string(s.query@) + ",\"documents\":"@ + string_list_json(s.documents@)
        + ",\"file\":"@ + opt_string_json(s.file) + ",\"max_rerank\":"@ + dec_digits(
        s.max_rerank as nat,
    ) + ",\"return_metadata\":"@ + bool_json(s.return_metadata) + ",\"user\":"@ + json_string(
        s.user@,
    ) + "}"@
}

impl Search {
    /// Serializes this payload to its JSON body.
    pub fn to_json(&self) -> (s: String)
        ensures
            s@ == search_json(*self),
    {
        let mut out: Vec<char> = Vec::new();
        write_lit(&mut out, "{\"query\":");
        write_json_string(&mut out, self.query.as_str());
        write_lit(&mut out, ",\"documents\":");
        write_string_list(&mut out, &self.documents);
        write_lit(&mut out, ",\"file\":");
        write_opt_string(&mut out, &self.file);
        write_lit(&mut out, ",\"max_rerank\":");
        write_u64(&mut out, self.max_rerank as u64);
        write_lit(&mut out, ",\"return_metadata\":");
        write_bool(&mut out, self.return_metadata);
        write_lit(&mut out, ",\"user\":");
        write_json_string(&mut out, self.user.as_str());
        write_lit(&mut out, "}");
        proof {
            assert(out@ =~= search_json(*self));
        }
        string_from_chars(&out)
    }
}

impl Default for Search {
    /// An empty query over no documents, re-ranking at most 200.
    fn default() -> (r: Self)
        ensures
            r.query@ == Seq::<char>::empty(),
            r.documents@ == Seq::<String>::empty(),
            r.file is None,
            r.max_rerank == 200,
            r.return_metadata == false,
            r.user@ == Seq::<char>::empty(),
    {
        Search {
            query: String::new(),
            documents: Vec::new(),
            file: Option::None,
            max_rerank: 200,
            return_metadata: false,
            user: String::new(),
        }
    }
}

/// The default-constructed payload serializes to the documented default
/// field values: an empty query over no documents, no file, re-ranking at
/// most 200, no metadata, and no user.
pub proof fn lemma_search_default_json(s: Search)
    requires
        s.query@ == Seq::<char>::empty(),
        s.documents@ == Seq::<String>::empty(),
        s.file is None,
        s.max_rerank == 200,
        s.return_metadata == false,
        s.user@ == Seq::<char>::empty(),
    ensures
        search_json(s)
            == "{\"query\":\"\",\"documents\":[],\"file\":null,\"max_rerank\":200,\"return_metadata\":false,\"user\":\"\"}"@,
{
    reveal_strlit(
        "{\"query\":\"\",\"documents\":[],\"file\":null,\"max_rerank\":200,\"return_metadata\":false,\"user\":\"\"}",
    );
    reveal_strlit("{\"query\":");
    reveal_strlit(",\"documents\":");
    reveal_strlit(",\"file\":");
    reveal_strlit("null");
    reveal_strlit(",\"max_rerank\":");
    reveal_strlit(",\"return_metadata\":");
    reveal_strlit("false");
    reveal_strlit(",\"user\":");
    reveal_strlit("}");
    reveal_with_fuel(dec_digits, 4);
    assert(dec_digits(200) =~= seq!['2', '0', '0']);
    assert(search_json(s)
        =~= "{\"query\":\"\",\"documents\":[],\"file\":null,\"max_rerank\":200,\"return_metadata\":false,\"user\":\"\"}"@);
}

impl Endpoint for Search {
    open spec fn body_spec(&self) -> Seq<char> {
        search_json(*self)
    }

    open spec fn url_spec(&self, engine_id: Option<&str>) -> Seq<char> {
        match engine_id {
            Option::Some(e) => "https://api.openai.com/v1/engines/"@ + e@ + "/search"@,
            Option::None => Seq::empty(),
        }
    }

    open spec fn needs_engine(&self) -> bool {
        true
    }

    fn requires_engine(&self) -> (b: bool) {
        true
    }

    fn request(&self, auth_token: &str, engine_id: Option<&str>) -> (r: Request) {
        let engine: &str = match engine_id {
            Option::Some(e) => e,
            Option::None => unreached(),
        };
        let mut url: String = "https://api.openai.com/v1/engines/".to_owned();
        url.append(engine);
        url.append("/search");
        let body: String = self.to_json();
        post_request(url, auth_token, body)
    }
}

} // verus!
