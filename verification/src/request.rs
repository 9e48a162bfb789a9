//! The search request and the address it is sent to.

use vstd::prelude::*;
use crate::path::{decimal, decimal_text};
use crate::percent::{encode_text, encoded_text};

verus! {

/// What is searched: publications, authors or venues.
#[derive(Debug, Clone, Copy, PartialEq, Eq, Structural)]
pub enum QueryType {
    Publ,
    Author,
    Venue,
}

/// The format in which the service is asked to answer.
#[derive(Debug, Clone, Copy, PartialEq, Eq, Structural)]
pub enum Format {
    Json,
    Xml,
}

/// The number of hits asked for where the caller names none.
pub const DEFAULT_HITS: usize = 30;

/// The index of the first hit asked for where the caller names none.
pub const DEFAULT_FIRST: usize = 0;

/// The number of completions asked for where the caller names none.
pub const DEFAULT_COMPLETION: usize = 10;

/// The word for a query type, as it stands in an address and on a command line.
pub open spec fn query_type_name(query_type: QueryType) -> Seq<char> {
    match query_type {
        QueryType::Publ => "publ"@,
        QueryType::Author => "author"@,
        QueryType::Venue => "venue"@,
    }
}

/// The query type that a word names.
pub open spec fn query_type_named(word: Seq<char>) -> Option<QueryType> {
    if word == "publ"@ {
        Some(QueryType::Publ)
    } else if word == "author"@ {
        Some(QueryType::Author)
    } else if word == "venue"@ {
        Some(QueryType::Venue)
    } else {
        None
    }
}

/// The word for a format, as it stands in an address and on a command line.
pub open spec fn format_name(format: Format) -> Seq<char> {
    match format {
        Format::Json => "json"@,
        Format::Xml => "xml"@,
    }
}

/// The format that a word names.
pub open spec fn format_named(word: Seq<char>) -> Option<Format> {
    if word == "json"@ {
        Some(Format::Json)
    } else if word == "xml"@ {
        Some(Format::Xml)
    } else {
        None
    }
}

/// One search: what is searched, the query, and how much of the answer is wanted.
#[derive(Debug, PartialEq, Eq)]
pub struct SearchRequest {
    pub query_type: QueryType,
    pub query: String,
    pub format: Format,
    /// The largest number of hits to return.
    pub hits: usize,
    /// The index of the first hit to return, counted from zero.
    pub first: usize,
    /// The largest number of completions to return.
    pub completion: usize,
}

pub struct SearchRequestModel {
    pub query_type: QueryType,
    pub query: Seq<char>,
    pub format: Format,
    pub hits: nat,
    pub first: nat,
    pub completion: nat,
}

impl View for SearchRequest {
    type V = SearchRequestModel;

    open spec fn view(&self) -> SearchRequestModel {
        SearchRequestModel {
            query_type: self.query_type,
            query: self.query@,
            format: self.format,
            hits: self.hits as nat,
            first: self.first as nat,
            completion: self.completion as nat,
        }
    }
}

/// The address of a request: the search endpoint of its query type, then the
/// query percent-encoded, the format, and the three numbers in decimal.
pub open spec fn request_url(request: SearchRequestModel) -> Seq<char> {
    "https://dblp.org/search/"@ + query_type_name(request.query_type) + "/api?q="@
        + encoded_text(request.query) + "&format="@ + format_name(request.format) + "&h="@ + decimal(
        request.hits,
    ) + "&f="@ + decimal(request.first) + "&c="@ + decimal(request.completion)
}

impl QueryType {
    /// The word for this query type.
    pub fn name(&self) -> (word: &'static str)
        ensures
            word@ == query_type_name(*self),
    {
        match self {
            QueryType::Publ => "publ",
            QueryType::Author => "author",
            QueryType::Venue => "venue",
        }
    }

    /// The query type that `word` names, if it names one.
    pub fn from_name(word: &str) -> (found: Option<QueryType>)
        ensures
            found == query_type_named(word@),
    {
        let word = word.to_owned();
        if word == "publ".to_owned() {
            Some(QueryType::Publ)
        } else if word == "author".to_owned() {
            Some(QueryType::Author)
        } else if word == "venue".to_owned() {
            Some(QueryType::Venue)
        } else {
            None
        }
    }
}

impl Format {
    /// The word for this format.
    pub fn name(&self) -> (word: &'static str)
        ensures
            word@ == format_name(*self),
    {
        match self {
            Format::Json => "json",
            Format::Xml => "xml",
        }
    }

    /// The format that `word` names, if it names one.
    pub fn from_name(word: &str) -> (found: Option<Format>)
        ensures
            found == format_named(word@),
    {
        let word = word.to_owned();
        if word == "json".to_owned() {
            Some(Format::Json)
        } else if word == "xml".to_owned() {
            Some(Format::Xml)
        } else {
            None
        }
    }
}

impl SearchRequest {
    /// A request for `query` that asks for JSON and for the default numbers of
    /// hits and completions, from the first hit on.
    pub fn new(query_type: QueryType, query: String) -> (request: SearchRequest)
        ensures
            request@ == (SearchRequestModel {
                query_type,
                query: query@,
                format: Format::Json,
                hits: DEFAULT_HITS as nat,
                first: DEFAULT_FIRST as nat,
                completion: DEFAULT_COMPLETION as nat,
            }),
    {
        SearchRequest {
            query_type,
            query,
            format: Format::Json,
            hits: DEFAULT_HITS,
            first: DEFAULT_FIRST,
            completion: DEFAULT_COMPLETION,
        }
    }

    /// The address to which the request is sent. The query is percent-encoded, so
    /// that no character of it is taken for a part of the address.
    pub fn url(&self) -> (address: String)
        ensures
            address@ == request_url(self@),
    {
        let mut address = "https://dblp.org/search/".to_owned();
        address.append(self.query_type.name());
        address.append("/api?q=");
        let query = encode_text(self.query.as_str());
        address.append(query.as_str());
        address.append("&format=");
        address.append(self.format.name());
        address.append("&h=");
        let hits = decimal_text(self.hits);
        address.append(hits.as_str());
        address.append("&f=");
        let first = decimal_text(self.first);
        address.append(first.as_str());
        address.append("&c=");
        let completion = decimal_text(self.completion);
        address.append(completion.as_str());
        address
    }
}

/// Each query type is named by its own word, and by no other.
pub proof fn lemma_query_type_name_round_trip(query_type: QueryType)
    ensures
        query_type_named(query_type_name(query_type)) == Some(query_type),
{
    reveal_strlit("publ");
    reveal_strlit("author");
    reveal_strlit("venue");
    assert("publ"@.len() == 4);
    assert("author"@.len() == 6);
    assert("venue"@.len() == 5);
}

/// Each format is named by its own word, and by no other.
pub proof fn lemma_format_name_round_trip(format: Format)
    ensures
        format_named(format_name(format)) == Some(format),
{
    reveal_strlit("json");
    reveal_strlit("xml");
    assert("json"@.len() == 4);
    assert("xml"@.len() == 3);
}

} // verus!
