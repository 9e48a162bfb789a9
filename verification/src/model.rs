//! The typed search response and its mathematical model.

use vstd::prelude::*;

verus! {

/// One person named as an author of a record.
#[derive(Debug, PartialEq, Eq)]
pub struct Author {
    /// The name as it is displayed.
    pub text: String,
    /// The person identifier, where the response gives one.
    pub pid: Option<String>,
}

pub struct AuthorModel {
    pub text: Seq<char>,
    pub pid: Option<Seq<char>>,
}

impl View for Author {
    type V = AuthorModel;

    open spec fn view(&self) -> AuthorModel {
        AuthorModel {
            text: self.text@,
            pid: match self.pid {
                Some(p) => Some(p@),
                None => None,
            },
        }
    }
}

/// The authors of a record, in the order of the response.
#[derive(Debug, PartialEq, Eq)]
pub struct Authors {
    pub author: Vec<Author>,
}

impl View for Authors {
    type V = Seq<AuthorModel>;

    open spec fn view(&self) -> Seq<AuthorModel> {
        Seq::new(self.author@.len(), |i: int| self.author@[i]@)
    }
}

/// The bibliographic record of a hit.
///
/// `access`, `doi`, `number`, `pages` and `volume` are empty where the response
/// leaves them out.
#[derive(Debug, PartialEq, Eq)]
pub struct Info {
    pub title: String,
    pub authors: Authors,
    pub venue: String,
    pub year: String,
    /// Link to the electronic edition.
    pub ee: String,
    pub key: String,
    pub url: String,
    /// The sort of publication, as the response's `type` member names it.
    pub record_type: String,
    pub access: String,
    pub doi: String,
    pub number: String,
    pub pages: String,
    pub volume: String,
}

pub struct InfoModel {
    pub title: Seq<char>,
    pub authors: Seq<AuthorModel>,
    pub venue: Seq<char>,
    pub year: Seq<char>,
    pub ee: Seq<char>,
    pub key: Seq<char>,
    pub url: Seq<char>,
    pub record_type: Seq<char>,
    pub access: Seq<char>,
    pub doi: Seq<char>,
    pub number: Seq<char>,
    pub pages: Seq<char>,
    pub volume: Seq<char>,
}

impl View for Info {
    type V = InfoModel;

    open spec fn view(&self) -> InfoModel {
        InfoModel {
            title: self.title@,
            authors: self.authors@,
            venue: self.venue@,
            year: self.year@,
            ee: self.ee@,
            key: self.key@,
            url: self.url@,
            record_type: self.record_type@,
            access: self.access@,
            doi: self.doi@,
            number: self.number@,
            pages: self.pages@,
            volume: self.volume@,
        }
    }
}

/// One search result. Identifier and score stay text, exactly as the response
/// wrote them.
#[derive(Debug, PartialEq, Eq)]
pub struct Hit {
    pub id: String,
    pub score: String,
    pub info: Info,
    pub url: String,
}

pub struct HitModel {
    pub id: Seq<char>,
    pub score: Seq<char>,
    pub info: InfoModel,
    pub url: Seq<char>,
}

impl View for Hit {
    type V = HitModel;

    open spec fn view(&self) -> HitModel {
        HitModel { id: self.id@, score: self.score@, info: self.info@, url: self.url@ }
    }
}

/// The search results, in the order of the response.
#[derive(Debug, PartialEq, Eq)]
pub struct Hits {
    pub hit: Vec<Hit>,
}

impl View for Hits {
    type V = Seq<HitModel>;

    open spec fn view(&self) -> Seq<HitModel> {
        Seq::new(self.hit@.len(), |i: int| self.hit@[i]@)
    }
}

/// One suggested completion of the query.
#[derive(Debug, PartialEq, Eq)]
pub struct Completion {
    pub text: String,
}

impl View for Completion {
    type V = Seq<char>;

    open spec fn view(&self) -> Seq<char> {
        self.text@
    }
}

/// The suggested completions, in the order of the response.
#[derive(Debug, PartialEq, Eq)]
pub struct Completions {
    pub c: Vec<Completion>,
}

impl View for Completions {
    type V = Seq<Seq<char>>;

    open spec fn view(&self) -> Seq<Seq<char>> {
        Seq::new(self.c@.len(), |i: int| self.c@[i]@)
    }
}

/// How the service says the request went.
#[derive(Debug, PartialEq, Eq)]
pub struct Status {
    pub code: String,
    pub text: String,
}

pub struct StatusModel {
    pub code: Seq<char>,
    pub text: Seq<char>,
}

impl View for Status {
    type V = StatusModel;

    open spec fn view(&self) -> StatusModel {
        StatusModel { code: self.code@, text: self.text@ }
    }
}

/// How long the service says it worked on the request.
#[derive(Debug, PartialEq, Eq)]
pub struct Time {
    pub unit: String,
    pub text: String,
}

pub struct TimeModel {
    pub unit: Seq<char>,
    pub text: Seq<char>,
}

impl View for Time {
    type V = TimeModel;

    open spec fn view(&self) -> TimeModel {
        TimeModel { unit: self.unit@, text: self.text@ }
    }
}

/// What a search returned.
#[derive(Debug, PartialEq, Eq)]
pub struct SearchResult {
    pub completions: Completions,
    pub hits: Hits,
    pub query: String,
    pub status: Status,
    pub time: Time,
}

pub struct SearchResultModel {
    pub completions: Seq<Seq<char>>,
    pub hits: Seq<HitModel>,
    pub query: Seq<char>,
    pub status: StatusModel,
    pub time: TimeModel,
}

impl View for SearchResult {
    type V = SearchResultModel;

    open spec fn view(&self) -> SearchResultModel {
        SearchResultModel {
            completions: self.completions@,
            hits: self.hits@,
            query: self.query@,
            status: self.status@,
            time: self.time@,
        }
    }
}

/// The envelope of a search response.
#[derive(Debug, PartialEq, Eq)]
pub struct SearchResponse {
    pub result: SearchResult,
}

pub struct SearchResponseModel {
    pub result: SearchResultModel,
}

impl View for SearchResponse {
    type V = SearchResponseModel;

    open spec fn view(&self) -> SearchResponseModel {
        SearchResponseModel { result: self.result@ }
    }
}

} // verus!
