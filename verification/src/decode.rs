//! Decoding of a JSON document into a typed response.
//!
//! Decoding is all or nothing. A document either has every required member, each
//! of the expected kind, and then gives a response; or it is malformed, and the
//! first place at which it departs from the response model is reported. Places
//! are visited in the order in which the model lists its fields, and the items of
//! an array in their own order. Members that the model does not know are passed
//! over. Text is taken as it stands: no field is read as a number or checked for
//! what it holds.

use vstd::prelude::*;
use crate::error::{Cause, Malformed, MalformedModel, SearchError, SearchErrorModel};
use crate::json::{Json, JsonValue, Kind};
use crate::model::{
    Author, AuthorModel, Authors, Completion, Completions, Hit, HitModel, Hits, Info, InfoModel,
    SearchResponse, SearchResponseModel, SearchResult, SearchResultModel, Status, StatusModel,
    Time, TimeModel,
};
use crate::path::{item_path, item_path_text, member_path, member_path_text, ROOT};

verus! {

/// The first of two findings: `first` where there is one, else `second`.
pub open spec fn first_of(first: Option<MalformedModel>, second: Option<MalformedModel>) -> Option<
    MalformedModel,
> {
    if first is Some {
        first
    } else {
        second
    }
}

/// What is wrong where the value at `path` must be of kind `expected`.
pub open spec fn kind_failure(value: JsonValue, expected: Kind, path: Seq<char>) -> Option<
    MalformedModel,
> {
    if value.kind() == expected {
        None
    } else {
        Some(MalformedModel { path, cause: Cause::Mismatch { expected, found: value.kind() } })
    }
}

/// What is wrong where the value at `path` must have a member `name`.
pub open spec fn missing_failure(value: JsonValue, name: Seq<char>, path: Seq<char>) -> Option<
    MalformedModel,
> {
    match value.member(name) {
        Some(_) => None,
        None => Some(MalformedModel { path: member_path(path, name), cause: Cause::Missing }),
    }
}

/// What is wrong where the value at `path` must have a member `name` of kind
/// `expected`.
pub open spec fn required_failure(
    value: JsonValue,
    name: Seq<char>,
    expected: Kind,
    path: Seq<char>,
) -> Option<MalformedModel> {
    match value.member(name) {
        Some(member) => kind_failure(member, expected, member_path(path, name)),
        None => Some(MalformedModel { path: member_path(path, name), cause: Cause::Missing }),
    }
}

/// What is wrong where the value at `path` may have a member `name`, which must
/// then be of kind `expected`.
pub open spec fn optional_failure(
    value: JsonValue,
    name: Seq<char>,
    expected: Kind,
    path: Seq<char>,
) -> Option<MalformedModel> {
    match value.member(name) {
        Some(member) => kind_failure(member, expected, member_path(path, name)),
        None => None,
    }
}

/// The member `name` of `value`.
pub open spec fn member_at(value: JsonValue, name: Seq<char>) -> JsonValue {
    match value.member(name) {
        Some(member) => member,
        None => JsonValue::Null,
    }
}

/// The text of the member `name` of `value`, where it is there and is text.
pub open spec fn optional_text_at(value: JsonValue, name: Seq<char>) -> Option<Seq<char>> {
    match value.member(name) {
        Some(JsonValue::Text(text)) => Some(text),
        _ => None,
    }
}

/// The text of the member `name` of `value`; empty where `value` has no such text.
pub open spec fn text_at(value: JsonValue, name: Seq<char>) -> Seq<char> {
    match optional_text_at(value, name) {
        Some(text) => text,
        None => Seq::empty(),
    }
}

/// The items of the member `name` of `value`.
pub open spec fn items_at(value: JsonValue, name: Seq<char>) -> Seq<JsonValue> {
    match value.member(name) {
        Some(JsonValue::Array(items)) => items,
        _ => Seq::empty(),
    }
}

/// What is wrong with the items of the array at `path`, where `check` says what is
/// wrong with one item at its own path: the finding on the first item that has one.
pub open spec fn items_failure(
    items: Seq<JsonValue>,
    path: Seq<char>,
    check: spec_fn(JsonValue, Seq<char>) -> Option<MalformedModel>,
) -> Option<MalformedModel>
    decreases items.len(),
{
    if items.len() == 0 {
        None
    } else {
        first_of(
            items_failure(items.drop_last(), path, check),
            check(items.last(), item_path(path, (items.len() - 1) as nat)),
        )
    }
}

/// A finding among the first `count` items is the finding among all of them.
pub proof fn lemma_items_failure_found(
    items: Seq<JsonValue>,
    path: Seq<char>,
    check: spec_fn(JsonValue, Seq<char>) -> Option<MalformedModel>,
    count: int,
)
    requires
        0 <= count <= items.len(),
        items_failure(items.take(count), path, check) is Some,
    ensures
        items_failure(items, path, check) == items_failure(items.take(count), path, check),
    decreases items.len(),
{
    if count == items.len() {
        assert(items.take(count) =~= items);
    } else {
        assert(items.drop_last().take(count) =~= items.take(count));
        lemma_items_failure_found(items.drop_last(), path, check, count);
    }
}

/// The items are without finding exactly when each of them is, and a finding is
/// that of the first item that has one.
pub proof fn lemma_items_failure_first(
    items: Seq<JsonValue>,
    path: Seq<char>,
    check: spec_fn(JsonValue, Seq<char>) -> Option<MalformedModel>,
)
    ensures
        items_failure(items, path, check) is None <==> forall|i: int|
            0 <= i < items.len() ==> (#[trigger] check(items[i], item_path(path, i as nat)))
                is None,
        items_failure(items, path, check) is Some ==> exists|i: int|
            0 <= i < items.len() && items_failure(items, path, check) == #[trigger] check(
                items[i],
                item_path(path, i as nat),
            ) && forall|k: int|
                0 <= k < i ==> (#[trigger] check(items[k], item_path(path, k as nat))) is None,
    decreases items.len(),
{
    if items.len() > 0 {
        let front = items.drop_last();
        let last = items.len() - 1;
        lemma_items_failure_first(front, path, check);
        assert(forall|i: int| 0 <= i < front.len() ==> front[i] == items[i]);
        if items_failure(front, path, check) is Some {
            let i = choose|i: int|
                0 <= i < front.len() && items_failure(front, path, check) == #[trigger] check(
                    front[i],
                    item_path(path, i as nat),
                ) && forall|k: int|
                    0 <= k < i ==> (#[trigger] check(front[k], item_path(path, k as nat)))
                        is None;
            assert(check(items[i], item_path(path, i as nat)) is Some);
            assert(forall|k: int|
                0 <= k < i ==> (#[trigger] check(items[k], item_path(path, k as nat))) is None);
        } else {
            assert(forall|i: int|
                0 <= i < last ==> (#[trigger] check(items[i], item_path(path, i as nat)))
                    is None) by {
                assert(forall|i: int|
                    0 <= i < front.len() ==> (#[trigger] check(
                        front[i],
                        item_path(path, i as nat),
                    )) is None);
            }
            if check(items[last], item_path(path, last as nat)) is Some {
                assert(items_failure(items, path, check) == check(
                    items[last],
                    item_path(path, last as nat),
                ));
            }
        }
    }
}

/// What is wrong with an author at `path`.
pub open spec fn author_failure(value: JsonValue, path: Seq<char>) -> Option<MalformedModel> {
    first_of(
        kind_failure(value, Kind::Object, path),
        first_of(
            required_failure(value, "text"@, Kind::Text, path),
            optional_failure(value, "@pid"@, Kind::Text, path),
        ),
    )
}

/// The author that `value` stands for.
pub open spec fn author_value(value: JsonValue) -> AuthorModel {
    AuthorModel { text: text_at(value, "text"@), pid: optional_text_at(value, "@pid"@) }
}

/// [`author_failure`] as a check on items.
pub open spec fn author_check() -> spec_fn(JsonValue, Seq<char>) -> Option<MalformedModel> {
    |value: JsonValue, path: Seq<char>| author_failure(value, path)
}

/// What is wrong with the authors at `path`.
pub open spec fn authors_failure(value: JsonValue, path: Seq<char>) -> Option<MalformedModel> {
    first_of(
        kind_failure(value, Kind::Object, path),
        first_of(
            required_failure(value, "author"@, Kind::Array, path),
            items_failure(items_at(value, "author"@), member_path(path, "author"@), author_check()),
        ),
    )
}

/// The authors that `value` stands for.
pub open spec fn authors_value(value: JsonValue) -> Seq<AuthorModel> {
    let items = items_at(value, "author"@);
    Seq::new(items.len(), |i: int| author_value(items[i]))
}

/// What is wrong where the value at `path` must have a text member `name`.
pub open spec fn text_failure(value: JsonValue, name: Seq<char>, path: Seq<char>) -> Option<
    MalformedModel,
> {
    required_failure(value, name, Kind::Text, path)
}

/// What is wrong where the value at `path` may have a text member `name`.
pub open spec fn optional_text_failure(
    value: JsonValue,
    name: Seq<char>,
    path: Seq<char>,
) -> Option<MalformedModel> {
    optional_failure(value, name, Kind::Text, path)
}

/// What is wrong with a record at `path`. `access`, `doi`, `number`, `pages` and
/// `volume` may be left out; every other member must be there.
pub open spec fn info_failure(value: JsonValue, path: Seq<char>) -> Option<MalformedModel> {
    first_of(
        kind_failure(value, Kind::Object, path),
        first_of(
            text_failure(value, "title"@, path),
            first_of(
                missing_failure(value, "authors"@, path),
                first_of(
                    authors_failure(member_at(value, "authors"@), member_path(path, "authors"@)),
                    first_of(
                        text_failure(value, "venue"@, path),
                        first_of(
                            text_failure(value, "year"@, path),
                            first_of(
                                text_failure(value, "ee"@, path),
                                first_of(
                                    text_failure(value, "key"@, path),
                                    first_of(
                                        text_failure(value, "url"@, path),
                                        first_of(
                                            text_failure(value, "type"@, path),
                                            info_options_failure(value, path),
                                        ),
                                    ),
                                ),
                            ),
                        ),
                    ),
                ),
            ),
        ),
    )
}

/// What is wrong with the members of a record that may be left out.
pub open spec fn info_options_failure(value: JsonValue, path: Seq<char>) -> Option<
    MalformedModel,
> {
    first_of(
        optional_text_failure(value, "access"@, path),
        first_of(
            optional_text_failure(value, "doi"@, path),
            first_of(
                optional_text_failure(value, "number"@, path),
                first_of(
                    optional_text_failure(value, "pages"@, path),
                    optional_text_failure(value, "volume"@, path),
                ),
            ),
        ),
    )
}

/// The record that `value` stands for. A member that may be left out, and is, gives
/// the empty text.
pub open spec fn info_value(value: JsonValue) -> InfoModel {
    InfoModel {
        title: text_at(value, "title"@),
        authors: authors_value(member_at(value, "authors"@)),
        venue: text_at(value, "venue"@),
        year: text_at(value, "year"@),
        ee: text_at(value, "ee"@),
        key: text_at(value, "key"@),
        url: text_at(value, "url"@),
        record_type: text_at(value, "type"@),
        access: text_at(value, "access"@),
        doi: text_at(value, "doi"@),
        number: text_at(value, "number"@),
        pages: text_at(value, "pages"@),
        volume: text_at(value, "volume"@),
    }
}

/// What is wrong with a hit at `path`.
pub open spec fn hit_failure(value: JsonValue, path: Seq<char>) -> Option<MalformedModel> {
    first_of(
        kind_failure(value, Kind::Object, path),
        first_of(
            text_failure(value, "@id"@, path),
            first_of(
                text_failure(value, "@score"@, path),
                first_of(
                    missing_failure(value, "info"@, path),
                    first_of(
                        info_failure(member_at(value, "info"@), member_path(path, "info"@)),
                        text_failure(value, "url"@, path),
                    ),
                ),
            ),
        ),
    )
}

/// The hit that `value` stands for.
pub open spec fn hit_value(value: JsonValue) -> HitModel {
    HitModel {
        id: text_at(value, "@id"@),
        score: text_at(value, "@score"@),
        info: info_value(member_at(value, "info"@)),
        url: text_at(value, "url"@),
    }
}

/// [`hit_failure`] as a check on items.
pub open spec fn hit_check() -> spec_fn(JsonValue, Seq<char>) -> Option<MalformedModel> {
    |value: JsonValue, path: Seq<char>| hit_failure(value, path)
}

/// What is wrong with the hits at `path`.
pub open spec fn hits_failure(value: JsonValue, path: Seq<char>) -> Option<MalformedModel> {
    first_of(
        kind_failure(value, Kind::Object, path),
        first_of(
            required_failure(value, "hit"@, Kind::Array, path),
            items_failure(items_at(value, "hit"@), member_path(path, "hit"@), hit_check()),
        ),
    )
}

/// The hits that `value` stands for.
pub open spec fn hits_value(value: JsonValue) -> Seq<HitModel> {
    let items = items_at(value, "hit"@);
    Seq::new(items.len(), |i: int| hit_value(items[i]))
}

/// What is wrong with a completion at `path`.
pub open spec fn completion_failure(value: JsonValue, path: Seq<char>) -> Option<
    MalformedModel,
> {
    first_of(kind_failure(value, Kind::Object, path), text_failure(value, "text"@, path))
}

/// The completion that `value` stands for.
pub open spec fn completion_value(value: JsonValue) -> Seq<char> {
    text_at(value, "text"@)
}

/// [`completion_failure`] as a check on items.
pub open spec fn completion_check() -> spec_fn(JsonValue, Seq<char>) -> Option<MalformedModel> {
    |value: JsonValue, path: Seq<char>| completion_failure(value, path)
}

/// What is wrong with the completions at `path`.
pub open spec fn completions_failure(value: JsonValue, path: Seq<char>) -> Option<
    MalformedModel,
> {
    first_of(
        kind_failure(value, Kind::Object, path),
        first_of(
            required_failure(value, "c"@, Kind::Array, path),
            items_failure(items_at(value, "c"@), member_path(path, "c"@), completion_check()),
        ),
    )
}

/// The completions that `value` stands for.
pub open spec fn completions_value(value: JsonValue) -> Seq<Seq<char>> {
    let items = items_at(value, "c"@);
    Seq::new(items.len(), |i: int| completion_value(items[i]))
}

/// What is wrong with a status at `path`.
pub open spec fn status_failure(value: JsonValue, path: Seq<char>) -> Option<MalformedModel> {
    first_of(
        kind_failure(value, Kind::Object, path),
        first_of(text_failure(value, "@code"@, path), text_failure(value, "text"@, path)),
    )
}

/// The status that `value` stands for.
pub open spec fn status_value(value: JsonValue) -> StatusModel {
    StatusModel { code: text_at(value, "@code"@), text: text_at(value, "text"@) }
}

/// What is wrong with a time at `path`.
pub open spec fn time_failure(value: JsonValue, path: Seq<char>) -> Option<MalformedModel> {
    first_of(
        kind_failure(value, Kind::Object, path),
        first_of(text_failure(value, "@unit"@, path), text_failure(value, "text"@, path)),
    )
}

/// The time that `value` stands for.
pub open spec fn time_value(value: JsonValue) -> TimeModel {
    TimeModel { unit: text_at(value, "@unit"@), text: text_at(value, "text"@) }
}

/// What is wrong with a search result at `path`.
pub open spec fn result_failure(value: JsonValue, path: Seq<char>) -> Option<MalformedModel> {
    first_of(
        kind_failure(value, Kind::Object, path),
        first_of(
            missing_failure(value, "completions"@, path),
            first_of(
                completions_failure(
                    member_at(value, "completions"@),
                    member_path(path, "completions"@),
                ),
                first_of(
                    missing_failure(value, "hits"@, path),
                    first_of(
                        hits_failure(member_at(value, "hits"@), member_path(path, "hits"@)),
                        first_of(
                            text_failure(value, "query"@, path),
                            result_tail_failure(value, path),
                        ),
                    ),
                ),
            ),
        ),
    )
}

/// What is wrong with the status and the time of a search result at `path`.
pub open spec fn result_tail_failure(value: JsonValue, path: Seq<char>) -> Option<
    MalformedModel,
> {
    first_of(
        missing_failure(value, "status"@, path),
        first_of(
            status_failure(member_at(value, "status"@), member_path(path, "status"@)),
            first_of(
                missing_failure(value, "time"@, path),
                time_failure(member_at(value, "time"@), member_path(path, "time"@)),
            ),
        ),
    )
}

/// The search result that `value` stands for.
pub open spec fn result_value(value: JsonValue) -> SearchResultModel {
    SearchResultModel {
        completions: completions_value(member_at(value, "completions"@)),
        hits: hits_value(member_at(value, "hits"@)),
        query: text_at(value, "query"@),
        status: status_value(member_at(value, "status"@)),
        time: time_value(member_at(value, "time"@)),
    }
}

/// What is wrong with a response document at `path`.
pub open spec fn response_failure(value: JsonValue, path: Seq<char>) -> Option<MalformedModel> {
    first_of(
        kind_failure(value, Kind::Object, path),
        first_of(
            missing_failure(value, "result"@, path),
            result_failure(member_at(value, "result"@), member_path(path, "result"@)),
        ),
    )
}

/// The response that `value` stands for.
pub open spec fn response_value(value: JsonValue) -> SearchResponseModel {
    SearchResponseModel { result: result_value(member_at(value, "result"@)) }
}

/// What decoding makes of a document: the response that it stands for, or the
/// first place at which it is malformed.
pub open spec fn decoded(document: JsonValue) -> Result<SearchResponseModel, SearchErrorModel> {
    match response_failure(document, ROOT@) {
        Some(malformed) => Err(SearchErrorModel::MalformedResponse(malformed)),
        None => Ok(response_value(document)),
    }
}

fn expect_kind(value: &Json, expected: Kind, path: &str) -> (checked: Result<(), Malformed>)
    ensures
        match checked {
            Ok(_) => kind_failure(value@, expected, path@) is None,
            Err(e) => kind_failure(value@, expected, path@) == Some(e@),
        },
{
    let found = value.kind();
    if found == expected {
        Ok(())
    } else {
        Err(Malformed { path: path.to_owned(), cause: Cause::Mismatch { expected, found } })
    }
}

fn required_member<'a>(value: &'a Json, name: &str, path: &str) -> (found: Result<
    &'a Json,
    Malformed,
>)
    ensures
        match found {
            Ok(member) => missing_failure(value@, name@, path@) is None && member@ == member_at(
                value@,
                name@,
            ) && value@.member(name@) == Some(member@),
            Err(e) => missing_failure(value@, name@, path@) == Some(e@),
        },
{
    match value.member(name) {
        Some(member) => Ok(member),
        None => Err(Malformed { path: member_path_text(path, name), cause: Cause::Missing }),
    }
}

fn required_text(value: &Json, name: &str, path: &str) -> (found: Result<String, Malformed>)
    ensures
        match found {
            Ok(text) => required_failure(value@, name@, Kind::Text, path@) is None && text@
                == text_at(value@, name@),
            Err(e) => required_failure(value@, name@, Kind::Text, path@) == Some(e@),
        },
{
    let member = required_member(value, name, path)?;
    match member.as_text() {
        Some(text) => Ok(text.clone()),
        None => {
            let place = member_path_text(path, name);
            Err(
                Malformed {
                    path: place,
                    cause: Cause::Mismatch { expected: Kind::Text, found: member.kind() },
                },
            )
        },
    }
}

fn optional_text(value: &Json, name: &str, path: &str) -> (found: Result<
    Option<String>,
    Malformed,
>)
    ensures
        match found {
            Ok(Some(text)) => optional_failure(value@, name@, Kind::Text, path@) is None
                && optional_text_at(value@, name@) == Some(text@),
            Ok(None) => optional_failure(value@, name@, Kind::Text, path@) is None
                && optional_text_at(value@, name@) is None && value@.member(name@) is None,
            Err(e) => optional_failure(value@, name@, Kind::Text, path@) == Some(e@),
        },
{
    match value.member(name) {
        None => Ok(None),
        Some(member) => match member.as_text() {
            Some(text) => Ok(Some(text.clone())),
            None => {
                let place = member_path_text(path, name);
                Err(
                    Malformed {
                        path: place,
                        cause: Cause::Mismatch { expected: Kind::Text, found: member.kind() },
                    },
                )
            },
        },
    }
}

fn required_items<'a>(value: &'a Json, name: &str, path: &str) -> (found: Result<
    &'a Vec<Json>,
    Malformed,
>)
    ensures
        match found {
            Ok(items) => required_failure(value@, name@, Kind::Array, path@) is None && items_at(
                value@,
                name@,
            ).len() == items@.len() && forall|i: int|
                0 <= i < items@.len() ==> items_at(value@, name@)[i] == #[trigger] items@[i]@,
            Err(e) => required_failure(value@, name@, Kind::Array, path@) == Some(e@),
        },
{
    let member = required_member(value, name, path)?;
    match member.as_array() {
        Some(items) => Ok(items),
        None => {
            let place = member_path_text(path, name);
            Err(
                Malformed {
                    path: place,
                    cause: Cause::Mismatch { expected: Kind::Array, found: member.kind() },
                },
            )
        },
    }
}

/// The values of `items`, in their order.
pub open spec fn values_of(items: Seq<Json>) -> Seq<JsonValue> {
    Seq::new(items.len(), |i: int| items[i]@)
}

/// Decodes the items of the array at `place` one by one with `decode_one`, and
/// stops at the first that is malformed. `check` and `value_of` say what
/// `decode_one` finds wrong with an item and what it makes of it.
fn decode_items<T: View>(
    items: &Vec<Json>,
    place: &str,
    decode_one: impl Fn(&Json, &str) -> Result<T, Malformed>,
    Ghost(check): Ghost<spec_fn(JsonValue, Seq<char>) -> Option<MalformedModel>>,
    Ghost(value_of): Ghost<spec_fn(JsonValue) -> T::V>,
) -> (decoded: Result<Vec<T>, Malformed>)
    requires
        forall|item: &Json, path: &str| call_requires(decode_one, (item, path)),
        forall|item: &Json, path: &str, found: Result<T, Malformed>|
            call_ensures(decode_one, (item, path), found) ==> match found {
                Ok(one) => check(item@, path@) is None && one@ == value_of(item@),
                Err(e) => check(item@, path@) == Some(e@),
            },
    ensures
        match decoded {
            Ok(all) => items_failure(values_of(items@), place@, check) is None && all@.len()
                == items@.len() && forall|k: int|
                0 <= k < all@.len() ==> (#[trigger] all@[k])@ == value_of(items@[k]@),
            Err(e) => items_failure(values_of(items@), place@, check) == Some(e@),
        },
{
    let ghost values = values_of(items@);
    let mut all: Vec<T> = Vec::new();
    let mut i: usize = 0;
    while i < items.len()
        invariant
            i <= items.len(),
            all@.len() == i,
            values == values_of(items@),
            forall|item: &Json, path: &str| call_requires(decode_one, (item, path)),
            forall|item: &Json, path: &str, found: Result<T, Malformed>|
                call_ensures(decode_one, (item, path), found) ==> match found {
                    Ok(one) => check(item@, path@) is None && one@ == value_of(item@),
                    Err(e) => check(item@, path@) == Some(e@),
                },
            items_failure(values.take(i as int), place@, check) is None,
            forall|k: int| 0 <= k < i ==> (#[trigger] all@[k])@ == value_of(items@[k]@),
        decreases items.len() - i,
    {
        let item_place = item_path_text(place, i);
        let ghost next = values.take(i + 1);
        proof {
            assert(next.drop_last() =~= values.take(i as int));
            assert(next.last() == items@[i as int]@);
        }
        match decode_one(&items[i], item_place.as_str()) {
            Ok(one) => {
                all.push(one);
            },
            Err(e) => {
                proof {
                    lemma_items_failure_found(values, place@, check, i + 1);
                }
                return Err(e);
            },
        }
        i += 1;
    }
    proof {
        assert(values.take(items@.len() as int) =~= values);
    }
    Ok(all)
}

/// Decodes one author from the value at `path`.
pub fn decode_author(value: &Json, path: &str) -> (decoded: Result<Author, Malformed>)
    ensures
        match decoded {
            Ok(author) => author_failure(value@, path@) is None && author@ == author_value(
                value@,
            ),
            Err(e) => author_failure(value@, path@) == Some(e@),
        },
{
    expect_kind(value, Kind::Object, path)?;
    let text = required_text(value, "text", path)?;
    let pid = optional_text(value, "@pid", path)?;
    Ok(Author { text, pid })
}

/// Decodes the authors from the value at `path`.
pub fn decode_authors(value: &Json, path: &str) -> (decoded: Result<Authors, Malformed>)
    ensures
        match decoded {
            Ok(authors) => authors_failure(value@, path@) is None && authors@ == authors_value(
                value@,
            ),
            Err(e) => authors_failure(value@, path@) == Some(e@),
        },
{
    expect_kind(value, Kind::Object, path)?;
    let items = required_items(value, "author", path)?;
    let place = member_path_text(path, "author");
    assert(items_at(value@, "author"@) =~= values_of(items@));
    let author = decode_items(
        items,
        place.as_str(),
        decode_author,
        Ghost(author_check()),
        Ghost(|item: JsonValue| author_value(item)),
    )?;
    let authors = Authors { author };
    assert(authors@ =~= authors_value(value@));
    Ok(authors)
}

fn text_or_empty(value: &Json, name: &str, path: &str) -> (found: Result<String, Malformed>)
    ensures
        match found {
            Ok(text) => optional_text_failure(value@, name@, path@) is None && text@ == text_at(
                value@,
                name@,
            ),
            Err(e) => optional_text_failure(value@, name@, path@) == Some(e@),
        },
{
    match optional_text(value, name, path)? {
        Some(text) => Ok(text),
        None => Ok(String::new()),
    }
}

/// Decodes a record from the value at `path`.
pub fn decode_info(value: &Json, path: &str) -> (decoded: Result<Info, Malformed>)
    ensures
        match decoded {
            Ok(info) => info_failure(value@, path@) is None && info@ == info_value(value@),
            Err(e) => info_failure(value@, path@) == Some(e@),
        },
{
    expect_kind(value, Kind::Object, path)?;
    let title = required_text(value, "title", path)?;
    let authors_member = required_member(value, "authors", path)?;
    let authors_place = member_path_text(path, "authors");
    let authors = decode_authors(authors_member, authors_place.as_str())?;
    let venue = required_text(value, "venue", path)?;
    let year = required_text(value, "year", path)?;
    let ee = required_text(value, "ee", path)?;
    let key = required_text(value, "key", path)?;
    let url = required_text(value, "url", path)?;
    let record_type = required_text(value, "type", path)?;
    let access = text_or_empty(value, "access", path)?;
    let doi = text_or_empty(value, "doi", path)?;
    let number = text_or_empty(value, "number", path)?;
    let pages = text_or_empty(value, "pages", path)?;
    let volume = text_or_empty(value, "volume", path)?;
    Ok(
        Info {
            title,
            authors,
            venue,
            year,
            ee,
            key,
            url,
            record_type,
            access,
            doi,
            number,
            pages,
            volume,
        },
    )
}

/// Decodes a hit from the value at `path`.
pub fn decode_hit(value: &Json, path: &str) -> (decoded: Result<Hit, Malformed>)
    ensures
        match decoded {
            Ok(hit) => hit_failure(value@, path@) is None && hit@ == hit_value(value@),
            Err(e) => hit_failure(value@, path@) == Some(e@),
        },
{
    expect_kind(value, Kind::Object, path)?;
    let id = required_text(value, "@id", path)?;
    let score = required_text(value, "@score", path)?;
    let info_member = required_member(value, "info", path)?;
    let info_place = member_path_text(path, "info");
    let info = decode_info(info_member, info_place.as_str())?;
    let url = required_text(value, "url", path)?;
    Ok(Hit { id, score, info, url })
}

/// Decodes the hits from the value at `path`.
pub fn decode_hits(value: &Json, path: &str) -> (decoded: Result<Hits, Malformed>)
    ensures
        match decoded {
            Ok(hits) => hits_failure(value@, path@) is None && hits@ == hits_value(value@),
            Err(e) => hits_failure(value@, path@) == Some(e@),
        },
{
    expect_kind(value, Kind::Object, path)?;
    let items = required_items(value, "hit", path)?;
    let place = member_path_text(path, "hit");
    assert(items_at(value@, "hit"@) =~= values_of(items@));
    let hit = decode_items(
        items,
        place.as_str(),
        decode_hit,
        Ghost(hit_check()),
        Ghost(|item: JsonValue| hit_value(item)),
    )?;
    let hits = Hits { hit };
    assert(hits@ =~= hits_value(value@));
    Ok(hits)
}

/// Decodes a completion from the value at `path`.
pub fn decode_completion(value: &Json, path: &str) -> (decoded: Result<Completion, Malformed>)
    ensures
        match decoded {
            Ok(completion) => completion_failure(value@, path@) is None && completion@
                == completion_value(value@),
            Err(e) => completion_failure(value@, path@) == Some(e@),
        },
{
    expect_kind(value, Kind::Object, path)?;
    let text = required_text(value, "text", path)?;
    Ok(Completion { text })
}

/// Decodes the completions from the value at `path`.
pub fn decode_completions(value: &Json, path: &str) -> (decoded: Result<Completions, Malformed>)
    ensures
        match decoded {
            Ok(completions) => completions_failure(value@, path@) is None && completions@
                == completions_value(value@),
            Err(e) => completions_failure(value@, path@) == Some(e@),
        },
{
    expect_kind(value, Kind::Object, path)?;
    let items = required_items(value, "c", path)?;
    let place = member_path_text(path, "c");
    assert(items_at(value@, "c"@) =~= values_of(items@));
    let c = decode_items(
        items,
        place.as_str(),
        decode_completion,
        Ghost(completion_check()),
        Ghost(|item: JsonValue| completion_value(item)),
    )?;
    let completions = Completions { c };
    assert(completions@ =~= completions_value(value@));
    Ok(completions)
}

/// Decodes a status from the value at `path`.
pub fn decode_status(value: &Json, path: &str) -> (decoded: Result<Status, Malformed>)
    ensures
        match decoded {
            Ok(status) => status_failure(value@, path@) is None && status@ == status_value(
                value@,
            ),
            Err(e) => status_failure(value@, path@) == Some(e@),
        },
{
    expect_kind(value, Kind::Object, path)?;
    let code = required_text(value, "@code", path)?;
    let text = required_text(value, "text", path)?;
    Ok(Status { code, text })
}

/// Decodes a time from the value at `path`.
pub fn decode_time(value: &Json, path: &str) -> (decoded: Result<Time, Malformed>)
    ensures
        match decoded {
            Ok(time) => time_failure(value@, path@) is None && time@ == time_value(value@),
            Err(e) => time_failure(value@, path@) == Some(e@),
        },
{
    expect_kind(value, Kind::Object, path)?;
    let unit = required_text(value, "@unit", path)?;
    let text = required_text(value, "text", path)?;
    Ok(Time { unit, text })
}

/// Decodes a search result from the value at `path`.
pub fn decode_result(value: &Json, path: &str) -> (decoded: Result<SearchResult, Malformed>)
    ensures
        match decoded {
            Ok(result) => result_failure(value@, path@) is None && result@ == result_value(
                value@,
            ),
            Err(e) => result_failure(value@, path@) == Some(e@),
        },
{
    expect_kind(value, Kind::Object, path)?;
    let completions_member = required_member(value, "completions", path)?;
    let completions_place = member_path_text(path, "completions");
    let completions = decode_completions(completions_member, completions_place.as_str())?;
    let hits_member = required_member(value, "hits", path)?;
    let hits_place = member_path_text(path, "hits");
    let hits = decode_hits(hits_member, hits_place.as_str())?;
    let query = required_text(value, "query", path)?;
    let status_member = required_member(value, "status", path)?;
    let status_place = member_path_text(path, "status");
    let status = decode_status(status_member, status_place.as_str())?;
    let time_member = required_member(value, "time", path)?;
    let time_place = member_path_text(path, "time");
    let time = decode_time(time_member, time_place.as_str())?;
    Ok(SearchResult { completions, hits, query, status, time })
}

/// Decodes a response from a document.
///
/// The outcome depends on the document's value alone: the response that it stands
/// for where nothing is wrong with it, and else the first place that is.
pub fn decode(document: &Json) -> (outcome: Result<SearchResponse, SearchError>)
    ensures
        match outcome {
            Ok(response) => decoded(document@) == Ok::<SearchResponseModel, SearchErrorModel>(
                response@,
            ),
            Err(e) => decoded(document@) == Err::<SearchResponseModel, SearchErrorModel>(e@)
                && e@ is MalformedResponse,
        },
{
    match decode_at(document, ROOT) {
        Ok(response) => Ok(response),
        Err(malformed) => Err(SearchError::MalformedResponse(malformed)),
    }
}

fn decode_at(value: &Json, path: &str) -> (found: Result<SearchResponse, Malformed>)
    ensures
        match found {
            Ok(response) => response_failure(value@, path@) is None && response@
                == response_value(value@),
            Err(e) => response_failure(value@, path@) == Some(e@),
        },
{
    expect_kind(value, Kind::Object, path)?;
    let result_member = required_member(value, "result", path)?;
    let result_place = member_path_text(path, "result");
    let result = decode_result(result_member, result_place.as_str())?;
    Ok(SearchResponse { result })
}

} // verus!
