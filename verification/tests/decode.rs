use dblp_crawler::decode::{decode, decode_author, decode_info};
use dblp_crawler::error::{Cause, Malformed, SearchError};
use dblp_crawler::json::{Json, Kind};
use dblp_crawler::report::report;

fn text(value: &str) -> Json {
    Json::Text(value.to_string())
}

fn object(members: Vec<(&str, Json)>) -> Json {
    Json::Object(members.into_iter().map(|(name, value)| (name.to_string(), value)).collect())
}

fn without(value: Json, name: &str) -> Json {
    match value {
        Json::Object(members) => {
            Json::Object(members.into_iter().filter(|(key, _)| key != name).collect())
        }
        other => other,
    }
}

fn with(value: Json, name: &str, member: Json) -> Json {
    match without(value, name) {
        Json::Object(mut members) => {
            members.push((name.to_string(), member));
            Json::Object(members)
        }
        other => other,
    }
}

fn author_value(name: &str) -> Json {
    object(vec![("text", text(name))])
}

fn info_value() -> Json {
    object(vec![
        ("title", text("T")),
        ("authors", object(vec![("author", Json::Array(vec![author_value("A")]))])),
        ("venue", text("V")),
        ("year", text("2020")),
        ("ee", text("E")),
        ("key", text("K")),
        ("url", text("U")),
        ("type", text("Article")),
    ])
}

fn hit_value(info: Json) -> Json {
    object(vec![("@id", text("1")), ("@score", text("1.0")), ("info", info), ("url", text("U"))])
}

fn document(completions: Vec<Json>, hits: Vec<Json>) -> Json {
    object(vec![(
        "result",
        object(vec![
            ("completions", object(vec![("c", Json::Array(completions))])),
            ("hits", object(vec![("hit", Json::Array(hits))])),
            ("query", text("q")),
            ("status", object(vec![("@code", text("200")), ("text", text("OK"))])),
            ("time", object(vec![("@unit", text("msecs")), ("text", text("1.5"))])),
        ]),
    )])
}

fn malformed(path: &str, cause: Cause) -> SearchError {
    SearchError::MalformedResponse(Malformed { path: path.to_string(), cause })
}

#[test]
fn minimal_document_decodes() {
    let response = decode(&document(vec![], vec![hit_value(info_value())])).unwrap();
    let result = &response.result;
    assert_eq!(result.query, "q");
    assert_eq!(result.status.code, "200");
    assert_eq!(result.status.text, "OK");
    assert_eq!(result.time.unit, "msecs");
    assert_eq!(result.time.text, "1.5");
    assert!(result.completions.c.is_empty());
    assert_eq!(result.hits.hit.len(), 1);
    let hit = &result.hits.hit[0];
    assert_eq!(hit.id, "1");
    assert_eq!(hit.score, "1.0");
    assert_eq!(hit.url, "U");
    assert_eq!(hit.info.title, "T");
    assert_eq!(hit.info.venue, "V");
    assert_eq!(hit.info.year, "2020");
    assert_eq!(hit.info.ee, "E");
    assert_eq!(hit.info.key, "K");
    assert_eq!(hit.info.url, "U");
    assert_eq!(hit.info.record_type, "Article");
    assert_eq!(hit.info.authors.author.len(), 1);
    assert_eq!(hit.info.authors.author[0].text, "A");
    assert_eq!(hit.info.authors.author[0].pid, None);
}

#[test]
fn minimal_document_renders_as_the_expected_block() {
    let text = report(&document(vec![], vec![hit_value(info_value())])).unwrap();
    assert_eq!(text, "Hits:\nT\nA\nV    2020\nE\n1\n1.0\n-----------------------------\n");
}

#[test]
fn absent_optional_members_decode_to_empty_text() {
    let info = decode_info(&info_value(), "$").unwrap();
    assert_eq!(info.access, "");
    assert_eq!(info.doi, "");
    assert_eq!(info.number, "");
    assert_eq!(info.pages, "");
    assert_eq!(info.volume, "");
}

#[test]
fn absent_optional_members_never_render_as_null() {
    let text = report(&document(vec![], vec![hit_value(info_value())])).unwrap();
    assert!(!text.contains("null"));
    assert!(text.contains("\nV    2020\n"));
}

#[test]
fn present_optional_members_are_kept() {
    let mut value = info_value();
    for (name, member) in
        [("access", "open"), ("doi", "10.1/x"), ("number", "3"), ("pages", "1-9"), ("volume", "7")]
    {
        value = with(value, name, text(member));
    }
    let info = decode_info(&value, "$").unwrap();
    assert_eq!(info.access, "open");
    assert_eq!(info.doi, "10.1/x");
    assert_eq!(info.number, "3");
    assert_eq!(info.pages, "1-9");
    assert_eq!(info.volume, "7");
    assert_eq!(info.venue_line(), "V 1-9 3 7 2020");
}

#[test]
fn optional_member_of_the_wrong_kind_is_malformed() {
    let value = with(info_value(), "pages", Json::Null);
    assert_eq!(
        decode_info(&value, "$"),
        Err(Malformed {
            path: "$.pages".to_string(),
            cause: Cause::Mismatch { expected: Kind::Text, found: Kind::Null },
        })
    );
}

#[test]
fn missing_title_is_a_malformed_response() {
    let hit = hit_value(without(info_value(), "title"));
    assert_eq!(
        decode(&document(vec![], vec![hit])),
        Err(malformed("$.result.hits.hit[0].info.title", Cause::Missing))
    );
}

#[test]
fn missing_title_renders_nothing() {
    let hit = hit_value(without(info_value(), "title"));
    assert_eq!(
        report(&document(vec![], vec![hit_value(info_value()), hit])),
        Err(malformed("$.result.hits.hit[1].info.title", Cause::Missing))
    );
}

#[test]
fn each_required_member_of_a_record_is_required() {
    for name in ["title", "authors", "venue", "year", "ee", "key", "url", "type"] {
        let value = without(info_value(), name);
        assert_eq!(
            decode_info(&value, "$"),
            Err(Malformed { path: format!("$.{}", name), cause: Cause::Missing })
        );
    }
}

#[test]
fn each_required_member_of_a_hit_is_required() {
    for name in ["@id", "@score", "info", "url"] {
        let hit = without(hit_value(info_value()), name);
        assert_eq!(
            decode(&document(vec![], vec![hit])),
            Err(malformed(&format!("$.result.hits.hit[0].{}", name), Cause::Missing))
        );
    }
}

#[test]
fn each_required_member_of_a_result_is_required() {
    for name in ["completions", "hits", "query", "status", "time"] {
        let whole = document(vec![], vec![]);
        let result = match &whole {
            Json::Object(members) => match &members[0].1 {
                Json::Object(inner) => Json::Object(
                    inner
                        .iter()
                        .filter(|(key, _)| key != name)
                        .map(|(key, value)| (key.clone(), copy(value)))
                        .collect(),
                ),
                _ => unreachable!(),
            },
            _ => unreachable!(),
        };
        assert_eq!(
            decode(&object(vec![("result", result)])),
            Err(malformed(&format!("$.result.{}", name), Cause::Missing))
        );
    }
}

fn copy(value: &Json) -> Json {
    match value {
        Json::Null => Json::Null,
        Json::Bool(b) => Json::Bool(*b),
        Json::Number(n) => Json::Number(n.clone()),
        Json::Text(t) => Json::Text(t.clone()),
        Json::Array(items) => Json::Array(items.iter().map(copy).collect()),
        Json::Object(members) => {
            Json::Object(members.iter().map(|(k, v)| (k.clone(), copy(v))).collect())
        }
    }
}

#[test]
fn document_without_result_is_malformed() {
    assert_eq!(decode(&object(vec![])), Err(malformed("$.result", Cause::Missing)));
}

#[test]
fn document_that_is_no_object_is_malformed() {
    assert_eq!(
        decode(&text("<html>")),
        Err(malformed("$", Cause::Mismatch { expected: Kind::Object, found: Kind::Text }))
    );
    assert_eq!(
        decode(&Json::Null),
        Err(malformed("$", Cause::Mismatch { expected: Kind::Object, found: Kind::Null }))
    );
    assert_eq!(
        decode(&Json::Array(vec![])),
        Err(malformed("$", Cause::Mismatch { expected: Kind::Object, found: Kind::Array }))
    );
    assert_eq!(
        decode(&Json::Bool(true)),
        Err(malformed("$", Cause::Mismatch { expected: Kind::Object, found: Kind::Bool }))
    );
}

#[test]
fn object_in_place_of_text_is_a_mismatch() {
    let hit = hit_value(with(info_value(), "title", object(vec![])));
    assert_eq!(
        decode(&document(vec![], vec![hit])),
        Err(malformed(
            "$.result.hits.hit[0].info.title",
            Cause::Mismatch { expected: Kind::Text, found: Kind::Object }
        ))
    );
}

#[test]
fn number_in_place_of_text_is_a_mismatch() {
    let hit = with(hit_value(info_value()), "@score", Json::Number("1.0".to_string()));
    assert_eq!(
        decode(&document(vec![], vec![hit])),
        Err(malformed(
            "$.result.hits.hit[0].@score",
            Cause::Mismatch { expected: Kind::Text, found: Kind::Number }
        ))
    );
}

#[test]
fn hits_that_are_no_array_are_a_mismatch() {
    let whole = object(vec![(
        "result",
        object(vec![
            ("completions", object(vec![("c", Json::Array(vec![]))])),
            ("hits", object(vec![("hit", hit_value(info_value()))])),
            ("query", text("q")),
            ("status", object(vec![("@code", text("200")), ("text", text("OK"))])),
            ("time", object(vec![("@unit", text("msecs")), ("text", text("1.5"))])),
        ]),
    )]);
    assert_eq!(
        decode(&whole),
        Err(malformed(
            "$.result.hits.hit",
            Cause::Mismatch { expected: Kind::Array, found: Kind::Object }
        ))
    );
}

#[test]
fn item_that_is_no_object_is_a_mismatch() {
    assert_eq!(
        decode(&document(vec![text("graph")], vec![])),
        Err(malformed(
            "$.result.completions.c[0]",
            Cause::Mismatch { expected: Kind::Object, found: Kind::Text }
        ))
    );
}

#[test]
fn first_malformed_place_is_reported() {
    let bad_info = without(without(info_value(), "year"), "venue");
    let hit = without(hit_value(bad_info), "url");
    assert_eq!(
        decode(&document(vec![], vec![hit])),
        Err(malformed("$.result.hits.hit[0].info.venue", Cause::Missing))
    );
}

#[test]
fn first_malformed_item_is_reported() {
    let good = || hit_value(info_value());
    let bad = || without(hit_value(info_value()), "@id");
    assert_eq!(
        decode(&document(vec![], vec![good(), bad(), bad()])),
        Err(malformed("$.result.hits.hit[1].@id", Cause::Missing))
    );
}

#[test]
fn index_in_a_path_is_written_in_decimal() {
    let mut hits: Vec<Json> = (0..12).map(|_| hit_value(info_value())).collect();
    hits.push(without(hit_value(info_value()), "url"));
    assert_eq!(
        decode(&document(vec![], hits)),
        Err(malformed("$.result.hits.hit[12].url", Cause::Missing))
    );
}

#[test]
fn malformed_author_is_reported_with_its_index() {
    let authors =
        object(vec![("author", Json::Array(vec![author_value("A"), object(vec![])]))]);
    let hit = hit_value(with(info_value(), "authors", authors));
    assert_eq!(
        decode(&document(vec![], vec![hit])),
        Err(malformed("$.result.hits.hit[0].info.authors.author[1].text", Cause::Missing))
    );
}

#[test]
fn empty_collections_are_no_error() {
    let response = decode(&document(vec![], vec![])).unwrap();
    assert!(response.result.completions.c.is_empty());
    assert!(response.result.hits.hit.is_empty());
    let no_authors = object(vec![("author", Json::Array(vec![]))]);
    let info = decode_info(&with(info_value(), "authors", no_authors), "$").unwrap();
    assert!(info.authors.author.is_empty());
}

#[test]
fn empty_hits_in_a_document_render_as_no_results() {
    let completion = object(vec![("text", text("graph"))]);
    assert_eq!(
        report(&document(vec![completion], vec![])),
        Ok("Completions:\n- graph\nNo results found.\n".to_string())
    );
    assert_eq!(report(&document(vec![], vec![])), Ok("No results found.\n".to_string()));
}

#[test]
fn completions_and_hits_keep_their_order() {
    let completions = vec![
        object(vec![("text", text("b"))]),
        object(vec![("text", text("a"))]),
        object(vec![("text", text("c"))]),
    ];
    let hits = vec![
        with(hit_value(info_value()), "@id", text("9")),
        with(hit_value(info_value()), "@id", text("3")),
    ];
    let response = decode(&document(completions, hits)).unwrap();
    let texts: Vec<&str> = response.result.completions.c.iter().map(|c| c.text.as_str()).collect();
    assert_eq!(texts, vec!["b", "a", "c"]);
    let ids: Vec<&str> = response.result.hits.hit.iter().map(|h| h.id.as_str()).collect();
    assert_eq!(ids, vec!["9", "3"]);
}

#[test]
fn authors_keep_their_order_through_decoding() {
    let authors = object(vec![(
        "author",
        Json::Array(vec![author_value("Zoe"), author_value("Al"), author_value("Mia")]),
    )]);
    let hit = hit_value(with(info_value(), "authors", authors));
    let text = report(&document(vec![], vec![hit])).unwrap();
    assert!(text.contains("\nZoe, Al, Mia\n"));
}

#[test]
fn person_identifier_is_optional() {
    let with_pid = object(vec![("@pid", text("12/345")), ("text", text("Ada"))]);
    let author = decode_author(&with_pid, "$").unwrap();
    assert_eq!(author.pid, Some("12/345".to_string()));
    assert_eq!(author.text, "Ada");
    let author = decode_author(&author_value("Ada"), "$").unwrap();
    assert_eq!(author.pid, None);
    let bad = object(vec![("@pid", Json::Number("12".to_string())), ("text", text("Ada"))]);
    assert_eq!(
        decode_author(&bad, "$.a"),
        Err(Malformed {
            path: "$.a.@pid".to_string(),
            cause: Cause::Mismatch { expected: Kind::Text, found: Kind::Number },
        })
    );
}

#[test]
fn members_are_read_by_their_prefixed_names() {
    let hit = object(vec![
        ("id", text("1")),
        ("score", text("1.0")),
        ("info", info_value()),
        ("url", text("U")),
    ]);
    assert_eq!(
        decode(&document(vec![], vec![hit])),
        Err(malformed("$.result.hits.hit[0].@id", Cause::Missing))
    );
}

#[test]
fn unknown_members_are_passed_over() {
    let info = with(info_value(), "extra", Json::Array(vec![Json::Null]));
    let hit = with(hit_value(info), "@extra", Json::Bool(false));
    let response = decode(&document(vec![], vec![hit])).unwrap();
    assert_eq!(response.result.hits.hit[0].info.title, "T");
}

#[test]
fn text_is_taken_as_it_stands() {
    let info = with(with(info_value(), "year", text("not a year")), "title", text(""));
    let hit = with(with(hit_value(info), "@score", text("01.50")), "@id", text("0007"));
    let response = decode(&document(vec![], vec![hit])).unwrap();
    let hit = &response.result.hits.hit[0];
    assert_eq!(hit.info.year, "not a year");
    assert_eq!(hit.info.title, "");
    assert_eq!(hit.score, "01.50");
    assert_eq!(hit.id, "0007");
}

#[test]
fn decoding_twice_gives_the_same_outcome() {
    let whole = document(vec![object(vec![("text", text("g"))])], vec![hit_value(info_value())]);
    assert_eq!(decode(&whole), decode(&whole));
    assert_eq!(report(&whole), report(&copy(&whole)));
    let broken = document(vec![], vec![object(vec![])]);
    assert_eq!(report(&broken), report(&copy(&broken)));
}

#[test]
fn first_member_of_a_name_is_the_one_found() {
    let twice = object(vec![("text", text("first")), ("text", text("second"))]);
    assert_eq!(twice.member("text").and_then(|m| m.as_text()), Some(&"first".to_string()));
    assert!(twice.member("other").is_none());
    assert!(text("x").member("text").is_none());
    assert_eq!(decode_author(&twice, "$").unwrap().text, "first");
}

#[test]
fn kinds_of_values() {
    assert_eq!(Json::Null.kind(), Kind::Null);
    assert_eq!(Json::Bool(true).kind(), Kind::Bool);
    assert_eq!(Json::Number("1".to_string()).kind(), Kind::Number);
    assert_eq!(text("x").kind(), Kind::Text);
    assert_eq!(Json::Array(vec![]).kind(), Kind::Array);
    assert_eq!(object(vec![]).kind(), Kind::Object);
    assert!(object(vec![]).is_object());
    assert!(!text("x").is_object());
    assert_eq!(Json::Array(vec![Json::Null]).as_array().map(|items| items.len()), Some(1));
    assert!(text("x").as_array().is_none());
    assert!(Json::Null.as_text().is_none());
}

#[test]
fn errors_describe_themselves() {
    assert_eq!(Kind::Text.name(), "string");
    assert_eq!(Kind::Bool.name(), "boolean");
    assert_eq!(Cause::Missing.message(), "missing field");
    assert_eq!(
        Cause::Mismatch { expected: Kind::Array, found: Kind::Object }.message(),
        "expected array, found object"
    );
    assert_eq!(
        malformed("$.result.hits", Cause::Missing).message(),
        "malformed response: $.result.hits: missing field"
    );
    assert_eq!(
        malformed("$", Cause::Mismatch { expected: Kind::Object, found: Kind::Null }).message(),
        "malformed response: $: expected object, found null"
    );
    assert_eq!(
        SearchError::Transport("connection refused".to_string()).message(),
        "transport error: connection refused"
    );
}

#[test]
fn order_of_members_does_not_matter() {
    let reversed = |value: Json| match value {
        Json::Object(mut members) => {
            members.reverse();
            Json::Object(members)
        }
        other => other,
    };
    let info = decode_info(&info_value(), "$").unwrap();
    assert_eq!(decode_info(&reversed(info_value()), "$").unwrap(), info);
    let straight = document(vec![], vec![hit_value(info_value())]);
    let turned = reversed(match document(vec![], vec![reversed(hit_value(reversed(info_value())))]) {
        Json::Object(mut outer) => {
            let (name, result) = outer.pop().unwrap();
            Json::Object(vec![(name, reversed(result))])
        }
        other => other,
    });
    assert_eq!(decode(&turned), decode(&straight));
    assert_eq!(report(&turned), report(&straight));
}
