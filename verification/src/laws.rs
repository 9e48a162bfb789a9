//! What holds of decoding and rendering, whatever the document.

use vstd::prelude::*;
use vstd::utf8::{encode_utf8, is_ascii_chars, is_ascii_chars_encode_utf8};
use crate::decode::{
    author_failure, author_value, authors_failure, authors_value, completion_failure,
    completion_value, completions_failure, completions_value, decoded, hit_check, hit_failure,
    hit_value, hits_failure, hits_value, info_failure, info_options_failure, info_value,
    items_at, items_failure, lemma_items_failure_first, member_at, optional_text_failure,
    response_failure, response_value, result_failure, result_value, status_failure,
    status_value, text_at, text_failure, time_failure, time_value,
};
use crate::error::SearchErrorModel;
use crate::json::{Json, JsonValue};
use crate::model::{AuthorModel, SearchResultModel};
use crate::path::{item_path, member_path, ROOT};
use crate::percent::{encoded_byte, encoded_text, is_unreserved, percent_encoded};
use crate::render::{
    authors_line, completion_lines, completions_block, hit_blocks, hits_section, line,
    result_text, venue_line, AUTHOR_SEPARATOR, FIELD_SEPARATOR, NO_RESULTS,
};
use crate::report::report_text;

verus! {

/// Where in the authors' line the name of the author at `index` begins: behind the
/// names of all authors before it, each followed by one separator.
pub open spec fn author_start(authors: Seq<AuthorModel>, index: int) -> int
    decreases index,
{
    if index <= 0 {
        0
    } else {
        author_start(authors, index - 1) + authors[index - 1].text.len() + AUTHOR_SEPARATOR@.len()
    }
}

/// Where the name of an author begins depends on the authors before it alone.
proof fn lemma_author_start_prefix(authors: Seq<AuthorModel>, index: int)
    requires
        0 <= index < authors.len(),
    ensures
        author_start(authors.drop_last(), index) == author_start(authors, index),
    decreases index,
{
    if index > 0 {
        lemma_author_start_prefix(authors, index - 1);
    }
}

/// The authors' line of `n` authors is made of their `n` names in the order given
/// and of `n - 1` separators, one between each two neighbours: the name of the
/// author at `i` stands at [`author_start`] of `i`, a separator stands just before
/// every name but the first, and the line ends with the last name.
pub proof fn lemma_authors_line_layout(authors: Seq<AuthorModel>)
    ensures
        authors.len() == 0 ==> authors_line(authors).len() == 0,
        authors.len() > 0 ==> authors_line(authors).len() == author_start(
            authors,
            authors.len() - 1,
        ) + authors.last().text.len(),
        forall|i: int|
            0 <= i < authors.len() ==> 0 <= #[trigger] author_start(authors, i) && author_start(
                authors,
                i,
            ) + authors[i].text.len() <= authors_line(authors).len() && authors_line(
                authors,
            ).subrange(author_start(authors, i), author_start(authors, i) + authors[i].text.len())
                == authors[i].text,
        forall|i: int|
            0 < i < authors.len() ==> authors_line(authors).subrange(
                #[trigger] author_start(authors, i) - AUTHOR_SEPARATOR@.len(),
                author_start(authors, i),
            ) == AUTHOR_SEPARATOR@,
    decreases authors.len(),
{
    let n = authors.len() as int;
    let whole = authors_line(authors);
    if n == 1 {
        assert(whole.subrange(0, authors[0].text.len() as int) =~= authors[0].text);
    } else if n > 1 {
        let front = authors.drop_last();
        let front_line = authors_line(front);
        let separator = AUTHOR_SEPARATOR@;
        lemma_authors_line_layout(front);
        assert(front.last() == authors[n - 2]);
        lemma_author_start_prefix(authors, n - 2);
        assert(author_start(authors, n - 1) == front_line.len() + separator.len());
        assert(whole == front_line + separator + authors.last().text);
        assert forall|i: int| 0 <= i < n implies 0 <= #[trigger] author_start(authors, i)
            && author_start(authors, i) + authors[i].text.len() <= whole.len() && whole.subrange(
            author_start(authors, i),
            author_start(authors, i) + authors[i].text.len(),
        ) == authors[i].text by {
            if i < n - 1 {
                lemma_author_start_prefix(authors, i);
                assert(front[i] == authors[i]);
                let start = author_start(front, i);
                assert(whole.subrange(start, start + authors[i].text.len())
                    =~= front_line.subrange(start, start + authors[i].text.len()));
            } else {
                let start = author_start(authors, i);
                assert(whole.subrange(start, start + authors[i].text.len())
                    =~= authors[i].text);
            }
        }
        assert forall|i: int| 0 < i < n implies whole.subrange(
            #[trigger] author_start(authors, i) - separator.len(),
            author_start(authors, i),
        ) == separator by {
            if i < n - 1 {
                lemma_author_start_prefix(authors, i);
                let start = author_start(front, i);
                assert(0 <= author_start(front, i - 1));
                assert(whole.subrange(start - separator.len(), start) =~= front_line.subrange(
                    start - separator.len(),
                    start,
                ));
            } else {
                let start = author_start(authors, i);
                assert(whole.subrange(start - separator.len(), start) =~= separator);
            }
        }
    }
}

/// The text for a document depends on the document's value alone: two documents
/// of one value give the same text, or the same error.
pub proof fn lemma_report_is_deterministic(first: Json, second: Json)
    requires
        first@ == second@,
    ensures
        report_text(first@) == report_text(second@),
        decoded(first@) == decoded(second@),
{
}

/// A result without hits is rendered as its completions and the one line that
/// says so; no block of a hit stands in it.
pub proof fn lemma_no_hits(result: SearchResultModel)
    requires
        result.hits.len() == 0,
    ensures
        hit_blocks(result.hits) == Seq::<char>::empty(),
        hits_section(result.hits) == line(NO_RESULTS@),
        result_text(result) == completions_block(result.completions) + line(NO_RESULTS@),
{
}

/// A document whose array of hits is empty, and which is not malformed, gives a
/// text that ends with the one line for no hits.
pub proof fn lemma_no_hits_in_document(document: JsonValue)
    requires
        decoded(document) is Ok,
        items_at(member_at(member_at(document, "result"@), "hits"@), "hit"@).len() == 0,
    ensures
        report_text(document) == Ok::<Seq<char>, SearchErrorModel>(
            completions_block(
                completions_value(member_at(member_at(document, "result"@), "completions"@)),
            ) + line(NO_RESULTS@),
        ),
{
    let result = response_value(document).result;
    assert(result.hits.len() == 0);
    lemma_no_hits(result);
}

/// A result without completions is rendered as its hits alone: neither a
/// completion's line nor the header of the completions stands in the text.
pub proof fn lemma_no_completions(result: SearchResultModel)
    requires
        result.completions.len() == 0,
    ensures
        completion_lines(result.completions) == Seq::<char>::empty(),
        completions_block(result.completions) == Seq::<char>::empty(),
        result_text(result) == hits_section(result.hits),
{
    assert(result_text(result) =~= hits_section(result.hits));
}

/// A member that may be left out, and is, is nothing wrong and decodes to the
/// empty text.
pub proof fn lemma_absent_text_is_empty(value: JsonValue, name: Seq<char>, path: Seq<char>)
    requires
        value.member(name) is None,
    ensures
        optional_text_failure(value, name, path) is None,
        text_at(value, name) == Seq::<char>::empty(),
{
}

/// A record that leaves out all members that it may leave out holds the empty text
/// in their place, and nothing is wrong with it on their account. On its venue
/// line nothing stands between the separators but the venue in front and the
/// year at the end.
pub proof fn lemma_absent_options_render_empty(value: JsonValue, path: Seq<char>)
    requires
        value.member("access"@) is None,
        value.member("doi"@) is None,
        value.member("number"@) is None,
        value.member("pages"@) is None,
        value.member("volume"@) is None,
    ensures
        info_options_failure(value, path) is None,
        info_value(value).access == Seq::<char>::empty(),
        info_value(value).doi == Seq::<char>::empty(),
        info_value(value).number == Seq::<char>::empty(),
        info_value(value).pages == Seq::<char>::empty(),
        info_value(value).volume == Seq::<char>::empty(),
        venue_line(info_value(value)) == text_at(value, "venue"@) + FIELD_SEPARATOR@
            + FIELD_SEPARATOR@ + FIELD_SEPARATOR@ + FIELD_SEPARATOR@ + text_at(value, "year"@),
{
    let info = info_value(value);
    assert(venue_line(info) =~= text_at(value, "venue"@) + FIELD_SEPARATOR@ + FIELD_SEPARATOR@
        + FIELD_SEPARATOR@ + FIELD_SEPARATOR@ + text_at(value, "year"@));
}

/// The members that a record must have.
pub open spec fn info_required() -> Seq<Seq<char>> {
    seq!["title"@, "authors"@, "venue"@, "year"@, "ee"@, "key"@, "url"@, "type"@]
}

/// A record that lacks a member that it must have is malformed.
pub proof fn lemma_info_needs_member(value: JsonValue, path: Seq<char>, name: Seq<char>)
    requires
        info_required().contains(name),
        value.member(name) is None,
    ensures
        info_failure(value, path) is Some,
{
    let i = choose|i: int| 0 <= i < info_required().len() && info_required()[i] == name;
    assert(0 <= i < 8);
}

/// A text member with which nothing is wrong is there, is text, and decodes to
/// that very text: nothing is put in the place of a member that is wanting.
pub proof fn lemma_text_is_the_members(value: JsonValue, name: Seq<char>, path: Seq<char>)
    requires
        text_failure(value, name, path) is None,
    ensures
        value.member(name) == Some(JsonValue::Text(text_at(value, name))),
{
}

/// A hit whose record is malformed is malformed.
pub proof fn lemma_hit_needs_info(value: JsonValue, path: Seq<char>)
    requires
        info_failure(member_at(value, "info"@), member_path(path, "info"@)) is Some,
    ensures
        hit_failure(value, path) is Some,
{
}

/// The hits of a document, as values.
pub open spec fn document_hits(document: JsonValue) -> Seq<JsonValue> {
    items_at(member_at(member_at(document, "result"@), "hits"@), "hit"@)
}

/// The path of the hit at `index` of a document.
pub open spec fn document_hit_path(index: int) -> Seq<char> {
    item_path(
        member_path(member_path(member_path(ROOT@, "result"@), "hits"@), "hit"@),
        index as nat,
    )
}

/// A document with a malformed hit has no response: decoding ends in an error,
/// and that error is a malformed response.
pub proof fn lemma_malformed_hit_fails(document: JsonValue, index: int)
    requires
        0 <= index < document_hits(document).len(),
        hit_failure(document_hits(document)[index], document_hit_path(index)) is Some,
    ensures
        decoded(document) is Err,
        decoded(document)->Err_0 is MalformedResponse,
{
    let result = member_at(document, "result"@);
    let result_place = member_path(ROOT@, "result"@);
    let hits = member_at(result, "hits"@);
    let hits_place = member_path(result_place, "hits"@);
    let items = items_at(hits, "hit"@);
    let place = member_path(hits_place, "hit"@);
    lemma_items_failure_first(items, place, hit_check());
    assert(hit_check()(items[index], item_path(place, index as nat)) is Some);
    assert(items_failure(items, place, hit_check()) is Some);
    assert(hits_failure(hits, hits_place) is Some);
    assert(result_failure(result, result_place) is Some);
    assert(response_failure(document, ROOT@) is Some);
}

/// A document in which the record of some hit lacks a member that it must have,
/// such as its title, has no response: decoding ends in a malformed response.
pub proof fn lemma_missing_record_member_fails(document: JsonValue, index: int, name: Seq<char>)
    requires
        0 <= index < document_hits(document).len(),
        info_required().contains(name),
        member_at(document_hits(document)[index], "info"@).member(name) is None,
    ensures
        decoded(document) is Err,
        decoded(document)->Err_0 is MalformedResponse,
{
    let hit = document_hits(document)[index];
    let place = document_hit_path(index);
    lemma_info_needs_member(member_at(hit, "info"@), member_path(place, "info"@), name);
    lemma_hit_needs_info(hit, place);
    lemma_malformed_hit_fails(document, index);
}

/// Decoding never ends in another error than a malformed response.
pub proof fn lemma_decoding_fails_as_malformed(document: JsonValue)
    ensures
        decoded(document) is Err ==> decoded(document)->Err_0 is MalformedResponse,
        decoded(document) is Err <==> response_failure(document, ROOT@) is Some,
{
}

/// Decoding reads an object by the names of its members alone. Two objects that
/// hold the same value under every name, in whatever order they list their
/// members, are decoded alike at every level of the response.
pub proof fn lemma_member_order_is_immaterial(first: JsonValue, second: JsonValue, path: Seq<char>)
    requires
        first is Object,
        second is Object,
        forall|name: Seq<char>| first.member(name) == second.member(name),
    ensures
        response_failure(first, path) == response_failure(second, path),
        response_value(first) == response_value(second),
        result_failure(first, path) == result_failure(second, path),
        result_value(first) == result_value(second),
        hits_failure(first, path) == hits_failure(second, path),
        hits_value(first) == hits_value(second),
        hit_failure(first, path) == hit_failure(second, path),
        hit_value(first) == hit_value(second),
        info_failure(first, path) == info_failure(second, path),
        info_value(first) == info_value(second),
        authors_failure(first, path) == authors_failure(second, path),
        authors_value(first) == authors_value(second),
        author_failure(first, path) == author_failure(second, path),
        author_value(first) == author_value(second),
        completions_failure(first, path) == completions_failure(second, path),
        completions_value(first) == completions_value(second),
        completion_failure(first, path) == completion_failure(second, path),
        completion_value(first) == completion_value(second),
        status_failure(first, path) == status_failure(second, path),
        status_value(first) == status_value(second),
        time_failure(first, path) == time_failure(second, path),
        time_value(first) == time_value(second),
{
}

/// Whether a character stands for itself in an address: a letter, a digit, or one
/// of `-`, `.`, `_`, `~`.
pub open spec fn is_plain(c: char) -> bool {
    (c as int) < 128 && is_unreserved(c as u8)
}

/// Percent-encoded bytes hold no character but the plain ones and `%`: none that
/// an address gives a meaning of its own, such as `&`, `#`, `=`, `?` or a blank.
pub proof fn lemma_encoded_is_plain(bytes: Seq<u8>)
    ensures
        forall|i: int|
            0 <= i < percent_encoded(bytes).len() ==> {
                let c = #[trigger] percent_encoded(bytes)[i];
                c == '%' || is_plain(c)
            },
    decreases bytes.len(),
{
    if bytes.len() > 0 {
        reveal_strlit("0123456789ABCDEF");
        let front = percent_encoded(bytes.drop_last());
        let last = encoded_byte(bytes.last());
        lemma_encoded_is_plain(bytes.drop_last());
        assert forall|k: int| 0 <= k < last.len() implies last[k] == '%' || is_plain(
            #[trigger] last[k],
        ) by {
            let byte = bytes.last();
            if is_unreserved(byte) {
                assert(byte < 128);
                assert((byte as char) as int == byte as int);
            }
        }
        assert forall|i: int| 0 <= i < percent_encoded(bytes).len() implies {
            let c = #[trigger] percent_encoded(bytes)[i];
            c == '%' || is_plain(c)
        } by {
            if i < front.len() {
                assert(percent_encoded(bytes)[i] == front[i]);
            } else {
                assert(percent_encoded(bytes)[i] == last[i - front.len()]);
            }
        }
    }
}

/// Bytes that are all written as they stand are encoded as the characters they
/// stand for.
proof fn lemma_unreserved_bytes_unchanged(bytes: Seq<u8>)
    requires
        forall|i: int| 0 <= i < bytes.len() ==> is_unreserved(#[trigger] bytes[i]),
    ensures
        percent_encoded(bytes) == Seq::new(bytes.len(), |i: int| bytes[i] as char),
    decreases bytes.len(),
{
    if bytes.len() > 0 {
        let front = bytes.drop_last();
        assert(forall|i: int| 0 <= i < front.len() ==> front[i] == bytes[i]);
        lemma_unreserved_bytes_unchanged(front);
    }
    assert(percent_encoded(bytes) =~= Seq::new(bytes.len(), |i: int| bytes[i] as char));
}

/// A plain character is one of the first 128.
proof fn lemma_plain_is_ascii(c: char)
    requires
        is_plain(c),
    ensures
        '\0' <= c <= '\u{7f}',
{
}

/// A text of plain characters alone is its own encoding.
pub proof fn lemma_plain_text_is_unchanged(text: Seq<char>)
    requires
        forall|i: int| 0 <= i < text.len() ==> is_plain(#[trigger] text[i]),
    ensures
        encoded_text(text) == text,
{
    assert(is_ascii_chars(text)) by {
        assert forall|i: int| 0 <= i < text.len() implies '\0' <= #[trigger] text[i]
            <= '\u{7f}' by {
            let c = text[i];
            lemma_plain_is_ascii(c);
        }
    }
    is_ascii_chars_encode_utf8(text);
    let bytes = encode_utf8(text);
    assert forall|i: int| 0 <= i < bytes.len() implies is_unreserved(#[trigger] bytes[i]) by {
        assert(is_plain(text[i]));
        assert(bytes[i] == text[i] as u8);
    }
    lemma_unreserved_bytes_unchanged(bytes);
    assert forall|i: int| 0 <= i < text.len() implies bytes[i] as char == text[i] by {
        assert(is_plain(text[i]));
        assert(bytes[i] == text[i] as u8);
    }
    assert(encoded_text(text) =~= text);
}

} // verus!
