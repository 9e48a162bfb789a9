//! Rendering of a decoded response as text.
//!
//! The text is made of lines, each ended by a line feed. It depends on nothing
//! but the response, and follows the order of its collections.

use vstd::prelude::*;
use crate::model::{
    AuthorModel, Authors, Completions, Hit, HitModel, Hits, Info, InfoModel, SearchResponse,
    SearchResponseModel, SearchResult, SearchResultModel, Status, StatusModel, Time, TimeModel,
};

verus! {

/// What stands between two authors on the authors' line.
pub const AUTHOR_SEPARATOR: &'static str = ", ";

/// What ends every line.
pub const LINE_END: &'static str = "\n";

/// What stands between two neighbouring fields of the venue line.
pub const FIELD_SEPARATOR: &'static str = " ";

/// The line that closes the block of each hit.
pub const HIT_SEPARATOR: &'static str = "-----------------------------";

/// The line that stands for the hits where there are none.
pub const NO_RESULTS: &'static str = "No results found.";

/// The line above the completions, where there are any.
pub const COMPLETIONS_HEADER: &'static str = "Completions:";

/// What each completion's line begins with.
pub const COMPLETION_MARK: &'static str = "- ";

/// The line above the hits, where there are any.
pub const HITS_HEADER: &'static str = "Hits:";

/// `text` as a line of its own.
pub open spec fn line(text: Seq<char>) -> Seq<char> {
    text + LINE_END@
}

/// The names of `authors` in their order, with [`AUTHOR_SEPARATOR`] between each
/// two neighbours and nowhere else.
pub open spec fn authors_line(authors: Seq<AuthorModel>) -> Seq<char>
    decreases authors.len(),
{
    if authors.len() == 0 {
        Seq::empty()
    } else if authors.len() == 1 {
        authors[0].text
    } else {
        authors_line(authors.drop_last()) + AUTHOR_SEPARATOR@ + authors.last().text
    }
}

/// Venue, pages, number, volume and year in this order, with one
/// [`FIELD_SEPARATOR`] between each two neighbours, whether or not a field is empty.
pub open spec fn venue_line(info: InfoModel) -> Seq<char> {
    info.venue + FIELD_SEPARATOR@ + info.pages + FIELD_SEPARATOR@ + info.number + FIELD_SEPARATOR@
        + info.volume + FIELD_SEPARATOR@ + info.year
}

/// The four lines of a record: title, authors, venue line, electronic edition.
pub open spec fn info_lines(info: InfoModel) -> Seq<char> {
    line(info.title) + line(authors_line(info.authors)) + line(venue_line(info)) + line(info.ee)
}

/// The block of one hit: the lines of its record, its identifier, its score, and
/// the closing [`HIT_SEPARATOR`].
pub open spec fn hit_block(hit: HitModel) -> Seq<char> {
    info_lines(hit.info) + line(hit.id) + line(hit.score) + line(HIT_SEPARATOR@)
}

/// The blocks of `hits`, one after the other in their order.
pub open spec fn hit_blocks(hits: Seq<HitModel>) -> Seq<char>
    decreases hits.len(),
{
    if hits.len() == 0 {
        Seq::empty()
    } else {
        hit_blocks(hits.drop_last()) + hit_block(hits.last())
    }
}

/// The part of the text that stands for the hits: [`HITS_HEADER`] and the blocks,
/// or the single line [`NO_RESULTS`] where there is no hit.
pub open spec fn hits_section(hits: Seq<HitModel>) -> Seq<char> {
    if hits.len() == 0 {
        line(NO_RESULTS@)
    } else {
        line(HITS_HEADER@) + hit_blocks(hits)
    }
}

/// The line of one completion.
pub open spec fn completion_line(text: Seq<char>) -> Seq<char> {
    line(COMPLETION_MARK@ + text)
}

/// The lines of `completions`, one after the other in their order.
pub open spec fn completion_lines(completions: Seq<Seq<char>>) -> Seq<char>
    decreases completions.len(),
{
    if completions.len() == 0 {
        Seq::empty()
    } else {
        completion_lines(completions.drop_last()) + completion_line(completions.last())
    }
}

/// The part of the text that stands for the completions: [`COMPLETIONS_HEADER`]
/// and one line each, or nothing at all where there is none.
pub open spec fn completions_block(completions: Seq<Seq<char>>) -> Seq<char> {
    if completions.len() == 0 {
        Seq::empty()
    } else {
        line(COMPLETIONS_HEADER@) + completion_lines(completions)
    }
}

/// The text of a search result: the completions, then the hits.
pub open spec fn result_text(result: SearchResultModel) -> Seq<char> {
    completions_block(result.completions) + hits_section(result.hits)
}

/// The text of a response.
pub open spec fn rendered(response: SearchResponseModel) -> Seq<char> {
    result_text(response.result)
}

/// The two lines that describe a status: its code, then its text. The second
/// line is left open: no line end follows the text.
pub open spec fn status_lines(status: StatusModel) -> Seq<char> {
    line("Code: "@ + status.code) + ("Text: "@ + status.text)
}

/// The two lines that describe a time: its unit, then its text. The second line
/// is left open: no line end follows the text.
pub open spec fn time_lines(time: TimeModel) -> Seq<char> {
    line("Unit: "@ + time.unit) + ("Text: "@ + time.text)
}

/// Appends `text` and a line end to `out`.
fn push_line(out: &mut String, text: &str)
    ensures
        final(out)@ == old(out)@ + line(text@),
{
    out.append(text);
    out.append(LINE_END);
    assert(out@ =~= old(out)@ + line(text@));
}

impl Authors {
    /// The authors' names on one line.
    pub fn render(&self) -> (line: String)
        ensures
            line@ == authors_line(self@),
    {
        let mut line = String::new();
        let mut i: usize = 0;
        while i < self.author.len()
            invariant
                i <= self.author.len(),
                line@ == authors_line(self@.take(i as int)),
            decreases self.author.len() - i,
        {
            let ghost before = line@;
            if i > 0 {
                line.append(AUTHOR_SEPARATOR);
            }
            line.append(self.author[i].text.as_str());
            proof {
                let next = self@.take(i + 1);
                assert(next.drop_last() =~= self@.take(i as int));
                assert(next.last() == self@[i as int]);
                if i == 0 {
                    assert(before =~= Seq::<char>::empty());
                    assert(line@ =~= self@[0].text);
                }
            }
            i += 1;
        }
        proof {
            assert(self@.take(self.author@.len() as int) =~= self@);
        }
        line
    }
}

impl Info {
    /// The venue line of the record.
    pub fn venue_line(&self) -> (text: String)
        ensures
            text@ == venue_line(self@),
    {
        let mut text = self.venue.clone();
        text.append(FIELD_SEPARATOR);
        text.append(self.pages.as_str());
        text.append(FIELD_SEPARATOR);
        text.append(self.number.as_str());
        text.append(FIELD_SEPARATOR);
        text.append(self.volume.as_str());
        text.append(FIELD_SEPARATOR);
        text.append(self.year.as_str());
        text
    }

    /// The lines of the record.
    pub fn render(&self) -> (text: String)
        ensures
            text@ == info_lines(self@),
    {
        let mut text = String::new();
        push_line(&mut text, self.title.as_str());
        let authors = self.authors.render();
        push_line(&mut text, authors.as_str());
        let venue = self.venue_line();
        push_line(&mut text, venue.as_str());
        push_line(&mut text, self.ee.as_str());
        assert(text@ =~= info_lines(self@));
        text
    }
}

impl Hit {
    /// The block of the hit.
    pub fn render(&self) -> (text: String)
        ensures
            text@ == hit_block(self@),
    {
        let mut text = self.info.render();
        push_line(&mut text, self.id.as_str());
        push_line(&mut text, self.score.as_str());
        push_line(&mut text, HIT_SEPARATOR);
        text
    }
}

impl Hits {
    /// The part of the text that stands for the hits.
    pub fn render(&self) -> (text: String)
        ensures
            text@ == hits_section(self@),
    {
        let mut text = String::new();
        if self.hit.len() == 0 {
            push_line(&mut text, NO_RESULTS);
            assert(text@ =~= line(NO_RESULTS@));
            return text;
        }
        push_line(&mut text, HITS_HEADER);
        let ghost header = text@;
        assert(header =~= line(HITS_HEADER@));
        let mut i: usize = 0;
        while i < self.hit.len()
            invariant
                i <= self.hit.len(),
                text@ == header + hit_blocks(self@.take(i as int)),
            decreases self.hit.len() - i,
        {
            let block = self.hit[i].render();
            text.append(block.as_str());
            proof {
                let next = self@.take(i + 1);
                assert(next.drop_last() =~= self@.take(i as int));
                assert(next.last() == self@[i as int]);
                assert(text@ =~= header + hit_blocks(next));
            }
            i += 1;
        }
        proof {
            assert(self@.take(self.hit@.len() as int) =~= self@);
        }
        text
    }
}

impl Completions {
    /// The part of the text that stands for the completions.
    pub fn render(&self) -> (text: String)
        ensures
            text@ == completions_block(self@),
    {
        let mut text = String::new();
        if self.c.len() == 0 {
            return text;
        }
        push_line(&mut text, COMPLETIONS_HEADER);
        let ghost header = text@;
        assert(header =~= line(COMPLETIONS_HEADER@));
        let mut i: usize = 0;
        while i < self.c.len()
            invariant
                i <= self.c.len(),
                text@ == header + completion_lines(self@.take(i as int)),
            decreases self.c.len() - i,
        {
            text.append(COMPLETION_MARK);
            push_line(&mut text, self.c[i].text.as_str());
            proof {
                let next = self@.take(i + 1);
                assert(next.drop_last() =~= self@.take(i as int));
                assert(next.last() == self@[i as int]);
                assert(text@ =~= header + completion_lines(next));
            }
            i += 1;
        }
        proof {
            assert(self@.take(self.c@.len() as int) =~= self@);
        }
        text
    }
}

impl Status {
    /// The status on two lines, the second without a line end. They are no part of
    /// a response's text.
    pub fn render(&self) -> (text: String)
        ensures
            text@ == status_lines(self@),
    {
        let mut text = "Code: ".to_owned();
        push_line(&mut text, self.code.as_str());
        text.append("Text: ");
        text.append(self.text.as_str());
        assert(text@ =~= status_lines(self@));
        text
    }
}

impl Time {
    /// The time on two lines, the second without a line end. They are no part of a
    /// response's text.
    pub fn render(&self) -> (text: String)
        ensures
            text@ == time_lines(self@),
    {
        let mut text = "Unit: ".to_owned();
        push_line(&mut text, self.unit.as_str());
        text.append("Text: ");
        text.append(self.text.as_str());
        assert(text@ =~= time_lines(self@));
        text
    }
}

impl SearchResult {
    /// The text of the result: the completions, then the hits.
    pub fn render(&self) -> (text: String)
        ensures
            text@ == result_text(self@),
    {
        let mut text = self.completions.render();
        let hits = self.hits.render();
        text.append(hits.as_str());
        text
    }
}

impl SearchResponse {
    /// The text of the response.
    pub fn render(&self) -> (text: String)
        ensures
            text@ == rendered(self@),
    {
        self.result.render()
    }
}

} // verus!
