use dblp_crawler::model::{
    Author, Authors, Completion, Completions, Hit, Hits, Info, SearchResponse, SearchResult,
    Status, Time,
};

fn author(name: &str) -> Author {
    Author { text: name.to_string(), pid: None }
}

fn minimal_info() -> Info {
    Info {
        title: "T".to_string(),
        authors: Authors { author: vec![author("A")] },
        venue: "V".to_string(),
        year: "2020".to_string(),
        ee: "E".to_string(),
        key: "K".to_string(),
        url: "U".to_string(),
        record_type: "Article".to_string(),
        access: String::new(),
        doi: String::new(),
        number: String::new(),
        pages: String::new(),
        volume: String::new(),
    }
}

fn minimal_hit() -> Hit {
    Hit { id: "1".to_string(), score: "1.0".to_string(), info: minimal_info(), url: "U".to_string() }
}

fn response(completions: Vec<&str>, hits: Vec<Hit>) -> SearchResponse {
    SearchResponse {
        result: SearchResult {
            completions: Completions {
                c: completions.into_iter().map(|t| Completion { text: t.to_string() }).collect(),
            },
            hits: Hits { hit: hits },
            query: "q".to_string(),
            status: Status { code: "200".to_string(), text: "OK".to_string() },
            time: Time { unit: "msecs".to_string(), text: "1.23".to_string() },
        },
    }
}

#[test]
fn minimal_hit_renders_as_one_block() {
    let text = minimal_hit().render();
    assert_eq!(text, "T\nA\nV    2020\nE\n1\n1.0\n-----------------------------\n");
}

#[test]
fn minimal_hit_block_has_seven_lines_in_order() {
    let text = minimal_hit().render();
    let lines: Vec<&str> = text.lines().collect();
    assert_eq!(lines.len(), 7);
    assert_eq!(lines[0], "T");
    assert_eq!(lines[1], "A");
    assert!(lines[2].starts_with("V "));
    assert!(lines[2].ends_with(" 2020"));
    assert_eq!(lines[2].replace(' ', ""), "V2020");
    assert_eq!(lines[3], "E");
    assert_eq!(lines[4], "1");
    assert_eq!(lines[5], "1.0");
    assert_eq!(lines[6], "-----------------------------");
    assert!(text.ends_with("-----------------------------\n"));
}

#[test]
fn response_with_one_hit_and_no_completions() {
    let text = response(vec![], vec![minimal_hit()]).render();
    assert_eq!(text, "Hits:\nT\nA\nV    2020\nE\n1\n1.0\n-----------------------------\n");
}

#[test]
fn venue_line_holds_all_five_fields_in_order() {
    let mut info = minimal_info();
    info.pages = "10-20".to_string();
    info.number = "3".to_string();
    info.volume = "7".to_string();
    assert_eq!(info.venue_line(), "V 10-20 3 7 2020");
    assert_eq!(info.render(), "T\nA\nV 10-20 3 7 2020\nE\n");
}

#[test]
fn venue_line_keeps_the_place_of_an_empty_field() {
    let mut info = minimal_info();
    info.number = "3".to_string();
    assert_eq!(info.venue_line(), "V  3  2020");
}

#[test]
fn empty_hits_render_as_the_no_results_line() {
    let text = response(vec![], vec![]).render();
    assert_eq!(text, "No results found.\n");
    assert!(!text.contains("-----------------------------"));
    assert!(!text.contains("Hits:"));
}

#[test]
fn empty_hits_keep_the_completions() {
    let text = response(vec!["graph"], vec![]).render();
    assert_eq!(text, "Completions:\n- graph\nNo results found.\n");
}

#[test]
fn empty_completions_leave_no_header() {
    let text = response(vec![], vec![minimal_hit()]).render();
    assert!(!text.contains("Completions:"));
    assert!(!text.contains("- "));
    assert!(text.starts_with("Hits:\n"));
    assert_eq!(Completions { c: vec![] }.render(), "");
}

#[test]
fn completions_render_one_line_each_in_order() {
    let text = response(vec!["graph", "graphs", "graphical"], vec![]).render();
    assert_eq!(text, "Completions:\n- graph\n- graphs\n- graphical\nNo results found.\n");
}

#[test]
fn hits_render_in_their_order() {
    let mut second = minimal_hit();
    second.id = "2".to_string();
    second.info.title = "Second".to_string();
    let text = response(vec![], vec![minimal_hit(), second]).render();
    assert_eq!(
        text,
        "Hits:\nT\nA\nV    2020\nE\n1\n1.0\n-----------------------------\n\
         Second\nA\nV    2020\nE\n2\n1.0\n-----------------------------\n"
    );
}

#[test]
fn authors_are_joined_by_comma_and_space() {
    let authors = Authors { author: vec![author("Ada"), author("Bob"), author("Cy")] };
    let line = authors.render();
    assert_eq!(line, "Ada, Bob, Cy");
    assert_eq!(line.matches(", ").count(), 2);
    assert!(!line.ends_with(", "));
}

#[test]
fn authors_keep_the_order_given() {
    let authors = Authors { author: vec![author("Zoe"), author("Al"), author("Mia")] };
    assert_eq!(authors.render(), "Zoe, Al, Mia");
}

#[test]
fn one_author_has_no_separator() {
    let authors = Authors { author: vec![author("Solo")] };
    assert_eq!(authors.render(), "Solo");
}

#[test]
fn no_author_gives_an_empty_line() {
    let authors = Authors { author: vec![] };
    assert_eq!(authors.render(), "");
    let mut info = minimal_info();
    info.authors = authors;
    assert_eq!(info.render(), "T\n\nV    2020\nE\n");
}

#[test]
fn score_and_id_are_rendered_as_written() {
    let mut hit = minimal_hit();
    hit.id = "007".to_string();
    hit.score = "3.50".to_string();
    let text = hit.render();
    assert!(text.contains("\n007\n3.50\n"));
}

#[test]
fn rendering_twice_gives_the_same_text() {
    let one = response(vec!["a", "b"], vec![minimal_hit(), minimal_hit()]);
    let other = response(vec!["a", "b"], vec![minimal_hit(), minimal_hit()]);
    assert_eq!(one.render(), one.render());
    assert_eq!(one.render(), other.render());
}

#[test]
fn query_status_and_time_are_no_part_of_the_text() {
    let text = response(vec![], vec![]).render();
    assert!(!text.contains("200"));
    assert!(!text.contains("msecs"));
}

#[test]
fn status_renders_code_and_text() {
    let status = Status { code: "200".to_string(), text: "OK".to_string() };
    let text = status.render();
    assert_eq!(text, "Code: 200\nText: OK");
    assert_eq!(text.len(), 18);
    assert!(!text.ends_with('\n'));
}

#[test]
fn time_renders_unit_and_text() {
    let time = Time { unit: "msecs".to_string(), text: "12.34".to_string() };
    let text = time.render();
    assert_eq!(text, "Unit: msecs\nText: 12.34");
    assert_eq!(text.len(), 23);
    assert!(!text.ends_with('\n'));
}
