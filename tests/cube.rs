use cube_fetch::extract::{process_csv_text, extract_rows, strip_header, CardRow, ExtractError};
use cube_fetch::output::{
    cube_file_name, decimal_string, format_line, output_target, render_lines, FileSearch, OutputTarget, Probe,
};
use cube_fetch::pager::{PageError, Pager, Step};
use cube_fetch::query::build_query_url;
use cube_fetch::text::{join_strs, split_str};

const HEADER: &str = "set,collector_number,lang,released_at,mana_cost,rarity,name,type_line";

fn page(rows: &[&str]) -> String {
    let mut s = String::from(HEADER);
    for r in rows {
        s.push('\n');
        s.push_str(r);
    }
    s.push('\n');
    s
}

fn row(name: &str, rarity: Option<&str>) -> CardRow {
    CardRow { name: name.to_string(), rarity: rarity.map(|r| r.to_string()) }
}

fn same(a: &[CardRow], b: &[CardRow]) -> bool {
    a.len() == b.len() && a.iter().zip(b.iter()).all(|(x, y)| x.name == y.name && x.rarity == y.rarity)
}

#[test]
fn query_for_two_sets() {
    assert_eq!(
        build_query_url("akh,dom"),
        "https://api.scryfall.com/cards/search?order=name&format=csv&q=(-t%3ABasic+AND+game%3Apaper+AND+(set%3Aakh+OR+set%3Adom))&page=1"
    );
}

#[test]
fn query_for_default_sets() {
    let url = build_query_url("akh,dom,war,stx,znr");
    assert!(url.contains("(set%3Aakh+OR+set%3Adom+OR+set%3Awar+OR+set%3Astx+OR+set%3Aznr)"));
}

#[test]
fn query_for_empty_list_is_degenerate() {
    assert_eq!(
        build_query_url(""),
        "https://api.scryfall.com/cards/search?order=name&format=csv&q=(-t%3ABasic+AND+game%3Apaper+AND+(set%3A))&page=1"
    );
}

#[test]
fn split_and_join() {
    assert_eq!(split_str("a,,bc", ','), vec!["a", "", "bc"]);
    assert_eq!(split_str("", ','), vec![""]);
    let parts = vec!["x".to_string(), "y".to_string(), "z".to_string()];
    assert_eq!(join_strs(&parts, "+OR+"), "x+OR+y+OR+z");
    assert_eq!(join_strs(&Vec::new(), "-"), "");
}

#[test]
fn header_line_is_dropped() {
    assert_eq!(strip_header("h1,h2\r\na,b\r\nc,d\n"), "a,b\nc,d");
    assert_eq!(strip_header("only header\n"), "");
    assert_eq!(strip_header(""), "");
    assert_eq!(strip_header("h\na\r"), "a\r");
    assert_eq!(strip_header("h\n\na"), "\na");
}

#[test]
fn rows_with_rarity() {
    let text = page(&["akh,1,en,2017,{W},common,Alpha,Creature", "akh,2,en,2017,{U},rare,\"Beta, the Second\",Instant"]);
    let rows = process_csv_text(&text, true).unwrap();
    assert!(same(&rows, &[row("Alpha", Some("common")), row("Beta, the Second", Some("rare"))]));
}

#[test]
fn rows_without_rarity() {
    let text = page(&["akh,1,en,2017,{W},common,Alpha,Creature"]);
    let rows = process_csv_text(&text, false).unwrap();
    assert!(same(&rows, &[row("Alpha", None)]));
}

#[test]
fn unequal_records_are_malformed() {
    let text = page(&["a,b,c,d,e,f,g,h", "a,b,c"]);
    assert_eq!(process_csv_text(&text, true).unwrap_err(), ExtractError::Malformed);
}

#[test]
fn short_records_lack_columns() {
    let text = "h\na,b,c\nd,e,f\n";
    assert_eq!(process_csv_text(text, true).unwrap_err(), ExtractError::MissingColumns(0));
    let recs = vec![
        vec!["0", "1", "2", "3", "4", "r", "n"].into_iter().map(String::from).collect::<Vec<_>>(),
        vec!["0".to_string()],
    ];
    assert_eq!(extract_rows(&recs, false).unwrap_err(), ExtractError::MissingColumns(1));
}

#[test]
fn header_only_page_has_no_rows() {
    assert!(process_csv_text(&page(&[]), true).unwrap().is_empty());
}

#[test]
fn two_pages_accumulate_in_order() {
    let first = build_query_url("akh,dom");
    let mut p = Pager::new(first.clone(), true);
    let p1 = page(&["akh,1,en,2017,{W},common,Alpha,Creature", "akh,2,en,2017,{U},rare,Beta,Instant"]);
    let p2 = page(&["dom,3,en,2018,{B},mythic,Gamma,Sorcery"]);
    match p.on_response(200, &p1, Some("https://next/page2".to_string())) {
        Step::Fetch(u) => assert_eq!(u, "https://next/page2"),
        other => panic!("unexpected {:?}", other),
    }
    assert_eq!(p.url, "https://next/page2");
    assert!(matches!(p.on_response(200, &p2, None), Step::Done));
    assert!(p.finished);
    assert_eq!(p.cube.len(), 3);
    assert!(same(&p.cube, &[row("Alpha", Some("common")), row("Beta", Some("rare")), row("Gamma", Some("mythic"))]));
}

#[test]
fn single_page_ends_after_one_fetch() {
    let mut p = Pager::new("https://first".to_string(), false);
    let mut fetches = 0;
    loop {
        fetches += 1;
        let body = page(&["s,1,en,2020,{G},uncommon,Delta,Creature"]);
        match p.on_response(200, &body, None) {
            Step::Fetch(_) => continue,
            _ => break,
        }
    }
    assert_eq!(fetches, 1);
    assert!(same(&p.cube, &[row("Delta", None)]));
}

#[test]
fn failing_status_stops_the_run() {
    let mut p = Pager::new("https://first".to_string(), true);
    let body = page(&["s,1,en,2020,{G},uncommon,Delta,Creature"]);
    assert!(matches!(p.on_response(200, &body, Some("https://second".to_string())), Step::Fetch(_)));
    match p.on_response(404, "not found", None) {
        Step::Failed(e) => assert_eq!(e, PageError::Status(404)),
        other => panic!("unexpected {:?}", other),
    }
    assert!(p.finished);
    assert_eq!(p.url, "https://second");
    assert_eq!(p.cube.len(), 1);
}

#[test]
fn unreadable_page_stops_the_run() {
    let mut p = Pager::new("https://first".to_string(), true);
    match p.on_response(200, "h\na,b\n", None) {
        Step::Failed(e) => assert_eq!(e, PageError::Csv(ExtractError::MissingColumns(0))),
        other => panic!("unexpected {:?}", other),
    }
    assert!(p.cube.is_empty());
}

#[test]
fn line_formats() {
    assert_eq!(format_line(&row("Alpha", Some("rare"))), "Alpha:rare");
    assert_eq!(format_line(&row("Alpha", None)), "Alpha");
    let lines = render_lines(&vec![row("A", Some("common")), row("B", Some("rare"))]);
    assert_eq!(lines, vec!["A:common", "B:rare"]);
}

#[test]
fn without_rarity_lines_hold_names_only() {
    let text = page(&["akh,1,en,2017,{W},common,Alpha,Creature", "akh,2,en,2017,{U},rare,Beta,Instant"]);
    let rows = process_csv_text(&text, false).unwrap();
    let lines = render_lines(&rows);
    assert_eq!(lines, vec!["Alpha", "Beta"]);
    assert!(lines.iter().all(|l| !l.contains(':')));
    let rows = process_csv_text(&text, true).unwrap();
    assert_eq!(render_lines(&rows), vec!["Alpha:common", "Beta:rare"]);
}

#[test]
fn empty_cube_name_goes_to_stdout() {
    assert_eq!(output_target(""), OutputTarget::Stdout);
    assert_eq!(output_target("my_cube"), OutputTarget::File);
}

#[test]
fn decimal_numerals() {
    assert_eq!(decimal_string(0), "0");
    assert_eq!(decimal_string(7), "7");
    assert_eq!(decimal_string(12345), "12345");
    assert_eq!(decimal_string(u64::MAX), "18446744073709551615");
}

#[test]
fn numbered_file_names() {
    assert_eq!(cube_file_name("my_cube", 1), "my_cube1.txt");
    assert_eq!(cube_file_name("c", 42), "c42.txt");
}

fn pick_index(existing: &[u64]) -> u64 {
    let mut s = FileSearch::new();
    loop {
        match s.on_probe(existing.contains(&s.index)) {
            Probe::Use(n) => return n,
            Probe::Next(_) => {}
            Probe::Exhausted => panic!("exhausted"),
        }
    }
}

#[test]
fn file_search_takes_first_free_index() {
    assert_eq!(pick_index(&[]), 1);
    assert_eq!(pick_index(&[1, 2]), 3);
    assert_eq!(pick_index(&[2, 3]), 1);
}

#[test]
fn second_write_gets_higher_index() {
    let mut existing = vec![1, 2];
    let first = pick_index(&existing);
    existing.push(first);
    let second = pick_index(&existing);
    assert_eq!(first, 3);
    assert_eq!(second, 4);
    assert!(existing.iter().all(|&e| e < second));
}
