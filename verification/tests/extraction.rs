use tracker_client::extract::parse_search_query;
use tracker_client::extract::row_to_record;
use tracker_client::extract::RawLink;
use tracker_client::extract::RawRow;

fn row_html(id_attr: Option<&str>, title: &str, cells: &[&str]) -> String {
    let mut s = String::from("<tr><td><div class=\"t-title\">");
    match id_attr {
        Some(v) => {
            s.push_str("<a data-topic_id=\"");
            s.push_str(v);
            s.push_str("\">");
        }
        None => s.push_str("<a>"),
    }
    s.push_str(title);
    s.push_str("</a></div></td>");
    for c in cells {
        s.push_str("<td>");
        s.push_str(c);
        s.push_str("</td>");
    }
    s.push_str("</tr>");
    s
}

fn page_html(rows: &[String]) -> String {
    let mut s = String::from("<html><body><table id=\"tor-tbl\"><tbody>");
    for r in rows {
        s.push_str(r);
    }
    s.push_str("</tbody></table></body></html>");
    s
}

#[test]
fn empty_document_yields_empty_sequence() {
    let items = parse_search_query("<html></html>".to_string()).unwrap();
    assert_eq!(items.len(), 0);
}

#[test]
fn document_without_results_table_yields_empty_sequence() {
    let html = "<html><body><table id=\"other\"><tbody><tr><td>x</td></tr></tbody></table></body></html>";
    let items = parse_search_query(html.to_string()).unwrap();
    assert_eq!(items.len(), 0);
}

#[test]
fn row_order_is_preserved() {
    let rows = vec![
        row_html(Some("1"), "First", &["c2", "author", "1 GB", "", "", "10", "2024"]),
        row_html(Some("2"), "Second", &["c2", "author", "2 GB", "", "", "20", "2024"]),
        row_html(Some("3"), "Third", &["c2", "author", "3 GB", "", "", "30", "2024"]),
    ];
    let items = parse_search_query(page_html(&rows)).unwrap();
    assert_eq!(items.len(), 3);
    assert_eq!(items[0].title, Some("First".to_string()));
    assert_eq!(items[1].title, Some("Second".to_string()));
    assert_eq!(items[2].title, Some("Third".to_string()));
    assert_eq!(items[0].id, Some(1));
    assert_eq!(items[1].id, Some(2));
    assert_eq!(items[2].id, Some(3));
}

#[test]
fn full_row_is_extracted_by_column_position() {
    // Cells after the title cell: indices 1.. of the row; the title cell is
    // index 0, so the slice below holds columns 1 through 9.
    let row = row_html(
        Some("12345"),
        "  Example Title  ",
        &[
            "forum",
            "  Films  ",
            "status",
            "  someone  ",
            "1.2 GB \u{2193}",
            "s",
            "l",
            "  77  ",
            "  2024-01-01  ",
        ],
    );
    let items = parse_search_query(page_html(&[row])).unwrap();
    assert_eq!(items.len(), 1);
    let it = &items[0];
    assert_eq!(it.id, Some(12345));
    assert_eq!(it.title, Some("Example Title".to_string()));
    assert_eq!(it.topic, Some("Films".to_string()));
    assert_eq!(it.author, Some("someone".to_string()));
    assert_eq!(it.size, Some("1.2GB".to_string()));
    assert_eq!(it.downloads, Some("77".to_string()));
    assert_eq!(it.date, Some("2024-01-01".to_string()));
}

#[test]
fn missing_cells_degrade_to_absent_fields() {
    // Only three cells in the whole row: topic (index 2) exists, author,
    // size, downloads and date do not.
    let row = row_html(Some("9"), "Short", &["forum", "Books"]);
    let items = parse_search_query(page_html(&[row])).unwrap();
    assert_eq!(items.len(), 1);
    let it = &items[0];
    assert_eq!(it.topic, Some("Books".to_string()));
    assert_eq!(it.author, None);
    assert_eq!(it.size, None);
    assert_eq!(it.downloads, None);
    assert_eq!(it.date, None);
}

#[test]
fn row_without_title_link_still_yields_a_record() {
    let row = "<tr><td>plain</td><td>x</td><td>Topic</td></tr>".to_string();
    let items = parse_search_query(page_html(&[row])).unwrap();
    assert_eq!(items.len(), 1);
    let it = &items[0];
    assert_eq!(it.id, None);
    assert_eq!(it.title, None);
    assert_eq!(it.topic, Some("Topic".to_string()));
}

#[test]
fn title_link_without_attribute_yields_absent_id() {
    let row = row_html(None, "  No Id  ", &["a", "b"]);
    let items = parse_search_query(page_html(&[row])).unwrap();
    assert_eq!(items.len(), 1);
    assert_eq!(items[0].id, None);
    assert_eq!(items[0].title, Some("No Id".to_string()));
}

#[test]
fn unparsable_attribute_yields_absent_id() {
    let row = row_html(Some("not-a-number"), "T", &[]);
    let items = parse_search_query(page_html(&[row])).unwrap();
    assert_eq!(items[0].id, None);
    assert_eq!(items[0].title, Some("T".to_string()));
}

#[test]
fn row_to_record_maps_raw_cells_directly() {
    let row = RawRow {
        cells: vec![
            "t".to_string(),
            "x".to_string(),
            " Topic ".to_string(),
            "y".to_string(),
            " Author ".to_string(),
            " 700 MB \u{2193} ".to_string(),
        ],
        link: Some(RawLink { id_attr: Some("42".to_string()), text: " Hello ".to_string() }),
    };
    let rec = row_to_record(&row);
    assert_eq!(rec.id, Some(42));
    assert_eq!(rec.title, Some("Hello".to_string()));
    assert_eq!(rec.topic, Some("Topic".to_string()));
    assert_eq!(rec.author, Some("Author".to_string()));
    assert_eq!(rec.size, Some("700MB".to_string()));
    assert_eq!(rec.downloads, None);
    assert_eq!(rec.date, None);
}

#[test]
fn concurrent_style_extractions_do_not_interfere() {
    // Two extractions over different documents, interleaved, give the same
    // results as either one alone: the extractor keeps no shared state.
    let doc_a = page_html(&[row_html(Some("1"), "A", &[])]);
    let doc_b = page_html(&[row_html(Some("2"), "B", &[])]);
    let a1 = parse_search_query(doc_a.clone()).unwrap();
    let b1 = parse_search_query(doc_b.clone()).unwrap();
    let a2 = parse_search_query(doc_a).unwrap();
    let b2 = parse_search_query(doc_b).unwrap();
    assert_eq!(a1[0].title, Some("A".to_string()));
    assert_eq!(b1[0].title, Some("B".to_string()));
    assert_eq!(a1[0].title, a2[0].title);
    assert_eq!(b1[0].title, b2[0].title);
    assert_eq!(a1[0].id, a2[0].id);
    assert_eq!(b1[0].id, b2[0].id);
}
