//! HTML Extractor: maps the rows of the results table of a tracker search
//! page to typed records, tolerating missing cells and attributes. The HTML
//! tree traversal is delegated to the `scraper` crate; everything from the
//! raw row texts to the finished records is verified.

use vstd::prelude::*;
use crate::error::AppError;
use crate::text::clean_size;
use crate::text::clean_size_str;
use crate::text::parse_u64;
use crate::text::parse_u64_str;
use crate::text::trim;
use crate::text::trim_str;

verus! {

/// Column index of the topic/category label in a results row.
pub const TOPIC_COLUMN: usize = 2;

/// Column index of the author in a results row.
pub const AUTHOR_COLUMN: usize = 4;

/// Column index of the size descriptor in a results row.
pub const SIZE_COLUMN: usize = 5;

/// Column index of the download count in a results row.
pub const DOWNLOADS_COLUMN: usize = 8;

/// Column index of the publish date in a results row.
pub const DATE_COLUMN: usize = 9;

/// The raw title link of a row: the text of its topic-id attribute, when
/// the attribute is present, and the link's visible text.
pub struct RawLink {
    /// The `data-topic_id` attribute value, unparsed.
    pub id_attr: Option<String>,
    /// The link's visible text, untrimmed.
    pub text: String,
}

/// One raw results row as the HTML holds it: the visible text of each cell
/// in document order, and the title link, when the row has one.
pub struct RawRow {
    /// The text of each `td` cell, in order.
    pub cells: Vec<String>,
    /// The first `.t-title a` link of the row, when present.
    pub link: Option<RawLink>,
}

/// Mathematical image of a raw title link.
#[verifier::ext_equal]
pub ghost struct LinkView {
    pub id_attr: Option<Seq<char>>,
    pub text: Seq<char>,
}

/// Mathematical image of a raw results row.
#[verifier::ext_equal]
pub ghost struct RowView {
    pub cells: Seq<Seq<char>>,
    pub link: Option<LinkView>,
}

impl DeepView for RawLink {
    type V = LinkView;

    open spec fn deep_view(&self) -> LinkView {
        LinkView { id_attr: self.id_attr.deep_view(), text: self.text.deep_view() }
    }
}

impl DeepView for RawRow {
    type V = RowView;

    open spec fn deep_view(&self) -> RowView {
        RowView { cells: self.cells.deep_view(), link: self.link.deep_view() }
    }
}

/// One parsed row of listing data. Every field is optional: source rows are
/// heterogeneous, and a row whose every field is absent is still a record.
pub struct SearchItem {
    /// Numeric identifier, read from the title link's topic-id attribute.
    pub id: Option<u64>,
    /// Trimmed visible text of the title link.
    pub title: Option<String>,
    /// Topic/category label.
    pub topic: Option<String>,
    /// Author.
    pub author: Option<String>,
    /// Size descriptor, cleaned of the sort marker and of spaces.
    pub size: Option<String>,
    /// Download count, as text.
    pub downloads: Option<String>,
    /// Publish date, as text.
    pub date: Option<String>,
}

/// Mathematical image of a parsed record.
#[verifier::ext_equal]
pub ghost struct RecordView {
    pub id: Option<u64>,
    pub title: Option<Seq<char>>,
    pub topic: Option<Seq<char>>,
    pub author: Option<Seq<char>>,
    pub size: Option<Seq<char>>,
    pub downloads: Option<Seq<char>>,
    pub date: Option<Seq<char>>,
}

impl DeepView for SearchItem {
    type V = RecordView;

    open spec fn deep_view(&self) -> RecordView {
        RecordView {
            id: self.id,
            title: self.title.deep_view(),
            topic: self.topic.deep_view(),
            author: self.author.deep_view(),
            size: self.size.deep_view(),
            downloads: self.downloads.deep_view(),
            date: self.date.deep_view(),
        }
    }
}

/// The record that one raw row maps to: the identifier is the title link's
/// attribute parsed as a decimal `u64`, the title is the link's trimmed
/// text, the positional fields are the trimmed cell texts at their fixed
/// column indices (with the size additionally cleaned), and any index out
/// of bounds for the row yields an absent field.
pub open spec fn record_of(r: RowView) -> RecordView {
    RecordView {
        id: match r.link {
            Some(l) => match l.id_attr {
                Some(a) => parse_u64(a),
                None => None,
            },
            None => None,
        },
        title: match r.link {
            Some(l) => Some(trim(l.text)),
            None => None,
        },
        topic: if r.cells.len() > TOPIC_COLUMN {
            Some(trim(r.cells[TOPIC_COLUMN as int]))
        } else {
            None
        },
        author: if r.cells.len() > AUTHOR_COLUMN {
            Some(trim(r.cells[AUTHOR_COLUMN as int]))
        } else {
            None
        },
        size: if r.cells.len() > SIZE_COLUMN {
            Some(clean_size(trim(r.cells[SIZE_COLUMN as int])))
        } else {
            None
        },
        downloads: if r.cells.len() > DOWNLOADS_COLUMN {
            Some(trim(r.cells[DOWNLOADS_COLUMN as int]))
        } else {
            None
        },
        date: if r.cells.len() > DATE_COLUMN {
            Some(trim(r.cells[DATE_COLUMN as int]))
        } else {
            None
        },
    }
}

/// The records of a whole row sequence, in row order.
pub open spec fn records_of(rows: Seq<RowView>) -> Seq<RecordView> {
    rows.map_values(|r: RowView| record_of(r))
}

/// The raw rows that the results table of a document holds, in document
/// order: one entry per `#tor-tbl tbody tr` element, with the text of its
/// `td` cells and its first `.t-title a` link. A document without the table
/// has no rows.
pub uninterp spec fn rows_of(html: Seq<char>) -> Seq<RowView>;

/// Relies on scraper's `Html::parse_document`, `Selector::parse` and the
/// `select`, `attr` and `text` accessors: the selection yields the
/// `#tor-tbl tbody tr` elements in document order, `td` cells likewise, and
/// the result depends on the document text alone. Parsing never fails:
/// html5ever recovers from any malformed input.
#[verifier::external_body]
fn scrape_rows(html: &str) -> (rows: Vec<RawRow>)
    ensures
        rows.deep_view() == rows_of(html@),
{
    let doc = scraper::Html::parse_document(html);
    let row_sel = scraper::Selector::parse("#tor-tbl tbody tr").unwrap();
    let cell_sel = scraper::Selector::parse("td").unwrap();
    let link_sel = scraper::Selector::parse(".t-title a").unwrap();
    doc.select(&row_sel).map(|row| RawRow {
        cells: row.select(&cell_sel).map(|c| c.text().collect()).collect(),
        link: row.select(&link_sel).next().map(|a| RawLink {
            id_attr: a.attr("data-topic_id").map(|v| v.to_string()),
            text: a.text().collect(),
        }),
    }).collect()
}

/// Maps one raw row to its record, exactly as [`record_of`] states it.
pub fn row_to_record(row: &RawRow) -> (rec: SearchItem)
    ensures
        rec.deep_view() == record_of(row.deep_view()),
{
    let id: Option<u64> = match &row.link {
        Some(l) => match &l.id_attr {
            Some(a) => parse_u64_str(a.as_str()),
            None => None,
        },
        None => None,
    };
    let title: Option<String> = match &row.link {
        Some(l) => Some(trim_str(l.text.as_str())),
        None => None,
    };
    let topic: Option<String> = if row.cells.len() > TOPIC_COLUMN {
        Some(trim_str(row.cells[TOPIC_COLUMN].as_str()))
    } else {
        None
    };
    let author: Option<String> = if row.cells.len() > AUTHOR_COLUMN {
        Some(trim_str(row.cells[AUTHOR_COLUMN].as_str()))
    } else {
        None
    };
    let size: Option<String> = if row.cells.len() > SIZE_COLUMN {
        let t = trim_str(row.cells[SIZE_COLUMN].as_str());
        Some(clean_size_str(t.as_str()))
    } else {
        None
    };
    let downloads: Option<String> = if row.cells.len() > DOWNLOADS_COLUMN {
        Some(trim_str(row.cells[DOWNLOADS_COLUMN].as_str()))
    } else {
        None
    };
    let date: Option<String> = if row.cells.len() > DATE_COLUMN {
        Some(trim_str(row.cells[DATE_COLUMN].as_str()))
    } else {
        None
    };
    let rec = SearchItem { id, title, topic, author, size, downloads, date };
    proof {
        assert(rec.deep_view() =~= record_of(row.deep_view()));
    }
    rec
}

/// Extracts the ordered record sequence of a search page. Extraction is
/// total: every document yields a sequence (possibly empty), and the
/// records stand in row order.
pub fn parse_search_query(content: String) -> (r: Result<Vec<SearchItem>, AppError>)
    ensures
        r is Ok,
        r matches Ok(items) ==> items.deep_view() == records_of(rows_of(content@)),
{
    let rows = scrape_rows(content.as_str());
    let mut items: Vec<SearchItem> = Vec::new();
    let mut k: usize = 0;
    proof {
        assert(items.deep_view() =~= records_of(rows.deep_view().take(0)));
    }
    while k < rows.len()
        invariant
            k <= rows.len(),
            rows.deep_view() == rows_of(content@),
            rows.deep_view().len() == rows@.len(),
            items.deep_view() == records_of(rows.deep_view().take(k as int)),
        decreases rows.len() - k,
    {
        let rec = row_to_record(&rows[k]);
        proof {
            assert(rows[k as int].deep_view() == rows.deep_view()[k as int]);
        }
        items.push(rec);
        proof {
            let dv = rows.deep_view();
            assert(dv.take(k + 1) =~= dv.take(k as int).push(dv[k as int]));
            assert(records_of(dv.take(k as int).push(dv[k as int])) =~= records_of(
                dv.take(k as int),
            ).push(record_of(dv[k as int])));
            assert(items.deep_view() =~= records_of(dv.take(k as int)).push(
                record_of(dv[k as int]),
            ));
        }
        k = k + 1;
    }
    proof {
        assert(rows.deep_view().take(rows@.len() as int) =~= rows.deep_view());
    }
    Ok(items)
}

/// Row order is preserved: the output sequence has one record per row, and
/// the record at each position is the record of the row at that position.
pub proof fn lemma_row_order(rows: Seq<RowView>)
    ensures
        records_of(rows).len() == rows.len(),
        forall|i: int| 0 <= i < rows.len() ==> records_of(rows)[i] == record_of(rows[i]),
{
}

/// Missing cells degrade gracefully: a row with fewer columns than the size
/// column needs yields a record whose size is absent, never a failure.
pub proof fn lemma_missing_size_column(r: RowView)
    requires
        r.cells.len() <= SIZE_COLUMN,
    ensures
        record_of(r).size is None,
{
}

} // verus!
