//! The output table: a CSV document built in memory, the fixed header row
//! `url,name,price` first, then one row per product record, in the order
//! written. The quoting of one row is done by the `csv` crate behind a
//! trusted wrapper; the document's shape is verified here.

use vstd::prelude::*;
use vstd::string::StringExecFns;
use crate::extract::Product;
use crate::extract::ProductView;

verus! {

/// What `csv::Writer::write_record` yields for one record of three fields:
/// the single CSV line, fields quoted per the standard rules, ending in the
/// record terminator.
pub uninterp spec fn csv_row_of(url: Seq<char>, name: Seq<char>, price: Seq<char>) -> Seq<char>;

/// Relies on `csv::Writer` writing to an in-memory buffer with the default
/// configuration: `write_record` writes one comma-separated record with
/// standard quoting and the record terminator, `into_inner` flushes and
/// hands the bytes back; they are UTF-8 since the fields were.
#[verifier::external_body]
fn encode_csv_row(url: &str, name: &str, price: &str) -> (r: String)
    ensures
        r@ == csv_row_of(url@, name@, price@),
{
    let mut w = csv::Writer::from_writer(Vec::new());
    let _ = w.write_record(&[url, name, price]);
    match w.into_inner() {
        Ok(bytes) => String::from_utf8(bytes).unwrap_or_default(),
        Err(_) => String::new(),
    }
}

/// The rows of a sequence of records, concatenated in order.
pub open spec fn rows_of(recs: Seq<ProductView>) -> Seq<char>
    decreases recs.len(),
{
    if recs.len() == 0 {
        Seq::empty()
    } else {
        rows_of(recs.drop_last()) + csv_row_of(
            recs.last().url,
            recs.last().name,
            recs.last().price,
        )
    }
}

/// The whole document for a sequence of records: the header row
/// `url,name,price`, then the records' rows in order.
pub open spec fn doc_of(recs: Seq<ProductView>) -> Seq<char> {
    csv_row_of("url"@, "name"@, "price"@) + rows_of(recs)
}

/// The output table being built. The text is always the document of the
/// records written so far: the header stands before any row, and each
/// written record appends exactly one row.
pub struct CsvSink {
    text: String,
    recs: Ghost<Seq<ProductView>>,
}

impl CsvSink {
    /// The records written so far, in order.
    pub closed spec fn records(&self) -> Seq<ProductView> {
        self.recs@
    }

    /// The document text so far.
    pub closed spec fn text_view(&self) -> Seq<char> {
        self.text@
    }

    /// The text is exactly the document of the records written so far.
    pub closed spec fn inv(&self) -> bool {
        self.text@ == doc_of(self.recs@)
    }

    /// A fresh table: the header row and nothing else.
    pub fn new() -> (s: CsvSink)
        ensures
            s.inv(),
            s.records() == Seq::<ProductView>::empty(),
            s.text_view() == doc_of(Seq::<ProductView>::empty()),
    {
        let text = encode_csv_row("url", "name", "price");
        let s = CsvSink { text, recs: Ghost(Seq::empty()) };
        proof {
            assert(s.text@ =~= doc_of(Seq::<ProductView>::empty()));
        }
        s
    }

    /// Append exactly one row for one record.
    pub fn write_record(&mut self, p: &Product)
        requires
            old(self).inv(),
        ensures
            final(self).inv(),
            final(self).records() == old(self).records().push(p@),
            final(self).text_view() == old(self).text_view() + csv_row_of(p.url@, p.name@, p.price@),
    {
        let row = encode_csv_row(p.url.as_str(), p.name.as_str(), p.price.as_str());
        self.text.append(row.as_str());
        proof {
            self.recs@ = old(self).recs@.push(p@);
            let r = self.recs@;
            assert(r.drop_last() =~= old(self).recs@);
            assert(self.text@ =~= doc_of(r));
        }
    }

    /// The document text.
    pub fn output(&self) -> (r: &String)
        ensures
            r@ == self.text_view(),
    {
        &self.text
    }
}

/// Law: whatever records are written, the document begins with the header
/// row `url,name,price`, before any data row.
pub proof fn lemma_header_first(recs: Seq<ProductView>)
    ensures
        doc_of(recs).take(csv_row_of("url"@, "name"@, "price"@).len() as int) == csv_row_of(
            "url"@,
            "name"@,
            "price"@,
        ),
{
    assert(doc_of(recs).take(csv_row_of("url"@, "name"@, "price"@).len() as int) =~= csv_row_of(
        "url"@,
        "name"@,
        "price"@,
    ));
}

} // verus!
