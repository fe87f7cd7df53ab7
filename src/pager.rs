//! The pagination loop as a state machine: the caller fetches the address the
//! pager names, hands back the response, and is told what to do next.
use vstd::prelude::*;
use crate::output::lines_of_cube;
use crate::extract::{CardRow, ExtractError, row_views, page_rows, csv_records_of, page_body, process_csv_text};

verus! {

/// Why a run stopped before its last page.
#[derive(Debug, Clone, Copy, PartialEq, Eq)]
pub enum PageError {
    /// The service answered with a status outside the success range.
    Status(u16),
    /// A page could not be read as card rows.
    Csv(ExtractError),
}

/// What the caller does after handing in a response.
#[derive(Debug)]
pub enum Step {
    /// Fetch this address next.
    Fetch(String),
    /// The last page has been read; the cube is complete.
    Done,
    /// The run failed; nothing of it is to be kept.
    Failed(PageError),
}

/// Whether an HTTP status counts as success (the 2xx range).
pub open spec fn status_ok(status: u16) -> bool {
    200 <= status <= 299
}

/// The rows of the given pages, one after another, or `None` where any of
/// them cannot be read.
pub open spec fn pages_rows(pages: Seq<Seq<char>>, with_rarity: bool) -> Option<Seq<(Seq<char>, Option<Seq<char>>)>>
    decreases pages.len(),
{
    if pages.len() == 0 {
        Some(Seq::empty())
    } else {
        match (pages_rows(pages.drop_last(), with_rarity), page_rows(pages.last(), with_rarity)) {
            (Some(before), Some(last)) => Some(before + last),
            _ => None,
        }
    }
}

/// The number of data records over all the given pages.
pub open spec fn record_total(pages: Seq<Seq<char>>) -> int
    decreases pages.len(),
{
    if pages.len() == 0 {
        0
    } else {
        record_total(pages.drop_last()) + match csv_records_of(page_body(pages.last())) {
            Some(recs) => recs.len() as int,
            None => 0,
        }
    }
}

/// The state of a run: the address to fetch, the rows so far, and the bodies
/// of the pages read so far.
pub struct Pager {
    pub url: String,
    pub cube: Vec<CardRow>,
    pub with_rarity: bool,
    pub finished: bool,
    pub pages: Ghost<Seq<Seq<char>>>,
}

impl Pager {
    /// The cube holds exactly the rows of the pages read, in order.
    pub open spec fn wf(&self) -> bool {
        pages_rows(self.pages@, self.with_rarity) == Some(row_views(self.cube@))
    }

    /// A run that starts at `first_url` with an empty cube.
    pub fn new(first_url: String, with_rarity: bool) -> (p: Pager)
        ensures
            p.wf(),
            p.url@ == first_url@,
            p.cube@.len() == 0,
            p.with_rarity == with_rarity,
            !p.finished,
            p.pages@.len() == 0,
    {
        let p = Pager { url: first_url, cube: Vec::new(), with_rarity, finished: false, pages: Ghost(Seq::empty()) };
        assert(row_views(p.cube@) =~= Seq::empty());
        p
    }

    /// Takes the response to the current address. A success status adds the
    /// page's rows to the cube and moves to the next-page address, or ends the
    /// run where there is none; any other status, or a page that cannot be
    /// read, ends the run as failed with the cube as it was.
    pub fn on_response(&mut self, status: u16, body: &str, next_page: Option<String>) -> (r: Step)
        requires
            old(self).wf(),
            !old(self).finished,
        ensures
            final(self).wf(),
            final(self).finished <==> !(r is Fetch),
            final(self).with_rarity == old(self).with_rarity,
            !status_ok(status) ==> r == Step::Failed(PageError::Status(status)),
            status_ok(status) && page_rows(body@, old(self).with_rarity) is None ==> r matches Step::Failed(PageError::Csv(_)),
            r is Failed ==> final(self).cube@ == old(self).cube@ && final(self).pages@ == old(self).pages@
                && final(self).url == old(self).url,
            status_ok(status) && page_rows(body@, old(self).with_rarity) is Some ==> {
                &&& final(self).pages@ == old(self).pages@.push(body@)
                &&& row_views(final(self).cube@) == row_views(old(self).cube@) + page_rows(body@, old(self).with_rarity)->Some_0
                &&& match next_page {
                    Some(u) => r matches Step::Fetch(v) && v@ == u@ && final(self).url@ == u@,
                    None => r is Done && final(self).url == old(self).url,
                }
            },
    {
        if status < 200 || status > 299 {
            self.finished = true;
            return Step::Failed(PageError::Status(status));
        }
        match process_csv_text(body, self.with_rarity) {
            Err(e) => {
                self.finished = true;
                Step::Failed(PageError::Csv(e))
            },
            Ok(rows) => {
                let ghost old_pages = self.pages@;
                let ghost old_cube = self.cube@;
                let mut rows = rows;
                self.cube.append(&mut rows);
                self.pages = Ghost(self.pages@.push(body@));
                proof {
                    assert(self.pages@.drop_last() =~= old_pages);
                    assert(row_views(self.cube@) =~= row_views(old_cube) + page_rows(body@, self.with_rarity)->Some_0);
                }
                match next_page {
                    Some(u) => {
                        let step_url = u.clone();
                        self.url = u;
                        Step::Fetch(step_url)
                    },
                    None => {
                        self.finished = true;
                        Step::Done
                    },
                }
            },
        }
    }
}

/// The cube of a run, and the lines written from it, number exactly the data
/// records of the pages it read, summed page by page.
pub proof fn lemma_cube_len_is_record_total(pages: Seq<Seq<char>>, with_rarity: bool)
    requires
        pages_rows(pages, with_rarity) is Some,
    ensures
        pages_rows(pages, with_rarity)->Some_0.len() == record_total(pages),
        lines_of_cube(pages_rows(pages, with_rarity)->Some_0).len() == record_total(pages),
    decreases pages.len(),
{
    if pages.len() > 0 {
        lemma_cube_len_is_record_total(pages.drop_last(), with_rarity);
    }
}

/// Rows keep page order: the rows of pages read one after another are the
/// rows of the first run of pages followed by the rows of the second.
pub proof fn lemma_pages_rows_concat(a: Seq<Seq<char>>, b: Seq<Seq<char>>, with_rarity: bool)
    requires
        pages_rows(a, with_rarity) is Some,
        pages_rows(b, with_rarity) is Some,
    ensures
        pages_rows(a + b, with_rarity) == Some(pages_rows(a, with_rarity)->Some_0 + pages_rows(b, with_rarity)->Some_0),
    decreases b.len(),
{
    if b.len() == 0 {
        assert(a + b =~= a);
        assert(pages_rows(a, with_rarity)->Some_0 + Seq::empty() =~= pages_rows(a, with_rarity)->Some_0);
    } else {
        assert((a + b).drop_last() =~= a + b.drop_last());
        lemma_pages_rows_concat(a, b.drop_last(), with_rarity);
        let ra = pages_rows(a, with_rarity)->Some_0;
        let rb = pages_rows(b.drop_last(), with_rarity)->Some_0;
        let rl = page_rows(b.last(), with_rarity)->Some_0;
        assert(ra + rb + rl =~= ra + (rb + rl));
    }
}

} // verus!
