//! How the cube is written out: one text line per card, to standard output or
//! to the first unused numbered file name.
use vstd::prelude::*;
use crate::extract::{CardRow, row_views, all_complete, rows_of_records, NAME_COLUMN, RARITY_COLUMN};
use crate::text::{views_of, push_char};

verus! {

/// The text line of a card: `name:rarity`, or the name alone.
pub open spec fn line_of(row: (Seq<char>, Option<Seq<char>>)) -> Seq<char> {
    match row.1 {
        Some(r) => row.0 + ":"@ + r,
        None => row.0,
    }
}

/// The lines of the whole cube, in cube order.
pub open spec fn lines_of_cube(rows: Seq<(Seq<char>, Option<Seq<char>>)>) -> Seq<Seq<char>> {
    rows.map_values(|r: (Seq<char>, Option<Seq<char>>)| line_of(r))
}

/// Formats one card as its text line.
pub fn format_line(row: &CardRow) -> (r: String)
    ensures
        r@ == line_of(row@),
{
    match &row.rarity {
        Some(rarity) => row.name.clone().concat(":").concat(rarity.as_str()),
        None => row.name.clone(),
    }
}

/// Formats every card of the cube, one line each, in order; the same lines go
/// to a file or to standard output.
pub fn render_lines(rows: &Vec<CardRow>) -> (r: Vec<String>)
    ensures
        views_of(r@) == lines_of_cube(row_views(rows@)),
{
    let mut out: Vec<String> = Vec::new();
    let mut i: usize = 0;
    while i < rows.len()
        invariant
            i <= rows.len(),
            views_of(out@) =~= lines_of_cube(row_views(rows@.take(i as int))),
        decreases rows.len() - i,
    {
        let line = format_line(&rows[i]);
        let ghost prev = out@;
        out.push(line);
        assert(row_views(rows@.take(i + 1)) =~= row_views(rows@.take(i as int)).push(rows@[i as int]@));
        assert(views_of(out@) =~= views_of(prev).push(line@));
        i = i + 1;
    }
    assert(rows@.take(rows.len() as int) =~= rows@);
    out
}

/// Where the cube goes.
#[derive(Debug, Clone, Copy, PartialEq, Eq)]
pub enum OutputTarget {
    /// Print each line; no file is made.
    Stdout,
    /// Write the lines to a numbered file named after the cube.
    File,
}

/// An empty cube name sends the lines to standard output; any other names a file.
pub fn output_target(cube_name: &str) -> (r: OutputTarget)
    ensures
        r == OutputTarget::Stdout <==> cube_name@.len() == 0,
        r == OutputTarget::File <==> cube_name@.len() > 0,
{
    if cube_name.unicode_len() == 0 {
        OutputTarget::Stdout
    } else {
        OutputTarget::File
    }
}

/// The decimal digit of a value below ten.
pub open spec fn digit_char(d: nat) -> char {
    if d < 10 { ((d + 48) as u8) as char } else { '0' }
}

/// The decimal numeral of `n`, without leading zeros.
pub open spec fn decimal_of(n: nat) -> Seq<char>
    decreases n,
{
    if n < 10 {
        seq![digit_char(n)]
    } else {
        decimal_of(n / 10).push(digit_char(n % 10))
    }
}

/// Writes `n` in decimal.
pub fn decimal_string(n: u64) -> (r: String)
    ensures
        r@ == decimal_of(n as nat),
    decreases n,
{
    let mut s = if n < 10 { String::new() } else { decimal_string(n / 10) };
    let d = (n % 10) as u8;
    push_char(&mut s, (d + 48) as char);
    s
}

/// The file name `<cube name><index>.txt`.
pub open spec fn cube_file_name_of(cube_name: Seq<char>, index: nat) -> Seq<char> {
    cube_name + decimal_of(index) + ".txt"@
}

/// Builds the file name for the cube at the given index.
pub fn cube_file_name(cube_name: &str, index: u64) -> (r: String)
    ensures
        r@ == cube_file_name_of(cube_name@, index as nat),
{
    let digits = decimal_string(index);
    String::from_str(cube_name).concat(digits.as_str()).concat(".txt")
}

/// The answer to one probe of a candidate file name.
#[derive(Debug, Clone, Copy, PartialEq, Eq)]
pub enum Probe {
    /// The candidate at this index is free: write there.
    Use(u64),
    /// The candidate was taken: probe this index next.
    Next(u64),
    /// Every index has been taken.
    Exhausted,
}

/// Whether `n` is the first free index: it is at least one, not taken, and
/// every index from one up to it is taken.
pub open spec fn first_free(taken: Set<nat>, n: nat) -> bool {
    &&& n >= 1
    &&& !taken.contains(n)
    &&& forall|k: nat| 1 <= k < n ==> #[trigger] taken.contains(k)
}

/// The search for an unused file name, probing indices upward from one.
pub struct FileSearch {
    pub index: u64,
    pub taken: Ghost<Set<nat>>,
}

impl FileSearch {
    /// The indices reported taken are exactly those from one to below the
    /// current one.
    pub open spec fn wf(&self) -> bool {
        &&& self.index >= 1
        &&& forall|k: nat| #[trigger] self.taken@.contains(k) <==> 1 <= k < self.index
    }

    /// A search that starts at index one.
    pub fn new() -> (s: FileSearch)
        ensures
            s.wf(),
            s.index == 1,
            s.taken@ == Set::<nat>::empty(),
    {
        FileSearch { index: 1, taken: Ghost(Set::empty()) }
    }

    /// Takes whether the candidate at the current index exists. A free one is
    /// the answer; a taken one moves the search to the next index.
    pub fn on_probe(&mut self, exists: bool) -> (r: Probe)
        requires
            old(self).wf(),
        ensures
            final(self).wf(),
            !exists ==> r == Probe::Use(old(self).index) && final(self).index == old(self).index && final(self).taken@ == old(self).taken@,
            exists && old(self).index < u64::MAX ==> r == Probe::Next((old(self).index + 1) as u64)
                && final(self).index == old(self).index + 1
                && final(self).taken@ == old(self).taken@.insert(old(self).index as nat),
            exists && old(self).index == u64::MAX ==> r == Probe::Exhausted,
            !exists ==> first_free(old(self).taken@, old(self).index as nat),
    {
        if !exists {
            return Probe::Use(self.index);
        }
        if self.index == u64::MAX {
            return Probe::Exhausted;
        }
        self.taken = Ghost(self.taken@.insert(self.index as nat));
        self.index = self.index + 1;
        Probe::Next(self.index)
    }
}

/// Choosing a file name twice never picks the first choice again: once the
/// first chosen index is taken, the next first free index is strictly higher.
pub proof fn lemma_second_choice_is_higher(taken: Set<nat>, first: nat, second: nat)
    requires
        first_free(taken, first),
        first_free(taken.insert(first), second),
    ensures
        second > first,
{
    if second < first {
        assert(taken.contains(second));
    }
}

/// Where the existing numbered files are those from one to `k`, the chosen
/// index is `k + 1`, above every existing one.
pub proof fn lemma_choice_above_existing(taken: Set<nat>, k: nat, chosen: nat)
    requires
        forall|m: nat| m >= 1 ==> (taken.contains(m) <==> m <= k),
        first_free(taken, chosen),
    ensures
        chosen == k + 1,
        forall|m: nat| m >= 1 && #[trigger] taken.contains(m) ==> m < chosen,
{
    if chosen <= k {
        assert(taken.contains(chosen));
    } else if chosen > k + 1 {
        assert(taken.contains((k + 1) as nat));
    }
}

/// With rarity, the line of each record is its name, `:` and its rarity;
/// without, it is the name alone, so it holds no `:` unless the name does.
pub proof fn lemma_line_format(recs: Seq<Seq<Seq<char>>>, with_rarity: bool)
    requires
        all_complete(recs),
    ensures
        lines_of_cube(rows_of_records(recs, with_rarity)).len() == recs.len(),
        forall|i: int| 0 <= i < recs.len() ==> {
            let line = #[trigger] lines_of_cube(rows_of_records(recs, with_rarity))[i];
            let name = recs[i][NAME_COLUMN as int];
            &&& with_rarity ==> line == name + ":"@ + recs[i][RARITY_COLUMN as int]
            &&& !with_rarity ==> line == name
            &&& !with_rarity && !name.contains(':') ==> !line.contains(':')
        },
{
    assert forall|i: int| 0 <= i < recs.len() implies recs[i].len() > NAME_COLUMN by {
        assert(recs[i].len() > NAME_COLUMN);
    }
}

} // verus!
