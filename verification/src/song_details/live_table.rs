//! The performance history of one song, read from the table of its page:
//! two rows make one performance.

use crate::date::chrono_date;
use crate::date::first_reading;
use crate::date::hyphen_format;
use crate::date::parse_date_permissive;
use crate::date::slash_format;
use crate::error::Problem;
use crate::error::ProblemModel;
use crate::error::StructureError;
use crate::error::StructureErrorModel;
use crate::song_details::performance::ConcertName;
use crate::song_details::performance::Date;
use crate::song_details::performance::Kind;
use crate::song_details::performance::Performance;
use crate::song_details::performance::PerformanceModel;
use crate::song_details::performance::Performer;
use crate::song_details::performance::Venue;
use crate::song_list::SongTitle;
use crate::text::trim;
use crate::text::trimmed;
use vstd::prelude::*;
use vstd::string::*;

verus! {

/// One piece of a cell's content: a line break, or a run of text.
#[derive(Debug)]
pub enum Inline {
    Break,
    Text(String),
}

/// An `Inline` with its text as a sequence of characters.
pub ghost enum InlineModel {
    Break,
    Text(Seq<char>),
}

impl View for Inline {
    type V = InlineModel;

    open spec fn view(&self) -> InlineModel {
        match *self {
            Inline::Break => InlineModel::Break,
            Inline::Text(t) => InlineModel::Text(t@),
        }
    }
}

impl DeepView for Inline {
    type V = InlineModel;

    open spec fn deep_view(&self) -> InlineModel {
        self.view()
    }
}

/// A data cell of the detail table: its content piece by piece, and its
/// markup.
#[derive(Debug)]
pub struct DetailCell {
    pub parts: Vec<Inline>,
    pub markup: String,
}

/// A `DetailCell` with its texts as sequences of characters.
pub ghost struct DetailCellModel {
    pub parts: Seq<InlineModel>,
    pub markup: Seq<char>,
}

impl View for DetailCell {
    type V = DetailCellModel;

    open spec fn view(&self) -> DetailCellModel {
        DetailCellModel { parts: self.parts.deep_view(), markup: self.markup@ }
    }
}

impl DeepView for DetailCell {
    type V = DetailCellModel;

    open spec fn deep_view(&self) -> DetailCellModel {
        self.view()
    }
}

/// A row of the detail table: its data cells, all its text, and its markup.
#[derive(Debug)]
pub struct DetailRow {
    pub cells: Vec<DetailCell>,
    pub text: String,
    pub markup: String,
}

/// A `DetailRow` with its texts as sequences of characters.
pub ghost struct DetailRowModel {
    pub cells: Seq<DetailCellModel>,
    pub text: Seq<char>,
    pub markup: Seq<char>,
}

impl View for DetailRow {
    type V = DetailRowModel;

    open spec fn view(&self) -> DetailRowModel {
        DetailRowModel { cells: self.cells.deep_view(), text: self.text@, markup: self.markup@ }
    }
}

impl DeepView for DetailRow {
    type V = DetailRowModel;

    open spec fn deep_view(&self) -> DetailRowModel {
        self.view()
    }
}

/// The number of line breaks among `parts`.
pub open spec fn break_count(parts: Seq<InlineModel>) -> nat
    decreases parts.len(),
{
    if parts.len() == 0 {
        0
    } else {
        break_count(parts.drop_last()) + if parts.last() is Break {
            1nat
        } else {
            0nat
        }
    }
}

/// The position of the first line break among `parts`; their number where
/// there is none.
pub open spec fn break_position(parts: Seq<InlineModel>) -> int
    decreases parts.len(),
{
    if parts.len() == 0 {
        0
    } else {
        let earlier = break_position(parts.drop_last());
        if earlier < parts.len() - 1 || parts.last() is Break {
            earlier
        } else {
            parts.len() as int
        }
    }
}

/// The text of `parts`, run after run; a line break adds nothing.
pub open spec fn parts_text(parts: Seq<InlineModel>) -> Seq<char>
    decreases parts.len(),
{
    if parts.len() == 0 {
        Seq::empty()
    } else {
        parts_text(parts.drop_last()) + match parts.last() {
            InlineModel::Text(t) => t,
            InlineModel::Break => Seq::empty(),
        }
    }
}

/// The two segments of a cell: the text before its one line break and the
/// text after it. A cell with no line break, or with more than one, has no
/// segments but a problem, which names the cell's markup.
pub open spec fn segments_of(cell: DetailCellModel) -> Result<(Seq<char>, Seq<char>), ProblemModel> {
    let breaks = break_count(cell.parts);
    let at = break_position(cell.parts);
    if breaks == 1 {
        Ok((parts_text(cell.parts.take(at)), parts_text(cell.parts.skip(at + 1))))
    } else if breaks == 0 {
        Err(ProblemModel::NoLineBreak { cell: cell.markup })
    } else {
        Err(ProblemModel::ManyLineBreaks { cell: cell.markup })
    }
}

/// The two texts or the problem as the contracts of this module speak of
/// them.
pub open spec fn segments_view(r: Result<(String, String), Problem>) -> Result<
    (Seq<char>, Seq<char>),
    ProblemModel,
> {
    match r {
        Ok((first, second)) => Ok((first@, second@)),
        Err(p) => Err(p@),
    }
}

/// `break_position` is where the first line break stands: nothing before it
/// is a line break, and it is one itself unless there is none at all.
pub proof fn lemma_break_position(parts: Seq<InlineModel>)
    ensures
        0 <= break_position(parts) <= parts.len(),
        forall|i: int| 0 <= i < break_position(parts) ==> !(#[trigger] parts[i] is Break),
        break_position(parts) < parts.len() ==> parts[break_position(parts)] is Break,
        break_position(parts) == parts.len() <==> break_count(parts) == 0,
    decreases parts.len(),
{
    if parts.len() > 0 {
        let earlier = parts.drop_last();
        lemma_break_position(earlier);
        assert forall|i: int| 0 <= i < break_position(parts) implies !(#[trigger] parts[i] is Break) by {
            if i < earlier.len() {
                assert(earlier[i] == parts[i]);
            }
        }
        if break_position(earlier) < earlier.len() {
            assert(earlier[break_position(earlier)] == parts[break_position(earlier)]);
        }
    }
}

/// Splits the content of `cell` at its one line break. This is the one place
/// that knows how a cell packs two values.
pub fn split_at_single_break(cell: &DetailCell) -> (r: Result<(String, String), Problem>)
    ensures
        segments_view(r) == segments_of(cell@),
        r.is_ok() <==> break_count(cell@.parts) == 1,
{
    let mut first = String::new();
    let mut second = String::new();
    let mut breaks: usize = 0;
    let ghost parts = cell@.parts;
    let ghost mut at: int = 0;
    let mut i: usize = 0;
    assert(parts.take(0) =~= Seq::<InlineModel>::empty());
    while i < cell.parts.len()
        invariant
            parts == cell@.parts,
            parts.len() == cell.parts.len(),
            i <= cell.parts.len(),
            breaks <= 1,
            breaks == break_count(parts.take(i as int)),
            at == break_position(parts.take(i as int)),
            breaks == 0 ==> at == i && first@ == parts_text(parts.take(i as int)) && second@
                == Seq::<char>::empty(),
            breaks == 1 ==> 0 <= at < i && first@ == parts_text(parts.take(at)) && second@
                == parts_text(parts.subrange(at + 1, i as int)),
        decreases cell.parts.len() - i,
    {
        let ghost seen = parts.take(i as int);
        let ghost next = parts.take(i + 1);
        proof {
            assert(next.drop_last() =~= seen);
            assert(next.last() == cell.parts[i as int]@);
            if breaks == 1 {
                assert(parts.subrange(at + 1, i + 1).drop_last() =~= parts.subrange(
                    at + 1,
                    i as int,
                ));
                assert(parts.subrange(at + 1, i + 1).last() == next.last());
            }
        }
        match &cell.parts[i] {
            Inline::Break => {
                if breaks == 1 {
                    proof {
                        lemma_break_count_grows(parts, i + 1);
                    }
                    return Err(Problem::ManyLineBreaks { cell: cell.markup.clone() });
                }
                breaks = 1;
                proof {
                    at = i as int;
                    assert(parts.subrange(at + 1, i + 1) =~= Seq::<InlineModel>::empty());
                }
            },
            Inline::Text(t) => {
                if breaks == 0 {
                    first.append(t.as_str());
                    proof {
                        at = i + 1;
                    }
                } else {
                    second.append(t.as_str());
                }
            },
        }
        i = i + 1;
    }
    proof {
        assert(parts.take(i as int) =~= parts);
        assert(parts.subrange(at + 1, i as int) =~= parts.skip(at + 1));
    }
    if breaks == 1 {
        Ok((first, second))
    } else {
        Err(Problem::NoLineBreak { cell: cell.markup.clone() })
    }
}

/// A longer stretch of a cell holds at least as many line breaks.
proof fn lemma_break_count_grows(parts: Seq<InlineModel>, n: int)
    requires
        0 <= n <= parts.len(),
    ensures
        break_count(parts.take(n)) <= break_count(parts),
    decreases parts.len() - n,
{
    if n < parts.len() {
        assert(parts.take(n + 1).drop_last() =~= parts.take(n));
        lemma_break_count_grows(parts, n + 1);
    } else {
        assert(parts.take(n) =~= parts);
    }
}

/// The performers that the text of a pair's second row names. How that text
/// divides into performers is not defined, so none is named.
pub open spec fn performers_of(source: Seq<char>) -> Seq<Seq<char>> {
    Seq::empty()
}

/// The performers of one performance, read from the trimmed text of the
/// pair's second row.
pub fn parse_performers(source: &str) -> (r: Vec<Performer>)
    ensures
        r.deep_view() == performers_of(source@),
{
    let out: Vec<Performer> = Vec::new();
    assert(out.deep_view() =~= Seq::<Seq<char>>::empty());
    out
}

/// The performance that the rows `a` and `b` describe: the first cell of `a`
/// gives the date and the kind, the second the concert and the venue, and
/// the text of `b` the performers. The first thing that is amiss, in that
/// order, is the problem.
pub open spec fn performance_of(a: DetailRowModel, b: DetailRowModel) -> Result<
    PerformanceModel,
    ProblemModel,
> {
    if a.cells.len() < 1 {
        Err(ProblemModel::CellMissing { index: 0 })
    } else {
        match segments_of(a.cells[0]) {
            Err(p) => Err(p),
            Ok((day, kind)) => match first_reading(
                chrono_date(day, slash_format()),
                chrono_date(day, hyphen_format()),
                day,
            ) {
                Err(text) => Err(ProblemModel::InvalidDate { text }),
                Ok(date) => if a.cells.len() < 2 {
                    Err(ProblemModel::CellMissing { index: 1 })
                } else {
                    match segments_of(a.cells[1]) {
                        Err(p) => Err(p),
                        Ok((concert_name, venue)) => Ok(
                            PerformanceModel {
                                date,
                                kind,
                                concert_name,
                                venue,
                                performers: performers_of(trimmed(b.text)),
                            },
                        ),
                    }
                },
            },
        }
    }
}

/// The performance or the problem as the contracts of this module speak of
/// them.
pub open spec fn performance_view(r: Result<Performance, Problem>) -> Result<
    PerformanceModel,
    ProblemModel,
> {
    match r {
        Ok(p) => Ok(p@),
        Err(p) => Err(p@),
    }
}

/// Reads one performance from a pair of rows.
pub fn parse_performance(a: &DetailRow, b: &DetailRow) -> (r: Result<Performance, Problem>)
    ensures
        performance_view(r) == performance_of(a@, b@),
{
    if a.cells.len() < 1 {
        return Err(Problem::CellMissing { index: 0 });
    }
    assert(a@.cells[0] == a.cells[0]@);
    let (day, kind) = match split_at_single_break(&a.cells[0]) {
        Ok(found) => found,
        Err(p) => {
            return Err(p);
        },
    };
    let date = match parse_date_permissive(day.as_str()) {
        Ok(date) => date,
        Err(e) => {
            return Err(Problem::InvalidDate { text: e.text });
        },
    };
    if a.cells.len() < 2 {
        return Err(Problem::CellMissing { index: 1 });
    }
    assert(a@.cells[1] == a.cells[1]@);
    let (concert_name, venue) = match split_at_single_break(&a.cells[1]) {
        Ok(found) => found,
        Err(p) => {
            return Err(p);
        },
    };
    let performers = parse_performers(trim(b.text.as_str()));
    Ok(
        Performance {
            date: Date::new(date),
            kind: Kind::new(kind),
            concert_name: ConcertName::new(concert_name),
            venue: Venue::new(venue),
            performers,
        },
    )
}

/// The error for a pair of rows that has `problem`: it carries the title of
/// the song and the markup of both rows.
pub open spec fn pair_error(
    problem: ProblemModel,
    a: DetailRowModel,
    b: DetailRowModel,
    title: Seq<char>,
) -> StructureErrorModel {
    StructureErrorModel { problem, markup: a.markup + b.markup, song: Some(title) }
}

/// The performances of the rows taken two by two, in order, or the error of
/// the first pair that has a problem. `rows` is of even length.
pub open spec fn paired_performances(rows: Seq<DetailRowModel>, title: Seq<char>) -> Result<
    Seq<PerformanceModel>,
    StructureErrorModel,
>
    decreases rows.len(),
{
    if rows.len() < 2 {
        Ok(Seq::empty())
    } else {
        let a = rows[rows.len() - 2];
        let b = rows[rows.len() - 1];
        match paired_performances(rows.take(rows.len() - 2), title) {
            Err(e) => Err(e),
            Ok(earlier) => match performance_of(a, b) {
                Ok(p) => Ok(earlier.push(p)),
                Err(problem) => Err(pair_error(problem, a, b, title)),
            },
        }
    }
}

/// The performances of a detail table. A table with an odd number of rows
/// is an error whatever its rows hold: the last row is never dropped, and no
/// performance is made of the others. Else the rows pair off in order.
pub open spec fn performances_of(rows: Seq<DetailRowModel>, title: Seq<char>) -> Result<
    Seq<PerformanceModel>,
    StructureErrorModel,
> {
    if rows.len() % 2 == 1 {
        Err(
            StructureErrorModel {
                problem: ProblemModel::UnpairedRow,
                markup: rows.last().markup,
                song: Some(title),
            },
        )
    } else {
        paired_performances(rows, title)
    }
}

/// The performances or the error as the contracts of this module speak of
/// them.
pub open spec fn performances_view(r: Result<Vec<Performance>, StructureError>) -> Result<
    Seq<PerformanceModel>,
    StructureErrorModel,
> {
    match r {
        Ok(found) => Ok(found.deep_view()),
        Err(e) => Err(e@),
    }
}

/// Reads the performances of the song `title` from the rows of its detail
/// table. The first error ends the reading; nothing is returned beside it.
pub fn extract_performances(rows: &Vec<DetailRow>, title: &SongTitle) -> (r: Result<
    Vec<Performance>,
    StructureError,
>)
    ensures
        performances_view(r) == performances_of(rows.deep_view(), title@),
{
    let n = rows.len();
    let ghost all = rows.deep_view();
    if n % 2 == 1 {
        assert(all.last() == rows[n - 1]@);
        return Err(
            StructureError {
                problem: Problem::UnpairedRow,
                markup: rows[n - 1].markup.clone(),
                song: Some(title.to_string()),
            },
        );
    }
    let mut out: Vec<Performance> = Vec::new();
    let mut i: usize = 0;
    assert(all.take(0) =~= Seq::<DetailRowModel>::empty());
    assert(out.deep_view() =~= Seq::<PerformanceModel>::empty());
    while i < n
        invariant
            n == rows.len(),
            all == rows.deep_view(),
            n % 2 == 0,
            i % 2 == 0,
            i <= n,
            paired_performances(all.take(i as int), title@) == Ok::<
                Seq<PerformanceModel>,
                StructureErrorModel,
            >(out.deep_view()),
        decreases n - i,
    {
        let ghost next = all.take(i + 2);
        let ghost before = out.deep_view();
        proof {
            assert(next.take(next.len() - 2) =~= all.take(i as int));
            assert(next[next.len() - 2] == rows[i as int]@);
            assert(next[next.len() - 1] == rows[i + 1]@);
        }
        match parse_performance(&rows[i], &rows[i + 1]) {
            Ok(p) => {
                out.push(p);
                assert(out.deep_view() =~= before.push(p@));
            },
            Err(problem) => {
                let mut markup = rows[i].markup.clone();
                markup.append(rows[i + 1].markup.as_str());
                proof {
                    lemma_error_stays(all, i + 2, title@);
                }
                return Err(StructureError { problem, markup, song: Some(title.to_string()) });
            },
        }
        i = i + 2;
    }
    assert(all.take(i as int) =~= all);
    Ok(out)
}

/// Once a pair has failed, the rows that follow change nothing: the error of
/// the first `n` rows is the error of all of them.
proof fn lemma_error_stays(rows: Seq<DetailRowModel>, n: int, title: Seq<char>)
    requires
        0 <= n <= rows.len(),
        n % 2 == 0,
        rows.len() % 2 == 0,
        paired_performances(rows.take(n), title) is Err,
    ensures
        paired_performances(rows, title) == paired_performances(rows.take(n), title),
    decreases rows.len() - n,
{
    if n < rows.len() {
        let shorter = rows.take(rows.len() - 2);
        assert(shorter.take(n) =~= rows.take(n));
        lemma_error_stays(shorter, n, title);
    } else {
        assert(rows.take(n) =~= rows);
    }
}

/// A table with an odd number of rows fails, whatever its rows hold, and
/// the error tells that its last row has no partner.
pub proof fn lemma_odd_table_fails(rows: Seq<DetailRowModel>, title: Seq<char>)
    requires
        rows.len() % 2 == 1,
    ensures
        performances_of(rows, title) matches Err(e) && e.problem == ProblemModel::UnpairedRow,
{
}

/// A table that is read without error gives one performance for every two
/// rows.
pub proof fn lemma_performance_count(rows: Seq<DetailRowModel>, title: Seq<char>)
    ensures
        performances_of(rows, title) matches Ok(found) ==> 2 * found.len() == rows.len(),
    decreases rows.len(),
{
    if rows.len() % 2 == 0 {
        lemma_paired_count(rows, title);
    }
}

proof fn lemma_paired_count(rows: Seq<DetailRowModel>, title: Seq<char>)
    requires
        rows.len() % 2 == 0,
    ensures
        paired_performances(rows, title) matches Ok(found) ==> 2 * found.len() == rows.len(),
    decreases rows.len(),
{
    if rows.len() >= 2 {
        lemma_paired_count(rows.take(rows.len() - 2), title);
    }
}

/// The performances come in the order of the row pairs: in a table that
/// is read without error, the performance at position `i` is the one of the
/// rows at `2 * i` and `2 * i + 1`.
pub proof fn lemma_performance_at(rows: Seq<DetailRowModel>, title: Seq<char>, i: int)
    requires
        performances_of(rows, title) is Ok,
        0 <= i < performances_of(rows, title)->Ok_0.len(),
    ensures
        2 * i + 1 < rows.len(),
        performance_of(rows[2 * i], rows[2 * i + 1]) == Ok::<PerformanceModel, ProblemModel>(
            performances_of(rows, title)->Ok_0[i],
        ),
    decreases rows.len(),
{
    lemma_paired_count(rows, title);
    let shorter = rows.take(rows.len() - 2);
    lemma_paired_count(shorter, title);
    let earlier = paired_performances(shorter, title)->Ok_0;
    if i < earlier.len() {
        lemma_performance_at(shorter, title, i);
        assert(shorter[2 * i] == rows[2 * i]);
        assert(shorter[2 * i + 1] == rows[2 * i + 1]);
    }
}

/// Pieces without a line break count none, and their first line break
/// stands behind them all.
proof fn lemma_texts_hold_no_break(parts: Seq<InlineModel>)
    requires
        forall|i: int| 0 <= i < parts.len() ==> !(#[trigger] parts[i] is Break),
    ensures
        break_count(parts) == 0,
        break_position(parts) == parts.len(),
    decreases parts.len(),
{
    if parts.len() > 0 {
        let front = parts.drop_last();
        assert forall|i: int| 0 <= i < front.len() implies !(#[trigger] front[i] is Break) by {
            assert(front[i] == parts[i]);
        }
        lemma_texts_hold_no_break(front);
        assert(!(parts[parts.len() - 1] is Break));
    }
}

/// The line breaks of two runs of pieces in a row are those of the two.
proof fn lemma_break_count_concat(a: Seq<InlineModel>, b: Seq<InlineModel>)
    ensures
        break_count(a + b) == break_count(a) + break_count(b),
    decreases b.len(),
{
    if b.len() == 0 {
        assert(a + b =~= a);
    } else {
        assert((a + b).drop_last() =~= a + b.drop_last());
        assert((a + b).last() == b.last());
        lemma_break_count_concat(a, b.drop_last());
    }
}

/// A cell splits if and only if it holds exactly one line break. Without
/// one, and with two or more, the problem names the cell's markup.
pub proof fn lemma_split_needs_one_break(cell: DetailCellModel)
    ensures
        segments_of(cell) is Ok <==> break_count(cell.parts) == 1,
        break_count(cell.parts) == 0 ==> segments_of(cell) == Err::<
            (Seq<char>, Seq<char>),
            ProblemModel,
        >(ProblemModel::NoLineBreak { cell: cell.markup }),
        break_count(cell.parts) >= 2 ==> segments_of(cell) == Err::<
            (Seq<char>, Seq<char>),
            ProblemModel,
        >(ProblemModel::ManyLineBreaks { cell: cell.markup }),
{
}

/// A cell whose content is `before`, one line break and `behind`, with no
/// other line break, splits into the text of `before` and the text of
/// `behind`, in that order.
pub proof fn lemma_split_keeps_order(
    before: Seq<InlineModel>,
    behind: Seq<InlineModel>,
    markup: Seq<char>,
)
    requires
        forall|i: int| 0 <= i < before.len() ==> !(#[trigger] before[i] is Break),
        forall|i: int| 0 <= i < behind.len() ==> !(#[trigger] behind[i] is Break),
    ensures
        segments_of(
            DetailCellModel { parts: before + seq![InlineModel::Break] + behind, markup },
        ) == Ok::<(Seq<char>, Seq<char>), ProblemModel>((parts_text(before), parts_text(behind))),
{
    let one = seq![InlineModel::Break];
    let parts = before + one + behind;
    lemma_texts_hold_no_break(before);
    lemma_texts_hold_no_break(behind);
    lemma_break_count_concat(before + one, behind);
    lemma_break_count_concat(before, one);
    assert(one.drop_last() =~= Seq::<InlineModel>::empty());
    assert(break_count(Seq::<InlineModel>::empty()) == 0);
    assert(break_count(one) == 1);
    lemma_break_position(parts);
    let at = break_position(parts);
    assert(at == before.len()) by {
        assert(parts[before.len() as int] is Break);
        if at < before.len() {
            assert(parts[at] == before[at]);
        }
    }
    assert(parts.take(at) =~= before);
    assert(parts.skip(at + 1) =~= behind);
}

} // verus!
