//! What can go wrong while a table is read.

use vstd::prelude::*;

verus! {

/// The way in which a table departs from the shape that is expected of it.
#[derive(Debug)]
pub enum Problem {
    /// A row of the song list holds neither one data cell nor five. `cells`
    /// holds the markup of each cell that was found.
    CellCount { found: usize, cells: Vec<String> },
    /// The title cell holds no link.
    LinkMissing,
    /// The link of the title cell has no `href`.
    HrefMissing,
    /// The `href` of the link does not start with `/`.
    HrefNotRelative { href: String },
    /// A date text that is a date in neither accepted format.
    InvalidDate { text: String },
    /// The detail table ends with a row that has no partner.
    UnpairedRow,
    /// The first row of a pair lacks the cell at `index`.
    CellMissing { index: usize },
    /// A cell that should hold two segments holds no line break. `cell` is
    /// the markup of the cell.
    NoLineBreak { cell: String },
    /// A cell that should hold two segments holds two line breaks or more.
    /// `cell` is the markup of the cell.
    ManyLineBreaks { cell: String },
}

/// A `Problem` with its texts as sequences of characters.
pub ghost enum ProblemModel {
    CellCount { found: usize, cells: Seq<Seq<char>> },
    LinkMissing,
    HrefMissing,
    HrefNotRelative { href: Seq<char> },
    InvalidDate { text: Seq<char> },
    UnpairedRow,
    CellMissing { index: usize },
    NoLineBreak { cell: Seq<char> },
    ManyLineBreaks { cell: Seq<char> },
}

impl View for Problem {
    type V = ProblemModel;

    open spec fn view(&self) -> ProblemModel {
        match *self {
            Problem::CellCount { found, cells } => ProblemModel::CellCount {
                found,
                cells: cells.deep_view(),
            },
            Problem::LinkMissing => ProblemModel::LinkMissing,
            Problem::HrefMissing => ProblemModel::HrefMissing,
            Problem::HrefNotRelative { href } => ProblemModel::HrefNotRelative { href: href@ },
            Problem::InvalidDate { text } => ProblemModel::InvalidDate { text: text@ },
            Problem::UnpairedRow => ProblemModel::UnpairedRow,
            Problem::CellMissing { index } => ProblemModel::CellMissing { index },
            Problem::NoLineBreak { cell } => ProblemModel::NoLineBreak { cell: cell@ },
            Problem::ManyLineBreaks { cell } => ProblemModel::ManyLineBreaks { cell: cell@ },
        }
    }
}

/// A table that has not the expected shape. Nothing is made of such a table:
/// the error stands for the whole extraction.
#[derive(Debug)]
pub struct StructureError {
    /// What is wrong.
    pub problem: Problem,
    /// The markup in which it was found, as the page has it.
    pub markup: String,
    /// The title of the song whose page was read, where one was.
    pub song: Option<String>,
}

/// A `StructureError` with its texts as sequences of characters.
pub ghost struct StructureErrorModel {
    pub problem: ProblemModel,
    pub markup: Seq<char>,
    pub song: Option<Seq<char>>,
}

impl View for StructureError {
    type V = StructureErrorModel;

    open spec fn view(&self) -> StructureErrorModel {
        StructureErrorModel {
            problem: self.problem@,
            markup: self.markup@,
            song: match self.song {
                Some(title) => Some(title@),
                None => None,
            },
        }
    }
}

/// A page title whose percent escapes do not spell UTF-8 text.
#[derive(Debug)]
pub struct DecodeError {
    /// The title as it was handed in.
    pub title: String,
}

impl View for DecodeError {
    type V = Seq<char>;

    open spec fn view(&self) -> Seq<char> {
        self.title@
    }
}

} // verus!
