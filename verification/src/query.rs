//! The kinds of query and the shape of what each one answers.

use vstd::prelude::*;

verus! {

/// The clause that makes a query what it is. The manager never reads the
/// query text: the caller says which kind of query it sends.
#[derive(Clone, Copy, Debug, PartialEq, Eq, Structural)]
pub enum QueryKind {
    Define,
    Undefine,
    Insert,
    Delete,
    Update,
    Match,
    Fetch,
    Aggregate,
}

/// The four shapes an answer can have.
#[derive(Clone, Copy, Debug, PartialEq, Eq, Structural)]
pub enum ResponseShape {
    /// Nothing but the news that the query was carried out.
    Done,
    /// A stream of rows, each binding variables to concepts.
    Rows,
    /// A stream of documents.
    Documents,
    /// A single value, or none.
    Scalar,
}

impl QueryKind {
    /// A query writes when it changes the schema or the data.
    pub open spec fn writes(self) -> bool {
        self is Define || self is Undefine || self is Insert || self is Delete || self is Update
    }

    /// The shape of the answer to each kind of query.
    pub open spec fn shape_of(self) -> ResponseShape {
        match self {
            QueryKind::Define | QueryKind::Undefine => ResponseShape::Done,
            QueryKind::Insert | QueryKind::Delete | QueryKind::Update | QueryKind::Match => ResponseShape::Rows,
            QueryKind::Fetch => ResponseShape::Documents,
            QueryKind::Aggregate => ResponseShape::Scalar,
        }
    }

    pub fn is_write(&self) -> (r: bool)
        ensures
            r == self.writes(),
    {
        match self {
            QueryKind::Define
            | QueryKind::Undefine
            | QueryKind::Insert
            | QueryKind::Delete
            | QueryKind::Update => true,
            QueryKind::Match | QueryKind::Fetch | QueryKind::Aggregate => false,
        }
    }

    pub fn shape(&self) -> (r: ResponseShape)
        ensures
            r == self.shape_of(),
    {
        match self {
            QueryKind::Define | QueryKind::Undefine => ResponseShape::Done,
            QueryKind::Insert | QueryKind::Delete | QueryKind::Update | QueryKind::Match => ResponseShape::Rows,
            QueryKind::Fetch => ResponseShape::Documents,
            QueryKind::Aggregate => ResponseShape::Scalar,
        }
    }
}

} // verus!
