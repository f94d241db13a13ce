//! The vocabulary of a report plan as nodes configure it: ids and the
//! small descriptions of coordinates, selections and measures. These carry
//! ids only; every name is resolved before a value of them exists.
use vstd::prelude::*;

verus! {

/// A published source.
#[derive(Debug, PartialEq, Eq, Structural, Clone, Copy)]
pub struct SourceId(pub u32);

/// A source at one generation.
#[derive(Debug, PartialEq, Eq, Structural, Clone, Copy)]
pub struct SourceRef {
    pub id: SourceId,
    pub generation: u32,
}

/// A field of a source.
#[derive(Debug, PartialEq, Eq, Structural, Clone, Copy)]
pub struct FieldId(pub u32);

/// A stored row mask.
#[derive(Debug, PartialEq, Eq, Structural, Clone, Copy)]
pub struct MaskId(pub u32);

/// The role of a coordinate in a view.
#[derive(Debug, PartialEq, Eq, Structural, Clone, Copy)]
pub enum AxisRole {
    Row,
    Column,
    Page,
}

/// A comparison of a field with a literal.
#[derive(Debug, PartialEq, Eq, Structural, Clone, Copy)]
pub enum CmpOp {
    Eq,
    Ne,
    Lt,
    Le,
    Gt,
    Ge,
}

/// A literal: a signed value, or the ordinal of a label.
#[derive(Debug, PartialEq, Eq, Structural, Clone, Copy)]
pub enum Scalar {
    Int(i64),
    Ordinal(u32),
}

/// A coordinate: a field, or a field bucketed into `count` buckets of
/// `width` from `origin`.
#[derive(Debug, PartialEq, Eq, Structural, Clone, Copy)]
pub enum CoordSpec {
    Field(FieldId),
    Bucket { field: FieldId, origin: i64, width: i64, count: u32 },
}

/// A half-open range of rows.
#[derive(Debug, PartialEq, Eq, Structural, Clone, Copy)]
pub struct RowRange {
    pub lo: u32,
    pub hi: u32,
}

/// A row selection.
#[derive(Debug)]
pub enum Selection {
    /// Every row.
    All,
    /// A range of rows.
    Range(RowRange),
    /// A stored mask.
    Mask(MaskId),
    /// Rows whose field is one of the values.
    In { field: FieldId, values: Vec<Scalar> },
    /// Rows whose field compares so with the value.
    Cmp { field: FieldId, op: CmpOp, value: Scalar },
    /// Rows of the first selection that are not in the second.
    AndNot(Box<Selection>, Box<Selection>),
}

/// What a measure folds.
#[derive(Debug, PartialEq, Eq, Structural, Clone, Copy)]
pub enum MeasureKind {
    Sum,
    Min,
    Max,
    Mean,
}

/// A measure: a row count, or a fold of a field.
#[derive(Debug, PartialEq, Eq, Structural, Clone, Copy)]
pub enum Measure {
    Count,
    Of(MeasureKind, FieldId),
}

/// The ordering of a result's rows by one of its measures, keeping `k`.
#[derive(Debug, PartialEq, Eq, Structural, Clone, Copy)]
pub struct TopK {
    pub measure: usize,
    pub k: usize,
    pub descending: bool,
}

} // verus!

verus! {

/// The mathematical form of a selection.
pub enum SelectionView {
    All,
    Range(RowRange),
    Mask(MaskId),
    In { field: FieldId, values: Seq<Scalar> },
    Cmp { field: FieldId, op: CmpOp, value: Scalar },
    AndNot(Box<SelectionView>, Box<SelectionView>),
}

impl Selection {
    /// The mathematical form of the selection.
    pub open spec fn view(&self) -> SelectionView
        decreases self,
    {
        match self {
            Selection::All => SelectionView::All,
            Selection::Range(r) => SelectionView::Range(*r),
            Selection::Mask(m) => SelectionView::Mask(*m),
            Selection::In { field, values } => SelectionView::In { field: *field, values: values@ },
            Selection::Cmp { field, op, value } => SelectionView::Cmp {
                field: *field,
                op: *op,
                value: *value,
            },
            Selection::AndNot(a, b) => SelectionView::AndNot(
                Box::new((**a).view()),
                Box::new((**b).view()),
            ),
        }
    }
}

} // verus!
