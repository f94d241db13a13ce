//! The lance node set. Every node but `lance-materialize` maps an envelope
//! to an envelope; configuration (names, labels) is resolved to ids once,
//! when the node is configured.
//!
//! | node type | on a plan handle | on a result handle |
//! |---|---|---|
//! | `lance-source` | (emits a fresh plan over the named source) | |
//! | `lance-filter` | AND a selection | refused |
//! | `lance-axis` | add / re-role one coordinate | refused |
//! | `lance-measure` | add a measure | refused |
//! | `lance-pivot` | rewrite roles | re-view the same cells |
//! | `lance-top-k` | set result ordering | re-view with the ordering |
//! | `lance-execute` | fold (or reuse a cached fold) into a result | refused |
//! | `lance-materialize` | refused | the data-export terminal: JSON / CSV |
use vstd::prelude::*;
use crate::envelope::{Envelope, Role, envelope_of, bad_envelope_message};
use crate::json::{Json, text_member, unsigned_member, signed_member, bool_member, text_of,
    unsigned_of, signed_of, bool_of};
use crate::plan::{AxisRole, CmpOp, CoordSpec, FieldId, MaskId, Measure, MeasureKind, RowRange, Scalar, Selection, SelectionView, SourceId, SourceRef, TopK};
use crate::boundary::ordinal_in;
use crate::handles::{LanceRegistry, unknown_source_name_message, opened, rewritten, reviewed,
    executed, resolution, generations, no_result_message};
use vstd::laws_eq::obeys_concrete_eq;
use crate::error::Z8Error;
use crate::text::{concat2, concat3, decimal, decimal_text, str_eq};

verus! {

/// The plain form of an outcome of a copyable value.
pub open spec fn plain<T>(r: Result<T, Z8Error>) -> Result<T, Seq<char>> {
    match r {
        Ok(v) => Ok(v),
        Err(e) => Err(e.message()),
    }
}

/// Builds an error with the given message.
fn fail(m: String) -> (e: Z8Error)
    ensures
        e.message() == m@,
{
    Z8Error::Internal(m)
}

pub open spec fn unknown_field_message(name: Seq<char>) -> Seq<char> {
    "unknown lance field '"@ + name + "'"@
}

/// The field a name resolves to through the catalog.
pub open spec fn field_spec(cat: Map<Seq<char>, FieldId>, name: Seq<char>) -> Result<FieldId, Seq<char>> {
    if cat.contains_key(name) {
        Ok(cat[name])
    } else {
        Err(unknown_field_message(name))
    }
}

/// The field named by the text under `key`.
pub open spec fn field_of_spec(cat: Map<Seq<char>, FieldId>, cfg: Json, key: Seq<char>) -> Result<
    FieldId,
    Seq<char>,
> {
    match text_member(cfg, key) {
        None => Err("missing '"@ + key + "'"@),
        Some(name) => field_spec(cat, name),
    }
}

pub open spec fn bucket_needs(k: Seq<char>) -> Seq<char> {
    "bucket needs '"@ + k + "'"@
}

/// A coordinate: a field name, or `{field, bucket?}` where a bucket has an
/// origin, a width and a count, all integers, the count within 32 bits.
pub open spec fn coord_spec(cat: Map<Seq<char>, FieldId>, v: Json) -> Result<CoordSpec, Seq<char>> {
    match v {
        Json::String(name) => match field_spec(cat, name@) {
            Ok(f) => Ok(CoordSpec::Field(f)),
            Err(m) => Err(m),
        },
        Json::Object(_) => match field_of_spec(cat, v, "field"@) {
            Err(m) => Err(m),
            Ok(field) => match v.member("bucket"@) {
                None => Ok(CoordSpec::Field(field)),
                Some(b) => match signed_member(b, "origin"@) {
                    None => Err(bucket_needs("origin"@)),
                    Some(origin) => match signed_member(b, "width"@) {
                        None => Err(bucket_needs("width"@)),
                        Some(width) => match signed_member(b, "count"@) {
                            None => Err(bucket_needs("count"@)),
                            Some(count) => if 0 <= count <= u32::MAX {
                                Ok(CoordSpec::Bucket { field, origin, width, count: count as u32 })
                            } else {
                                Err("bucket count"@)
                            },
                        },
                    },
                },
            },
        },
        _ => Err("a coordinate is a field name or {field, bucket?}"@),
    }
}

/// The coordinates of a list, or the first error among them.
pub open spec fn coord_list_spec(cat: Map<Seq<char>, FieldId>, s: Seq<Json>) -> Result<
    Seq<CoordSpec>,
    Seq<char>,
>
    decreases s.len(),
{
    if s.len() == 0 {
        Ok(Seq::empty())
    } else {
        match coord_spec(cat, s[0]) {
            Err(m) => Err(m),
            Ok(c) => match coord_list_spec(cat, s.drop_first()) {
                Err(m) => Err(m),
                Ok(rest) => Ok(seq![c] + rest),
            },
        }
    }
}

/// The coordinates listed under `key`; none when there is no list.
pub open spec fn coords_spec(cat: Map<Seq<char>, FieldId>, cfg: Json, key: Seq<char>) -> Result<
    Seq<CoordSpec>,
    Seq<char>,
> {
    match cfg.member(key) {
        Some(Json::Array(a)) => coord_list_spec(cat, a@),
        _ => Ok(Seq::empty()),
    }
}

/// The text a field id is shown by in messages.
pub open spec fn field_text(f: FieldId) -> Seq<char> {
    decimal_text(f.0 as nat)
}

/// A literal of `field`: a label (by its ordinal in the codebook) or a
/// signed integer.
pub open spec fn scalar_spec(cam: Map<u32, Map<Seq<char>, u32>>, field: FieldId, v: Json) -> Result<
    Scalar,
    Seq<char>,
> {
    match v.text() {
        Some(l) => match ordinal_in(cam, field, l) {
            Some(o) => Ok(Scalar::Ordinal(o)),
            None => Err("label '"@ + l + "' has no ordinal in "@ + field_text(field)),
        },
        None => match v.signed() {
            Some(i) => Ok(Scalar::Int(i)),
            None => Err("literal must be int or label"@),
        },
    }
}

/// Resolves node configuration against a registry's catalog, codebook and
/// source names.
pub struct Resolver<'a, B, P, R, K> {
    pub reg: &'a LanceRegistry<B, P, R, K>,
}

impl<'a, B, P, R, K> Resolver<'a, B, P, R, K> {
    /// The field a name resolves to.
    pub fn field(&self, name: &str) -> (r: Result<FieldId, Z8Error>)
        ensures
            plain(r) == field_spec(self.reg.fields(), name@),
    {
        match self.reg.catalog().field(name) {
            Some(f) => Ok(f),
            None => Err(fail(concat3("unknown lance field '", name, "'"))),
        }
    }

    /// The field named under `key` of `cfg`.
    pub fn field_of(&self, cfg: &Json, key: &str) -> (r: Result<FieldId, Z8Error>)
        ensures
            plain(r) == field_of_spec(self.reg.fields(), *cfg, key@),
    {
        match text_of(cfg, key) {
            None => Err(fail(concat3("missing '", key, "'"))),
            Some(name) => self.field(name),
        }
    }

    /// A coordinate.
    pub fn coord(&self, v: &Json) -> (r: Result<CoordSpec, Z8Error>)
        ensures
            plain(r) == coord_spec(self.reg.fields(), *v),
    {
        match v {
            Json::String(name) => match self.field(name.as_str()) {
                Ok(f) => Ok(CoordSpec::Field(f)),
                Err(e) => Err(e),
            },
            Json::Object(_) => {
                let field = match self.field_of(v, "field") {
                    Ok(f) => f,
                    Err(e) => return Err(e),
                };
                match v.get("bucket") {
                    None => Ok(CoordSpec::Field(field)),
                    Some(b) => {
                        let origin = match signed_of(b, "origin") {
                            Some(x) => x,
                            None => return Err(fail(concat3("bucket needs '", "origin", "'"))),
                        };
                        let width = match signed_of(b, "width") {
                            Some(x) => x,
                            None => return Err(fail(concat3("bucket needs '", "width", "'"))),
                        };
                        let count = match signed_of(b, "count") {
                            Some(x) => x,
                            None => return Err(fail(concat3("bucket needs '", "count", "'"))),
                        };
                        if count < 0 || count > 0xffff_ffffi64 {
                            return Err(fail(String::from_str("bucket count")));
                        }
                        Ok(CoordSpec::Bucket { field, origin, width, count: count as u32 })
                    },
                }
            },
            _ => Err(fail(String::from_str("a coordinate is a field name or {field, bucket?}"))),
        }
    }

    /// The coordinates of a list, stopping at the first that fails.
    pub fn coord_list(&self, items: &Vec<Json>) -> (r: Result<Vec<CoordSpec>, Z8Error>)
        ensures
            match (r, coord_list_spec(self.reg.fields(), items@)) {
                (Ok(v), Ok(s)) => v@ == s,
                (Err(e), Err(m)) => e.message() == m,
                _ => false,
            },
    {
        let ghost cat = self.reg.fields();
        let ghost all = items@;
        let n = items.len();
        let mut out: Vec<CoordSpec> = Vec::new();
        let mut i: usize = 0;
        assert(all.skip(0) =~= all);
        while i < n
            invariant
                n == all.len(),
                all == items@,
                cat == self.reg.fields(),
                i <= n,
                coord_list_spec(cat, all) == match coord_list_spec(cat, all.skip(i as int)) {
                    Ok(rest) => Ok(out@ + rest),
                    Err(m) => Err(m),
                },
            decreases n - i,
        {
            assert(all.skip(i as int).drop_first() =~= all.skip(i + 1));
            assert(all.skip(i as int)[0] == all[i as int]);
            let c = match self.coord(&items[i]) {
                Ok(c) => c,
                Err(e) => return Err(e),
            };
            proof {
                match coord_list_spec(cat, all.skip(i + 1)) {
                    Ok(rest) => {
                        assert(out@ + (seq![c] + rest) =~= out@.push(c) + rest);
                    },
                    Err(_) => {},
                }
            }
            out.push(c);
            i = i + 1;
        }
        assert(out@ + Seq::<CoordSpec>::empty() =~= out@);
        Ok(out)
    }

    /// The coordinates listed under `key`.
    pub fn coords(&self, cfg: &Json, key: &str) -> (r: Result<Vec<CoordSpec>, Z8Error>)
        ensures
            match (r, coords_spec(self.reg.fields(), *cfg, key@)) {
                (Ok(v), Ok(s)) => v@ == s,
                (Err(e), Err(m)) => e.message() == m,
                _ => false,
            },
    {
        match cfg.get(key) {
            Some(v) => match v.as_array() {
                Some(a) => self.coord_list(a),
                None => Ok(Vec::new()),
            },
            None => Ok(Vec::new()),
        }
    }

    /// A literal of `field`: a label (resolved through the codebook now)
    /// or a signed integer.
    pub fn scalar(&self, field: FieldId, v: &Json) -> (r: Result<Scalar, Z8Error>)
        ensures
            plain(r) == scalar_spec(self.reg.labels(), field, *v),
    {
        match v.as_str() {
            Some(l) => match self.reg.cam().ordinal(field, l) {
                Some(o) => Ok(Scalar::Ordinal(o)),
                None => {
                    let mut m = concat3("label '", l, "' has no ordinal in ");
                    let f = decimal(field.0 as u64);
                    m.append(f.as_str());
                    Err(fail(m))
                },
            },
            None => match v.as_i64() {
                Some(i) => Ok(Scalar::Int(i)),
                None => Err(fail(String::from_str("literal must be int or label"))),
            },
        }
    }
}

} // verus!

verus! {

/// The literals of a list, or the first error among them.
pub open spec fn scalar_list_spec(cam: Map<u32, Map<Seq<char>, u32>>, field: FieldId, s: Seq<Json>) -> Result<
    Seq<Scalar>,
    Seq<char>,
>
    decreases s.len(),
{
    if s.len() == 0 {
        Ok(Seq::empty())
    } else {
        match scalar_spec(cam, field, s[0]) {
            Err(m) => Err(m),
            Ok(c) => match scalar_list_spec(cam, field, s.drop_first()) {
                Err(m) => Err(m),
                Ok(rest) => Ok(seq![c] + rest),
            },
        }
    }
}

/// The non-negative integer under `key`, when it fits in 32 bits.
pub open spec fn u32_member(v: Json, key: Seq<char>) -> Option<u32> {
    match unsigned_member(v, key) {
        Some(n) => if n <= u32::MAX {
            Some(n as u32)
        } else {
            None
        },
        None => None,
    }
}

/// The comparison a filter op names.
pub open spec fn cmp_op_of(t: Seq<char>) -> Option<CmpOp> {
    if t == "eq"@ {
        Some(CmpOp::Eq)
    } else if t == "ne"@ {
        Some(CmpOp::Ne)
    } else if t == "lt"@ {
        Some(CmpOp::Lt)
    } else if t == "le"@ {
        Some(CmpOp::Le)
    } else if t == "gt"@ {
        Some(CmpOp::Gt)
    } else if t == "ge"@ {
        Some(CmpOp::Ge)
    } else {
        None
    }
}

pub open spec fn range_needs(k: Seq<char>) -> Seq<char> {
    "range needs '"@ + k + "'"@
}

/// The op of a filter: the text under `op`, `eq` when there is none.
pub open spec fn filter_op(cfg: Json) -> Seq<char> {
    match text_member(cfg, "op"@) {
        Some(t) => t,
        None => "eq"@,
    }
}

/// The selection a filter's op describes, before negation.
pub open spec fn base_selection_spec(
    cat: Map<Seq<char>, FieldId>,
    cam: Map<u32, Map<Seq<char>, u32>>,
    cfg: Json,
) -> Result<SelectionView, Seq<char>> {
    let op = filter_op(cfg);
    if op == "range"@ {
        match u32_member(cfg, "lo"@) {
            None => Err(range_needs("lo"@)),
            Some(lo) => match u32_member(cfg, "hi"@) {
                None => Err(range_needs("hi"@)),
                Some(hi) => Ok(SelectionView::Range(RowRange { lo, hi })),
            },
        }
    } else if op == "mask"@ {
        match u32_member(cfg, "mask"@) {
            None => Err("mask needs an id"@),
            Some(m) => Ok(SelectionView::Mask(MaskId(m))),
        }
    } else if op == "in"@ {
        match field_of_spec(cat, cfg, "field"@) {
            Err(m) => Err(m),
            Ok(field) => match cfg.member("values"@) {
                Some(Json::Array(a)) => match scalar_list_spec(cam, field, a@) {
                    Ok(values) => Ok(SelectionView::In { field, values }),
                    Err(m) => Err(m),
                },
                _ => Err("'in' needs 'values'"@),
            },
        }
    } else {
        match field_of_spec(cat, cfg, "field"@) {
            Err(m) => Err(m),
            Ok(field) => match cmp_op_of(op) {
                None => Err("unknown filter op '"@ + op + "'"@),
                Some(o) => match cfg.member("value"@) {
                    None => Err("filter needs 'value'"@),
                    Some(v) => match scalar_spec(cam, field, v) {
                        Err(m) => Err(m),
                        Ok(value) => Ok(SelectionView::Cmp { field, op: o, value }),
                    },
                },
            },
        }
    }
}

/// The selection a filter configures: its op's selection, negated when
/// `not` is true.
pub open spec fn selection_spec(
    cat: Map<Seq<char>, FieldId>,
    cam: Map<u32, Map<Seq<char>, u32>>,
    cfg: Json,
) -> Result<SelectionView, Seq<char>> {
    match base_selection_spec(cat, cam, cfg) {
        Err(m) => Err(m),
        Ok(s) => if bool_member(cfg, "not"@) == Some(true) {
            Ok(SelectionView::AndNot(Box::new(SelectionView::All), Box::new(s)))
        } else {
            Ok(s)
        },
    }
}

/// The outcome of building a selection agrees with its description.
pub open spec fn selection_agrees(r: Result<Selection, Z8Error>, s: Result<SelectionView, Seq<char>>) -> bool {
    match (r, s) {
        (Ok(x), Ok(v)) => x.view() == v,
        (Err(e), Err(m)) => e.message() == m,
        _ => false,
    }
}

fn u32_of(cfg: &Json, key: &str) -> (r: Option<u32>)
    ensures
        r == u32_member(*cfg, key@),
{
    match unsigned_of(cfg, key) {
        Some(n) => if n <= 0xffff_ffffu64 {
            Some(n as u32)
        } else {
            None
        },
        None => None,
    }
}

fn cmp_op(t: &str) -> (r: Option<CmpOp>)
    ensures
        r == cmp_op_of(t@),
{
    if str_eq(t, "eq") {
        Some(CmpOp::Eq)
    } else if str_eq(t, "ne") {
        Some(CmpOp::Ne)
    } else if str_eq(t, "lt") {
        Some(CmpOp::Lt)
    } else if str_eq(t, "le") {
        Some(CmpOp::Le)
    } else if str_eq(t, "gt") {
        Some(CmpOp::Gt)
    } else if str_eq(t, "ge") {
        Some(CmpOp::Ge)
    } else {
        None
    }
}

impl<'a, B, P, R, K> Resolver<'a, B, P, R, K> {
    /// The literals of a list, stopping at the first that fails.
    pub fn scalar_list(&self, field: FieldId, items: &Vec<Json>) -> (r: Result<Vec<Scalar>, Z8Error>)
        ensures
            match (r, scalar_list_spec(self.reg.labels(), field, items@)) {
                (Ok(v), Ok(s)) => v@ == s,
                (Err(e), Err(m)) => e.message() == m,
                _ => false,
            },
    {
        let ghost cam = self.reg.labels();
        let ghost all = items@;
        let n = items.len();
        let mut out: Vec<Scalar> = Vec::new();
        let mut i: usize = 0;
        assert(all.skip(0) =~= all);
        while i < n
            invariant
                n == all.len(),
                all == items@,
                cam == self.reg.labels(),
                i <= n,
                scalar_list_spec(cam, field, all) == match scalar_list_spec(cam, field, all.skip(i as int)) {
                    Ok(rest) => Ok(out@ + rest),
                    Err(m) => Err(m),
                },
            decreases n - i,
        {
            assert(all.skip(i as int).drop_first() =~= all.skip(i + 1));
            assert(all.skip(i as int)[0] == all[i as int]);
            let c = match self.scalar(field, &items[i]) {
                Ok(c) => c,
                Err(e) => return Err(e),
            };
            proof {
                match scalar_list_spec(cam, field, all.skip(i + 1)) {
                    Ok(rest) => {
                        assert(out@ + (seq![c] + rest) =~= out@.push(c) + rest);
                    },
                    Err(_) => {},
                }
            }
            out.push(c);
            i = i + 1;
        }
        assert(out@ + Seq::<Scalar>::empty() =~= out@);
        Ok(out)
    }

    fn base_selection(&self, cfg: &Json) -> (r: Result<Selection, Z8Error>)
        ensures
            selection_agrees(r, base_selection_spec(self.reg.fields(), self.reg.labels(), *cfg)),
    {
        let op = match text_of(cfg, "op") {
            Some(t) => t,
            None => "eq",
        };
        assert(op@ == filter_op(*cfg));
        if str_eq(op, "range") {
            let lo = match u32_of(cfg, "lo") {
                Some(x) => x,
                None => return Err(fail(concat3("range needs '", "lo", "'"))),
            };
            let hi = match u32_of(cfg, "hi") {
                Some(x) => x,
                None => return Err(fail(concat3("range needs '", "hi", "'"))),
            };
            Ok(Selection::Range(RowRange { lo, hi }))
        } else if str_eq(op, "mask") {
            match u32_of(cfg, "mask") {
                Some(m) => Ok(Selection::Mask(MaskId(m))),
                None => Err(fail(String::from_str("mask needs an id"))),
            }
        } else if str_eq(op, "in") {
            let field = match self.field_of(cfg, "field") {
                Ok(f) => f,
                Err(e) => return Err(e),
            };
            let values = match cfg.get("values") {
                Some(v) => match v.as_array() {
                    Some(a) => a,
                    None => return Err(fail(String::from_str("'in' needs 'values'"))),
                },
                None => return Err(fail(String::from_str("'in' needs 'values'"))),
            };
            match self.scalar_list(field, values) {
                Ok(vs) => Ok(Selection::In { field, values: vs }),
                Err(e) => Err(e),
            }
        } else {
            let field = match self.field_of(cfg, "field") {
                Ok(f) => f,
                Err(e) => return Err(e),
            };
            let o = match cmp_op(op) {
                Some(o) => o,
                None => return Err(fail(concat3("unknown filter op '", op, "'"))),
            };
            let v = match cfg.get("value") {
                Some(v) => v,
                None => return Err(fail(String::from_str("filter needs 'value'"))),
            };
            match self.scalar(field, v) {
                Ok(value) => Ok(Selection::Cmp { field, op: o, value }),
                Err(e) => Err(e),
            }
        }
    }

    /// The selection a filter node's configuration describes.
    pub fn selection(&self, cfg: &Json) -> (r: Result<Selection, Z8Error>)
        ensures
            selection_agrees(r, selection_spec(self.reg.fields(), self.reg.labels(), *cfg)),
    {
        let sel = match self.base_selection(cfg) {
            Ok(s) => s,
            Err(e) => return Err(e),
        };
        match bool_of(cfg, "not") {
            Some(true) => {
                let all = Selection::All;
                assert(all.view() == SelectionView::All);
                let r = Selection::AndNot(Box::new(all), Box::new(sel));
                assert(r.view() == SelectionView::AndNot(Box::new(all.view()), Box::new(sel.view())));
                Ok(r)
            },
            _ => Ok(sel),
        }
    }
}

} // verus!

verus! {

/// The data-export format of `lance-materialize`.
#[derive(Debug, PartialEq, Eq, Structural, Clone, Copy)]
pub enum Format {
    Json,
    Csv,
}

/// What a configured node does. Ids only: every name was resolved at
/// configuration.
#[derive(Debug)]
pub enum Op {
    Source(SourceId),
    Filter(Selection),
    Axis(CoordSpec, AxisRole),
    Measure(Measure),
    Pivot { rows: Vec<CoordSpec>, columns: Vec<CoordSpec>, pages: Vec<CoordSpec> },
    Rotate,
    TopK(TopK),
    Execute,
    Materialize(Format),
}

/// The mathematical form of an op.
pub enum OpView {
    Source(SourceId),
    Filter(SelectionView),
    Axis(CoordSpec, AxisRole),
    Measure(Measure),
    Pivot { rows: Seq<CoordSpec>, columns: Seq<CoordSpec>, pages: Seq<CoordSpec> },
    Rotate,
    TopK(TopK),
    Execute,
    Materialize(Format),
}

impl Op {
    /// The mathematical form of the op.
    pub open spec fn view(&self) -> OpView {
        match self {
            Op::Source(id) => OpView::Source(*id),
            Op::Filter(s) => OpView::Filter(s.view()),
            Op::Axis(c, r) => OpView::Axis(*c, *r),
            Op::Measure(m) => OpView::Measure(*m),
            Op::Pivot { rows, columns, pages } => OpView::Pivot {
                rows: rows@,
                columns: columns@,
                pages: pages@,
            },
            Op::Rotate => OpView::Rotate,
            Op::TopK(t) => OpView::TopK(*t),
            Op::Execute => OpView::Execute,
            Op::Materialize(f) => OpView::Materialize(*f),
        }
    }
}

/// The role under a configuration's `role`, `row` when there is none.
pub open spec fn role_spec(v: Option<Json>) -> Result<AxisRole, Seq<char>> {
    let t = match v {
        Some(j) => match j.text() {
            Some(t) => t,
            None => "row"@,
        },
        None => "row"@,
    };
    if t == "row"@ {
        Ok(AxisRole::Row)
    } else if t == "column"@ {
        Ok(AxisRole::Column)
    } else if t == "page"@ {
        Ok(AxisRole::Page)
    } else {
        Err("unknown role '"@ + t + "'"@)
    }
}

/// The measure a `lance-measure` configuration describes.
pub open spec fn measure_spec(cat: Map<Seq<char>, FieldId>, cfg: Json) -> Result<Measure, Seq<char>> {
    let t = match text_member(cfg, "op"@) {
        Some(t) => t,
        None => "count"@,
    };
    if t == "count"@ {
        Ok(Measure::Count)
    } else {
        let kind = if t == "sum"@ {
            Some(MeasureKind::Sum)
        } else if t == "min"@ {
            Some(MeasureKind::Min)
        } else if t == "max"@ {
            Some(MeasureKind::Max)
        } else if t == "mean"@ || t == "avg"@ {
            Some(MeasureKind::Mean)
        } else {
            None
        };
        match kind {
            None => Err("unknown measure '"@ + t + "'"@),
            Some(k) => match field_of_spec(cat, cfg, "field"@) {
                Err(m) => Err(m),
                Ok(f) => Ok(Measure::Of(k, f)),
            },
        }
    }
}

/// The refusal of paged or screen output.
pub open spec fn paged_output_message() -> Seq<char> {
    "lance-materialize exports data (json/csv); paged or screen output goes through OGAR composition (an ObjectSlot on the report, see lance-graph-report-ogar)"@
}

/// The format a `lance-materialize` configuration asks for.
pub open spec fn format_spec(cfg: Json) -> Result<Format, Seq<char>> {
    let t = match text_member(cfg, "format"@) {
        Some(t) => t,
        None => "json"@,
    };
    if t == "json"@ {
        Ok(Format::Json)
    } else if t == "csv"@ {
        Ok(Format::Csv)
    } else if t == "html"@ || t == "typst"@ || t == "pdf"@ {
        Err(paged_output_message())
    } else {
        Err("unknown format '"@ + t + "'"@)
    }
}

/// The pivot a `lance-pivot` configuration describes.
pub open spec fn pivot_spec(cat: Map<Seq<char>, FieldId>, cfg: Json) -> Result<OpView, Seq<char>> {
    if bool_member(cfg, "rotate"@) == Some(true) {
        Ok(OpView::Rotate)
    } else {
        match coords_spec(cat, cfg, "rows"@) {
            Err(m) => Err(m),
            Ok(rows) => match coords_spec(cat, cfg, "columns"@) {
                Err(m) => Err(m),
                Ok(columns) => match coords_spec(cat, cfg, "pages"@) {
                    Err(m) => Err(m),
                    Ok(pages) => Ok(OpView::Pivot { rows, columns, pages }),
                },
            },
        }
    }
}

/// The ordering a `lance-top-k` configuration describes: by measure
/// `measure` (the first when absent), keeping `k`, descending unless told
/// otherwise.
pub open spec fn top_k_spec(cfg: Json) -> Result<OpView, Seq<char>> {
    let measure = match unsigned_member(cfg, "measure"@) {
        Some(n) => n,
        None => 0,
    };
    match unsigned_member(cfg, "k"@) {
        None => Err("top-k needs 'k'"@),
        Some(k) => Ok(
            OpView::TopK(
                TopK {
                    measure: measure as usize,
                    k: k as usize,
                    descending: match bool_member(cfg, "descending"@) {
                        Some(b) => b,
                        None => true,
                    },
                },
            ),
        ),
    }
}

/// What a node of `node_type` configured with `cfg` does, given the
/// registry's source names, catalog and codebook.
pub open spec fn op_spec(
    names: Map<Seq<char>, SourceId>,
    cat: Map<Seq<char>, FieldId>,
    cam: Map<u32, Map<Seq<char>, u32>>,
    node_type: Seq<char>,
    cfg: Json,
) -> Result<OpView, Seq<char>> {
    if node_type == "lance-source"@ {
        match text_member(cfg, "source"@) {
            None => Err("source needs a name"@),
            Some(name) => if names.contains_key(name) {
                Ok(OpView::Source(names[name]))
            } else {
                Err(unknown_source_name_message(name))
            },
        }
    } else if node_type == "lance-filter"@ {
        match selection_spec(cat, cam, cfg) {
            Err(m) => Err(m),
            Ok(s) => Ok(OpView::Filter(s)),
        }
    } else if node_type == "lance-axis"@ {
        match cfg.member("coord"@) {
            None => Err("axis needs 'coord'"@),
            Some(c) => match coord_spec(cat, c) {
                Err(m) => Err(m),
                Ok(coord) => match role_spec(cfg.member("role"@)) {
                    Err(m) => Err(m),
                    Ok(role) => Ok(OpView::Axis(coord, role)),
                },
            },
        }
    } else if node_type == "lance-measure"@ {
        match measure_spec(cat, cfg) {
            Err(m) => Err(m),
            Ok(m) => Ok(OpView::Measure(m)),
        }
    } else if node_type == "lance-pivot"@ {
        pivot_spec(cat, cfg)
    } else if node_type == "lance-top-k"@ {
        top_k_spec(cfg)
    } else if node_type == "lance-execute"@ {
        Ok(OpView::Execute)
    } else if node_type == "lance-materialize"@ {
        match format_spec(cfg) {
            Err(m) => Err(m),
            Ok(f) => Ok(OpView::Materialize(f)),
        }
    } else {
        Err("not a lance node type '"@ + node_type + "'"@)
    }
}

/// The outcome of configuring agrees with the description.
pub open spec fn op_agrees(r: Result<Op, Z8Error>, s: Result<OpView, Seq<char>>) -> bool {
    match (r, s) {
        (Ok(x), Ok(v)) => x.view() == v,
        (Err(e), Err(m)) => e.message() == m,
        _ => false,
    }
}

fn text_or<'a>(cfg: &'a Json, key: &str, default: &'a str) -> (r: &'a str)
    ensures
        r@ == match text_member(*cfg, key@) {
            Some(t) => t,
            None => default@,
        },
{
    match text_of(cfg, key) {
        Some(t) => t,
        None => default,
    }
}

impl<'a, B, P, R, K> Resolver<'a, B, P, R, K> {
    fn role(&self, v: Option<&Json>) -> (r: Result<AxisRole, Z8Error>)
        ensures
            plain(r) == role_spec(
                match v {
                    Some(j) => Some(*j),
                    None => None,
                },
            ),
    {
        let t = match v {
            Some(j) => match j.as_str() {
                Some(t) => t,
                None => "row",
            },
            None => "row",
        };
        if str_eq(t, "row") {
            Ok(AxisRole::Row)
        } else if str_eq(t, "column") {
            Ok(AxisRole::Column)
        } else if str_eq(t, "page") {
            Ok(AxisRole::Page)
        } else {
            Err(fail(concat3("unknown role '", t, "'")))
        }
    }

    fn measure(&self, cfg: &Json) -> (r: Result<Measure, Z8Error>)
        ensures
            plain(r) == measure_spec(self.reg.fields(), *cfg),
    {
        let t = text_or(cfg, "op", "count");
        if str_eq(t, "count") {
            return Ok(Measure::Count);
        }
        let kind = if str_eq(t, "sum") {
            MeasureKind::Sum
        } else if str_eq(t, "min") {
            MeasureKind::Min
        } else if str_eq(t, "max") {
            MeasureKind::Max
        } else if str_eq(t, "mean") || str_eq(t, "avg") {
            MeasureKind::Mean
        } else {
            return Err(fail(concat3("unknown measure '", t, "'")));
        };
        match self.field_of(cfg, "field") {
            Ok(f) => Ok(Measure::Of(kind, f)),
            Err(e) => Err(e),
        }
    }

    fn format(&self, cfg: &Json) -> (r: Result<Format, Z8Error>)
        ensures
            plain(r) == format_spec(*cfg),
    {
        let t = text_or(cfg, "format", "json");
        if str_eq(t, "json") {
            Ok(Format::Json)
        } else if str_eq(t, "csv") {
            Ok(Format::Csv)
        } else if str_eq(t, "html") || str_eq(t, "typst") || str_eq(t, "pdf") {
            Err(fail(String::from_str(
                "lance-materialize exports data (json/csv); paged or screen output goes through OGAR composition (an ObjectSlot on the report, see lance-graph-report-ogar)",
            )))
        } else {
            Err(fail(concat3("unknown format '", t, "'")))
        }
    }

    fn pivot(&self, cfg: &Json) -> (r: Result<Op, Z8Error>)
        ensures
            op_agrees(r, pivot_spec(self.reg.fields(), *cfg)),
    {
        if bool_of(cfg, "rotate") == Some(true) {
            return Ok(Op::Rotate);
        }
        let rows = match self.coords(cfg, "rows") {
            Ok(v) => v,
            Err(e) => return Err(e),
        };
        let columns = match self.coords(cfg, "columns") {
            Ok(v) => v,
            Err(e) => return Err(e),
        };
        let pages = match self.coords(cfg, "pages") {
            Ok(v) => v,
            Err(e) => return Err(e),
        };
        Ok(Op::Pivot { rows, columns, pages })
    }

    fn top_k(&self, cfg: &Json) -> (r: Result<Op, Z8Error>)
        ensures
            op_agrees(r, top_k_spec(*cfg)),
    {
        let measure = match unsigned_of(cfg, "measure") {
            Some(n) => n,
            None => 0,
        };
        let k = match unsigned_of(cfg, "k") {
            Some(k) => k,
            None => return Err(fail(String::from_str("top-k needs 'k'"))),
        };
        let descending = match bool_of(cfg, "descending") {
            Some(b) => b,
            None => true,
        };
        let measure = #[verifier::truncate] (measure as usize);
        let k = #[verifier::truncate] (k as usize);
        Ok(Op::TopK(TopK { measure, k, descending }))
    }

    /// What a node of `node_type` configured with `cfg` does.
    pub fn op(&self, node_type: &str, cfg: &Json) -> (r: Result<Op, Z8Error>)
        ensures
            op_agrees(r, op_spec(self.reg.names(), self.reg.fields(), self.reg.labels(), node_type@, *cfg)),
    {
        if str_eq(node_type, "lance-source") {
            match text_of(cfg, "source") {
                None => Err(fail(String::from_str("source needs a name"))),
                Some(name) => match self.reg.source_id(name) {
                    Ok(id) => Ok(Op::Source(id)),
                    Err(e) => Err(e),
                },
            }
        } else if str_eq(node_type, "lance-filter") {
            match self.selection(cfg) {
                Ok(s) => Ok(Op::Filter(s)),
                Err(e) => Err(e),
            }
        } else if str_eq(node_type, "lance-axis") {
            match cfg.get("coord") {
                None => Err(fail(String::from_str("axis needs 'coord'"))),
                Some(c) => {
                    let coord = match self.coord(c) {
                        Ok(c) => c,
                        Err(e) => return Err(e),
                    };
                    match self.role(cfg.get("role")) {
                        Ok(role) => Ok(Op::Axis(coord, role)),
                        Err(e) => Err(e),
                    }
                },
            }
        } else if str_eq(node_type, "lance-measure") {
            match self.measure(cfg) {
                Ok(m) => Ok(Op::Measure(m)),
                Err(e) => Err(e),
            }
        } else if str_eq(node_type, "lance-pivot") {
            self.pivot(cfg)
        } else if str_eq(node_type, "lance-top-k") {
            self.top_k(cfg)
        } else if str_eq(node_type, "lance-execute") {
            Ok(Op::Execute)
        } else if str_eq(node_type, "lance-materialize") {
            match self.format(cfg) {
                Ok(f) => Ok(Op::Materialize(f)),
                Err(e) => Err(e),
            }
        } else {
            Err(fail(concat3("not a lance node type '", node_type, "'")))
        }
    }
}

} // verus!

verus! {

/// What a configured node does with the envelope it receives.
#[derive(Debug, PartialEq, Eq, Structural, Clone, Copy)]
pub enum Step {
    /// Emit a fresh plan over the source, at its current generation.
    Open(SourceId),
    /// Re-view the result's cells with the pivot's roles, without a fold.
    Review(Envelope),
    /// Re-view the result rotated, without a fold.
    Rotate(Envelope),
    /// Re-view the result ordered by a measure, without a fold.
    Order(Envelope, TopK),
    /// Export the result: the data-export terminal.
    Materialize(Envelope, Format),
    /// Fold the plan, or reuse a remembered fold.
    Execute(Envelope),
    /// Rewrite the plan by the op into a new plan.
    Rewrite(Envelope),
}

pub open spec fn refuses_result_message(node_type: Seq<char>) -> Seq<char> {
    node_type + " does not accept a result handle"@
}

pub open spec fn needs_result_message() -> Seq<char> {
    "lance-materialize needs a result handle; place lance-execute before it"@
}

/// What a node of `node_type` doing `op` does with `payload`: a source
/// ignores it; every other node reads the envelope; a result is only
/// re-viewed or exported, and a plan is rewritten, folded, or refused by
/// the export terminal.
pub open spec fn step_spec(node_type: Seq<char>, op: OpView, payload: Json) -> Result<Step, Seq<char>> {
    match op {
        OpView::Source(id) => Ok(Step::Open(id)),
        _ => match envelope_of(payload) {
            None => Err(bad_envelope_message()),
            Some(env) => match env.role {
                Role::Result => match op {
                    OpView::Pivot { .. } => Ok(Step::Review(env)),
                    OpView::Rotate => Ok(Step::Rotate(env)),
                    OpView::TopK(t) => Ok(Step::Order(env, t)),
                    OpView::Materialize(f) => Ok(Step::Materialize(env, f)),
                    _ => Err(refuses_result_message(node_type)),
                },
                Role::Plan => match op {
                    OpView::Materialize(_) => Err(needs_result_message()),
                    OpView::Execute => Ok(Step::Execute(env)),
                    _ => Ok(Step::Rewrite(env)),
                },
            },
        },
    }
}

/// Decides what a node of `node_type` doing `op` does with `payload`.
pub fn decide(node_type: &str, op: &Op, payload: &Json) -> (r: Result<Step, Z8Error>)
    ensures
        plain(r) == step_spec(node_type@, op.view(), *payload),
{
    if let Op::Source(id) = op {
        return Ok(Step::Open(*id));
    }
    let env = match Envelope::from_json(payload) {
        Ok(e) => e,
        Err(e) => return Err(e),
    };
    match env.role {
        Role::Result => match op {
            Op::Pivot { .. } => Ok(Step::Review(env)),
            Op::Rotate => Ok(Step::Rotate(env)),
            Op::TopK(t) => Ok(Step::Order(env, *t)),
            Op::Materialize(f) => Ok(Step::Materialize(env, *f)),
            _ => Err(fail(concat2(node_type, " does not accept a result handle"))),
        },
        Role::Plan => match op {
            Op::Materialize(_) => Err(fail(String::from_str(
                "lance-materialize needs a result handle; place lance-execute before it",
            ))),
            Op::Execute => Ok(Step::Execute(env)),
            _ => Ok(Step::Rewrite(env)),
        },
    }
}

/// What a node hands on after its step: a handle for the next node, or a
/// result for the export terminal to render.
#[derive(Debug, PartialEq, Eq, Structural, Clone, Copy)]
pub enum Handoff {
    Handle(Envelope),
    Export(Envelope, Format),
}

/// The envelope handed on, when one is.
pub open spec fn handed(r: Result<Handoff, Z8Error>) -> Result<Envelope, Z8Error> {
    match r {
        Ok(Handoff::Handle(e)) => Ok(e),
        Ok(Handoff::Export(e, _)) => Ok(e),
        Err(e) => Err(e),
    }
}

/// How taking `step` on the registry leaves it and what it hands on: a
/// source opens a plan (`make`), a plan node rewrites its plan by its
/// operation `op` (`rewrite`, handed `op`), a result node re-views its
/// result by `op` (`review`, handed `op`; an ordering is no
/// reinterpretation), `lance-execute` folds or reuses (`key_of`,
/// `reinterpret`, `fold`), and the export terminal hands on a result that
/// resolves, changing nothing.
pub open spec fn took<B, P, R: Clone, K, MK, RW, RV, KY, RI, FD>(
    step: Step,
    op: Op,
    before: LanceRegistry<B, P, R, K>,
    after: LanceRegistry<B, P, R, K>,
    make: MK,
    rewrite: RW,
    review: RV,
    key_of: KY,
    reinterpret: RI,
    fold: FD,
    r: Result<Handoff, Z8Error>,
) -> bool where
    MK: Fn(SourceRef) -> P,
    RW: Fn(&P, &Op) -> Result<P, Z8Error>,
    RV: Fn(&R, &Op) -> Result<R, Z8Error>,
    KY: Fn(&P) -> K,
    RI: Fn(&R, &P) -> Result<R, Z8Error>,
    FD: Fn(&P, &B) -> Result<R, Z8Error>,
 {
    match step {
        Step::Open(id) => !(r matches Ok(Handoff::Export(..))) && opened(before, after, id, make, handed(r)),
        Step::Rewrite(env) => !(r matches Ok(Handoff::Export(..))) && rewritten(
            before,
            after,
            env,
            op,
            rewrite,
            handed(r),
        ),
        Step::Review(env) => !(r matches Ok(Handoff::Export(..))) && reviewed(
            before,
            after,
            env,
            op,
            review,
            true,
            handed(r),
        ),
        Step::Rotate(env) => !(r matches Ok(Handoff::Export(..))) && reviewed(
            before,
            after,
            env,
            op,
            review,
            true,
            handed(r),
        ),
        Step::Order(env, _) => !(r matches Ok(Handoff::Export(..))) && reviewed(
            before,
            after,
            env,
            op,
            review,
            false,
            handed(r),
        ),
        Step::Execute(env) => !(r matches Ok(Handoff::Export(..))) && executed(
            before,
            after,
            env,
            key_of,
            reinterpret,
            fold,
            handed(r),
        ),
        Step::Materialize(env, f) => {
            &&& after == before
            &&& match resolution(
                generations(before.sources()),
                before.results(),
                env,
                no_result_message(env.handle),
            ) {
                Err(m) => r matches Err(e) && e.message() == m,
                Ok(_) => r == Ok::<Handoff, Z8Error>(Handoff::Export(env, f)),
            }
        },
    }
}

/// One configured lance node.
#[derive(Debug)]
pub struct LanceNode {
    node_type: String,
    op: Op,
}

impl LanceNode {
    /// The node's type.
    pub closed spec fn kind(&self) -> Seq<char> {
        self.node_type@
    }

    /// What the node does.
    pub open spec fn does(&self) -> OpView {
        self.operation().view()
    }

    /// The operation, as configured.
    pub closed spec fn operation(&self) -> Op {
        self.op
    }

    /// The node's type.
    pub fn node_type(&self) -> (r: &str)
        ensures
            r@ == self.kind(),
    {
        self.node_type.as_str()
    }

    /// What the node does.
    pub fn op(&self) -> (r: &Op)
        ensures
            *r == self.operation(),
            r.view() == self.does(),
    {
        &self.op
    }

    /// Resolves `config` into what the node does, through the registry's
    /// catalog, codebook and source names; on failure the node is left as
    /// it was.
    pub fn configure<B, P, R, K>(&mut self, reg: &LanceRegistry<B, P, R, K>, config: &Json) -> (r:
        Result<(), Z8Error>)
        ensures
            final(self).kind() == old(self).kind(),
            match op_spec(reg.names(), reg.fields(), reg.labels(), old(self).kind(), *config) {
                Ok(v) => r is Ok && final(self).does() == v,
                Err(m) => (r matches Err(e) && e.message() == m) && final(self).does() == old(
                    self,
                ).does(),
            },
    {
        let resolver = Resolver { reg };
        match resolver.op(self.node_type.as_str(), config) {
            Ok(op) => {
                self.op = op;
                Ok(())
            },
            Err(e) => Err(e),
        }
    }

    /// What the node does with a message payload.
    pub fn step(&self, payload: &Json) -> (r: Result<Step, Z8Error>)
        ensures
            plain(r) == step_spec(self.kind(), self.does(), *payload),
    {
        decide(self.node_type.as_str(), &self.op, payload)
    }

    /// Takes the node's step on the registry for a message payload, with
    /// the engine's work handed in: `make` builds a plan over a source,
    /// `rewrite` rewrites a plan by the operation it is handed (the node's
    /// own), `review` re-views a result by it, `key_of` gives a plan's physical key, `reinterpret`
    /// re-views a remembered fold for a plan and `fold` folds a plan over a
    /// batch. A payload the node refuses changes nothing. Every step but
    /// the export terminal's mints a handle, so the handles must not be
    /// exhausted.
    pub fn advance<B, P, R: Clone, K: PartialEq, MK, RW, RV, KY, RI, FD>(
        &self,
        reg: &mut LanceRegistry<B, P, R, K>,
        payload: &Json,
        make: MK,
        rewrite: RW,
        review: RV,
        key_of: KY,
        reinterpret: RI,
        fold: FD,
    ) -> (r: Result<Handoff, Z8Error>) where
        MK: Fn(SourceRef) -> P,
        RW: Fn(&P, &Op) -> Result<P, Z8Error>,
        RV: Fn(&R, &Op) -> Result<R, Z8Error>,
        KY: Fn(&P) -> K,
        RI: Fn(&R, &P) -> Result<R, Z8Error>,
        FD: Fn(&P, &B) -> Result<R, Z8Error>,

        requires
            step_spec(self.kind(), self.does(), *payload) matches Ok(s) && !(s is Materialize)
                ==> old(reg).next_handle() < u64::MAX,
            obeys_concrete_eq::<K>(),
            forall|s: SourceRef| #[trigger] make.requires((s,)),
            forall|p: &P, o: &Op| #[trigger] rewrite.requires((p, o)),
            forall|x: &R, o: &Op| #[trigger] review.requires((x, o)),
            forall|p: &P| #[trigger] key_of.requires((p,)),
            forall|x: &R, p: &P| #[trigger] reinterpret.requires((x, p)),
            forall|p: &P, b: &B| #[trigger] fold.requires((p, b)),
        ensures
            match step_spec(self.kind(), self.does(), *payload) {
                Err(m) => (r matches Err(e) && e.message() == m) && *final(reg) == *old(reg),
                Ok(step) => took(
                    step,
                    self.operation(),
                    *old(reg),
                    *final(reg),
                    make,
                    rewrite,
                    review,
                    key_of,
                    reinterpret,
                    fold,
                    r,
                ),
            },
    {
        let step = match self.step(payload) {
            Ok(s) => s,
            Err(e) => return Err(e),
        };
        let out = match step {
            Step::Open(id) => reg.open_plan(id, make),
            Step::Rewrite(env) => reg.rewrite_plan(&env, &self.op, rewrite),
            Step::Review(env) => reg.review_result(&env, &self.op, review, true),
            Step::Rotate(env) => reg.review_result(&env, &self.op, review, true),
            Step::Order(env, _) => reg.review_result(&env, &self.op, review, false),
            Step::Execute(env) => reg.execute_plan(&env, key_of, reinterpret, fold),
            Step::Materialize(env, f) => {
                return match reg.result(&env) {
                    Ok(_) => Ok(Handoff::Export(env, f)),
                    Err(e) => Err(e),
                };
            },
        };
        match out {
            Ok(e) => Ok(Handoff::Handle(e)),
            Err(e) => Err(e),
        }
    }
}

/// Creates configured nodes of one type.
#[derive(Debug)]
pub struct LanceNodeFactory {
    node_type: String,
}

impl LanceNodeFactory {
    /// The type of the nodes it creates.
    pub closed spec fn kind(&self) -> Seq<char> {
        self.node_type@
    }

    /// The type of the nodes it creates.
    pub fn node_type(&self) -> (r: &str)
        ensures
            r@ == self.kind(),
    {
        self.node_type.as_str()
    }

    /// A node of this type configured with `config`.
    pub fn create<B, P, R, K>(&self, reg: &LanceRegistry<B, P, R, K>, config: &Json) -> (r: Result<
        LanceNode,
        Z8Error,
    >)
        ensures
            match op_spec(reg.names(), reg.fields(), reg.labels(), self.kind(), *config) {
                Ok(v) => r matches Ok(n) && n.kind() == self.kind() && n.does() == v,
                Err(m) => r matches Err(e) && e.message() == m,
            },
    {
        let mut n = LanceNode { node_type: String::from_str(self.node_type.as_str()), op: Op::Execute };
        match n.configure(reg, config) {
            Ok(()) => Ok(n),
            Err(e) => Err(e),
        }
    }
}

/// A factory for one node type.
pub fn factory(node_type: &str) -> (f: LanceNodeFactory)
    ensures
        f.kind() == node_type@,
{
    LanceNodeFactory { node_type: String::from_str(node_type) }
}

/// Every lance node type.
pub const NODE_TYPES: [&'static str; 8] = [
    "lance-source",
    "lance-filter",
    "lance-axis",
    "lance-measure",
    "lance-pivot",
    "lance-top-k",
    "lance-execute",
    "lance-materialize",
];

} // verus!

verus! {

/// Only the export terminal turns a handle into text, and it turns only a
/// result into text: a plan handle is refused with a pointer to
/// `lance-execute`.
pub proof fn law_materialize_refuses_a_plan(node_type: Seq<char>, f: Format, payload: Json)
    requires
        envelope_of(payload) matches Some(env) && env.role == Role::Plan,
    ensures
        step_spec(node_type, OpView::Materialize(f), payload) == Err::<Step, Seq<char>>(
            needs_result_message(),
        ),
{
}

/// A result handle is never folded again nor rewritten: a node either
/// re-views it, exports it, or refuses it.
pub proof fn law_results_never_refold(node_type: Seq<char>, op: OpView, payload: Json)
    requires
        envelope_of(payload) matches Some(env) && env.role == Role::Result,
    ensures
        step_spec(node_type, op, payload) matches Ok(s) ==> (s is Review || s is Rotate || s is Order
            || s is Materialize || s is Open),
{
}

/// Paged or screen output is not the reporting engine's: asking the
/// export terminal for it is refused with a pointer to OGAR composition.
pub proof fn law_paged_output_is_refused(
    names: Map<Seq<char>, SourceId>,
    cat: Map<Seq<char>, FieldId>,
    cam: Map<u32, Map<Seq<char>, u32>>,
    cfg: Json,
)
    requires
        text_member(cfg, "format"@) == Some("html"@) || text_member(cfg, "format"@) == Some(
            "typst"@,
        ) || text_member(cfg, "format"@) == Some("pdf"@),
    ensures
        op_spec(names, cat, cam, "lance-materialize"@, cfg) == Err::<OpView, Seq<char>>(
            paged_output_message(),
        ),
{
    reveal_strlit("lance-materialize");
    reveal_strlit("lance-source");
    reveal_strlit("lance-filter");
    reveal_strlit("lance-axis");
    reveal_strlit("lance-measure");
    reveal_strlit("lance-pivot");
    reveal_strlit("lance-top-k");
    reveal_strlit("lance-execute");
    reveal_strlit("json");
    reveal_strlit("csv");
    reveal_strlit("html");
    reveal_strlit("typst");
    reveal_strlit("pdf");
    assert("lance-materialize"@[6] == 'm' && "lance-source"@[6] == 's' && "lance-filter"@[6] == 'f'
        && "lance-axis"@[6] == 'a' && "lance-pivot"@[6] == 'p' && "lance-top-k"@[6] == 't'
        && "lance-execute"@[6] == 'e');
    assert("lance-materialize"@[7] == 'a' && "lance-measure"@[7] == 'e');
    assert("json"@[0] == 'j' && "csv"@[0] == 'c' && "html"@[0] == 'h' && "typst"@[0] == 't'
        && "pdf"@[0] == 'p');
}

} // verus!

verus! {

/// The words the configuration laws compare against, spelled out.
proof fn lemma_words()
    ensures
        "lance-source"@.len() == 12 && "lance-source"@[0] == 'l' && "lance-source"@[1] == 'a' && "lance-source"@[2] == 'n' && "lance-source"@[3] == 'c' && "lance-source"@[4] == 'e' && "lance-source"@[5] == '-' && "lance-source"@[6] == 's' && "lance-source"@[7] == 'o' && "lance-source"@[8] == 'u' && "lance-source"@[9] == 'r' && "lance-source"@[10] == 'c' && "lance-source"@[11] == 'e',
        "lance-filter"@.len() == 12 && "lance-filter"@[0] == 'l' && "lance-filter"@[1] == 'a' && "lance-filter"@[2] == 'n' && "lance-filter"@[3] == 'c' && "lance-filter"@[4] == 'e' && "lance-filter"@[5] == '-' && "lance-filter"@[6] == 'f' && "lance-filter"@[7] == 'i' && "lance-filter"@[8] == 'l' && "lance-filter"@[9] == 't' && "lance-filter"@[10] == 'e' && "lance-filter"@[11] == 'r',
        "lance-axis"@.len() == 10 && "lance-axis"@[0] == 'l' && "lance-axis"@[1] == 'a' && "lance-axis"@[2] == 'n' && "lance-axis"@[3] == 'c' && "lance-axis"@[4] == 'e' && "lance-axis"@[5] == '-' && "lance-axis"@[6] == 'a' && "lance-axis"@[7] == 'x' && "lance-axis"@[8] == 'i' && "lance-axis"@[9] == 's',
        "lance-measure"@.len() == 13 && "lance-measure"@[0] == 'l' && "lance-measure"@[1] == 'a' && "lance-measure"@[2] == 'n' && "lance-measure"@[3] == 'c' && "lance-measure"@[4] == 'e' && "lance-measure"@[5] == '-' && "lance-measure"@[6] == 'm' && "lance-measure"@[7] == 'e' && "lance-measure"@[8] == 'a' && "lance-measure"@[9] == 's' && "lance-measure"@[10] == 'u' && "lance-measure"@[11] == 'r' && "lance-measure"@[12] == 'e',
        "lance-pivot"@.len() == 11 && "lance-pivot"@[0] == 'l' && "lance-pivot"@[1] == 'a' && "lance-pivot"@[2] == 'n' && "lance-pivot"@[3] == 'c' && "lance-pivot"@[4] == 'e' && "lance-pivot"@[5] == '-' && "lance-pivot"@[6] == 'p' && "lance-pivot"@[7] == 'i' && "lance-pivot"@[8] == 'v' && "lance-pivot"@[9] == 'o' && "lance-pivot"@[10] == 't',
        "eq"@.len() == 2 && "eq"@[0] == 'e' && "eq"@[1] == 'q',
        "ne"@.len() == 2 && "ne"@[0] == 'n' && "ne"@[1] == 'e',
        "lt"@.len() == 2 && "lt"@[0] == 'l' && "lt"@[1] == 't',
        "le"@.len() == 2 && "le"@[0] == 'l' && "le"@[1] == 'e',
        "gt"@.len() == 2 && "gt"@[0] == 'g' && "gt"@[1] == 't',
        "ge"@.len() == 2 && "ge"@[0] == 'g' && "ge"@[1] == 'e',
        "in"@.len() == 2 && "in"@[0] == 'i' && "in"@[1] == 'n',
        "range"@.len() == 5 && "range"@[0] == 'r' && "range"@[1] == 'a' && "range"@[2] == 'n' && "range"@[3] == 'g' && "range"@[4] == 'e',
        "mask"@.len() == 4 && "mask"@[0] == 'm' && "mask"@[1] == 'a' && "mask"@[2] == 's' && "mask"@[3] == 'k',
        "count"@.len() == 5 && "count"@[0] == 'c' && "count"@[1] == 'o' && "count"@[2] == 'u' && "count"@[3] == 'n' && "count"@[4] == 't',
        "sum"@.len() == 3 && "sum"@[0] == 's' && "sum"@[1] == 'u' && "sum"@[2] == 'm',
        "min"@.len() == 3 && "min"@[0] == 'm' && "min"@[1] == 'i' && "min"@[2] == 'n',
        "max"@.len() == 3 && "max"@[0] == 'm' && "max"@[1] == 'a' && "max"@[2] == 'x',
        "mean"@.len() == 4 && "mean"@[0] == 'm' && "mean"@[1] == 'e' && "mean"@[2] == 'a' && "mean"@[3] == 'n',
        "avg"@.len() == 3 && "avg"@[0] == 'a' && "avg"@[1] == 'v' && "avg"@[2] == 'g',
        "row"@.len() == 3 && "row"@[0] == 'r' && "row"@[1] == 'o' && "row"@[2] == 'w',
        "column"@.len() == 6 && "column"@[0] == 'c' && "column"@[1] == 'o' && "column"@[2] == 'l' && "column"@[3] == 'u' && "column"@[4] == 'm' && "column"@[5] == 'n',
        "page"@.len() == 4 && "page"@[0] == 'p' && "page"@[1] == 'a' && "page"@[2] == 'g' && "page"@[3] == 'e',
        "lance-top-k"@.len() == 11 && "lance-top-k"@[0] == 'l' && "lance-top-k"@[1] == 'a' && "lance-top-k"@[2] == 'n' && "lance-top-k"@[3] == 'c' && "lance-top-k"@[4] == 'e' && "lance-top-k"@[5] == '-' && "lance-top-k"@[6] == 't' && "lance-top-k"@[7] == 'o' && "lance-top-k"@[8] == 'p' && "lance-top-k"@[9] == '-' && "lance-top-k"@[10] == 'k',
        "lance-execute"@.len() == 13 && "lance-execute"@[0] == 'l' && "lance-execute"@[1] == 'a' && "lance-execute"@[2] == 'n' && "lance-execute"@[3] == 'c' && "lance-execute"@[4] == 'e' && "lance-execute"@[5] == '-' && "lance-execute"@[6] == 'e' && "lance-execute"@[7] == 'x' && "lance-execute"@[8] == 'e' && "lance-execute"@[9] == 'c' && "lance-execute"@[10] == 'u' && "lance-execute"@[11] == 't' && "lance-execute"@[12] == 'e',
        "lance-materialize"@.len() == 17 && "lance-materialize"@[0] == 'l' && "lance-materialize"@[1] == 'a' && "lance-materialize"@[2] == 'n' && "lance-materialize"@[3] == 'c' && "lance-materialize"@[4] == 'e' && "lance-materialize"@[5] == '-' && "lance-materialize"@[6] == 'm' && "lance-materialize"@[7] == 'a' && "lance-materialize"@[8] == 't' && "lance-materialize"@[9] == 'e' && "lance-materialize"@[10] == 'r' && "lance-materialize"@[11] == 'i' && "lance-materialize"@[12] == 'a' && "lance-materialize"@[13] == 'l' && "lance-materialize"@[14] == 'i' && "lance-materialize"@[15] == 'z' && "lance-materialize"@[16] == 'e',
        "json"@.len() == 4 && "json"@[0] == 'j' && "json"@[1] == 's' && "json"@[2] == 'o' && "json"@[3] == 'n',
        "csv"@.len() == 3 && "csv"@[0] == 'c' && "csv"@[1] == 's' && "csv"@[2] == 'v',
{
    reveal_strlit("lance-source");
    reveal_strlit("lance-filter");
    reveal_strlit("lance-axis");
    reveal_strlit("lance-measure");
    reveal_strlit("lance-pivot");
    reveal_strlit("eq");
    reveal_strlit("ne");
    reveal_strlit("lt");
    reveal_strlit("le");
    reveal_strlit("gt");
    reveal_strlit("ge");
    reveal_strlit("in");
    reveal_strlit("range");
    reveal_strlit("mask");
    reveal_strlit("count");
    reveal_strlit("sum");
    reveal_strlit("min");
    reveal_strlit("max");
    reveal_strlit("mean");
    reveal_strlit("avg");
    reveal_strlit("row");
    reveal_strlit("column");
    reveal_strlit("page");
    reveal_strlit("lance-top-k");
    reveal_strlit("lance-execute");
    reveal_strlit("lance-materialize");
    reveal_strlit("json");
    reveal_strlit("csv");
}

/// A filter that compares a known field with a literal configures the
/// comparison its `op` names, each of `eq` (also when `op` is absent),
/// `ne`, `lt`, `le`, `gt` and `ge` its own, over that field and literal.
pub proof fn law_filter_comparisons(
    names: Map<Seq<char>, SourceId>,
    cat: Map<Seq<char>, FieldId>,
    cam: Map<u32, Map<Seq<char>, u32>>,
    cfg: Json,
    field: Seq<char>,
    v: Json,
    value: Scalar,
)
    requires
        text_member(cfg, "field"@) == Some(field),
        cat.contains_key(field),
        cfg.member("value"@) == Some(v),
        scalar_spec(cam, cat[field], v) == Ok::<Scalar, Seq<char>>(value),
        bool_member(cfg, "not"@) != Some(true),
    ensures
        text_member(cfg, "op"@) is None ==> op_spec(names, cat, cam, "lance-filter"@, cfg) == Ok::<
            OpView,
            Seq<char>,
        >(OpView::Filter(SelectionView::Cmp { field: cat[field], op: CmpOp::Eq, value })),
        text_member(cfg, "op"@) == Some("eq"@) ==> op_spec(names, cat, cam, "lance-filter"@, cfg)
            == Ok::<OpView, Seq<char>>(
            OpView::Filter(SelectionView::Cmp { field: cat[field], op: CmpOp::Eq, value }),
        ),
        text_member(cfg, "op"@) == Some("ne"@) ==> op_spec(names, cat, cam, "lance-filter"@, cfg)
            == Ok::<OpView, Seq<char>>(
            OpView::Filter(SelectionView::Cmp { field: cat[field], op: CmpOp::Ne, value }),
        ),
        text_member(cfg, "op"@) == Some("lt"@) ==> op_spec(names, cat, cam, "lance-filter"@, cfg)
            == Ok::<OpView, Seq<char>>(
            OpView::Filter(SelectionView::Cmp { field: cat[field], op: CmpOp::Lt, value }),
        ),
        text_member(cfg, "op"@) == Some("le"@) ==> op_spec(names, cat, cam, "lance-filter"@, cfg)
            == Ok::<OpView, Seq<char>>(
            OpView::Filter(SelectionView::Cmp { field: cat[field], op: CmpOp::Le, value }),
        ),
        text_member(cfg, "op"@) == Some("gt"@) ==> op_spec(names, cat, cam, "lance-filter"@, cfg)
            == Ok::<OpView, Seq<char>>(
            OpView::Filter(SelectionView::Cmp { field: cat[field], op: CmpOp::Gt, value }),
        ),
        text_member(cfg, "op"@) == Some("ge"@) ==> op_spec(names, cat, cam, "lance-filter"@, cfg)
            == Ok::<OpView, Seq<char>>(
            OpView::Filter(SelectionView::Cmp { field: cat[field], op: CmpOp::Ge, value }),
        ),
{
    lemma_words();
}

/// A measure of a known field configures the aggregate its `op` names:
/// `sum`, `min`, `max`, and `mean` or `avg`, four different kinds; `count`,
/// or no `op`, counts rows.
pub proof fn law_measure_kinds(
    names: Map<Seq<char>, SourceId>,
    cat: Map<Seq<char>, FieldId>,
    cam: Map<u32, Map<Seq<char>, u32>>,
    cfg: Json,
    field: Seq<char>,
)
    requires
        text_member(cfg, "field"@) == Some(field),
        cat.contains_key(field),
    ensures
        text_member(cfg, "op"@) is None ==> op_spec(names, cat, cam, "lance-measure"@, cfg) == Ok::<
            OpView,
            Seq<char>,
        >(OpView::Measure(Measure::Count)),
        text_member(cfg, "op"@) == Some("count"@) ==> op_spec(names, cat, cam, "lance-measure"@, cfg)
            == Ok::<OpView, Seq<char>>(OpView::Measure(Measure::Count)),
        text_member(cfg, "op"@) == Some("sum"@) ==> op_spec(names, cat, cam, "lance-measure"@, cfg)
            == Ok::<OpView, Seq<char>>(OpView::Measure(Measure::Of(MeasureKind::Sum, cat[field]))),
        text_member(cfg, "op"@) == Some("min"@) ==> op_spec(names, cat, cam, "lance-measure"@, cfg)
            == Ok::<OpView, Seq<char>>(OpView::Measure(Measure::Of(MeasureKind::Min, cat[field]))),
        text_member(cfg, "op"@) == Some("max"@) ==> op_spec(names, cat, cam, "lance-measure"@, cfg)
            == Ok::<OpView, Seq<char>>(OpView::Measure(Measure::Of(MeasureKind::Max, cat[field]))),
        text_member(cfg, "op"@) == Some("mean"@) ==> op_spec(names, cat, cam, "lance-measure"@, cfg)
            == Ok::<OpView, Seq<char>>(OpView::Measure(Measure::Of(MeasureKind::Mean, cat[field]))),
        text_member(cfg, "op"@) == Some("avg"@) ==> op_spec(names, cat, cam, "lance-measure"@, cfg)
            == Ok::<OpView, Seq<char>>(OpView::Measure(Measure::Of(MeasureKind::Mean, cat[field]))),
{
    lemma_words();
}

/// An axis on a known field takes the role its `role` names: `row` (also
/// when there is no `role`), `column` and `page`, three different roles.
pub proof fn law_axis_roles(
    names: Map<Seq<char>, SourceId>,
    cat: Map<Seq<char>, FieldId>,
    cam: Map<u32, Map<Seq<char>, u32>>,
    cfg: Json,
    coord: String,
)
    requires
        cfg.member("coord"@) == Some(Json::String(coord)),
        cat.contains_key(coord@),
    ensures
        cfg.member("role"@) is None ==> op_spec(names, cat, cam, "lance-axis"@, cfg) == Ok::<
            OpView,
            Seq<char>,
        >(OpView::Axis(CoordSpec::Field(cat[coord@]), AxisRole::Row)),
        text_member(cfg, "role"@) == Some("row"@) ==> op_spec(names, cat, cam, "lance-axis"@, cfg)
            == Ok::<OpView, Seq<char>>(OpView::Axis(CoordSpec::Field(cat[coord@]), AxisRole::Row)),
        text_member(cfg, "role"@) == Some("column"@) ==> op_spec(names, cat, cam, "lance-axis"@, cfg)
            == Ok::<OpView, Seq<char>>(
            OpView::Axis(CoordSpec::Field(cat[coord@]), AxisRole::Column),
        ),
        text_member(cfg, "role"@) == Some("page"@) ==> op_spec(names, cat, cam, "lance-axis"@, cfg)
            == Ok::<OpView, Seq<char>>(OpView::Axis(CoordSpec::Field(cat[coord@]), AxisRole::Page)),
{
    lemma_words();
}

/// The items listed under `key`; none when there is no list.
pub open spec fn listed(cfg: Json, key: Seq<char>) -> Seq<Json> {
    match cfg.member(key) {
        Some(Json::Array(a)) => a@,
        _ => Seq::empty(),
    }
}

/// Every item is the name of a field the catalog knows.
pub open spec fn known_names(cat: Map<Seq<char>, FieldId>, s: Seq<Json>) -> bool {
    forall|i: int|
        0 <= i < s.len() ==> (#[trigger] s[i]).text() is Some && cat.contains_key(
            s[i].text().unwrap(),
        )
}

/// The field of each named item, in order.
pub open spec fn named_fields(cat: Map<Seq<char>, FieldId>, s: Seq<Json>) -> Seq<CoordSpec> {
    s.map_values(|j: Json| CoordSpec::Field(cat[j.text().unwrap()]))
}

/// A list of known field names resolves to their fields, in order.
proof fn lemma_named_list(cat: Map<Seq<char>, FieldId>, s: Seq<Json>)
    requires
        known_names(cat, s),
    ensures
        coord_list_spec(cat, s) == Ok::<Seq<CoordSpec>, Seq<char>>(named_fields(cat, s)),
    decreases s.len(),
{
    if s.len() > 0 {
        assert(known_names(cat, s.drop_first())) by {
            assert forall|i: int| 0 <= i < s.drop_first().len() implies (#[trigger] s.drop_first()[
                i
            ]).text() is Some && cat.contains_key(s.drop_first()[i].text().unwrap()) by {
                assert(s.drop_first()[i] == s[i + 1]);
            }
        }
        lemma_named_list(cat, s.drop_first());
        assert(s[0].text() is Some);
        assert(named_fields(cat, s) =~= seq![CoordSpec::Field(cat[s[0].text().unwrap()])]
            + named_fields(cat, s.drop_first()));
    } else {
        assert(named_fields(cat, s) =~= Seq::<CoordSpec>::empty());
    }
}

/// A pivot that is not a rotation lays out the fields listed under `rows`,
/// `columns` and `pages` on those axes, each list in order; a rotation is
/// just that.
pub proof fn law_pivot_axes(
    names: Map<Seq<char>, SourceId>,
    cat: Map<Seq<char>, FieldId>,
    cam: Map<u32, Map<Seq<char>, u32>>,
    cfg: Json,
)
    requires
        known_names(cat, listed(cfg, "rows"@)),
        known_names(cat, listed(cfg, "columns"@)),
        known_names(cat, listed(cfg, "pages"@)),
    ensures
        bool_member(cfg, "rotate"@) == Some(true) ==> op_spec(names, cat, cam, "lance-pivot"@, cfg)
            == Ok::<OpView, Seq<char>>(OpView::Rotate),
        bool_member(cfg, "rotate"@) != Some(true) ==> op_spec(names, cat, cam, "lance-pivot"@, cfg)
            == Ok::<OpView, Seq<char>>(
            OpView::Pivot {
                rows: named_fields(cat, listed(cfg, "rows"@)),
                columns: named_fields(cat, listed(cfg, "columns"@)),
                pages: named_fields(cat, listed(cfg, "pages"@)),
            },
        ),
{
    lemma_words();
    lemma_named_list(cat, listed(cfg, "rows"@));
    lemma_named_list(cat, listed(cfg, "columns"@));
    lemma_named_list(cat, listed(cfg, "pages"@));
    assert(named_fields(cat, Seq::<Json>::empty()) =~= Seq::<CoordSpec>::empty());
}

/// What a node does with a result handle, by its operation: a pivot
/// re-views it, a rotation rotates it, a top-k orders it, the export
/// terminal exports it, a source ignores it; a filter, an axis, a measure
/// or an execution refuses it, naming the node type.
pub proof fn law_result_handles(node_type: Seq<char>, op: OpView, payload: Json, env: Envelope)
    requires
        envelope_of(payload) == Some(env),
        env.role == Role::Result,
    ensures
        (op is Filter || op is Axis || op is Measure || op is Execute) ==> step_spec(
            node_type,
            op,
            payload,
        ) == Err::<Step, Seq<char>>(node_type + " does not accept a result handle"@),
        op is Pivot ==> step_spec(node_type, op, payload) == Ok::<Step, Seq<char>>(
            Step::Review(env),
        ),
        op is Rotate ==> step_spec(node_type, op, payload) == Ok::<Step, Seq<char>>(
            Step::Rotate(env),
        ),
        op matches OpView::TopK(t) ==> step_spec(node_type, op, payload) == Ok::<Step, Seq<char>>(
            Step::Order(env, t),
        ),
        op matches OpView::Materialize(f) ==> step_spec(node_type, op, payload) == Ok::<
            Step,
            Seq<char>,
        >(Step::Materialize(env, f)),
        op matches OpView::Source(id) ==> step_spec(node_type, op, payload) == Ok::<Step, Seq<char>>(
            Step::Open(id),
        ),
{
}

/// What a node does with a plan handle, by its operation: an execution
/// folds it, the export terminal refuses it, a source ignores it, and every
/// other node rewrites it.
pub proof fn law_plan_handles(node_type: Seq<char>, op: OpView, payload: Json, env: Envelope)
    requires
        envelope_of(payload) == Some(env),
        env.role == Role::Plan,
    ensures
        op is Execute ==> step_spec(node_type, op, payload) == Ok::<Step, Seq<char>>(
            Step::Execute(env),
        ),
        (op is Filter || op is Axis || op is Measure || op is Pivot || op is Rotate || op is TopK)
            ==> step_spec(node_type, op, payload) == Ok::<Step, Seq<char>>(Step::Rewrite(env)),
        op is Materialize ==> step_spec(node_type, op, payload) is Err,
{
}

} // verus!

verus! {

/// A filter with `not` set selects every row its selection would not:
/// the comparison of a known field with a literal, negated.
pub proof fn law_filter_negation(
    names: Map<Seq<char>, SourceId>,
    cat: Map<Seq<char>, FieldId>,
    cam: Map<u32, Map<Seq<char>, u32>>,
    cfg: Json,
    field: Seq<char>,
    v: Json,
    value: Scalar,
)
    requires
        text_member(cfg, "field"@) == Some(field),
        cat.contains_key(field),
        cfg.member("value"@) == Some(v),
        scalar_spec(cam, cat[field], v) == Ok::<Scalar, Seq<char>>(value),
        bool_member(cfg, "not"@) == Some(true),
        text_member(cfg, "op"@) == Some("lt"@),
    ensures
        op_spec(names, cat, cam, "lance-filter"@, cfg) == Ok::<OpView, Seq<char>>(
            OpView::Filter(
                SelectionView::AndNot(
                    Box::new(SelectionView::All),
                    Box::new(SelectionView::Cmp { field: cat[field], op: CmpOp::Lt, value }),
                ),
            ),
        ),
{
    lemma_words();
}

/// The literal a filter compares with: an integer is itself, a text is
/// the ordinal its label has for the field in the codebook.
pub proof fn law_filter_literals(
    cam: Map<u32, Map<Seq<char>, u32>>,
    field: FieldId,
    v: Json,
    i: i64,
    l: Seq<char>,
    o: u32,
)
    ensures
        v.text() is None && v.signed() == Some(i) ==> scalar_spec(cam, field, v) == Ok::<
            Scalar,
            Seq<char>,
        >(Scalar::Int(i)),
        v.text() == Some(l) && ordinal_in(cam, field, l) == Some(o) ==> scalar_spec(cam, field, v)
            == Ok::<Scalar, Seq<char>>(Scalar::Ordinal(o)),
        v.text() == Some(l) && ordinal_in(cam, field, l) is None ==> scalar_spec(cam, field, v) is Err,
{
}

/// A `range` filter selects the rows from `lo` to `hi`, and a `mask`
/// filter the mask it names.
pub proof fn law_filter_range_and_mask(
    names: Map<Seq<char>, SourceId>,
    cat: Map<Seq<char>, FieldId>,
    cam: Map<u32, Map<Seq<char>, u32>>,
    cfg: Json,
    lo: u32,
    hi: u32,
    m: u32,
)
    requires
        bool_member(cfg, "not"@) != Some(true),
    ensures
        text_member(cfg, "op"@) == Some("range"@) && u32_member(cfg, "lo"@) == Some(lo)
            && u32_member(cfg, "hi"@) == Some(hi) ==> op_spec(
            names,
            cat,
            cam,
            "lance-filter"@,
            cfg,
        ) == Ok::<OpView, Seq<char>>(OpView::Filter(SelectionView::Range(RowRange { lo, hi }))),
        text_member(cfg, "op"@) == Some("mask"@) && u32_member(cfg, "mask"@) == Some(m)
            ==> op_spec(names, cat, cam, "lance-filter"@, cfg) == Ok::<OpView, Seq<char>>(
            OpView::Filter(SelectionView::Mask(MaskId(m))),
        ),
{
    lemma_words();
}

/// An axis on a bucketed field lays out buckets of the given origin,
/// width and count.
pub proof fn law_axis_buckets(
    names: Map<Seq<char>, SourceId>,
    cat: Map<Seq<char>, FieldId>,
    cam: Map<u32, Map<Seq<char>, u32>>,
    cfg: Json,
    c: Json,
    field: Seq<char>,
    b: Json,
    origin: i64,
    width: i64,
    count: u32,
)
    requires
        cfg.member("coord"@) == Some(c),
        c is Object,
        text_member(c, "field"@) == Some(field),
        cat.contains_key(field),
        c.member("bucket"@) == Some(b),
        signed_member(b, "origin"@) == Some(origin),
        signed_member(b, "width"@) == Some(width),
        signed_member(b, "count"@) == Some(count as i64),
        cfg.member("role"@) is None,
    ensures
        op_spec(names, cat, cam, "lance-axis"@, cfg) == Ok::<OpView, Seq<char>>(
            OpView::Axis(
                CoordSpec::Bucket { field: cat[field], origin, width, count },
                AxisRole::Row,
            ),
        ),
{
    lemma_words();
}

/// A top-k keeps `k` rows ordered by measure `measure` (the first when
/// absent), descending unless `descending` is false.
pub proof fn law_top_k(
    names: Map<Seq<char>, SourceId>,
    cat: Map<Seq<char>, FieldId>,
    cam: Map<u32, Map<Seq<char>, u32>>,
    cfg: Json,
    k: u64,
)
    requires
        unsigned_member(cfg, "k"@) == Some(k),
    ensures
        op_spec(names, cat, cam, "lance-top-k"@, cfg) matches Ok(OpView::TopK(t)) && t.k == k as usize
            && t.measure == (match unsigned_member(cfg, "measure"@) {
            Some(n) => n as usize,
            None => 0usize,
        }) && t.descending == (bool_member(cfg, "descending"@) != Some(false)),
{
    lemma_words();
}

/// The export terminal writes JSON (also when no format is named) or
/// CSV, as asked; an execute node just executes; a source node opens the
/// source published under its name.
pub proof fn law_other_nodes(
    names: Map<Seq<char>, SourceId>,
    cat: Map<Seq<char>, FieldId>,
    cam: Map<u32, Map<Seq<char>, u32>>,
    cfg: Json,
    n: Seq<char>,
)
    ensures
        text_member(cfg, "format"@) is None ==> op_spec(names, cat, cam, "lance-materialize"@, cfg)
            == Ok::<OpView, Seq<char>>(OpView::Materialize(Format::Json)),
        text_member(cfg, "format"@) == Some("json"@) ==> op_spec(
            names,
            cat,
            cam,
            "lance-materialize"@,
            cfg,
        ) == Ok::<OpView, Seq<char>>(OpView::Materialize(Format::Json)),
        text_member(cfg, "format"@) == Some("csv"@) ==> op_spec(
            names,
            cat,
            cam,
            "lance-materialize"@,
            cfg,
        ) == Ok::<OpView, Seq<char>>(OpView::Materialize(Format::Csv)),
        op_spec(names, cat, cam, "lance-execute"@, cfg) == Ok::<OpView, Seq<char>>(OpView::Execute),
        text_member(cfg, "source"@) == Some(n) && names.contains_key(n) ==> op_spec(
            names,
            cat,
            cam,
            "lance-source"@,
            cfg,
        ) == Ok::<OpView, Seq<char>>(OpView::Source(names[n])),
{
    lemma_words();
}

} // verus!
