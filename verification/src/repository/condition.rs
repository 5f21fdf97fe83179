//! The storage-agnostic query model.
//!
//! A [`Condition`] is an immutable boolean expression tree describing which
//! records an operation touches: a leaf compares one field against one value,
//! and a complex node combines whole sub-conditions with AND, OR and NOR. The
//! convenience builders deliberately produce *flat* groups of leaves; nested
//! composition stays possible, but only by constructing [`Condition::Complex`]
//! directly.

use vstd::prelude::*;

use crate::repository::mongo::object_id::ObjectId;

verus! {

broadcast use vstd::std_specs::vec::group_vec_axioms, vstd::seq::group_seq_axioms;

/// The comparison a leaf predicate performs.
#[derive(Clone, Copy, Debug, PartialEq, Eq)]
pub enum Operate {
    Eq,
    Ne,
    Lt,
    Le,
    Gt,
    Ge,
    In,
    Contains,
}

/// The value a leaf predicate compares against. Exactly one variant is
/// active; whether it suits the chosen operator is a translation-time
/// concern, not enforced at construction.
///
/// An instant is counted in whole seconds since the Unix epoch, the
/// granularity every timestamp has at the crate's boundary.
#[derive(Debug, PartialEq)]
pub enum ConditionValue {
    StringValue(String),
    StringVecValue(Vec<String>),
    Int32Value(i32),
    Int32VecValue(Vec<i32>),
    Int64Value(i64),
    Int64VecValue(Vec<i64>),
    BooleanValue(bool),
    DateTimeValue(i64),
    ObjectIdValue(ObjectId),
}

/// The mathematical shape of a [`ConditionValue`].
pub enum ValueModel {
    Text(Seq<char>),
    TextList(Seq<Seq<char>>),
    Int32(i32),
    Int32List(Seq<i32>),
    Int64(i64),
    Int64List(Seq<i64>),
    Boolean(bool),
    DateTime(i64),
    Oid(Seq<u8>),
}

impl View for ConditionValue {
    type V = ValueModel;

    open spec fn view(&self) -> ValueModel {
        match self {
            ConditionValue::StringValue(s) => ValueModel::Text(s@),
            ConditionValue::StringVecValue(v) => ValueModel::TextList(
                Seq::new(v@.len(), |i: int| v@[i]@),
            ),
            ConditionValue::Int32Value(n) => ValueModel::Int32(*n),
            ConditionValue::Int32VecValue(v) => ValueModel::Int32List(v@),
            ConditionValue::Int64Value(n) => ValueModel::Int64(*n),
            ConditionValue::Int64VecValue(v) => ValueModel::Int64List(v@),
            ConditionValue::BooleanValue(b) => ValueModel::Boolean(*b),
            ConditionValue::DateTimeValue(t) => ValueModel::DateTime(*t),
            ConditionValue::ObjectIdValue(o) => ValueModel::Oid(o@),
        }
    }
}

impl Clone for ConditionValue {
    /// A clone is the same value, model for model.
    fn clone(&self) -> (r: Self)
        ensures
            r@ == self@,
    {
        match self {
            ConditionValue::StringValue(s) => ConditionValue::StringValue(s.clone()),
            ConditionValue::StringVecValue(v) => {
                let c = v.clone();
                proof {
                    assert(c@ =~= v@);
                }
                ConditionValue::StringVecValue(c)
            },
            ConditionValue::Int32Value(n) => ConditionValue::Int32Value(*n),
            ConditionValue::Int32VecValue(v) => {
                let c = v.clone();
                proof {
                    assert(c@ =~= v@);
                }
                ConditionValue::Int32VecValue(c)
            },
            ConditionValue::Int64Value(n) => ConditionValue::Int64Value(*n),
            ConditionValue::Int64VecValue(v) => {
                let c = v.clone();
                proof {
                    assert(c@ =~= v@);
                }
                ConditionValue::Int64VecValue(c)
            },
            ConditionValue::BooleanValue(b) => ConditionValue::BooleanValue(*b),
            ConditionValue::DateTimeValue(t) => ConditionValue::DateTimeValue(*t),
            ConditionValue::ObjectIdValue(o) => ConditionValue::ObjectIdValue(o.clone()),
        }
    }
}

/// One leaf predicate: a field, a comparison, and a value.
#[derive(Debug, PartialEq)]
pub struct ConditionNode {
    pub field: String,
    pub operate: Operate,
    pub value: ConditionValue,
}

/// The mathematical shape of a [`ConditionNode`].
pub struct NodeModel {
    pub field: Seq<char>,
    pub operate: Operate,
    pub value: ValueModel,
}

impl View for ConditionNode {
    type V = NodeModel;

    open spec fn view(&self) -> NodeModel {
        NodeModel { field: self.field@, operate: self.operate, value: self.value@ }
    }
}

impl Clone for ConditionNode {
    /// A clone is the same leaf, model for model.
    fn clone(&self) -> (r: Self)
        ensures
            r@ == self@,
    {
        ConditionNode {
            field: self.field.clone(),
            operate: self.operate,
            value: self.value.clone(),
        }
    }
}

/// A boolean query expression tree.
///
/// `Empty` matches every record. `Single` is one leaf predicate. `Complex`
/// carries three independent groups; each group is combined with its own
/// boolean operator and the groups restrict the result jointly. An absent
/// group is an empty list and imposes no restriction.
#[derive(Debug, PartialEq)]
pub enum Condition {
    Empty,
    Single(ConditionNode),
    Complex { and: Box<Vec<Condition>>, or: Box<Vec<Condition>>, nor: Box<Vec<Condition>> },
}

/// The mathematical shape of a [`Condition`].
pub enum ConditionModel {
    Empty,
    Single(NodeModel),
    Complex { and: Seq<ConditionModel>, or: Seq<ConditionModel>, nor: Seq<ConditionModel> },
}

impl View for Condition {
    type V = ConditionModel;

    open spec fn view(&self) -> ConditionModel
        decreases self,
    {
        match self {
            Condition::Empty => ConditionModel::Empty,
            Condition::Single(node) => ConditionModel::Single(node@),
            Condition::Complex { and, or, nor } => ConditionModel::Complex {
                and: condition_views(and@),
                or: condition_views(or@),
                nor: condition_views(nor@),
            },
        }
    }
}

/// The models of a group's sub-conditions, in order.
pub open spec fn condition_views(conds: Seq<Condition>) -> Seq<ConditionModel>
    decreases conds,
{
    if conds.len() == 0 {
        Seq::empty()
    } else {
        seq![conds[0]@] + condition_views(conds.subrange(1, conds.len() as int))
    }
}

/// `condition_views` is the element-wise model of its argument.
pub proof fn lemma_condition_views(conds: Seq<Condition>)
    ensures
        condition_views(conds).len() == conds.len(),
        forall|i: int| 0 <= i < conds.len() ==> condition_views(conds)[i] == conds[i]@,
    decreases conds.len(),
{
    if conds.len() > 0 {
        let rest = conds.subrange(1, conds.len() as int);
        lemma_condition_views(rest);
        assert(condition_views(conds) == seq![conds[0]@] + condition_views(rest));
        assert forall|i: int| 0 <= i < conds.len() implies condition_views(conds)[i]
            == conds[i]@ by {
            if i == 0 {
                assert((seq![conds[0]@] + condition_views(rest))[0] == conds[0]@);
            } else {
                assert((seq![conds[0]@] + condition_views(rest))[i] == condition_views(
                    rest,
                )[i - 1]);
                assert(rest[i - 1] == conds[i]);
            }
        }
    }
}

impl Clone for Condition {
    /// A clone is the same condition tree, model for model.
    fn clone(&self) -> (r: Self)
        ensures
            r@ == self@,
        decreases self,
    {
        match self {
            Condition::Empty => Condition::Empty,
            Condition::Single(node) => Condition::Single(node.clone()),
            Condition::Complex { and, or, nor } => {
                let r = Condition::Complex {
                    and: Box::new(clone_group(and)),
                    or: Box::new(clone_group(or)),
                    nor: Box::new(clone_group(nor)),
                };
                proof {
                    if let Condition::Complex { and: ca, or: co, nor: cn } = &r {
                        lemma_condition_views_equal(ca@, and@);
                        lemma_condition_views_equal(co@, or@);
                        lemma_condition_views_equal(cn@, nor@);
                    }
                }
                r
            },
        }
    }
}

/// Clones each condition of a group, in order.
fn clone_group(conds: &Vec<Condition>) -> (r: Vec<Condition>)
    ensures
        r@.len() == conds@.len(),
        forall|i: int| 0 <= i < conds@.len() ==> r@[i]@ == conds@[i]@,
    decreases conds,
{
    let mut out: Vec<Condition> = Vec::new();
    let mut idx: usize = 0;
    while idx < conds.len()
        invariant
            idx <= conds@.len(),
            out@.len() == idx,
            forall|j: int| 0 <= j < idx ==> out@[j]@ == conds@[j]@,
        decreases conds@.len() - idx,
    {
        out.push(conds[idx].clone());
        idx += 1;
    }
    out
}

/// Two groups whose conditions agree model for model lower to the same
/// sequence of models.
pub proof fn lemma_condition_views_equal(a: Seq<Condition>, b: Seq<Condition>)
    requires
        a.len() == b.len(),
        forall|i: int| 0 <= i < a.len() ==> a[i]@ == b[i]@,
    ensures
        condition_views(a) == condition_views(b),
{
    lemma_condition_views(a);
    lemma_condition_views(b);
    assert(condition_views(a) =~= condition_views(b));
}

/// The leaves that a flat builder wraps, as a model: one `Single` per tuple.
pub open spec fn spec_flat_group(tuples: Seq<(String, Operate, ConditionValue)>) -> Seq<
    ConditionModel,
> {
    Seq::new(
        tuples.len(),
        |i: int| ConditionModel::Single(
            NodeModel { field: tuples[i].0@, operate: tuples[i].1, value: tuples[i].2@ },
        ),
    )
}

impl Condition {
    /// Wraps one leaf predicate.
    pub fn single(field: String, operate: Operate, value: ConditionValue) -> (r: Condition)
        ensures
            r@ == (ConditionModel::Single(NodeModel { field: field@, operate, value: value@ })),
    {
        Condition::Single(ConditionNode { field, operate, value })
    }

    /// Builds a flat AND group: one leaf per tuple, the other groups empty.
    pub fn and(conditions: Vec<(String, Operate, ConditionValue)>) -> (r: Condition)
        ensures
            r@ == (ConditionModel::Complex {
                and: spec_flat_group(conditions@),
                or: Seq::empty(),
                nor: Seq::empty(),
            }),
    {
        let ghost orig = conditions@;
        let conds = flat_leaves(conditions);
        let r = Condition::Complex {
            and: Box::new(conds),
            or: Box::new(Vec::new()),
            nor: Box::new(Vec::new()),
        };
        proof {
            lemma_condition_views(conds@);
            lemma_condition_views(Seq::<Condition>::empty());
            assert(r@->and =~= spec_flat_group(orig));
            assert(r@->or =~= Seq::<ConditionModel>::empty());
            assert(r@->nor =~= Seq::<ConditionModel>::empty());
        }
        r
    }

    /// Builds a flat OR group: one leaf per tuple, the other groups empty.
    pub fn or(conditions: Vec<(String, Operate, ConditionValue)>) -> (r: Condition)
        ensures
            r@ == (ConditionModel::Complex {
                and: Seq::empty(),
                or: spec_flat_group(conditions@),
                nor: Seq::empty(),
            }),
    {
        let ghost orig = conditions@;
        let conds = flat_leaves(conditions);
        let r = Condition::Complex {
            and: Box::new(Vec::new()),
            or: Box::new(conds),
            nor: Box::new(Vec::new()),
        };
        proof {
            lemma_condition_views(conds@);
            lemma_condition_views(Seq::<Condition>::empty());
            assert(r@->and =~= Seq::<ConditionModel>::empty());
            assert(r@->or =~= spec_flat_group(orig));
            assert(r@->nor =~= Seq::<ConditionModel>::empty());
        }
        r
    }

    /// Builds a flat NOR group: one leaf per tuple, the other groups empty.
    pub fn nor(conditions: Vec<(String, Operate, ConditionValue)>) -> (r: Condition)
        ensures
            r@ == (ConditionModel::Complex {
                and: Seq::empty(),
                or: Seq::empty(),
                nor: spec_flat_group(conditions@),
            }),
    {
        let ghost orig = conditions@;
        let conds = flat_leaves(conditions);
        let r = Condition::Complex {
            and: Box::new(Vec::new()),
            or: Box::new(Vec::new()),
            nor: Box::new(conds),
        };
        proof {
            lemma_condition_views(conds@);
            lemma_condition_views(Seq::<Condition>::empty());
            assert(r@->and =~= Seq::<ConditionModel>::empty());
            assert(r@->or =~= Seq::<ConditionModel>::empty());
            assert(r@->nor =~= spec_flat_group(orig));
        }
        r
    }
}

/// Turns each `(field, operate, value)` tuple into a leaf condition,
/// keeping the order.
fn flat_leaves(conditions: Vec<(String, Operate, ConditionValue)>) -> (r: Vec<Condition>)
    ensures
        r@.len() == conditions@.len(),
        forall|i: int| 0 <= i < r@.len() ==> r@[i]@ == spec_flat_group(conditions@)[i],
{
    let ghost orig = conditions@;
    let mut remaining = conditions;
    let mut conds: Vec<Condition> = Vec::new();
    while remaining.len() > 0
        invariant
            conds@.len() + remaining@.len() == orig.len(),
            remaining@ =~= orig.subrange(conds@.len() as int, orig.len() as int),
            forall|j: int|
                0 <= j < conds@.len() ==> conds@[j]@ == ConditionModel::Single(
                    NodeModel { field: orig[j].0@, operate: orig[j].1, value: orig[j].2@ },
                ),
        decreases remaining@.len(),
    {
        let ghost done = conds@.len() as int;
        let tuple = remaining.remove(0);
        proof {
            assert(tuple == orig[done]);
            assert(remaining@ =~= orig.subrange(done + 1, orig.len() as int));
        }
        conds.push(Condition::Single(ConditionNode {
            field: tuple.0,
            operate: tuple.1,
            value: tuple.2,
        }));
    }
    conds
}

/// How a page of results is cut out of the full match: the page number
/// (counted from one) and the page size.
#[derive(Clone, Debug, PartialEq)]
pub struct PageOption {
    pub page: usize,
    pub size: usize,
}

/// A condition translator: lowers the storage-agnostic condition model
/// into one backend's native query and pagination shapes.
pub trait ConditionHandler {
    type TransferResult;

    type TransferPageResult;

    fn transfer_condition(condition: &Condition) -> Self::TransferResult;

    fn transfer_page_options(page_option: &PageOption) -> Self::TransferPageResult;
}

} // verus!
