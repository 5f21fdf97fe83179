//! The MongoDB binding of the repository layer: its error taxonomy and the
//! translator that lowers a [`Condition`] into the store's native query
//! shape.
//!
//! The native query is modelled by [`QueryDoc`] and [`QueryValue`]: the same
//! tree of keys and values that the driver's document type carries, held as
//! plain data so that the translation can be specified and proved. The
//! unverified rim converts a [`QueryDoc`] one-to-one into the driver's
//! document right before a call goes out.

use vstd::prelude::*;
use vstd::string::StringExecFns;

use crate::repository::condition::{
    condition_views, lemma_condition_views, Condition, ConditionHandler, ConditionModel,
    ConditionNode, ConditionValue, NodeModel, Operate, PageOption, ValueModel,
};
use crate::repository::mongo::object_id::ObjectId;

pub mod object_id;
pub mod user;
pub mod workspace;

verus! {

broadcast use vstd::std_specs::vec::group_vec_axioms, vstd::seq::group_seq_axioms;

/// The driver's connected client: an opaque handle, safe to copy and to
/// share across concurrent callers. Everything the crate states about the
/// store is stated about the plain values handed through it, never about
/// this handle.
#[verifier::external_type_specification]
#[verifier::external_body]
pub struct ExClient(::mongodb::Client);

/// Relies on ::mongodb::Client::clone: copying the shared handle, which all
/// copies of a client alias. Nothing is claimed of the copy; everything
/// the crate states is about plain values, never about the handle.
pub assume_specification[ <::mongodb::Client as Clone>::clone ](
    client: &::mongodb::Client,
) -> ::mongodb::Client;

/// The shared handle to the storage engine; every repository copies it
/// cheaply. It is created once at startup, outside this crate, and passed
/// to every repository constructor.
#[derive(Clone, Debug)]
pub struct MongoDB {
    pub client: ::mongodb::Client,
}

impl MongoDB {
    /// Wraps an already-connected driver client.
    pub fn new(client: ::mongodb::Client) -> (r: MongoDB)
        ensures
            r.client == client,
    {
        MongoDB { client }
    }
}

/// Everything a repository operation can fail with.
///
/// Every failure is a value; no operation aborts the process.
#[derive(Clone, Debug, PartialEq)]
pub enum MongodbError {
    /// A single-record read matched nothing.
    DataNotFoundError,
    /// A stored record does not deserialize into the expected shape.
    MalformedRecordError,
    /// A record identifier string is not a valid native identifier.
    InvalidIdentifierError,
    /// A caller-supplied argument is outside its allowed range, such as a
    /// page number of zero.
    InvalidArgumentError,
    /// The storage engine or the transport to it failed; the engine's own
    /// description is carried along opaquely.
    StorageFailureError(String),
}

/// One value inside a native query document.
///
/// An instant is counted in whole seconds since the Unix epoch, the
/// granularity every timestamp has at the crate's boundary; the rim widens
/// it to the driver's millisecond representation on the way out.
#[derive(Debug, PartialEq)]
pub enum QueryValue {
    Text(String),
    Int32(i32),
    Int64(i64),
    Boolean(bool),
    DateTime(i64),
    Oid(ObjectId),
    Array(Vec<QueryValue>),
    Document(QueryDoc),
}

/// A native query document: an ordered list of key-value pairs.
#[derive(Debug, PartialEq)]
pub struct QueryDoc {
    pub entries: Vec<(String, QueryValue)>,
}

/// The mathematical shape of a [`QueryValue`].
pub enum QueryValueModel {
    Text(Seq<char>),
    Int32(i32),
    Int64(i64),
    Boolean(bool),
    DateTime(i64),
    Oid(Seq<u8>),
    Array(Seq<QueryValueModel>),
    Document(Seq<(Seq<char>, QueryValueModel)>),
}

/// The mathematical shape of a [`QueryDoc`]: its key-value pairs in order.
pub type QueryDocModel = Seq<(Seq<char>, QueryValueModel)>;

impl View for QueryValue {
    type V = QueryValueModel;

    open spec fn view(&self) -> QueryValueModel
        decreases self,
    {
        match self {
            QueryValue::Text(s) => QueryValueModel::Text(s@),
            QueryValue::Int32(n) => QueryValueModel::Int32(*n),
            QueryValue::Int64(n) => QueryValueModel::Int64(*n),
            QueryValue::Boolean(b) => QueryValueModel::Boolean(*b),
            QueryValue::DateTime(t) => QueryValueModel::DateTime(*t),
            QueryValue::Oid(o) => QueryValueModel::Oid(o@),
            QueryValue::Array(items) => QueryValueModel::Array(query_value_views(items@)),
            QueryValue::Document(d) => QueryValueModel::Document(d@),
        }
    }
}

impl View for QueryDoc {
    type V = QueryDocModel;

    open spec fn view(&self) -> QueryDocModel
        decreases self,
    {
        query_entry_views(self.entries@)
    }
}

/// The models of a list of query values, in order.
pub open spec fn query_value_views(items: Seq<QueryValue>) -> Seq<QueryValueModel>
    decreases items,
{
    if items.len() == 0 {
        Seq::empty()
    } else {
        seq![items[0]@] + query_value_views(items.subrange(1, items.len() as int))
    }
}

/// The models of a document's key-value pairs, in order.
pub open spec fn query_entry_views(entries: Seq<(String, QueryValue)>) -> QueryDocModel
    decreases entries,
{
    if entries.len() == 0 {
        Seq::empty()
    } else {
        seq![(entries[0].0@, entries[0].1@)] + query_entry_views(
            entries.subrange(1, entries.len() as int),
        )
    }
}

/// `query_value_views` is the element-wise model of its argument.
pub proof fn lemma_query_value_views(items: Seq<QueryValue>)
    ensures
        query_value_views(items).len() == items.len(),
        forall|i: int| 0 <= i < items.len() ==> query_value_views(items)[i] == items[i]@,
    decreases items.len(),
{
    if items.len() > 0 {
        let rest = items.subrange(1, items.len() as int);
        lemma_query_value_views(rest);
        assert(query_value_views(items) == seq![items[0]@] + query_value_views(rest));
        assert forall|i: int| 0 <= i < items.len() implies query_value_views(items)[i]
            == items[i]@ by {
            if i == 0 {
                assert((seq![items[0]@] + query_value_views(rest))[0] == items[0]@);
            } else {
                assert((seq![items[0]@] + query_value_views(rest))[i] == query_value_views(
                    rest,
                )[i - 1]);
                assert(rest[i - 1] == items[i]);
            }
        }
    }
}

/// `query_entry_views` is the element-wise model of its argument.
pub proof fn lemma_query_entry_views(entries: Seq<(String, QueryValue)>)
    ensures
        query_entry_views(entries).len() == entries.len(),
        forall|i: int|
            0 <= i < entries.len() ==> query_entry_views(entries)[i] == (
            entries[i].0@,
            entries[i].1@,
            ),
    decreases entries.len(),
{
    if entries.len() > 0 {
        let rest = entries.subrange(1, entries.len() as int);
        lemma_query_entry_views(rest);
        assert(query_entry_views(entries) == seq![(entries[0].0@, entries[0].1@)]
            + query_entry_views(rest));
        assert forall|i: int| 0 <= i < entries.len() implies query_entry_views(entries)[i] == (
            entries[i].0@,
            entries[i].1@,
        ) by {
            if i == 0 {
                assert((seq![(entries[0].0@, entries[0].1@)] + query_entry_views(rest))[0] == (
                    entries[0].0@,
                    entries[0].1@,
                ));
            } else {
                assert((seq![(entries[0].0@, entries[0].1@)] + query_entry_views(rest))[i]
                    == query_entry_views(rest)[i - 1]);
                assert(rest[i - 1] == entries[i]);
            }
        }
    }
}

/// The native operator token for each comparison.
///
/// Less-or-equal and greater-or-equal are spelt `$lte` and `$gte`, the
/// tokens the query language defines; substring match is spelt `$regex`.
pub open spec fn spec_operator_token(op: Operate) -> Seq<char> {
    match op {
        Operate::Eq => "$eq"@,
        Operate::Ne => "$ne"@,
        Operate::Lt => "$lt"@,
        Operate::Le => "$lte"@,
        Operate::Gt => "$gt"@,
        Operate::Ge => "$gte"@,
        Operate::In => "$in"@,
        Operate::Contains => "$regex"@,
    }
}

/// The native value a leaf's value lowers to.
///
/// Under a substring match a string becomes a match-anywhere pattern: the
/// raw text between two unanchored wildcards. The text is deliberately not
/// escaped, so pattern metacharacters in it keep their native meaning.
/// Every list becomes a native array with the same element mapping.
pub open spec fn spec_query_value(op: Operate, v: ValueModel) -> QueryValueModel {
    match v {
        ValueModel::Text(s) => if op is Contains {
            QueryValueModel::Text(".*"@ + s + ".*"@)
        } else {
            QueryValueModel::Text(s)
        },
        ValueModel::TextList(l) => QueryValueModel::Array(
            Seq::new(l.len(), |i: int| QueryValueModel::Text(l[i])),
        ),
        ValueModel::Int32(n) => QueryValueModel::Int32(n),
        ValueModel::Int32List(l) => QueryValueModel::Array(
            Seq::new(l.len(), |i: int| QueryValueModel::Int32(l[i])),
        ),
        ValueModel::Int64(n) => QueryValueModel::Int64(n),
        ValueModel::Int64List(l) => QueryValueModel::Array(
            Seq::new(l.len(), |i: int| QueryValueModel::Int64(l[i])),
        ),
        ValueModel::Boolean(b) => QueryValueModel::Boolean(b),
        ValueModel::DateTime(t) => QueryValueModel::DateTime(t),
        ValueModel::Oid(b) => QueryValueModel::Oid(b),
    }
}

/// The one-entry document a leaf predicate lowers to: the field mapped to a
/// one-key operator document.
pub open spec fn spec_single_doc(node: NodeModel) -> QueryDocModel {
    seq![
        (
            node.field,
            QueryValueModel::Document(
                seq![(spec_operator_token(node.operate), spec_query_value(node.operate, node.value))],
            ),
        ),
    ]
}

/// The native array a group of sub-conditions lowers to: one document per
/// sub-condition, in order.
pub open spec fn spec_group_array(conds: Seq<ConditionModel>) -> Seq<QueryValueModel>
    decreases conds,
{
    if conds.len() == 0 {
        Seq::empty()
    } else {
        seq![QueryValueModel::Document(spec_transfer_condition(conds[0]))] + spec_group_array(
            conds.subrange(1, conds.len() as int),
        )
    }
}

/// What a condition lowers to.
///
/// The empty condition is the empty document, the store's match-everything
/// query. A leaf is its one-entry document. A complex condition holds one
/// `$and`, `$or` and `$nor` key per non-empty group, in that order; an empty
/// group contributes no key at all, so it imposes no restriction. (The
/// store rejects an empty array under these operators, and the intended
/// meaning of an absent group is "no additional restriction", so omission is
/// the only lowering that preserves it.)
pub open spec fn spec_transfer_condition(c: ConditionModel) -> QueryDocModel
    decreases c,
{
    match c {
        ConditionModel::Empty => Seq::empty(),
        ConditionModel::Single(node) => spec_single_doc(node),
        ConditionModel::Complex { and, or, nor } => (if and.len() > 0 {
            seq![("$and"@, QueryValueModel::Array(spec_group_array(and)))]
        } else {
            Seq::empty()
        }) + (if or.len() > 0 {
            seq![("$or"@, QueryValueModel::Array(spec_group_array(or)))]
        } else {
            Seq::empty()
        }) + (if nor.len() > 0 {
            seq![("$nor"@, QueryValueModel::Array(spec_group_array(nor)))]
        } else {
            Seq::empty()
        }),
    }
}

/// `spec_group_array` is the element-wise lowering of its argument.
pub proof fn lemma_spec_group_array(conds: Seq<ConditionModel>)
    ensures
        spec_group_array(conds).len() == conds.len(),
        forall|i: int|
            0 <= i < conds.len() ==> spec_group_array(conds)[i] == QueryValueModel::Document(
                spec_transfer_condition(conds[i]),
            ),
    decreases conds.len(),
{
    if conds.len() > 0 {
        let rest = conds.subrange(1, conds.len() as int);
        lemma_spec_group_array(rest);
        let head = seq![QueryValueModel::Document(spec_transfer_condition(conds[0]))];
        assert(spec_group_array(conds) == head + spec_group_array(rest));
        assert forall|i: int| 0 <= i < conds.len() implies spec_group_array(conds)[i]
            == QueryValueModel::Document(spec_transfer_condition(conds[i])) by {
            if i == 0 {
                assert((head + spec_group_array(rest))[0] == head[0]);
            } else {
                assert((head + spec_group_array(rest))[i] == spec_group_array(rest)[i - 1]);
                assert(rest[i - 1] == conds[i]);
            }
        }
    }
}

/// Lowers the storage-agnostic condition model into the store's native
/// query documents and cursor options. Both translations are pure: the
/// result depends on nothing but the argument.
pub struct MongoDBConditionHandler {}

/// The cursor window a find issues: records to skip, then records to return.
#[derive(Clone, Copy, Debug, PartialEq, Eq)]
pub struct FindOptions {
    pub skip: u64,
    pub limit: i64,
}

/// The window a count is restricted to, mirroring [`FindOptions`].
#[derive(Clone, Copy, Debug, PartialEq, Eq)]
pub struct CountOptions {
    pub skip: u64,
    pub limit: u64,
}

/// A page request the translator accepts: the page is counted from one, and
/// the window it denotes fits the native option types.
pub open spec fn spec_page_valid(p: PageOption) -> bool {
    &&& 1 <= p.page
    &&& (p.page - 1) * p.size <= usize::MAX
    &&& p.size <= i64::MAX
}

impl MongoDBConditionHandler {
    /// Lowers a condition into the native query document.
    pub fn transfer_condition(condition: &Condition) -> (r: QueryDoc)
        ensures
            r@ == spec_transfer_condition(condition@),
        decreases condition,
    {
        match condition {
            Condition::Empty => {
                let r = QueryDoc { entries: Vec::new() };
                proof {
                    assert(r@ =~= spec_transfer_condition(condition@));
                }
                r
            },
            Condition::Single(node) => single_condition_to_doc(node),
            Condition::Complex { and, or, nor } => {
                let mut entries: Vec<(String, QueryValue)> = Vec::new();
                if and.len() > 0 {
                    let items = transfer_group(and);
                    proof {
                        lemma_query_value_views(items@);
                        lemma_condition_views(and@);
                        lemma_spec_group_array(condition_views(and@));
                        assert(query_value_views(items@) =~= spec_group_array(
                            condition_views(and@),
                        ));
                    }
                    entries.push(("$and".to_owned(), QueryValue::Array(items)));
                }
                if or.len() > 0 {
                    let items = transfer_group(or);
                    proof {
                        lemma_query_value_views(items@);
                        lemma_condition_views(or@);
                        lemma_spec_group_array(condition_views(or@));
                        assert(query_value_views(items@) =~= spec_group_array(
                            condition_views(or@),
                        ));
                    }
                    entries.push(("$or".to_owned(), QueryValue::Array(items)));
                }
                if nor.len() > 0 {
                    let items = transfer_group(nor);
                    proof {
                        lemma_query_value_views(items@);
                        lemma_condition_views(nor@);
                        lemma_spec_group_array(condition_views(nor@));
                        assert(query_value_views(items@) =~= spec_group_array(
                            condition_views(nor@),
                        ));
                    }
                    entries.push(("$nor".to_owned(), QueryValue::Array(items)));
                }
                let r = QueryDoc { entries };
                proof {
                    lemma_query_entry_views(r.entries@);
                    lemma_condition_views(and@);
                    lemma_condition_views(or@);
                    lemma_condition_views(nor@);
                    assert(r@ =~= spec_transfer_condition(condition@));
                }
                r
            },
        }
    }

    /// Lowers a page request into the window the native find and count
    /// calls take: skip the records of the earlier pages, return one page.
    ///
    /// A page of zero, or a window that does not fit the native option
    /// types, is rejected rather than wrapped around.
    pub fn transfer_page_options(page_option: &PageOption) -> (r: Result<
        (FindOptions, CountOptions),
        MongodbError,
    >)
        ensures
            r is Ok <==> spec_page_valid(*page_option),
            r matches Ok(opts) ==> ({
                &&& opts.0.skip == (page_option.page - 1) * page_option.size
                &&& opts.0.limit == page_option.size
                &&& opts.1.skip == (page_option.page - 1) * page_option.size
                &&& opts.1.limit == page_option.size
            }),
            !spec_page_valid(*page_option) ==> r == Err::<
                (FindOptions, CountOptions),
                MongodbError,
            >(MongodbError::InvalidArgumentError),
    {
        if page_option.page == 0 {
            return Err(MongodbError::InvalidArgumentError);
        }
        if (page_option.size as u64) > (i64::MAX as u64) {
            return Err(MongodbError::InvalidArgumentError);
        }
        match (page_option.page - 1).checked_mul(page_option.size) {
            None => Err(MongodbError::InvalidArgumentError),
            Some(skip) => {
                let find_options = FindOptions { skip: skip as u64, limit: page_option.size as i64 };
                let count_options = CountOptions { skip: skip as u64, limit: page_option.size as u64 };
                Ok((find_options, count_options))
            },
        }
    }
}

impl ConditionHandler for MongoDBConditionHandler {
    type TransferResult = QueryDoc;

    type TransferPageResult = Result<(FindOptions, CountOptions), MongodbError>;

    fn transfer_condition(condition: &Condition) -> QueryDoc {
        MongoDBConditionHandler::transfer_condition(condition)
    }

    fn transfer_page_options(page_option: &PageOption) -> Result<
        (FindOptions, CountOptions),
        MongodbError,
    > {
        MongoDBConditionHandler::transfer_page_options(page_option)
    }
}

/// Lowers each sub-condition of a group into its document, in order.
fn transfer_group(conds: &Vec<Condition>) -> (r: Vec<QueryValue>)
    ensures
        r@.len() == conds@.len(),
        forall|i: int|
            0 <= i < conds@.len() ==> r@[i]@ == QueryValueModel::Document(
                spec_transfer_condition(conds@[i]@),
            ),
    decreases conds,
{
    let mut items: Vec<QueryValue> = Vec::new();
    let mut idx: usize = 0;
    while idx < conds.len()
        invariant
            idx <= conds@.len(),
            items@.len() == idx,
            forall|j: int|
                0 <= j < idx ==> items@[j]@ == QueryValueModel::Document(
                    spec_transfer_condition(conds@[j]@),
                ),
        decreases conds@.len() - idx,
    {
        let doc = MongoDBConditionHandler::transfer_condition(&conds[idx]);
        items.push(QueryValue::Document(doc));
        idx += 1;
    }
    items
}

/// Lowers one leaf predicate: the field mapped to its operator document.
fn single_condition_to_doc(node: &ConditionNode) -> (r: QueryDoc)
    ensures
        r@ == spec_single_doc(node@),
{
    let inner = operate_value_to_doc(&node.operate, &node.value);
    let mut entries: Vec<(String, QueryValue)> = Vec::new();
    entries.push((node.field.clone(), QueryValue::Document(inner)));
    let r = QueryDoc { entries };
    proof {
        lemma_query_entry_views(r.entries@);
        assert(r@ =~= spec_single_doc(node@));
    }
    r
}

/// Lowers one operator and value into the one-key operator document.
fn operate_value_to_doc(operate: &Operate, value: &ConditionValue) -> (r: QueryDoc)
    ensures
        r@ == (seq![
            (spec_operator_token(*operate), spec_query_value(*operate, value@)),
        ]),
{
    let token = operator_token(operate);
    let val = query_value_of(operate, value);
    let mut entries: Vec<(String, QueryValue)> = Vec::new();
    entries.push((token, val));
    let r = QueryDoc { entries };
    proof {
        lemma_query_entry_views(r.entries@);
        assert(r@ =~= seq![
            (spec_operator_token(*operate), spec_query_value(*operate, value@)),
        ]);
    }
    r
}

/// The native spelling of a comparison operator.
fn operator_token(operate: &Operate) -> (r: String)
    ensures
        r@ == spec_operator_token(*operate),
{
    match operate {
        Operate::Eq => "$eq".to_owned(),
        Operate::Ne => "$ne".to_owned(),
        Operate::Lt => "$lt".to_owned(),
        Operate::Le => "$lte".to_owned(),
        Operate::Gt => "$gt".to_owned(),
        Operate::Ge => "$gte".to_owned(),
        Operate::In => "$in".to_owned(),
        Operate::Contains => "$regex".to_owned(),
    }
}

/// Lowers one condition value under its operator.
fn query_value_of(operate: &Operate, value: &ConditionValue) -> (r: QueryValue)
    ensures
        r@ == spec_query_value(*operate, value@),
{
    match value {
        ConditionValue::StringValue(s) => {
            if matches!(operate, Operate::Contains) {
                let mut pattern = ".*".to_owned();
                pattern.append(s.as_str());
                pattern.append(".*");
                QueryValue::Text(pattern)
            } else {
                QueryValue::Text(s.clone())
            }
        },
        ConditionValue::StringVecValue(v) => {
            let mut items: Vec<QueryValue> = Vec::new();
            let mut idx: usize = 0;
            while idx < v.len()
                invariant
                    idx <= v@.len(),
                    items@.len() == idx,
                    forall|j: int|
                        0 <= j < idx ==> items@[j]@ == QueryValueModel::Text(v@[j]@),
                decreases v@.len() - idx,
            {
                items.push(QueryValue::Text(v[idx].clone()));
                idx += 1;
            }
            let r = QueryValue::Array(items);
            proof {
                lemma_query_value_views(items@);
                let sv = spec_query_value(*operate, value@);
                assert(sv matches QueryValueModel::Array(a) && query_value_views(items@) =~= a);
                assert(r@ == sv);
            }
            r
        },
        ConditionValue::Int32Value(n) => QueryValue::Int32(*n),
        ConditionValue::Int32VecValue(v) => {
            let mut items: Vec<QueryValue> = Vec::new();
            let mut idx: usize = 0;
            while idx < v.len()
                invariant
                    idx <= v@.len(),
                    items@.len() == idx,
                    forall|j: int|
                        0 <= j < idx ==> items@[j]@ == QueryValueModel::Int32(v@[j]),
                decreases v@.len() - idx,
            {
                items.push(QueryValue::Int32(v[idx]));
                idx += 1;
            }
            let r = QueryValue::Array(items);
            proof {
                lemma_query_value_views(items@);
                let sv = spec_query_value(*operate, value@);
                assert(sv matches QueryValueModel::Array(a) && query_value_views(items@) =~= a);
                assert(r@ == sv);
            }
            r
        },
        ConditionValue::Int64Value(n) => QueryValue::Int64(*n),
        ConditionValue::Int64VecValue(v) => {
            let mut items: Vec<QueryValue> = Vec::new();
            let mut idx: usize = 0;
            while idx < v.len()
                invariant
                    idx <= v@.len(),
                    items@.len() == idx,
                    forall|j: int|
                        0 <= j < idx ==> items@[j]@ == QueryValueModel::Int64(v@[j]),
                decreases v@.len() - idx,
            {
                items.push(QueryValue::Int64(v[idx]));
                idx += 1;
            }
            let r = QueryValue::Array(items);
            proof {
                lemma_query_value_views(items@);
                let sv = spec_query_value(*operate, value@);
                assert(sv matches QueryValueModel::Array(a) && query_value_views(items@) =~= a);
                assert(r@ == sv);
            }
            r
        },
        ConditionValue::BooleanValue(b) => QueryValue::Boolean(*b),
        ConditionValue::DateTimeValue(t) => QueryValue::DateTime(*t),
        ConditionValue::ObjectIdValue(o) => QueryValue::Oid(o.clone()),
    }
}

/// How `exist` decides from the native count: any match at all.
pub fn exist_of_count(count: u64) -> (r: bool)
    ensures
        r == (count != 0),
{
    count != 0
}

/// How `update` decides from the native replace outcome: exactly one
/// record was modified.
pub fn update_applied(modified_count: u64) -> (r: bool)
    ensures
        r == (modified_count == 1),
{
    modified_count == 1
}

/// How `delete` decides from the native delete outcome: exactly one record
/// was removed. The operation itself only ever removes at most one, since
/// it is issued as a delete-one however many records its condition matches.
pub fn delete_applied(deleted_count: u64) -> (r: bool)
    ensures
        r == (deleted_count == 1),
{
    deleted_count == 1
}

/// The total a page result carries: the full count when the caller asked
/// for one, and nothing at all when counting was skipped — never a
/// sentinel value.
pub fn page_total(is_count_all: bool, total: u64) -> (r: Option<i64>)
    requires
        total <= i64::MAX,
    ensures
        r is Some <==> is_count_all,
        r matches Some(n) ==> n == total,
{
    if is_count_all {
        Some(total as i64)
    } else {
        None
    }
}

/// A complex condition whose three groups are all empty restricts nothing:
/// it lowers to the same native query as the empty condition, the store's
/// match-everything document.
pub proof fn lemma_empty_complex_matches_everything()
    ensures
        spec_transfer_condition(
            ConditionModel::Complex {
                and: Seq::empty(),
                or: Seq::empty(),
                nor: Seq::empty(),
            },
        ) == spec_transfer_condition(ConditionModel::Empty),
{
    assert(spec_transfer_condition(
        ConditionModel::Complex { and: Seq::empty(), or: Seq::empty(), nor: Seq::empty() },
    ) =~= spec_transfer_condition(ConditionModel::Empty));
}

} // verus!
