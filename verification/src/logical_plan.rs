//! Aggregate function descriptions and the column projection that renames plan columns.
//!
//! Resolving a column name against a plan's schema (with its error for unknown
//! columns), building the projected plan, and decoding Substrait plans are DataFusion's
//! work, and this crate does not depend on DataFusion: `rename_projection` takes the
//! renamed columns already resolved to their positions in the schema.

use vstd::prelude::*;

verus! {

broadcast use vstd::std_specs::vec::group_vec_axioms;

/// The data type of a column or an expression.
#[derive(Debug, Clone, Copy, PartialEq, Eq, Structural)]
pub enum ConcreteDataType {
    Null,
    Boolean,
    Int8,
    Int16,
    Int32,
    Int64,
    UInt8,
    UInt16,
    UInt32,
    UInt64,
    Float32,
    Float64,
    Binary,
    String,
    Date,
}

impl ConcreteDataType {
    pub fn float64_datatype() -> (t: ConcreteDataType)
        ensures
            t == ConcreteDataType::Float64,
    {
        ConcreteDataType::Float64
    }

    pub fn uint32_datatype() -> (t: ConcreteDataType)
        ensures
            t == ConcreteDataType::UInt32,
    {
        ConcreteDataType::UInt32
    }
}

/// An error raised while planning or running a query.
#[derive(Debug)]
pub struct QueryError {
    pub message: String,
}

/// The argument types a function accepts.
#[derive(Debug, Clone, Copy, PartialEq, Eq, Structural)]
pub enum TypeSignature {
    /// Any number of arguments of one common type.
    VariadicEqual,
    /// Any number of arguments of any types.
    VariadicAny,
    /// The given number of numeric arguments.
    Numeric(usize),
    /// The given number of arguments of any types.
    Any(usize),
}

/// Whether a function gives the same result for the same arguments.
#[derive(Debug, Clone, Copy, PartialEq, Eq, Structural)]
pub enum Volatility {
    /// Always the same result for the same arguments.
    Immutable,
    /// The same result within one query.
    Stable,
    /// Possibly a different result on each call.
    Volatile,
}

/// The signature of a function: the arguments it accepts and its volatility.
#[derive(Debug, Clone, Copy, PartialEq, Eq, Structural)]
pub struct Signature {
    pub type_signature: TypeSignature,
    pub volatility: Volatility,
}

impl Signature {
    /// A signature of `arg_count` arguments of any types.
    pub fn any(arg_count: usize, volatility: Volatility) -> (s: Signature)
        ensures
            s == (Signature { type_signature: TypeSignature::Any(arg_count), volatility }),
    {
        Signature { type_signature: TypeSignature::Any(arg_count), volatility }
    }
}

/// Creates the accumulators of an aggregate function, and knows its types.
pub trait AggregateFunctionCreator {
    /// The types of the arguments the function was called with.
    fn input_types(&self) -> Result<Vec<ConcreteDataType>, QueryError>;

    /// Records the types of the arguments the function is called with.
    fn set_input_types(&self, input_types: Vec<ConcreteDataType>) -> Result<(), QueryError>;

    /// The type of the aggregate's result.
    fn output_type(&self) -> Result<ConcreteDataType, QueryError>;

    /// The types of the accumulator's state.
    fn state_types(&self) -> Result<Vec<ConcreteDataType>, QueryError>;

    /// The accumulator that computes the aggregate.
    type Accumulator;

    /// Makes an accumulator for arguments of `input_types`.
    fn create_accumulator(&self, input_types: Vec<ConcreteDataType>) -> Result<
        Self::Accumulator,
        QueryError,
    >;
}

/// A user-defined aggregate function. Its result type, its accumulators and their
/// state types all come from its creator.
pub struct AggregateFunction<C> {
    /// The name of the function.
    pub name: String,
    /// The arguments the function accepts.
    pub signature: Signature,
    /// The creator of the function's accumulators.
    pub creator: C,
}

impl<C: AggregateFunctionCreator> AggregateFunction<C> {
    /// The type of the function's result for arguments of `input_types`: the
    /// creator records the argument types, then gives its output type. Where the
    /// creator refuses the types, its error is returned.
    pub fn return_type(&self, input_types: &[ConcreteDataType]) -> (r: Result<
        ConcreteDataType,
        QueryError,
    >)
        ensures
            exists|types: Vec<ConcreteDataType>, recorded: Result<(), QueryError>|
                {
                    &&& types@ == input_types@
                    &&& call_ensures(C::set_input_types, (&self.creator, types), recorded)
                    &&& match recorded {
                        Err(e) => r == Err::<ConcreteDataType, QueryError>(e),
                        Ok(_) => call_ensures(C::output_type, (&self.creator,), r),
                    }
                },
    {
        let mut types: Vec<ConcreteDataType> = Vec::new();
        let mut i: usize = 0;
        while i < input_types.len()
            invariant
                i <= input_types@.len(),
                types@ == input_types@.take(i as int),
            decreases input_types@.len() - i,
        {
            types.push(input_types[i]);
            i = i + 1;
        }
        assert(types@ =~= input_types@);
        let ghost handed = types;
        let set_input_types = C::set_input_types;
        let recorded = set_input_types(&self.creator, types);
        let ghost outcome = recorded;
        match recorded {
            Err(e) => {
                let r = Err(e);
                assert(call_ensures(C::set_input_types, (&self.creator, handed), outcome));
                r
            },
            Ok(()) => {
                let output_type = C::output_type;
                let r = output_type(&self.creator);
                assert(call_ensures(C::set_input_types, (&self.creator, handed), outcome));
                r
            },
        }
    }

    /// A new accumulator: the creator makes it for the argument types it recorded.
    /// Where the creator cannot tell those types, its error is returned.
    pub fn accumulator(&self) -> (r: Result<C::Accumulator, QueryError>)
        ensures
            exists|recorded: Result<Vec<ConcreteDataType>, QueryError>|
                {
                    &&& call_ensures(C::input_types, (&self.creator,), recorded)
                    &&& match recorded {
                        Err(e) => r == Err::<C::Accumulator, QueryError>(e),
                        Ok(types) => call_ensures(C::create_accumulator, (&self.creator, types), r),
                    }
                },
    {
        let input_types = C::input_types;
        let recorded = input_types(&self.creator);
        let ghost outcome = recorded;
        match recorded {
            Err(e) => {
                let r = Err(e);
                assert(call_ensures(C::input_types, (&self.creator,), outcome));
                r
            },
            Ok(types) => {
                let create_accumulator = C::create_accumulator;
                let r = create_accumulator(&self.creator, types);
                assert(call_ensures(C::input_types, (&self.creator,), outcome));
                r
            },
        }
    }

    /// The types of the accumulator's state, as the creator gives them.
    pub fn state_type(&self, _output_type: &ConcreteDataType) -> (r: Result<
        Vec<ConcreteDataType>,
        QueryError,
    >)
        ensures
            call_ensures(C::state_types, (&self.creator,), r),
    {
        let state_types = C::state_types;
        state_types(&self.creator)
    }
}

/// Describes an aggregate function named `name` that takes `args_count` arguments
/// of any types, always gives the same result for the same arguments, and is
/// computed by the accumulators of `creator`.
pub fn create_aggregate_function<C: AggregateFunctionCreator>(
    name: String,
    args_count: u8,
    creator: C,
) -> (f: AggregateFunction<C>)
    ensures
        f.name == name,
        f.signature == (Signature {
            type_signature: TypeSignature::Any(args_count as usize),
            volatility: Volatility::Immutable,
        }),
        f.creator == creator,
{
    AggregateFunction {
        name,
        signature: Signature::any(args_count as usize, Volatility::Immutable),
        creator,
    }
}

/// A column of a plan's output: the relation that qualifies it, if any, and its name.
#[derive(Debug, Clone)]
pub struct QualifiedField {
    pub qualifier: Option<String>,
    pub name: String,
}

/// The model of a column: the qualifier's text, if any, and the name.
pub open spec fn field_model(f: QualifiedField) -> (Option<Seq<char>>, Seq<char>) {
    (
        match f.qualifier {
            Some(q) => Some(q@),
            None => None,
        },
        f.name@,
    )
}

/// The projection items that rename the column `target` to `new_name`:
/// every column of the schema equal to it, in schema order, with the new name.
pub open spec fn rename_items(
    schema: Seq<QualifiedField>,
    target: (Option<Seq<char>>, Seq<char>),
    new_name: Seq<char>,
) -> Seq<
    (int, Seq<char>),
>
    decreases schema.len(),
{
    if schema.len() == 0 {
        Seq::empty()
    } else {
        let rest = rename_items(schema.drop_last(), target, new_name);
        if field_model(schema.last()) == target {
            rest.push(((schema.len() - 1) as int, new_name))
        } else {
            rest
        }
    }
}

/// The whole projection for a list of renames `(column position, new name)`.
pub open spec fn rename_projection_spec(schema: Seq<QualifiedField>, renames: Seq<(usize, String)>) -> Seq<
    (int, Seq<char>),
>
    decreases renames.len(),
{
    if renames.len() == 0 {
        Seq::empty()
    } else {
        rename_projection_spec(schema, renames.drop_last()) + rename_items(
            schema,
            field_model(schema[renames.last().0 as int]),
            renames.last().1@,
        )
    }
}

/// The model of projection items.
pub open spec fn items_model(items: Seq<(usize, String)>) -> Seq<(int, Seq<char>)> {
    Seq::new(items.len(), |i: int| (items[i].0 as int, items[i].1@))
}

/// Whether two optional texts are equal.
fn same_qualifier(a: &Option<String>, b: &Option<String>) -> (r: bool)
    ensures
        r == (match (a, b) {
            (Some(x), Some(y)) => x@ == y@,
            (None, None) => true,
            _ => false,
        }),
{
    match (a, b) {
        (Some(x), Some(y)) => *x == *y,
        (None, None) => true,
        _ => false,
    }
}

/// The projection that renames columns: for each rename, in order, every column of
/// the schema equal to the renamed one is projected under the new name.
/// Each rename names the position of its column, as the schema resolves it.
pub fn rename_projection(schema: &Vec<QualifiedField>, renames: &Vec<(usize, String)>) -> (r: Vec<
    (usize, String),
>)
    requires
        forall|i: int| 0 <= i < renames@.len() ==> (#[trigger] renames@[i]).0 < schema@.len(),
    ensures
        items_model(r@) == rename_projection_spec(schema@, renames@),
{
    let mut out: Vec<(usize, String)> = Vec::new();
    let mut i: usize = 0;
    assert(renames@.take(0) =~= Seq::<(usize, String)>::empty());
    assert(items_model(out@) =~= Seq::<(int, Seq<char>)>::empty());
    while i < renames.len()
        invariant
            i <= renames@.len(),
            forall|k: int| 0 <= k < renames@.len() ==> (#[trigger] renames@[k]).0 < schema@.len(),
            items_model(out@) == rename_projection_spec(schema@, renames@.take(i as int)),
        decreases renames@.len() - i,
    {
        let target = renames[i].0;
        let new_name = &renames[i].1;
        let ghost before = items_model(out@);
        let mut j: usize = 0;
        assert(schema@.take(0) =~= Seq::<QualifiedField>::empty());
        assert(items_model(out@) =~= before + rename_items(schema@.take(0), field_model(schema@[target as int]), new_name@));
        while j < schema.len()
            invariant
                j <= schema@.len(),
                target < schema@.len(),
                items_model(out@) == before + rename_items(
                    schema@.take(j as int),
                    field_model(schema@[target as int]),
                    new_name@,
                ),
            decreases schema@.len() - j,
        {
            let ghost prev = out@;
            proof {
                assert(schema@.take(j + 1).drop_last() =~= schema@.take(j as int));
                assert(schema@.take(j + 1).last() == schema@[j as int]);
            }
            if same_qualifier(&schema[j].qualifier, &schema[target].qualifier) && schema[j].name
                == schema[target].name {
                out.push((j, new_name.clone()));
                assert(items_model(out@) =~= items_model(prev).push((j as int, new_name@)));
            }
            j = j + 1;
        }
        proof {
            assert(schema@.take(schema@.len() as int) =~= schema@);
            assert(renames@.take(i + 1).drop_last() =~= renames@.take(i as int));
            assert(renames@.take(i + 1).last() == renames@[i as int]);
        }
        i = i + 1;
    }
    assert(renames@.take(renames@.len() as int) =~= renames@);
    out
}

/// The items one rename gives when the columns equal to `target` are exactly the one
/// at position `p` (or none, where `p` is past the end).
proof fn lemma_rename_items_single(
    schema: Seq<QualifiedField>,
    target: (Option<Seq<char>>, Seq<char>),
    new_name: Seq<char>,
    p: int,
)
    requires
        0 <= p,
        forall|i: int| 0 <= i < schema.len() ==> (field_model(#[trigger] schema[i]) == target <==> i == p),
    ensures
        rename_items(schema, target, new_name) == (if p < schema.len() {
            seq![(p, new_name)]
        } else {
            Seq::empty()
        }),
    decreases schema.len(),
{
    if schema.len() > 0 {
        let prefix = schema.drop_last();
        assert forall|i: int| 0 <= i < prefix.len() implies (field_model(#[trigger] prefix[i]) == target
            <==> i == p) by {
            assert(prefix[i] == schema[i]);
        }
        lemma_rename_items_single(prefix, target, new_name, p);
        assert(schema.last() == schema[schema.len() - 1]);
        if p == schema.len() - 1 {
            assert(Seq::<(int, Seq<char>)>::empty().push((p, new_name)) =~= seq![(p, new_name)]);
        }
    }
}

/// A rename of a column that occurs once in the schema projects exactly that column,
/// under the new name.
pub proof fn law_unique_column_renamed_once(schema: Seq<QualifiedField>, p: int, new_name: Seq<char>)
    requires
        0 <= p < schema.len(),
        forall|i: int|
            0 <= i < schema.len() && i != p ==> field_model(#[trigger] schema[i]) != field_model(
                schema[p],
            ),
    ensures
        rename_items(schema, field_model(schema[p]), new_name) == seq![(p, new_name)],
{
    lemma_rename_items_single(schema, field_model(schema[p]), new_name, p);
}

/// A column equal to the renamed one is among the items of that rename, under the
/// new name; the result is its position in the items.
proof fn lemma_rename_items_has(
    schema: Seq<QualifiedField>,
    target: (Option<Seq<char>>, Seq<char>),
    new_name: Seq<char>,
    p: int,
) -> (i: int)
    requires
        0 <= p < schema.len(),
        field_model(schema[p]) == target,
    ensures
        0 <= i < rename_items(schema, target, new_name).len(),
        rename_items(schema, target, new_name)[i] == (p, new_name),
    decreases schema.len(),
{
    let prefix = schema.drop_last();
    let rest = rename_items(prefix, target, new_name);
    assert(schema.last() == schema[schema.len() - 1]);
    if p == schema.len() - 1 {
        rest.len() as int
    } else {
        assert(prefix[p] == schema[p]);
        lemma_rename_items_has(prefix, target, new_name, p)
    }
}

/// Each item of a rename is a column equal to the renamed one, under the new name.
proof fn lemma_rename_items_match(
    schema: Seq<QualifiedField>,
    target: (Option<Seq<char>>, Seq<char>),
    new_name: Seq<char>,
    i: int,
)
    requires
        0 <= i < rename_items(schema, target, new_name).len(),
    ensures
        rename_items(schema, target, new_name)[i].1 == new_name,
        0 <= rename_items(schema, target, new_name)[i].0 < schema.len(),
        field_model(schema[rename_items(schema, target, new_name)[i].0]) == target,
    decreases schema.len(),
{
    let prefix = schema.drop_last();
    let rest = rename_items(prefix, target, new_name);
    assert(schema.last() == schema[schema.len() - 1]);
    if i < rest.len() {
        lemma_rename_items_match(prefix, target, new_name, i);
        let j = rest[i].0;
        assert(prefix[j] == schema[j]);
    }
}

/// The projection for two lists of renames, one after the other, is the projection
/// for the first followed by the projection for the second: renames are handled in
/// turn, each adding its items after those of the renames before it.
pub proof fn law_projection_concat(
    schema: Seq<QualifiedField>,
    r1: Seq<(usize, String)>,
    r2: Seq<(usize, String)>,
)
    ensures
        rename_projection_spec(schema, r1 + r2) == rename_projection_spec(schema, r1)
            + rename_projection_spec(schema, r2),
    decreases r2.len(),
{
    if r2.len() == 0 {
        assert(r1 + r2 =~= r1);
        assert(rename_projection_spec(schema, r1) + rename_projection_spec(schema, r2)
            =~= rename_projection_spec(schema, r1));
    } else {
        let r = r1 + r2;
        assert(r.drop_last() =~= r1 + r2.drop_last());
        assert(r.last() == r2.last());
        law_projection_concat(schema, r1, r2.drop_last());
        let x = r2.last();
        let items = rename_items(schema, field_model(schema[x.0 as int]), x.1@);
        assert(rename_projection_spec(schema, r1) + rename_projection_spec(schema, r2.drop_last())
            + items =~= rename_projection_spec(schema, r1) + (rename_projection_spec(
            schema,
            r2.drop_last(),
        ) + items));
    }
}

/// Every rename whose column is in the schema puts that column, under its new name,
/// into the projection, whatever the new name is; the result is where.
pub proof fn law_every_rename_projected(schema: Seq<QualifiedField>, renames: Seq<(usize, String)>, k: int) -> (i: int)
    requires
        0 <= k < renames.len(),
        renames[k].0 < schema.len(),
    ensures
        0 <= i < rename_projection_spec(schema, renames).len(),
        rename_projection_spec(schema, renames)[i] == (renames[k].0 as int, renames[k].1@),
{
    let x = renames[k];
    let p = x.0 as int;
    let items = rename_items(schema, field_model(schema[p]), x.1@);
    assert(renames =~= renames.take(k + 1) + renames.skip(k + 1));
    law_projection_concat(schema, renames.take(k + 1), renames.skip(k + 1));
    assert(renames.take(k + 1).drop_last() =~= renames.take(k));
    assert(renames.take(k + 1).last() == x);
    let j = lemma_rename_items_has(schema, field_model(schema[p]), x.1@, p);
    let before = rename_projection_spec(schema, renames.take(k));
    before.len() + j
}

/// Every item of the projection is a column equal to the column of some rename, under
/// that rename's new name; the result is that rename.
pub proof fn law_projection_items_come_from_renames(
    schema: Seq<QualifiedField>,
    renames: Seq<(usize, String)>,
    i: int,
) -> (k: int)
    requires
        0 <= i < rename_projection_spec(schema, renames).len(),
    ensures
        0 <= k < renames.len(),
        rename_projection_spec(schema, renames)[i].1 == renames[k].1@,
        0 <= rename_projection_spec(schema, renames)[i].0 < schema.len(),
        field_model(schema[rename_projection_spec(schema, renames)[i].0]) == field_model(
            schema[renames[k].0 as int],
        ),
    decreases renames.len(),
{
    let prefix = renames.drop_last();
    let before = rename_projection_spec(schema, prefix);
    let x = renames.last();
    if i < before.len() {
        let k = law_projection_items_come_from_renames(schema, prefix, i);
        assert(prefix[k] == renames[k]);
        k
    } else {
        lemma_rename_items_match(schema, field_model(schema[x.0 as int]), x.1@, i - before.len());
        renames.len() - 1
    }
}

/// The items of an earlier rename come before those of a later one: the projection
/// follows the order of the renames, not that of the schema.
pub proof fn law_renames_in_order(
    schema: Seq<QualifiedField>,
    renames: Seq<(usize, String)>,
    k1: int,
    k2: int,
) -> (r: (int, int))
    requires
        0 <= k1 < k2 < renames.len(),
        renames[k1].0 < schema.len(),
        renames[k2].0 < schema.len(),
    ensures
        0 <= r.0 < r.1 < rename_projection_spec(schema, renames).len(),
        rename_projection_spec(schema, renames)[r.0] == (renames[k1].0 as int, renames[k1].1@),
        rename_projection_spec(schema, renames)[r.1] == (renames[k2].0 as int, renames[k2].1@),
{
    let front = renames.take(k2);
    let back = renames.skip(k2);
    assert(renames =~= front + back);
    law_projection_concat(schema, front, back);
    assert(front[k1] == renames[k1]);
    assert(back[0] == renames[k2]);
    let i1 = law_every_rename_projected(schema, front, k1);
    let j = law_every_rename_projected(schema, back, 0);
    (i1, rename_projection_spec(schema, front).len() + j)
}

} // verus!
