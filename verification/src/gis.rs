//! GIS function calls: the metadata that lists the supported functions, the
//! checks made on a call, and the statement that runs it.

use vstd::prelude::*;
use vstd::string::StringExecFns;
use crate::response::{Body, Response, Status};
use crate::sql::{
    pg_query_args, pg_query_new, pg_query_push, pg_query_push_bind_uuid, pg_query_text,
    placeholder, BoundArg, PgQuery,
};

verus! {

/// A request to run the GIS function `name` on the stored locations
/// `inputs` (by id).
pub struct ExecGis {
    pub name: String,
    pub inputs: Vec<u128>,
}

/// A GIS function that the service supports: its name, how many geometries
/// it takes, whether it returns a geometry, and its argument types.
pub struct Function {
    pub name: String,
    pub inputs: usize,
    pub returns_obj: bool,
    pub types: Vec<String>,
}

/// The metadata file: the known types and the supported functions.
pub struct Metadata {
    pub types: Vec<String>,
    pub functions: Vec<Function>,
}

/// The answer to a request for the metadata file's text: an empty text (the
/// file could not be read) is an internal error, any other is sent as is.
pub fn get_metadata(metadata: String) -> (r: Response)
    ensures
        metadata@.len() == 0 ==> r.status == Status::InternalServerError && r.body is Empty,
        metadata@.len() != 0 ==> r.status == Status::Success && r.body == Body::Metadata(metadata),
{
    if metadata.as_str().is_empty() {
        Response::empty(Status::InternalServerError)
    } else {
        Response { status: Status::Success, body: Body::Metadata(metadata) }
    }
}

/// The first supported function named `name`, by its index.
pub fn find_function(metadata: &Metadata, name: &String) -> (r: Option<usize>)
    ensures
        r matches Some(i) ==> i < metadata.functions@.len() && metadata.functions@[i as int].name@ == name@
            && forall|j: int| 0 <= j < i ==> #[trigger] metadata.functions@[j].name@ != name@,
        r is None ==> forall|j: int| 0 <= j < metadata.functions@.len()
            ==> #[trigger] metadata.functions@[j].name@ != name@,
{
    let mut i: usize = 0;
    while i < metadata.functions.len()
        invariant
            i <= metadata.functions@.len(),
            forall|j: int| 0 <= j < i ==> #[trigger] metadata.functions@[j].name@ != name@,
        decreases metadata.functions@.len() - i,
    {
        if metadata.functions[i].name == *name {
            return Some(i);
        }
        i = i + 1;
    }
    None
}

/// The head of the call: `ST_AsGeoJSON(name(` for a function that returns a
/// geometry, else `name(`.
pub open spec fn gis_call_head(name: Seq<char>, returns_obj: bool) -> Seq<char> {
    if returns_obj {
        "ST_AsGeoJSON("@ + name + "("@
    } else {
        name + "("@
    }
}

/// The tail of the call, which closes what the head opened.
pub open spec fn gis_call_tail(returns_obj: bool) -> Seq<char> {
    if returns_obj {
        ")) as result"@
    } else {
        ") as result"@
    }
}

/// The geometry of the `k`-th input, read by the placeholder `$k`.
pub open spec fn gis_input(k: nat) -> Seq<char> {
    "(select geo_data::geometry from locations where id = "@ + placeholder(k) + ")"@
}

/// The first `n` inputs, separated by commas.
pub open spec fn gis_input_list(n: nat) -> Seq<char>
    decreases n,
{
    if n == 0 {
        Seq::<char>::empty()
    } else {
        gis_input_list((n - 1) as nat) + (if n > 1 { ", "@ } else { Seq::<char>::empty() })
            + gis_input(n)
    }
}

/// The statement that calls `f` on `n` stored geometries.
pub open spec fn gis_statement(f: Function, n: nat) -> Seq<char> {
    "select "@ + gis_call_head(f.name@, f.returns_obj) + gis_input_list(n) + gis_call_tail(f.returns_obj)
}

/// The arguments of that statement: the ids of the inputs, in order.
pub open spec fn gis_arguments(inputs: Seq<u128>) -> Seq<BoundArg> {
    inputs.map_values(|id: u128| BoundArg::Uuid(id))
}

/// The arguments of a call are the ids of its inputs, one each and in
/// order: the `k`-th argument (read by the placeholder `$k+1`) is the id of
/// the `k`-th input.
pub proof fn lemma_gis_arguments_are_the_inputs(inputs: Seq<u128>)
    ensures
        gis_arguments(inputs).len() == inputs.len(),
        forall|k: int| 0 <= k < inputs.len() ==> #[trigger] gis_arguments(inputs)[k] == BoundArg::Uuid(
            inputs[k],
        ),
{
}

/// In the statement of a call, the `k`-th input's geometry is read by the
/// placeholder `$k`, for every input.
pub proof fn lemma_gis_input_reads_its_placeholder(n: nat, k: nat)
    requires
        1 <= k <= n,
    ensures
        exists|pre: Seq<char>, post: Seq<char>| gis_input_list(n) == pre + gis_input(k) + post,
    decreases n,
{
    if k == n {
        let pre = gis_input_list((n - 1) as nat) + (if n > 1 { ", "@ } else { Seq::<char>::empty() });
        assert(gis_input_list(n) == pre + gis_input(k) + Seq::<char>::empty());
    } else {
        lemma_gis_input_reads_its_placeholder((n - 1) as nat, k);
        let (pre, post) = choose|pre: Seq<char>, post: Seq<char>| gis_input_list((n - 1) as nat)
            == pre + gis_input(k) + post;
        let post2 = post + (if n > 1 { ", "@ } else { Seq::<char>::empty() }) + gis_input(n);
        assert(gis_input_list(n) =~= pre + gis_input(k) + post2);
    }
}

fn call_head(function: &Function) -> (s: String)
    ensures
        s@ == gis_call_head(function.name@, function.returns_obj),
{
    let mut s = String::new();
    if function.returns_obj {
        s.append("ST_AsGeoJSON(");
    }
    s.append(function.name.as_str());
    s.append("(");
    s
}

/// The statement that calls `function` on the stored geometries of
/// `inputs`.
pub fn gis_query(function: &Function, inputs: &Vec<u128>) -> (q: PgQuery)
    ensures
        pg_query_text(q) == gis_statement(*function, inputs@.len()),
        pg_query_args(q) == gis_arguments(inputs@),
        pg_query_args(q).len() == inputs@.len(),
        forall|k: int| 0 <= k < inputs@.len() ==> #[trigger] pg_query_args(q)[k] == BoundArg::Uuid(
            inputs@[k],
        ),
{
    let mut q = pg_query_new("select ");
    let head = call_head(function);
    pg_query_push(&mut q, head.as_str());
    let mut i: usize = 0;
    while i < inputs.len()
        invariant
            i <= inputs@.len(),
            pg_query_text(q) == "select "@ + gis_call_head(function.name@, function.returns_obj)
                + gis_input_list(i as nat),
            pg_query_args(q) == gis_arguments(inputs@.take(i as int)),
        decreases inputs@.len() - i,
    {
        let ghost before = pg_query_text(q);
        if i > 0 {
            pg_query_push(&mut q, ", ");
        }
        pg_query_push(&mut q, "(select geo_data::geometry from locations where id = ");
        pg_query_push_bind_uuid(&mut q, inputs[i]);
        pg_query_push(&mut q, ")");
        assert(inputs@.take(i + 1) =~= inputs@.take(i as int).push(inputs@[i as int]));
        assert(gis_arguments(inputs@.take(i + 1)) =~= gis_arguments(inputs@.take(i as int)).push(
            BoundArg::Uuid(inputs@[i as int]),
        ));
        assert(pg_query_text(q) =~= "select "@ + gis_call_head(function.name@, function.returns_obj)
            + gis_input_list((i + 1) as nat));
        i = i + 1;
    }
    assert(inputs@.take(inputs@.len() as int) =~= inputs@);
    proof {
        lemma_gis_arguments_are_the_inputs(inputs@);
    }
    if function.returns_obj {
        pg_query_push(&mut q, ")) as result");
    } else {
        pg_query_push(&mut q, ") as result");
    }
    q
}

/// Whether `i` is the index of the first supported function named `name`.
pub open spec fn first_named(metadata: Metadata, name: Seq<char>, i: int) -> bool {
    &&& 0 <= i < metadata.functions@.len()
    &&& metadata.functions@[i].name@ == name
    &&& forall|j: int| 0 <= j < i ==> #[trigger] metadata.functions@[j].name@ != name
}

/// Whether no supported function is named `name`.
pub open spec fn none_named(metadata: Metadata, name: Seq<char>) -> bool {
    forall|j: int| 0 <= j < metadata.functions@.len() ==> #[trigger] metadata.functions@[j].name@ != name
}

/// The checks made on a call before it runs, and the statement that runs
/// it. The function must be supported (the first one of that name is taken)
/// and be given as many inputs as it takes; otherwise the answer is
/// `400 Bad Request` with an empty body.
pub fn gis_call(metadata: &Metadata, body: &ExecGis) -> (r: Result<PgQuery, Response>)
    ensures
        none_named(*metadata, body.name@) ==> (r matches Err(resp) && resp.status == Status::BadRequest
            && resp.body is Empty),
        forall|i: int| first_named(*metadata, body.name@, i) ==> {
            let f = metadata.functions@[i];
            &&& f.inputs != body.inputs@.len() ==> (r matches Err(resp) && resp.status
                == Status::BadRequest && resp.body is Empty)
            &&& f.inputs == body.inputs@.len() ==> (r matches Ok(q) && pg_query_text(q)
                == gis_statement(f, body.inputs@.len()) && pg_query_args(q) == gis_arguments(
                body.inputs@,
            ) && pg_query_args(q).len() == body.inputs@.len() && forall|k: int|
                0 <= k < body.inputs@.len() ==> #[trigger] pg_query_args(q)[k] == BoundArg::Uuid(
                body.inputs@[k],
            ))
        },
{
    match find_function(metadata, &body.name) {
        None => Err(Response::empty(Status::BadRequest)),
        Some(i) => {
            let function = &metadata.functions[i];
            proof {
                assert forall|k: int| first_named(*metadata, body.name@, k) implies k == i by {
                    if k < i {
                        assert(metadata.functions@[k].name@ != body.name@);
                    } else if k > i {
                        assert(metadata.functions@[i as int].name@ != body.name@);
                    }
                }
            }
            if body.inputs.len() != function.inputs {
                Err(Response::empty(Status::BadRequest))
            } else {
                Ok(gis_query(function, &body.inputs))
            }
        },
    }
}

} // verus!
