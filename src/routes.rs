use vstd::prelude::*;
use vstd::string::*;
use crate::error::Operation;

verus! {

/// The HTTP methods that a resource is served under.
#[derive(Clone, Copy, Debug, PartialEq, Eq, Structural)]
pub enum Method {
    Get,
    Post,
    Put,
    Delete,
}

/// One registration: requests with `method` on `path` dispatch to `operation`.
#[derive(Debug)]
pub struct Route {
    pub method: Method,
    pub path: String,
    pub operation: Operation,
}

/// The suffix of the path that addresses a single resource.
pub open spec fn id_suffix() -> Seq<char> {
    "/:id"@
}

/// The HTTP method that an operation is served under.
pub open spec fn spec_method_of(op: Operation) -> Method {
    match op {
        Operation::ReadById | Operation::ReadPaged => Method::Get,
        Operation::Create => Method::Post,
        Operation::Update => Method::Put,
        Operation::Remove => Method::Delete,
    }
}

/// The path that an operation is served under, below the base path.
pub open spec fn spec_path_of(base: Seq<char>, op: Operation) -> Seq<char> {
    if op.spec_takes_id() {
        base + id_suffix()
    } else {
        base
    }
}

/// The operations in the order in which their routes are registered.
pub open spec fn route_order() -> Seq<Operation> {
    seq![
        Operation::ReadPaged,
        Operation::ReadById,
        Operation::Create,
        Operation::Update,
        Operation::Remove,
    ]
}

pub fn method_of(op: Operation) -> (r: Method)
    ensures
        r == spec_method_of(op),
{
    match op {
        Operation::ReadById | Operation::ReadPaged => Method::Get,
        Operation::Create => Method::Post,
        Operation::Update => Method::Put,
        Operation::Remove => Method::Delete,
    }
}

/// The path of a single resource below `base`.
pub fn id_path(base: &str) -> (r: String)
    ensures
        r@ == base@ + id_suffix(),
{
    let mut p = String::from_str(base);
    p.append("/:id");
    p
}

/// The route of one operation below `base`.
pub fn route_of(base: &str, op: Operation) -> (r: Route)
    ensures
        r.method == spec_method_of(op),
        r.path@ == spec_path_of(base@, op),
        r.operation == op,
{
    let path = if op.takes_id() {
        id_path(base)
    } else {
        String::from_str(base)
    };
    Route { method: method_of(op), path, operation: op }
}

/// The five routes of a resource served at `base`.
pub fn routes(base: &str) -> (r: Vec<Route>)
    ensures
        r@.len() == route_order().len(),
        forall|i: int|
            0 <= i < r@.len() ==> {
                &&& (#[trigger] r@[i]).operation == route_order()[i]
                &&& r@[i].method == spec_method_of(route_order()[i])
                &&& r@[i].path@ == spec_path_of(base@, route_order()[i])
            },
{
    let mut r: Vec<Route> = Vec::new();
    r.push(route_of(base, Operation::ReadPaged));
    r.push(route_of(base, Operation::ReadById));
    r.push(route_of(base, Operation::Create));
    r.push(route_of(base, Operation::Update));
    r.push(route_of(base, Operation::Remove));
    r
}

} // verus!
