use vstd::prelude::*;
use crate::error::{Operation, ResourceError};
use crate::page::{Page, or_default, DEFAULT_PAGE_SIZE, DEFAULT_PAGE_OFFSET};

verus! {

/// Relies on `str::parse` through `FromStr`: it yields the identifier or fails.
#[verifier::external_body]
fn parse_segment<I: core::str::FromStr>(segment: &str) -> (r: Option<I>) {
    segment.parse::<I>().ok()
}

/// The identifier addressed by a path segment; a malformed one is a client error.
pub fn parse_id<I: core::str::FromStr>(segment: Option<&str>) -> (r: Result<I, ResourceError>)
    ensures
        segment is None ==> r == Err::<I, ResourceError>(ResourceError::MalformedId),
        r is Err ==> r == Err::<I, ResourceError>(ResourceError::MalformedId),
{
    match segment {
        Some(s) => id_from_parsed(parse_segment::<I>(s)),
        None => Err(ResourceError::MalformedId),
    }
}

/// The identifier from the outcome of parsing a path segment.
pub fn id_from_parsed<I>(parsed: Option<I>) -> (r: Result<I, ResourceError>)
    ensures
        match parsed {
            Some(id) => r == Ok::<I, ResourceError>(id),
            None => r == Err::<I, ResourceError>(ResourceError::MalformedId),
        },
{
    match parsed {
        Some(id) => Ok(id),
        None => Err(ResourceError::MalformedId),
    }
}

} // verus!

verus! {

/// The storage call that a request dispatches to, with its parsed parameters.
#[derive(Debug)]
pub enum Call<I> {
    ReadById(I),
    ReadPaged(Page),
    Create,
    Update(I),
    Remove(I),
}

impl<I> Call<I> {
    pub open spec fn spec_operation(self) -> Operation {
        match self {
            Call::ReadById(_) => Operation::ReadById,
            Call::ReadPaged(_) => Operation::ReadPaged,
            Call::Create => Operation::Create,
            Call::Update(_) => Operation::Update,
            Call::Remove(_) => Operation::Remove,
        }
    }

    /// The operation that the call performs.
    pub fn operation(&self) -> (r: Operation)
        ensures
            r == self.spec_operation(),
    {
        match self {
            Call::ReadById(_) => Operation::ReadById,
            Call::ReadPaged(_) => Operation::ReadPaged,
            Call::Create => Operation::Create,
            Call::Update(_) => Operation::Update,
            Call::Remove(_) => Operation::Remove,
        }
    }
}

/// The call for a request on the route of `op`, given the identifier parsed from the path
/// (`None` when it is missing or malformed) and the query's page parameters. Only an
/// operation on one resource reads the identifier, and only a paged read reads the query.
pub fn plan_parsed<I>(op: Operation, id: Option<I>, size: Option<u32>, offset: Option<u32>) -> (r:
    Result<Call<I>, ResourceError>)
    ensures
        op.spec_takes_id() && id is None ==> r == Err::<Call<I>, ResourceError>(
            ResourceError::MalformedId,
        ),
        match (op, id) {
            (Operation::ReadById, Some(x)) => r == Ok::<Call<I>, ResourceError>(Call::ReadById(x)),
            (Operation::Update, Some(x)) => r == Ok::<Call<I>, ResourceError>(Call::Update(x)),
            (Operation::Remove, Some(x)) => r == Ok::<Call<I>, ResourceError>(Call::Remove(x)),
            (Operation::Create, _) => r == Ok::<Call<I>, ResourceError>(Call::Create),
            (Operation::ReadPaged, _) => r == Ok::<Call<I>, ResourceError>(
                Call::ReadPaged(
                    Page {
                        size: or_default(size, DEFAULT_PAGE_SIZE),
                        offset: or_default(offset, DEFAULT_PAGE_OFFSET),
                    },
                ),
            ),
            _ => true,
        },
{
    match op {
        Operation::ReadPaged => Ok(Call::ReadPaged(Page::from_query(size, offset))),
        Operation::Create => Ok(Call::Create),
        Operation::ReadById => match id {
            Some(x) => Ok(Call::ReadById(x)),
            None => Err(ResourceError::MalformedId),
        },
        Operation::Update => match id {
            Some(x) => Ok(Call::Update(x)),
            None => Err(ResourceError::MalformedId),
        },
        Operation::Remove => match id {
            Some(x) => Ok(Call::Remove(x)),
            None => Err(ResourceError::MalformedId),
        },
    }
}

/// The call for a request on the route of `op`, given the path's identifier segment and
/// the query's page parameters. The segment is parsed only for an operation on one
/// resource, and its parse decides the identifier of the call.
pub fn plan<I: core::str::FromStr>(
    op: Operation,
    id_segment: Option<&str>,
    size: Option<u32>,
    offset: Option<u32>,
) -> (r: Result<Call<I>, ResourceError>)
    ensures
        r matches Ok(c) ==> c.spec_operation() == op,
        r is Err ==> op.spec_takes_id() && r == Err::<Call<I>, ResourceError>(
            ResourceError::MalformedId,
        ),
        !op.spec_takes_id() ==> r is Ok,
        op.spec_takes_id() && id_segment is None ==> r is Err,
        op == Operation::ReadPaged ==> (r matches Ok(Call::ReadPaged(p)) && p.size == or_default(
            size,
            DEFAULT_PAGE_SIZE,
        ) && p.offset == or_default(offset, DEFAULT_PAGE_OFFSET)),
{
    let id: Option<I> = if op.takes_id() {
        match id_segment {
            Some(s) => parse_segment::<I>(s),
            None => None,
        }
    } else {
        None
    };
    plan_parsed(op, id, size, offset)
}

} // verus!
