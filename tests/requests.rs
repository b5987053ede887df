use resourceable::error::{reply, reply_status, unsupported, Operation, Reply, ResourceError};
use resourceable::page::Page;
use resourceable::request::{id_from_parsed, parse_id, plan, plan_parsed, Call};
use resourceable::routes::{id_path, method_of, routes, Method};

#[test]
fn page_defaults_when_query_is_empty() {
    let p = Page::from_query(None, None);
    assert_eq!(p, Page { size: 10, offset: 0 });
    assert_eq!(Page::default(), Page { size: 10, offset: 0 });
}

#[test]
fn page_takes_given_parameters() {
    assert_eq!(Page::from_query(Some(5), None), Page { size: 5, offset: 0 });
    assert_eq!(Page::from_query(None, Some(7)), Page { size: 10, offset: 7 });
    assert_eq!(Page::from_query(Some(0), Some(3)), Page { size: 0, offset: 3 });
}

#[test]
fn page_window_is_clipped_to_the_collection() {
    assert_eq!(Page { size: 10, offset: 0 }.window(2), (0, 2));
    assert_eq!(Page { size: 2, offset: 1 }.window(5), (1, 3));
    assert_eq!(Page { size: 3, offset: 9 }.window(5), (5, 5));
    assert_eq!(Page { size: u32::MAX, offset: u32::MAX }.window(0), (0, 0));
    assert_eq!(Page { size: 4, offset: 0 }.window(0), (0, 0));
}

#[test]
fn unsupported_operations_fail_with_fixed_messages() {
    let r: Result<u8, ResourceError> = unsupported(Operation::ReadPaged);
    assert_eq!(r, Err(ResourceError::Unsupported(Operation::ReadPaged)));
    assert_eq!(reply_status(&r), 500);
    assert_eq!(ResourceError::Unsupported(Operation::ReadById).message(), "Resource not accessible by id");
    assert_eq!(ResourceError::Unsupported(Operation::ReadPaged).message(), "Resource not accessible by page");
    assert_eq!(ResourceError::Unsupported(Operation::Create).message(), "Resource not creatable!");
    assert_eq!(ResourceError::Unsupported(Operation::Update).message(), "Resource not updateable!");
    assert_eq!(ResourceError::Unsupported(Operation::Remove).message(), "Resource not deleteable!");
}

#[test]
fn error_statuses() {
    assert_eq!(ResourceError::MalformedId.status(), 400);
    assert_eq!(ResourceError::MalformedQuery.status(), 400);
    assert_eq!(ResourceError::MalformedBody.status(), 400);
    assert_eq!(ResourceError::NotFound.status(), 404);
    assert_eq!(ResourceError::IdsExhausted.status(), 500);
    assert_eq!(ResourceError::Unsupported(Operation::Create).status(), 500);
    assert_eq!(ResourceError::NotFound.message(), "Resource not found");
    assert_eq!(ResourceError::IdsExhausted.message(), "No identifier left to assign");
    assert_eq!(ResourceError::MalformedQuery.message(), "Malformed page parameters");
    assert_eq!(ResourceError::MalformedBody.message(), "Malformed resource in body");
    let ok: Result<u8, ResourceError> = Ok(1);
    assert_eq!(reply_status(&ok), 200);
}

#[test]
fn identifier_parses_from_segment() {
    assert_eq!(parse_id::<i32>(Some("12")), Ok(12));
    assert_eq!(parse_id::<i32>(Some("-3")), Ok(-3));
    assert_eq!(parse_id::<String>(Some("abc")), Ok("abc".to_string()));
    assert_eq!(id_from_parsed(Some(4u8)), Ok(4u8));
}

#[test]
fn malformed_identifier_is_a_client_error() {
    let r = parse_id::<i32>(Some("abc"));
    assert_eq!(r, Err(ResourceError::MalformedId));
    assert_eq!(reply_status(&r), 400);
    assert_eq!(parse_id::<i32>(Some("")), Err(ResourceError::MalformedId));
    assert_eq!(parse_id::<u8>(Some("256")), Err(ResourceError::MalformedId));
    assert_eq!(parse_id::<i32>(None), Err(ResourceError::MalformedId));
    assert_eq!(id_from_parsed::<i32>(None), Err(ResourceError::MalformedId));
    assert_eq!(ResourceError::MalformedId.message(), "Malformed identifier in path");
}

#[test]
fn plan_dispatches_each_operation() {
    assert!(matches!(plan::<i32>(Operation::ReadById, Some("1"), None, None), Ok(Call::ReadById(1))));
    assert!(matches!(plan::<i32>(Operation::Update, Some("2"), None, None), Ok(Call::Update(2))));
    assert!(matches!(plan::<i32>(Operation::Remove, Some("3"), None, None), Ok(Call::Remove(3))));
    assert!(matches!(plan::<i32>(Operation::Create, None, None, None), Ok(Call::Create)));
    assert!(matches!(
        plan::<i32>(Operation::ReadPaged, None, None, None),
        Ok(Call::ReadPaged(Page { size: 10, offset: 0 }))
    ));
    assert!(matches!(
        plan::<i32>(Operation::ReadPaged, None, Some(3), Some(6)),
        Ok(Call::ReadPaged(Page { size: 3, offset: 6 }))
    ));
    assert!(matches!(plan::<i32>(Operation::Remove, Some("x"), None, None), Err(ResourceError::MalformedId)));
    assert!(matches!(plan::<i32>(Operation::ReadById, None, None, None), Err(ResourceError::MalformedId)));
    let c = plan::<i32>(Operation::Update, Some("9"), None, None).unwrap();
    assert_eq!(c.operation(), Operation::Update);
}

#[test]
fn routes_cover_the_five_operations() {
    assert_eq!(id_path("/spaceship"), "/spaceship/:id");
    let r = routes("/spaceship");
    assert_eq!(r.len(), 5);
    let got: Vec<(Method, String, Operation)> =
        r.into_iter().map(|x| (x.method, x.path, x.operation)).collect();
    assert_eq!(
        got,
        vec![
            (Method::Get, "/spaceship".to_string(), Operation::ReadPaged),
            (Method::Get, "/spaceship/:id".to_string(), Operation::ReadById),
            (Method::Post, "/spaceship".to_string(), Operation::Create),
            (Method::Put, "/spaceship/:id".to_string(), Operation::Update),
            (Method::Delete, "/spaceship/:id".to_string(), Operation::Remove),
        ]
    );
    assert_eq!(method_of(Operation::Remove), Method::Delete);
    assert!(Operation::Update.takes_id() && Operation::Update.takes_body());
    assert!(!Operation::ReadPaged.takes_id() && !Operation::ReadPaged.takes_body());
}

#[test]
fn replies_carry_the_resource_or_the_error() {
    match reply::<u8>(Ok(5)) {
        Reply::Success(v) => assert_eq!(v, 5),
        Reply::Failure { .. } => panic!("expected success"),
    }
    let r = reply::<u8>(Err(ResourceError::Unsupported(Operation::Update)));
    assert_eq!(r.status(), 500);
    match r {
        Reply::Failure { status, message } => {
            assert_eq!(status, 500);
            assert_eq!(message, "Resource not updateable!");
        }
        Reply::Success(_) => panic!("expected failure"),
    }
    let nf = reply::<u8>(Err(ResourceError::NotFound));
    assert_eq!(nf.status(), 404);
    assert_eq!(reply::<u8>(Ok(1)).status(), 200);
}

#[test]
fn plan_parsed_uses_the_parsed_identifier() {
    assert!(matches!(plan_parsed(Operation::ReadById, Some(41), None, None), Ok(Call::ReadById(41))));
    assert!(matches!(plan_parsed(Operation::Update, Some(8), None, None), Ok(Call::Update(8))));
    assert!(matches!(plan_parsed(Operation::Remove, Some(2), None, None), Ok(Call::Remove(2))));
    assert!(matches!(plan_parsed::<i32>(Operation::Remove, None, None, None), Err(ResourceError::MalformedId)));
    assert!(matches!(plan_parsed(Operation::Create, Some(1), None, None), Ok(Call::Create)));
    assert!(matches!(
        plan_parsed::<i32>(Operation::ReadPaged, None, None, Some(4)),
        Ok(Call::ReadPaged(Page { size: 10, offset: 4 }))
    ));
}
