use lambda_api::status::{
    StatusCode, BAD_REQUEST, CREATED, INTERNAL_SERVER_ERROR, METHOD_NOT_ALLOWED, NOT_FOUND, OK,
    UNPROCESSABLE_ENTITY, UNSUPPORTED_MEDIA_TYPE,
};

#[test]
fn status_codes_have_three_digits() {
    assert!(StatusCode::from_u16(0).is_none());
    assert!(StatusCode::from_u16(99).is_none());
    assert_eq!(StatusCode::from_u16(100).unwrap().as_u16(), 100);
    assert_eq!(StatusCode::from_u16(404).unwrap().as_u16(), 404);
    assert_eq!(StatusCode::from_u16(999).unwrap().as_u16(), 999);
    assert!(StatusCode::from_u16(1000).is_none());
    assert!(StatusCode::from_u16(u16::MAX).is_none());
}

#[test]
fn status_codes_tell_the_fault() {
    let class = |code: u16| {
        let status = StatusCode::from_u16(code).unwrap();
        (status.is_client_error(), status.is_server_error())
    };
    assert_eq!(class(399), (false, false));
    assert_eq!(class(400), (true, false));
    assert_eq!(class(499), (true, false));
    assert_eq!(class(500), (false, true));
    assert_eq!(class(599), (false, true));
    assert_eq!(class(600), (false, false));
    assert_eq!(class(200), (false, false));
}

#[test]
fn named_status_codes() {
    assert_eq!(OK, 200);
    assert_eq!(CREATED, 201);
    assert_eq!(BAD_REQUEST, 400);
    assert_eq!(NOT_FOUND, 404);
    assert_eq!(METHOD_NOT_ALLOWED, 405);
    assert_eq!(UNSUPPORTED_MEDIA_TYPE, 415);
    assert_eq!(UNPROCESSABLE_ENTITY, 422);
    assert_eq!(INTERNAL_SERVER_ERROR, 500);
}
