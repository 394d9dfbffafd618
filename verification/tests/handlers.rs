use lambda_api::handlers::{hello, page, user_id, HelloReq, Pagination};

#[test]
fn hello_greets_by_name() {
    let (status, body) = hello(&HelloReq { name: "Ferris".to_string() });
    assert_eq!(status.as_u16(), 201);
    assert_eq!(body.msg, "Hello there, Ferris");
}

#[test]
fn hello_greets_an_empty_name() {
    let (status, body) = hello(&HelloReq { name: String::new() });
    assert_eq!(status.as_u16(), 201);
    assert_eq!(body.msg, "Hello there, ");
}

#[test]
fn user_id_is_handed_back() {
    let (status, body) = user_id("42".to_string());
    assert_eq!(status.as_u16(), 200);
    assert_eq!(body.msg, "User ID accepted");
    assert_eq!(body.user_id, "42");
}

#[test]
fn page_bounds() {
    let query = Pagination { page: 2, count: 10 };
    assert!(query.in_range());
    let (status, body) = page(&query);
    assert_eq!(status.as_u16(), 200);
    assert_eq!(body.from, 20);
    assert_eq!(body.to, 29);
}

#[test]
fn first_page_of_single_items() {
    let query = Pagination { page: 0, count: 1 };
    assert!(query.in_range());
    let (_, body) = page(&query);
    assert_eq!(body.from, 0);
    assert_eq!(body.to, 0);
}

#[test]
fn largest_pages_in_range() {
    let query = Pagination { page: 0, count: u32::MAX };
    assert!(query.in_range());
    let (_, body) = page(&query);
    assert_eq!(body.from, 0);
    assert_eq!(body.to, u32::MAX - 1);

    let query = Pagination { page: u32::MAX - 1, count: 1 };
    assert!(query.in_range());
    let (_, body) = page(&query);
    assert_eq!(body.from, u32::MAX - 1);
    assert_eq!(body.to, u32::MAX - 1);

    // 65535 * 65537 is the largest 32-bit number.
    let query = Pagination { page: 65534, count: 65537 };
    assert!(query.in_range());
    let (_, body) = page(&query);
    assert_eq!(body.from, 4294901758);
    assert_eq!(body.to, 4294967294);
}

#[test]
fn pages_out_of_range() {
    assert!(!Pagination { page: 0, count: 0 }.in_range());
    assert!(!Pagination { page: 7, count: 0 }.in_range());
    assert!(!Pagination { page: u32::MAX, count: 1 }.in_range());
    assert!(!Pagination { page: 1, count: u32::MAX }.in_range());
    assert!(!Pagination { page: 65535, count: 65536 }.in_range());
    assert!(!Pagination { page: u32::MAX, count: u32::MAX }.in_range());
}
