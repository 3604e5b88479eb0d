use kindle_dash::fetch::{
    after_attempt, fetch_to, from_file, status_is_success, status_is_transient, try_fetch, Cause,
    FetchError, Next, Plan, Reply,
};

fn png_bytes() -> Vec<u8> {
    let mut v = b"\x89PNG\r\n\x1a\n".to_vec();
    v.extend_from_slice(b"...image data...");
    v
}

fn response(status: u16, body: &[u8]) -> Reply {
    Reply::Response { status, body: Ok(body.to_vec()) }
}

#[test]
fn http_status_classification() {
    // Retry rate limits and server or proxy errors within the budget.
    assert!(status_is_transient(429));
    assert!(status_is_transient(500));
    assert!(status_is_transient(502));
    assert!(status_is_transient(503));
    assert!(status_is_transient(504));
    // Client errors will not clear this cycle.
    assert!(!status_is_transient(400));
    assert!(!status_is_transient(401));
    assert!(!status_is_transient(404));
}

#[test]
fn status_boundaries() {
    assert!(!status_is_success(199));
    assert!(status_is_success(200));
    assert!(status_is_success(299));
    assert!(!status_is_success(300));
    assert!(!status_is_transient(499));
    assert!(status_is_transient(599));
    assert!(!status_is_transient(600));
}

#[test]
fn file_urls_are_read_from_disk() {
    match fetch_to("file:///tmp/src.png", 5) {
        Plan::ReadFile(path) => assert_eq!(path, "/tmp/src.png"),
        other => panic!("{other:?}"),
    }
    assert!(matches!(fetch_to("file:/tmp/x", 5), Plan::Request { .. }));
    assert_eq!(from_file(Ok(png_bytes())).unwrap(), png_bytes());
    let html = b"<html>not an image</html>".to_vec();
    let failure = from_file(Ok(html)).unwrap_err();
    assert!(matches!(failure.cause, Cause::NotPng(25)));
    let failure = from_file(Err("no such file".to_string())).unwrap_err();
    assert!(matches!(failure.cause, Cause::Read(_)));
    assert_eq!(failure.gave_up_after, None);
}

#[test]
fn requests_are_bounded_by_the_budget() {
    for (budget, bound) in [(0, 1), (1, 1), (7, 7), (15, 15), (16, 15), (u64::MAX, 15)] {
        match fetch_to("https://example.com/dash.png", budget) {
            Plan::Request { per_request_secs } => assert_eq!(per_request_secs, bound),
            other => panic!("{other:?}"),
        }
    }
}

#[test]
fn replies_are_judged() {
    assert_eq!(try_fetch(response(200, &png_bytes())).unwrap(), png_bytes());
    assert!(matches!(
        try_fetch(response(200, b"\x89PNG\r\n\x1a")),
        Err(FetchError::Permanent(Cause::NotPng(7)))
    ));
    assert!(matches!(
        try_fetch(response(404, &png_bytes())),
        Err(FetchError::Permanent(Cause::Status(404)))
    ));
    assert!(matches!(
        try_fetch(response(503, &png_bytes())),
        Err(FetchError::Transient(Cause::Status(503)))
    ));
    assert!(matches!(
        try_fetch(Reply::Response { status: 200, body: Err("reset".to_string()) }),
        Err(FetchError::Transient(Cause::Body(_)))
    ));
    assert!(matches!(
        try_fetch(Reply::NoResponse("no route".to_string())),
        Err(FetchError::Transient(Cause::Request(_)))
    ));
}

#[test]
fn retries_last_as_long_as_the_budget() {
    let down = || Reply::NoResponse("no route".to_string());
    match after_attempt(1, 29, 30, down()) {
        Next::RetryAfter { pause_secs, attempt } => assert_eq!((pause_secs, attempt), (2, 2)),
        other => panic!("{other:?}"),
    }
    match after_attempt(3, 30, 30, down()) {
        Next::Fail(failure) => assert_eq!(failure.gave_up_after, Some(3)),
        other => panic!("{other:?}"),
    }
    match after_attempt(1, 0, 30, response(401, b"")) {
        Next::Fail(failure) => assert_eq!(failure.gave_up_after, None),
        other => panic!("{other:?}"),
    }
    assert!(matches!(after_attempt(9, 99, 30, response(200, &png_bytes())), Next::Store(_)));
    assert!(matches!(
        after_attempt(u32::MAX, 0, 1, down()),
        Next::RetryAfter { attempt: 0, .. }
    ));
}
