use filesvr::{dispatch, map_outcome, unify};
use filesvr::{Body, ConstructionError, DispatchError, Resolved, Response};

fn never_built(_handle: u32) -> Result<Response, ConstructionError> {
    panic!("no file was found, so nothing is to be built")
}

fn file_response(content: &[u8]) -> Response {
    Response {
        status: 200,
        headers: vec![("content-length".to_string(), content.len().to_string())],
        body: Body::Bytes(content.to_vec()),
    }
}

fn bare(status: u16) -> Response {
    Response { status, headers: Vec::new(), body: Body::Empty }
}

#[test]
fn directory_is_forbidden() {
    assert_eq!(map_outcome(Resolved::IsDirectory, never_built), Ok(bare(403)));
}

#[test]
fn unmatched_method_is_bad_request() {
    assert_eq!(map_outcome(Resolved::MethodNotMatched, never_built), Ok(bare(400)));
}

#[test]
fn missing_file_is_not_found() {
    assert_eq!(map_outcome(Resolved::NotFound, never_built), Ok(bare(404)));
}

#[test]
fn denied_permission_is_forbidden() {
    assert_eq!(map_outcome(Resolved::PermissionDenied, never_built), Ok(bare(403)));
}

#[test]
fn refusals_have_no_header_and_no_body() {
    let outcomes: Vec<Resolved<u32>> = vec![
        Resolved::IsDirectory,
        Resolved::MethodNotMatched,
        Resolved::NotFound,
        Resolved::PermissionDenied,
    ];
    for outcome in outcomes {
        let response = map_outcome(outcome, never_built).unwrap();
        assert!(response.headers.is_empty());
        assert_eq!(response.body, Body::Empty);
    }
}

#[test]
fn found_file_is_built_from_its_handle() {
    let mapped = map_outcome(Resolved::Found(7u32), |handle: u32| {
        Ok(file_response(&[handle as u8, 1, 2]))
    });
    assert_eq!(mapped, Ok(file_response(&[7, 1, 2])));
}

#[test]
fn found_file_keeps_the_builder_s_failure() {
    let mapped = map_outcome(Resolved::Found(7u32), |handle: u32| {
        Err(ConstructionError { message: format!("no body for handle {}", handle) })
    });
    assert_eq!(mapped, Err(ConstructionError { message: "no body for handle 7".to_string() }));
}

#[test]
fn builder_is_called_once_for_a_found_file() {
    let mut calls = 0;
    let mapped = map_outcome(Resolved::Found(()), |_| {
        calls += 1;
        Ok(bare(204))
    });
    assert_eq!(mapped, Ok(bare(204)));
    assert_eq!(calls, 1);
}

#[test]
fn unify_keeps_a_response() {
    let unified = unify(Ok(file_response(b"abc")));
    assert_eq!(unified.unwrap(), file_response(b"abc"));
}

#[test]
fn unify_wraps_a_construction_failure_with_its_message() {
    let unified = unify(Err(ConstructionError { message: "disk full".to_string() }));
    match unified {
        Err(DispatchError::Construction(failure)) => assert_eq!(failure.message, "disk full"),
        other => panic!("expected a construction failure, got {:?}", other),
    }
}

#[test]
fn construction_failure_message_is_kept_letter_for_letter() {
    let failure = DispatchError::Construction(ConstructionError {
        message: "header value is not valid".to_string(),
    });
    assert_eq!(failure.message(), "header value is not valid");
}

#[test]
fn resolution_failure_message_names_the_io_error() {
    let error = std::io::Error::new(std::io::ErrorKind::Other, "device gone");
    let failure = DispatchError::Resolution(error);
    assert!(failure.message().contains("device gone"));
}

#[test]
fn dispatch_answers_an_outcome() {
    let result = dispatch(Ok(Resolved::NotFound), never_built);
    assert_eq!(result.unwrap(), bare(404));
}

#[test]
fn dispatch_keeps_a_resolution_failure() {
    let error = std::io::Error::new(std::io::ErrorKind::TimedOut, "stat timed out");
    let result = dispatch(Err(error), never_built);
    match result {
        Err(DispatchError::Resolution(kept)) => {
            assert_eq!(kept.kind(), std::io::ErrorKind::TimedOut);
            assert_eq!(kept.to_string(), "stat timed out");
        },
        other => panic!("expected the resolution failure, got {:?}", other),
    }
}

#[test]
fn dispatch_wraps_a_construction_failure() {
    let result = dispatch(Ok(Resolved::Found(3u32)), |_| {
        Err(ConstructionError { message: "bad header".to_string() })
    });
    match result {
        Err(failure) => {
            assert!(matches!(failure, DispatchError::Construction(_)));
            assert_eq!(failure.message(), "bad header");
        },
        Ok(response) => panic!("expected a failure, got {:?}", response),
    }
}
