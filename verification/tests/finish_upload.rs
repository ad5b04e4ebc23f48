use captioner::errors::CaptionError;
use captioner::handler::finish_upload;
use captioner::response::caption_from_response;
use captioner::status_is_success;

const GOOD_BODY: &str = r#"{"candidates":[{"content":{"parts":[{"text":"A cat on a mat."}]}}]}"#;

#[test]
fn success_statuses_are_the_two_hundreds() {
    assert!(!status_is_success(199));
    assert!(status_is_success(200));
    assert!(status_is_success(204));
    assert!(status_is_success(299));
    assert!(!status_is_success(300));
    assert!(!status_is_success(404));
    assert!(!status_is_success(500));
}

#[test]
fn successful_response_completes_the_upload() {
    let result = finish_upload(200, GOOD_BODY, 42).expect("a caption-bearing response must finish");
    assert_eq!(result.caption, "A cat on a mat.");
    assert!(!result.caption.is_empty());
    assert_eq!(result.model, "Google Gemini 1.5 Flash");
    assert_eq!(result.processing_time_ms, 42);
}

#[test]
fn upstream_failure_finishes_as_internal_error_with_no_caption() {
    match finish_upload(429, "quota exhausted", 7) {
        Err(e) => {
            assert_eq!(e.http_status(), 500);
            match e {
                CaptionError::Upstream { status, body } => {
                    assert_eq!(status, 429);
                    assert_eq!(body, "quota exhausted");
                }
                _ => panic!("an upstream failure must be reported as Upstream"),
            }
        }
        Ok(_) => panic!("a non-success status must not produce a caption"),
    }
}

#[test]
fn unparsable_success_body_finishes_as_internal_error() {
    match finish_upload(200, "{\"candidates\": [", 3) {
        Err(e) => {
            assert!(matches!(e, CaptionError::MalformedResponse));
            assert_eq!(e.http_status(), 500);
        }
        Ok(_) => panic!("a body that is not JSON must not produce a caption"),
    }
}

#[test]
fn success_body_without_caption_path_finishes_as_internal_error() {
    match finish_upload(200, r#"{"candidates":[{"content":{"parts":[]}}]}"#, 3) {
        Err(e) => {
            assert!(matches!(e, CaptionError::MalformedResponse));
            assert_eq!(e.http_status(), 500);
        }
        Ok(_) => panic!("a body without the caption path must not produce a caption"),
    }
}

#[test]
fn success_body_with_empty_caption_finishes_as_internal_error() {
    let body = r#"{"candidates":[{"content":{"parts":[{"text":""}]}}]}"#;
    match finish_upload(200, body, 3) {
        Err(e) => {
            assert!(matches!(e, CaptionError::MalformedResponse));
            assert_eq!(e.http_status(), 500);
        }
        Ok(_) => panic!("an empty caption must not count as success"),
    }
}

#[test]
fn sequential_requests_each_report_their_own_elapsed_time() {
    let first = finish_upload(200, GOOD_BODY, 10).unwrap();
    let second = finish_upload(200, GOOD_BODY, 2000).unwrap();
    assert_eq!(first.processing_time_ms, 10);
    assert_eq!(second.processing_time_ms, 2000);
}

#[test]
fn caption_from_response_surfaces_the_raw_upstream_body() {
    match caption_from_response(503, "try later") {
        Err(CaptionError::Upstream { status, body }) => {
            assert_eq!(status, 503);
            assert_eq!(body, "try later");
        }
        _ => panic!("a non-success status must surface as Upstream"),
    }
}

#[test]
fn caption_from_response_extracts_the_caption_text() {
    let caption = caption_from_response(200, GOOD_BODY).unwrap();
    assert_eq!(caption, "A cat on a mat.");
}
