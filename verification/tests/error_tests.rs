use blandango::api::ApiError;
use blandango::text::decimal_text;
use blandango::ClientError;

#[test]
fn api_error_text() {
    let error = ApiError {
        code: 404,
        error: true,
        error_message: "not found".to_owned(),
        error_num: 1203,
    };
    assert_eq!(error.to_string(), "ApiError(404, true, not found, 1203)");
    let error = ApiError {
        code: -1,
        error: false,
        error_message: String::new(),
        error_num: 0,
    };
    assert_eq!(error.to_string(), "ApiError(-1, false, , 0)");
}

#[test]
fn decimal_text_of_the_edges() {
    assert_eq!(decimal_text(0), "0");
    assert_eq!(decimal_text(7), "7");
    assert_eq!(decimal_text(10), "10");
    assert_eq!(decimal_text(-10), "-10");
    assert_eq!(decimal_text(1203), "1203");
    assert_eq!(decimal_text(i32::MAX), "2147483647");
    assert_eq!(decimal_text(i32::MIN), "-2147483648");
    for n in [-1000, -99, -1, 1, 9, 11, 99, 100, 101, 65535, 1000000] {
        assert_eq!(decimal_text(n), format!("{}", n));
    }
}

#[test]
fn validation_error() {
    match ClientError::validation_error("name is empty".to_owned()) {
        ClientError::Validation(message) => assert_eq!(message, "name is empty"),
        _ => panic!("not a validation error"),
    }
}

#[test]
fn insertion_error() {
    match ClientError::insertion_error("nothing came back".to_owned()) {
        ClientError::Insertion(message) => assert_eq!(message, "nothing came back"),
        _ => panic!("not an insertion error"),
    }
}

#[test]
fn json_error_from() {
    let failure = serde_json::from_str::<serde_json::Value>("{").unwrap_err();
    assert!(matches!(ClientError::from(failure), ClientError::JsonError(_)));
}

#[test]
fn api_error_from() {
    let error = ApiError {
        code: 409,
        error: true,
        error_message: "unique constraint violated".to_owned(),
        error_num: 1210,
    };
    match ClientError::from(error) {
        ClientError::Api(error) => {
            assert_eq!(error.code, 409);
            assert_eq!(error.error_num, 1210);
            assert_eq!(error.error_message, "unique constraint violated");
        }
        _ => panic!("not an error of the server"),
    }
}

#[test]
fn request_error_from() {
    let failure = hyper::http::Request::builder().method("NOT A VERB").body(()).unwrap_err();
    assert!(matches!(ClientError::from(failure), ClientError::Connection(_)));
}

#[test]
fn uri_error_from() {
    let failure = "".parse::<hyper::http::Uri>().unwrap_err();
    assert!(matches!(ClientError::from(failure), ClientError::Uri(_)));
}

#[test]
fn params_error_from() {
    let failure = serde_url_params::to_string(&"top level").unwrap_err();
    assert!(matches!(ClientError::from(failure), ClientError::Params(_)));
}

#[test]
fn client_error_text() {
    let text = ClientError::validation_error("name is empty".to_owned()).to_string();
    assert!(text.starts_with("client error "));
    assert!(text.contains("Validation"));
    assert!(text.contains("name is empty"));
    let failure = serde_json::from_str::<serde_json::Value>("{").unwrap_err();
    let text = ClientError::from(failure).to_string();
    assert!(text.starts_with("client error "));
    assert!(text.contains("JsonError"));
}
