use std::str::FromStr;

use axum::http::Uri;
use miniaturs::api::requests::{ImageResizePathParam, Signature};
use miniaturs::api::responses::{MetadataResponse, Operation, Source, Standard};
use miniaturs::api::routing::handlers::{
    canonicalize_path_and_query, ensure_signature_is_valid, handle_panic, metadata, wants_html,
    ErrorResponse, CACHE_CONTROL_HEADER_VALUE,
};
use miniaturs::infra::config::{
    AuthenticationSettings, AwsSettings, Config, ImageCacheSettings, ValidationSettings,
};
use miniaturs::infra::errors::AppError;
use miniaturs::infra::image_caching::ImageResize;
use miniaturs::infra::image_manipulation::Operations;
use miniaturs::infra::validations::ValidationErrors;
use miniaturs::signature::make_url_safe_base64_hash;

const SECRET: &str = "doyouwanttoknowasecretdoyoupromisenottotellwhoaohoh";

// What the router hands on of an address: its path, and its path and query
// where it has a query.
fn path_and_query(uri: &Uri) -> String {
    if uri.query().is_none() {
        uri.path().to_string()
    } else {
        uri.path_and_query()
            .map(|pq| pq.as_str())
            .unwrap_or("")
            .to_string()
    }
}

#[test]
fn test_ensure_signature_is_valid_fails_if_sig_is_wrong() {
    let auth_settings = AuthenticationSettings {
        shared_secret: SECRET.to_string(),
    };

    let signature = Signature("lol".to_string());

    let uri = Uri::from_str("http://meh.com/nope").unwrap();

    assert!(ensure_signature_is_valid(&auth_settings, &path_and_query(&uri), signature).is_err());
}

#[test]
fn test_ensure_signature_is_valid_succeeds_if_sig_is_right() -> Result<(), AppError> {
    let auth_settings = AuthenticationSettings {
        shared_secret: SECRET.to_string(),
    };

    let url_string = "200x-100/https://beachape.com/images/octopress_with_container.png";

    let generated_sig = make_url_safe_base64_hash(&SECRET, url_string).unwrap();

    let signature = Signature(generated_sig.clone());
    let uri_with_signature_and_path = format!("http://test.com/{generated_sig}/{url_string}");

    let uri = Uri::from_str(&uri_with_signature_and_path).unwrap();

    ensure_signature_is_valid(&auth_settings, &path_and_query(&uri), signature)
}

#[test]
fn test_ensure_signature_is_valid_succeeds_if_sig_is_right_with_query() -> Result<(), AppError> {
    let auth_settings = AuthenticationSettings {
        shared_secret: SECRET.to_string(),
    };

    let url_string =
        "200x-100/https://beachape.com/images/octopress_with_container.png?hello=world";

    let generated_sig = make_url_safe_base64_hash(&SECRET, url_string).unwrap();

    let signature = Signature(generated_sig.clone());
    let uri_with_signature_and_path = format!("http://test.com/{generated_sig}/{url_string}");

    let uri = Uri::from_str(&uri_with_signature_and_path).unwrap();

    ensure_signature_is_valid(&auth_settings, &path_and_query(&uri), signature)
}

#[test]
fn test_ensure_signature_is_valid_succeeds_if_sig_is_right_with_empty_query(
) -> Result<(), AppError> {
    let auth_settings = AuthenticationSettings {
        shared_secret: SECRET.to_string(),
    };

    let url_string = "200x-100/https://beachape.com/images/octopress_with_container.png";

    let generated_sig = make_url_safe_base64_hash(&SECRET, url_string).unwrap();

    let signature = Signature(generated_sig.clone());
    // Lambda + Axum
    let uri_with_signature_and_path = format!("http://test.com/{generated_sig}/{url_string}?");

    let uri = Uri::from_str(&uri_with_signature_and_path).unwrap();
    assert!(uri.query().is_some());

    ensure_signature_is_valid(&auth_settings, &path_and_query(&uri), signature)
}

#[test]
fn test_metadata_response_build() {
    let domain = Operations::build(&Some(ImageResize {
        target_width: -100,
        target_height: -300,
    }));
    let result = MetadataResponse::build("http://beachape.com/images/lol.png", &domain);
    let expected = MetadataResponse {
        source: Source {
            url: "http://beachape.com/images/lol.png".to_string(),
        },
        operations: vec![
            Operation {
                kind: "resize".to_string(),
                width: Some(100),
                height: Some(300),
            },
            Operation {
                kind: "flip_horizontally".to_string(),
                width: None,
                height: None,
            },
            Operation {
                kind: "flip_vertically".to_string(),
                width: None,
                height: None,
            },
        ],
    };
    assert_eq!(expected, result)
}

#[test]
fn metadata_response_of_nothing() {
    let result = MetadataResponse::build("", &Operations(vec![]));
    assert_eq!("", result.source.url);
    assert!(result.operations.is_empty());
}

#[test]
fn a_lone_question_mark_at_the_end_is_taken_off() {
    for (arrived, canonical) in [
        ("", ""),
        ("?", ""),
        ("/a", "/a"),
        ("/a?", "/a"),
        ("/a?b", "/a?b"),
        ("/a?b?", "/a?b?"),
        ("/a??", "/a??"),
        ("/a? ", "/a? "),
        ("/a?b=c&d=e", "/a?b=c&d=e"),
        ("/sig/10x10/http://x/y.png?", "/sig/10x10/http://x/y.png"),
        ("/sig/10x10/http://x/y.png?v=1?", "/sig/10x10/http://x/y.png?v=1?"),
    ] {
        assert_eq!(canonical, canonicalize_path_and_query(arrived));
    }
}

#[test]
fn a_wrong_signature_is_turned_down_with_or_without_the_question_mark() {
    let auth_settings = AuthenticationSettings {
        shared_secret: SECRET.to_string(),
    };
    let url_string = "200x-100/https://beachape.com/images/octopress_with_container.png";
    let right = make_url_safe_base64_hash(SECRET, url_string).unwrap();
    let wrong = make_url_safe_base64_hash(SECRET, "201x-100/https://beachape.com/").unwrap();
    for tail in ["", "?", "?hello=world"] {
        let arrived = format!("/{wrong}/{url_string}{tail}");
        match ensure_signature_is_valid(&auth_settings, &arrived, Signature(wrong.clone())) {
            Err(AppError::BadSignature(given)) => {
                assert_eq!(wrong, given);
                assert_eq!(401, AppError::BadSignature(given).into_response().status);
            }
            _ => panic!("a wrong signature is a bad signature"),
        }
    }
    // A query is part of what is signed.
    let arrived = format!("/{right}/{url_string}?hello=world");
    assert!(ensure_signature_is_valid(&auth_settings, &arrived, Signature(right.clone())).is_err());
    let arrived = format!("/{right}/{url_string}?");
    assert!(ensure_signature_is_valid(&auth_settings, &arrived, Signature(right)).is_ok());
}

#[test]
fn failures_are_answered_with_their_status_and_messages() {
    let messages = |body: Vec<&str>| Standard {
        messages: body.into_iter().map(|m| m.to_string()).collect(),
    };
    assert_eq!(
        ErrorResponse {
            status: 500,
            body: messages(vec!["the store is down"]),
        },
        AppError::CatchAll("the store is down".to_string()).into_response()
    );
    assert_eq!(
        ErrorResponse {
            status: 401,
            body: messages(vec!["The signature you provided [lol] was not correct"]),
        },
        AppError::BadSignature("lol".to_string()).into_response()
    );
    assert_eq!(
        ErrorResponse {
            status: 400,
            body: messages(vec!["An image format could not be determined. Make sure the extension or the content-type header is sensible."]),
        },
        AppError::UnableToDetermineFormat.into_response()
    );
    assert_eq!(
        ErrorResponse {
            status: 400,
            body: messages(vec!["one", "two"]),
        },
        AppError::ValidationFailed(vec!["one".to_string(), "two".to_string()]).into_response()
    );
    let from_errors: AppError = ValidationErrors(vec!["one".to_string()]).into();
    assert_eq!(
        ErrorResponse {
            status: 400,
            body: messages(vec!["one"]),
        },
        from_errors.into_response()
    );
    assert_eq!(messages(vec!["only"]), Standard::message("only".to_string()));
}

#[test]
fn a_breakdown_is_answered_with_what_is_known_of_it() {
    let response = handle_panic(Some("index out of bounds".to_string()));
    assert_eq!(500, response.status);
    assert_eq!(vec!["index out of bounds".to_string()], response.body.messages);
    let response = handle_panic(None);
    assert_eq!(500, response.status);
    assert_eq!(vec!["Unknown panic message".to_string()], response.body.messages);
}

#[test]
fn html_is_for_callers_that_accept_it() {
    assert!(wants_html(Some("text/html")));
    assert!(wants_html(Some("application/xhtml+xml,text/html;q=0.9,*/*;q=0.8")));
    assert!(!wants_html(Some("application/json")));
    assert!(!wants_html(Some("text/htm")));
    assert!(!wants_html(Some("TEXT/HTML")));
    assert!(!wants_html(Some("")));
    assert!(!wants_html(None));
}

#[test]
fn answers_may_be_kept_for_a_year() {
    assert_eq!("max-age=31536000", CACHE_CONTROL_HEADER_VALUE);
    assert_eq!(365 * 24 * 60 * 60, 31536000);
}

fn config(settings: ValidationSettings) -> Config {
    Config {
        authentication_settings: AuthenticationSettings {
            shared_secret: "omgwtfbbq".to_string(),
        },
        image_cache_settings: ImageCacheSettings {
            processed_images_bucket_name: "processed-bucket".to_string(),
            unprocessed_images_bucket_name: "unprocessed-bucket".to_string(),
        },
        aws_settings: AwsSettings { path_style_s3: true },
        validation_settings: settings,
    }
}

fn signed_metadata_path(width: i32, height: i32, url: &str) -> (String, String) {
    let path = format!("meta/{width}x{height}/{url}");
    let hash = make_url_safe_base64_hash("omgwtfbbq", &path).unwrap();
    (format!("/{hash}/{path}"), hash)
}

const PNG_URL_1: &str = "https://beachape.com/images/octopress_with_container.png";
const JPG_URL_1: &str = "https://beachape.com/images/super-high-performance.jpg";

#[test]
fn test_metadata_response() {
    for (url, width, height) in [
        (PNG_URL_1, 100, 80),
        (PNG_URL_1, -100, 80),
        (JPG_URL_1, 100, -80),
        (PNG_URL_1, -100, -80),
        ("https://unreachable.invalid/no/such/image.png", -100, -300),
        ("https://unreachable.invalid/not-an-image.txt", 0, 0),
    ] {
        let (path, signature) = signed_metadata_path(width, height, url);
        let param = ImageResizePathParam {
            target_width: width,
            target_height: height,
        };
        let mut shown = metadata(
            &config(ValidationSettings::default()),
            &path,
            Signature(signature),
            param,
            url,
        )
        .unwrap();
        assert_eq!(url, shown.source.url);
        shown.operations.reverse();
        let op = shown.operations.pop().unwrap();
        assert_eq!("resize", op.kind);
        assert_eq!(width.unsigned_abs(), op.width.unwrap());
        assert_eq!(height.unsigned_abs(), op.height.unwrap());
        if width < 0 {
            let op = shown.operations.pop().unwrap();
            assert_eq!("flip_horizontally", op.kind);
            assert_eq!(None, op.width);
            assert_eq!(None, op.height);
        }
        if height < 0 {
            let op = shown.operations.pop().unwrap();
            assert_eq!("flip_vertically", op.kind);
            assert_eq!(None, op.width);
            assert_eq!(None, op.height);
        }
        assert!(shown.operations.is_empty());
    }
}

#[test]
fn metadata_checks_the_signature_and_then_the_limits() {
    let url = "https://beachape.com/images/octopress_with_container.png";
    let (path, signature) = signed_metadata_path(10001, -10002, url);
    let param = ImageResizePathParam {
        target_width: 10001,
        target_height: -10002,
    };
    match metadata(
        &config(ValidationSettings::default()),
        &path,
        Signature(signature.clone()),
        param,
        url,
    ) {
        Err(AppError::ValidationFailed(problems)) => assert_eq!(
            vec![
                "Resize target width [10001] too large, must be [10000] or lower".to_string(),
                "Resize target height [10002] too large, must be [10000] or lower".to_string(),
            ],
            problems
        ),
        _ => panic!("limits are checked"),
    }
    // The path was signed for another size.
    let other = ImageResizePathParam {
        target_width: 1,
        target_height: 1,
    };
    let (other_path, _) = signed_metadata_path(1, 1, url);
    match metadata(
        &config(ValidationSettings::default()),
        &other_path,
        Signature(signature.clone()),
        other,
        url,
    ) {
        Err(AppError::BadSignature(given)) => assert_eq!(signature, given),
        _ => panic!("the signature is checked first"),
    }
}
