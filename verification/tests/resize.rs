use std::io::Cursor;

use miniaturs::api::requests::{ImageResizePathParam, Signature};
use miniaturs::api::routing::resize::{
    choose_format, finish_render, render, render_decoded, start, step, Action, Event,
    ImageResponse, OriginHead, RenderJob, Rendered, State, IMAGE_RESPONSE_STATUS,
};
use miniaturs::api::routing::service::{serve, OriginReply, Served};
use miniaturs::infra::config::{
    AuthenticationSettings, AwsSettings, Config, ImageCacheSettings, ValidationSettings,
};
use miniaturs::infra::errors::AppError;
use miniaturs::infra::image_caching::{
    CacheGettable, CacheSettable, ImageCacher, ImageFetchRequest, ImageFetchedCacheRequest,
    ImageResize, ImageResizeRequest, ImageResizedCacheRequest, Retrieved,
};
use miniaturs::infra::image_manipulation::{Operation, Operations};
use miniaturs::infra::images::{DecodedImage, DetectedFormat, SourceFormat};
use miniaturs::infra::memory_cache::MemoryImageCacher;
use miniaturs::signature::make_url_safe_base64_hash;

const PNG_URL_1: &str = "https://beachape.com/images/octopress_with_container.png";
const JPG_URL_1: &str = "https://beachape.com/images/super-high-performance.jpg";

fn encoded(width: u32, height: u32, format: image::ImageFormat) -> Vec<u8> {
    let mut pixels = image::RgbImage::new(width, height);
    for (x, y, pixel) in pixels.enumerate_pixels_mut() {
        *pixel = image::Rgb([(x % 256) as u8, (y % 256) as u8, ((x + y) % 256) as u8]);
    }
    let mut cursor = Cursor::new(Vec::new());
    image::DynamicImage::ImageRgb8(pixels)
        .write_to(&mut cursor, format)
        .unwrap();
    cursor.into_inner()
}

fn decoded(bytes: &[u8]) -> (image::ImageFormat, image::DynamicImage) {
    let reader = image::ImageReader::new(Cursor::new(bytes))
        .with_guessed_format()
        .unwrap();
    let format = reader.format().unwrap();
    (format, reader.decode().unwrap())
}

fn config(settings: ValidationSettings) -> Config {
    Config {
        authentication_settings: AuthenticationSettings {
            shared_secret: "omgwtfbbq".to_string(),
        },
        image_cache_settings: ImageCacheSettings {
            processed_images_bucket_name: "processed-bucket".to_string(),
            unprocessed_images_bucket_name: "unprocessed-bucket".to_string(),
        },
        aws_settings: AwsSettings { path_style_s3: true },
        validation_settings: settings,
    }
}

fn request(url: &str, width: i32, height: i32) -> ImageResizeRequest {
    ImageResizeRequest {
        requested_image_url: url.to_string(),
        operations: Operations::build(&Some(ImageResize {
            target_width: width,
            target_height: height,
        })),
    }
}

fn job(url: &str, width: i32, height: i32, bytes: Vec<u8>, content_type: Option<&str>) -> RenderJob {
    RenderJob {
        request: request(url, width, height),
        bytes,
        content_type: content_type.map(|t| t.to_string()),
    }
}

#[test]
fn rendering_resizes_and_keeps_the_format_of_the_source() {
    let settings = ValidationSettings::default();
    let source = encoded(300, 200, image::ImageFormat::Png);
    let rendered = render(job(PNG_URL_1, 100, 80, source, Some("image/png")), &settings)
        .ok()
        .unwrap();
    assert_eq!("image/png", rendered.entry.content_type);
    assert_eq!(request(PNG_URL_1, 100, 80), rendered.entry.request);
    let (format, image) = decoded(&rendered.bytes);
    assert_eq!(image::ImageFormat::Png, format);
    assert_eq!(100, image.width());
    assert_eq!(80, image.height());

    let source = encoded(300, 200, image::ImageFormat::Jpeg);
    let rendered = render(job(JPG_URL_1, -50, 70, source, Some("image/jpeg")), &settings)
        .ok()
        .unwrap();
    assert_eq!("image/jpeg", rendered.entry.content_type);
    let (format, image) = decoded(&rendered.bytes);
    assert_eq!(image::ImageFormat::Jpeg, format);
    assert_eq!(50, image.width());
    assert_eq!(70, image.height());
}

#[test]
fn rendering_flips_the_pixels() {
    let settings = ValidationSettings::default();
    let source = encoded(4, 2, image::ImageFormat::Png);
    let (_, untouched) = decoded(&source);
    let untouched = untouched.to_rgb8();
    let flipped = |width: i32, height: i32| {
        let rendered = render(job(PNG_URL_1, width, height, source.clone(), None), &settings)
            .ok()
            .unwrap();
        decoded(&rendered.bytes).1.to_rgb8()
    };
    let same = flipped(0, 0);
    let horizontal = flipped(-4, 2);
    let vertical = flipped(4, -2);
    let both = flipped(-4, -2);
    for x in 0..4 {
        for y in 0..2 {
            let pixel = untouched.get_pixel(x, y);
            assert_eq!(pixel, same.get_pixel(x, y));
            assert_eq!(pixel, horizontal.get_pixel(3 - x, y));
            assert_eq!(pixel, vertical.get_pixel(x, 1 - y));
            assert_eq!(pixel, both.get_pixel(3 - x, 1 - y));
        }
    }
}

#[test]
fn the_format_comes_from_the_declared_type_then_the_address_then_the_bytes() {
    let settings = ValidationSettings::default();
    let png = encoded(30, 20, image::ImageFormat::Png);
    let gif = encoded(30, 20, image::ImageFormat::Gif);
    // Only the bytes tell.
    let rendered = render(job("https://example.com/picture", 3, 2, png.clone(), None), &settings)
        .ok()
        .unwrap();
    assert_eq!("image/png", rendered.entry.content_type);
    let rendered = render(
        job("https://example.com/picture", 3, 2, gif.clone(), Some("text/plain")),
        &settings,
    )
    .ok()
    .unwrap();
    assert_eq!("image/gif", rendered.entry.content_type);
    // An extension behind which a query stands is not seen; the bytes tell.
    let rendered = render(
        job("https://example.com/picture.png?v=1", 3, 2, gif.clone(), None),
        &settings,
    )
    .ok()
    .unwrap();
    assert_eq!("image/gif", rendered.entry.content_type);
    // The address tells: bytes of another format cannot be decoded as it says.
    assert!(matches!(
        render(job("https://example.com/picture.png", 3, 2, gif.clone(), None), &settings),
        Err(AppError::CatchAll(_))
    ));
    // The declared type is taken before the address.
    let rendered = render(
        job("https://example.com/picture.png", 3, 2, gif.clone(), Some("image/gif")),
        &settings,
    )
    .ok()
    .unwrap();
    assert_eq!("image/gif", rendered.entry.content_type);
    assert_eq!(image::ImageFormat::Gif, decoded(&rendered.bytes).0);
    assert!(matches!(
        render(job("https://example.com/picture.gif", 3, 2, gif, Some("image/png")), &settings),
        Err(AppError::CatchAll(_))
    ));
}

#[test]
fn a_format_that_nothing_tells_cannot_be_determined() {
    let settings = ValidationSettings::default();
    for content_type in [None, Some("application/octet-stream")] {
        assert!(matches!(
            render(
                job("https://example.com/picture", 3, 2, b"no image at all".to_vec(), content_type),
                &settings
            ),
            Err(AppError::UnableToDetermineFormat)
        ));
    }
    assert!(matches!(
        render(job("https://example.com/picture", 3, 2, vec![], None), &settings),
        Err(AppError::UnableToDetermineFormat)
    ));
}

#[test]
fn bytes_that_cannot_be_decoded_are_no_validation_problem() {
    let settings = ValidationSettings::default();
    let mut broken = encoded(30, 20, image::ImageFormat::Png);
    broken.truncate(40);
    assert!(matches!(
        render(job(PNG_URL_1, 3, 2, broken, Some("image/png")), &settings),
        Err(AppError::CatchAll(_))
    ));
}

#[test]
fn a_source_image_over_the_limits_is_refused() {
    let settings = ValidationSettings {
        max_source_image_width: 29,
        max_source_image_height: 19,
        ..ValidationSettings::default()
    };
    let source = encoded(30, 20, image::ImageFormat::Png);
    match render(job(PNG_URL_1, 3, 2, source, Some("image/png")), &settings) {
        Err(AppError::ValidationFailed(problems)) => assert_eq!(
            vec![
                "Source image width [30] too large, must be [29] or lower".to_string(),
                "Source image height [20] too large, must be [19] or lower".to_string(),
            ],
            problems
        ),
        _ => panic!("the source is held to the limits"),
    }
}

#[test]
fn the_format_is_settled_in_a_fixed_order() {
    let png = Some(DetectedFormat::Supported(SourceFormat::Png));
    let gif = Some(DetectedFormat::Supported(SourceFormat::Gif));
    let bmp = Some(DetectedFormat::Supported(SourceFormat::Bmp));
    let other = Some(DetectedFormat::Unsupported);
    let unreadable = || Err("unreadable".to_string());
    assert_eq!(Some(SourceFormat::Png), choose_format(png, gif, Ok(bmp)).ok());
    assert_eq!(Some(SourceFormat::Png), choose_format(png, None, unreadable()).ok());
    assert_eq!(Some(SourceFormat::Gif), choose_format(None, gif, Ok(bmp)).ok());
    assert_eq!(Some(SourceFormat::Gif), choose_format(None, gif, unreadable()).ok());
    assert_eq!(Some(SourceFormat::Bmp), choose_format(None, None, Ok(bmp)).ok());
    assert!(matches!(
        choose_format(None, None, Ok(None)),
        Err(AppError::UnableToDetermineFormat)
    ));
    match choose_format(None, None, unreadable()) {
        Err(AppError::CatchAll(reason)) => assert_eq!("unreadable", reason),
        _ => panic!("a failure to look at the bytes is reported"),
    }
    // The first hint counts, also where it names a format that is not decoded.
    for (declared, by_extension, sniffed) in [
        (other, png, Ok(png)),
        (None, other, Ok(png)),
        (None, None, Ok(other)),
    ] {
        match choose_format(declared, by_extension, sniffed) {
            Err(AppError::CatchAll(reason)) => {
                assert_eq!("The format of the image is not supported", reason)
            }
            _ => panic!("a format that is not decoded is not taken for another"),
        }
    }
}

#[test]
fn a_format_that_is_known_but_not_decoded_is_a_failure() {
    let settings = ValidationSettings::default();
    let png = encoded(30, 20, image::ImageFormat::Png);
    for (url, content_type) in [
        ("https://example.com/picture", Some("image/tiff")),
        ("https://example.com/picture.tif", None),
        ("https://example.com/picture.png", Some("image/x-icon")),
    ] {
        match render(job(url, 3, 2, png.clone(), content_type), &settings) {
            Err(error) => assert_eq!(500, error.into_response().status),
            Ok(_) => panic!("the hint is not overruled by the bytes"),
        }
    }
}

fn signed(width: i32, height: i32, url: &str) -> (String, Signature) {
    let path = format!("{width}x{height}/{url}");
    let hash = make_url_safe_base64_hash("omgwtfbbq", &path).unwrap();
    (format!("/{hash}/{path}"), Signature(hash))
}

fn begin(settings: ValidationSettings, width: i32, height: i32, url: &str) -> (State, Action) {
    let (path, signature) = signed(width, height, url);
    start(
        &config(settings),
        &path,
        signature,
        ImageResizePathParam {
            target_width: width,
            target_height: height,
        },
        url.to_string(),
    )
}

#[test]
fn a_request_begins_at_the_tier_of_transformed_images() {
    match begin(ValidationSettings::default(), 100, -80, PNG_URL_1) {
        (State::CheckTransformCache { request: kept }, Action::LookupProcessed(asked)) => {
            assert_eq!(request(PNG_URL_1, 100, -80), kept);
            assert_eq!(kept, asked);
            assert_eq!(
                vec![
                    Operation::Resize { width: 100, height: 80 },
                    Operation::FlipVertically
                ],
                asked.operations.0
            );
        }
        _ => panic!("the tier of transformed images is asked first"),
    }
}

#[test]
fn a_request_with_a_wrong_signature_is_not_let_in() {
    let (path, _) = signed(100, 80, PNG_URL_1);
    let first = start(
        &config(ValidationSettings::default()),
        &path,
        Signature("lol".to_string()),
        ImageResizePathParam {
            target_width: 100,
            target_height: 80,
        },
        PNG_URL_1.to_string(),
    );
    match first {
        (State::Done, Action::Respond(Err(AppError::BadSignature(given)))) => {
            assert_eq!("lol", given);
        }
        _ => panic!("the signature is checked first"),
    }
    // Signed for one size, asked with another.
    let (path, signature) = signed(100, 80, PNG_URL_1);
    let first = start(
        &config(ValidationSettings::default()),
        &path,
        signature,
        ImageResizePathParam {
            target_width: 100,
            target_height: 80,
        },
        JPG_URL_1.to_string(),
    );
    // The address that is fetched is the router's affair; what is signed is the path.
    assert!(matches!(first, (State::CheckTransformCache { .. }, _)));
}

#[test]
fn a_request_over_the_limits_is_not_let_in() {
    match begin(ValidationSettings::default(), 10001, 10001, PNG_URL_1) {
        (State::Done, Action::Respond(Err(AppError::ValidationFailed(problems)))) => {
            assert_eq!(2, problems.len());
            assert!(problems[0].starts_with("Resize target width"));
            assert!(problems[1].starts_with("Resize target height"));
        }
        _ => panic!("limits are checked before any look-up"),
    }
}

fn resized_hit(url: &str, bytes: &[u8]) -> Retrieved<ImageResizedCacheRequest> {
    Retrieved {
        bytes: bytes.to_vec(),
        requested: ImageResizedCacheRequest {
            request: request(url, 100, 80),
            content_type: "image/png".to_string(),
        },
    }
}

#[test]
fn an_image_goes_out_with_status_200() {
    assert_eq!(200, IMAGE_RESPONSE_STATUS);
}

#[test]
fn a_hit_in_the_tier_of_transformed_images_is_the_answer() {
    let settings = ValidationSettings::default();
    let state = State::CheckTransformCache {
        request: request(PNG_URL_1, 100, 80),
    };
    match step(
        state,
        Event::ProcessedLookup(Ok(Some(resized_hit(PNG_URL_1, b"cached")))),
        &settings,
    ) {
        (State::Done, Action::Respond(Ok(response))) => assert_eq!(
            ImageResponse {
                content_type: "image/png".to_string(),
                bytes: b"cached".to_vec()
            },
            response
        ),
        _ => panic!("a hit is answered at once"),
    }
}

#[test]
fn the_machine_goes_from_tier_to_tier_to_origin() {
    let settings = ValidationSettings {
        max_source_image_download_size: 5000,
        max_source_image_size: 4000,
        ..ValidationSettings::default()
    };
    let wanted = request(PNG_URL_1, 100, 80);
    let state = State::CheckTransformCache {
        request: wanted.clone(),
    };
    let (state, action) = step(state, Event::ProcessedLookup(Ok(None)), &settings);
    assert!(matches!(&state, State::CheckFetchCache { request } if *request == wanted));
    match action {
        Action::LookupUnprocessed(asked) => assert_eq!(PNG_URL_1, asked.requested_image_url),
        _ => panic!("the tier of source images is asked second"),
    }
    let (state, action) = step(state, Event::UnprocessedLookup(Ok(None)), &settings);
    assert!(matches!(&state, State::FetchOrigin { request } if *request == wanted));
    match action {
        Action::FetchOrigin(url) => assert_eq!(PNG_URL_1, url),
        _ => panic!("the origin is asked last"),
    }
    let head = OriginHead {
        content_length: Some("5000".to_string()),
        content_type: Some("image/png".to_string()),
    };
    let (state, action) = step(state, Event::OriginHeaders(Ok(head)), &settings);
    assert!(matches!(
        &state,
        State::ReadBody { request, content_type }
            if *request == wanted && content_type.as_deref() == Some("image/png")
    ));
    assert!(matches!(action, Action::ReadOriginBody));
    let body = vec![7u8; 4000];
    let (state, action) = step(state, Event::OriginBody(Ok(body.clone())), &settings);
    assert!(matches!(
        &state,
        State::StoreSource { request, bytes, content_type }
            if *request == wanted && *bytes == body && content_type.as_deref() == Some("image/png")
    ));
    match action {
        Action::StoreUnprocessed { bytes, entry } => {
            assert_eq!(body, bytes);
            assert_eq!(
                ImageFetchedCacheRequest {
                    request: ImageFetchRequest {
                        requested_image_url: PNG_URL_1.to_string()
                    },
                    content_type: Some("image/png".to_string()),
                },
                entry
            );
        }
        _ => panic!("the source is written to its tier"),
    }
    let (state, action) = step(state, Event::Stored(Ok(())), &settings);
    assert!(matches!(state, State::Rendering));
    match action {
        Action::Render(job) => {
            assert_eq!(wanted, job.request);
            assert_eq!(body, job.bytes);
            assert_eq!(Some("image/png".to_string()), job.content_type);
        }
        _ => panic!("the source is rendered"),
    }
    let rendered = Rendered {
        bytes: b"rendered".to_vec(),
        entry: ImageResizedCacheRequest {
            request: wanted.clone(),
            content_type: "image/png".to_string(),
        },
    };
    let (state, action) = step(State::Rendering, Event::Rendered(Ok(rendered)), &settings);
    assert!(matches!(
        &state,
        State::StoreResult { response }
            if response.bytes == b"rendered" && response.content_type == "image/png"
    ));
    match action {
        Action::StoreProcessed { bytes, entry } => {
            assert_eq!(b"rendered".to_vec(), bytes);
            assert_eq!(wanted, entry.request);
            assert_eq!("image/png", entry.content_type);
        }
        _ => panic!("the rendered image is written to its tier"),
    }
    match step(state, Event::Stored(Ok(())), &settings) {
        (State::Done, Action::Respond(Ok(response))) => {
            assert_eq!(b"rendered".to_vec(), response.bytes);
            assert_eq!("image/png", response.content_type);
        }
        _ => panic!("the answer comes last"),
    }
}

#[test]
fn a_hit_in_the_tier_of_source_images_spares_the_origin() {
    let settings = ValidationSettings::default();
    let wanted = request(PNG_URL_1, 100, 80);
    let hit = Retrieved {
        bytes: b"source".to_vec(),
        requested: ImageFetchedCacheRequest {
            request: ImageFetchRequest {
                requested_image_url: PNG_URL_1.to_string(),
            },
            content_type: None,
        },
    };
    let state = State::CheckFetchCache {
        request: wanted.clone(),
    };
    match step(state, Event::UnprocessedLookup(Ok(Some(hit))), &settings) {
        (State::Rendering, Action::Render(job)) => {
            assert_eq!(wanted, job.request);
            assert_eq!(b"source".to_vec(), job.bytes);
            assert_eq!(None, job.content_type);
        }
        _ => panic!("a cached source is rendered"),
    }
}

fn refused(outcome: (State, Action)) -> Vec<String> {
    match outcome {
        (State::Done, Action::Respond(Err(AppError::ValidationFailed(problems)))) => problems,
        _ => panic!("expected a refusal"),
    }
}

#[test]
fn the_announced_size_is_checked_before_the_body_is_read() {
    let settings = ValidationSettings {
        max_source_image_download_size: 5000,
        ..ValidationSettings::default()
    };
    let waiting = || State::FetchOrigin {
        request: request(PNG_URL_1, 100, 80),
    };
    let head = |content_length: Option<&str>| {
        Event::OriginHeaders(Ok(OriginHead {
            content_length: content_length.map(|t| t.to_string()),
            content_type: None,
        }))
    };
    assert_eq!(
        vec!["Image download size [5.0 KB] is too large, must be [5.0 KB] or lower".to_string()],
        refused(step(waiting(), head(Some("5001")), &settings))
    );
    assert_eq!(
        vec![format!(
            "Image download size [{}] is too large, must be [{}] or lower",
            bytesize::ByteSize(1_000_000),
            bytesize::ByteSize(5000)
        )],
        refused(step(waiting(), head(Some("1 MB")), &settings))
    );
    for fine in [Some("5000"), Some("0"), Some("not a size"), Some(""), None] {
        assert!(matches!(
            step(waiting(), head(fine), &settings),
            (State::ReadBody { .. }, Action::ReadOriginBody)
        ));
    }
}

#[test]
fn the_size_of_the_body_is_checked_before_it_is_stored() {
    let settings = ValidationSettings {
        max_source_image_size: 10,
        ..ValidationSettings::default()
    };
    let waiting = || State::ReadBody {
        request: request(PNG_URL_1, 100, 80),
        content_type: None,
    };
    assert_eq!(
        vec!["Image size [11 B] is too large, must be [10 B] or lower".to_string()],
        refused(step(waiting(), Event::OriginBody(Ok(vec![0; 11])), &settings))
    );
    assert!(matches!(
        step(waiting(), Event::OriginBody(Ok(vec![0; 10])), &settings),
        (State::StoreSource { .. }, Action::StoreUnprocessed { .. })
    ));
}

fn failed(outcome: (State, Action)) -> String {
    match outcome {
        (State::Done, Action::Respond(Err(AppError::CatchAll(reason)))) => reason,
        _ => panic!("expected a failure"),
    }
}

#[test]
fn failures_of_the_host_end_the_request() {
    let settings = ValidationSettings::default();
    let wanted = || request(PNG_URL_1, 100, 80);
    let down = || AppError::CatchAll("the store is down".to_string());
    assert_eq!(
        "the store is down",
        failed(step(
            State::CheckTransformCache { request: wanted() },
            Event::ProcessedLookup(Err(down())),
            &settings
        ))
    );
    assert_eq!(
        "the store is down",
        failed(step(
            State::CheckFetchCache { request: wanted() },
            Event::UnprocessedLookup(Err(down())),
            &settings
        ))
    );
    assert_eq!(
        "no route to host",
        failed(step(
            State::FetchOrigin { request: wanted() },
            Event::OriginHeaders(Err("no route to host".to_string())),
            &settings
        ))
    );
    assert_eq!(
        "connection reset",
        failed(step(
            State::ReadBody {
                request: wanted(),
                content_type: None
            },
            Event::OriginBody(Err("connection reset".to_string())),
            &settings
        ))
    );
    assert_eq!(
        "the store is down",
        failed(step(
            State::StoreSource {
                request: wanted(),
                bytes: vec![],
                content_type: None
            },
            Event::Stored(Err(down())),
            &settings
        ))
    );
    assert_eq!(
        "the store is down",
        failed(step(
            State::StoreResult {
                response: ImageResponse {
                    content_type: "image/png".to_string(),
                    bytes: vec![]
                }
            },
            Event::Stored(Err(down())),
            &settings
        ))
    );
    assert!(matches!(
        step(
            State::Rendering,
            Event::Rendered(Err(AppError::UnableToDetermineFormat)),
            &settings
        ),
        (State::Done, Action::Respond(Err(AppError::UnableToDetermineFormat)))
    ));
}

#[test]
fn an_event_out_of_turn_ends_the_request() {
    let settings = ValidationSettings::default();
    let wanted = || request(PNG_URL_1, 100, 80);
    for state in [
        State::CheckTransformCache { request: wanted() },
        State::FetchOrigin { request: wanted() },
        State::Rendering,
        State::Done,
    ] {
        assert!(matches!(
            step(state, Event::UnprocessedLookup(Ok(None)), &settings),
            (State::Done, Action::Respond(Err(AppError::CatchAll(_))))
        ));
    }
    assert!(matches!(
        step(State::Done, Event::Stored(Ok(())), &settings),
        (State::Done, Action::Respond(Err(AppError::CatchAll(_))))
    ));
}

fn origin(bytes: &[u8], content_type: Option<&str>) -> OriginReply {
    OriginReply {
        head: Ok(OriginHead {
            content_length: Some(bytes.len().to_string()),
            content_type: content_type.map(|t| t.to_string()),
        }),
        body: Ok(bytes.to_vec()),
    }
}

fn unreachable_origin() -> OriginReply {
    OriginReply {
        head: Err("the origin must not be asked".to_string()),
        body: Err("the origin must not be asked".to_string()),
    }
}

fn serve_signed(
    settings: ValidationSettings,
    width: i32,
    height: i32,
    url: &str,
    processed: &mut MemoryImageCacher,
    unprocessed: &mut MemoryImageCacher,
    reply: OriginReply,
) -> Served {
    let (path, signature) = signed(width, height, url);
    serve(
        &config(settings),
        &path,
        signature,
        ImageResizePathParam {
            target_width: width,
            target_height: height,
        },
        url.to_string(),
        processed,
        unprocessed,
        reply,
    )
}

fn two_requests(url: &str, format: image::ImageFormat, first: (i32, i32), second: (i32, i32)) {
    let source = encoded(600, 400, format);
    let mut processed = MemoryImageCacher::new();
    let mut unprocessed = MemoryImageCacher::new();
    let settings = ValidationSettings::default;

    // Nothing is cached to begin with.
    let fetch_request = ImageFetchRequest {
        requested_image_url: url.to_string(),
    };
    assert!(unprocessed.get(&fetch_request).unwrap().is_none());
    assert!(processed.get(&request(url, first.0, first.1)).unwrap().is_none());
    assert!(processed.get(&request(url, second.0, second.1)).unwrap().is_none());

    let served = serve_signed(
        settings(),
        first.0,
        first.1,
        url,
        &mut processed,
        &mut unprocessed,
        origin(&source, Some(format.to_mime_type())),
    );
    assert!(served.asked_origin);
    let response = served.response.ok().unwrap();
    assert_eq!(format.to_mime_type(), response.content_type);
    let (got_format, image) = decoded(&response.bytes);
    assert_eq!(format, got_format);
    assert_eq!(first.0 as u32, image.width());
    assert_eq!(first.1 as u32, image.height());

    // What should be cached is cached.
    let cached_source = unprocessed.get(&fetch_request).unwrap().unwrap();
    assert_eq!(source, cached_source.bytes);
    assert_eq!(
        Some(format.to_mime_type().to_string()),
        cached_source.requested.content_type
    );
    let cached = processed.get(&request(url, first.0, first.1)).unwrap().unwrap();
    assert_eq!(response.bytes, cached.bytes);
    assert!(processed.get(&request(url, second.0, second.1)).unwrap().is_none());
    assert_eq!(1, unprocessed.len());
    assert_eq!(1, processed.len());

    // The second request finds the source and leaves the origin alone.
    let served = serve_signed(
        settings(),
        second.0,
        second.1,
        url,
        &mut processed,
        &mut unprocessed,
        unreachable_origin(),
    );
    assert!(!served.asked_origin);
    let response = served.response.ok().unwrap();
    assert_eq!(format.to_mime_type(), response.content_type);
    let (got_format, image) = decoded(&response.bytes);
    assert_eq!(format, got_format);
    assert_eq!(second.0 as u32, image.width());
    assert_eq!(second.1 as u32, image.height());

    assert_eq!(1, unprocessed.len());
    assert_eq!(fetch_request.cache_key().unwrap().0, unprocessed.objects[0].key);
    assert_eq!(2, processed.len());
    assert_eq!(
        request(url, first.0, first.1).cache_key().unwrap().0,
        processed.objects[0].key
    );
    assert_eq!(
        request(url, second.0, second.1).cache_key().unwrap().0,
        processed.objects[1].key
    );
    assert!(processed.get(&request(url, first.0, first.1)).unwrap().is_some());
    assert!(processed.get(&request(url, second.0, second.1)).unwrap().is_some());

    // A third request, for the first size again, is answered from the cache.
    let served = serve_signed(
        settings(),
        first.0,
        first.1,
        url,
        &mut processed,
        &mut unprocessed,
        unreachable_origin(),
    );
    assert!(!served.asked_origin);
    assert_eq!(cached.bytes, served.response.ok().unwrap().bytes);
    assert_eq!(1, unprocessed.len());
    assert_eq!(2, processed.len());
}

#[test]
fn test_resize_png() {
    two_requests(PNG_URL_1, image::ImageFormat::Png, (100, 80), (300, 100));
}

#[test]
fn test_resize_jpg() {
    two_requests(JPG_URL_1, image::ImageFormat::Jpeg, (50, 70), (500, 600));
}

#[test]
fn a_request_that_is_not_let_in_touches_nothing() {
    let mut processed = MemoryImageCacher::new();
    let mut unprocessed = MemoryImageCacher::new();
    let (path, _) = signed(100, 80, PNG_URL_1);
    let served = serve(
        &config(ValidationSettings::default()),
        &path,
        Signature("lol".to_string()),
        ImageResizePathParam {
            target_width: 100,
            target_height: 80,
        },
        PNG_URL_1.to_string(),
        &mut processed,
        &mut unprocessed,
        unreachable_origin(),
    );
    assert!(!served.asked_origin);
    match served.response {
        Err(error) => assert_eq!(401, error.into_response().status),
        Ok(_) => panic!("a wrong signature is not served"),
    }
    let served = serve_signed(
        ValidationSettings::default(),
        20000,
        80,
        PNG_URL_1,
        &mut processed,
        &mut unprocessed,
        unreachable_origin(),
    );
    assert!(!served.asked_origin);
    match served.response {
        Err(error) => assert_eq!(400, error.into_response().status),
        Ok(_) => panic!("a size over the limits is not served"),
    }
    assert_eq!(0, processed.len());
    assert_eq!(0, unprocessed.len());
}

#[test]
fn what_the_origin_sends_is_held_to_the_limits() {
    let source = encoded(60, 40, image::ImageFormat::Png);
    let small = ValidationSettings {
        max_source_image_download_size: 10,
        ..ValidationSettings::default()
    };
    let mut processed = MemoryImageCacher::new();
    let mut unprocessed = MemoryImageCacher::new();
    let served = serve_signed(
        small,
        10,
        10,
        PNG_URL_1,
        &mut processed,
        &mut unprocessed,
        origin(&source, Some("image/png")),
    );
    assert!(served.asked_origin);
    assert!(matches!(served.response, Err(AppError::ValidationFailed(_))));
    assert_eq!(0, unprocessed.len());

    // The origin announces nothing, and sends too much.
    let small = ValidationSettings {
        max_source_image_size: 10,
        ..ValidationSettings::default()
    };
    let reply = OriginReply {
        head: Ok(OriginHead {
            content_length: None,
            content_type: None,
        }),
        body: Ok(source.clone()),
    };
    let served = serve_signed(small, 10, 10, PNG_URL_1, &mut processed, &mut unprocessed, reply);
    match served.response {
        Err(AppError::ValidationFailed(problems)) => {
            assert_eq!(1, problems.len());
            assert!(problems[0].starts_with("Image size"));
        }
        _ => panic!("the body is held to its limit"),
    }
    assert_eq!(0, unprocessed.len());

    // A source that cannot be decoded is stored all the same, and is no one's fault.
    let served = serve_signed(
        ValidationSettings::default(),
        10,
        10,
        PNG_URL_1,
        &mut processed,
        &mut unprocessed,
        origin(b"<html>not found</html>", Some("image/png")),
    );
    match served.response {
        Err(error) => assert_eq!(500, error.into_response().status),
        Ok(_) => panic!("a page is no image"),
    }
    assert_eq!(1, unprocessed.len());
    assert_eq!(0, processed.len());

    // An origin that cannot be reached.
    let mut unprocessed = MemoryImageCacher::new();
    let served = serve_signed(
        ValidationSettings::default(),
        10,
        10,
        PNG_URL_1,
        &mut processed,
        &mut unprocessed,
        OriginReply {
            head: Err("no route to host".to_string()),
            body: Err("never read".to_string()),
        },
    );
    assert!(served.asked_origin);
    match served.response {
        Err(AppError::CatchAll(reason)) => assert_eq!("no route to host", reason),
        _ => panic!("an origin that is down is a failure"),
    }
}

#[test]
fn an_entry_can_be_stored_by_hand_and_is_served() {
    let mut processed = MemoryImageCacher::new();
    let mut unprocessed = MemoryImageCacher::new();
    let entry = ImageResizedCacheRequest {
        request: request(PNG_URL_1, 100, 80),
        content_type: "image/webp".to_string(),
    };
    assert_eq!(entry.cache_key().unwrap().0, entry.request.cache_key().unwrap().0);
    assert!(entry.metadata().is_ok());
    processed.set(b"bytes as they were stored", &entry).unwrap();
    let served = serve_signed(
        ValidationSettings::default(),
        100,
        80,
        PNG_URL_1,
        &mut processed,
        &mut unprocessed,
        unreachable_origin(),
    );
    assert!(!served.asked_origin);
    assert_eq!(
        Some(ImageResponse {
            content_type: "image/webp".to_string(),
            bytes: b"bytes as they were stored".to_vec()
        }),
        served.response.ok()
    );
    assert_eq!(0, unprocessed.len());
}

#[test]
fn a_decoded_source_is_held_to_the_limits_and_then_transformed() {
    let settings = ValidationSettings {
        max_source_image_width: 40,
        max_source_image_height: 30,
        ..ValidationSettings::default()
    };
    match render_decoded(
        DecodedImage::blank(41, 31).unwrap(),
        request(PNG_URL_1, 4, 3),
        SourceFormat::Png,
        &settings,
    ) {
        Err(AppError::ValidationFailed(problems)) => assert_eq!(
            vec![
                "Source image width [41] too large, must be [40] or lower".to_string(),
                "Source image height [31] too large, must be [30] or lower".to_string(),
            ],
            problems
        ),
        _ => panic!("the source is held to the limits"),
    }
    for format in [
        SourceFormat::Png,
        SourceFormat::Jpeg,
        SourceFormat::Gif,
        SourceFormat::WebP,
        SourceFormat::Bmp,
    ] {
        let rendered = render_decoded(
            DecodedImage::blank(40, 30).unwrap(),
            request(PNG_URL_1, -4, 3),
            format,
            &settings,
        )
        .ok()
        .unwrap();
        assert_eq!(request(PNG_URL_1, -4, 3), rendered.entry.request);
        let (found, image) = decoded(&rendered.bytes);
        assert_eq!(found.to_mime_type(), rendered.entry.content_type);
        assert_eq!((4, 3), (image.width(), image.height()));
    }
    let huge = ImageResizeRequest {
        requested_image_url: PNG_URL_1.to_string(),
        operations: Operations(vec![Operation::Resize {
            width: u32::MAX,
            height: u32::MAX,
        }]),
    };
    match render_decoded(
        DecodedImage::blank(40, 30).unwrap(),
        huge,
        SourceFormat::Png,
        &settings,
    ) {
        Err(AppError::CatchAll(reason)) => assert_eq!(
            "The image is too large to be transformed on this machine",
            reason
        ),
        _ => panic!("an image without room fails the rendering"),
    }
}

#[test]
fn a_rendering_ends_with_what_the_encoder_gave() {
    let rendered = finish_render(
        Ok(vec![1, 2, 3]),
        request(PNG_URL_1, 4, 3),
        "image/png".to_string(),
    )
    .ok()
    .unwrap();
    assert_eq!(vec![1, 2, 3], rendered.bytes);
    assert_eq!(request(PNG_URL_1, 4, 3), rendered.entry.request);
    assert_eq!("image/png", rendered.entry.content_type);
    match finish_render(
        Err("disk full".to_string()),
        request(PNG_URL_1, 4, 3),
        "image/png".to_string(),
    ) {
        Err(AppError::CatchAll(reason)) => assert_eq!("disk full", reason),
        _ => panic!("a failure of the encoder fails the rendering"),
    }
}

#[test]
fn a_declared_content_type_settles_the_format() {
    let settings = ValidationSettings {
        max_source_image_width: 29,
        ..ValidationSettings::default()
    };
    let gif = encoded(30, 20, image::ImageFormat::Gif);
    // Over the limits under the declared format: exactly the problems.
    match render(job("https://example.com/p", 3, 2, gif.clone(), Some("image/gif")), &settings) {
        Err(AppError::ValidationFailed(problems)) => assert_eq!(
            vec!["Source image width [30] too large, must be [29] or lower".to_string()],
            problems
        ),
        _ => panic!("a source over the limits is refused"),
    }
    // Not decodable under the declared format.
    for declared in ["image/png", "image/jpeg", "image/webp", "image/bmp"] {
        assert!(matches!(
            render(job("https://example.com/p.gif", 3, 2, gif.clone(), Some(declared)), &settings),
            Err(AppError::CatchAll(_))
        ));
    }
    // Every MIME type that names a format that is not decoded here.
    for declared in [
        "image/avif",
        "image/tiff",
        "image/x-targa",
        "image/x-tga",
        "image/vnd-ms.dds",
        "image/x-icon",
        "image/vnd.microsoft.icon",
        "image/vnd.radiance",
        "image/x-exr",
        "image/x-portable-bitmap",
        "image/x-portable-graymap",
        "image/x-portable-pixmap",
        "image/x-portable-anymap",
        "image/x-qoi",
    ] {
        assert!(image::ImageFormat::from_mime_type(declared).is_some());
        match render(job("https://example.com/p.gif", 3, 2, gif.clone(), Some(declared)), &settings) {
            Err(AppError::CatchAll(reason)) => {
                assert_eq!("The format of the image is not supported", reason)
            }
            _ => panic!("a format that is not decoded is not taken for another"),
        }
    }
    // A type that names no format leaves it to the address and the bytes.
    for declared in ["image/PNG", "image/jpg", "text/html", "", "image/png; charset=x"] {
        assert!(image::ImageFormat::from_mime_type(declared).is_none());
        let settings = ValidationSettings::default();
        let rendered = render(job("https://example.com/p", 3, 2, gif.clone(), Some(declared)), &settings)
            .ok()
            .unwrap();
        assert_eq!("image/gif", rendered.entry.content_type);
    }
}
