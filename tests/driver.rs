use image::ImageFormat;
use imco::convert::{Action, ConversionOutcome, Converter, Event, Options};
use imco::error::ImcoError;

fn strings(v: &[&str]) -> Vec<String> {
    v.iter().map(|s| s.to_string()).collect()
}

fn converter(inputs: &[&str], outputs: &[&str], i: Option<&str>, o: Option<&str>, batch: bool) -> Converter {
    Converter::new(
        &strings(inputs),
        &strings(outputs),
        &i.map(|t| t.to_string()),
        &o.map(|t| t.to_string()),
        batch,
    )
    .unwrap()
}

fn decode_of(a: Action) -> (String, Option<ImageFormat>) {
    match a {
        Action::Decode { input, forced } => (input, forced),
        other => panic!("expected a decode, got {other:?}"),
    }
}

fn encode_of(a: Action) -> (String, String, ImageFormat) {
    match a {
        Action::Encode { input, output, format } => (input, output, format),
        other => panic!("expected an encode, got {other:?}"),
    }
}

fn report_of(a: Action) -> ConversionOutcome {
    match a {
        Action::Report(o) => o,
        other => panic!("expected a report, got {other:?}"),
    }
}

#[test]
fn driver_converts_with_output_format() {
    let mut c = converter(&["photo.jpg"], &[], None, Some("png"), false);
    assert_eq!(decode_of(c.step(Event::Proceed)), ("photo.jpg".to_string(), None));
    let (input, output, format) = encode_of(c.step(Event::Decoded(Some(ImageFormat::Jpeg))));
    assert_eq!((input.as_str(), output.as_str(), format), ("photo.jpg", "photo.png", ImageFormat::Png));
    let o = report_of(c.step(Event::Encoded));
    assert_eq!(o.line(), "photo.jpg (jpg) -> photo.png (png)");
    assert!(matches!(c.step(Event::Proceed), Action::Done));
    assert!(matches!(c.step(Event::Proceed), Action::Done));
}

#[test]
fn driver_forced_input_format_is_reported() {
    let mut c = converter(&["raw.bin"], &["out.bmp"], Some("tga"), None, false);
    assert_eq!(decode_of(c.step(Event::Proceed)), ("raw.bin".to_string(), Some(ImageFormat::Tga)));
    let (_, output, format) = encode_of(c.step(Event::Decoded(None)));
    assert_eq!((output.as_str(), format), ("out.bmp", ImageFormat::Bmp));
    let o = report_of(c.step(Event::Encoded));
    assert_eq!(o.input_format, Some(ImageFormat::Tga));
    assert_eq!(o.line(), "raw.bin (tga) -> out.bmp (bmp)");
}

#[test]
fn driver_unknown_input_format_line() {
    let mut c = converter(&["a"], &["b.gif"], None, None, false);
    decode_of(c.step(Event::Proceed));
    encode_of(c.step(Event::Decoded(None)));
    assert_eq!(report_of(c.step(Event::Encoded)).line(), "a -> b.gif (gif)");
}

#[test]
fn driver_batch_names_under_directory() {
    let mut c = converter(&["dir/photo.jpg", "dir/x.png"], &["out"], None, Some("webp"), true);
    decode_of(c.step(Event::Proceed));
    let (_, output, _) = encode_of(c.step(Event::Decoded(Some(ImageFormat::Jpeg))));
    assert_eq!(output, "out/photo.webp");
    report_of(c.step(Event::Encoded));
    decode_of(c.step(Event::Proceed));
    let (_, output, _) = encode_of(c.step(Event::Decoded(Some(ImageFormat::Png))));
    assert_eq!(output, "out/x.webp");
}

#[test]
fn driver_batch_without_format_fails_before_reading() {
    let mut c = converter(&["missing.png", "b.png"], &["out.png"], None, None, true);
    assert!(matches!(c.step(Event::Proceed), Action::Fail(ImcoError::InvalidBatching)));
    assert!(matches!(c.step(Event::Proceed), Action::Done));
}

#[test]
fn driver_without_destination_fails_before_reading() {
    let mut c = converter(&["a.png"], &[], None, None, false);
    assert!(matches!(c.step(Event::Proceed), Action::Fail(ImcoError::NoDestFormat)));
    assert!(matches!(c.step(Event::Proceed), Action::Done));
}

#[test]
fn driver_stops_at_first_failure() {
    let mut c = converter(&["good.png", "bad.png", "good2.png"], &[], None, Some("jpg"), false);
    let mut lines = Vec::new();
    assert_eq!(decode_of(c.step(Event::Proceed)).0, "good.png");
    encode_of(c.step(Event::Decoded(Some(ImageFormat::Png))));
    lines.push(report_of(c.step(Event::Encoded)).line());
    assert_eq!(decode_of(c.step(Event::Proceed)).0, "bad.png");
    let failure = ImcoError::FailedFileRead("Not found".to_string(), "bad.png".to_string());
    match c.step(Event::Failed(failure)) {
        Action::Fail(e) => assert_eq!(e.message(), "Failed reading 'bad.png' => Not found"),
        other => panic!("unexpected {other:?}"),
    }
    for _ in 0..3 {
        assert!(matches!(c.step(Event::Proceed), Action::Done));
    }
    assert_eq!(lines, vec!["good.png (png) -> good.jpg (jpg)".to_string()]);
}

#[test]
fn driver_encode_failure_stops() {
    let mut c = converter(&["a.png", "b.png"], &[], None, Some("bmp"), false);
    decode_of(c.step(Event::Proceed));
    encode_of(c.step(Event::Decoded(None)));
    let e = ImcoError::Encoding("a.png".to_string(), "no".to_string());
    assert!(matches!(c.step(Event::Failed(e)), Action::Fail(ImcoError::Encoding(_, _))));
    assert!(matches!(c.step(Event::Proceed), Action::Done));
}

#[test]
fn driver_unexpected_event_stops() {
    let mut c = converter(&["a.png"], &[], None, Some("bmp"), false);
    assert!(matches!(c.step(Event::Encoded), Action::Done));
    assert!(matches!(c.step(Event::Proceed), Action::Done));
}

#[test]
fn driver_rejects_unknown_formats_in_order() {
    let r = Converter::new(&strings(&["a"]), &strings(&["b"]), &Some("zzz".to_string()), &Some("yyy".to_string()), false);
    match r {
        Err(ImcoError::InvalidFormat(t)) => assert_eq!(t, "zzz"),
        _ => panic!("expected an invalid input format"),
    }
    let r = Converter::new(&strings(&["a"]), &strings(&["b"]), &Some("png".to_string()), &Some("yyy".to_string()), false);
    match r {
        Err(ImcoError::InvalidFormat(t)) => assert_eq!(t, "yyy"),
        _ => panic!("expected an invalid output format"),
    }
}

#[test]
fn driver_from_options_expands_in_batch() {
    let opts = Options {
        inputs: strings(&["src/pairing.rs"]),
        outputs: strings(&["out"]),
        input_format: None,
        output_format: Some("png".to_string()),
        batch: true,
    };
    let mut c = Converter::from_options(&opts).unwrap();
    assert_eq!(decode_of(c.step(Event::Proceed)).0, "src/pairing.rs");
    let (_, output, _) = encode_of(c.step(Event::Decoded(None)));
    assert_eq!(output, "out/pairing.png");
}

#[test]
fn driver_from_options_batch_pattern_error() {
    let opts = Options {
        inputs: strings(&["a["]),
        outputs: strings(&["out"]),
        input_format: None,
        output_format: Some("zzz".to_string()),
        batch: true,
    };
    assert!(matches!(Converter::from_options(&opts), Err(ImcoError::BatchPattern(_, _))));
}
