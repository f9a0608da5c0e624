use imgconv::driver::Cli;
use imgconv::driver::CodecOutcome;
use imgconv::driver::ConversionPlan;
use imgconv::driver::conversion_report;
use imgconv::driver::plan_conversion;
use imgconv::error::ConversionError;
use imgconv::extension::Extension;

fn cli(input: &str, output: &str) -> Cli {
    Cli {
        input: input.to_string(),
        output: output.to_string(),
    }
}

#[test]
fn plan_resolves_both_filenames() {
    let plan = plan_conversion(&cli("photo.png", "photo.jpeg")).unwrap();
    assert_eq!(
        plan,
        ConversionPlan {
            input_format: Extension::Png,
            output_format: Extension::Jpeg,
        }
    );
}

#[test]
fn plan_rejects_bad_input_first() {
    match plan_conversion(&cli("photo.txt", "noext")) {
        Err(ConversionError::UnsupportedExtension(t)) => assert_eq!(t, "txt"),
        other => panic!("expected UnsupportedExtension, got {:?}", other),
    }
}

#[test]
fn plan_rejects_bad_output_before_any_decode() {
    match plan_conversion(&cli("photo.png", "photo.tiff")) {
        Err(ConversionError::UnsupportedExtension(t)) => assert_eq!(t, "tiff"),
        other => panic!("expected UnsupportedExtension, got {:?}", other),
    }
}

#[test]
fn report_success_message() {
    let plan = ConversionPlan {
        input_format: Extension::Png,
        output_format: Extension::Jpeg,
    };
    let message = conversion_report(&plan, CodecOutcome::Succeeded).unwrap();
    assert_eq!(message, "Image successfully converted from png to jpeg");
}

#[test]
fn report_wraps_decode_failure() {
    let plan = ConversionPlan {
        input_format: Extension::Png,
        output_format: Extension::Jpeg,
    };
    let outcome = CodecOutcome::DecodeFailed("no such file".to_string());
    match conversion_report(&plan, outcome) {
        Err(ConversionError::DecodeFailure(c)) => assert_eq!(c, "no such file"),
        other => panic!("expected DecodeFailure, got {:?}", other),
    }
}

#[test]
fn report_wraps_encode_failure() {
    let plan = ConversionPlan {
        input_format: Extension::Webp,
        output_format: Extension::Png,
    };
    let outcome = CodecOutcome::EncodeFailed("disk full".to_string());
    match conversion_report(&plan, outcome) {
        Err(ConversionError::EncodeFailure(c)) => assert_eq!(c, "disk full"),
        other => panic!("expected EncodeFailure, got {:?}", other),
    }
}

#[test]
fn error_messages_render_each_kind() {
    let no_ext = ConversionError::NoExtension("file".to_string());
    assert_eq!(
        no_ext.message(),
        "File format error: The file file has no extension, please specify one"
    );
    let unsupported = ConversionError::UnsupportedExtension("bmp".to_string());
    assert_eq!(
        unsupported.message(),
        "File format error: The extension bmp is not supported"
    );
    let decode = ConversionError::DecodeFailure("bad header".to_string());
    assert_eq!(decode.message(), "Image conversion error: bad header");
    let encode = ConversionError::EncodeFailure("bad target".to_string());
    assert_eq!(encode.message(), "Image conversion error: bad target");
    let io = ConversionError::IoFailure("permission denied".to_string());
    assert_eq!(io.message(), "IO error: permission denied");
}
