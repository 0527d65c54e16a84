use rust_image_processor::errors::ImageProcessorValidationError;
use rust_image_processor::validate::{check_output_path, check_quality, classify, classify_source,
    is_path, is_url, output_path_verdict, QualityLevel, SourceLocator};

#[test]
fn url_shape_is_accepted() {
    assert!(is_url(&String::from("https://www.example.com/images/cat.png")));
    assert!(is_url(&String::from("http://example.com/a?x=1")));
}

#[test]
fn non_url_shape_is_rejected() {
    assert!(!is_url(&String::from("not a url")));
    assert!(!is_url(&String::from("Cargo.toml")));
}

#[test]
fn existing_file_is_a_path() {
    assert!(is_path(&String::from("/proc/self/status")));
    assert!(!is_path(&String::from("/")));
    assert!(!is_path(&String::from("no/such/file/anywhere.xyz")));
}

#[test]
fn classify_prefers_remote_url() {
    let r = classify(String::from("https://example.com/cat.png"));
    assert!(matches!(r, Ok(SourceLocator::RemoteUrl(s)) if s == "https://example.com/cat.png"));
}

#[test]
fn classify_finds_local_file() {
    let r = classify(String::from("/proc/self/status"));
    assert!(matches!(r, Ok(SourceLocator::LocalPath(s)) if s == "/proc/self/status"));
}

#[test]
fn classify_rejects_everything_else() {
    let r = classify(String::from("no/such/file/anywhere.xyz"));
    assert_eq!(r, Err(ImageProcessorValidationError::InvalidSource));
}

#[test]
fn classify_source_branches() {
    let remote = classify_source(String::from("x"), true, true);
    assert!(matches!(remote, Ok(SourceLocator::RemoteUrl(_))));
    let local = classify_source(String::from("x"), false, true);
    assert!(matches!(local, Ok(SourceLocator::LocalPath(_))));
    let neither = classify_source(String::from("x"), false, false);
    assert_eq!(neither, Err(ImageProcessorValidationError::InvalidSource));
}

#[test]
fn absent_quality_means_no_compression() {
    assert_eq!(check_quality(None), Ok(QualityLevel { value: 100 }));
}

#[test]
fn quality_bounds_are_inclusive() {
    assert_eq!(check_quality(Some(1)), Ok(QualityLevel { value: 1 }));
    assert_eq!(check_quality(Some(100)), Ok(QualityLevel { value: 100 }));
    assert_eq!(check_quality(Some(50)), Ok(QualityLevel { value: 50 }));
}

#[test]
fn quality_zero_is_rejected() {
    assert_eq!(check_quality(Some(0)), Err(ImageProcessorValidationError::InvalidQuality));
}

#[test]
fn quality_above_hundred_is_rejected() {
    assert_eq!(check_quality(Some(101)), Err(ImageProcessorValidationError::InvalidQuality));
    assert_eq!(check_quality(Some(255)), Err(ImageProcessorValidationError::InvalidQuality));
}

#[test]
fn empty_output_path_is_missing() {
    assert_eq!(
        check_output_path(&String::from("")),
        Err(ImageProcessorValidationError::MissingOutputPath)
    );
}

#[test]
fn output_path_without_parent_dir_is_invalid() {
    assert_eq!(
        check_output_path(&String::from("definitely_missing_dir_xyz/out.png")),
        Err(ImageProcessorValidationError::InvalidOutputPath)
    );
}

#[test]
fn bare_output_filename_is_accepted() {
    assert_eq!(check_output_path(&String::from("out.png")), Ok(()));
}

#[test]
fn output_path_in_existing_dir_is_accepted() {
    assert_eq!(check_output_path(&String::from("/tmp/out.png")), Ok(()));
}

#[test]
fn output_path_verdict_branches() {
    assert_eq!(
        output_path_verdict(true, true),
        Err(ImageProcessorValidationError::MissingOutputPath)
    );
    assert_eq!(
        output_path_verdict(false, false),
        Err(ImageProcessorValidationError::InvalidOutputPath)
    );
    assert_eq!(output_path_verdict(false, true), Ok(()));
}

#[test]
fn validation_messages_name_the_failure() {
    assert_eq!(
        ImageProcessorValidationError::InvalidQuality.message(),
        "quality must be between 1 and 100"
    );
    assert_eq!(ImageProcessorValidationError::MissingOutputPath.message(), "missing output path");
}
