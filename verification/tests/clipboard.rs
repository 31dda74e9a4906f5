use parallels_clipboard_fix::clipboard::choose_dib_format;
use parallels_clipboard_fix::clipboard::normalize_clipboard_image;
use parallels_clipboard_fix::clipboard::read_image;
use parallels_clipboard_fix::clipboard::should_read_png;
use parallels_clipboard_fix::clipboard::validate_dib;
use parallels_clipboard_fix::clipboard::validate_png;
use parallels_clipboard_fix::clipboard::within_self_trigger_window;
use parallels_clipboard_fix::clipboard::ClipboardError;
use parallels_clipboard_fix::clipboard::ClipboardImage;
use parallels_clipboard_fix::clipboard::ClipboardService;
use parallels_clipboard_fix::clipboard::DibFormat;
use parallels_clipboard_fix::clipboard::FixOutcome;
use parallels_clipboard_fix::clipboard::NormalizePlan;
use parallels_clipboard_fix::config::AppConfig;

fn dib_with_header(header_size: u32, len: usize) -> Vec<u8> {
    let mut bytes = vec![0_u8; len];
    bytes[0..4].copy_from_slice(&header_size.to_le_bytes());
    bytes
}

fn png_bytes() -> Vec<u8> {
    b"\x89PNG\r\n\x1a\nrest".to_vec()
}

#[test]
fn accepts_bitmap_info_header_dib() {
    let mut bytes = vec![0_u8; 40];
    bytes[0..4].copy_from_slice(&40_u32.to_le_bytes());

    assert!(validate_dib(&bytes).is_ok());
}

#[test]
fn rejects_short_dib() {
    let error = validate_dib(&[0_u8; 4]).err();

    assert!(matches!(
        error,
        Some(ClipboardError::InvalidImageData("DIB header is too short"))
    ));
}

#[test]
fn accepts_png_signature() {
    assert!(validate_png(b"\x89PNG\r\n\x1a\nextra").is_ok());
}

#[test]
fn rejects_dib_header_size_out_of_range() {
    assert!(matches!(
        validate_dib(&dib_with_header(39, 64)),
        Err(ClipboardError::InvalidImageData("DIB header size is invalid"))
    ));
    assert!(matches!(
        validate_dib(&dib_with_header(65, 64)),
        Err(ClipboardError::InvalidImageData("DIB header size is invalid"))
    ));
}

#[test]
fn accepts_v5_header_and_rejects_larger() {
    assert!(validate_dib(&dib_with_header(124, 200)).is_ok());
    assert!(matches!(
        validate_dib(&dib_with_header(125, 200)),
        Err(ClipboardError::InvalidImageData("unsupported DIB header size"))
    ));
}

#[test]
fn reads_header_size_little_endian() {
    // 0x0100_0028 would be huge if read big-endian byte by byte.
    let mut bytes = vec![0_u8; 64];
    bytes[0] = 40;
    bytes[3] = 1;
    assert!(matches!(
        validate_dib(&bytes),
        Err(ClipboardError::InvalidImageData("DIB header size is invalid"))
    ));
}

#[test]
fn rejects_data_without_png_signature() {
    assert!(matches!(
        validate_png(b"\x89PNG\r\n"),
        Err(ClipboardError::InvalidImageData("PNG signature is missing"))
    ));
    assert!(matches!(
        validate_png(b"GIF89a..."),
        Err(ClipboardError::InvalidImageData("PNG signature is missing"))
    ));
}

#[test]
fn image_needs_some_format() {
    assert!(matches!(
        ClipboardImage::new(None, None),
        Err(ClipboardError::InvalidImageData("no image formats present"))
    ));
}

#[test]
fn image_checks_dib_before_png() {
    assert!(matches!(
        ClipboardImage::new(Some(vec![0_u8; 4]), Some(b"nope".to_vec())),
        Err(ClipboardError::InvalidImageData("DIB header is too short"))
    ));
    assert!(matches!(
        ClipboardImage::new(Some(dib_with_header(40, 40)), Some(b"nope".to_vec())),
        Err(ClipboardError::InvalidImageData("PNG signature is missing"))
    ));
}

#[test]
fn image_keeps_its_data() {
    let image = ClipboardImage::new(Some(dib_with_header(40, 48)), Some(png_bytes())).unwrap();
    assert_eq!(image.dib(), Some(&dib_with_header(40, 48)));
    assert_eq!(image.png(), Some(&png_bytes()));
}

#[test]
fn reading_nothing_gives_no_image() {
    assert!(matches!(read_image(None, None), Ok(None)));
    assert!(matches!(read_image(None, Some(png_bytes())), Ok(Some(_))));
    assert!(matches!(
        read_image(Some(vec![1, 2]), None),
        Err(ClipboardError::InvalidImageData("DIB header is too short"))
    ));
}

#[test]
fn prefers_dib_v5() {
    assert_eq!(choose_dib_format(true, true), Some(DibFormat::DibV5));
    assert_eq!(choose_dib_format(false, true), Some(DibFormat::Dib));
    assert_eq!(choose_dib_format(false, false), None);
    assert_eq!(DibFormat::DibV5.code(), 17);
    assert_eq!(DibFormat::Dib.code(), 8);
    assert_eq!(DibFormat::DibV5.name(), "CF_DIBV5");
    assert!(should_read_png(49_000, true));
    assert!(!should_read_png(0, true));
    assert!(!should_read_png(49_000, false));
}

#[test]
fn plans_writes_from_settings_and_image() {
    let config = AppConfig::default();
    let both = Some(ClipboardImage::new(Some(dib_with_header(40, 40)), Some(png_bytes())).unwrap());
    let plan = normalize_clipboard_image(&config, &both);
    assert_eq!(
        plan,
        NormalizePlan { clear_clipboard: true, write_dib: true, write_png: true }
    );
    assert_eq!(plan.outcome(), FixOutcome::Fixed { wrote_dib: true, wrote_png: true });

    let png_only = Some(ClipboardImage::new(None, Some(png_bytes())).unwrap());
    let no_png = AppConfig { write_png: false, ..AppConfig::default() };
    let plan = normalize_clipboard_image(&no_png, &png_only);
    assert_eq!(
        plan,
        NormalizePlan { clear_clipboard: true, write_dib: false, write_png: false }
    );
    assert_eq!(plan.outcome(), FixOutcome::NoReadableImage);

    let plan = normalize_clipboard_image(&config, &None);
    assert_eq!(
        plan,
        NormalizePlan { clear_clipboard: false, write_dib: false, write_png: false }
    );
    assert_eq!(plan.outcome(), FixOutcome::NoReadableImage);
}

#[test]
fn disabled_settings_skip_the_repair() {
    let mut service = ClipboardService::new();
    let config = AppConfig { enabled: false, ..AppConfig::default() };
    let mut called = false;
    let outcome = service.fix_now(&config, |_| {
        called = true;
        Ok(FixOutcome::NoReadableImage)
    });
    let disabled_again = service.fix_with_elapsed(
        &config,
        None,
        |_| -> Result<FixOutcome, ClipboardError> { panic!("no repair when disabled") },
        std::time::Instant::now,
    );
    assert!(matches!(disabled_again, Ok(FixOutcome::Disabled)));
    assert!(matches!(outcome, Ok(FixOutcome::Disabled)));
    assert!(!called);
}

#[test]
fn repair_right_after_a_fix_is_skipped() {
    let mut service = ClipboardService::default();
    let config = AppConfig::default();
    let first = service.fix_now(&config, |_| Ok(FixOutcome::Fixed { wrote_dib: true, wrote_png: false }));
    assert!(matches!(first, Ok(FixOutcome::Fixed { wrote_dib: true, wrote_png: false })));
    let second = service.fix_now(&config, |_| Ok(FixOutcome::NoReadableImage));
    assert!(matches!(second, Ok(FixOutcome::SkippedSelfTrigger)));
}

#[test]
fn repair_errors_are_passed_on() {
    let mut service = ClipboardService::new();
    let config = AppConfig::default();
    let outcome = service.fix_now(&config, |_| Err(ClipboardError::OpenClipboardFailed));
    assert!(matches!(outcome, Err(ClipboardError::OpenClipboardFailed)));
    // Nothing was fixed, so the next repair is not skipped.
    let next = service.fix_now(&config, |_| Ok(FixOutcome::NoReadableImage));
    assert!(matches!(next, Ok(FixOutcome::NoReadableImage)));
}

#[test]
fn self_trigger_window_is_strict() {
    assert!(within_self_trigger_window(299, 300));
    assert!(!within_self_trigger_window(300, 300));
}

#[test]
fn clipboard_error_messages() {
    assert_eq!(ClipboardError::ReadFormatFailed("PNG").message(), "failed to read PNG");
    assert_eq!(ClipboardError::WriteFormatFailed("CF_DIB").message(), "failed to write CF_DIB");
    assert_eq!(
        ClipboardError::InvalidImageData("x").message(),
        "invalid image data: x"
    );
    assert_eq!(
        ClipboardError::UnsupportedPlatform.message(),
        "clipboard fixing is Windows-only"
    );
}

#[test]
fn skip_follows_the_elapsed_time() {
    let mut service = ClipboardService::new();
    let config = AppConfig::default();
    assert!(!service.is_probable_self_trigger(None));
    assert!(service.is_probable_self_trigger(Some(299)));
    assert!(!service.is_probable_self_trigger(Some(300)));
    let fixed = service.fix_with_elapsed(
        &config,
        None,
        |_| Ok(FixOutcome::Fixed { wrote_dib: false, wrote_png: true }),
        std::time::Instant::now,
    );
    assert!(matches!(fixed, Ok(FixOutcome::Fixed { wrote_dib: false, wrote_png: true })));
    let skipped = service.fix_with_elapsed(
        &config,
        Some(10),
        |_| -> Result<FixOutcome, ClipboardError> { panic!("no repair inside the window") },
        std::time::Instant::now,
    );
    assert!(matches!(skipped, Ok(FixOutcome::SkippedSelfTrigger)));
    let repaired = service.fix_with_elapsed(
        &config,
        Some(301),
        |_| Ok(FixOutcome::NoReadableImage),
        std::time::Instant::now,
    );
    assert!(matches!(repaired, Ok(FixOutcome::NoReadableImage)));
}
