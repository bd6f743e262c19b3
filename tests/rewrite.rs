use std::io::Cursor;

use align4::{after_decode, after_write, can_rewrite, receive, Action, ActionLog, Outcome, Picture};
use image::{DynamicImage, ImageFormat, ImageOutputFormat};

fn encoded(width: u32, height: u32, format: ImageOutputFormat) -> Vec<u8> {
    let mut out = Cursor::new(Vec::new());
    DynamicImage::new_rgb8(width, height).write_to(&mut out, format).unwrap();
    out.into_inner()
}

fn decoded(bytes: &[u8]) -> Result<Picture, String> {
    match image::load_from_memory(bytes) {
        Ok(img) => Ok(Picture::new(img)),
        Err(e) => Err(e.to_string()),
    }
}

fn written_png(action: Action, expected_path: &str) -> DynamicImage {
    match action {
        Action::Write { path, png } => {
            assert_eq!(path, expected_path);
            assert_eq!(image::guess_format(&png).unwrap(), ImageFormat::Png);
            image::load_from_memory(&png).unwrap()
        }
        other => panic!("expected a write, got {:?}", other),
    }
}

#[test]
fn picture_reports_its_dimensions() {
    let p = Picture::new(DynamicImage::new_rgba8(801, 600));
    assert_eq!((p.width(), p.height()), (801, 600));
}

#[test]
fn resample_gives_exact_dimensions() {
    let p = Picture::new(DynamicImage::new_rgb8(801, 600));
    let r = p.resample(800, 604);
    assert_eq!((r.width(), r.height()), (800, 604));
}

#[test]
fn encode_png_writes_header_with_dimensions() {
    let p = Picture::new(DynamicImage::new_rgb8(12, 9));
    let png = p.encode_png().unwrap();
    assert_eq!(&png[0..8], &[137u8, 80, 78, 71, 13, 10, 26, 10]);
    assert_eq!(&png[12..16], b"IHDR");
    assert_eq!(&png[16..24], &[0u8, 0, 0, 12, 0, 0, 0, 9]);
    let back = image::load_from_memory(&png).unwrap();
    assert_eq!((back.width(), back.height()), (12, 9));
}

#[test]
fn encode_png_failure_is_a_message() {
    let p = Picture::new(DynamicImage::ImageRgb32F(image::Rgb32FImage::new(5, 5)));
    assert!(p.float_samples());
    assert!(!p.encode_png().unwrap_err().is_empty());
}

#[test]
fn integer_samples_are_not_float() {
    assert!(!Picture::new(DynamicImage::new_rgb8(5, 5)).float_samples());
    assert!(!Picture::new(DynamicImage::new_luma16(5, 5)).float_samples());
    assert!(Picture::new(DynamicImage::new_rgba32f(5, 5)).float_samples());
}

#[test]
fn resample_keeps_sample_type() {
    let p = Picture::new(DynamicImage::new_rgba32f(6, 7));
    assert!(p.resample(4, 4).float_samples());
    let q = Picture::new(DynamicImage::new_rgba16(6, 7));
    let r = q.resample(4, 4);
    assert!(!r.float_samples());
    assert!(r.encode_png().is_ok());
}

#[test]
fn rewritten_file_is_aligned_when_dropped_again() {
    let bytes = encoded(801, 599, ImageOutputFormat::Png);
    let path = "/pics/again.png";
    let png = match after_decode(path.to_string(), decoded(&bytes)) {
        Action::Write { png, .. } => png,
        other => panic!("expected a write, got {:?}", other),
    };
    match after_decode(path.to_string(), decoded(&png)) {
        Action::Report(o) => assert_eq!(o, Outcome::AlreadyAligned { path: path.to_string() }),
        other => panic!("expected no write, got {:?}", other),
    }
}

#[test]
fn missing_path_is_reported() {
    let r = receive(None, "None".to_string());
    match r {
        Action::Report(o) => {
            assert_eq!(o, Outcome::PathUnreadable { repr: "None".to_string() });
            assert_eq!(o.text(), "Could not parse path: None");
        }
        other => panic!("expected a report, got {:?}", other),
    }
}

#[test]
fn usable_path_is_decoded_next() {
    match receive(Some("/tmp/a.png".to_string()), "\"/tmp/a.png\"".to_string()) {
        Action::Decode { path } => assert_eq!(path, "/tmp/a.png"),
        other => panic!("expected a decode, got {:?}", other),
    }
}

#[test]
fn aligned_jpeg_is_left_alone() {
    let bytes = encoded(800, 600, ImageOutputFormat::Jpeg(80));
    let path = "/pics/photo.jpg";
    match after_decode(path.to_string(), decoded(&bytes)) {
        Action::Report(o) => {
            assert_eq!(o, Outcome::AlreadyAligned { path: path.to_string() });
            assert_eq!(o.text(), "/pics/photo.jpg: no resizing needed (already multiple of 4)");
        }
        other => panic!("expected no write, got {:?}", other),
    }
}

#[test]
fn unaligned_png_is_resized() {
    let bytes = encoded(801, 600, ImageOutputFormat::Png);
    let path = "/pics/shot.png";
    let out = written_png(after_decode(path.to_string(), decoded(&bytes)), path);
    assert_eq!((out.width(), out.height()), (800, 600));
    let done = after_write(path.to_string(), Ok(()));
    assert!(done.text().ends_with("resized successfully"));
    assert_eq!(done.text(), "/pics/shot.png: resized successfully");
}

#[test]
fn tiny_bmp_grows_to_four() {
    let bytes = encoded(3, 3, ImageOutputFormat::Bmp);
    let path = "/pics/dot.bmp";
    let out = written_png(after_decode(path.to_string(), decoded(&bytes)), path);
    assert_eq!((out.width(), out.height()), (4, 4));
    let done = after_write(path.to_string(), Ok(()));
    assert!(done.text().ends_with("resized successfully"));
}

#[test]
fn tiff_becomes_png_at_same_path() {
    let bytes = encoded(1023, 769, ImageOutputFormat::Tiff);
    let path = "/pics/scan.tiff";
    let out = written_png(after_decode(path.to_string(), decoded(&bytes)), path);
    assert_eq!((out.width(), out.height()), (1020, 768));
}

#[test]
fn text_file_fails_to_decode() {
    let path = "/notes/readme.txt";
    let result = decoded(b"just some plain text\n");
    let message = result.as_ref().err().unwrap().clone();
    match after_decode(path.to_string(), result) {
        Action::Report(o) => {
            let text = o.text();
            assert!(text.starts_with("/notes/readme.txt: processing failed - "));
            assert_eq!(text, format!("/notes/readme.txt: processing failed - {}", message));
            assert!(!message.is_empty());
        }
        other => panic!("expected a report, got {:?}", other),
    }
}

#[test]
fn unwritable_path_reports_save_failure() {
    let bytes = encoded(101, 101, ImageOutputFormat::Png);
    let path = "/readonly/pic.png";
    let out = written_png(after_decode(path.to_string(), decoded(&bytes)), path);
    assert_eq!((out.width(), out.height()), (100, 100));
    let done = after_write(path.to_string(), Err("Permission denied (os error 13)".to_string()));
    assert_eq!(
        done.text(),
        "/readonly/pic.png: failed to save resized image - Permission denied (os error 13)"
    );
}

#[test]
fn encoder_failure_reports_save_failure() {
    let p = Picture::new(DynamicImage::ImageRgb32F(image::Rgb32FImage::new(5, 5)));
    match after_decode("/pics/hdr.exr".to_string(), Ok(p)) {
        Action::Report(o) => {
            assert!(o.text().starts_with("/pics/hdr.exr: failed to save resized image - "));
        }
        other => panic!("expected a report, got {:?}", other),
    }
}

#[test]
fn log_grows_by_each_frame() {
    let mut log = ActionLog::new();
    assert_eq!(log.len(), 0);
    log.record_frame(&vec![
        Outcome::Resized { path: "a.png".to_string() },
        Outcome::AlreadyAligned { path: "b.png".to_string() },
        Outcome::PathUnreadable { repr: "None".to_string() },
    ]);
    assert_eq!(log.len(), 3);
    log.record_frame(&vec![]);
    assert_eq!(log.len(), 3);
    log.record_frame(&vec![
        Outcome::DecodeFailed { path: "c.txt".to_string(), message: "bad".to_string() },
        Outcome::SaveFailed { path: "d.png".to_string(), message: "denied".to_string() },
    ]);
    assert_eq!(log.len(), 5);
    assert_eq!(log.entry(0), "a.png: resized successfully");
    assert_eq!(log.entry(1), "b.png: no resizing needed (already multiple of 4)");
    assert_eq!(log.entry(2), "Could not parse path: None");
    assert_eq!(log.entry(3), "c.txt: processing failed - bad");
    assert_eq!(log.entry(4), "d.png: failed to save resized image - denied");
}

#[test]
fn record_appends_one_line() {
    let mut log = ActionLog::new();
    log.record(&Outcome::Resized { path: "x.gif".to_string() });
    assert_eq!(log.len(), 1);
    assert_eq!(log.entry(0), "x.gif: resized successfully");
}

#[test]
fn ordinary_pictures_can_be_rewritten() {
    assert!(can_rewrite(&Picture::new(DynamicImage::new_rgb8(801, 600))));
    assert!(can_rewrite(&Picture::new(DynamicImage::new_rgb8(800, 600))));
    assert!(can_rewrite(&Picture::new(DynamicImage::new_rgb8(3, 3))));
}

#[test]
fn empty_pictures_cannot_be_resampled() {
    let p = Picture::new(DynamicImage::new_rgb8(0, 5));
    assert!(!p.fits_resample(4, 4));
    assert!(!can_rewrite(&p));
}

#[test]
fn oversized_targets_do_not_fit() {
    let p = Picture::new(DynamicImage::new_rgb8(5, 5));
    assert!(p.fits_resample(4, 4));
    assert!(!p.fits_resample(u32::MAX, u32::MAX));
}
