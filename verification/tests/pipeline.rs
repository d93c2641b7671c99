use climageproc::batch::{plan_batch, BatchResult, BatchState};
use climageproc::error::Error;
use climageproc::processor::process_image;
use climageproc::transform::Operation;
use image::{DynamicImage, ImageFormat};
use std::collections::BTreeMap;
use std::io::Cursor;

fn file_bytes(width: u32, height: u32, format: ImageFormat) -> Vec<u8> {
    let mut sink = Cursor::new(Vec::new());
    DynamicImage::new_rgb8(width, height).write_to(&mut sink, format).unwrap();
    sink.into_inner()
}

fn run(
    files: &BTreeMap<String, Vec<u8>>,
    listing: &[&str],
    op: &Operation,
) -> (BatchResult, BTreeMap<String, Vec<u8>>) {
    let names: Vec<String> = listing.iter().map(|name| name.to_string()).collect();
    let tasks = plan_batch("in", "out", &names, op);
    let mut state = BatchState::new(tasks.len());
    let mut written = BTreeMap::new();
    for task in &tasks {
        if !state.accepts_work() {
            break;
        }
        let outcome = process_image(&task.input, &files[&task.input], &task.output, op);
        let outcome = outcome.map(|bytes| {
            written.insert(task.output.clone(), bytes);
        });
        state.record(outcome);
    }
    (state.finish(), written)
}

#[test]
fn directory_of_three_images_and_a_text_file() {
    let mut files = BTreeMap::new();
    files.insert("in/a.png".to_string(), file_bytes(40, 20, ImageFormat::Png));
    files.insert("in/b.jpg".to_string(), file_bytes(30, 30, ImageFormat::Jpeg));
    files.insert("in/c.GIF".to_string(), file_bytes(10, 50, ImageFormat::Gif));
    files.insert("in/notes.txt".to_string(), b"not an image".to_vec());
    let op = Operation::Resize { width: Some(20), height: None };
    let (result, written) = run(&files, &["a.png", "b.jpg", "notes.txt", "c.GIF"], &op);
    assert_eq!(result, BatchResult { attempted: 3, failure: None });
    let outputs: Vec<&String> = written.keys().collect();
    assert_eq!(outputs, ["out/a.png", "out/b.jpg", "out/c.GIF"]);
    let sizes: Vec<(u32, u32)> = written
        .values()
        .map(|bytes| image::load_from_memory(bytes).unwrap())
        .map(|img| (img.width(), img.height()))
        .collect();
    assert_eq!(sizes, [(20, 10), (20, 20), (20, 100)]);
}

#[test]
fn directory_converted_to_webp() {
    let mut files = BTreeMap::new();
    files.insert("in/a.png".to_string(), file_bytes(4, 2, ImageFormat::Png));
    files.insert("in/b.jpeg".to_string(), file_bytes(3, 3, ImageFormat::Jpeg));
    let op = Operation::Convert { format: "webp".to_string() };
    let (result, written) = run(&files, &["a.png", "b.jpeg"], &op);
    assert_eq!(result.into_result(), Ok(()));
    let outputs: Vec<&String> = written.keys().collect();
    assert_eq!(outputs, ["out/a.webp", "out/b.webp"]);
    for bytes in written.values() {
        assert_eq!(image::guess_format(bytes).unwrap(), ImageFormat::WebP);
    }
}

#[test]
fn corrupted_first_image_ends_the_batch_with_decode() {
    let mut files = BTreeMap::new();
    files.insert("in/a.png".to_string(), b"corrupted".to_vec());
    files.insert("in/b.png".to_string(), file_bytes(8, 8, ImageFormat::Png));
    let op = Operation::Resize { width: Some(4), height: None };
    let (result, written) = run(&files, &["a.png", "b.png"], &op);
    assert_eq!(result.attempted, 1);
    assert_eq!(result.failure, Some(Error::Decode { path: "in/a.png".to_string() }));
    assert!(written.is_empty());
    assert_eq!(
        result.into_result(),
        Err(Error::Decode { path: "in/a.png".to_string() })
    );
}

#[test]
fn unsupported_target_format_writes_nothing() {
    let mut files = BTreeMap::new();
    files.insert("in/a.png".to_string(), file_bytes(10, 10, ImageFormat::Png));
    let op = Operation::Convert { format: "bmp".to_string() };
    let (result, written) = run(&files, &["a.png"], &op);
    assert_eq!(
        result.into_result(),
        Err(Error::UnsupportedFormat { name: "bmp".to_string() })
    );
    assert!(written.is_empty());
}

#[test]
fn directory_without_images_succeeds_with_nothing_done() {
    let files = BTreeMap::new();
    let op = Operation::Convert { format: "bmp".to_string() };
    let (result, written) = run(&files, &["notes.txt", "data.csv"], &op);
    assert_eq!(result, BatchResult { attempted: 0, failure: None });
    assert!(written.is_empty());
}
