use burn::backend::ndarray::NdArrayDevice;
use dcgan::data_loader::bake_image_dataset;
use dcgan::data_loader::byte_levels;
use dcgan::data_loader::has_jpg_extension;
use dcgan::data_loader::ingest_outcome;
use dcgan::data_loader::record_from_rgba;
use dcgan::data_loader::ContentStore;
use dcgan::data_loader::ImageBatcher;
use dcgan::data_loader::ImageRecord;
use dcgan::data_loader::IngestionError;
use dcgan::data_loader::SourceFile;
use dcgan::data_loader::StoreError;
use dcgan::data_loader::BYTE_RANGE;
use dcgan::data_loader::LEVEL_DENOMINATOR;
use dcgan::data_loader::RECORD_LEN;
use dcgan::models::ShapeMismatchError;
use image::codecs::jpeg::JpegEncoder;
use image::Rgb;
use image::RgbImage;

fn jpeg(width: u32, height: u32, color: [u8; 3]) -> Vec<u8> {
    let img = RgbImage::from_pixel(width, height, Rgb(color));
    let mut out = Vec::new();
    JpegEncoder::new_with_quality(&mut out, 95).encode_image(&img).unwrap();
    out
}

fn file(name: &str, contents: Vec<u8>) -> SourceFile {
    SourceFile { name: name.as_bytes().to_vec(), contents }
}

fn record_filled(value: u8) -> ImageRecord {
    ImageRecord::new(vec![value; RECORD_LEN]).unwrap()
}

#[test]
fn record_has_fixed_length() {
    assert_eq!(RECORD_LEN, 64 * 64 * 3);
    assert!(ImageRecord::new(vec![0; RECORD_LEN - 1]).is_none());
    assert!(ImageRecord::new(vec![0; RECORD_LEN + 1]).is_none());
    assert!(ImageRecord::new(Vec::new()).is_none());
    let bytes: Vec<u8> = (0..RECORD_LEN).map(|k| (k % 251) as u8).collect();
    let record = ImageRecord::new(bytes.clone()).unwrap();
    assert_eq!(record.bytes(), &bytes);
}

#[test]
fn record_from_rgba_drops_alpha_row_by_row() {
    let mut rgba = Vec::new();
    for y in 0..64u32 {
        for x in 0..64u32 {
            rgba.extend_from_slice(&[x as u8, y as u8, (x + y) as u8, 255]);
        }
    }
    let record = record_from_rgba(64, 64, &rgba).unwrap();
    let bytes = record.bytes();
    assert_eq!(bytes.len(), RECORD_LEN);
    for y in 0..64usize {
        for x in 0..64usize {
            let at = (y * 64 + x) * 3;
            assert_eq!(bytes[at], x as u8);
            assert_eq!(bytes[at + 1], y as u8);
            assert_eq!(bytes[at + 2], (x + y) as u8);
        }
    }
}

#[test]
fn record_from_rgba_pads_small_and_crops_large() {
    let small = vec![9u8; 2 * 3 * 4];
    let record = record_from_rgba(2, 3, &small).unwrap();
    let bytes = record.bytes();
    for y in 0..64usize {
        for x in 0..64usize {
            let want = if x < 2 && y < 3 { 9 } else { 0 };
            for c in 0..3 {
                assert_eq!(bytes[(y * 64 + x) * 3 + c], want);
            }
        }
    }
    let mut large = Vec::new();
    for y in 0..65u32 {
        for x in 0..70u32 {
            large.extend_from_slice(&[x as u8, y as u8, 7, 0]);
        }
    }
    let record = record_from_rgba(70, 65, &large).unwrap();
    let bytes = record.bytes();
    assert_eq!(bytes[(63 * 64 + 63) * 3], 63);
    assert_eq!(bytes[(63 * 64 + 63) * 3 + 1], 63);
    assert_eq!(bytes[(1 * 64 + 0) * 3], 0);
    assert_eq!(bytes[(1 * 64 + 0) * 3 + 1], 1);
}

#[test]
fn record_from_rgba_rejects_wrong_length() {
    assert!(record_from_rgba(64, 64, &vec![0u8; 64 * 64 * 4 - 1]).is_none());
    assert!(record_from_rgba(64, 64, &vec![0u8; 64 * 64 * 3]).is_none());
    assert!(record_from_rgba(usize::MAX, 2, &[]).is_none());
    assert!(record_from_rgba(0, 0, &[]).is_some());
}

#[test]
fn jpg_extension_rule() {
    assert!(has_jpg_extension(b"000001.jpg"));
    assert!(has_jpg_extension(b"a.jpg"));
    assert!(has_jpg_extension(b"archive.tar.jpg"));
    assert!(!has_jpg_extension(b".jpg"));
    assert!(!has_jpg_extension(b"jpg"));
    assert!(!has_jpg_extension(b"a.JPG"));
    assert!(!has_jpg_extension(b"a.jpeg"));
    assert!(!has_jpg_extension(b"a.png"));
    assert!(!has_jpg_extension(b"a.jpg.txt"));
    assert!(!has_jpg_extension(b""));
}

#[test]
fn store_starts_empty_and_refuses_training() {
    let store = ContentStore::new();
    assert_eq!(store.len(), 0);
    assert!(!store.is_completed());
    assert_eq!(store.training_records().err(), Some(StoreError::Incomplete));
}

#[test]
fn store_is_append_only_until_completed() {
    let mut store = ContentStore::new();
    assert_eq!(store.append(record_filled(1)), Ok(()));
    assert_eq!(store.append(record_filled(2)), Ok(()));
    assert_eq!(store.len(), 2);
    assert!(store.training_records().is_err());
    store.set_completed();
    assert!(store.is_completed());
    assert_eq!(store.append(record_filled(3)), Err(StoreError::Completed));
    assert_eq!(store.len(), 2);
    let records = store.training_records().unwrap();
    assert_eq!(records.len(), 2);
    assert_eq!(records[0].bytes()[0], 1);
    assert_eq!(records[1].bytes()[RECORD_LEN - 1], 2);
}

#[test]
fn bake_writes_one_record_for_each_jpg() {
    let files = vec![
        file("a.jpg", jpeg(100, 80, [200, 100, 50])),
        file("notes.txt", b"not an image".to_vec()),
        file("b.jpg", jpeg(64, 64, [10, 20, 30])),
        file("c.png", jpeg(8, 8, [1, 2, 3])),
    ];
    let mut store = ContentStore::new();
    assert_eq!(bake_image_dataset(&files, &mut store), Ok(2));
    assert!(store.is_completed());
    assert_eq!(store.len(), 2);
    let records = store.training_records().unwrap();
    let first = records[0].bytes();
    assert_eq!(first.len(), RECORD_LEN);
    for k in 0..RECORD_LEN / 3 {
        assert!((first[3 * k] as i32 - 200).abs() <= 4);
        assert!((first[3 * k + 1] as i32 - 100).abs() <= 4);
        assert!((first[3 * k + 2] as i32 - 50).abs() <= 4);
    }
    let second = records[1].bytes();
    assert!((second[0] as i32 - 10).abs() <= 4);
    assert!((second[1] as i32 - 20).abs() <= 4);
    assert!((second[2] as i32 - 30).abs() <= 4);
}

#[test]
fn bake_resizes_without_keeping_the_aspect_ratio() {
    let mut img = RgbImage::from_pixel(128, 32, Rgb([0, 0, 0]));
    for y in 0..32 {
        for x in 64..128 {
            img.put_pixel(x, y, Rgb([255, 255, 255]));
        }
    }
    let mut encoded = Vec::new();
    JpegEncoder::new_with_quality(&mut encoded, 95).encode_image(&img).unwrap();
    let mut store = ContentStore::new();
    assert_eq!(bake_image_dataset(&vec![file("wide.jpg", encoded)], &mut store), Ok(1));
    let records = store.training_records().unwrap();
    let bytes = records[0].bytes();
    for y in [0usize, 31, 63] {
        assert!(bytes[(y * 64 + 5) * 3] < 40);
        assert!(bytes[(y * 64 + 58) * 3] > 215);
    }
}

#[test]
fn bake_of_nothing_completes_the_store() {
    let mut store = ContentStore::new();
    assert_eq!(bake_image_dataset(&Vec::new(), &mut store), Ok(0));
    assert!(store.is_completed());
    assert_eq!(store.len(), 0);
    let mut other = ContentStore::new();
    assert_eq!(bake_image_dataset(&vec![file("readme.md", vec![1, 2, 3])], &mut other), Ok(0));
    assert!(other.is_completed());
}

#[test]
fn bake_aborts_at_the_first_undecodable_image() {
    let files = vec![
        file("a.jpg", jpeg(70, 70, [5, 5, 5])),
        file("broken.jpg", b"this is no jpeg".to_vec()),
        file("c.jpg", jpeg(70, 70, [9, 9, 9])),
    ];
    let mut store = ContentStore::new();
    assert_eq!(bake_image_dataset(&files, &mut store), Err(IngestionError::UndecodableImage));
    assert!(!store.is_completed());
    assert_eq!(store.len(), 1);
    assert_eq!(store.training_records().err(), Some(StoreError::Incomplete));
}

#[test]
fn bake_aborts_on_truncated_image() {
    let mut encoded = jpeg(90, 90, [50, 60, 70]);
    encoded.truncate(20);
    let mut store = ContentStore::new();
    assert_eq!(
        bake_image_dataset(&vec![file("cut.jpg", encoded)], &mut store),
        Err(IngestionError::UndecodableImage)
    );
    assert!(!store.is_completed());
    assert_eq!(store.len(), 0);
}

#[test]
fn bake_leaves_a_completed_store_alone() {
    let mut store = ContentStore::new();
    assert_eq!(bake_image_dataset(&vec![file("a.jpg", jpeg(64, 64, [1, 1, 1]))], &mut store), Ok(1));
    assert_eq!(
        bake_image_dataset(&vec![file("b.jpg", jpeg(64, 64, [2, 2, 2]))], &mut store),
        Err(IngestionError::WriteFailed)
    );
    assert!(store.is_completed());
    assert_eq!(store.len(), 1);
}

#[test]
fn bake_appends_to_an_open_store() {
    let mut store = ContentStore::new();
    store.append(record_filled(77)).unwrap();
    assert_eq!(bake_image_dataset(&vec![file("a.jpg", jpeg(64, 64, [1, 1, 1]))], &mut store), Ok(1));
    let records = store.training_records().unwrap();
    assert_eq!(records.len(), 2);
    assert_eq!(records[0].bytes()[100], 77);
}

#[test]
fn byte_levels_are_the_bytes_in_order() {
    let mut bytes = vec![0u8; RECORD_LEN];
    bytes[1] = 255;
    bytes[2] = 128;
    bytes[RECORD_LEN - 1] = 1;
    let items = vec![ImageRecord::new(bytes).unwrap(), record_filled(127)];
    let levels = byte_levels(&items).unwrap();
    assert_eq!(levels.len(), 2 * RECORD_LEN);
    assert_eq!(levels[0], 0);
    assert_eq!(levels[1], 255);
    assert_eq!(levels[2], 128);
    assert_eq!(levels[RECORD_LEN - 1], 1);
    assert_eq!(levels[RECORD_LEN], 127);
    assert_eq!(levels[2 * RECORD_LEN - 1], 127);
    assert_eq!(BYTE_RANGE, 255);
    assert_eq!(LEVEL_DENOMINATOR, 510);
    assert_eq!(byte_levels(&Vec::new()), Some(Vec::new()));
}

#[test]
fn batch_scales_every_byte() {
    let bytes: Vec<u8> = (0..RECORD_LEN).map(|k| (k % 256) as u8).collect();
    let items = vec![ImageRecord::new(bytes.clone()).unwrap(), record_filled(255), record_filled(0)];
    let batcher = ImageBatcher::new(NdArrayDevice::Cpu);
    let batch = batcher.batch(items).unwrap();
    assert_eq!(batch.images.inner.dims(), [3, 3, 64, 64]);
    let values: Vec<f32> = batch.images.inner.into_data().value;
    assert_eq!(values.len(), 3 * RECORD_LEN);
    for k in 0..RECORD_LEN {
        let want = bytes[k] as f32 / 255.0 - 0.5;
        assert!((values[k] - want).abs() < 1e-6);
        assert_eq!(values[k].to_bits(), want.to_bits());
        assert_eq!(values[RECORD_LEN + k], 0.5);
        assert_eq!(values[2 * RECORD_LEN + k], -0.5);
    }
    assert!(values.iter().all(|v| -0.5 <= *v && *v <= 0.5));
}

#[test]
fn batch_rejects_an_empty_list_and_takes_any_other() {
    let batcher = ImageBatcher::new(NdArrayDevice::Cpu);
    assert_eq!(batcher.batch(Vec::new()).err(), Some(ShapeMismatchError::BatchSize));
    let many: Vec<ImageRecord> = (0..257).map(|k| record_filled(k as u8)).collect();
    let batch = batcher.batch(many).unwrap();
    assert_eq!(batch.images.inner.dims(), [257, 3, 64, 64]);
    let values: Vec<f32> = batch.images.inner.into_data().value;
    assert_eq!(values[256 * RECORD_LEN], 0.0 / 255.0 - 0.5);
    assert_eq!(values[255 * RECORD_LEN + 7], 255.0 / 255.0 - 0.5);
    assert_eq!(byte_levels(&(0..300).map(|_| record_filled(3)).collect()).unwrap().len(), 300 * RECORD_LEN);
}

#[test]
fn batch_of_a_concatenation_is_the_concatenation_of_the_batches() {
    let batcher = ImageBatcher::new(NdArrayDevice::Cpu);
    let first: Vec<ImageRecord> = (0..3).map(|k| record_filled(10 * k as u8)).collect();
    let second: Vec<ImageRecord> = (0..2).map(|k| record_filled(200 + k as u8)).collect();
    let both: Vec<ImageRecord> =
        (0..3).map(|k| record_filled(10 * k as u8)).chain((0..2).map(|k| record_filled(200 + k as u8))).collect();
    let mut separate: Vec<f32> = batcher.batch(first).unwrap().images.inner.into_data().value;
    let tail: Vec<f32> = batcher.batch(second).unwrap().images.inner.into_data().value;
    separate.extend(tail);
    let joint: Vec<f32> = batcher.batch(both).unwrap().images.inner.into_data().value;
    assert_eq!(joint, separate);
}

#[test]
fn ingest_outcome_appends_or_aborts() {
    let mut store = ContentStore::new();
    assert_eq!(ingest_outcome(&mut store, Some(record_filled(4))), Ok(()));
    assert_eq!(store.len(), 1);
    assert_eq!(ingest_outcome(&mut store, None), Err(IngestionError::UndecodableImage));
    assert_eq!(store.len(), 1);
    assert!(!store.is_completed());
    store.set_completed();
    assert_eq!(ingest_outcome(&mut store, Some(record_filled(5))), Err(IngestionError::WriteFailed));
    assert_eq!(ingest_outcome(&mut store, None), Err(IngestionError::UndecodableImage));
    assert_eq!(store.len(), 1);
    assert!(store.is_completed());
}

#[test]
fn record_from_serialized_checks_the_extents() {
    assert_eq!(ImageRecord::shape(), [64, 64, 3]);
    let bytes: Vec<u8> = (0..RECORD_LEN).map(|k| (k % 7) as u8).collect();
    let record = ImageRecord::from_serialized(bytes.clone(), &[64, 64, 3]).unwrap();
    assert_eq!(record.bytes(), &bytes);
    assert!(ImageRecord::from_serialized(bytes.clone(), &[3, 64, 64]).is_none());
    assert!(ImageRecord::from_serialized(bytes.clone(), &[64, 64, 3, 1]).is_none());
    assert!(ImageRecord::from_serialized(bytes.clone(), &[64, 192]).is_none());
    assert!(ImageRecord::from_serialized(bytes.clone(), &[]).is_none());
    assert!(ImageRecord::from_serialized(vec![0; 5], &[64, 64, 3]).is_none());
}
