use std::sync::{Arc, Mutex};

use startrails::image::{Image, ImageType, LoadError};
use startrails::raw::Decoded;
use startrails::stacking::Weight;

const NAKED_WIDTH: usize = 2346;
const NAKED_HEIGHT: usize = 1737;
const NAKED_STRIDE: usize = 3520;

fn tiff_header() -> Vec<u8> {
    vec![0x49, 0x49, 0x2a, 0, 8, 0, 0, 0, 0, 0, 0, 0, 0, 0]
}

fn attributes() -> Arc<Mutex<exif::Exif>> {
    Arc::new(Mutex::new(exif::Reader::new().read_raw(tiff_header()).unwrap()))
}

fn naked_file() -> Vec<u8> {
    let mut bytes = vec![0u8; NAKED_STRIDE * NAKED_HEIGHT];
    bytes[..14].copy_from_slice(&tiff_header());
    bytes[NAKED_STRIDE] = 0xab;
    bytes[NAKED_STRIDE + 1] = 0xcd;
    bytes[NAKED_STRIDE + 2] = 0xef;
    let last = NAKED_STRIDE * (NAKED_HEIGHT - 1) + (NAKED_WIDTH / 2 - 1) * 3;
    bytes[last] = 0x12;
    bytes[last + 1] = 0x34;
    bytes[last + 2] = 0x56;
    bytes
}

#[test]
fn bytes_without_attributes_are_refused_first() {
    let res = Image::load_from_raw(b"neither a picture nor anything else", Weight::one());
    assert_eq!(res.err(), Some(LoadError::Metadata));
    let res = Image::load_from_raw(&[], Weight::one());
    assert_eq!(res.err(), Some(LoadError::Metadata));
}

#[test]
fn attributes_without_a_raster_are_a_decode_error() {
    let res = Image::load_from_raw(&tiff_header(), Weight::one());
    assert_eq!(res.err(), Some(LoadError::Decode));
}

#[test]
fn a_sensor_dump_is_decoded() {
    let bytes = naked_file();
    let weight = Weight { num: 1, den: 2 };
    let img = Image::load_from_raw(&bytes, weight).unwrap();
    assert_eq!(img.width, NAKED_WIDTH);
    assert_eq!(img.height, NAKED_HEIGHT);
    assert_eq!(img.raw_image_data.len(), NAKED_WIDTH * NAKED_HEIGHT);
    assert_eq!(img.intensity, weight);
    assert_eq!(img.image_type, ImageType::Light);
    assert!(img.is_valid());
    assert_eq!(img.raw_image_data[0], 0x494);
    assert_eq!(img.raw_image_data[1], 0x92a);
    assert_eq!(img.raw_image_data[2], 0x000);
    assert_eq!(img.raw_image_data[3], 0x800);
    assert_eq!(img.raw_image_data[NAKED_WIDTH], 0xabc);
    assert_eq!(img.raw_image_data[NAKED_WIDTH + 1], 0xdef);
    assert_eq!(img.raw_image_data[NAKED_WIDTH + 2], 0);
    assert_eq!(img.raw_image_data[NAKED_WIDTH * NAKED_HEIGHT - 2], 0x123);
    assert_eq!(img.raw_image_data[NAKED_WIDTH * NAKED_HEIGHT - 1], 0x456);
    let applied = img.apply_intensity();
    assert_eq!(applied.raw_image_data[NAKED_WIDTH], 0x55e);
    assert_eq!(applied.raw_image_data[NAKED_WIDTH + 1], 0x6f8);
}

#[test]
fn decoding_is_the_same_every_time() {
    let bytes = naked_file();
    let first = Image::load_from_raw(&bytes, Weight::one()).unwrap();
    let second = Image::load_from_raw(&bytes, Weight::one()).unwrap();
    assert_eq!(first.raw_image_data, second.raw_image_data);
    assert_eq!(first.width, second.width);
    assert_eq!(first.height, second.height);
}

#[test]
fn integer_samples_that_fill_the_raster_give_a_frame() {
    let decoded = Decoded { samples: Some(vec![1, 2, 3, 4, 5, 6]), width: 3, height: 2 };
    let handle = attributes();
    let weight = Weight { num: 2, den: 3 };
    let img = Image::from_decoded(decoded, Arc::clone(&handle), weight).unwrap();
    assert_eq!(img.raw_image_data, vec![1, 2, 3, 4, 5, 6]);
    assert_eq!(img.width, 3);
    assert_eq!(img.height, 2);
    assert_eq!(img.intensity, weight);
    assert_eq!(img.image_type, ImageType::Light);
    assert!(Arc::ptr_eq(&img.exif, &handle));
}

#[test]
fn floating_point_samples_are_refused() {
    let decoded = Decoded { samples: None, width: 3, height: 2 };
    let res = Image::from_decoded(decoded, attributes(), Weight::one());
    assert_eq!(res.err(), Some(LoadError::NonIntegerSamples));
    let decoded = Decoded { samples: None, width: 0, height: 0 };
    let res = Image::from_decoded(decoded, attributes(), Weight::one());
    assert_eq!(res.err(), Some(LoadError::NonIntegerSamples));
}

#[test]
fn an_empty_raster_is_refused() {
    let decoded = Decoded { samples: Some(vec![]), width: 0, height: 2 };
    let res = Image::from_decoded(decoded, attributes(), Weight::one());
    assert_eq!(res.err(), Some(LoadError::EmptyRaster));
    let decoded = Decoded { samples: Some(vec![1, 2]), width: 2, height: 0 };
    let res = Image::from_decoded(decoded, attributes(), Weight::one());
    assert_eq!(res.err(), Some(LoadError::EmptyRaster));
}

#[test]
fn a_raster_of_the_wrong_length_is_refused() {
    let decoded = Decoded { samples: Some(vec![1, 2, 3, 4, 5]), width: 3, height: 2 };
    let res = Image::from_decoded(decoded, attributes(), Weight::one());
    assert_eq!(res.err(), Some(LoadError::SizeMismatch));
    let decoded = Decoded { samples: Some(vec![1; 18]), width: 3, height: 2 };
    let res = Image::from_decoded(decoded, attributes(), Weight::one());
    assert_eq!(res.err(), Some(LoadError::SizeMismatch));
    let decoded = Decoded { samples: Some(vec![1, 2]), width: usize::MAX, height: 2 };
    let res = Image::from_decoded(decoded, attributes(), Weight::one());
    assert_eq!(res.err(), Some(LoadError::SizeMismatch));
}
