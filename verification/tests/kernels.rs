use std::sync::{Arc, Mutex};

use startrails::image::{Image, ImageType};
use startrails::kernel::{additive_pixel, lighten_pixel, subtract_pixel, SAMPLE_MAX};
use startrails::stacking::Weight;

fn attributes() -> Arc<Mutex<exif::Exif>> {
    let tiff = vec![0x49, 0x49, 0x2a, 0, 8, 0, 0, 0, 0, 0, 0, 0, 0, 0];
    Arc::new(Mutex::new(exif::Reader::new().read_raw(tiff).unwrap()))
}

fn frame(samples: Vec<u16>, width: usize, height: usize) -> Image {
    Image {
        raw_image_data: samples,
        exif: attributes(),
        height,
        width,
        intensity: Weight::one(),
        image_type: ImageType::Light,
    }
}

#[test]
fn lighten_pixel_takes_the_brighter() {
    assert_eq!(lighten_pixel(10, 50), 50);
    assert_eq!(lighten_pixel(50, 10), 50);
    assert_eq!(lighten_pixel(7, 7), 7);
    assert_eq!(lighten_pixel(0, SAMPLE_MAX), SAMPLE_MAX);
}

#[test]
fn additive_pixel_saturates() {
    assert_eq!(additive_pixel(10, 50), 60);
    assert_eq!(additive_pixel(65535, 0), 65535);
    assert_eq!(additive_pixel(65535, 1), 65535);
    assert_eq!(additive_pixel(40000, 40000), 65535);
    assert_eq!(additive_pixel(32767, 32768), 65535);
    assert_eq!(additive_pixel(32767, 32767), 65534);
}

#[test]
fn subtract_pixel_stops_at_zero() {
    assert_eq!(subtract_pixel(200, 50), 150);
    assert_eq!(subtract_pixel(200, 210), 0);
    assert_eq!(subtract_pixel(0, 65535), 0);
    assert_eq!(subtract_pixel(65535, 0), 65535);
    assert_eq!(subtract_pixel(9, 9), 0);
}

#[test]
fn additive_pixel_is_commutative_and_associative_on_samples() {
    let values: [u16; 6] = [0, 1, 200, 32768, 65534, 65535];
    for &x in values.iter() {
        for &y in values.iter() {
            assert_eq!(additive_pixel(x, y), additive_pixel(y, x));
            for &z in values.iter() {
                assert_eq!(
                    additive_pixel(additive_pixel(x, y), z),
                    additive_pixel(x, additive_pixel(y, z))
                );
                assert_eq!(
                    lighten_pixel(lighten_pixel(x, y), z),
                    lighten_pixel(x, lighten_pixel(y, z))
                );
            }
        }
    }
}

#[test]
fn merge_max_is_per_pixel_maximum() {
    let a = frame(vec![10, 200, 0, 65535], 2, 2);
    let b = frame(vec![50, 100, 0, 1], 2, 2);
    let res = a.merge_max(b);
    assert_eq!(res.raw_image_data, vec![50, 200, 0, 65535]);
    assert_eq!(res.width, 2);
    assert_eq!(res.height, 2);
    assert_eq!(res.intensity, Weight::one());
    assert_eq!(res.image_type, ImageType::Light);
}

#[test]
fn merge_max_commutes_on_rasters() {
    let a = vec![10, 200, 7, 9];
    let b = vec![50, 100, 7, 65535];
    let ab = frame(a.clone(), 4, 1).merge_max(frame(b.clone(), 4, 1));
    let ba = frame(b, 4, 1).merge_max(frame(a, 4, 1));
    assert_eq!(ab.raw_image_data, ba.raw_image_data);
}

#[test]
fn merge_max_associates() {
    let a = vec![10, 200];
    let b = vec![50, 100];
    let c = vec![30, 255];
    let left = frame(a.clone(), 2, 1).merge_max(frame(b.clone(), 2, 1)).merge_max(frame(c.clone(), 2, 1));
    let right = frame(a, 2, 1).merge_max(frame(b, 2, 1).merge_max(frame(c, 2, 1)));
    assert_eq!(left.raw_image_data, vec![50, 255]);
    assert_eq!(right.raw_image_data, vec![50, 255]);
}

#[test]
fn merge_max_with_itself_changes_nothing() {
    let a = frame(vec![1, 2, 3], 3, 1);
    let res = a.merge_max(frame(vec![1, 2, 3], 3, 1));
    assert_eq!(res.raw_image_data, vec![1, 2, 3]);
}

#[test]
fn merge_add_is_saturating_sum() {
    let a = frame(vec![10, 65000, 65535, 0], 2, 2);
    let b = frame(vec![50, 1000, 65535, 0], 2, 2);
    let res = a.merge_add(b);
    assert_eq!(res.raw_image_data, vec![60, 65535, 65535, 0]);
    assert_eq!(res.width, 2);
    assert_eq!(res.height, 2);
}

#[test]
fn merge_add_commutes_on_rasters() {
    let a = vec![10, 65000];
    let b = vec![50, 1000];
    let ab = frame(a.clone(), 1, 2).merge_add(frame(b.clone(), 1, 2));
    let ba = frame(b, 1, 2).merge_add(frame(a, 1, 2));
    assert_eq!(ab.raw_image_data, ba.raw_image_data);
}

#[test]
fn subtract_removes_the_dark_frame() {
    let light = frame(vec![200, 200], 2, 1);
    let dark = frame(vec![50, 210], 2, 1);
    let res = light.subtract(dark);
    assert_eq!(res.raw_image_data, vec![150, 0]);
}

#[test]
fn merge_keeps_the_attributes_of_the_first_frame() {
    let a = frame(vec![1, 2], 2, 1);
    let b = frame(vec![3, 4], 2, 1);
    let first = Arc::clone(&a.exif);
    let second = Arc::clone(&b.exif);
    let res = a.merge_max(b);
    assert!(Arc::ptr_eq(&res.exif, &first));
    assert!(!Arc::ptr_eq(&res.exif, &second));
    let c = frame(vec![3, 4], 2, 1);
    let sum = res.merge_add(c);
    assert!(Arc::ptr_eq(&sum.exif, &first));
    let d = frame(vec![0, 0], 2, 1);
    let diff = sum.subtract(d);
    assert!(Arc::ptr_eq(&diff.exif, &first));
}

#[test]
fn same_size_compares_width_and_height() {
    let a = frame(vec![0; 6], 2, 3);
    assert!(a.same_size(&frame(vec![1; 6], 2, 3)));
    assert!(!a.same_size(&frame(vec![1; 6], 3, 2)));
    assert!(!a.same_size(&frame(vec![1; 6], 6, 1)));
}

#[test]
fn is_valid_checks_the_raster() {
    assert!(frame(vec![0; 6], 2, 3).is_valid());
    assert!(!frame(vec![0; 5], 2, 3).is_valid());
    assert!(!frame(vec![], 0, 3).is_valid());
    assert!(!frame(vec![], 3, 0).is_valid());
    let mut bad = frame(vec![0; 6], 2, 3);
    bad.intensity = Weight { num: 1, den: 0 };
    assert!(!bad.is_valid());
    assert!(!frame(vec![0; 4], usize::MAX, 2).is_valid());
}

#[test]
fn dimensions_fit_32_bits_or_not() {
    assert_eq!(frame(vec![0; 6], 2, 3).dimensions_u32(), Some((2, 3)));
    let wide = frame(vec![], (u32::MAX as usize) + 1, 1);
    assert_eq!(wide.dimensions_u32(), None);
    let tall = frame(vec![], 1, (u32::MAX as usize) + 1);
    assert_eq!(tall.dimensions_u32(), None);
}
