use std::sync::{Arc, Mutex};

use startrails::image::{Image, ImagePrototype, ImageType, LoadError};
use startrails::merger::{MergeAction, Merger};
use startrails::pipeline::{
    calibrate, dark_prototypes, light_prototypes, load_image, merge_action_for, mode_from_name,
    prepare, submit, StackError,
};
use startrails::stacking::{CometMode, Weight};

const NAKED_WIDTH: usize = 2346;
const NAKED_HEIGHT: usize = 1737;
const NAKED_STRIDE: usize = 3520;

fn tiff_header() -> Vec<u8> {
    vec![0x49, 0x49, 0x2a, 0, 8, 0, 0, 0, 0, 0, 0, 0, 0, 0]
}

fn attributes() -> Arc<Mutex<exif::Exif>> {
    Arc::new(Mutex::new(exif::Reader::new().read_raw(tiff_header()).unwrap()))
}

fn frame(samples: Vec<u16>, width: usize, height: usize) -> Image {
    Image {
        raw_image_data: samples,
        exif: attributes(),
        height,
        width,
        intensity: Weight::one(),
        image_type: ImageType::Light,
    }
}

fn naked_file(first: u8, second: u8, third: u8) -> Vec<u8> {
    let mut bytes = vec![0u8; NAKED_STRIDE * NAKED_HEIGHT];
    bytes[..14].copy_from_slice(&tiff_header());
    bytes[NAKED_STRIDE] = first;
    bytes[NAKED_STRIDE + 1] = second;
    bytes[NAKED_STRIDE + 2] = third;
    bytes
}

fn proto(intensity: Weight, image_type: ImageType) -> ImagePrototype {
    ImagePrototype { path: String::from("frame.raw"), intensity, image_type }
}

#[test]
fn each_kind_of_frame_has_its_rule() {
    assert_eq!(merge_action_for(ImageType::Light), MergeAction::Max);
    assert_eq!(merge_action_for(ImageType::Dark), MergeAction::Add);
}

#[test]
fn modes_go_by_their_names() {
    assert_eq!(mode_from_name("falling"), CometMode::Falling);
    assert_eq!(mode_from_name("raising"), CometMode::Raising);
    assert_eq!(mode_from_name("normal"), CometMode::Normal);
    assert_eq!(mode_from_name(""), CometMode::Normal);
    assert_eq!(mode_from_name("Falling"), CometMode::Normal);
    assert_eq!(mode_from_name("rising"), CometMode::Normal);
}

#[test]
fn light_prototypes_follow_the_mode() {
    let paths = vec![String::from("a"), String::from("b"), String::from("c"), String::from("d")];
    let falling = light_prototypes(&paths, CometMode::Falling);
    assert_eq!(falling.len(), 4);
    for (k, p) in falling.iter().enumerate() {
        assert_eq!(p.path, paths[k]);
        assert_eq!(p.intensity, Weight { num: 4 - k as u64, den: 4 });
        assert_eq!(p.image_type, ImageType::Light);
    }
    let raising = light_prototypes(&paths, CometMode::Raising);
    for (k, p) in raising.iter().enumerate() {
        assert_eq!(p.path, paths[k]);
        assert_eq!(p.intensity, Weight { num: k as u64, den: 4 });
    }
    let normal = light_prototypes(&paths, CometMode::Normal);
    for p in normal.iter() {
        assert_eq!(p.intensity, Weight { num: 1, den: 1 });
    }
    assert!(light_prototypes(&Vec::new(), CometMode::Falling).is_empty());
}

#[test]
fn dark_prototypes_share_the_weight() {
    let paths = vec![String::from("x"), String::from("y"), String::from("z")];
    let darks = dark_prototypes(&paths);
    assert_eq!(darks.len(), 3);
    for (k, p) in darks.iter().enumerate() {
        assert_eq!(p.path, paths[k]);
        assert_eq!(p.intensity, Weight { num: 1, den: 3 });
        assert_eq!(p.image_type, ImageType::Dark);
    }
    assert!(dark_prototypes(&Vec::new()).is_empty());
}

#[test]
fn prepare_decodes_and_weighs() {
    let bytes = naked_file(0xab, 0xcd, 0xef);
    let img = prepare(&proto(Weight { num: 1, den: 4 }, ImageType::Light), &bytes).unwrap();
    assert_eq!(img.width, NAKED_WIDTH);
    assert_eq!(img.height, NAKED_HEIGHT);
    assert_eq!(img.intensity, Weight::one());
    assert_eq!(img.raw_image_data[NAKED_WIDTH], 687);
    assert_eq!(img.raw_image_data[NAKED_WIDTH + 1], 892);
    assert_eq!(img.raw_image_data[NAKED_WIDTH + 2], 0);
}

#[test]
fn prepare_reports_why_a_file_gave_no_frame() {
    let p = proto(Weight::one(), ImageType::Light);
    assert_eq!(prepare(&p, b"no picture").err(), Some(LoadError::Metadata));
    assert_eq!(prepare(&p, &tiff_header()).err(), Some(LoadError::Decode));
}

#[test]
fn submit_hands_over_what_fits() {
    let mut merger = Merger::new(MergeAction::Max);
    assert_eq!(submit(&mut merger, frame(vec![1, 2], 2, 1)), Ok(()));
    assert_eq!(submit(&mut merger, frame(vec![3, 4], 2, 1)), Ok(()));
    assert_eq!(merger.get_queue().len(), 2);
    assert_eq!(
        submit(&mut merger, frame(vec![3, 4], 1, 2)),
        Err(StackError::DimensionMismatch)
    );
    assert_eq!(
        submit(&mut merger, frame(vec![3, 4, 5], 3, 1)),
        Err(StackError::DimensionMismatch)
    );
    assert_eq!(merger.get_queue().len(), 2);
    merger.finish();
    assert_eq!(submit(&mut merger, frame(vec![5, 6], 2, 1)), Err(StackError::NotAccepting));
    assert_eq!(submit(&mut merger, frame(vec![5], 1, 1)), Err(StackError::NotAccepting));
    assert_eq!(merger.get_queue().len(), 2);
    assert_eq!(merger.finish_and_join().unwrap().raw_image_data, vec![3, 4]);
}

#[test]
fn load_image_fills_the_reducer() {
    let mut merger = Merger::new(MergeAction::Max);
    let full = proto(Weight::one(), ImageType::Light);
    let half = proto(Weight { num: 1, den: 2 }, ImageType::Light);
    assert_eq!(load_image(&full, &naked_file(0x10, 0x0f, 0xff), &mut merger), Ok(()));
    assert_eq!(load_image(&half, &naked_file(0xff, 0xf0, 0x01), &mut merger), Ok(()));
    assert_eq!(
        load_image(&full, b"no picture", &mut merger),
        Err(StackError::Load(LoadError::Metadata))
    );
    assert_eq!(
        load_image(&full, &tiff_header(), &mut merger),
        Err(StackError::Load(LoadError::Decode))
    );
    assert_eq!(merger.get_queue().len(), 2);
    merger.finish();
    assert_eq!(
        load_image(&full, &naked_file(0, 0, 0), &mut merger),
        Err(StackError::NotAccepting)
    );
    let out = merger.finish_and_join().unwrap();
    assert_eq!(out.raw_image_data[NAKED_WIDTH], 0x800);
    assert_eq!(out.raw_image_data[NAKED_WIDTH + 1], 0xfff);
    assert_eq!(out.raw_image_data[0], 0x494);
}

#[test]
fn load_image_refuses_a_frame_of_another_size() {
    let mut merger = Merger::new(MergeAction::Add);
    merger.push(frame(vec![1, 2], 2, 1));
    let p = proto(Weight::one(), ImageType::Dark);
    assert_eq!(
        load_image(&p, &naked_file(1, 2, 3), &mut merger),
        Err(StackError::DimensionMismatch)
    );
    assert_eq!(merger.get_queue().len(), 1);
}

#[test]
fn calibrate_subtracts_the_master_dark() {
    let light = frame(vec![200, 200], 2, 1);
    let dark = frame(vec![50, 210], 2, 1);
    let handle = Arc::clone(&light.exif);
    let res = calibrate(Some(light), Some(dark)).ok().unwrap();
    assert_eq!(res.raw_image_data, vec![150, 0]);
    assert!(Arc::ptr_eq(&res.exif, &handle));
}

#[test]
fn calibrate_without_darks_keeps_the_light_frame() {
    let mut light = frame(vec![200, 200], 2, 1);
    light.intensity = Weight { num: 1, den: 7 };
    let res = calibrate(Some(light), None).ok().unwrap();
    assert_eq!(res.raw_image_data, vec![200, 200]);
    assert_eq!(res.intensity, Weight { num: 1, den: 7 });
}

#[test]
fn calibrate_needs_a_light_frame() {
    assert_eq!(calibrate(None, None).err(), Some(StackError::EmptyInput));
    let dark = frame(vec![50, 210], 2, 1);
    assert_eq!(calibrate(None, Some(dark)).err(), Some(StackError::EmptyInput));
}

#[test]
fn calibrate_refuses_a_dark_frame_of_another_size() {
    let light = frame(vec![200, 200], 2, 1);
    let dark = frame(vec![50, 210], 1, 2);
    assert_eq!(calibrate(Some(light), Some(dark)).err(), Some(StackError::DimensionMismatch));
}

#[test]
fn darks_are_averaged_and_removed_from_the_lights() {
    let darks = dark_prototypes(&vec![String::from("d0"), String::from("d1")]);
    let lights = light_prototypes(
        &vec![String::from("l0"), String::from("l1")],
        CometMode::Falling,
    );
    let mut dark_merger = Merger::new(MergeAction::Add);
    assert_eq!(load_image(&darks[0], &naked_file(0x10, 0x00, 0x20), &mut dark_merger), Ok(()));
    assert_eq!(load_image(&darks[1], &naked_file(0x30, 0x00, 0x40), &mut dark_merger), Ok(()));
    let mut light_merger = Merger::new(MergeAction::Max);
    assert_eq!(load_image(&lights[0], &naked_file(0x40, 0x0f, 0x00), &mut light_merger), Ok(()));
    assert_eq!(load_image(&lights[1], &naked_file(0xff, 0xf0, 0x10), &mut light_merger), Ok(()));
    let dark = dark_merger.finish_and_join();
    let light = light_merger.finish_and_join();
    let out = calibrate(light, dark).ok().unwrap();
    // Darks: (0x100 + 0x300) / 2 = 0x200 and (0x020 + 0x040) / 2 = 0x030.
    // Lights: max(0x400, 0xfff / 2 rounded) = 0x800 and max(0xf00, 0x010 / 2) = 0xf00.
    assert_eq!(out.raw_image_data[NAKED_WIDTH], 0x800 - 0x200);
    assert_eq!(out.raw_image_data[NAKED_WIDTH + 1], 0xf00 - 0x030);
    assert_eq!(out.raw_image_data[NAKED_WIDTH + 2], 0);
    // Pixel 0 holds 0x494 in every file: the darks average to 0x494, the
    // lights give max(0x494, 0x24a).
    assert_eq!(out.raw_image_data[0], 0);
    assert_eq!(out.width, NAKED_WIDTH);
    assert_eq!(out.height, NAKED_HEIGHT);
}
