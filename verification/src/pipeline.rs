//! The steps of a stacking run, from the names of the files to the frame that
//! is written out.

use vstd::prelude::*;
use crate::image::{load_outcome, Frame, Image, ImagePrototype, ImageType, LoadError, Raster};
use crate::merger::{MergeAction, Merger, Phase};
use crate::queue::admits;
use crate::raw::{exif_readable, raw_decode};
use crate::stacking::{
    dark_intensity, dark_intensity_of, determine_intensity, intensity_of, scale, CometMode, Weight,
};

verus! {

/// Why a run gave no frame.
#[derive(Clone, Copy, Debug, PartialEq, Eq, Structural)]
pub enum StackError {
    /// A file gave no frame.
    Load(LoadError),
    /// A frame has another width or height than the frames it is to be
    /// combined with.
    DimensionMismatch,
    /// The reducer has been told that no frame will arrive any more.
    NotAccepting,
    /// There is no light frame.
    EmptyInput,
}

/// The mode that goes by a name: `falling`, `raising`, and normal for every
/// other name.
pub open spec fn mode_named(name: Seq<char>) -> CometMode {
    if name == "falling"@ {
        CometMode::Falling
    } else if name == "raising"@ {
        CometMode::Raising
    } else {
        CometMode::Normal
    }
}

/// The mode that goes by a name.
pub fn mode_from_name(name: &str) -> (mode: CometMode)
    ensures
        mode == mode_named(name@),
{
    let name = name.to_owned();
    if name == "falling".to_owned() {
        CometMode::Falling
    } else if name == "raising".to_owned() {
        CometMode::Raising
    } else {
        CometMode::Normal
    }
}

/// The rule by which frames of a kind are merged: light frames by their
/// brightest pixels, dark frames by their sum, which their weights make an
/// average.
pub fn merge_action_for(image_type: ImageType) -> (action: MergeAction)
    ensures
        action == match image_type {
            ImageType::Light => MergeAction::Max,
            ImageType::Dark => MergeAction::Add,
        },
{
    match image_type {
        ImageType::Light => MergeAction::Max,
        ImageType::Dark => MergeAction::Add,
    }
}

/// The light frames to load, in the order of `paths`, each with the weight of
/// its place under `mode`.
pub fn light_prototypes(paths: &Vec<String>, mode: CometMode) -> (res: Vec<ImagePrototype>)
    ensures
        res.len() == paths.len(),
        forall|k: int|
            0 <= k < res.len() ==> {
                &&& (#[trigger] res[k]).path@ == paths[k]@
                &&& res[k].intensity == intensity_of(mode, k as nat, paths.len() as nat)
                &&& res[k].intensity.wf()
                &&& res[k].image_type == ImageType::Light
            },
{
    let total = paths.len();
    let mut out: Vec<ImagePrototype> = Vec::with_capacity(total);
    let mut index: usize = 0;
    while index < total
        invariant
            index <= total,
            total == paths.len(),
            out.len() == index,
            forall|k: int|
                0 <= k < out.len() ==> {
                    &&& (#[trigger] out[k]).path@ == paths[k]@
                    &&& out[k].intensity == intensity_of(mode, k as nat, total as nat)
                    &&& out[k].intensity.wf()
                    &&& out[k].image_type == ImageType::Light
                },
        decreases total - index,
    {
        out.push(
            ImagePrototype {
                path: paths[index].clone(),
                intensity: determine_intensity(mode, index, total),
                image_type: ImageType::Light,
            },
        );
        index += 1;
    }
    out
}

/// The dark frames to load, in the order of `paths`, each with the weight one
/// over their number.
pub fn dark_prototypes(paths: &Vec<String>) -> (res: Vec<ImagePrototype>)
    ensures
        res.len() == paths.len(),
        forall|k: int|
            0 <= k < res.len() ==> {
                &&& (#[trigger] res[k]).path@ == paths[k]@
                &&& res[k].intensity == dark_intensity_of(paths.len() as nat)
                &&& res[k].intensity.wf()
                &&& res[k].image_type == ImageType::Dark
            },
{
    let total = paths.len();
    let mut out: Vec<ImagePrototype> = Vec::with_capacity(total);
    let mut index: usize = 0;
    while index < total
        invariant
            index <= total,
            total == paths.len(),
            out.len() == index,
            forall|k: int|
                0 <= k < out.len() ==> {
                    &&& (#[trigger] out[k]).path@ == paths[k]@
                    &&& out[k].intensity == dark_intensity_of(total as nat)
                    &&& out[k].intensity.wf()
                    &&& out[k].image_type == ImageType::Dark
                },
        decreases total - index,
    {
        out.push(
            ImagePrototype {
                path: paths[index].clone(),
                intensity: dark_intensity(total),
                image_type: ImageType::Dark,
            },
        );
        index += 1;
    }
    out
}

/// The frame that a file gives once its weight is folded in: the decoded
/// raster scaled by the weight.
pub open spec fn prepared(bytes: Seq<u8>, intensity: Weight) -> Result<Raster, LoadError> {
    match load_outcome(exif_readable(bytes), raw_decode(bytes)) {
        Ok((samples, width, height)) => Ok((scale(samples, intensity), width, height)),
        Err(e) => Err(e),
    }
}

/// Reads the frame of a prototype from the bytes of its file and folds its
/// weight in.
pub fn prepare(proto: &ImagePrototype, bytes: &[u8]) -> (res: Result<Image, LoadError>)
    requires
        proto.intensity.wf(),
    ensures
        match res {
            Ok(img) => {
                &&& prepared(bytes@, proto.intensity) == Ok::<Raster, LoadError>(img@.raster())
                &&& img@.weight.is_one()
                &&& img@.kind == ImageType::Light
                &&& img.wf()
            },
            Err(e) => prepared(bytes@, proto.intensity) == Err::<Raster, LoadError>(e),
        },
{
    match Image::load_from_raw(bytes, proto.intensity) {
        Ok(img) => Ok(img.apply_intensity()),
        Err(e) => Err(e),
    }
}

/// Hands a frame to a reducer, unless the reducer takes no more frames or the
/// frame does not fit those it holds; the reducer is then left as it was.
pub fn submit(merger: &mut Merger, frame: Image) -> (res: Result<(), StackError>)
    requires
        old(merger).wf(),
        frame.wf(),
    ensures
        final(merger).wf(),
        match res {
            Ok(_) => {
                &&& !old(merger)@.done
                &&& admits(old(merger)@.size, frame@)
                &&& final(merger)@ == old(merger)@.push(frame@)
            },
            Err(e) => {
                &&& final(merger)@ == old(merger)@
                &&& e == if old(merger)@.done {
                    StackError::NotAccepting
                } else {
                    StackError::DimensionMismatch
                }
                &&& old(merger)@.done || !admits(old(merger)@.size, frame@)
            },
        },
{
    if merger.phase() != Phase::Accepting {
        Err(StackError::NotAccepting)
    } else if !merger.accepts(&frame) {
        Err(StackError::DimensionMismatch)
    } else {
        merger.push(frame);
        Ok(())
    }
}

/// Reads the frame of a prototype from the bytes of its file, folds its weight
/// in and hands it to a reducer. On an error the reducer is left as it was.
pub fn load_image(proto: &ImagePrototype, bytes: &[u8], merger: &mut Merger) -> (res: Result<
    (),
    StackError,
>)
    requires
        proto.intensity.wf(),
        old(merger).wf(),
    ensures
        final(merger).wf(),
        match res {
            Ok(_) => {
                let frame = final(merger)@.queue.last();
                &&& !old(merger)@.done
                &&& final(merger)@ == old(merger)@.push(frame)
                &&& admits(old(merger)@.size, frame)
                &&& prepared(bytes@, proto.intensity) == Ok::<Raster, LoadError>(frame.raster())
                &&& frame.weight.is_one()
                &&& frame.kind == ImageType::Light
            },
            Err(e) => {
                &&& final(merger)@ == old(merger)@
                &&& match prepared(bytes@, proto.intensity) {
                    Err(cause) => e == StackError::Load(cause),
                    Ok((_, width, height)) => if old(merger)@.done {
                        e == StackError::NotAccepting
                    } else {
                        &&& e == StackError::DimensionMismatch
                        &&& old(merger)@.size is Some
                        &&& old(merger)@.size != Some((width, height))
                    },
                }
            },
        },
{
    match prepare(proto, bytes) {
        Ok(img) => submit(merger, img),
        Err(e) => Err(StackError::Load(e)),
    }
}

/// The frame that is written out: the merged light frames, less the merged
/// dark frames where there are any.
pub open spec fn calibrated(light: Option<Frame>, dark: Option<Frame>) -> Result<
    Frame,
    StackError,
> {
    match light {
        None => Err(StackError::EmptyInput),
        Some(light) => match dark {
            None => Ok(light),
            Some(dark) => if light.same_size(dark) {
                Ok(light.subtract(dark))
            } else {
                Err(StackError::DimensionMismatch)
            },
        },
    }
}

/// Combines the results of the two reducers: without a light frame there is
/// nothing to write; without a dark frame the light frame is written as it
/// is; else the dark frame is subtracted from the light frame.
pub fn calibrate(light: Option<Image>, dark: Option<Image>) -> (res: Result<Image, StackError>)
    requires
        light matches Some(l) ==> l.wf(),
        dark matches Some(d) ==> d.wf(),
    ensures
        match res {
            Ok(img) => calibrated(frame_of(light), frame_of(dark)) == Ok::<Frame, StackError>(img@)
                && img.wf(),
            Err(e) => calibrated(frame_of(light), frame_of(dark)) == Err::<Frame, StackError>(e),
        },
{
    match light {
        None => Err(StackError::EmptyInput),
        Some(light) => match dark {
            None => Ok(light),
            Some(dark) => {
                if light.same_size(&dark) {
                    Ok(light.subtract(dark))
                } else {
                    Err(StackError::DimensionMismatch)
                }
            },
        },
    }
}

/// The frame of an image that may be missing.
pub open spec fn frame_of(image: Option<Image>) -> Option<Frame> {
    match image {
        Some(img) => Some(img@),
        None => None,
    }
}

} // verus!
