//! One frame: a raster of sensor samples with its size, its pending weight and
//! the Exif attributes of the file it began with.

use vstd::prelude::*;
use std::sync::{Arc, Mutex};
use crate::kernel::{
    additive, additive_pixel, additive_sample, lighten, lighten_pixel, lighten_sample, subtract,
    subtract_pixel, subtract_sample,
};
use crate::raw::{decode_raw, exif_readable, raw_decode, read_exif, seal, share, Decoded};
use crate::stacking::{scale, scale_pixel, scale_sample, Weight};

verus! {

/// Whether a frame is an exposure of the sky or a calibration exposure.
#[derive(Clone, Copy, Debug, PartialEq, Eq, Structural)]
pub enum ImageType {
    Light,
    Dark,
}

/// A frame that is still to be loaded: where it lies and what it will weigh.
pub struct ImagePrototype {
    pub path: String,
    pub intensity: Weight,
    pub image_type: ImageType,
}

/// Why a file gave no frame.
#[derive(Clone, Copy, Debug, PartialEq, Eq, Structural)]
pub enum LoadError {
    /// The Exif reader found no attributes in the file.
    Metadata,
    /// The raster decoder could not read the file.
    Decode,
    /// The file stores its samples as floating-point numbers.
    NonIntegerSamples,
    /// The raster has no width or no height.
    EmptyRaster,
    /// The number of samples is not width times height.
    SizeMismatch,
}

/// A frame.
pub struct Image {
    /// One sample per sensor pixel, row by row.
    pub raw_image_data: Vec<u16>,
    /// Attributes of the first file of the merge chain this frame came from.
    pub exif: Arc<Mutex<exif::Exif>>,
    pub height: usize,
    pub width: usize,
    /// The weight that is still to be applied to the samples.
    pub intensity: Weight,
    pub image_type: ImageType,
}

/// The samples of a raster, row by row, with its width and its height.
pub type Raster = (Seq<u16>, nat, nat);

/// A frame as a mathematical value.
pub struct Frame {
    pub samples: Seq<u16>,
    pub width: nat,
    pub height: nat,
    pub weight: Weight,
    pub metadata: Mutex<exif::Exif>,
    pub kind: ImageType,
}

impl Frame {
    /// The samples fill the raster, which is not empty, and the weight is a
    /// fraction.
    pub open spec fn wf(self) -> bool {
        &&& self.width > 0
        &&& self.height > 0
        &&& self.samples.len() == self.width * self.height
        &&& self.weight.wf()
    }

    /// The samples of the frame with its width and its height.
    pub open spec fn raster(self) -> Raster {
        (self.samples, self.width, self.height)
    }

    /// Both frames have the same width and the same height.
    pub open spec fn same_size(self, other: Frame) -> bool {
        self.width == other.width && self.height == other.height
    }

    /// The frame that a merge hands back: new samples, the weight one, and the
    /// size and attributes of `self`.
    pub open spec fn merged(self, samples: Seq<u16>) -> Frame {
        Frame {
            samples,
            width: self.width,
            height: self.height,
            weight: Weight { num: 1, den: 1 },
            metadata: self.metadata,
            kind: ImageType::Light,
        }
    }

    /// The weight folded into the samples.
    pub open spec fn apply_intensity(self) -> Frame {
        self.merged(scale(self.samples, self.weight))
    }

    /// Per-pixel brightest of the two frames.
    pub open spec fn merge_max(self, other: Frame) -> Frame {
        self.merged(lighten(self.samples, other.samples))
    }

    /// Per-pixel saturating sum of the two frames.
    pub open spec fn merge_add(self, other: Frame) -> Frame {
        self.merged(additive(self.samples, other.samples))
    }

    /// Per-pixel difference of the two frames, never below zero.
    pub open spec fn subtract(self, other: Frame) -> Frame {
        self.merged(subtract(self.samples, other.samples))
    }
}

/// Under the brightest-pixel rule the order of the two frames decides only
/// whose attributes the result carries: the rasters are the same, and so are
/// the frames where both carry the same attributes.
pub proof fn merge_max_commutes(a: Frame, b: Frame)
    requires
        a.wf(),
        b.wf(),
        a.same_size(b),
    ensures
        a.merge_max(b).samples == b.merge_max(a).samples,
        a.merge_max(b).same_size(b.merge_max(a)),
        a.metadata == b.metadata ==> a.merge_max(b) == b.merge_max(a),
{
    crate::kernel::lighten_commutative(a.samples, b.samples);
}

/// Under the brightest-pixel rule three frames give the same frame however
/// they are grouped.
pub proof fn merge_max_associates(a: Frame, b: Frame, c: Frame)
    requires
        a.wf(),
        b.wf(),
        c.wf(),
        a.same_size(b),
        b.same_size(c),
    ensures
        a.merge_max(b).merge_max(c) == a.merge_max(b.merge_max(c)),
{
    crate::kernel::lighten_associative(a.samples, b.samples, c.samples);
}

/// Under the additive rule the order of the two frames decides only whose
/// attributes the result carries.
pub proof fn merge_add_commutes(a: Frame, b: Frame)
    requires
        a.wf(),
        b.wf(),
        a.same_size(b),
    ensures
        a.merge_add(b).samples == b.merge_add(a).samples,
        a.merge_add(b).same_size(b.merge_add(a)),
        a.metadata == b.metadata ==> a.merge_add(b) == b.merge_add(a),
{
    crate::kernel::additive_commutative(a.samples, b.samples);
}

/// Under the additive rule three frames give the same frame however they are
/// grouped.
pub proof fn merge_add_associates(a: Frame, b: Frame, c: Frame)
    requires
        a.wf(),
        b.wf(),
        c.wf(),
        a.same_size(b),
        b.same_size(c),
    ensures
        a.merge_add(b).merge_add(c) == a.merge_add(b.merge_add(c)),
{
    crate::kernel::additive_associative(a.samples, b.samples, c.samples);
}

/// A frame whose weight is one keeps its samples when the weight is folded
/// in.
pub proof fn apply_unit_intensity(a: Frame)
    requires
        a.weight.is_one(),
    ensures
        a.apply_intensity().samples == a.samples,
{
    assert forall|k: int| 0 <= k < a.samples.len() implies scale_sample(a.samples[k], a.weight)
        == a.samples[k] by {
        crate::stacking::scale_by_one(a.samples[k], a.weight);
    }
    assert(a.apply_intensity().samples =~= a.samples);
}

impl View for Image {
    type V = Frame;

    open spec fn view(&self) -> Frame {
        Frame {
            samples: self.raw_image_data@,
            width: self.width as nat,
            height: self.height as nat,
            weight: self.intensity,
            metadata: *self.exif,
            kind: self.image_type,
        }
    }
}

/// The frame that the findings of the two parsers amount to, or the reason why
/// they amount to none. A missing set of attributes is reported before a
/// failed decode, and a failed decode before any fault of the raster.
pub open spec fn load_outcome(
    readable: bool,
    decoded: Option<(Option<Seq<u16>>, nat, nat)>,
) -> Result<Raster, LoadError> {
    if !readable {
        Err(LoadError::Metadata)
    } else {
        match decoded {
            None => Err(LoadError::Decode),
            Some(found) => raster_outcome(found),
        }
    }
}

/// The raster that a decoder's findings amount to, or what is wrong with them.
pub open spec fn raster_outcome(found: (Option<Seq<u16>>, nat, nat)) -> Result<Raster, LoadError> {
    match found.0 {
        None => Err(LoadError::NonIntegerSamples),
        Some(samples) => if found.1 == 0 || found.2 == 0 {
            Err(LoadError::EmptyRaster)
        } else if samples.len() != found.1 * found.2 {
            Err(LoadError::SizeMismatch)
        } else {
            Ok((samples, found.1, found.2))
        },
    }
}

impl Image {
    /// The frame is well formed.
    pub open spec fn wf(&self) -> bool {
        self@.wf()
    }

    /// Builds a frame from what a decoder found, with a weight still to be
    /// applied.
    pub fn from_decoded(
        decoded: Decoded,
        exif: Arc<Mutex<exif::Exif>>,
        intensity: Weight,
    ) -> (res: Result<Image, LoadError>)
        requires
            intensity.wf(),
        ensures
            match res {
                Ok(img) => {
                    &&& raster_outcome(decoded.model()) == Ok::<Raster, LoadError>(img@.raster())
                    &&& img@.weight == intensity
                    &&& img@.metadata == *exif
                    &&& img@.kind == ImageType::Light
                    &&& img.wf()
                },
                Err(e) => raster_outcome(decoded.model()) == Err::<Raster, LoadError>(e),
            },
    {
        let width = decoded.width;
        let height = decoded.height;
        match decoded.samples {
            None => Err(LoadError::NonIntegerSamples),
            Some(data) => {
                let len = data.len();
                if width == 0 || height == 0 {
                    Err(LoadError::EmptyRaster)
                } else if width.checked_mul(height) != Some(len) {
                    Err(LoadError::SizeMismatch)
                } else {
                    Ok(
                        Image {
                            raw_image_data: data,
                            exif,
                            height,
                            width,
                            intensity,
                            image_type: ImageType::Light,
                        },
                    )
                }
            },
        }
    }

    /// Reads a frame from the bytes of a camera file.
    pub fn load_from_raw(bytes: &[u8], intensity: Weight) -> (res: Result<Image, LoadError>)
        requires
            intensity.wf(),
        ensures
            match res {
                Ok(img) => {
                    &&& load_outcome(exif_readable(bytes@), raw_decode(bytes@)) == Ok::<
                        Raster,
                        LoadError,
                    >(img@.raster())
                    &&& img@.weight == intensity
                    &&& img@.kind == ImageType::Light
                    &&& img.wf()
                },
                Err(e) => load_outcome(exif_readable(bytes@), raw_decode(bytes@)) == Err::<
                    Raster,
                    LoadError,
                >(e),
            },
    {
        let exif = match read_exif(bytes) {
            Ok(exif) => exif,
            Err(_) => {
                return Err(LoadError::Metadata);
            },
        };
        let decoded = match decode_raw(bytes) {
            Ok(decoded) => decoded,
            Err(_) => {
                return Err(LoadError::Decode);
            },
        };
        Image::from_decoded(decoded, Arc::new(seal(exif)), intensity)
    }

    /// Whether the frame is well formed.
    pub fn is_valid(&self) -> (b: bool)
        ensures
            b == self.wf(),
    {
        self.width > 0 && self.height > 0 && self.intensity.den > 0 && self.width.checked_mul(
            self.height,
        ) == Some(self.raw_image_data.len())
    }

    /// Width and height as 32-bit numbers, where both fit.
    pub fn dimensions_u32(&self) -> (res: Option<(u32, u32)>)
        ensures
            res == if self.width <= u32::MAX && self.height <= u32::MAX {
                Some((self.width as u32, self.height as u32))
            } else {
                None
            },
    {
        if self.width <= 0xffff_ffff && self.height <= 0xffff_ffff {
            Some((self.width as u32, self.height as u32))
        } else {
            None
        }
    }

    /// Whether both frames have the same width and the same height.
    pub fn same_size(&self, other: &Image) -> (b: bool)
        ensures
            b == self@.same_size(other@),
    {
        self.width == other.width && self.height == other.height
    }

    /// Folds the pending weight into the samples: each sample is multiplied by
    /// the weight, rounded to the nearest integer and held at the largest
    /// sample value. The frame that comes back has the weight one.
    pub fn apply_intensity(&self) -> (res: Image)
        requires
            self.wf(),
        ensures
            res@ == self@.apply_intensity(),
            res.wf(),
    {
        let n = self.raw_image_data.len();
        let mut out: Vec<u16> = Vec::with_capacity(n);
        let mut i: usize = 0;
        while i < n
            invariant
                n == self.raw_image_data.len(),
                self.intensity.wf(),
                i <= n,
                out.len() == i,
                forall|k: int|
                    0 <= k < i ==> out[k] == scale_sample(
                        #[trigger] self.raw_image_data[k],
                        self.intensity,
                    ),
            decreases n - i,
        {
            out.push(scale_pixel(self.raw_image_data[i], self.intensity));
            i += 1;
        }
        assert(out@ =~= scale(self.raw_image_data@, self.intensity));
        self.derive(out)
    }

    /// Per-pixel saturating sum of two frames of the same size. The result
    /// keeps the attributes of `self`.
    pub fn merge_add(&self, other: Image) -> (res: Image)
        requires
            self.wf(),
            other.wf(),
            self@.same_size(other@),
        ensures
            res@ == self@.merge_add(other@),
            res.wf(),
            forall|k: int|
                0 <= k < res@.samples.len() ==> res@.samples[k] == vstd::math::min(
                    self@.samples[k] + other@.samples[k],
                    0xffff,
                ),
    {
        let n = self.raw_image_data.len();
        let mut out: Vec<u16> = Vec::with_capacity(n);
        let mut i: usize = 0;
        while i < n
            invariant
                n == self.raw_image_data.len(),
                n == other.raw_image_data.len(),
                i <= n,
                out.len() == i,
                forall|k: int|
                    0 <= k < i ==> out[k] == additive_sample(
                        #[trigger] self.raw_image_data[k],
                        other.raw_image_data[k],
                    ),
            decreases n - i,
        {
            out.push(additive_pixel(self.raw_image_data[i], other.raw_image_data[i]));
            i += 1;
        }
        assert(out@ =~= additive(self.raw_image_data@, other.raw_image_data@));
        self.derive(out)
    }

    /// Per-pixel brightest of two frames of the same size. The result keeps
    /// the attributes of `self`.
    pub fn merge_max(&self, other: Image) -> (res: Image)
        requires
            self.wf(),
            other.wf(),
            self@.same_size(other@),
        ensures
            res@ == self@.merge_max(other@),
            res.wf(),
            forall|k: int|
                0 <= k < res@.samples.len() ==> res@.samples[k] == vstd::math::max(
                    self@.samples[k] as int,
                    other@.samples[k] as int,
                ),
    {
        let n = self.raw_image_data.len();
        let mut out: Vec<u16> = Vec::with_capacity(n);
        let mut i: usize = 0;
        while i < n
            invariant
                n == self.raw_image_data.len(),
                n == other.raw_image_data.len(),
                i <= n,
                out.len() == i,
                forall|k: int|
                    0 <= k < i ==> out[k] == lighten_sample(
                        #[trigger] self.raw_image_data[k],
                        other.raw_image_data[k],
                    ),
            decreases n - i,
        {
            out.push(lighten_pixel(self.raw_image_data[i], other.raw_image_data[i]));
            i += 1;
        }
        assert(out@ =~= lighten(self.raw_image_data@, other.raw_image_data@));
        self.derive(out)
    }

    /// Per-pixel difference of two frames of the same size, held at zero where
    /// `other` is the brighter. The result keeps the attributes of `self`.
    pub fn subtract(&self, other: Image) -> (res: Image)
        requires
            self.wf(),
            other.wf(),
            self@.same_size(other@),
        ensures
            res@ == self@.subtract(other@),
            res.wf(),
            forall|k: int|
                0 <= k < res@.samples.len() ==> res@.samples[k] == vstd::math::max(
                    self@.samples[k] - other@.samples[k],
                    0,
                ),
    {
        let n = self.raw_image_data.len();
        let mut out: Vec<u16> = Vec::with_capacity(n);
        let mut i: usize = 0;
        while i < n
            invariant
                n == self.raw_image_data.len(),
                n == other.raw_image_data.len(),
                i <= n,
                out.len() == i,
                forall|k: int|
                    0 <= k < i ==> out[k] == subtract_sample(
                        #[trigger] self.raw_image_data[k],
                        other.raw_image_data[k],
                    ),
            decreases n - i,
        {
            out.push(subtract_pixel(self.raw_image_data[i], other.raw_image_data[i]));
            i += 1;
        }
        assert(out@ =~= subtract(self.raw_image_data@, other.raw_image_data@));
        self.derive(out)
    }

    /// A frame of the size and attributes of `self` around new samples.
    fn derive(&self, samples: Vec<u16>) -> (res: Image)
        ensures
            res@ == self@.merged(samples@),
    {
        Image {
            raw_image_data: samples,
            exif: share(&self.exif),
            height: self.height,
            width: self.width,
            intensity: Weight::one(),
            image_type: ImageType::Light,
        }
    }
}

} // verus!
