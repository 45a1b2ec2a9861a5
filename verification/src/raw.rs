//! The boundary to the two outside parsers: the sensor-raster decoder and the
//! Exif reader. Nothing in this file is proved; each contract states what the
//! outside function is taken to do.

use vstd::prelude::*;
use std::sync::{Arc, Mutex};

verus! {

/// Parsed Exif attributes, carried through every merge and never looked into.
#[verifier::external_type_specification]
#[verifier::external_body]
pub struct ExExif(exif::Exif);

/// The lock of std around a value that is shared between threads.
#[verifier::external_type_specification]
#[verifier::external_body]
#[verifier::reject_recursive_types(T)]
pub struct ExMutex<T: ?Sized>(Mutex<T>);

/// The reason why the Exif reader gave up.
#[verifier::external_type_specification]
#[verifier::external_body]
pub struct ExExifError(exif::Error);

/// The reason why the raster decoder gave up.
#[verifier::external_type_specification]
#[verifier::external_body]
pub struct ExRawLoaderError(rawloader::RawLoaderError);

/// What the decoder found in a file: the raster's size and, where the file
/// stores integer samples, the samples row by row.
pub struct Decoded {
    /// `None` where the file stores its samples as floating-point numbers.
    pub samples: Option<Vec<u16>>,
    pub width: usize,
    pub height: usize,
}

impl Decoded {
    /// The decoder's findings as plain values: samples, width, height.
    pub open spec fn model(&self) -> (Option<Seq<u16>>, nat, nat) {
        (
            match self.samples {
                Some(v) => Some(v@),
                None => None,
            },
            self.width as nat,
            self.height as nat,
        )
    }
}

/// What `rawloader::decode` makes of a file's bytes: `None` where it fails,
/// else samples (if they are integers), width and height.
pub uninterp spec fn raw_decode(bytes: Seq<u8>) -> Option<(Option<Seq<u16>>, nat, nat)>;

/// Whether `exif::Reader::read_from_container` finds Exif attributes in a
/// file's bytes.
pub uninterp spec fn exif_readable(bytes: Seq<u8>) -> bool;

/// Calls `rawloader::decode` on the bytes of a file. The decoder catches its
/// own panics and reports them as errors. The contract claims only that the
/// outcome is a function of the bytes, and gives that function its name.
#[verifier::external_body]
pub(crate) fn decode_raw(bytes: &[u8]) -> (res: Result<Decoded, rawloader::RawLoaderError>)
    ensures
        match res {
            Ok(d) => raw_decode(bytes@) == Some(d.model()),
            Err(_) => raw_decode(bytes@) is None,
        },
{
    let mut reader: &[u8] = bytes;
    let image = rawloader::decode(&mut reader)?;
    let samples = match image.data {
        rawloader::RawImageData::Integer(data) => Some(data),
        rawloader::RawImageData::Float(_) => None,
    };
    Ok(Decoded { samples, width: image.width, height: image.height })
}

/// Calls `exif::Reader::read_from_container` on the bytes of a file, with the
/// reader's default options. The contract claims only that success depends on
/// the bytes alone; of the attributes themselves it says nothing.
#[verifier::external_body]
pub(crate) fn read_exif(bytes: &[u8]) -> (res: Result<exif::Exif, exif::Error>)
    ensures
        (res is Ok) == exif_readable(bytes@),
{
    exif::Reader::new().read_from_container(&mut std::io::Cursor::new(bytes))
}

/// Calls `Mutex::new`: the attributes behind a lock, so that frames can pass
/// from thread to thread. Nothing is claimed of the result.
#[verifier::external_body]
pub(crate) fn seal(attributes: exif::Exif) -> Mutex<exif::Exif> {
    Mutex::new(attributes)
}

/// Calls `Arc::clone`: a second handle to the same attributes.
#[verifier::external_body]
pub(crate) fn share(handle: &Arc<Mutex<exif::Exif>>) -> (res: Arc<Mutex<exif::Exif>>)
    ensures
        res == *handle,
{
    Arc::clone(handle)
}

} // verus!
