//! Admission of the sealed image of the original interpreter.

use std::ops::Range;

use vstd::prelude::*;

pub mod laws;

use crate::startup::image_error;
use crate::startup::image_model;
use crate::startup::plan_error;
use crate::startup::plan_model;
use crate::startup::AuxvSnapshot;
use crate::startup::InterpreterImage;
use crate::startup::InterpreterPlan;
use crate::startup::PlanError;

verus! {

pub const IMAGE_FD_ENV: &'static str = "HERMIT_LITEINST_ORIGINAL_INTERPRETER_FD";

pub const MAX_BYTES: u64 = 0x2000_0000;

pub const MIN_BYTES: u64 = 64;

/// The seal, shrink, grow and write seals together.
pub const REQUIRED_SEALS: i32 = 15;

/// Why a descriptor is not admitted as the original interpreter.
#[derive(Clone, Copy, Debug, PartialEq, Eq)]
pub enum AdmissionError {
    OverlapsStdio,
    SealQuery,
    NotSealed,
    NotBoundedRegularImage,
    Image(PlanError),
}

/// The text that a caller reports for an admission error of its own making.
pub open spec fn admission_text(error: AdmissionError) -> Option<&'static str> {
    match error {
        AdmissionError::OverlapsStdio => Some("original interpreter descriptor overlaps stdio"),
        AdmissionError::NotSealed => Some("original interpreter is not fully sealed"),
        AdmissionError::NotBoundedRegularImage => Some(
            "original interpreter file is not a bounded regular image",
        ),
        AdmissionError::SealQuery => None,
        AdmissionError::Image(_) => None,
    }
}

impl AdmissionError {
    pub fn text(&self) -> (text: Option<&'static str>)
        ensures
            text == admission_text(*self),
    {
        match self {
            AdmissionError::OverlapsStdio => Some("original interpreter descriptor overlaps stdio"),
            AdmissionError::NotSealed => Some("original interpreter is not fully sealed"),
            AdmissionError::NotBoundedRegularImage => Some(
                "original interpreter file is not a bounded regular image",
            ),
            AdmissionError::SealQuery => None,
            AdmissionError::Image(_) => None,
        }
    }
}

/// Refuses the standard descriptors.
pub fn admit_descriptor(descriptor: i32) -> (result: Result<(), AdmissionError>)
    ensures
        result == if descriptor < 3 {
            Err::<(), AdmissionError>(AdmissionError::OverlapsStdio)
        } else {
            Ok(())
        },
{
    if descriptor < 3 {
        Err(AdmissionError::OverlapsStdio)
    } else {
        Ok(())
    }
}

/// Judges the reply of the seal query: negative when the query failed, else the
/// seals of the file, all four of which are required.
pub fn admit_seals(seals: i32) -> (result: Result<(), AdmissionError>)
    ensures
        result == if seals < 0 {
            Err::<(), AdmissionError>(AdmissionError::SealQuery)
        } else if seals & REQUIRED_SEALS != REQUIRED_SEALS {
            Err(AdmissionError::NotSealed)
        } else {
            Ok(())
        },
{
    if seals < 0 {
        Err(AdmissionError::SealQuery)
    } else if seals & REQUIRED_SEALS != REQUIRED_SEALS {
        Err(AdmissionError::NotSealed)
    } else {
        Ok(())
    }
}

/// Judges the metadata of the file and gives its size.
pub fn admit_file(length: u64, regular: bool) -> (result: Result<usize, AdmissionError>)
    ensures
        MIN_BYTES <= length <= MAX_BYTES && regular ==> result == Ok::<usize, AdmissionError>(
            length as usize,
        ) && length <= usize::MAX,
        !(MIN_BYTES <= length <= MAX_BYTES && regular) ==> result == Err::<usize, AdmissionError>(
            AdmissionError::NotBoundedRegularImage,
        ),
{
    if MIN_BYTES <= length && length <= MAX_BYTES && regular {
        Ok(length as usize)
    } else {
        Err(AdmissionError::NotBoundedRegularImage)
    }
}

/// The sealed bytes of an admitted interpreter and where they came from.
pub struct OriginalInterpreter {
    bytes: Vec<u8>,
    device: u64,
    inode: u64,
}

impl OriginalInterpreter {
    pub closed spec fn content(&self) -> Seq<u8> {
        self.bytes@
    }

    pub closed spec fn identity(&self) -> (u64, u64) {
        (self.device, self.inode)
    }

    /// Admits bytes that were read from an admitted file.
    pub fn acquire(bytes: Vec<u8>, device: u64, inode: u64) -> (result: Result<
        Self,
        AdmissionError,
    >)
        ensures
            match image_error(bytes@) {
                Some(error) => result matches Err(actual) && actual == AdmissionError::Image(error),
                None => result matches Ok(interpreter) && interpreter.content() == bytes@
                    && interpreter.identity() == (device, inode),
            },
    {
        match InterpreterImage::parse(bytes.as_slice()) {
            Err(error) => return Err(AdmissionError::Image(error)),
            Ok(_) => {},
        }
        Ok(OriginalInterpreter { bytes, device, inode })
    }

    pub fn bytes(&self) -> (bytes: &[u8])
        ensures
            bytes@ == self.content(),
    {
        self.bytes.as_slice()
    }

    pub fn file_identity(&self) -> (identity: (u64, u64))
        ensures
            identity == self.identity(),
    {
        (self.device, self.inode)
    }

    pub fn plan<'image>(
        &'image self,
        initial: &AuxvSnapshot,
        reservation: Range<u64>,
        other_mappings: &[Range<u64>],
    ) -> (result: Result<InterpreterPlan<'image>, PlanError>)
        ensures
            match image_error(self.content()) {
                Some(error) => result matches Err(actual) && actual == error,
                None => match plan_error(
                    image_model(self.content()),
                    initial@,
                    reservation,
                    other_mappings@,
                ) {
                    Some(error) => result matches Err(actual) && actual == error,
                    None => result matches Ok(plan) && plan@ == plan_model(
                        image_model(self.content()),
                        initial@,
                        reservation,
                    ),
                },
            },
    {
        let image = InterpreterImage::parse(self.bytes.as_slice())?;
        image.plan_at_original_base(initial, reservation, other_mappings)
    }
}

} // verus!
