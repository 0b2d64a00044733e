//! The failures that enrollment and verification report.
use vstd::prelude::*;
use crate::illumination::Brightness;
use crate::similarity::DimensionMismatch;

verus! {

/// The capture device could not be opened or could not deliver a frame.
#[derive(Debug)]
pub struct DeviceError {
    pub message: String,
}

/// Preprocessing or inference failed on one frame.
#[derive(Debug)]
pub struct ExtractionError {
    pub message: String,
}

/// Why a verification run ended without a yes-or-no answer.
#[derive(Debug)]
pub enum VerifyError {
    /// No reference is stored for the identity in the active mode.
    NotEnrolled,
    /// The capture device failed; the run stops at once.
    Device(DeviceError),
    /// Every attempt of the run failed in the extractor; this is the last failure.
    Extraction(ExtractionError),
    /// The probe and the reference differ in dimensionality.
    Dimension(DimensionMismatch),
}

/// Why an enrollment run stored nothing.
#[derive(Debug)]
pub enum EnrollmentError {
    /// No frame was bright enough within the attempt budget.
    Failed { last_brightness: Brightness, required_brightness: u32 },
    /// The capture device failed; the run stops at once.
    Device(DeviceError),
    /// Every attempt of the run failed in the extractor; this is the last failure.
    Extraction(ExtractionError),
}

} // verus!
