//! Classifying the GPU vendor from the captured PCI listing.

use vstd::prelude::*;
use vstd::utf8::{decode_utf8, valid_utf8};

use crate::text::{contains_seq, contains_text, decode_output};
use crate::types::{GpuVendor, MonitorError};

verus! {

/// What classification returns for a captured PCI listing: the bytes must be
/// valid text, and the vendor is the first of Nvidia, Amd, Intel whose marker
/// occurs in it — in that fixed priority order, not the order of the text.
pub open spec fn spec_classify(bytes: Seq<u8>) -> Result<GpuVendor, MonitorError> {
    if !valid_utf8(bytes) {
        Err(MonitorError::InvalidOutputEncoding)
    } else if contains_seq(decode_utf8(bytes), "NVIDIA"@) {
        Ok(GpuVendor::Nvidia)
    } else if contains_seq(decode_utf8(bytes), "AMD"@) {
        Ok(GpuVendor::Amd)
    } else if contains_seq(decode_utf8(bytes), "Intel"@) {
        Ok(GpuVendor::Intel)
    } else {
        Err(MonitorError::UnsupportedHardware)
    }
}

/// Classifies the GPU vendor from the bytes a PCI enumeration printed.
pub fn classify_gpu(pci_listing: &[u8]) -> (r: Result<GpuVendor, MonitorError>)
    ensures
        r == spec_classify(pci_listing@),
{
    match decode_output(pci_listing) {
        None => Err(MonitorError::InvalidOutputEncoding),
        Some(text) => {
            if contains_text(text.as_str(), "NVIDIA") {
                Ok(GpuVendor::Nvidia)
            } else if contains_text(text.as_str(), "AMD") {
                Ok(GpuVendor::Amd)
            } else if contains_text(text.as_str(), "Intel") {
                Ok(GpuVendor::Intel)
            } else {
                Err(MonitorError::UnsupportedHardware)
            }
        },
    }
}

/// Vendor priority is fixed: text holding the Nvidia marker classifies as
/// Nvidia even when other markers occur too, the Amd marker wins over Intel,
/// and text with no marker is unsupported hardware.
pub proof fn lemma_classify_priority(bytes: Seq<u8>)
    requires
        valid_utf8(bytes),
    ensures
        contains_seq(decode_utf8(bytes), "NVIDIA"@) ==> spec_classify(bytes) == Ok::<
            GpuVendor,
            MonitorError,
        >(GpuVendor::Nvidia),
        !contains_seq(decode_utf8(bytes), "NVIDIA"@) && contains_seq(decode_utf8(bytes), "AMD"@)
            ==> spec_classify(bytes) == Ok::<GpuVendor, MonitorError>(GpuVendor::Amd),
        !contains_seq(decode_utf8(bytes), "NVIDIA"@) && !contains_seq(decode_utf8(bytes), "AMD"@)
            && contains_seq(decode_utf8(bytes), "Intel"@) ==> spec_classify(bytes) == Ok::<
            GpuVendor,
            MonitorError,
        >(GpuVendor::Intel),
        !contains_seq(decode_utf8(bytes), "NVIDIA"@) && !contains_seq(decode_utf8(bytes), "AMD"@)
            && !contains_seq(decode_utf8(bytes), "Intel"@) ==> spec_classify(bytes) == Err::<
            GpuVendor,
            MonitorError,
        >(MonitorError::UnsupportedHardware),
{
}

} // verus!
