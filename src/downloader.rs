//! Progress bookkeeping of the engine download.
use vstd::prelude::*;

verus! {

/// Fetches and unpacks an engine build.
pub struct FfmpegDownloader;

/// Stage of a download.
#[derive(Clone, Debug, PartialEq)]
pub enum DownloadStatus {
    Preparing,
    Downloading,
    Extracting,
    Completed,
    /// Failed, with the reason.
    Error(String),
}

impl FfmpegDownloader {
    /// Share of the archive received, in ten-thousandths; 0 while the total
    /// size is unknown (or zero), and at most 10000.
    pub fn download_fraction(downloaded: u64, total: Option<u64>) -> (r: u64)
        ensures
            r == match total {
                Some(t) => if t > 0 {
                    if downloaded as nat * 10000 / t as nat > 10000 {
                        10000
                    } else {
                        downloaded as nat * 10000 / t as nat
                    }
                } else {
                    0
                },
                None => 0,
            },
    {
        match total {
            Some(t) => if t > 0 {
                let q = downloaded as u128 * 10000 / t as u128;
                if q > 10000 {
                    10000
                } else {
                    q as u64
                }
            } else {
                0
            },
            None => 0,
        }
    }
}

} // verus!
