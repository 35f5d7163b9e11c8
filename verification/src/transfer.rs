//! Maps desktop transfer preferences to the exact values the transport core accepts.

use vstd::prelude::*;

verus! {

/// One mebibyte in bytes.
pub const MEBIBYTE: u64 = 1048576;

/// Seconds in one day.
pub const SECONDS_PER_DAY: u64 = 86400;

/// A positive upload limit in bytes per second, as the transport's send options take it.
#[derive(Clone, Copy, Debug, PartialEq, Eq)]
pub struct UploadRate {
    bytes_per_sec: u64,
}

impl View for UploadRate {
    type V = u64;

    closed spec fn view(&self) -> u64 {
        self.bytes_per_sec
    }
}

impl UploadRate {
    #[verifier::type_invariant]
    spec fn positive(self) -> bool {
        self.bytes_per_sec != 0
    }

    /// The limit in bytes per second; never zero.
    pub fn get(&self) -> (res: u64)
        ensures
            res == self@,
            res != 0,
    {
        proof {
            use_type_invariant(self);
        }
        self.bytes_per_sec
    }
}

/// Why a transfer preference cannot be handed to the transport core.
#[derive(Clone, Copy, Debug, PartialEq, Eq)]
pub enum PreferenceError {
    /// The upload rate in bytes per second does not fit in 64 bits.
    UploadRateTooLarge,
    /// An upload rate of zero was requested.
    UploadRateZero,
    /// The receive-cache retention in seconds does not fit in 64 bits.
    CacheRetentionTooLarge,
}

impl PreferenceError {
    /// The user-facing message of this error.
    pub fn message(&self) -> (res: &'static str)
        ensures
            res == (match self {
                PreferenceError::UploadRateTooLarge => "upload rate is too large",
                PreferenceError::UploadRateZero => "upload rate must be greater than zero",
                PreferenceError::CacheRetentionTooLarge => "receive cache retention is too large",
            }),
    {
        match self {
            PreferenceError::UploadRateTooLarge => "upload rate is too large",
            PreferenceError::UploadRateZero => "upload rate must be greater than zero",
            PreferenceError::CacheRetentionTooLarge => "receive cache retention is too large",
        }
    }
}

/// Converts the desktop client's MiB/s preference into the transport's exact bytes/s value.
///
/// `None` keeps the sender unrestricted. Zero and overflowing values are rejected.
pub fn max_upload_rate_from_mib(rate_mib_per_sec: Option<u64>) -> (res: Result<
    Option<UploadRate>,
    PreferenceError,
>)
    ensures
        match rate_mib_per_sec {
            None => res == Ok::<Option<UploadRate>, PreferenceError>(None),
            Some(rate) => {
                if rate * MEBIBYTE > u64::MAX {
                    res == Err::<Option<UploadRate>, PreferenceError>(
                        PreferenceError::UploadRateTooLarge,
                    )
                } else if rate == 0 {
                    res == Err::<Option<UploadRate>, PreferenceError>(
                        PreferenceError::UploadRateZero,
                    )
                } else {
                    res matches Ok(Some(r)) && r@ == rate * MEBIBYTE
                }
            },
        },
{
    match rate_mib_per_sec {
        None => Ok(None),
        Some(rate) => {
            match rate.checked_mul(MEBIBYTE) {
                None => Err(PreferenceError::UploadRateTooLarge),
                Some(bytes_per_sec) => {
                    if bytes_per_sec == 0 {
                        Err(PreferenceError::UploadRateZero)
                    } else {
                        Ok(Some(UploadRate { bytes_per_sec }))
                    }
                },
            }
        },
    }
}

/// Maps the receive-cache preference to the retention, in seconds, that new
/// cache entries record.
///
/// A disabled cache gives `Ok(None)` whatever the retention; an enabled one gives
/// the retention in seconds, or an error where that overflows 64 bits.
pub fn receive_cache_ttl_seconds(enabled: bool, ttl_days: u64) -> (res: Result<
    Option<u64>,
    PreferenceError,
>)
    ensures
        !enabled ==> res == Ok::<Option<u64>, PreferenceError>(None),
        enabled && ttl_days * SECONDS_PER_DAY <= u64::MAX ==> res == Ok::<
            Option<u64>,
            PreferenceError,
        >(Some((ttl_days * SECONDS_PER_DAY) as u64)),
        enabled && ttl_days * SECONDS_PER_DAY > u64::MAX ==> res == Err::<
            Option<u64>,
            PreferenceError,
        >(PreferenceError::CacheRetentionTooLarge),
{
    if !enabled {
        return Ok(None);
    }
    match ttl_days.checked_mul(SECONDS_PER_DAY) {
        Some(seconds) => Ok(Some(seconds)),
        None => Err(PreferenceError::CacheRetentionTooLarge),
    }
}

} // verus!
