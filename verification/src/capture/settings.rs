//! Capture options, and the rules for what counts as a valid one.
//!
//! Validation lives here rather than in the argument parser so that there is
//! exactly one definition of what NetSentry accepts, and so it can be checked
//! without going through a command line.

use vstd::prelude::*;

use crate::error::NetSentryError;

verus! {

/// Smallest snapshot length that is worth asking for.
pub const MIN_SNAPLEN: u32 = 1;

/// Largest snapshot length libpcap accepts (`MAXIMUM_SNAPLEN`).
pub const MAX_SNAPLEN: u32 = 262_144;

/// Default snapshot length: large enough for any normal Ethernet frame.
pub const DEFAULT_SNAPLEN: u32 = 65_535;

/// Validated options for a capture run.
#[derive(Debug, Clone, Copy, PartialEq, Eq)]
pub struct CaptureSettings {
    snaplen: u32,
    promiscuous: bool,
    count: Option<u64>,
}

/// Whether a snapshot length, promiscuity and packet limit form valid settings.
pub open spec fn settings_valid(snaplen: u32, count: Option<u64>) -> bool {
    MIN_SNAPLEN <= snaplen <= MAX_SNAPLEN && count != Some(0u64)
}

impl CaptureSettings {
    /// Snapshot length in bytes.
    pub closed spec fn spec_snaplen(self) -> u32 {
        self.snaplen
    }

    /// Whether the interface is put into promiscuous mode.
    pub closed spec fn spec_promiscuous(self) -> bool {
        self.promiscuous
    }

    /// Packet limit, or `None` to run until interrupted.
    pub closed spec fn spec_count(self) -> Option<u64> {
        self.count
    }

    /// Every settings value that exists passed validation.
    pub closed spec fn well_formed(self) -> bool {
        settings_valid(self.snaplen, self.count)
    }

    /// Validates raw user input into settings a capture can be opened with.
    ///
    /// Fails with `InvalidSnaplen` when the snapshot length is outside
    /// `MIN_SNAPLEN..=MAX_SNAPLEN`, and otherwise with `InvalidCount` when the
    /// packet limit is zero.
    pub fn new(snaplen: u32, promiscuous: bool, count: Option<u64>) -> (settings: Result<Self, NetSentryError>)
        ensures
            !(MIN_SNAPLEN <= snaplen <= MAX_SNAPLEN) ==> settings == Err::<Self, NetSentryError>(
                NetSentryError::InvalidSnaplen { value: snaplen, min: MIN_SNAPLEN, max: MAX_SNAPLEN },
            ),
            MIN_SNAPLEN <= snaplen <= MAX_SNAPLEN && count == Some(0u64) ==> settings == Err::<
                Self,
                NetSentryError,
            >(NetSentryError::InvalidCount { value: 0 }),
            settings_valid(snaplen, count) ==> (settings matches Ok(s) && s.spec_snaplen() == snaplen
                && s.spec_promiscuous() == promiscuous && s.spec_count() == count && s.well_formed()),
    {
        if snaplen < MIN_SNAPLEN || snaplen > MAX_SNAPLEN {
            return Err(
                NetSentryError::InvalidSnaplen { value: snaplen, min: MIN_SNAPLEN, max: MAX_SNAPLEN },
            );
        }
        if let Some(0) = count {
            return Err(NetSentryError::InvalidCount { value: 0 });
        }
        Ok(Self { snaplen, promiscuous, count })
    }

    /// Snapshot length in bytes.
    pub fn snaplen(self) -> (snaplen: u32)
        ensures
            snaplen == self.spec_snaplen(),
    {
        self.snaplen
    }

    /// Whether the interface is put into promiscuous mode.
    pub fn promiscuous(self) -> (promiscuous: bool)
        ensures
            promiscuous == self.spec_promiscuous(),
    {
        self.promiscuous
    }

    /// Packet limit, or `None` to run until interrupted.
    pub fn count(self) -> (count: Option<u64>)
        ensures
            count == self.spec_count(),
    {
        self.count
    }
}

impl Default for CaptureSettings {
    /// Whole frames, promiscuous, no packet limit.
    fn default() -> (settings: Self)
        ensures
            settings.spec_snaplen() == DEFAULT_SNAPLEN,
            settings.spec_promiscuous(),
            settings.spec_count() is None,
            settings.well_formed(),
    {
        Self { snaplen: DEFAULT_SNAPLEN, promiscuous: true, count: None }
    }
}

/// The default settings pass validation: handing their own values back to
/// `CaptureSettings::new` succeeds, with the same values.
pub proof fn law_default_settings_are_valid()
    ensures
        settings_valid(DEFAULT_SNAPLEN, None),
{
}

} // verus!
