//! Capture settings and their validation.

use netsentry::NetSentryError;
use netsentry::capture::{CaptureSettings, DEFAULT_SNAPLEN, MAX_SNAPLEN, MIN_SNAPLEN};

#[test]
fn the_default_settings_are_valid_settings() {
    let default = CaptureSettings::default();
    assert_eq!(
        CaptureSettings::new(default.snaplen(), default.promiscuous(), default.count()).ok(),
        Some(default)
    );
}

#[test]
fn default_settings_are_accepted() {
    let settings = CaptureSettings::new(DEFAULT_SNAPLEN, true, None);
    assert!(settings.is_ok());

    let settings = CaptureSettings::new(DEFAULT_SNAPLEN, true, None).ok();
    assert_eq!(settings.map(CaptureSettings::snaplen), Some(65_535));
    assert_eq!(settings.map(CaptureSettings::promiscuous), Some(true));
    assert_eq!(settings.map(CaptureSettings::count), Some(None));
}

#[test]
fn snaplen_bounds_are_enforced() {
    for accepted in [MIN_SNAPLEN, 68, DEFAULT_SNAPLEN, MAX_SNAPLEN] {
        assert!(
            CaptureSettings::new(accepted, true, None).is_ok(),
            "snaplen {accepted} should be accepted"
        );
    }

    for rejected in [0, MAX_SNAPLEN + 1, u32::MAX] {
        let error = CaptureSettings::new(rejected, true, None).err();
        assert!(
            matches!(error, Some(NetSentryError::InvalidSnaplen { .. })),
            "snaplen {rejected} should be rejected"
        );
    }
}

#[test]
fn a_count_of_zero_is_rejected_but_none_is_not() {
    let error = CaptureSettings::new(DEFAULT_SNAPLEN, true, Some(0)).err();
    assert!(matches!(
        error,
        Some(NetSentryError::InvalidCount { value: 0 })
    ));

    assert!(CaptureSettings::new(DEFAULT_SNAPLEN, true, Some(1)).is_ok());
    assert!(CaptureSettings::new(DEFAULT_SNAPLEN, true, Some(u64::MAX)).is_ok());
    assert!(CaptureSettings::new(DEFAULT_SNAPLEN, true, None).is_ok());
}
