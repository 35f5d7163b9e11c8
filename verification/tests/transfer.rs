use alter_sendme::transfer::{
    max_upload_rate_from_mib, receive_cache_ttl_seconds, PreferenceError, MEBIBYTE,
};

#[test]
fn upload_rate_preference_maps_to_sendmer_bytes_per_second() {
    assert_eq!(
        max_upload_rate_from_mib(None).expect("unlimited rate"),
        None
    );
    assert_eq!(
        max_upload_rate_from_mib(Some(25))
            .expect("valid rate")
            .expect("configured rate")
            .get(),
        25 * MEBIBYTE
    );
    assert!(max_upload_rate_from_mib(Some(0)).is_err());
    assert!(max_upload_rate_from_mib(Some(u64::MAX)).is_err());
}

#[test]
fn upload_rate_errors_name_their_cause() {
    assert_eq!(
        max_upload_rate_from_mib(Some(0)),
        Err(PreferenceError::UploadRateZero)
    );
    assert_eq!(
        max_upload_rate_from_mib(Some(u64::MAX)),
        Err(PreferenceError::UploadRateTooLarge)
    );
    assert_eq!(
        PreferenceError::UploadRateZero.message(),
        "upload rate must be greater than zero"
    );
    assert_eq!(
        PreferenceError::UploadRateTooLarge.message(),
        "upload rate is too large"
    );
}

#[test]
fn upload_rate_accepts_the_largest_representable_limit() {
    let largest = u64::MAX / MEBIBYTE;
    assert_eq!(
        max_upload_rate_from_mib(Some(largest))
            .expect("largest rate")
            .expect("configured")
            .get(),
        largest * MEBIBYTE
    );
    assert!(max_upload_rate_from_mib(Some(largest + 1)).is_err());
    assert_eq!(
        max_upload_rate_from_mib(Some(1)).unwrap().unwrap().get(),
        1_048_576
    );
}

#[test]
fn receive_cache_retention_maps_days_to_seconds() {
    assert_eq!(receive_cache_ttl_seconds(false, u64::MAX), Ok(None));
    assert_eq!(receive_cache_ttl_seconds(true, 30), Ok(Some(30 * 24 * 60 * 60)));
    assert_eq!(receive_cache_ttl_seconds(true, 7), Ok(Some(604_800)));
    assert_eq!(receive_cache_ttl_seconds(true, 0), Ok(Some(0)));
    assert_eq!(
        receive_cache_ttl_seconds(true, u64::MAX),
        Err(PreferenceError::CacheRetentionTooLarge)
    );
    assert_eq!(
        PreferenceError::CacheRetentionTooLarge.message(),
        "receive cache retention is too large"
    );
}
