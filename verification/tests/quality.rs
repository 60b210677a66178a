use music_tagger::quality::{classify_quality, estimate_bit_rate, Quality};

#[test]
fn lossy_files_are_hq_whatever_the_resolution() {
    assert_eq!(classify_quality(false, Some(192_000), Some(24)), Quality::HQ);
    assert_eq!(classify_quality(false, None, None), Quality::HQ);
    assert_eq!(classify_quality(false, Some(44_100), Some(16)), Quality::HQ);
}

#[test]
fn lossless_above_cd_resolution_is_hires() {
    assert_eq!(classify_quality(true, Some(48_000), Some(24)), Quality::HiRes);
    assert_eq!(classify_quality(true, Some(44_101), Some(16)), Quality::HiRes);
}

#[test]
fn lossless_at_cd_resolution_is_sq() {
    assert_eq!(classify_quality(true, Some(44_100), Some(16)), Quality::SQ);
    assert_eq!(classify_quality(true, Some(96_000), Some(8)), Quality::SQ);
}

#[test]
fn lossless_with_unknown_resolution_is_sq() {
    assert_eq!(classify_quality(true, Some(48_000), None), Quality::SQ);
    assert_eq!(classify_quality(true, None, Some(24)), Quality::SQ);
    assert_eq!(classify_quality(true, None, None), Quality::SQ);
}

#[test]
fn bit_rate_is_estimated_from_size_and_duration() {
    assert_eq!(estimate_bit_rate(None, 1_250_000, 10_000_000_000), Some(1000));
}

#[test]
fn reported_bit_rate_is_returned_unchanged() {
    assert_eq!(estimate_bit_rate(Some(320), 1_250_000, 10_000_000_000), Some(320));
    assert_eq!(estimate_bit_rate(Some(3), 0, 0), Some(3));
}

#[test]
fn estimate_outside_the_band_is_absent() {
    // 62 500 000 bytes in ten seconds would be 50 000 kbps.
    assert_eq!(estimate_bit_rate(None, 62_500_000, 10_000_000_000), None);
    assert_eq!(estimate_bit_rate(None, 9_000, 10_000_000_000), None);
    assert_eq!(estimate_bit_rate(None, 10_000, 10_000_000_000), Some(8));
    assert_eq!(estimate_bit_rate(None, 12_500_000, 10_000_000_000), Some(10_000));
}

#[test]
fn unknown_duration_gives_no_estimate() {
    assert_eq!(estimate_bit_rate(None, 1_250_000, 0), None);
}

#[test]
fn quality_names() {
    assert_eq!(Quality::HQ.name(), "HQ");
    assert_eq!(Quality::SQ.name(), "SQ");
    assert_eq!(Quality::HiRes.name(), "HiRes");
}
