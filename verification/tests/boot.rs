use mu_pi::boot_mode::Mode;

#[test]
fn test_try_from() {
    assert_eq!(Mode::try_from(0x0).unwrap(), Mode::BootWithFullConfiguration);
    assert_eq!(Mode::try_from(0x1).unwrap(), Mode::BootWithMinimalConfiguration);
    assert_eq!(Mode::try_from(0x2).unwrap(), Mode::BootAssumingNoConfigurationChanges);
    assert_eq!(Mode::try_from(0x3).unwrap(), Mode::BootWithFullConfigurationPlusDiagnostic);
    assert_eq!(Mode::try_from(0x4).unwrap(), Mode::BootWithDefaultSettings);
    assert_eq!(Mode::try_from(0x5).unwrap(), Mode::BootOnS4Resume);
    assert_eq!(Mode::try_from(0x6).unwrap(), Mode::BootOnS5Resume);
    assert_eq!(Mode::try_from(0x7).unwrap(), Mode::BootWithMfgModeSettings);
    assert_eq!(Mode::try_from(0x10).unwrap(), Mode::BootOnS2Resume);
    assert_eq!(Mode::try_from(0x11).unwrap(), Mode::BootOnS3Resume);
    assert_eq!(Mode::try_from(0x12).unwrap(), Mode::BootOnFlashUpdate);
    assert_eq!(Mode::try_from(0x20).unwrap(), Mode::BootInRecoveryMode);
    assert!(Mode::try_from(999).is_err());
}

#[test]
fn test_invalid_values() {
    let invalid_values = [
        0x8, 0x9, 0xA, 0xB, 0xC, 0xD, 0xE, 0xF, 0x13, 0x14, 0x15, 0x16, 0x17, 0x18, 0x19, 0x1A,
        0x1B, 0x1C, 0x1D, 0x1E, 0x1F, 0x21,
    ];
    for &value in &invalid_values {
        assert!(Mode::try_from(value).is_err());
    }
}

#[test]
fn raw_numbers_round_trip() {
    let modes = [
        Mode::BootWithFullConfiguration,
        Mode::BootWithMinimalConfiguration,
        Mode::BootAssumingNoConfigurationChanges,
        Mode::BootWithFullConfigurationPlusDiagnostic,
        Mode::BootWithDefaultSettings,
        Mode::BootOnS4Resume,
        Mode::BootOnS5Resume,
        Mode::BootWithMfgModeSettings,
        Mode::BootOnS2Resume,
        Mode::BootOnS3Resume,
        Mode::BootOnFlashUpdate,
        Mode::BootInRecoveryMode,
    ];
    for mode in modes {
        assert_eq!(Mode::try_from(mode.raw()), Ok(mode));
    }
    assert_eq!(Mode::BootInRecoveryMode.raw(), 0x20);
    assert_eq!(Mode::BootOnS3Resume.name(), "Boot On S3 Resume");
}
