//! The boot mode that the hand-off block list reports.

use crate::serializable::hex_format::{hex_text, to_hex};
use vstd::prelude::*;
use vstd::string::StringExecFns;

verus! {

/// The circumstances under which the system boots. The mode is a single
/// 32-bit number that the earlier boot phase settles and hands on.
#[derive(Copy, Clone, Debug, PartialEq, Eq, Structural)]
pub enum Mode {
    /// The basic boot path with a full configuration.
    BootWithFullConfiguration,
    /// Only as much hardware as the boot needs is initialised.
    BootWithMinimalConfiguration,
    /// The configuration of the last boot is used unchanged.
    BootAssumingNoConfigurationChanges,
    /// A full configuration, and diagnostics are run.
    BootWithFullConfigurationPlusDiagnostic,
    /// Known safe values are used to program the hardware.
    BootWithDefaultSettings,
    /// Resume from hibernation.
    BootOnS4Resume,
    /// Power on from soft off.
    BootOnS5Resume,
    /// Boot in a factory or manufacturing environment.
    BootWithMfgModeSettings,
    /// Resume from sleep.
    BootOnS2Resume,
    /// Resume from suspend to memory.
    BootOnS3Resume,
    /// Restart in order to update the flash.
    BootOnFlashUpdate,
    /// Recovery from an earlier failure to boot.
    BootInRecoveryMode,
}

impl Mode {
    /// The number that stands for the mode.
    pub open spec fn spec_raw(self) -> u32 {
        match self {
            Mode::BootWithFullConfiguration => 0x00,
            Mode::BootWithMinimalConfiguration => 0x01,
            Mode::BootAssumingNoConfigurationChanges => 0x02,
            Mode::BootWithFullConfigurationPlusDiagnostic => 0x03,
            Mode::BootWithDefaultSettings => 0x04,
            Mode::BootOnS4Resume => 0x05,
            Mode::BootOnS5Resume => 0x06,
            Mode::BootWithMfgModeSettings => 0x07,
            Mode::BootOnS2Resume => 0x10,
            Mode::BootOnS3Resume => 0x11,
            Mode::BootOnFlashUpdate => 0x12,
            Mode::BootInRecoveryMode => 0x20,
        }
    }

    /// The number that stands for the mode.
    #[verifier::when_used_as_spec(spec_raw)]
    pub fn raw(self) -> (value: u32)
        ensures
            value == self.spec_raw(),
    {
        match self {
            Mode::BootWithFullConfiguration => 0x00,
            Mode::BootWithMinimalConfiguration => 0x01,
            Mode::BootAssumingNoConfigurationChanges => 0x02,
            Mode::BootWithFullConfigurationPlusDiagnostic => 0x03,
            Mode::BootWithDefaultSettings => 0x04,
            Mode::BootOnS4Resume => 0x05,
            Mode::BootOnS5Resume => 0x06,
            Mode::BootWithMfgModeSettings => 0x07,
            Mode::BootOnS2Resume => 0x10,
            Mode::BootOnS3Resume => 0x11,
            Mode::BootOnFlashUpdate => 0x12,
            Mode::BootInRecoveryMode => 0x20,
        }
    }

    /// The mode that `value` stands for, if it stands for one.
    pub open spec fn of_raw(value: u32) -> Option<Mode> {
        if value == 0x00 {
            Some(Mode::BootWithFullConfiguration)
        } else if value == 0x01 {
            Some(Mode::BootWithMinimalConfiguration)
        } else if value == 0x02 {
            Some(Mode::BootAssumingNoConfigurationChanges)
        } else if value == 0x03 {
            Some(Mode::BootWithFullConfigurationPlusDiagnostic)
        } else if value == 0x04 {
            Some(Mode::BootWithDefaultSettings)
        } else if value == 0x05 {
            Some(Mode::BootOnS4Resume)
        } else if value == 0x06 {
            Some(Mode::BootOnS5Resume)
        } else if value == 0x07 {
            Some(Mode::BootWithMfgModeSettings)
        } else if value == 0x10 {
            Some(Mode::BootOnS2Resume)
        } else if value == 0x11 {
            Some(Mode::BootOnS3Resume)
        } else if value == 0x12 {
            Some(Mode::BootOnFlashUpdate)
        } else if value == 0x20 {
            Some(Mode::BootInRecoveryMode)
        } else {
            None
        }
    }

    /// The mode that `value` stands for. The conversion fails for every
    /// number that stands for no mode.
    pub fn try_from(value: u32) -> (result: Result<Mode, ()>)
        ensures
            match Mode::of_raw(value) {
                Some(mode) => result == Ok::<Mode, ()>(mode),
                None => result is Err,
            },
            result matches Ok(mode) ==> mode.spec_raw() == value,
            result is Err ==> forall|mode: Mode| mode.spec_raw() != value,
    {
        match value {
            0x00 => Ok(Mode::BootWithFullConfiguration),
            0x01 => Ok(Mode::BootWithMinimalConfiguration),
            0x02 => Ok(Mode::BootAssumingNoConfigurationChanges),
            0x03 => Ok(Mode::BootWithFullConfigurationPlusDiagnostic),
            0x04 => Ok(Mode::BootWithDefaultSettings),
            0x05 => Ok(Mode::BootOnS4Resume),
            0x06 => Ok(Mode::BootOnS5Resume),
            0x07 => Ok(Mode::BootWithMfgModeSettings),
            0x10 => Ok(Mode::BootOnS2Resume),
            0x11 => Ok(Mode::BootOnS3Resume),
            0x12 => Ok(Mode::BootOnFlashUpdate),
            0x20 => Ok(Mode::BootInRecoveryMode),
            _ => Err(()),
        }
    }

    /// The mode in words.
    pub fn name(self) -> (name: &'static str)
        ensures
            name@ == self.spec_name(),
    {
        match self {
            Mode::BootWithFullConfiguration => "Boot With Full Configuration",
            Mode::BootWithMinimalConfiguration => "Boot With Minimal Configuration",
            Mode::BootAssumingNoConfigurationChanges => "Boot Assuming No Configuration Changes",
            Mode::BootWithFullConfigurationPlusDiagnostic => {
                "Boot With Full Configuration Plus Diagnostic"
            },
            Mode::BootWithDefaultSettings => "Boot With Default Settings",
            Mode::BootOnS4Resume => "Boot On S4 Resume",
            Mode::BootOnS5Resume => "Boot On S5 Resume",
            Mode::BootWithMfgModeSettings => "Boot With Mfg Mode Settings",
            Mode::BootOnS2Resume => "Boot On S2 Resume",
            Mode::BootOnS3Resume => "Boot On S3 Resume",
            Mode::BootOnFlashUpdate => "Boot On Flash Update",
            Mode::BootInRecoveryMode => "Boot In Recovery Mode",
        }
    }

    /// The mode as text: its name, and its number in hexadecimal between
    /// brackets.
    pub open spec fn spec_to_string(self) -> Seq<char> {
        self.spec_name() + seq![' ', '('] + hex_text(self.spec_raw() as nat) + seq![')']
    }

    /// The mode as text, such as `Boot On S2 Resume (0x10)`.
    pub fn to_string(&self) -> (text: String)
        ensures
            text@ == self.spec_to_string(),
    {
        proof {
            reveal_strlit(" (");
            reveal_strlit(")");
        }
        let mut text = String::from_str(self.name());
        text.append(" (");
        text.append(to_hex(self.raw() as u64).as_str());
        text.append(")");
        assert(text@ =~= self.spec_to_string());
        text
    }

    /// The mode in words.
    pub open spec fn spec_name(self) -> Seq<char> {
        match self {
            Mode::BootWithFullConfiguration => "Boot With Full Configuration"@,
            Mode::BootWithMinimalConfiguration => "Boot With Minimal Configuration"@,
            Mode::BootAssumingNoConfigurationChanges => "Boot Assuming No Configuration Changes"@,
            Mode::BootWithFullConfigurationPlusDiagnostic => {
                "Boot With Full Configuration Plus Diagnostic"@
            },
            Mode::BootWithDefaultSettings => "Boot With Default Settings"@,
            Mode::BootOnS4Resume => "Boot On S4 Resume"@,
            Mode::BootOnS5Resume => "Boot On S5 Resume"@,
            Mode::BootWithMfgModeSettings => "Boot With Mfg Mode Settings"@,
            Mode::BootOnS2Resume => "Boot On S2 Resume"@,
            Mode::BootOnS3Resume => "Boot On S3 Resume"@,
            Mode::BootOnFlashUpdate => "Boot On Flash Update"@,
            Mode::BootInRecoveryMode => "Boot In Recovery Mode"@,
        }
    }
}

/// Two modes with the same number are the same mode.
pub proof fn lemma_mode_numbers_are_distinct(a: Mode, b: Mode)
    requires
        a.spec_raw() == b.spec_raw(),
    ensures
        a == b,
{
}

/// Converting a mode to its number and back gives the mode.
pub proof fn lemma_mode_round_trip(mode: Mode)
    ensures
        Mode::of_raw(mode.spec_raw()) == Some(mode),
{
}

} // verus!
