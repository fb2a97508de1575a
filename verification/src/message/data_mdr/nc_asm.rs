//! Noise-cancelling / ambient-sound-mode parameter payloads.
//!
//! Every enumeration here is byte-coded on the wire: each field contributes
//! exactly one byte (its code), in declared field order. Decoding is purely
//! positional; a byte that matches no known code is a typed error.

use vstd::prelude::*;
use vstd::slice::slice_index_get;

use crate::serializable::{DeserializeError, Serializable};

verus! {

#[derive(Clone, Copy, Debug, PartialEq, Eq, Structural)]
pub enum AsmId {
    Normal,
    Voice,
}

impl AsmId {
    /// The wire code of this value.
    pub open spec fn spec_code(self) -> u8 {
        match self {
            AsmId::Normal => 0,
            AsmId::Voice => 1,
        }
    }

    /// The value a wire byte codes for, if any.
    pub open spec fn spec_from_code(b: u8) -> Option<AsmId> {
        if b == 0 {
            Some(AsmId::Normal)
        } else if b == 1 {
            Some(AsmId::Voice)
        } else {
            None
        }
    }

    pub fn code(self) -> (b: u8)
        ensures
            b == self.spec_code(),
    {
        match self {
            AsmId::Normal => 0,
            AsmId::Voice => 1,
        }
    }

    pub fn from_code(b: u8) -> (r: Option<AsmId>)
        ensures
            r == Self::spec_from_code(b),
    {
        match b {
            0 => Some(AsmId::Normal),
            1 => Some(AsmId::Voice),
            _ => None,
        }
    }
}

#[derive(Clone, Copy, Debug, PartialEq, Eq, Structural)]
pub enum AsmOnOffValue {
    Off,
    On,
}

impl AsmOnOffValue {
    /// The wire code of this value.
    pub open spec fn spec_code(self) -> u8 {
        match self {
            AsmOnOffValue::Off => 0,
            AsmOnOffValue::On => 1,
        }
    }

    /// The value a wire byte codes for, if any.
    pub open spec fn spec_from_code(b: u8) -> Option<AsmOnOffValue> {
        if b == 0 {
            Some(AsmOnOffValue::Off)
        } else if b == 1 {
            Some(AsmOnOffValue::On)
        } else {
            None
        }
    }

    pub fn code(self) -> (b: u8)
        ensures
            b == self.spec_code(),
    {
        match self {
            AsmOnOffValue::Off => 0,
            AsmOnOffValue::On => 1,
        }
    }

    pub fn from_code(b: u8) -> (r: Option<AsmOnOffValue>)
        ensures
            r == Self::spec_from_code(b),
    {
        match b {
            0 => Some(AsmOnOffValue::Off),
            1 => Some(AsmOnOffValue::On),
            _ => None,
        }
    }
}

#[derive(Clone, Copy, Debug, PartialEq, Eq, Structural)]
pub enum AsmSettingType {
    OnOff,
    LevelAdjustment,
}

impl AsmSettingType {
    /// The wire code of this value.
    pub open spec fn spec_code(self) -> u8 {
        match self {
            AsmSettingType::OnOff => 0,
            AsmSettingType::LevelAdjustment => 1,
        }
    }

    /// The value a wire byte codes for, if any.
    pub open spec fn spec_from_code(b: u8) -> Option<AsmSettingType> {
        if b == 0 {
            Some(AsmSettingType::OnOff)
        } else if b == 1 {
            Some(AsmSettingType::LevelAdjustment)
        } else {
            None
        }
    }

    pub fn code(self) -> (b: u8)
        ensures
            b == self.spec_code(),
    {
        match self {
            AsmSettingType::OnOff => 0,
            AsmSettingType::LevelAdjustment => 1,
        }
    }

    pub fn from_code(b: u8) -> (r: Option<AsmSettingType>)
        ensures
            r == Self::spec_from_code(b),
    {
        match b {
            0 => Some(AsmSettingType::OnOff),
            1 => Some(AsmSettingType::LevelAdjustment),
            _ => None,
        }
    }
}

#[derive(Clone, Copy, Debug, PartialEq, Eq, Structural)]
pub enum NcAsmEffect {
    Off,
    On,
    AdjustmentInProgress,
    AdjustmentCompletion,
}

impl NcAsmEffect {
    /// The wire code of this value.
    pub open spec fn spec_code(self) -> u8 {
        match self {
            NcAsmEffect::Off => 0,
            NcAsmEffect::On => 1,
            NcAsmEffect::AdjustmentInProgress => 16,
            NcAsmEffect::AdjustmentCompletion => 17,
        }
    }

    /// The value a wire byte codes for, if any.
    pub open spec fn spec_from_code(b: u8) -> Option<NcAsmEffect> {
        if b == 0 {
            Some(NcAsmEffect::Off)
        } else if b == 1 {
            Some(NcAsmEffect::On)
        } else if b == 16 {
            Some(NcAsmEffect::AdjustmentInProgress)
        } else if b == 17 {
            Some(NcAsmEffect::AdjustmentCompletion)
        } else {
            None
        }
    }

    pub fn code(self) -> (b: u8)
        ensures
            b == self.spec_code(),
    {
        match self {
            NcAsmEffect::Off => 0,
            NcAsmEffect::On => 1,
            NcAsmEffect::AdjustmentInProgress => 16,
            NcAsmEffect::AdjustmentCompletion => 17,
        }
    }

    pub fn from_code(b: u8) -> (r: Option<NcAsmEffect>)
        ensures
            r == Self::spec_from_code(b),
    {
        match b {
            0 => Some(NcAsmEffect::Off),
            1 => Some(NcAsmEffect::On),
            16 => Some(NcAsmEffect::AdjustmentInProgress),
            17 => Some(NcAsmEffect::AdjustmentCompletion),
            _ => None,
        }
    }
}

#[derive(Clone, Copy, Debug, PartialEq, Eq, Structural)]
pub enum NcAsmInquiredType {
    NoUse,
    NoiseCancelling,
    NoiseCancellingAndAmbientSoundMode,
    AmbientSoundMode,
}

impl NcAsmInquiredType {
    /// The wire code of this value.
    pub open spec fn spec_code(self) -> u8 {
        match self {
            NcAsmInquiredType::NoUse => 0,
            NcAsmInquiredType::NoiseCancelling => 1,
            NcAsmInquiredType::NoiseCancellingAndAmbientSoundMode => 2,
            NcAsmInquiredType::AmbientSoundMode => 3,
        }
    }

    /// The value a wire byte codes for, if any.
    pub open spec fn spec_from_code(b: u8) -> Option<NcAsmInquiredType> {
        if b == 0 {
            Some(NcAsmInquiredType::NoUse)
        } else if b == 1 {
            Some(NcAsmInquiredType::NoiseCancelling)
        } else if b == 2 {
            Some(NcAsmInquiredType::NoiseCancellingAndAmbientSoundMode)
        } else if b == 3 {
            Some(NcAsmInquiredType::AmbientSoundMode)
        } else {
            None
        }
    }

    pub fn code(self) -> (b: u8)
        ensures
            b == self.spec_code(),
    {
        match self {
            NcAsmInquiredType::NoUse => 0,
            NcAsmInquiredType::NoiseCancelling => 1,
            NcAsmInquiredType::NoiseCancellingAndAmbientSoundMode => 2,
            NcAsmInquiredType::AmbientSoundMode => 3,
        }
    }

    pub fn from_code(b: u8) -> (r: Option<NcAsmInquiredType>)
        ensures
            r == Self::spec_from_code(b),
    {
        match b {
            0 => Some(NcAsmInquiredType::NoUse),
            1 => Some(NcAsmInquiredType::NoiseCancelling),
            2 => Some(NcAsmInquiredType::NoiseCancellingAndAmbientSoundMode),
            3 => Some(NcAsmInquiredType::AmbientSoundMode),
            _ => None,
        }
    }
}

#[derive(Clone, Copy, Debug, PartialEq, Eq, Structural)]
pub enum NcAsmSettingType {
    OnOff,
    LevelAdjustment,
    DualSingleOff,
}

impl NcAsmSettingType {
    /// The wire code of this value.
    pub open spec fn spec_code(self) -> u8 {
        match self {
            NcAsmSettingType::OnOff => 0,
            NcAsmSettingType::LevelAdjustment => 1,
            NcAsmSettingType::DualSingleOff => 2,
        }
    }

    /// The value a wire byte codes for, if any.
    pub open spec fn spec_from_code(b: u8) -> Option<NcAsmSettingType> {
        if b == 0 {
            Some(NcAsmSettingType::OnOff)
        } else if b == 1 {
            Some(NcAsmSettingType::LevelAdjustment)
        } else if b == 2 {
            Some(NcAsmSettingType::DualSingleOff)
        } else {
            None
        }
    }

    pub fn code(self) -> (b: u8)
        ensures
            b == self.spec_code(),
    {
        match self {
            NcAsmSettingType::OnOff => 0,
            NcAsmSettingType::LevelAdjustment => 1,
            NcAsmSettingType::DualSingleOff => 2,
        }
    }

    pub fn from_code(b: u8) -> (r: Option<NcAsmSettingType>)
        ensures
            r == Self::spec_from_code(b),
    {
        match b {
            0 => Some(NcAsmSettingType::OnOff),
            1 => Some(NcAsmSettingType::LevelAdjustment),
            2 => Some(NcAsmSettingType::DualSingleOff),
            _ => None,
        }
    }
}

#[derive(Clone, Copy, Debug, PartialEq, Eq, Structural)]
pub enum NcDualSingleValue {
    Off,
    Single,
    Dual,
}

impl NcDualSingleValue {
    /// The wire code of this value.
    pub open spec fn spec_code(self) -> u8 {
        match self {
            NcDualSingleValue::Off => 0,
            NcDualSingleValue::Single => 1,
            NcDualSingleValue::Dual => 2,
        }
    }

    /// The value a wire byte codes for, if any.
    pub open spec fn spec_from_code(b: u8) -> Option<NcDualSingleValue> {
        if b == 0 {
            Some(NcDualSingleValue::Off)
        } else if b == 1 {
            Some(NcDualSingleValue::Single)
        } else if b == 2 {
            Some(NcDualSingleValue::Dual)
        } else {
            None
        }
    }

    pub fn code(self) -> (b: u8)
        ensures
            b == self.spec_code(),
    {
        match self {
            NcDualSingleValue::Off => 0,
            NcDualSingleValue::Single => 1,
            NcDualSingleValue::Dual => 2,
        }
    }

    pub fn from_code(b: u8) -> (r: Option<NcDualSingleValue>)
        ensures
            r == Self::spec_from_code(b),
    {
        match b {
            0 => Some(NcDualSingleValue::Off),
            1 => Some(NcDualSingleValue::Single),
            2 => Some(NcDualSingleValue::Dual),
            _ => None,
        }
    }
}

#[derive(Clone, Copy, Debug, PartialEq, Eq, Structural)]
pub enum NcOnOffValue {
    Off,
    On,
}

impl NcOnOffValue {
    /// The wire code of this value.
    pub open spec fn spec_code(self) -> u8 {
        match self {
            NcOnOffValue::Off => 0,
            NcOnOffValue::On => 1,
        }
    }

    /// The value a wire byte codes for, if any.
    pub open spec fn spec_from_code(b: u8) -> Option<NcOnOffValue> {
        if b == 0 {
            Some(NcOnOffValue::Off)
        } else if b == 1 {
            Some(NcOnOffValue::On)
        } else {
            None
        }
    }

    pub fn code(self) -> (b: u8)
        ensures
            b == self.spec_code(),
    {
        match self {
            NcOnOffValue::Off => 0,
            NcOnOffValue::On => 1,
        }
    }

    pub fn from_code(b: u8) -> (r: Option<NcOnOffValue>)
        ensures
            r == Self::spec_from_code(b),
    {
        match b {
            0 => Some(NcOnOffValue::Off),
            1 => Some(NcOnOffValue::On),
            _ => None,
        }
    }
}

#[derive(Clone, Copy, Debug, PartialEq, Eq, Structural)]
pub enum NcSettingType {
    OnOff,
    LevelAdjustment,
}

impl NcSettingType {
    /// The wire code of this value.
    pub open spec fn spec_code(self) -> u8 {
        match self {
            NcSettingType::OnOff => 0,
            NcSettingType::LevelAdjustment => 1,
        }
    }

    /// The value a wire byte codes for, if any.
    pub open spec fn spec_from_code(b: u8) -> Option<NcSettingType> {
        if b == 0 {
            Some(NcSettingType::OnOff)
        } else if b == 1 {
            Some(NcSettingType::LevelAdjustment)
        } else {
            None
        }
    }

    pub fn code(self) -> (b: u8)
        ensures
            b == self.spec_code(),
    {
        match self {
            NcSettingType::OnOff => 0,
            NcSettingType::LevelAdjustment => 1,
        }
    }

    pub fn from_code(b: u8) -> (r: Option<NcSettingType>)
        ensures
            r == Self::spec_from_code(b),
    {
        match b {
            0 => Some(NcSettingType::OnOff),
            1 => Some(NcSettingType::LevelAdjustment),
            _ => None,
        }
    }
}

#[derive(Clone, Copy, Debug, PartialEq, Eq, Structural)]
pub enum NcSettingValue {
    Off,
    On,
}

impl NcSettingValue {
    /// The wire code of this value.
    pub open spec fn spec_code(self) -> u8 {
        match self {
            NcSettingValue::Off => 0,
            NcSettingValue::On => 1,
        }
    }

    /// The value a wire byte codes for, if any.
    pub open spec fn spec_from_code(b: u8) -> Option<NcSettingValue> {
        if b == 0 {
            Some(NcSettingValue::Off)
        } else if b == 1 {
            Some(NcSettingValue::On)
        } else {
            None
        }
    }

    pub fn code(self) -> (b: u8)
        ensures
            b == self.spec_code(),
    {
        match self {
            NcSettingValue::Off => 0,
            NcSettingValue::On => 1,
        }
    }

    pub fn from_code(b: u8) -> (r: Option<NcSettingValue>)
        ensures
            r == Self::spec_from_code(b),
    {
        match b {
            0 => Some(NcSettingValue::Off),
            1 => Some(NcSettingValue::On),
            _ => None,
        }
    }
}

/// Request to set the noise-cancelling / ambient-sound-mode state.
#[derive(Clone, Copy, Debug, PartialEq, Eq, Structural)]
pub struct NcAsmSetParam {
    pub nc_asm_inquired_type: NcAsmInquiredType,
    pub nc_asm_effect: NcAsmEffect,
    pub nc_asm_setting_type: NcAsmSettingType,
    pub nc_dual_single_value: NcDualSingleValue,
    pub asm_setting_type: AsmSettingType,
    pub asm_id: AsmId,
    pub asm_level: u8,
}

/// Notification of the current noise-cancelling / ambient-sound-mode state.
///
/// Same seven-byte shape as [`NcAsmSetParam`], but sent by the device.
#[derive(Clone, Copy, Debug, PartialEq, Eq, Structural)]
pub struct NcAsmNtfyParam {
    pub nc_asm_inquired_type: NcAsmInquiredType,
    pub nc_asm_effect: NcAsmEffect,
    pub nc_asm_setting_type: NcAsmSettingType,
    pub nc_dual_single_value: NcDualSingleValue,
    pub asm_setting_type: AsmSettingType,
    pub asm_id: AsmId,
    pub asm_level: u8,
}

impl NcAsmSetParam {
    /// The seven wire bytes of this parameter block, in declared field order.
    pub open spec fn spec_serialize(self) -> Seq<u8> {
        seq![
            self.nc_asm_inquired_type.spec_code(),
            self.nc_asm_effect.spec_code(),
            self.nc_asm_setting_type.spec_code(),
            self.nc_dual_single_value.spec_code(),
            self.asm_setting_type.spec_code(),
            self.asm_id.spec_code(),
            self.asm_level,
        ]
    }

    /// Positional decode of the seven wire bytes; extra trailing bytes are
    /// ignored, a missing byte or an unknown code is a typed error.
    pub open spec fn spec_deserialize(s: Seq<u8>) -> Result<NcAsmSetParam, DeserializeError> {
        if s.len() < 7 {
            Err(DeserializeError::TooShort)
        } else if NcAsmInquiredType::spec_from_code(s[0]) is None {
            Err(DeserializeError::UnrecognizedDiscriminant(s[0]))
        } else if NcAsmEffect::spec_from_code(s[1]) is None {
            Err(DeserializeError::UnrecognizedDiscriminant(s[1]))
        } else if NcAsmSettingType::spec_from_code(s[2]) is None {
            Err(DeserializeError::UnrecognizedDiscriminant(s[2]))
        } else if NcDualSingleValue::spec_from_code(s[3]) is None {
            Err(DeserializeError::UnrecognizedDiscriminant(s[3]))
        } else if AsmSettingType::spec_from_code(s[4]) is None {
            Err(DeserializeError::UnrecognizedDiscriminant(s[4]))
        } else if AsmId::spec_from_code(s[5]) is None {
            Err(DeserializeError::UnrecognizedDiscriminant(s[5]))
        } else {
            Ok(
                NcAsmSetParam {
                    nc_asm_inquired_type: NcAsmInquiredType::spec_from_code(s[0])->Some_0,
                    nc_asm_effect: NcAsmEffect::spec_from_code(s[1])->Some_0,
                    nc_asm_setting_type: NcAsmSettingType::spec_from_code(s[2])->Some_0,
                    nc_dual_single_value: NcDualSingleValue::spec_from_code(s[3])->Some_0,
                    asm_setting_type: AsmSettingType::spec_from_code(s[4])->Some_0,
                    asm_id: AsmId::spec_from_code(s[5])->Some_0,
                    asm_level: s[6],
                },
            )
        }
    }

    pub fn serialize(&self) -> (r: Vec<u8>)
        ensures
            r@ == self.spec_serialize(),
    {
        let mut out: Vec<u8> = Vec::new();
        out.push(self.nc_asm_inquired_type.code());
        out.push(self.nc_asm_effect.code());
        out.push(self.nc_asm_setting_type.code());
        out.push(self.nc_dual_single_value.code());
        out.push(self.asm_setting_type.code());
        out.push(self.asm_id.code());
        out.push(self.asm_level);
        proof {
            assert(out@ =~= self.spec_serialize());
        }
        out
    }

    pub fn deserialize(bytes: &[u8]) -> (r: Result<Self, DeserializeError>)
        ensures
            r == Self::spec_deserialize(bytes@),
    {
        if bytes.len() < 7 {
            return Err(DeserializeError::TooShort);
        }
        let b0 = *slice_index_get(bytes, 0);
        let b1 = *slice_index_get(bytes, 1);
        let b2 = *slice_index_get(bytes, 2);
        let b3 = *slice_index_get(bytes, 3);
        let b4 = *slice_index_get(bytes, 4);
        let b5 = *slice_index_get(bytes, 5);
        let b6 = *slice_index_get(bytes, 6);
        let nc_asm_inquired_type = match NcAsmInquiredType::from_code(b0) {
            Some(v) => v,
            None => {
                return Err(DeserializeError::UnrecognizedDiscriminant(b0));
            },
        };
        let nc_asm_effect = match NcAsmEffect::from_code(b1) {
            Some(v) => v,
            None => {
                return Err(DeserializeError::UnrecognizedDiscriminant(b1));
            },
        };
        let nc_asm_setting_type = match NcAsmSettingType::from_code(b2) {
            Some(v) => v,
            None => {
                return Err(DeserializeError::UnrecognizedDiscriminant(b2));
            },
        };
        let nc_dual_single_value = match NcDualSingleValue::from_code(b3) {
            Some(v) => v,
            None => {
                return Err(DeserializeError::UnrecognizedDiscriminant(b3));
            },
        };
        let asm_setting_type = match AsmSettingType::from_code(b4) {
            Some(v) => v,
            None => {
                return Err(DeserializeError::UnrecognizedDiscriminant(b4));
            },
        };
        let asm_id = match AsmId::from_code(b5) {
            Some(v) => v,
            None => {
                return Err(DeserializeError::UnrecognizedDiscriminant(b5));
            },
        };
        Ok(
            NcAsmSetParam {
                nc_asm_inquired_type,
                nc_asm_effect,
                nc_asm_setting_type,
                nc_dual_single_value,
                asm_setting_type,
                asm_id,
                asm_level: b6,
            },
        )
    }
}

impl Serializable for NcAsmSetParam {
    open spec fn serializable(&self) -> bool {
        true
    }

    fn serialize(&self) -> Vec<u8> {
        NcAsmSetParam::serialize(self)
    }

    fn deserialize(bytes: &[u8]) -> Result<Self, DeserializeError> {
        NcAsmSetParam::deserialize(bytes)
    }
}

impl NcAsmNtfyParam {
    /// The seven wire bytes of this parameter block, in declared field order.
    pub open spec fn spec_serialize(self) -> Seq<u8> {
        seq![
            self.nc_asm_inquired_type.spec_code(),
            self.nc_asm_effect.spec_code(),
            self.nc_asm_setting_type.spec_code(),
            self.nc_dual_single_value.spec_code(),
            self.asm_setting_type.spec_code(),
            self.asm_id.spec_code(),
            self.asm_level,
        ]
    }

    /// Positional decode of the seven wire bytes; extra trailing bytes are
    /// ignored, a missing byte or an unknown code is a typed error.
    pub open spec fn spec_deserialize(s: Seq<u8>) -> Result<NcAsmNtfyParam, DeserializeError> {
        if s.len() < 7 {
            Err(DeserializeError::TooShort)
        } else if NcAsmInquiredType::spec_from_code(s[0]) is None {
            Err(DeserializeError::UnrecognizedDiscriminant(s[0]))
        } else if NcAsmEffect::spec_from_code(s[1]) is None {
            Err(DeserializeError::UnrecognizedDiscriminant(s[1]))
        } else if NcAsmSettingType::spec_from_code(s[2]) is None {
            Err(DeserializeError::UnrecognizedDiscriminant(s[2]))
        } else if NcDualSingleValue::spec_from_code(s[3]) is None {
            Err(DeserializeError::UnrecognizedDiscriminant(s[3]))
        } else if AsmSettingType::spec_from_code(s[4]) is None {
            Err(DeserializeError::UnrecognizedDiscriminant(s[4]))
        } else if AsmId::spec_from_code(s[5]) is None {
            Err(DeserializeError::UnrecognizedDiscriminant(s[5]))
        } else {
            Ok(
                NcAsmNtfyParam {
                    nc_asm_inquired_type: NcAsmInquiredType::spec_from_code(s[0])->Some_0,
                    nc_asm_effect: NcAsmEffect::spec_from_code(s[1])->Some_0,
                    nc_asm_setting_type: NcAsmSettingType::spec_from_code(s[2])->Some_0,
                    nc_dual_single_value: NcDualSingleValue::spec_from_code(s[3])->Some_0,
                    asm_setting_type: AsmSettingType::spec_from_code(s[4])->Some_0,
                    asm_id: AsmId::spec_from_code(s[5])->Some_0,
                    asm_level: s[6],
                },
            )
        }
    }

    pub fn serialize(&self) -> (r: Vec<u8>)
        ensures
            r@ == self.spec_serialize(),
    {
        let mut out: Vec<u8> = Vec::new();
        out.push(self.nc_asm_inquired_type.code());
        out.push(self.nc_asm_effect.code());
        out.push(self.nc_asm_setting_type.code());
        out.push(self.nc_dual_single_value.code());
        out.push(self.asm_setting_type.code());
        out.push(self.asm_id.code());
        out.push(self.asm_level);
        proof {
            assert(out@ =~= self.spec_serialize());
        }
        out
    }

    pub fn deserialize(bytes: &[u8]) -> (r: Result<Self, DeserializeError>)
        ensures
            r == Self::spec_deserialize(bytes@),
    {
        if bytes.len() < 7 {
            return Err(DeserializeError::TooShort);
        }
        let b0 = *slice_index_get(bytes, 0);
        let b1 = *slice_index_get(bytes, 1);
        let b2 = *slice_index_get(bytes, 2);
        let b3 = *slice_index_get(bytes, 3);
        let b4 = *slice_index_get(bytes, 4);
        let b5 = *slice_index_get(bytes, 5);
        let b6 = *slice_index_get(bytes, 6);
        let nc_asm_inquired_type = match NcAsmInquiredType::from_code(b0) {
            Some(v) => v,
            None => {
                return Err(DeserializeError::UnrecognizedDiscriminant(b0));
            },
        };
        let nc_asm_effect = match NcAsmEffect::from_code(b1) {
            Some(v) => v,
            None => {
                return Err(DeserializeError::UnrecognizedDiscriminant(b1));
            },
        };
        let nc_asm_setting_type = match NcAsmSettingType::from_code(b2) {
            Some(v) => v,
            None => {
                return Err(DeserializeError::UnrecognizedDiscriminant(b2));
            },
        };
        let nc_dual_single_value = match NcDualSingleValue::from_code(b3) {
            Some(v) => v,
            None => {
                return Err(DeserializeError::UnrecognizedDiscriminant(b3));
            },
        };
        let asm_setting_type = match AsmSettingType::from_code(b4) {
            Some(v) => v,
            None => {
                return Err(DeserializeError::UnrecognizedDiscriminant(b4));
            },
        };
        let asm_id = match AsmId::from_code(b5) {
            Some(v) => v,
            None => {
                return Err(DeserializeError::UnrecognizedDiscriminant(b5));
            },
        };
        Ok(
            NcAsmNtfyParam {
                nc_asm_inquired_type,
                nc_asm_effect,
                nc_asm_setting_type,
                nc_dual_single_value,
                asm_setting_type,
                asm_id,
                asm_level: b6,
            },
        )
    }
}

impl Serializable for NcAsmNtfyParam {
    open spec fn serializable(&self) -> bool {
        true
    }

    fn serialize(&self) -> Vec<u8> {
        NcAsmNtfyParam::serialize(self)
    }

    fn deserialize(bytes: &[u8]) -> Result<Self, DeserializeError> {
        NcAsmNtfyParam::deserialize(bytes)
    }
}

} // verus!
