//! The factory-programmed identification register.

use crate::bits::{bit_range, bits_of};
use vstd::prelude::*;

verus! {

/// Pattern that the reserved bits of the identification register always hold.
pub const RESERVED_PATTERN: u8 = 0b10;

/// Device models of the two families.
#[derive(Debug, Clone, Copy, PartialEq, Eq, Structural)]
pub enum DevModel {
    Ads1291,
    Ads1292,
    Ads1292R,
    Ads1294,
    Ads1296,
    Ads1298,
    Ads1294R,
    Ads1296R,
    Ads1298R,
}

/// ID Control Register (address 0x00, read-only)
#[derive(Debug, Clone, Copy, PartialEq, Eq)]
pub struct IdReg(pub u8);

impl IdReg {
    /// Channel count code, bits 2..=0.
    pub fn channel_id(&self) -> (value: u8)
        ensures
            value == bits_of(self.0 as int, 2, 0),
    {
        bit_range(self.0, 2, 0)
    }

    /// Reserved bits 4..=3.
    pub fn reserved(&self) -> (value: u8)
        ensures
            value == bits_of(self.0 as int, 4, 3),
    {
        bit_range(self.0, 4, 3)
    }

    /// Family code, bits 7..=5.
    pub fn model_id(&self) -> (value: u8)
        ensures
            value == bits_of(self.0 as int, 7, 5),
    {
        bit_range(self.0, 7, 5)
    }
}

/// Why an identification byte names no device.
#[derive(Debug, Clone, Copy, PartialEq, Eq, Structural)]
pub enum IdRegError {
    /// The reserved bits should always equal 0b10; carries the byte read.
    ReservedFieldMismatch(u8),
    /// The reserved bits are in order, but no model has these codes; carries
    /// the byte read.
    Unsupported(u8),
}

/// The model with the given channel count code and family code, if there is
/// one.
pub open spec fn model_of(channel_id: int, model_id: int) -> Option<DevModel> {
    if channel_id == 0b000 && model_id == 0b100 {
        Some(DevModel::Ads1294)
    } else if channel_id == 0b001 && model_id == 0b100 {
        Some(DevModel::Ads1296)
    } else if channel_id == 0b010 && model_id == 0b100 {
        Some(DevModel::Ads1298)
    } else if channel_id == 0b000 && model_id == 0b110 {
        Some(DevModel::Ads1294R)
    } else if channel_id == 0b001 && model_id == 0b110 {
        Some(DevModel::Ads1296R)
    } else if channel_id == 0b010 && model_id == 0b110 {
        Some(DevModel::Ads1298R)
    } else if channel_id == 0b10 && model_id == 0b010 {
        Some(DevModel::Ads1291)
    } else if channel_id == 0b11 && model_id == 0b010 {
        Some(DevModel::Ads1292)
    } else if channel_id == 0b11 && model_id == 0b011 {
        Some(DevModel::Ads1292R)
    } else {
        None
    }
}

impl TryFrom<IdReg> for DevModel {
    type Error = IdRegError;

    /// Names the device that an identification byte stands for.
    ///
    /// The reserved bits are looked at first: while they differ from their
    /// pattern the model table is not consulted.
    fn try_from(idreg: IdReg) -> (model: Result<Self, IdRegError>)
        ensures
            bits_of(idreg.0 as int, 4, 3) != RESERVED_PATTERN ==> model == Err::<DevModel, IdRegError>(
                IdRegError::ReservedFieldMismatch(idreg.0),
            ),
            model is Ok <==> bits_of(idreg.0 as int, 4, 3) == RESERVED_PATTERN && model_of(
                bits_of(idreg.0 as int, 2, 0),
                bits_of(idreg.0 as int, 7, 5),
            ) is Some,
    {
        // Mismatched reserved bits
        if idreg.reserved() != RESERVED_PATTERN {
            return Err(IdRegError::ReservedFieldMismatch(idreg.0));
        }
        Ok(
            match (idreg.channel_id(), idreg.model_id()) {
                // 4-8Ch
                (0b000, 0b100) => DevModel::Ads1294,
                (0b001, 0b100) => DevModel::Ads1296,
                (0b010, 0b100) => DevModel::Ads1298,
                // 4-8Ch R
                (0b000, 0b110) => DevModel::Ads1294R,
                (0b001, 0b110) => DevModel::Ads1296R,
                (0b010, 0b110) => DevModel::Ads1298R,
                // 1-2Ch
                (0b10, 0b010) => DevModel::Ads1291,
                (0b11, 0b010) => DevModel::Ads1292,
                (0b11, 0b011) => DevModel::Ads1292R,
                _ => return Err(IdRegError::Unsupported(idreg.0)),
            },
        )
    }
}

impl vstd::std_specs::convert::TryFromSpecImpl<IdReg> for DevModel {
    open spec fn obeys_try_from_spec() -> bool {
        true
    }

    open spec fn try_from_spec(idreg: IdReg) -> Result<Self, IdRegError> {
        if bits_of(idreg.0 as int, 4, 3) != RESERVED_PATTERN {
            Err(IdRegError::ReservedFieldMismatch(idreg.0))
        } else {
            match model_of(bits_of(idreg.0 as int, 2, 0), bits_of(idreg.0 as int, 7, 5)) {
                Some(model) => Ok(model),
                None => Err(IdRegError::Unsupported(idreg.0)),
            }
        }
    }
}

} // verus!
