//! Which delay block serves which SDMMC controller.
#![allow(non_camel_case_types)]
use vstd::prelude::*;

use crate::dlyb::DlybBlock;

verus! {

/// The SDMMC controllers that have a delay block.
#[derive(Clone, Copy, Debug, PartialEq, Eq, Structural)]
pub enum SdmmcPort {
    /// The controller `SDMMC1`.
    Sdmmc1,
    /// The controller `SDMMC2`.
    Sdmmc2,
}

/// The fields of the RCC `MISCRSTR` register that hold a delay block's DLL
/// in reset.
#[derive(Clone, Copy, Debug, PartialEq, Eq, Structural)]
pub enum DllResetField {
    /// `SDMMC1DLLRST`.
    Sdmmc1DllRst,
    /// `SDMMC2DLLRST`.
    Sdmmc2DllRst,
}

/// The controller a delay block serves.
pub open spec fn block_port(block: DlybBlock) -> SdmmcPort {
    match block {
        DlybBlock::DlybSdmmc1 => SdmmcPort::Sdmmc1,
        DlybBlock::DlybSdmmc2 => SdmmcPort::Sdmmc2,
    }
}

/// The controller whose delay block a reset field holds.
pub open spec fn reset_port(field: DllResetField) -> SdmmcPort {
    match field {
        DllResetField::Sdmmc1DllRst => SdmmcPort::Sdmmc1,
        DllResetField::Sdmmc2DllRst => SdmmcPort::Sdmmc2,
    }
}

/// An SDMMC controller peripheral.
pub trait Instance {
    /// The controller this peripheral is.
    spec fn port_spec() -> SdmmcPort;

    /// The controller this peripheral is.
    fn port() -> (p: SdmmcPort)
        ensures
            p == Self::port_spec(),
    ;
}

/// The delay block of the SDMMC controller `T`.
pub(crate) trait SealedDlybInstance<T: Instance> {
    /// The register block of this delay block, which serves `T`.
    fn regs() -> (b: DlybBlock)
        ensures
            block_port(b) == T::port_spec(),
    ;

    /// The RCC `MISCRSTR` field to clear to take this delay block's DLL out
    /// of reset; it is the field of `T`'s delay block.
    fn release_dll_reset() -> (f: DllResetField)
        ensures
            reset_port(f) == T::port_spec(),
    ;
}

/// A delay block usable with the SDMMC controller `T`.
#[allow(private_bounds)]
pub trait DlybInstance<T: Instance>: SealedDlybInstance<T> {}

/// The register block of `D`, the delay block of the controller `T`.
pub fn dlyb_block<T: Instance, D: DlybInstance<T>>() -> (b: DlybBlock)
    ensures
        block_port(b) == T::port_spec(),
{
    D::regs()
}

/// The RCC `MISCRSTR` field to clear to take the DLL of `D`, the delay block
/// of the controller `T`, out of reset.
pub fn dll_reset_field<T: Instance, D: DlybInstance<T>>() -> (f: DllResetField)
    ensures
        reset_port(f) == T::port_spec(),
{
    D::release_dll_reset()
}

/// The peripheral `SDMMC1`.
pub struct SDMMC1;

/// The peripheral `SDMMC2`.
pub struct SDMMC2;

/// The peripheral `DLYB_SDMMC1`.
pub struct DLYB_SDMMC1;

/// The peripheral `DLYB_SDMMC2`.
pub struct DLYB_SDMMC2;

impl Instance for SDMMC1 {
    open spec fn port_spec() -> SdmmcPort {
        SdmmcPort::Sdmmc1
    }

    fn port() -> (p: SdmmcPort) {
        SdmmcPort::Sdmmc1
    }
}

impl Instance for SDMMC2 {
    open spec fn port_spec() -> SdmmcPort {
        SdmmcPort::Sdmmc2
    }

    fn port() -> (p: SdmmcPort) {
        SdmmcPort::Sdmmc2
    }
}

impl SealedDlybInstance<SDMMC1> for DLYB_SDMMC1 {
    fn regs() -> (b: DlybBlock) {
        DlybBlock::DlybSdmmc1
    }

    fn release_dll_reset() -> (f: DllResetField) {
        DllResetField::Sdmmc1DllRst
    }
}

impl DlybInstance<SDMMC1> for DLYB_SDMMC1 {}

impl SealedDlybInstance<SDMMC2> for DLYB_SDMMC2 {
    fn regs() -> (b: DlybBlock) {
        DlybBlock::DlybSdmmc2
    }

    fn release_dll_reset() -> (f: DllResetField) {
        DllResetField::Sdmmc2DllRst
    }
}

impl DlybInstance<SDMMC2> for DLYB_SDMMC2 {}

} // verus!
