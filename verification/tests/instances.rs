use embassy_dlyb::dlyb::DlybBlock;
use embassy_dlyb::instance::{
    dll_reset_field, dlyb_block, DllResetField, DlybInstance, Instance, SdmmcPort, DLYB_SDMMC1,
    DLYB_SDMMC2, SDMMC1, SDMMC2,
};

fn wiring<T: Instance, D: DlybInstance<T>>() -> (SdmmcPort, DlybBlock, DllResetField) {
    (T::port(), dlyb_block::<T, D>(), dll_reset_field::<T, D>())
}

#[test]
fn sdmmc1_uses_its_own_delay_block() {
    assert_eq!(
        wiring::<SDMMC1, DLYB_SDMMC1>(),
        (SdmmcPort::Sdmmc1, DlybBlock::DlybSdmmc1, DllResetField::Sdmmc1DllRst)
    );
}

#[test]
fn sdmmc2_uses_its_own_delay_block() {
    assert_eq!(
        wiring::<SDMMC2, DLYB_SDMMC2>(),
        (SdmmcPort::Sdmmc2, DlybBlock::DlybSdmmc2, DllResetField::Sdmmc2DllRst)
    );
}
