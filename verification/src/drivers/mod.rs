pub mod dw_apb_uart;
pub mod dw_mmc;
