use mini_visor::drivers::dw_apb_uart::{
    DwApbUart, GetCharPhase, PutCharPhase, DW_APB_UART_FCR, DW_APB_UART_IER, DW_APB_UART_LSR,
    DW_APB_UART_MCR, DW_APB_UART_RHR, DW_APB_UART_THR,
};
use mini_visor::mmio::{Request, Step};

#[test]
fn uart_new_checks_range() {
    assert!(DwApbUart::new(0x1000, 0xFF).is_err());
    assert!(DwApbUart::new(0x1000, 0).is_err());
    let uart = DwApbUart::new(0x1000, 0x100).unwrap();
    assert_eq!(uart.base_address(), 0x1000);
    let uart = DwApbUart::new(0xFE66_0000, 0x1_0000).unwrap();
    assert_eq!(uart.base_address(), 0xFE66_0000);
}

#[test]
fn uart_invalid_is_at_zero() {
    assert_eq!(DwApbUart::invalid().base_address(), 0);
}

#[test]
fn uart_line_status_bits() {
    assert!(DwApbUart::is_tx_fifo_full(0));
    assert!(!DwApbUart::is_tx_fifo_full(0x40));
    assert!(DwApbUart::is_tx_fifo_full(0xBF));
    assert!(DwApbUart::is_rx_fifo_empty(0x60));
    assert!(!DwApbUart::is_rx_fifo_empty(0x61));
}

#[test]
fn uart_enable_interrupt_writes() {
    let uart = DwApbUart::new(0x1000, 0x100).unwrap();
    assert_eq!(
        uart.enable_interrupt(),
        vec![
            Request::Write { offset: DW_APB_UART_FCR, value: 1 },
            Request::Write { offset: DW_APB_UART_IER, value: 1 },
            Request::Write { offset: DW_APB_UART_MCR, value: 8 },
        ]
    );
    assert_eq!(DW_APB_UART_FCR, 0x08);
    assert_eq!(DW_APB_UART_IER, 0x04);
    assert_eq!(DW_APB_UART_MCR, 0x10);
}

#[test]
fn uart_putc_waits_for_transmitter() {
    let uart = DwApbUart::new(0x1000, 0x100).unwrap();
    let mut op = uart.putc(b'A');
    assert_eq!(op.resume(0), Step::Io(Request::Read { offset: DW_APB_UART_LSR }));
    // Transmitter busy: spin and poll again.
    assert_eq!(op.resume(0x20), Step::Io(Request::Spin));
    assert_eq!(op.resume(0), Step::Io(Request::Read { offset: DW_APB_UART_LSR }));
    assert_eq!(op.resume(0x60), Step::Io(Request::Write { offset: DW_APB_UART_THR, value: 0x41 }));
    assert_eq!(op.resume(0), Step::Done(()));
    assert_eq!(op.phase, PutCharPhase::Finished);
}

#[test]
fn uart_putc_high_byte() {
    let uart = DwApbUart::new(0x1000, 0x100).unwrap();
    let mut op = uart.putc(0xFF);
    assert_eq!(op.resume(0), Step::Io(Request::Read { offset: DW_APB_UART_LSR }));
    assert_eq!(op.resume(0x40), Step::Io(Request::Write { offset: DW_APB_UART_THR, value: 0xFF }));
}

#[test]
fn uart_getc_nothing_received() {
    let uart = DwApbUart::new(0x1000, 0x100).unwrap();
    let mut op = uart.getc();
    assert_eq!(op.resume(0), Step::Io(Request::Read { offset: DW_APB_UART_LSR }));
    assert_eq!(op.resume(0x60), Step::Done(None));
    assert_eq!(op.phase, GetCharPhase::Finished);
}

#[test]
fn uart_getc_keeps_low_byte() {
    let uart = DwApbUart::new(0x1000, 0x100).unwrap();
    let mut op = uart.getc();
    assert_eq!(op.resume(0), Step::Io(Request::Read { offset: DW_APB_UART_LSR }));
    assert_eq!(op.resume(0x61), Step::Io(Request::Read { offset: DW_APB_UART_RHR }));
    assert_eq!(op.resume(0x1234_5678), Step::Done(Some(0x78)));
}
