use nes_core::state::apu::dmc::DMC;

#[test]
fn test_dmc_register_formulas() {
    let mut dmc = DMC::new();
    dmc.set_addr(0x10);
    assert_eq!(dmc.sample_addr, 0xC000 + 0x10 * 64);
    dmc.set_length(2);
    assert_eq!(dmc.sample_length, 2 * 16 + 1);
    dmc.set_output(0xFF);
    assert_eq!(dmc.get_volume(), 0x7F);
    dmc.set_flags(0x0F);
    assert_eq!(dmc.timer.counter, 54);
    dmc.set_flags(0x00);
    assert_eq!(dmc.timer.counter, 428);
}

#[test]
fn test_dmc_clock_counts_down_then_plays() {
    let mut dmc = DMC::new();
    dmc.set_flags(0x00);
    let before = dmc.timer.counter;
    dmc.clock();
    assert_eq!(dmc.timer.counter, before - 1);
    // with the timer spent, a set bit raises the level by two
    let mut playing = DMC::new();
    playing.set_output(10);
    playing.shift_register = 0b0000_0001;
    playing.silent = false;
    playing.clock();
    assert_eq!(playing.get_volume(), 12);
    // a clear bit lowers it by two
    let mut falling = DMC::new();
    falling.set_output(10);
    falling.shift_register = 0;
    falling.clock();
    assert_eq!(falling.get_volume(), 8);
}

#[test]
fn test_dmc_output_saturates() {
    let mut dmc = DMC::new();
    dmc.set_output(126);
    dmc.shift_register = 1;
    dmc.clock();
    assert_eq!(dmc.get_volume(), 126);
    let mut low = DMC::new();
    low.set_output(1);
    low.shift_register = 0;
    low.clock();
    assert_eq!(low.get_volume(), 1);
}

#[test]
fn test_dmc_goes_silent_after_empty_buffer() {
    let mut dmc = DMC::new();
    assert!(!dmc.is_dma_active());
    for _ in 0..8 {
        dmc.clock();
    }
    // eight bits played with nothing buffered: the channel falls silent
    assert!(dmc.silent);
    assert_eq!(dmc.bits_remaining, 8);
}

#[test]
fn test_dmc_load_buffer_steps_address_and_length() {
    let mut dmc = DMC::new();
    dmc.cur_length = 2;
    dmc.cur_addr = 0xC000;
    dmc.load_buffer(0x99);
    assert_eq!(dmc.sample_buffer, 0x99);
    assert!(!dmc.sample_empty);
    assert_eq!(dmc.cur_addr, 0xC001);
    assert_eq!(dmc.cur_length, 1);
    assert!(dmc.is_dma_active() == false);
    // the read address stays inside $8000-$FFFF
    let mut wrap = DMC::new();
    wrap.cur_length = 2;
    wrap.cur_addr = 0x7FFF;
    wrap.load_buffer(0x01);
    assert_eq!(wrap.cur_addr, 0x8000);
}

#[test]
fn test_dmc_loop_and_irq_at_end() {
    let mut looping = DMC::new();
    looping.set_flags(0x40);
    looping.set_addr(1);
    looping.set_length(1);
    looping.cur_length = 1;
    looping.cur_addr = 0xD000;
    looping.load_buffer(0x11);
    assert_eq!(looping.cur_length, looping.sample_length);
    assert_eq!(looping.cur_addr, looping.sample_addr);
    assert!(!looping.irq_pending);
    let mut ending = DMC::new();
    ending.set_flags(0x80);
    ending.cur_length = 1;
    ending.load_buffer(0x11);
    assert!(ending.irq_pending);
    assert!(ending.irq_triggered);
    // dropping the enable bit clears a pending interrupt
    ending.set_flags(0x00);
    assert!(!ending.irq_pending);
}

#[test]
fn test_dmc_address_wraps_at_top() {
    // the sample address wraps from $FFFF back to $8000
    let mut dmc = DMC::new();
    dmc.cur_length = 2;
    dmc.cur_addr = 0xFFFF;
    dmc.load_buffer(0x55);
    assert_eq!(dmc.cur_addr, 0x8000);
    assert_eq!(dmc.sample_buffer, 0x55);
    assert_eq!(dmc.cur_length, 1);
}
