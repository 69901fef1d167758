//! Machine-level tests: memory unit side effects, bank switching, the
//! pixel pipeline's timing, the timer, interrupts, and the audio
//! decision logic.

use gumball::apu;
use gumball::apu::PulseChannelState;
use gumball::cpu::Cpu;
use gumball::interrupts::{get_interrupts, Interrupt};
use gumball::input::Button;
use gumball::mmu::Mmu;
use gumball::ppu::{Ppu, PpuMode};
use gumball::timer::Timer;

fn cart_with_ram() -> Vec<u8> {
    let mut rom = vec![0u8; 0x8000];
    rom[0x147] = 0x03; // MBC1 with RAM
    rom[0x149] = 0x02; // 8 KiB of external RAM
    rom
}

#[test]
fn boot_register_snapshot() {
    // The post-boot state: AF=0x01B0, BC=0x0013, DE=0x00D8, HL=0x014D,
    // SP=0xFFFE, and LY reads 0x90.
    let state: Cpu = Default::default();
    assert_eq!(state.registers.a, 0x01);
    assert_eq!(state.get_f_register(), 0xB0);
    assert_eq!(state.registers.get_bc(), 0x0013);
    assert_eq!(state.registers.get_de(), 0x00D8);
    assert_eq!(state.registers.get_hl(), 0x014D);
    assert_eq!(state.sp, 0xFFFE);
    assert_eq!(state.pc, 0x0100);
    let mem = Mmu::init();
    assert_eq!(mem.get(0xFF44), 0x90);
}

#[test]
fn div_resets_on_write() {
    // Any write to 0xFF04 reads back zero, whatever the value.
    let mut mem = Mmu::init();
    mem.set(0xFF04, 0x55);
    assert_eq!(mem.get(0xFF04), 0);
    mem.set(0xFF04, 0xFF);
    assert_eq!(mem.get(0xFF04), 0);
}

#[test]
fn div_ticks_after_reset() {
    // After a reset, DIV reads zero at once and one within the next 64
    // machine cycles (256 T-cycles).
    let mut mem = Mmu::init();
    mem.tick_div(1000);
    mem.set(0xFF04, 0x00);
    assert_eq!(mem.get(0xFF04), 0x00);
    mem.tick_div(255);
    assert_eq!(mem.get(0xFF04), 0x00);
    mem.tick_div(1);
    assert_eq!(mem.get(0xFF04), 0x01);
}

#[test]
fn oam_dma_copies_verbatim() {
    // Preload 0xC000.. with i ^ 0xAA, write 0xC0 to the DMA register,
    // and find the pattern in OAM.
    let mut mem = Mmu::init();
    for i in 0..0xA0u16 {
        mem.set(0xC000 + i, (i as u8) ^ 0xAA);
    }
    mem.set(0xFF46, 0xC0);
    for i in 0..0xA0usize {
        assert_eq!(mem.get(0xFE00 + i), (i as u8) ^ 0xAA);
    }
}

#[test]
fn joypad_selector() {
    // With nothing pressed: write 0x10, read 0x1F; write 0x20, read
    // 0x2F; press Down and read 0x17 after writing 0x10.
    let mut mem = Mmu::init();
    mem.set(0xFF00, 0x10);
    assert_eq!(mem.get(0xFF00), 0x1F);
    mem.set(0xFF00, 0x20);
    assert_eq!(mem.get(0xFF00), 0x2F);
    mem.input.press_button(Button::Down);
    mem.set(0xFF00, 0x10);
    assert_eq!(mem.get(0xFF00), 0x17);
    mem.input.release_button(Button::Down);
    assert_eq!(mem.get(0xFF00), 0x1F);
}

#[test]
fn ram_gate_enables_on_low_nibble_a() {
    // With a cartridge that has external RAM, reads of the window return
    // the stored value exactly when the written enable value ends in 0xA.
    let mut mem = Mmu::init();
    mem.initialize_memory(cart_with_ram());
    assert_eq!(mem.get(0xA123), 0xFF);
    mem.set(0x0000, 0x0A);
    mem.set(0xA123, 0x77);
    assert_eq!(mem.get(0xA123), 0x77);
    mem.set(0x0000, 0x00);
    assert_eq!(mem.get(0xA123), 0xFF);
    mem.set(0x0000, 0x1A);
    assert_eq!(mem.get(0xA123), 0x77);
    mem.set(0x0000, 0x0B);
    assert_eq!(mem.get(0xA123), 0xFF);
}

#[test]
fn rom_writes_are_control_writes() {
    // With a mapper, a write below 0x8000 never lands in memory.
    let mut mem = Mmu::init();
    mem.initialize_memory(cart_with_ram());
    let before = mem.get(0x1234);
    mem.set(0x1234, 0x99);
    assert_eq!(mem.get(0x1234), before);
}

#[test]
fn rom_bank_switch_pages_window() {
    // Selecting bank 2 pages the second 16 KiB of the image into
    // 0x4000..0x8000; bank 0 maps to bank 1.
    let mut rom = vec![0u8; 0x4000 * 4];
    rom[0x147] = 0x01;
    rom[0x4000] = 0x11; // bank 1
    rom[0x8000] = 0x22; // bank 2
    rom[0xC000] = 0x33; // bank 3
    let mut mem = Mmu::init();
    mem.initialize_memory(rom);
    assert_eq!(mem.get(0x4000), 0x11);
    mem.set(0x2000, 0x02);
    assert_eq!(mem.get(0x4000), 0x22);
    mem.set(0x2000, 0x03);
    assert_eq!(mem.get(0x4000), 0x33);
    mem.set(0x2000, 0x00);
    assert_eq!(mem.get(0x4000), 0x11);
}

#[test]
fn ram_bank_switch_flushes_and_pages() {
    // Bytes written to one RAM bank survive a switch away and back.
    let mut mem = Mmu::init();
    mem.initialize_memory(cart_with_ram());
    mem.set(0x0000, 0x0A);
    mem.set(0xA000, 0x55);
    mem.set(0x4000, 0x02); // to bank 2
    mem.set(0xA000, 0x66);
    mem.set(0x4000, 0x01); // back to bank 1
    assert_eq!(mem.get(0xA000), 0x55);
    mem.set(0x4000, 0x02);
    assert_eq!(mem.get(0xA000), 0x66);
}

#[test]
fn scanline_timing_and_one_vblank_per_frame() {
    // One full frame is 70224 T-cycles, raises exactly one VBLANK
    // interrupt, and brings LY back to zero.
    let mut mem = Mmu::init();
    mem.set(0xFF44, 0);
    let mut ppu = Ppu::new();
    let mut frames = 0u32;
    let mut cycles: u64 = 0;
    for _ in 0..(70224 / 4) {
        if ppu.render(&mut mem, 4) {
            frames += 1;
            assert_eq!(mem.get(0xFF44), 144);
            assert_eq!(mem.get(0xFF0F) & 0x01, 0x01);
        }
        cycles += 4;
    }
    assert_eq!(cycles, 70224);
    assert_eq!(frames, 1);
    assert_eq!(mem.get(0xFF44), 0);
}

#[test]
fn stat_tracks_mode_and_coincidence() {
    // STAT's low bits follow the mode; bit 2 is set exactly when LY
    // equals LYC.
    let mut mem = Mmu::init();
    mem.set(0xFF44, 0);
    mem.set(0xFF45, 0);
    let mut ppu = Ppu::new();
    ppu.render(&mut mem, 4);
    assert_eq!(mem.get(0xFF41) & 0x03, 2); // object scan
    assert_eq!(mem.get(0xFF41) & 0x04, 0x04); // LY == LYC == 0
    mem.set(0xFF45, 7);
    ppu.render(&mut mem, 76); // completes the scan: pixel transfer
    assert_eq!(mem.get(0xFF41) & 0x03, 3);
    assert_eq!(mem.get(0xFF41) & 0x04, 0x00);
}

#[test]
fn sprite_x_zero_is_culled() {
    // A sprite at X zero never enters the scan result, whatever its Y.
    let mut mem = Mmu::init();
    mem.set(0xFF44, 10);
    // First entry: Y intersects (span 20..28 covers line 10+16), X = 0:
    // culled.
    mem.set(0xFE00, 20);
    mem.set(0xFE01, 0);
    // Second entry: same Y, X = 12: selected.
    mem.set(0xFE04, 20);
    mem.set(0xFE05, 12);
    let mut ppu = Ppu::new();
    ppu.scan_sprites(&mem);
    assert_eq!(ppu.sprite_count(), 1);
}

#[test]
fn timer_increments_and_reloads() {
    // TAC 0x05 selects a 16-cycle period; an overflow reloads TIMA from
    // TMA and raises the timer interrupt.
    let mut mem = Mmu::init();
    mem.set(0xFF07, 0x05);
    mem.set(0xFF05, 0x10);
    mem.set(0xFF06, 0xAB);
    let mut timer = Timer::new();
    timer.step(&mut mem, 16);
    assert_eq!(mem.get(0xFF05), 0x11);
    mem.set(0xFF05, 0xFF);
    timer.step(&mut mem, 16);
    assert_eq!(mem.get(0xFF05), 0xAB);
    assert_eq!(mem.get(0xFF0F) & 0x04, 0x04);
}

#[test]
fn timer_disabled_stands_still() {
    let mut mem = Mmu::init();
    mem.set(0xFF07, 0x00);
    mem.set(0xFF05, 0x10);
    let mut timer = Timer::new();
    timer.step(&mut mem, 1024);
    assert_eq!(mem.get(0xFF05), 0x10);
}

#[test]
fn interrupt_priority_and_dispatch() {
    // With VBLANK and TIMER pending and enabled, dispatch takes VBLANK:
    // IME drops, PC lands on the vector, the old PC is on the stack.
    let mut mem = Mmu::init();
    mem.set(0xFFFF, 0x05);
    mem.set(0xFF0F, 0x05);
    let mut state: Cpu = Default::default();
    state.ime = true;
    state.sp = 0xD000;
    state.pc = 0x1234;
    let t = state.handle_interrupts(&mut mem);
    assert_eq!(t, 20); // five machine cycles for the dispatch
    assert_eq!(state.pc, 0x40);
    assert_eq!(state.sp, 0xCFFE);
    assert!(!state.ime);
    assert_eq!(mem.get(0xCFFE), 0x34);
    assert_eq!(mem.get(0xCFFF), 0x12);
    assert_eq!(mem.get(0xFF0F) & 0x01, 0); // acknowledged
    assert_eq!(mem.get(0xFF0F) & 0x04, 0x04); // timer still pending
}

#[test]
fn pending_interrupt_leaves_halt() {
    let mut mem = Mmu::init();
    mem.set(0xFFFF, 0x04);
    mem.set(0xFF0F, 0x04);
    let mut state: Cpu = Default::default();
    state.halted = true;
    let t = state.handle_interrupts(&mut mem);
    assert_eq!(t, 0); // IME is off: the line only leaves HALT
    assert!(!state.halted);
}

#[test]
fn get_interrupts_in_priority_order() {
    let mut mem = Mmu::init();
    mem.set(0xFF0F, 0b10101);
    let pending = get_interrupts(&mem);
    assert_eq!(pending, vec![Interrupt::VBlank, Interrupt::Timer, Interrupt::Joypad]);
    assert_eq!(Interrupt::Timer.address(), 0x50);
}

#[test]
fn apu_period_and_sweep() {
    assert_eq!(apu::period_value(0x34, 0xFA), 0x0234);
    let (p, overflow) = apu::sweep_next(0x0400, 1, true);
    assert_eq!(p, 0x0600);
    assert!(!overflow);
    let (p2, overflow2) = apu::sweep_next(0x0700, 1, true);
    assert_eq!(p2, 0x0A80);
    assert!(overflow2);
    let (p3, _) = apu::sweep_next(0x0400, 2, false);
    assert_eq!(p3, 0x0300);
}

#[test]
fn apu_envelope_and_duty() {
    assert_eq!(apu::envelope_step(15, true), 15);
    assert_eq!(apu::envelope_step(7, true), 8);
    assert_eq!(apu::envelope_step(0, false), 0);
    assert_eq!(apu::envelope_step(7, false), 6);
    assert_eq!(apu::duty_index(0b1100_0000), 3);
    assert_eq!(apu::duty_index(0b0100_0000), 1);
}

#[test]
fn apu_wave_and_sequencer() {
    let mut mem = Mmu::init();
    mem.set(0xFF30, 0xA5);
    let wave = mem.get_wave_ram();
    assert_eq!(wave.len(), 16);
    assert_eq!(apu::wave_sample(&wave, 0, 0), 0x5);
    assert_eq!(apu::wave_sample(&wave, 1, 0), 0xA);
    assert_eq!(apu::wave_sample(&wave, 1, 2), 0x2);
    assert_eq!(apu::wave_volume_shift(0x00), 4);
    assert_eq!(apu::wave_volume_shift(0x20), 0);
    assert!(apu::div_apu_tick(0x10, 0x00));
    assert!(!apu::div_apu_tick(0x00, 0x10));
    assert_eq!(apu::sequencer_ticks(2), (true, false, true));
    assert_eq!(apu::sequencer_ticks(7), (false, true, false));
}

#[test]
fn window_counter_holds_without_window() {
    // A full scanline with the window disabled leaves the window line
    // counter alone.
    let mut mem = Mmu::init();
    mem.set(0xFF44, 0);
    mem.set(0xFF40, 0x91); // window bit 5 clear
    let mut ppu = Ppu::new();
    for _ in 0..(456 / 4) {
        ppu.render(&mut mem, 4);
    }
    assert_eq!(mem.get(0xFF44), 1); // one line completed
    assert_eq!(ppu.window_counter_value(), 0);
}

#[test]
fn window_counter_frozen_when_disabled_before_trigger() {
    // The window is armed to trigger on line 0, but LCDC bit 5 drops
    // before the line's pixels are produced: the counter must not move.
    let mut mem = Mmu::init();
    mem.set(0xFF44, 0);
    mem.set(0xFF40, 0xB1); // window enabled
    mem.set(0xFF4A, 0); // WY
    mem.set(0xFF4B, 0); // WX
    let mut ppu = Ppu::new();
    ppu.render(&mut mem, 40); // inside the object scan
    mem.set(0xFF40, 0x91); // window disabled before the transfer
    for _ in 0..((456 - 40) / 4) {
        ppu.render(&mut mem, 4);
    }
    assert_eq!(mem.get(0xFF44), 1);
    assert_eq!(ppu.window_counter_value(), 0);
}

#[test]
fn window_counter_advances_when_window_shows() {
    // With the window kept enabled over the same line, the counter
    // advances once at the end of the scanline.
    let mut mem = Mmu::init();
    mem.set(0xFF44, 0);
    mem.set(0xFF40, 0xB1);
    mem.set(0xFF4A, 0);
    mem.set(0xFF4B, 0);
    let mut ppu = Ppu::new();
    for _ in 0..(456 / 4) {
        ppu.render(&mut mem, 4);
    }
    assert_eq!(mem.get(0xFF44), 1);
    assert_eq!(ppu.window_counter_value(), 1);
}

#[test]
fn framebuffer_is_full_size() {
    let ppu = Ppu::new();
    assert_eq!(ppu.framebuffer().len(), 160 * 144 * 3);
    assert!(matches!(PpuMode::OamScan, PpuMode::OamScan));
    assert_eq!(gumball::ppu::get_bit(0x80, 7), 1);
    assert_eq!(gumball::ppu::get_bit(0x80, 6), 0);
}

#[test]
fn pulse_channel_trigger_envelope_sweep() {
    // Trigger loads the envelope and sets the channel's sound-on bit;
    // step seven clocks the envelope down; the sweep rewrites the period
    // registers on its pace.
    let mut mem = Mmu::init();
    mem.set(0xFF12, 0xA3); // volume 10, decreasing, pace 3
    mem.set(0xFF13, 0x00);
    mem.set(0xFF14, 0x84); // trigger, period high bits 100
    mem.set(0xFF26, 0x00);
    let mut st = PulseChannelState::new();
    apu::pulse_frame_tick(&mut st, &mut mem, true, 0);
    assert!(st.enabled);
    assert_eq!(st.volume, 10);
    assert_eq!(mem.get(0xFF26) & 0x01, 0x01);
    mem.set(0xFF14, 0x04); // drop the trigger bit
    apu::pulse_frame_tick(&mut st, &mut mem, true, 7);
    assert_eq!(st.env_count, 1);
    assert_eq!(st.volume, 10);
    apu::pulse_frame_tick(&mut st, &mut mem, true, 7);
    apu::pulse_frame_tick(&mut st, &mut mem, true, 7);
    assert_eq!(st.volume, 9); // pace of three elapsed

    // Sweep: pace 1, shift 2, additive: 0x400 -> 0x500.
    mem.set(0xFF10, 0x12);
    apu::pulse_frame_tick(&mut st, &mut mem, true, 2);
    assert_eq!(apu::period_value(mem.get(0xFF13), mem.get(0xFF14)), 0x500);
    assert!(st.enabled);
}

#[test]
fn pulse_channel_dac_off_and_sweep_overflow() {
    // A zeroed DAC silences the channel and clears its sound-on bit; an
    // additive sweep past 0x7FF disables instead of writing back.
    let mut mem = Mmu::init();
    mem.set(0xFF12, 0xA0);
    mem.set(0xFF13, 0x00);
    mem.set(0xFF14, 0x87); // trigger, period high bits 111 -> 0x700
    let mut st = PulseChannelState::new();
    apu::pulse_frame_tick(&mut st, &mut mem, true, 0);
    assert!(st.enabled);
    mem.set(0xFF14, 0x07);
    mem.set(0xFF10, 0x11); // pace 1, shift 1: 0x700 + 0x380 overflows
    apu::pulse_frame_tick(&mut st, &mut mem, true, 2);
    assert!(!st.enabled);
    assert_eq!(mem.get(0xFF26) & 0x01, 0x00);
    assert_eq!(apu::period_value(mem.get(0xFF13), mem.get(0xFF14)), 0x700);

    mem.set(0xFF12, 0x00); // DAC off
    mem.set(0xFF14, 0x87);
    apu::pulse_frame_tick(&mut st, &mut mem, true, 0);
    assert!(!st.enabled);
}

#[test]
fn interrupt_dispatch_charges_five_cycles() {
    // The machine-cycle counter moves by five on a serviced dispatch.
    let mut mem = Mmu::init();
    mem.set(0xFFFF, 0x01);
    mem.set(0xFF0F, 0x01);
    let mut state: Cpu = Default::default();
    state.ime = true;
    state.sp = 0xD000;
    let before = state.clock_cycles;
    let t = state.handle_interrupts(&mut mem);
    assert_eq!(t, 20);
    assert_eq!(state.clock_cycles, before + 5);
}

#[test]
fn rom_only_cartridge_ignores_low_writes() {
    // A cartridge without banking hardware still treats writes below
    // 0x8000 as control writes that change nothing.
    let mut rom = vec![0u8; 0x8000];
    rom[0x147] = 0x00;
    rom[0x1234] = 0x5A;
    let mut mem = Mmu::init();
    mem.initialize_memory(rom);
    mem.set(0x1234, 0x99);
    assert_eq!(mem.get(0x1234), 0x5A);
    // And with no external RAM, the window reads 0xFF.
    mem.set(0xA000, 0x77);
    assert_eq!(mem.get(0xA000), 0xFF);
}

#[test]
fn new_boots_in_post_boot_state() {
    // Both constructors give the canonical post-boot machine.
    let state = Cpu::new();
    assert_eq!(state.registers.a, 0x01);
    assert_eq!(state.get_f_register(), 0xB0);
    assert_eq!(state.sp, 0xFFFE);
    assert_eq!(state.pc, 0x0100);
    let by_default: Cpu = Default::default();
    assert_eq!(state, by_default);
}

#[test]
fn sp_wraps_at_sixteen_bits() {
    // INC SP at 0xFFFF wraps to zero; DEC SP at zero wraps to 0xFFFF.
    let mut mem = Mmu::init_with_vec(vec![0x33, 0x3B]);
    let mut state: Cpu = Default::default();
    state.sp = 0xFFFF;
    state.execute(&mut mem);
    assert_eq!(state.sp, 0);
    state.execute(&mut mem);
    assert_eq!(state.sp, 0xFFFF);
}

#[test]
fn timer_overflow_among_several_periods() {
    // Three 16-cycle periods in one step with TIMA at 0xFE: one plain
    // increment, the overflow reload, then one more increment.
    let mut mem = Mmu::init();
    mem.set(0xFF07, 0x05);
    mem.set(0xFF05, 0xFE);
    mem.set(0xFF06, 0x10);
    let mut timer = Timer::new();
    timer.step(&mut mem, 48);
    assert_eq!(mem.get(0xFF05), 0x11);
    assert_eq!(mem.get(0xFF0F) & 0x04, 0x04);
}

#[test]
fn render_accepts_large_steps() {
    // A step holding an instruction plus an interrupt dispatch (44
    // T-cycles) advances the pipeline like any other.
    let mut mem = Mmu::init();
    mem.set(0xFF44, 0);
    let mut ppu = Ppu::new();
    let mut total: u32 = 0;
    while total < 456 {
        ppu.render(&mut mem, 44);
        total += 44;
    }
    assert_eq!(mem.get(0xFF44), 1);
}
