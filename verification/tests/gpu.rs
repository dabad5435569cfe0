use gameboy::cpu::GBCpu;
use gameboy::gpu::{GBGpu, GBGpuMode, LAST_LINE, VBLANK_LINE};
use gameboy::mem::GBMem;

/// A processor that executes `NOP` forever, at four cycles a step.
fn idle_cpu(interrupt_enable: u8) -> GBCpu {
    let mut mem = GBMem::new();
    mem.put(0xFFFF, interrupt_enable);
    GBCpu::new(mem)
}

fn advance(cpu: &mut GBCpu, gpu: &mut GBGpu, steps: usize) {
    for _ in 0..steps {
        cpu.step();
        gpu.step(cpu);
    }
}

/// The steps of four cycles that one line takes: 456 cycles.
const LINE: usize = 114;

#[test]
fn automaton_starts_at_the_sprite_scan_of_line_zero() {
    let gpu = GBGpu::new();
    assert_eq!(gpu.get_mode(), GBGpuMode::OAM);
    assert_eq!(gpu.get_cycles(), 0);
    assert_eq!(gpu.get_drawing_line(), 0);
}

#[test]
fn a_step_without_cost_changes_nothing() {
    let mut cpu = idle_cpu(0);
    let mut gpu = GBGpu::new();
    assert_eq!(cpu.get_last_op_cycles(), 0);
    gpu.step(&mut cpu);
    assert_eq!(gpu.get_mode(), GBGpuMode::OAM);
    assert_eq!(gpu.get_cycles(), 0);
}

#[test]
fn phases_follow_their_thresholds() {
    let mut cpu = idle_cpu(0);
    let mut gpu = GBGpu::new();
    advance(&mut cpu, &mut gpu, 19);
    assert_eq!(gpu.get_mode(), GBGpuMode::OAM);
    assert_eq!(gpu.get_cycles(), 76);
    advance(&mut cpu, &mut gpu, 1);
    assert_eq!(gpu.get_mode(), GBGpuMode::VRAM);
    assert_eq!(gpu.get_cycles(), 0);
    advance(&mut cpu, &mut gpu, 42);
    assert_eq!(gpu.get_mode(), GBGpuMode::VRAM);
    assert_eq!(gpu.get_cycles(), 168);
    advance(&mut cpu, &mut gpu, 1);
    assert_eq!(gpu.get_mode(), GBGpuMode::HBLANK);
    assert_eq!(gpu.get_drawing_line(), 0);
    advance(&mut cpu, &mut gpu, 50);
    assert_eq!(gpu.get_mode(), GBGpuMode::HBLANK);
    assert_eq!(gpu.get_cycles(), 200);
    assert_eq!(cpu.get_mem_ref().get(0xFF44), 0);
    advance(&mut cpu, &mut gpu, 1);
    assert_eq!(gpu.get_mode(), GBGpuMode::OAM);
    assert_eq!(gpu.get_cycles(), 0);
    assert_eq!(gpu.get_drawing_line(), 1);
    assert_eq!(cpu.get_mem_ref().get(0xFF44), 1);
}

#[test]
fn a_line_takes_456_cycles() {
    let mut cpu = idle_cpu(0);
    let mut gpu = GBGpu::new();
    for line in 1..=10 {
        advance(&mut cpu, &mut gpu, LINE - 1);
        assert_eq!(gpu.get_drawing_line(), line - 1);
        advance(&mut cpu, &mut gpu, 1);
        assert_eq!(gpu.get_drawing_line(), line);
        assert_eq!(gpu.get_mode(), GBGpuMode::OAM);
        assert_eq!(cpu.get_mem_ref().get(0xFF44), line as u8);
    }
}

#[test]
fn cycles_beyond_a_threshold_are_dropped() {
    // JR -2: twelve cycles a step
    let mut mem = GBMem::new();
    mem.put(0, 0x18);
    mem.put(1, 0xFE);
    let mut cpu = GBCpu::new(mem);
    let mut gpu = GBGpu::new();
    advance(&mut cpu, &mut gpu, 6);
    assert_eq!(gpu.get_mode(), GBGpuMode::OAM);
    assert_eq!(gpu.get_cycles(), 72);
    advance(&mut cpu, &mut gpu, 1);
    assert_eq!(gpu.get_mode(), GBGpuMode::VRAM);
    assert_eq!(gpu.get_cycles(), 0);
    advance(&mut cpu, &mut gpu, 15);
    assert_eq!(gpu.get_mode(), GBGpuMode::HBLANK);
    assert_eq!(gpu.get_cycles(), 0);
    advance(&mut cpu, &mut gpu, 17);
    assert_eq!(gpu.get_mode(), GBGpuMode::OAM);
    assert_eq!(gpu.get_drawing_line(), 1);
}

#[test]
fn vertical_blank_requests_its_interrupt_when_enabled() {
    let mut cpu = idle_cpu(0x01);
    let mut gpu = GBGpu::new();
    advance(&mut cpu, &mut gpu, LINE * VBLANK_LINE - 1);
    assert_eq!(gpu.get_drawing_line(), VBLANK_LINE - 1);
    assert_eq!(gpu.get_mode(), GBGpuMode::HBLANK);
    assert_eq!(cpu.get_mem_ref().get(0xFF0F), 0x00);
    advance(&mut cpu, &mut gpu, 1);
    assert_eq!(gpu.get_drawing_line(), VBLANK_LINE);
    assert_eq!(gpu.get_mode(), GBGpuMode::VBLANK);
    assert_eq!(cpu.get_mem_ref().get(0xFF44), 143);
    assert_eq!(cpu.get_mem_ref().get(0xFF0F), 0x01);
}

#[test]
fn a_frame_is_ready_once_in_a_frame() {
    let mut cpu = idle_cpu(0);
    let mut gpu = GBGpu::new();
    for step in 1..=2 * LINE * 154 {
        cpu.step();
        let ready = gpu.step(&mut cpu);
        let expected = step % (LINE * 154) == LINE * VBLANK_LINE;
        assert_eq!(ready, expected);
    }
}

#[test]
fn vertical_blank_requests_nothing_when_disabled() {
    // every interrupt but the vertical blank is enabled
    let mut cpu = idle_cpu(0xFE);
    let mut gpu = GBGpu::new();
    advance(&mut cpu, &mut gpu, LINE * VBLANK_LINE);
    assert_eq!(gpu.get_mode(), GBGpuMode::VBLANK);
    assert_eq!(cpu.get_mem_ref().get(0xFF0F), 0x00);
}

#[test]
fn vertical_blank_keeps_the_other_requests() {
    let mut cpu = idle_cpu(0x01);
    cpu.get_mem_mut().put(0xFF0F, 0x14);
    let mut gpu = GBGpu::new();
    advance(&mut cpu, &mut gpu, LINE * VBLANK_LINE);
    assert_eq!(cpu.get_mem_ref().get(0xFF0F), 0x15);
}

#[test]
fn vertical_blank_lines_take_456_cycles_and_the_frame_wraps() {
    let mut cpu = idle_cpu(0);
    let mut gpu = GBGpu::new();
    advance(&mut cpu, &mut gpu, LINE * VBLANK_LINE);
    assert_eq!(gpu.get_drawing_line(), 143);
    advance(&mut cpu, &mut gpu, LINE);
    assert_eq!(gpu.get_drawing_line(), 144);
    assert_eq!(gpu.get_mode(), GBGpuMode::VBLANK);
    // ten lines of vertical blank from line 144
    for line in 145..=LAST_LINE {
        advance(&mut cpu, &mut gpu, LINE - 1);
        assert_eq!(gpu.get_drawing_line(), line - 1);
        advance(&mut cpu, &mut gpu, 1);
        assert_eq!(gpu.get_drawing_line(), line);
        assert_eq!(gpu.get_mode(), GBGpuMode::VBLANK);
        assert_eq!(cpu.get_mem_ref().get(0xFF44), line as u8);
    }
    advance(&mut cpu, &mut gpu, LINE - 1);
    assert_eq!(gpu.get_drawing_line(), 153);
    advance(&mut cpu, &mut gpu, 1);
    assert_eq!(gpu.get_drawing_line(), 0);
    assert_eq!(gpu.get_mode(), GBGpuMode::OAM);
    assert_eq!(gpu.get_cycles(), 0);
    assert_eq!(cpu.get_mem_ref().get(0xFF44), 0);
}

#[test]
fn a_frame_is_154_lines() {
    let mut cpu = idle_cpu(0);
    let mut gpu = GBGpu::new();
    advance(&mut cpu, &mut gpu, LINE * 154);
    assert_eq!(gpu.get_drawing_line(), 0);
    assert_eq!(gpu.get_mode(), GBGpuMode::OAM);
    advance(&mut cpu, &mut gpu, LINE);
    assert_eq!(gpu.get_drawing_line(), 1);
}

#[test]
fn the_automaton_writes_nothing_but_its_two_bytes() {
    let mut cpu = idle_cpu(0x01);
    let mut gpu = GBGpu::new();
    advance(&mut cpu, &mut gpu, LINE * VBLANK_LINE);
    let mem = cpu.get_mem_ref();
    for addr in 0..0x10000usize {
        let expected = match addr {
            0xFF44 => 143,
            0xFF0F => 0x01,
            0xFFFF => 0x01,
            _ => 0x00,
        };
        assert_eq!(mem.get(addr), expected);
    }
    assert_eq!(cpu.get_sp(), 0);
    assert_eq!(cpu.get_pc() as usize, LINE * VBLANK_LINE);
}
