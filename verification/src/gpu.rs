//! The pixel-timing automaton: it takes the cost of each instruction that
//! the processor executed and moves through the four phases of a scanline.

use crate::bits::{bit_at, lemma_with_bit, with_bit};
use crate::cpu::GBCpu;
use crate::semantics::{Machine, INTERRUPT_ENABLE, INTERRUPT_REQUEST, SCANLINE};
use vstd::prelude::*;

verus! {

/// The phase of the automaton.
#[derive(Clone, Copy, Debug, PartialEq, Eq, Structural)]
pub enum GBGpuMode {
    /// Horizontal blank, at the end of a visible line.
    HBLANK,
    /// Vertical blank, after the last visible line.
    VBLANK,
    /// Scan of the sprite table, at the start of a visible line.
    OAM,
    /// Transfer of the pixels of a visible line.
    VRAM,
}

/// The source of the vertical-blank interrupt.
pub const VBLANK_INTERRUPT: usize = 0;

/// The line at which the vertical blank begins.
pub const VBLANK_LINE: usize = 143;

/// The last line of a frame.
pub const LAST_LINE: usize = 153;

/// The state of the automaton.
pub struct GpuState {
    pub mode: GBGpuMode,
    /// The cycles spent in the phase so far.
    pub cycles: nat,
    /// The line being drawn.
    pub line: nat,
}

/// The number of cycles after which a phase ends.
pub open spec fn threshold(mode: GBGpuMode) -> nat {
    match mode {
        GBGpuMode::OAM => 80,
        GBGpuMode::VRAM => 172,
        GBGpuMode::HBLANK => 204,
        GBGpuMode::VBLANK => 456,
    }
}

impl GpuState {
    /// The phase has not reached its end; the vertical blank holds the lines
    /// from `VBLANK_LINE` to `LAST_LINE`, the other phases the lines below.
    pub open spec fn wf(self) -> bool {
        &&& self.cycles < threshold(self.mode)
        &&& if self.mode == GBGpuMode::VBLANK {
            VBLANK_LINE <= self.line <= LAST_LINE
        } else {
            self.line < VBLANK_LINE
        }
    }

    /// The state after the phase has reached its end.
    pub open spec fn turn(self) -> GpuState {
        match self.mode {
            GBGpuMode::OAM => GpuState { mode: GBGpuMode::VRAM, cycles: 0, line: self.line },
            GBGpuMode::VRAM => GpuState { mode: GBGpuMode::HBLANK, cycles: 0, line: self.line },
            GBGpuMode::HBLANK => GpuState {
                mode: if self.line + 1 == VBLANK_LINE {
                    GBGpuMode::VBLANK
                } else {
                    GBGpuMode::OAM
                },
                cycles: 0,
                line: self.line + 1,
            },
            GBGpuMode::VBLANK => if self.line + 1 > LAST_LINE {
                GpuState { mode: GBGpuMode::OAM, cycles: 0, line: 0 }
            } else {
                GpuState { mode: GBGpuMode::VBLANK, cycles: 0, line: self.line + 1 }
            },
        }
    }

    /// Whether `spent` more cycles bring the phase to its end.
    pub open spec fn ends(self, spent: nat) -> bool {
        self.cycles + spent >= threshold(self.mode)
    }

    /// The state after the processor spent `spent` cycles on an instruction.
    /// Cycles beyond the end of a phase are not carried over.
    pub open spec fn advance(self, spent: nat) -> GpuState {
        if self.ends(spent) {
            self.turn()
        } else {
            GpuState { cycles: self.cycles + spent, ..self }
        }
    }

    /// Whether that step completes a frame: it ends the horizontal blank of
    /// the last visible line, and the vertical blank begins.
    pub open spec fn completes_frame(self, spent: nat) -> bool {
        self.ends(spent) && self.mode == GBGpuMode::HBLANK && self.line + 1 == VBLANK_LINE
    }

    /// The memory after that step. At the end of a horizontal or vertical
    /// blank the new line goes to the scanline counter; where the vertical
    /// blank begins, its interrupt is requested if it is enabled; no other
    /// address is written.
    pub open spec fn memory_after(self, spent: nat, mem: Seq<u8>) -> Seq<u8> {
        if !self.ends(spent) {
            mem
        } else {
            match self.mode {
                GBGpuMode::OAM | GBGpuMode::VRAM => mem,
                GBGpuMode::HBLANK => {
                    let counted = mem.update(SCANLINE as int, (self.line + 1) as u8);
                    if self.line + 1 == VBLANK_LINE && bit_at(
                        counted[INTERRUPT_ENABLE as int],
                        7 - VBLANK_INTERRUPT,
                    ) {
                        counted.update(
                            INTERRUPT_REQUEST as int,
                            with_bit(
                                counted[INTERRUPT_REQUEST as int],
                                7 - VBLANK_INTERRUPT,
                                true,
                            ) as u8,
                        )
                    } else {
                        counted
                    }
                },
                GBGpuMode::VBLANK => mem.update(SCANLINE as int, self.turn().line as u8),
            }
        }
    }
}

/// The timing automaton. Its view is the `GpuState` that its laws speak of.
pub struct GBGpu {
    mode: GBGpuMode,
    cycles: usize,
    drawing_line: usize,
}

impl View for GBGpu {
    type V = GpuState;

    closed spec fn view(&self) -> GpuState {
        GpuState { mode: self.mode, cycles: self.cycles as nat, line: self.drawing_line as nat }
    }
}

impl GBGpu {
    /// The automaton is always in a well-formed state.
    #[verifier::type_invariant]
    pub open spec fn inv(&self) -> bool {
        self@.wf()
    }

    /// The automaton after a reset: at the start of line 0.
    pub fn new() -> (gpu: GBGpu)
        ensures
            gpu@ == (GpuState { mode: GBGpuMode::OAM, cycles: 0, line: 0 }),
    {
        GBGpu { mode: GBGpuMode::OAM, cycles: 0, drawing_line: 0 }
    }

    /// The phase that the automaton is in.
    pub fn get_mode(&self) -> (mode: GBGpuMode)
        ensures
            mode == self@.mode,
    {
        self.mode
    }

    /// The cycles spent in the phase so far, below the phase's threshold.
    pub fn get_cycles(&self) -> (cycles: usize)
        ensures
            cycles == self@.cycles,
            self@.wf(),
    {
        proof {
            use_type_invariant(self);
        }
        self.cycles
    }

    /// The line being drawn, from 0 to `LAST_LINE`.
    pub fn get_drawing_line(&self) -> (line: usize)
        ensures
            line == self@.line,
            line <= LAST_LINE,
    {
        proof {
            use_type_invariant(self);
        }
        self.drawing_line
    }

    /// Takes the cost of the instruction that the processor executed last,
    /// and tells whether a frame is now ready to be presented. Of the
    /// processor only the scanline counter and the interrupt-request byte
    /// can change.
    pub fn step(&mut self, cpu: &mut GBCpu) -> (frame_ready: bool)
        ensures
            final(self)@ == old(self)@.advance(old(cpu)@.cycles),
            frame_ready == old(self)@.completes_frame(old(cpu)@.cycles),
            final(cpu)@ == (Machine {
                mem: old(self)@.memory_after(old(cpu)@.cycles, old(cpu)@.mem),
                ..old(cpu)@
            }),
    {
        proof {
            use_type_invariant(&*self);
        }
        let spent = cpu.get_last_op_cycles();
        let mut frame_ready = false;
        match self.mode {
            // just rendered a line, going back to the left side of the screen
            GBGpuMode::HBLANK => {
                // HBLANK duration in cycles: 204
                if spent >= 204 - self.cycles {
                    let line = self.drawing_line + 1;
                    // LY mem register. It stores the current line
                    cpu.set_memreg_ly(line as u8);
                    // check if we reached the last line. If so, enter vblank
                    if line == VBLANK_LINE {
                        // is VBLANK interrupt enabled?
                        if cpu.is_interrupt_enabled(VBLANK_INTERRUPT) {
                            // request vblank interrupt
                            cpu.set_interrupt_request(VBLANK_INTERRUPT, true);
                        }
                        *self = GBGpu { mode: GBGpuMode::VBLANK, cycles: 0, drawing_line: line };
                        // the frame is complete
                        frame_ready = true;
                    } else {
                        // just one more line, start reading the sprites
                        *self = GBGpu { mode: GBGpuMode::OAM, cycles: 0, drawing_line: line };
                    }
                } else {
                    self.cycles = self.cycles + spent;
                }
            },
            GBGpuMode::VBLANK => {
                // VBLANK duration: 456 * 10 lines
                if spent >= 456 - self.cycles {
                    let line = self.drawing_line + 1;
                    // LY mem register. It stores the current line
                    cpu.set_memreg_ly(line as u8);
                    if line > LAST_LINE {
                        // Restart scanning modes
                        cpu.set_memreg_ly(0);
                        *self = GBGpu { mode: GBGpuMode::OAM, cycles: 0, drawing_line: 0 };
                        assert(old(cpu)@.mem.update(SCANLINE as int, line as u8).update(
                            SCANLINE as int,
                            0u8,
                        ) =~= old(cpu)@.mem.update(SCANLINE as int, 0u8));
                    } else {
                        *self = GBGpu { mode: GBGpuMode::VBLANK, cycles: 0, drawing_line: line };
                    }
                } else {
                    self.cycles = self.cycles + spent;
                }
            },
            GBGpuMode::OAM => {
                // loop for a while in the OAM mode and go to the VRAM mode after
                if spent >= 80 - self.cycles {
                    *self = GBGpu {
                        mode: GBGpuMode::VRAM,
                        cycles: 0,
                        drawing_line: self.drawing_line,
                    };
                } else {
                    self.cycles = self.cycles + spent;
                }
            },
            GBGpuMode::VRAM => {
                // the line is transferred, then comes the horizontal blank
                if spent >= 172 - self.cycles {
                    *self = GBGpu {
                        mode: GBGpuMode::HBLANK,
                        cycles: 0,
                        drawing_line: self.drawing_line,
                    };
                } else {
                    self.cycles = self.cycles + spent;
                }
            },
        }
        frame_ready
    }
}

/// The sum of the costs of a run of instructions.
pub open spec fn total(costs: Seq<nat>) -> nat
    decreases costs.len(),
{
    if costs.len() == 0 {
        0
    } else {
        costs[0] + total(costs.drop_first())
    }
}

/// The state after the automaton took the costs of a run of instructions,
/// one after the other.
pub open spec fn run(g: GpuState, costs: Seq<nat>) -> GpuState
    decreases costs.len(),
{
    if costs.len() == 0 {
        g
    } else {
        run(g.advance(costs[0]), costs.drop_first())
    }
}

/// The state after several runs, one after the other.
pub open spec fn run_all(g: GpuState, runs: Seq<Seq<nat>>) -> GpuState
    decreases runs.len(),
{
    if runs.len() == 0 {
        g
    } else {
        run_all(run(g, runs[0]), runs.drop_first())
    }
}

/// Every step keeps the state well formed: the line stays within a frame.
pub proof fn lemma_advance_wf(g: GpuState, spent: nat)
    requires
        g.wf(),
    ensures
        g.advance(spent).wf(),
        g.advance(spent).line <= LAST_LINE,
{
}

/// Instructions without cost leave a state as it is.
pub proof fn lemma_run_idle(g: GpuState, costs: Seq<nat>)
    requires
        g.wf(),
        total(costs) == 0,
    ensures
        run(g, costs) == g,
    decreases costs.len(),
{
    if costs.len() > 0 {
        lemma_run_idle(g, costs.drop_first());
    }
}

/// A run that brings the cycles of a phase to exactly its threshold ends
/// the phase, and nothing more.
pub proof fn lemma_run_phase(g: GpuState, costs: Seq<nat>)
    requires
        g.wf(),
        g.cycles + total(costs) == threshold(g.mode),
    ensures
        run(g, costs) == g.turn(),
    decreases costs.len(),
{
    if g.ends(costs[0]) {
        lemma_advance_wf(g, costs[0]);
        lemma_run_idle(g.turn(), costs.drop_first());
    } else {
        lemma_run_phase(g.advance(costs[0]), costs.drop_first());
    }
}

/// A run in two parts is the run of the second part after the first.
pub proof fn lemma_run_concat(g: GpuState, first: Seq<nat>, second: Seq<nat>)
    ensures
        run(g, first + second) == run(run(g, first), second),
    decreases first.len(),
{
    if first.len() == 0 {
        assert(first + second =~= second);
    } else {
        assert((first + second).drop_first() =~= first.drop_first() + second);
        lemma_run_concat(g.advance(first[0]), first.drop_first(), second);
    }
}

/// A visible line takes 456 cycles. From the start of a line below
/// `VBLANK_LINE`, runs of exactly 80, 172 and 204 cycles lead through the
/// pixel transfer and the horizontal blank to the start of the next line,
/// which is one higher; that next line begins the vertical blank where it is
/// `VBLANK_LINE`.
pub proof fn lemma_visible_line(g: GpuState, scan: Seq<nat>, transfer: Seq<nat>, blank: Seq<nat>)
    requires
        g.mode == GBGpuMode::OAM,
        g.cycles == 0,
        g.line < VBLANK_LINE,
        total(scan) == 80,
        total(transfer) == 172,
        total(blank) == 204,
    ensures
        run(g, scan) == (GpuState { mode: GBGpuMode::VRAM, cycles: 0, line: g.line }),
        run(g, scan + transfer) == (GpuState { mode: GBGpuMode::HBLANK, cycles: 0, line: g.line }),
        run(g, scan + transfer + blank) == (GpuState {
            mode: if g.line + 1 == VBLANK_LINE {
                GBGpuMode::VBLANK
            } else {
                GBGpuMode::OAM
            },
            cycles: 0,
            line: g.line + 1,
        }),
        total(scan) + total(transfer) + total(blank) == threshold(GBGpuMode::VBLANK),
{
    lemma_run_phase(g, scan);
    lemma_run_phase(run(g, scan), transfer);
    lemma_run_concat(g, scan, transfer);
    lemma_run_phase(run(g, scan + transfer), blank);
    lemma_run_concat(g, scan + transfer, blank);
}

/// The vertical-blank interrupt is requested where the vertical blank
/// begins, and only if it is enabled: in the step that ends the horizontal
/// blank of the line before `VBLANK_LINE`, the request bit is set afterwards
/// exactly if the interrupt is enabled or the bit was set before. That step
/// changes no byte but the scanline counter and the request byte.
pub proof fn lemma_vblank_request(g: GpuState, spent: nat, mem: Seq<u8>)
    requires
        g.wf(),
        mem.len() == 0x10000,
        g.mode == GBGpuMode::HBLANK,
        g.line + 1 == VBLANK_LINE,
        g.ends(spent),
    ensures
        g.advance(spent).mode == GBGpuMode::VBLANK,
        g.completes_frame(spent),
        bit_at(
            g.memory_after(spent, mem)[INTERRUPT_REQUEST as int],
            7 - VBLANK_INTERRUPT,
        ) == (bit_at(mem[INTERRUPT_ENABLE as int], 7 - VBLANK_INTERRUPT) || bit_at(
            mem[INTERRUPT_REQUEST as int],
            7 - VBLANK_INTERRUPT,
        )),
        g.memory_after(spent, mem)[SCANLINE as int] == VBLANK_LINE,
        forall|a: int|
            0 <= a < 0x10000 && a != SCANLINE && a != INTERRUPT_REQUEST ==> g.memory_after(
                spent,
                mem,
            )[a] == mem[a],
{
    let request = mem[INTERRUPT_REQUEST as int];
    assert(bit_at(with_bit(request, 7, true) as u8, 7)) by {
        lemma_with_bit(request, 7, true);
    }
}

/// Outside that step no interrupt is requested: the request byte stays.
pub proof fn lemma_request_only_at_vblank(g: GpuState, spent: nat, mem: Seq<u8>)
    requires
        g.wf(),
        mem.len() == 0x10000,
        !(g.mode == GBGpuMode::HBLANK && g.line + 1 == VBLANK_LINE && g.ends(spent)),
    ensures
        g.memory_after(spent, mem)[INTERRUPT_REQUEST as int] == mem[INTERRUPT_REQUEST as int],
{
}

/// The vertical blank ends with the frame. From the start of a line of the
/// vertical blank, one run of exactly 456 cycles for that line and for each
/// line after it up to `LAST_LINE` leads to the start of line 0: ten such
/// runs from line 144.
pub proof fn lemma_vblank_wraps(g: GpuState, lines: Seq<Seq<nat>>)
    requires
        g.mode == GBGpuMode::VBLANK,
        g.cycles == 0,
        VBLANK_LINE <= g.line <= LAST_LINE,
        lines.len() == LAST_LINE + 1 - g.line,
        forall|i: int| 0 <= i < lines.len() ==> total(#[trigger] lines[i]) == 456,
    ensures
        run_all(g, lines) == (GpuState { mode: GBGpuMode::OAM, cycles: 0, line: 0 }),
    decreases lines.len(),
{
    lemma_run_phase(g, lines[0]);
    let rest = lines.drop_first();
    if g.line < LAST_LINE {
        assert forall|i: int| 0 <= i < rest.len() implies total(#[trigger] rest[i]) == 456 by {
            assert(rest[i] == lines[i + 1]);
        }
        lemma_vblank_wraps(run(g, lines[0]), rest);
    } else {
        assert(rest.len() == 0);
        assert(run_all(run(g, lines[0]), rest) == run(g, lines[0]));
    }
}

} // verus!
