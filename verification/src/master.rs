//! The scheduler: the control loop that interleaves processor execution
//! with timer, input, DMA and interrupt bookkeeping, one instruction per
//! step and one video frame per `screen` call.

use vstd::prelude::*;

use crate::controls::{packed_input, Controls};
use crate::dma;
use crate::dma::{dma_ram, DMA_LEN};
use crate::gpu::Gpu;
use crate::hardware::{wadd16, wadd8, Cpu};
use crate::instructions::{exec_post, spec_fetch, Instruct};
use crate::interrupts;
use crate::interrupts::{interrupt_check_post, spec_dispatch_cost};
use crate::memory::{ram_after, Memory};
use crate::timer::{timer_update_post, Timer};

verus! {

/// Display mode: horizontal blank.
pub const H_BLANK: u8 = 0;

/// Display mode: vertical blank.
pub const V_BLANK: u8 = 1;

/// Display mode: pixel transfer.
pub const PX_TRANSFER: u8 = 2;

/// `a + b` on 64 bits, wrapping.
pub open spec fn wadd64(a: u64, b: u64) -> u64 {
    if a + b > 0xFFFF_FFFF_FFFF_FFFF {
        (a + b - 0x1_0000_0000_0000_0000) as u64
    } else {
        (a + b) as u64
    }
}

/// The scheduler's state: counters for executed steps and elapsed cycles in
/// the current scanline, the display mode mirrored into the status
/// machinery, the mode of the previous status evaluation, and the host-side
/// pacing switches (which the core itself never reads).
pub struct Master {
    pub nb_steps: u64,
    pub tick: u64,
    pub mode: u8,
    pub previous_mode: u8,
    pub step_by_step: bool,
    pub line_by_line: bool,
    pub screen_by_screen: bool,
    pub log: bool,
}

/// What one status evaluation does: each of the four display-status
/// conditions fires at most once per mode value (tracked through
/// `previous_mode`), raising the display-status interrupt flag; the stages
/// chain, each seeing the pending-flag byte and previous mode the stage
/// before it left.
#[verifier::opaque]
pub open spec fn lcd_stat_post(
    m: Master,
    line: u8,
    mem: Memory,
    post_m: Master,
    post_ram: Seq<u8>,
) -> bool {
    let stat = mem.spec_read(0xFF41);
    let compare = mem.spec_read(0xFF45);
    let ram0 = mem.ram@;
    let fire1 = stat & 0b0100000 > 0 && line == compare && m.previous_mode == H_BLANK;
    let ram1 = if fire1 {
        ram0.update(0x7F0F, ram0[0x7F0F] | 0b0000_0010)
    } else {
        ram0
    };
    let prev1 = if fire1 {
        m.mode
    } else {
        m.previous_mode
    };
    let fire2 = stat & 0b0000_1000 > 0 && m.mode == H_BLANK && m.mode != prev1;
    let ram2 = if fire2 {
        ram1.update(0x7F0F, ram1[0x7F0F] | 0b0000_0010)
    } else {
        ram1
    };
    let prev2 = if fire2 {
        m.mode
    } else {
        prev1
    };
    let fire3 = stat & 0b0001_0000 > 0 && m.mode == V_BLANK && m.mode != prev2;
    let ram3 = if fire3 {
        ram2.update(0x7F0F, ram2[0x7F0F] | 0b0000_0010)
    } else {
        ram2
    };
    let prev3 = if fire3 {
        m.mode
    } else {
        prev2
    };
    let fire4 = stat & 0b0010000 > 0 && m.mode == PX_TRANSFER && m.mode != prev3;
    let ram4 = if fire4 {
        ram3.update(0x7F0F, ram3[0x7F0F] | 0b0000_0010)
    } else {
        ram3
    };
    let prev4 = if fire4 {
        m.mode
    } else {
        prev3
    };
    &&& post_m == (Master { previous_mode: prev4, ..m })
    &&& post_ram == ram4
}

/// The stages of one scheduler step, spelled out over the intermediate
/// machine states: `c1` / `m1` after the interrupt check, `m2` after the
/// timer, `m3` after the input refresh, and `c5` / `m4` after the decoded
/// operation has executed.  Each stage is related to the next by the
/// corresponding component's own postcondition.
#[verifier::opaque]
pub open spec fn step_stages(
    pre_m: Master,
    pre_cpu: Cpu,
    pre_t: Timer,
    ctl: Controls,
    pre_mem: Memory,
    c1: Cpu,
    m1: Memory,
    m2: Memory,
    m3: Memory,
    c5: Cpu,
    m4: Memory,
    post_m: Master,
    post_cpu: Cpu,
    post_t: Timer,
    post_mem: Memory,
) -> bool {
    // the interrupt check may redirect control before anything else
    &&& interrupt_check_post(pre_cpu, pre_mem, c1, m1)
    &&& ({
        // the surcharge accumulator clears for the instruction about to run
        let c1c = Cpu { pending_ticks: 0, ..c1 };
        let opcode = m1.spec_read(c1c.pc);
        let dec = spec_fetch(opcode, m1.spec_read(wadd16(c1c.pc, 1)));
        // the opcode byte (and for the prefixed family its follow-up byte)
        // is stepped over before execution
        let c2 = Cpu {
            pc: if opcode == 0xCB {
                wadd16(c1c.pc, 2)
            } else {
                wadd16(c1c.pc, 1)
            },
            ..c1c
        };
        // the deferred interrupt-enable transition of the previous
        // instruction commits before this one executes
        let c3 = match c2.pending_mie {
            Some(status) => Cpu { mie: status, pending_mie: None, ..c2 },
            None => c2,
        };
        // the timer consumes the instruction's base cycle cost
        &&& timer_update_post(pre_t, m1, dec.1, post_t, m2.ram@)
        &&& m2.cartridge == m1.cartridge
        // the input register is refreshed
        &&& m3.cartridge == m2.cartridge
        &&& m3.ram@ == ram_after(m2.ram@, 0xFF00, packed_input(ctl, m2.spec_read(0xFF00)))
        // the decoded operation executes
        &&& exec_post(dec.0, c3, m3, c5, m4)
        // the DMA engine performs any pending block copy
        &&& ({
            let trigger = m4.spec_read(0xFF46);
            &&& post_mem.cartridge == m4.cartridge
            &&& post_mem.ram@ == if trigger == 0 {
                m4.ram@
            } else {
                ram_after(
                    dma_ram(
                        m4.cartridge.banks@,
                        m4.cartridge.active_bank,
                        m4.ram@,
                        (trigger as u16) << 8,
                        DMA_LEN as int,
                    ),
                    0xFF46,
                    0,
                )
            }
        })
        // the step and cycle counters take the base cost plus the
        // taken-branch surcharge the operation accumulated
        &&& post_cpu == c5
        &&& post_m == (Master {
            nb_steps: wadd64(pre_m.nb_steps, 1),
            tick: wadd64(
                wadd64(
                    wadd64(pre_m.tick, spec_dispatch_cost(pre_cpu, pre_mem)),
                    dec.1 as u64,
                ),
                c5.pending_ticks as u64,
            ),
            ..pre_m
        })
    })
}

/// What one scheduler step does: there are intermediate machine states
/// through which [`step_stages`] holds, from the interrupt check to the DMA
/// engine.
pub open spec fn step_post(
    pre_m: Master,
    pre_cpu: Cpu,
    pre_t: Timer,
    ctl: Controls,
    pre_mem: Memory,
    post_m: Master,
    post_cpu: Cpu,
    post_t: Timer,
    post_mem: Memory,
) -> bool {
    exists|c1: Cpu, m1: Memory, m2: Memory, m3: Memory, c5: Cpu, m4: Memory|
        #[trigger] step_stages(
            pre_m,
            pre_cpu,
            pre_t,
            ctl,
            pre_mem,
            c1,
            m1,
            m2,
            m3,
            c5,
            m4,
            post_m,
            post_cpu,
            post_t,
            post_mem,
        )
}


/// One machine state as the frame loop sees it: the scheduler, the
/// processor, the timer, the address space and the pixel pipeline.
pub type FrameState = (Master, Cpu, Timer, Memory, Gpu);

/// One iteration of a scanline's inner loop, with the state between the
/// step and the status evaluation (`im` / `imem`) bound: with cycle budget
/// left, the display mode mirrors the cycle position (visible lines only),
/// one instruction steps, and the display-status conditions are evaluated
/// for the line (`index` for a visible line, the out-of-range value the
/// scheduler uses during vertical blank otherwise).  The pixel pipeline is
/// untouched.
pub open spec fn frame_step_with(
    ctl: Controls,
    index: nat,
    visible: bool,
    pre: FrameState,
    im: Master,
    imem: Memory,
    post: FrameState,
) -> bool {
    &&& pre.0.tick < 114
    &&& post.4 == pre.4
    &&& ({
        let moded = if visible {
            Master {
                mode: if pre.0.tick > 63 {
                    H_BLANK
                } else {
                    PX_TRANSFER
                },
                ..pre.0
            }
        } else {
            pre.0
        };
        let line = if visible {
            index as u8
        } else {
            254u8
        };
        &&& step_post(moded, pre.1, pre.2, ctl, pre.3, im, post.1, post.2, imem)
        &&& lcd_stat_post(im, line, imem, post.0, post.3.ram@)
        &&& post.3.cartridge == imem.cartridge
    })
}

/// One iteration of a scanline's inner loop: [`frame_step_with`] holds for
/// some state between the step and the status evaluation.
pub open spec fn frame_step(
    ctl: Controls,
    index: nat,
    visible: bool,
    pre: FrameState,
    post: FrameState,
) -> bool {
    exists|im: Master, imem: Memory| #[trigger] frame_step_with(
        ctl,
        index,
        visible,
        pre,
        im,
        imem,
        post,
    )
}

/// `k` chained iterations of a scanline's inner loop.
pub open spec fn frame_steps(
    ctl: Controls,
    index: nat,
    visible: bool,
    k: nat,
    pre: FrameState,
    post: FrameState,
) -> bool
    decreases k,
{
    if k == 0 {
        post == pre
    } else {
        exists|mid: FrameState|
            {
                &&& frame_steps(ctl, index, visible, (k - 1) as nat, pre, mid)
                &&& #[trigger] frame_step(ctl, index, visible, mid, post)
            }
    }
}

/// One whole scanline: some number of inner iterations reaches the 114
/// cycle-unit boundary, the cycle budget resets, a visible line is
/// composited into the screen buffer and advances the scanline counter, and
/// the line-counter register bumps, visible and blank lines alike.
pub open spec fn line_segment(
    ctl: Controls,
    index: nat,
    visible: bool,
    pre: FrameState,
    post: FrameState,
) -> bool {
    exists|k: nat, b: FrameState|
        {
            &&& #[trigger] frame_steps(ctl, index, visible, k, pre, b)
            &&& b.0.tick >= 114
            &&& post.0 == (Master { tick: 0, ..b.0 })
            &&& post.1 == b.1
            &&& post.2 == b.2
            &&& if visible {
                &&& post.4.bg_matrix == b.4.bg_matrix
                &&& post.4.window_matrix == b.4.window_matrix
                &&& post.4.sprite_matrix == b.4.sprite_matrix
                &&& post.4.line == (if b.4.line == 143 {
                    0u8
                } else {
                    (b.4.line + 1) as u8
                })
                &&& forall|i: int|
                    0 <= i < 160 ==> (#[trigger] post.4.screen@[i])@ == b.4.screen@[i]@.update(
                        b.4.line as int,
                        b.4.line_pixel(b.3, i),
                    )
            } else {
                post.4 == b.4
            }
            &&& post.3.cartridge == b.3.cartridge
            &&& post.3.ram@ == ram_after(b.3.ram@, 0xFF44, wadd8(b.3.spec_read(0xFF44), 1))
        }
}

/// `count` chained scanlines, the `n`-th one evaluated at line index `n`.
pub open spec fn lines_run(
    ctl: Controls,
    count: nat,
    visible: bool,
    pre: FrameState,
    post: FrameState,
) -> bool
    decreases count,
{
    if count == 0 {
        post == pre
    } else {
        exists|idx: nat, mid: FrameState|
            {
                &&& idx == count - 1
                &&& lines_run(ctl, idx, visible, pre, mid)
                &&& #[trigger] line_segment(ctl, idx, visible, mid, post)
            }
    }
}

/// The stages of one video frame, over the bound boundary states: the
/// line-counter register opens at zero (`m0`), 144 visible scanlines run
/// (`v`), the vertical-blank pending flag is raised and the mode moves to
/// vertical blank right at the 144-line boundary (`w`), ten blank lines run
/// (`z`), and the line-counter register closes back at zero.
pub open spec fn screen_stages(
    ctl: Controls,
    pre: FrameState,
    m0: Memory,
    v: FrameState,
    w: FrameState,
    z: FrameState,
    post: FrameState,
) -> bool {
    &&& m0.cartridge == pre.3.cartridge
    &&& m0.ram@ == ram_after(pre.3.ram@, 0xFF44, 0)
    &&& lines_run(ctl, 144, true, (pre.0, pre.1, pre.2, m0, pre.4), v)
    &&& w.3.cartridge == v.3.cartridge
    &&& w.3.ram@ == ram_after(v.3.ram@, 0xFF0F, v.3.spec_read(0xFF0F) | 0b1)
    &&& w.0 == (Master { mode: V_BLANK, ..v.0 })
    &&& w.1 == v.1
    &&& w.2 == v.2
    &&& w.4 == v.4
    &&& lines_run(ctl, 10, false, w, z)
    &&& post.3.cartridge == z.3.cartridge
    &&& post.3.ram@ == ram_after(z.3.ram@, 0xFF44, 0)
    &&& post.0 == z.0
    &&& post.1 == z.1
    &&& post.2 == z.2
    &&& post.4 == z.4
}

/// What one `screen` call does: there are boundary states through which
/// [`screen_stages`] holds — the full frame structure, line by line.
pub open spec fn screen_post(ctl: Controls, pre: FrameState, post: FrameState) -> bool {
    exists|m0: Memory, v: FrameState, w: FrameState, z: FrameState|
        #[trigger] screen_stages(ctl, pre, m0, v, w, z, post)
}

/// The vertical-blank pending bit stands raised at every frame's 144-line
/// boundary: the flag write [`screen_stages`] places between the visible
/// and the blank lines forces bit 0 of the pending byte on, whatever the
/// frame computed before it.
pub proof fn lemma_frame_raises_vertical_blank(
    ctl: Controls,
    pre: FrameState,
    m0: Memory,
    v: FrameState,
    w: FrameState,
    z: FrameState,
    post: FrameState,
)
    requires
        screen_stages(ctl, pre, m0, v, w, z, post),
        v.3.wf(),
    ensures
        w.3.spec_read(0xFF0F) & 0b1 == 1,
{
    let x = v.3.spec_read(0xFF0F);
    assert((x | 0b1) & 0b1 == 1u8) by (bit_vector);
}

/// Appending one more inner iteration to a chain of `k` of them.
proof fn lemma_frame_steps_snoc(
    ctl: Controls,
    index: nat,
    visible: bool,
    k: nat,
    pre: FrameState,
    mid: FrameState,
    post: FrameState,
)
    requires
        frame_steps(ctl, index, visible, k, pre, mid),
        frame_step(ctl, index, visible, mid, post),
    ensures
        frame_steps(ctl, index, visible, (k + 1) as nat, pre, post),
{
    assert(frame_steps(ctl, index, visible, ((k + 1) as nat - 1) as nat, pre, mid));
}

/// Appending one more scanline to a chain of `count` of them.
proof fn lemma_lines_run_snoc(
    ctl: Controls,
    count: nat,
    visible: bool,
    pre: FrameState,
    mid: FrameState,
    post: FrameState,
)
    requires
        lines_run(ctl, count, visible, pre, mid),
        line_segment(ctl, count, visible, mid, post),
    ensures
        lines_run(ctl, (count + 1) as nat, visible, pre, post),
{
    assert(lines_run(ctl, ((count + 1) as nat - 1) as nat, visible, pre, mid));
}

impl Master {
    /// Executes one instruction with its surrounding bookkeeping, in the
    /// fixed order: interrupt check, decode, program-counter advance past
    /// the opcode, cycle accounting for the timer, input refresh, commit of
    /// the deferred interrupt-enable transition the previous instruction
    /// requested, execution, and finally the DMA engine.  The step counter
    /// rises by one; the cycle counter by the 12-cycle cost of a dispatched
    /// vector jump, the instruction's base cost, and whatever taken-branch
    /// surcharge it accumulated.
    pub fn step(&mut self, cpu: &mut Cpu, timer: &mut Timer, controls: &mut Controls, mem: &mut Memory)
        requires
            old(mem).wf(),
            old(timer).divider_ticks <= 0xFF00,
            old(timer).timer_ticks <= 0xFF00,
        ensures
            final(mem).wf(),
            *final(controls) == *old(controls),
            step_post(
                *old(self),
                *old(cpu),
                *old(timer),
                *old(controls),
                *old(mem),
                *final(self),
                *final(cpu),
                *final(timer),
                *final(mem),
            ),
            *final(self) == (Master {
                nb_steps: wadd64(old(self).nb_steps, 1),
                tick: final(self).tick,
                ..*old(self)
            }),
            old(self).tick < 0x1000 ==> old(self).tick + 4 <= final(self).tick <= old(self).tick
                + 600,
            final(timer).divider_ticks <= 255,
            final(timer).timer_ticks <= 1024 || final(timer).timer_ticks == old(timer).timer_ticks,
    {
        self.nb_steps = self.nb_steps.wrapping_add(1);

        // A dispatched vector jump costs 12 cycles on top of whatever the
        // step otherwise accounts
        let dispatched = interrupts::will_dispatch(cpu, mem);
        interrupts::interrupt_check(cpu, mem);
        if dispatched {
            self.tick = self.tick.wrapping_add(12);
        }
        let ghost c1 = *cpu;
        let ghost m1 = *mem;
        cpu.clear_ticks();

        let opcode = mem.read(cpu.pc);
        let followup = mem.read(cpu.pc.wrapping_add(1));
        let instruct = Instruct::fetch(cpu, opcode, followup);
        cpu.pc = cpu.pc.wrapping_add(1);

        self.tick = self.tick.wrapping_add(instruct.ticks as u64);

        timer.update(instruct.ticks, mem);
        let ghost m2 = *mem;

        controls.update_ram(mem);
        let ghost m3 = *mem;

        // If the instruction of the last step asked to change the
        // master-interrupt-enable flag, this is where it takes effect
        cpu.update_interrupt_status();

        instruct.inst.exec(cpu, mem);
        let ghost c5 = *cpu;
        let ghost m4 = *mem;

        // The surcharge a taken branch just accumulated becomes part of the
        // frame's cycle accounting
        self.tick = self.tick.wrapping_add(cpu.get_ticks() as u64);

        dma::update_dma(mem);

        proof {
            reveal(step_stages);
            assert(step_stages(
                *old(self),
                *old(cpu),
                *old(timer),
                *old(controls),
                *old(mem),
                c1,
                m1,
                m2,
                m3,
                c5,
                m4,
                *self,
                *cpu,
                *timer,
                *mem,
            ));
        }
    }

    /// Runs exactly one video frame: 144 visible scanlines of 114 cycle
    /// units each (pixel transfer first, then horizontal blank), with a
    /// composited line and a line-counter bump at each boundary; at the
    /// 144-line boundary the vertical-blank pending flag is raised, then ten
    /// blank lines run.  [`screen_post`] pins this structure line by line.
    /// The line-counter register is zero on return, the pipeline's scanline
    /// counter comes back to where it started, the cycle counter rests at
    /// zero, and the frame ends in vertical blank.
    #[verifier::rlimit(100)]
    #[verifier::spinoff_prover]
    pub fn screen(
        &mut self,
        cpu: &mut Cpu,
        gpu: &mut Gpu,
        timer: &mut Timer,
        controls: &mut Controls,
        mem: &mut Memory,
    )
        requires
            old(mem).wf(),
            old(gpu).wf(),
            old(timer).divider_ticks <= 0xFF00,
            old(timer).timer_ticks <= 0xFF00,
        ensures
            final(mem).wf(),
            final(gpu).wf(),
            *final(controls) == *old(controls),
            screen_post(
                *old(controls),
                (*old(self), *old(cpu), *old(timer), *old(mem), *old(gpu)),
                (*final(self), *final(cpu), *final(timer), *final(mem), *final(gpu)),
            ),
            final(mem).spec_read(0xFF44) == 0,
            final(gpu).line == old(gpu).line,
            final(gpu).bg_matrix == old(gpu).bg_matrix,
            final(gpu).window_matrix == old(gpu).window_matrix,
            final(gpu).sprite_matrix == old(gpu).sprite_matrix,
            final(timer).divider_ticks <= 0xFF00,
            final(timer).timer_ticks <= 0xFF00,
            *final(self) == (Master {
                nb_steps: final(self).nb_steps,
                tick: 0,
                mode: V_BLANK,
                previous_mode: final(self).previous_mode,
                ..*old(self)
            }),
    {
        let ghost ctl = *controls;
        mem.write(0xFF44, 0);
        let ghost s0 = (*old(self), *old(cpu), *old(timer), *mem, *old(gpu));
        let ghost mut line_start: FrameState = s0;
        let ghost mut k: nat = 0;

        let mut i: u8 = 0;
        while i < 144
            invariant
                mem.wf(),
                gpu.wf(),
                timer.divider_ticks <= 0xFF00,
                timer.timer_ticks <= 0xFF00,
                *controls == ctl,
                ctl == *old(controls),
                s0 == (*old(self), *old(cpu), *old(timer), s0.3, *old(gpu)),
                lines_run(ctl, i as nat, true, s0, (*self, *cpu, *timer, *mem, *gpu)),
                gpu.bg_matrix == old(gpu).bg_matrix,
                gpu.window_matrix == old(gpu).window_matrix,
                gpu.sprite_matrix == old(gpu).sprite_matrix,
                old(gpu).line < 144,
                i <= 144,
                gpu.line as int == if old(gpu).line + i < 144 {
                    old(gpu).line + i
                } else {
                    old(gpu).line + i - 144
                },
                *self == (Master {
                    nb_steps: self.nb_steps,
                    tick: self.tick,
                    mode: self.mode,
                    previous_mode: self.previous_mode,
                    ..*old(self)
                }),
            decreases 144 - i,
        {
            proof {
                line_start = (*self, *cpu, *timer, *mem, *gpu);
                k = 0;
            }
            while self.tick < 114
                invariant
                    mem.wf(),
                    timer.divider_ticks <= 0xFF00,
                    timer.timer_ticks <= 0xFF00,
                    *controls == ctl,
                    i < 144,
                    frame_steps(ctl, i as nat, true, k, line_start, (*self, *cpu, *timer, *mem, *gpu)),
                    *self == (Master {
                        nb_steps: self.nb_steps,
                        tick: self.tick,
                        mode: self.mode,
                        previous_mode: self.previous_mode,
                        ..*old(self)
                    }),
                decreases
                        (if self.tick < 114 {
                            (114 - self.tick) as int
                        } else {
                            0int
                        }),
            {
                let ghost it_pre = (*self, *cpu, *timer, *mem, *gpu);
                if self.tick > 63 {
                    self.mode = H_BLANK;
                } else {
                    self.mode = PX_TRANSFER;
                }
                self.step(cpu, timer, controls, mem);
                let ghost im = *self;
                let ghost imem = *mem;
                self.lcd_stat(i, mem);
                proof {
                    let now = (*self, *cpu, *timer, *mem, *gpu);
                    assert(frame_step_with(ctl, i as nat, true, it_pre, im, imem, now));
                    assert(frame_step(ctl, i as nat, true, it_pre, now));
                    lemma_frame_steps_snoc(ctl, i as nat, true, k, line_start, it_pre, now);
                    k = k + 1;
                }
            }
            self.tick = 0;
            gpu.push_line(mem);

            let counter = mem.read(0xFF44);
            mem.write(0xFF44, counter.wrapping_add(1));
            proof {
                let now = (*self, *cpu, *timer, *mem, *gpu);
                assert(line_segment(ctl, i as nat, true, line_start, now));
                lemma_lines_run_snoc(ctl, i as nat, true, s0, line_start, now);
            }
            i = i + 1;
        }
        let ghost v = (*self, *cpu, *timer, *mem, *gpu);

        let flags = mem.read(0xFF0F);
        mem.write(0xFF0F, flags | 0b1);
        self.mode = V_BLANK;
        let ghost w = (*self, *cpu, *timer, *mem, *gpu);

        let mut j: u8 = 0;
        while j < 10
            invariant
                mem.wf(),
                timer.divider_ticks <= 0xFF00,
                timer.timer_ticks <= 0xFF00,
                *controls == ctl,
                j <= 10,
                j > 0 ==> self.tick == 0,
                lines_run(ctl, j as nat, false, w, (*self, *cpu, *timer, *mem, *gpu)),
                self.mode == V_BLANK,
                *self == (Master {
                    nb_steps: self.nb_steps,
                    tick: self.tick,
                    mode: V_BLANK,
                    previous_mode: self.previous_mode,
                    ..*old(self)
                }),
            decreases 10 - j,
        {
            proof {
                line_start = (*self, *cpu, *timer, *mem, *gpu);
                k = 0;
            }
            while self.tick < 114
                invariant
                    mem.wf(),
                    timer.divider_ticks <= 0xFF00,
                    timer.timer_ticks <= 0xFF00,
                    *controls == ctl,
                    frame_steps(ctl, j as nat, false, k, line_start, (*self, *cpu, *timer, *mem, *gpu)),
                    self.mode == V_BLANK,
                    *self == (Master {
                        nb_steps: self.nb_steps,
                        tick: self.tick,
                        mode: V_BLANK,
                        previous_mode: self.previous_mode,
                        ..*old(self)
                    }),
                decreases
                        (if self.tick < 114 {
                            (114 - self.tick) as int
                        } else {
                            0int
                        }),
            {
                let ghost it_pre = (*self, *cpu, *timer, *mem, *gpu);
                self.step(cpu, timer, controls, mem);
                let ghost im = *self;
                let ghost imem = *mem;
                self.lcd_stat(254, mem);
                proof {
                    let now = (*self, *cpu, *timer, *mem, *gpu);
                    assert(frame_step_with(ctl, j as nat, false, it_pre, im, imem, now));
                    assert(frame_step(ctl, j as nat, false, it_pre, now));
                    lemma_frame_steps_snoc(ctl, j as nat, false, k, line_start, it_pre, now);
                    k = k + 1;
                }
            }
            self.tick = 0;
            let counter = mem.read(0xFF44);
            mem.write(0xFF44, counter.wrapping_add(1));
            proof {
                let now = (*self, *cpu, *timer, *mem, *gpu);
                assert(line_segment(ctl, j as nat, false, line_start, now));
                lemma_lines_run_snoc(ctl, j as nat, false, w, line_start, now);
            }
            j = j + 1;
        }
        let ghost z = (*self, *cpu, *timer, *mem, *gpu);

        // the line-counter register is back at zero when the frame returns
        mem.write(0xFF44, 0);

        proof {
            assert(screen_stages(
                ctl,
                (*old(self), *old(cpu), *old(timer), *old(mem), *old(gpu)),
                s0.3,
                v,
                w,
                z,
                (*self, *cpu, *timer, *mem, *gpu),
            ));
        }
    }

    /// Evaluates the display-status interrupt conditions once.
    pub fn lcd_stat(&mut self, line: u8, mem: &mut Memory)
        requires
            old(mem).wf(),
        ensures
            final(mem).wf(),
            final(mem).cartridge == old(mem).cartridge,
            *final(self) == (Master { previous_mode: final(self).previous_mode, ..*old(self) }),
            lcd_stat_post(*old(self), line, *old(mem), *final(self), final(mem).ram@),
    {
        proof {
            reveal(lcd_stat_post);
        }
        if mem.read(0xFF41) & 0b0100000 > 0 && line == mem.read(0xFF45) && self.previous_mode
            == H_BLANK {
            let flags = mem.read(0xFF0F);
            mem.write(0xFF0F, flags | 0b0000_0010);
            self.previous_mode = self.mode;
        }
        if mem.read(0xFF41) & 0b0000_1000 > 0 && self.mode == H_BLANK && self.mode
            != self.previous_mode {
            let flags = mem.read(0xFF0F);
            mem.write(0xFF0F, flags | 0b0000_0010);
            self.previous_mode = self.mode;
        }
        if mem.read(0xFF41) & 0b0001_0000 > 0 && self.mode == V_BLANK && self.mode
            != self.previous_mode {
            let flags = mem.read(0xFF0F);
            mem.write(0xFF0F, flags | 0b0000_0010);
            self.previous_mode = self.mode;
        }
        if mem.read(0xFF41) & 0b0010000 > 0 && self.mode == PX_TRANSFER && self.mode
            != self.previous_mode {
            let flags = mem.read(0xFF0F);
            mem.write(0xFF0F, flags | 0b0000_0010);
            self.previous_mode = self.mode;
        }
    }
}

} // verus!
