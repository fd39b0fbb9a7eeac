//! What the console shows: a frame of RGBA pixels, drawn while the processor
//! is stepped at a pace set by a pixel timer, and a box that bounces inside
//! the screen.

use vstd::prelude::*;
use crate::cpu::{Atari, MAX_INSTRUCTION_CYCLES};
use crate::laws::lemma_step_cycles;
use crate::semantics::{CpuError, CpuState, step_spec};

verus! {

pub const WIDTH: u32 = 228;

pub const HEIGHT: u32 = 262;

pub const BOX_SIZE: i16 = 64;

/// The memory cell whose value picks the background colour.
pub const VIDEO_CELL: usize = 0x09;

/// The value of `VIDEO_CELL` that turns the background red.
pub const VIDEO_RED: u8 = 0x30;

/// Processor cycles in one frame: 76 cycles on each of the 262 lines.
pub const CYCLES_PER_FRAME: usize = 19912;

/// Pixels in one frame: `WIDTH` by `HEIGHT`.
pub const PIXELS_PER_FRAME: usize = 59736;

/// Column and rows drawn as green guide lines.
pub const GUIDE_X: usize = 68;

pub const GUIDE_TOP: usize = 37;

pub const GUIDE_BOTTOM: usize = 229;

/// The colour of pixel `i` when `VIDEO_CELL` holds `video`.
pub open spec fn pixel_rgba(i: int, video: u8) -> Seq<u8> {
    let x = i % WIDTH as int;
    let y = i / WIDTH as int;
    if x == GUIDE_X || y == GUIDE_TOP || y == GUIDE_BOTTOM {
        seq![0x00u8, 0xffu8, 0x00u8, 0xffu8]
    } else if video == VIDEO_RED {
        seq![0xffu8, 0x00u8, 0x00u8, 0xffu8]
    } else {
        seq![0x00u8, 0x00u8, 0x00u8, 0xffu8]
    }
}

/// Whether the processor is due a step at pixel-timer value `timer`: when
/// the cycles run so far are behind the share of a frame's cycles that the
/// timer's pixels stand for.
pub open spec fn step_due(s: CpuState, timer: nat) -> bool {
    timer * CYCLES_PER_FRAME > s.cycles * PIXELS_PER_FRAME
}

/// Where drawing stands after some pixels: the processor, the timer, how
/// many pixels were written, and the error that stopped drawing, if any.
pub struct FrameRun {
    pub cpu: CpuState,
    pub timer: nat,
    pub done: nat,
    pub error: Option<CpuError>,
}

/// Drawing `k` pixels from processor `s` and timer `timer`: at each pixel
/// the processor steps if it is due, then the timer ticks. A failed step
/// ends the frame.
pub open spec fn frame_run(s: CpuState, timer: nat, k: nat) -> FrameRun
    decreases k,
{
    if k == 0 {
        FrameRun { cpu: s, timer, done: 0, error: None }
    } else {
        let prev = frame_run(s, timer, (k - 1) as nat);
        if prev.error is Some {
            prev
        } else if step_due(prev.cpu, prev.timer) {
            match step_spec(prev.cpu) {
                Ok(t) => FrameRun { cpu: t, timer: prev.timer + 1, done: prev.done + 1, error: None },
                Err(e) => FrameRun { done: prev.done + 1, error: Some(e), ..prev },
            }
        } else {
            FrameRun { timer: prev.timer + 1, done: prev.done + 1, ..prev }
        }
    }
}

/// Byte `j` of a frame drawn from `s` and `timer`: the colour of its pixel
/// as the video cell stood when that pixel was reached.
pub open spec fn frame_byte(s: CpuState, timer: nat, j: int) -> u8 {
    pixel_rgba(j / 4, frame_run(s, timer, (j / 4) as nat).cpu.mem[VIDEO_CELL as int])[j % 4]
}

proof fn lemma_error_sticks(s: CpuState, timer: nat, k: nat, m: nat)
    requires
        k <= m,
        frame_run(s, timer, k).error is Some,
    ensures
        frame_run(s, timer, m) == frame_run(s, timer, k),
    decreases m - k,
{
    if k < m {
        lemma_error_sticks(s, timer, k, (m - 1) as nat);
    }
}

/// The colour of pixel `i` when `VIDEO_CELL` holds `video`.
pub fn pixel_color(i: usize, video: u8) -> (r: [u8; 4])
    ensures
        r@ == pixel_rgba(i as int, video),
{
    let x = i % (WIDTH as usize);
    let y = i / (WIDTH as usize);
    let r: [u8; 4] = if x == GUIDE_X || y == GUIDE_TOP || y == GUIDE_BOTTOM {
        [0x00, 0xff, 0x00, 0xff]
    } else if video == VIDEO_RED {
        [0xff, 0x00, 0x00, 0xff]
    } else {
        [0x00, 0x00, 0x00, 0xff]
    };
    assert(r@ =~= pixel_rgba(i as int, video));
    r
}

/// A box on the screen and the direction it moves in.
pub struct World {
    box_x: i16,
    box_y: i16,
    velocity_x: i16,
    velocity_y: i16,
}

/// Position and velocity of the box.
pub struct BoxState {
    pub x: int,
    pub y: int,
    pub vx: int,
    pub vy: int,
}

/// One move along an axis of length `extent`: the velocity turns round at
/// either edge, then the position moves by it.
pub open spec fn bounce(pos: int, vel: int, extent: int) -> (int, int) {
    let v = if pos <= 0 || pos + BOX_SIZE > extent {
        -vel
    } else {
        vel
    };
    (pos + v, v)
}

/// The positions a box reaches on an axis of length `extent` when it starts
/// inside and moves one step at a time.
pub open spec fn in_lane(pos: int, vel: int, extent: int) -> bool {
    ||| vel == 1 && 1 <= pos <= extent - BOX_SIZE + 1
    ||| vel == -1 && 0 <= pos <= extent - BOX_SIZE
}

impl View for World {
    type V = BoxState;

    closed spec fn view(&self) -> BoxState {
        BoxState {
            x: self.box_x as int,
            y: self.box_y as int,
            vx: self.velocity_x as int,
            vy: self.velocity_y as int,
        }
    }
}

impl World {
    /// The box stays on the screen and moves one pixel per update.
    pub open spec fn wf(&self) -> bool {
        in_lane(self@.x, self@.vx, WIDTH as int) && in_lane(self@.y, self@.vy, HEIGHT as int)
    }

    /// A box at (24, 16) moving down and right.
    pub fn new() -> (r: World)
        ensures
            r.wf(),
            r@ == (BoxState { x: 24, y: 16, vx: 1, vy: 1 }),
    {
        World { box_x: 24, box_y: 16, velocity_x: 1, velocity_y: 1 }
    }

    /// Where the box is.
    pub fn position(&self) -> (r: (i16, i16))
        ensures
            r.0 as int == self@.x,
            r.1 as int == self@.y,
    {
        (self.box_x, self.box_y)
    }

    /// Moves the box one step, turning round at the edges.
    pub fn update(&mut self)
        requires
            old(self).wf(),
        ensures
            final(self).wf(),
            (final(self)@.x, final(self)@.vx) == bounce(old(self)@.x, old(self)@.vx, WIDTH as int),
            (final(self)@.y, final(self)@.vy) == bounce(old(self)@.y, old(self)@.vy, HEIGHT as int),
    {
        if self.box_x <= 0 || self.box_x + BOX_SIZE > WIDTH as i16 {
            self.velocity_x = -self.velocity_x;
        }
        if self.box_y <= 0 || self.box_y + BOX_SIZE > HEIGHT as i16 {
            self.velocity_y = -self.velocity_y;
        }
        self.box_x = self.box_x + self.velocity_x;
        self.box_y = self.box_y + self.velocity_y;
    }

    /// Draws a frame of RGBA pixels, four bytes each. Each pixel's colour is
    /// chosen from the video cell and written first; then the processor is
    /// stepped if it is due, and the pixel timer ticks. A failed step ends
    /// the frame with its error and leaves the later pixels as they were.
    pub fn draw(&self, frame: &mut [u8], atari: &mut Atari, timer: &mut usize) -> (r: Result<
        (),
        CpuError,
    >)
        requires
            *old(timer) + old(frame)@.len() / 4 <= usize::MAX,
            old(atari)@.cycles + (old(frame)@.len() / 4) * MAX_INSTRUCTION_CYCLES <= usize::MAX,
        ensures
            ({
                let fr = frame_run(old(atari)@, *old(timer) as nat, (old(frame)@.len() / 4) as nat);
                &&& final(atari)@ == fr.cpu
                &&& *final(timer) == fr.timer
                &&& r == match fr.error {
                    None => Ok::<(), CpuError>(()),
                    Some(e) => Err(e),
                }
                &&& final(frame)@.len() == old(frame)@.len()
                &&& forall|j: int|
                    0 <= j < old(frame)@.len() ==> #[trigger] final(frame)@[j] == if j < 4
                        * fr.done {
                        frame_byte(old(atari)@, *old(timer) as nat, j)
                    } else {
                        old(frame)@[j]
                    }
            }),
    {
        let ghost s0 = atari@;
        let ghost t0 = *timer as nat;
        let n = frame.len() / 4;
        let mut i: usize = 0;
        while i < n
            invariant
                n == old(frame)@.len() / 4,
                0 <= i <= n,
                frame@.len() == old(frame)@.len(),
                s0 == old(atari)@,
                t0 == *old(timer) as nat,
                frame_run(s0, t0, i as nat).error is None,
                frame_run(s0, t0, i as nat).done == i,
                frame_run(s0, t0, i as nat).timer == t0 + i,
                atari@ == frame_run(s0, t0, i as nat).cpu,
                *timer == t0 + i,
                atari@.cycles <= s0.cycles + i * MAX_INSTRUCTION_CYCLES,
                t0 + n <= usize::MAX,
                s0.cycles + n * MAX_INSTRUCTION_CYCLES <= usize::MAX,
                forall|j: int|
                    0 <= j < frame@.len() ==> #[trigger] frame@[j] == if j < 4 * i {
                        frame_byte(s0, t0, j)
                    } else {
                        old(frame)@[j]
                    },
            decreases n - i,
        {
            let rgba = pixel_color(i, atari.read_mem(VIDEO_CELL));
            let ghost before = frame@;
            frame[4 * i] = rgba[0];
            frame[4 * i + 1] = rgba[1];
            frame[4 * i + 2] = rgba[2];
            frame[4 * i + 3] = rgba[3];
            assert forall|j: int| 0 <= j < frame@.len() implies #[trigger] frame@[j] == if j < 4 * (
            i + 1) {
                frame_byte(s0, t0, j)
            } else {
                old(frame)@[j]
            } by {
                if 4 * i <= j < 4 * (i + 1) {
                    assert(j / 4 == i as int);
                    assert(j % 4 == j - 4 * i);
                } else {
                    assert(frame@[j] == before[j]);
                }
            }
            if (*timer as u128) * (CYCLES_PER_FRAME as u128) > (atari.cycles() as u128) * (
            PIXELS_PER_FRAME as u128) {
                proof {
                    lemma_step_cycles(atari@);
                }
                match atari.execute_step() {
                    Ok(()) => {},
                    Err(e) => {
                        proof {
                            lemma_error_sticks(s0, t0, (i + 1) as nat, n as nat);
                        }
                        return Err(e);
                    },
                }
            }
            *timer = *timer + 1;
            i = i + 1;
        }
        Ok(())
    }
}

} // verus!
