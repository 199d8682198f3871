use vstd::prelude::*;
use crate::cpu::model::{Machine, store};
use crate::cpu::CPU;

verus! {

/// Number of slots of the key queue; one fewer keys can wait in it.
pub const QUEUE_SLOTS: usize = 32;

/// Address where a program finds the last key pressed.
pub const INPUT_ADDR: u16 = 0xFF;

/// First address of the screen memory: one byte per pixel, row by row.
pub const SCREEN_START: u16 = 0x200;

/// Number of pixels on the 32 by 32 screen.
pub const SCREEN_PIXELS: usize = 1024;

/// Length of an RGB frame of the screen: three bytes per pixel.
pub const FRAME_LEN: usize = 3072;

/// The first key of a queue's contents, or 0 when it is empty.
pub open spec fn front(s: Seq<u8>) -> u8 {
    if s.len() == 0 {
        0
    } else {
        s[0]
    }
}

/// A queue's contents after the first key leaves, if there is one.
pub open spec fn rest(s: Seq<u8>) -> Seq<u8> {
    if s.len() == 0 {
        s
    } else {
        s.subrange(1, s.len() as int)
    }
}

/// Keys waiting to be handed to the program, oldest first. When it is full,
/// a new key pushes out the oldest one.
pub struct Queue {
    tail: usize,
    data: [u8; QUEUE_SLOTS],
}

impl View for Queue {
    type V = Seq<u8>;

    closed spec fn view(&self) -> Seq<u8> {
        self.data@.subrange(0, self.tail as int)
    }
}

impl Queue {
    /// At most `QUEUE_SLOTS - 1` keys wait, and the slots past them are zero.
    pub closed spec fn wf(&self) -> bool {
        &&& self.tail < QUEUE_SLOTS
        &&& forall|i: int| self.tail <= i < QUEUE_SLOTS ==> #[trigger] self.data@[i] == 0
    }

    pub fn new() -> (r: Queue)
        ensures
            r.wf(),
            r@ == Seq::<u8>::empty(),
    {
        let r = Queue { tail: 0, data: [0u8; QUEUE_SLOTS] };
        assert(r@ =~= Seq::<u8>::empty());
        r
    }

    /// Drops the oldest key, if any.
    pub fn shift(&mut self)
        requires
            old(self).wf(),
        ensures
            final(self).wf(),
            final(self)@ == rest(old(self)@),
    {
        if self.tail == 0 {
            return;
        }
        let ghost d0 = self.data@;
        let mut i: usize = 0;
        while i < QUEUE_SLOTS - 1
            invariant
                0 <= i < QUEUE_SLOTS,
                self.tail == old(self).tail,
                d0 == old(self).data@,
                forall|k: int| 0 <= k < i ==> #[trigger] self.data@[k] == d0[k + 1],
                forall|k: int| i <= k < QUEUE_SLOTS ==> #[trigger] self.data@[k] == d0[k],
            decreases QUEUE_SLOTS - 1 - i,
        {
            self.data[i] = self.data[i + 1];
            i += 1;
        }
        self.tail -= 1;
        assert(self@ =~= rest(old(self)@));
    }

    /// Takes out the oldest key; 0 when none waits.
    pub fn pop(&mut self) -> (r: u8)
        requires
            old(self).wf(),
        ensures
            final(self).wf(),
            r == front(old(self)@),
            final(self)@ == rest(old(self)@),
    {
        let v = self.data[0];
        self.shift();
        v
    }

    /// Adds key `d` behind the others, first dropping the oldest when full.
    pub fn push(&mut self, d: u8)
        requires
            old(self).wf(),
        ensures
            final(self).wf(),
            old(self)@.len() < QUEUE_SLOTS - 1 ==> final(self)@ == old(self)@.push(d),
            old(self)@.len() == QUEUE_SLOTS - 1 ==> final(self)@ == rest(old(self)@).push(d),
    {
        if self.tail >= QUEUE_SLOTS - 1 {
            self.shift();
        }
        let ghost before = self@;
        self.data[self.tail] = d;
        self.tail += 1;
        assert(self@ =~= before.push(d));
    }
}

impl Default for Queue {
    fn default() -> (r: Queue)
        ensures
            r.wf(),
            r@ == Seq::<u8>::empty(),
    {
        Queue::new()
    }
}

/// Hands the oldest waiting key, if any, to the program by writing it to the
/// input address.
pub fn handle_user_input(cpu: &mut CPU, q: &mut Queue)
    requires
        old(q).wf(),
    ensures
        final(q).wf(),
        final(q)@ == rest(old(q)@),
        front(old(q)@) > 0 ==> final(cpu)@ == store(old(cpu)@, INPUT_ADDR, front(old(q)@)),
        front(old(q)@) == 0 ==> final(cpu)@ == old(cpu)@,
{
    let w = q.pop();
    if w > 0 {
        cpu.bus.write(INPUT_ADDR, w);
    }
}

/// The colors of the screen's palette.
#[derive(Clone, Copy, Debug, PartialEq, Eq, Structural)]
pub enum Shade {
    Black,
    White,
    Grey,
    Red,
    Green,
    Blue,
    Magenta,
    Yellow,
    Cyan,
}

/// The color that a screen byte shows.
pub open spec fn shade_of(byte: u8) -> Shade {
    match byte {
        0 => Shade::Black,
        1 => Shade::White,
        2 | 9 => Shade::Grey,
        3 | 10 => Shade::Red,
        4 | 11 => Shade::Green,
        5 | 12 => Shade::Blue,
        6 | 13 => Shade::Magenta,
        7 | 14 => Shade::Yellow,
        _ => Shade::Cyan,
    }
}

/// The position of a color in a palette.
pub open spec fn slot_of(s: Shade) -> int {
    match s {
        Shade::Black => 0,
        Shade::White => 1,
        Shade::Grey => 2,
        Shade::Red => 3,
        Shade::Green => 4,
        Shade::Blue => 5,
        Shade::Magenta => 6,
        Shade::Yellow => 7,
        Shade::Cyan => 8,
    }
}

impl Shade {
    /// The position of this color in a palette.
    pub fn slot(&self) -> (r: usize)
        ensures
            r == slot_of(*self),
    {
        match self {
            Shade::Black => 0,
            Shade::White => 1,
            Shade::Grey => 2,
            Shade::Red => 3,
            Shade::Green => 4,
            Shade::Blue => 5,
            Shade::Magenta => 6,
            Shade::Yellow => 7,
            Shade::Cyan => 8,
        }
    }
}

pub fn color(byte: u8) -> (r: Shade)
    ensures
        r == shade_of(byte),
{
    match byte {
        0 => Shade::Black,
        1 => Shade::White,
        2 | 9 => Shade::Grey,
        3 | 10 => Shade::Red,
        4 | 11 => Shade::Green,
        5 | 12 => Shade::Blue,
        6 | 13 => Shade::Magenta,
        7 | 14 => Shade::Yellow,
        _ => Shade::Cyan,
    }
}

/// Byte `j` of the RGB frame of screen memory in `mem`, colors taken from
/// `palette`.
pub open spec fn frame_byte(mem: Seq<u8>, palette: Seq<[u8; 3]>, j: int) -> u8 {
    palette[slot_of(shade_of(mem[SCREEN_START + j / 3]))]@[j % 3]
}

/// Renders screen memory into `frame` as RGB bytes, colors taken from
/// `palette`, and reports whether the frame changed.
pub fn read_screen_state(cpu: &CPU, frame: &mut [u8; FRAME_LEN], palette: &[[u8; 3]; 9]) -> (r:
    bool)
    ensures
        forall|j: int|
            0 <= j < FRAME_LEN ==> #[trigger] final(frame)@[j] == frame_byte(
                cpu@.mem,
                palette@,
                j,
            ),
        r == (final(frame)@ != old(frame)@),
{
    let mut frame_idx: usize = 0;
    let mut update = false;
    let mut p: usize = 0;
    while p < SCREEN_PIXELS
        invariant
            p <= SCREEN_PIXELS,
            frame_idx == 3 * p,
            forall|j: int| 0 <= j < frame_idx ==> #[trigger] frame@[j] == frame_byte(
                cpu@.mem,
                palette@,
                j,
            ),
            forall|j: int| frame_idx <= j < FRAME_LEN ==> #[trigger] frame@[j] == old(frame)@[j],
            update <==> exists|j: int| 0 <= j < frame_idx && #[trigger] frame@[j] != old(frame)@[j],
        decreases SCREEN_PIXELS - p,
    {
        let color_idx = cpu.bus.read(SCREEN_START + p as u16);
        let rgb = palette[color(color_idx).slot()];
        assert(frame_idx / 3 == p && (frame_idx + 1) / 3 == p && (frame_idx + 2) / 3 == p);
        assert(frame_idx % 3 == 0 && (frame_idx + 1) % 3 == 1 && (frame_idx + 2) % 3 == 2);
        if frame[frame_idx] != rgb[0] || frame[frame_idx + 1] != rgb[1] || frame[frame_idx + 2]
            != rgb[2] {
            frame[frame_idx] = rgb[0];
            frame[frame_idx + 1] = rgb[1];
            frame[frame_idx + 2] = rgb[2];
            update = true;
            assert(frame@[frame_idx as int] != old(frame)@[frame_idx as int] || frame@[frame_idx
                + 1] != old(frame)@[frame_idx + 1] || frame@[frame_idx + 2] != old(frame)@[frame_idx
                + 2]);
        }
        frame_idx += 3;
        p += 1;
    }
    if !update {
        assert(frame@ =~= old(frame)@);
    }
    update
}

} // verus!
