use vstd::prelude::*;
use crate::color::Color565;
use crate::frame::FrameBuffer;
use crate::frame::apply_buffer;
use crate::frame::encodes;
use crate::input::Direction;
use crate::input::InputEvent;
use crate::input::TickAction;
use crate::input::normalize_events;
use crate::input::tick_command;

verus! {

/// Width of the display surface, in pixels.
pub const SCREEN_WIDTH: u32 = 128;

/// Height of the display surface, in pixels.
pub const SCREEN_HEIGHT: u32 = 128;

/// Ticks of the loop per second.
pub const TICKS_PER_SECOND: u32 = 20;

/// The loop's state after one tick's events, from its state before: once stopped it stays
/// stopped; otherwise a quit stops it, and any other cycle sets the pending direction
/// afresh from that cycle's events alone.
pub open spec fn after_tick(stopped: bool, pending: Direction, events: Seq<InputEvent>) -> (
    bool,
    Direction,
) {
    if stopped {
        (true, pending)
    } else {
        match tick_command(events) {
            TickAction::Stop => (true, Direction::Neutral),
            TickAction::Step(d) => (false, d),
        }
    }
}

/// The per-tick driver: it owns the color frame and the byte buffer, both allocated once,
/// and decides from each tick's events whether to go on and which way to steer.
pub struct RenderLoop {
    stopped: bool,
    pending: Direction,
    frame: FrameBuffer,
    pixels: Vec<u8>,
}

impl RenderLoop {
    pub closed spec fn is_stopped(&self) -> bool {
        self.stopped
    }

    /// The direction decided by the last tick.
    pub closed spec fn pending(&self) -> Direction {
        self.pending
    }

    pub closed spec fn frame(&self) -> FrameBuffer {
        self.frame
    }

    /// The byte buffer handed to the display.
    pub closed spec fn bytes(&self) -> Seq<u8> {
        self.pixels@
    }

    /// The frame is well formed and the byte buffer holds two bytes per pixel.
    pub open spec fn wf(&self) -> bool {
        &&& self.frame().wf()
        &&& self.bytes().len() == 2 * self.frame()@.len()
    }

    /// A running loop over a `width` by `height` frame, all black, with a zeroed byte
    /// buffer and no pending direction.
    pub fn new(width: usize, height: usize) -> (l: RenderLoop)
        requires
            2 * (width * height) <= usize::MAX,
            2 * width <= usize::MAX,
        ensures
            l.wf(),
            !l.is_stopped(),
            l.pending() == Direction::Neutral,
            l.frame().spec_width() == width,
            l.frame().spec_height() == height,
            l.frame()@ == Seq::new((width * height) as nat, |i: int| Color565 { r: 0, g: 0, b: 0 }),
            l.bytes() == Seq::new(2 * (width * height) as nat, |i: int| 0u8),
    {
        let frame = FrameBuffer::new(width, height, Color565::new(0, 0, 0));
        let n: usize = 2 * (width * height);
        let mut pixels: Vec<u8> = Vec::with_capacity(n);
        let mut i: usize = 0;
        while i < n
            invariant
                i <= n,
                pixels@ == Seq::new(i as nat, |j: int| 0u8),
            decreases n - i,
        {
            pixels.push(0u8);
            i = i + 1;
            assert(pixels@ =~= Seq::new(i as nat, |j: int| 0u8));
        }
        RenderLoop { stopped: false, pending: Direction::Neutral, frame, pixels }
    }

    /// Starts a tick: drains its events and says whether to stop or which direction to
    /// hand the simulation. The direction is recomputed from these events alone.
    pub fn begin_tick(&mut self, events: &Vec<InputEvent>) -> (a: TickAction)
        requires
            old(self).wf(),
        ensures
            final(self).wf(),
            final(self).frame() == old(self).frame(),
            final(self).bytes() == old(self).bytes(),
            (final(self).is_stopped(), final(self).pending()) == after_tick(
                old(self).is_stopped(),
                old(self).pending(),
                events@,
            ),
            old(self).is_stopped() ==> a == TickAction::Stop,
            !old(self).is_stopped() ==> a == tick_command(events@),
            a == TickAction::Stop <==> final(self).is_stopped(),
    {
        if self.stopped {
            return TickAction::Stop;
        }
        let a = normalize_events(events);
        match a {
            TickAction::Stop => {
                self.stopped = true;
                self.pending = Direction::Neutral;
            },
            TickAction::Step(d) => {
                self.pending = d;
            },
        }
        a
    }

    /// Paints the whole frame with the background color `c`.
    pub fn clear(&mut self, c: Color565)
        requires
            old(self).wf(),
            !old(self).is_stopped(),
            c.wf(),
        ensures
            final(self).wf(),
            !final(self).is_stopped(),
            final(self).pending() == old(self).pending(),
            final(self).bytes() == old(self).bytes(),
            final(self).frame().spec_width() == old(self).frame().spec_width(),
            final(self).frame().spec_height() == old(self).frame().spec_height(),
            final(self).frame()@ == Seq::new(old(self).frame()@.len(), |i: int| c),
    {
        self.frame.clear(c);
    }

    /// Sets the frame's pixel at row-major index `i` to `c`.
    pub fn set_pixel(&mut self, i: usize, c: Color565)
        requires
            old(self).wf(),
            !old(self).is_stopped(),
            i < old(self).frame()@.len(),
            c.wf(),
        ensures
            final(self).wf(),
            !final(self).is_stopped(),
            final(self).pending() == old(self).pending(),
            final(self).bytes() == old(self).bytes(),
            final(self).frame().spec_width() == old(self).frame().spec_width(),
            final(self).frame().spec_height() == old(self).frame().spec_height(),
            final(self).frame()@ == old(self).frame()@.update(i as int, c),
    {
        self.frame.set_pixel(i, c);
    }

    /// The number of pixels in the frame.
    pub fn pixel_count(&self) -> (n: usize)
        requires
            self.wf(),
        ensures
            n == self.frame()@.len(),
    {
        self.frame.len()
    }

    /// Converts the frame into the byte buffer, in place.
    pub fn render(&mut self)
        requires
            old(self).wf(),
            !old(self).is_stopped(),
        ensures
            final(self).wf(),
            !final(self).is_stopped(),
            final(self).pending() == old(self).pending(),
            final(self).frame() == old(self).frame(),
            encodes(final(self).frame()@, final(self).bytes()),
    {
        apply_buffer(&mut self.pixels, &self.frame);
    }

    /// The byte buffer, for upload to the display.
    pub fn bytes_out(&self) -> (b: &[u8])
        ensures
            b@ == self.bytes(),
    {
        self.pixels.as_slice()
    }

    /// Bytes per row of the byte buffer: two per pixel.
    pub fn stride(&self) -> (s: usize)
        requires
            self.wf(),
        ensures
            s == 2 * self.frame().spec_width(),
    {
        2 * self.frame.width()
    }
}

/// The length of one tick, in nanoseconds.
pub fn tick_period_nanos() -> (n: u32)
    ensures
        n == 1_000_000_000u32 / TICKS_PER_SECOND,
{
    1_000_000_000u32 / TICKS_PER_SECOND
}

/// The direction is not carried over: after a tick that steered one way, a tick whose
/// events hold no button and no quit steers nowhere.
pub proof fn lemma_direction_not_carried(
    pending: Direction,
    first: Seq<InputEvent>,
    second: Seq<InputEvent>,
)
    requires
        !after_tick(false, pending, first).0,
        forall|j: int|
            0 <= j < second.len() ==> !crate::input::is_button(#[trigger] second[j])
                && !crate::input::is_quit(second[j]),
    ensures
        after_tick(
            after_tick(false, pending, first).0,
            after_tick(false, pending, first).1,
            second,
        ) == (false, Direction::Neutral),
{
    crate::input::lemma_no_button_no_direction(second);
}

/// Once a tick's events hold a quit request, the loop is stopped and stays stopped:
/// every later tick stops as well.
pub proof fn lemma_quit_is_final(
    stopped: bool,
    pending: Direction,
    events: Seq<InputEvent>,
    k: int,
    later: Seq<InputEvent>,
)
    requires
        0 <= k < events.len(),
        crate::input::is_quit(events[k]),
    ensures
        after_tick(stopped, pending, events).0,
        after_tick(after_tick(stopped, pending, events).0, after_tick(stopped, pending, events).1, later).0,
{
    crate::input::lemma_quit_anywhere_stops(events, k);
}

} // verus!
