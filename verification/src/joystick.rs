use vstd::prelude::*;

verus! {

/// Pause between two joystick samples, in milliseconds.
pub const SAMPLE_PERIOD_MS: u64 = 50;

/// A change of an axis by more than this many ADC counts is a movement.
pub const MOVE_THRESHOLD: u16 = 100;

/// Position of the joystick as two raw ADC readings.
#[derive(Clone, Copy, Debug, PartialEq, Eq, Structural)]
pub struct JoystickData {
    pub x: u16,
    pub y: u16,
}

/// Distance between two readings.
pub open spec fn spec_abs_diff(a: u16, b: u16) -> int {
    if a >= b {
        a - b
    } else {
        b - a
    }
}

/// Whether `reading` moved away from `reference` by more than the threshold.
pub open spec fn moved(reading: u16, reference: u16) -> bool {
    spec_abs_diff(reading, reference) > MOVE_THRESHOLD
}

/// The distance between two readings.
fn abs_diff(a: u16, b: u16) -> (d: u16)
    ensures
        d == spec_abs_diff(a, b),
{
    if a >= b {
        a - b
    } else {
        b - a
    }
}

/// Decides which joystick samples are worth publishing: those that move an
/// axis by more than the threshold away from its reference reading, those
/// in which the button goes down, and the very first one.
#[derive(Clone, Copy, Debug, PartialEq, Eq, Structural)]
pub struct JoystickTracker {
    /// Last recorded reading of the x axis.
    pub ref_x: u16,
    /// Last recorded reading of the y axis.
    pub ref_y: u16,
    /// Whether the button was down in the previous sample.
    pub button_was_down: bool,
    /// Whether the next sample must be published whatever it holds.
    pub pending: bool,
}

/// The tracker after a sample.
pub open spec fn spec_track(t: JoystickTracker, x: u16, y: u16, button_down: bool) -> JoystickTracker {
    JoystickTracker {
        ref_x: if moved(x, t.ref_x) {
            x
        } else {
            t.ref_x
        },
        ref_y: if moved(y, t.ref_y) {
            y
        } else {
            t.ref_y
        },
        button_was_down: button_down,
        pending: false,
    }
}

/// Whether a sample is a button press: the button is down now and was not
/// down in the previous sample.
pub open spec fn is_press(t: JoystickTracker, button_down: bool) -> bool {
    button_down && !t.button_was_down
}

/// Whether a sample is published.
pub open spec fn spec_publishes(t: JoystickTracker, x: u16, y: u16, button_down: bool) -> bool {
    t.pending || moved(x, t.ref_x) || moved(y, t.ref_y) || is_press(t, button_down)
}

impl JoystickTracker {
    /// A tracker with both references at 0, the button up, and the first
    /// sample to be published.
    pub fn new() -> (res: JoystickTracker)
        ensures
            res.ref_x == 0,
            res.ref_y == 0,
            !res.button_was_down,
            res.pending,
    {
        JoystickTracker { ref_x: 0, ref_y: 0, button_was_down: false, pending: true }
    }

    /// Whether a sample with the button in the given position is a press:
    /// down now, and not down in the previous sample. Asked before
    /// `on_sample` takes the sample in.
    pub fn is_press(&self, button_down: bool) -> (press: bool)
        ensures
            press == is_press(*self, button_down),
    {
        button_down && !self.button_was_down
    }

    /// Takes in one sample (`button_down` is true when the button pin reads
    /// low) and returns the position to publish, if any. A published
    /// position is the sample itself.
    pub fn on_sample(&mut self, x: u16, y: u16, button_down: bool) -> (published: Option<
        JoystickData,
    >)
        ensures
            *final(self) == spec_track(*old(self), x, y, button_down),
            spec_publishes(*old(self), x, y, button_down) ==> published == Some(
                JoystickData { x, y },
            ),
            !spec_publishes(*old(self), x, y, button_down) ==> published is None,
    {
        let mut publish = self.pending;
        if abs_diff(x, self.ref_x) > MOVE_THRESHOLD {
            self.ref_x = x;
            publish = true;
        }
        if abs_diff(y, self.ref_y) > MOVE_THRESHOLD {
            self.ref_y = y;
            publish = true;
        }
        if self.is_press(button_down) {
            publish = true;
        }
        self.button_was_down = button_down;
        self.pending = false;
        if publish {
            Some(JoystickData { x, y })
        } else {
            None
        }
    }
}

/// Publishing on the readings themselves: a sample that moves either axis
/// by more than 100 counts from its reference, up or down, is published and
/// that axis's reference becomes the reading; a sample within 100 counts of
/// both references, up or down, with nothing pending and no button press,
/// is not published and leaves both references as they were.
pub proof fn lemma_publish_by_distance(t: JoystickTracker, x: u16, y: u16, button_down: bool)
    ensures
        x as int - t.ref_x as int > 100 || t.ref_x as int - x as int > 100 ==> spec_publishes(
            t,
            x,
            y,
            button_down,
        ) && spec_track(t, x, y, button_down).ref_x == x,
        y as int - t.ref_y as int > 100 || t.ref_y as int - y as int > 100 ==> spec_publishes(
            t,
            x,
            y,
            button_down,
        ) && spec_track(t, x, y, button_down).ref_y == y,
        -100 <= x as int - t.ref_x as int <= 100 ==> spec_track(t, x, y, button_down).ref_x
            == t.ref_x,
        -100 <= y as int - t.ref_y as int <= 100 ==> spec_track(t, x, y, button_down).ref_y
            == t.ref_y,
        -100 <= x as int - t.ref_x as int <= 100 && -100 <= y as int - t.ref_y as int <= 100
            && !t.pending && !(button_down && !t.button_was_down) ==> !spec_publishes(
            t,
            x,
            y,
            button_down,
        ),
        button_down && !t.button_was_down ==> spec_publishes(t, x, y, button_down),
        t.pending ==> spec_publishes(t, x, y, button_down),
        spec_track(t, x, y, button_down).button_was_down == button_down,
        !spec_track(t, x, y, button_down).pending,
        is_press(t, button_down) == (button_down && !t.button_was_down),
{
}

/// The distance between two readings is symmetric, never more than 65535,
/// and is what separates the smaller from the larger.
pub proof fn lemma_abs_diff_is_distance(a: u16, b: u16)
    ensures
        spec_abs_diff(a, b) == spec_abs_diff(b, a),
        0 <= spec_abs_diff(a, b) <= 0xffff,
        a <= b ==> a + spec_abs_diff(a, b) == b,
        b <= a ==> b + spec_abs_diff(a, b) == a,
{
}

/// The first sample a new tracker sees is always published.
pub proof fn lemma_first_sample_published(x: u16, y: u16, button_down: bool)
    ensures
        spec_publishes(
            JoystickTracker { ref_x: 0, ref_y: 0, button_was_down: false, pending: true },
            x,
            y,
            button_down,
        ),
{
}

/// After any sample, each reference reading lies within the threshold of
/// the sample just taken, and nothing is pending.
pub proof fn lemma_track_settles(t: JoystickTracker, x: u16, y: u16, button_down: bool)
    ensures
        !moved(x, spec_track(t, x, y, button_down).ref_x),
        !moved(y, spec_track(t, x, y, button_down).ref_y),
        !spec_track(t, x, y, button_down).pending,
{
}

/// The same sample taken twice in a row is published at most once: a
/// joystick at rest with the button held down yields nothing new.
pub proof fn lemma_repeated_sample_is_quiet(
    t: JoystickTracker,
    x: u16,
    y: u16,
    button_down: bool,
)
    ensures
        !spec_publishes(spec_track(t, x, y, button_down), x, y, button_down),
{
    lemma_track_settles(t, x, y, button_down);
}

/// A button held down is a press once: the sample after a press, with the
/// button still down, is no press. A press is always published, whatever
/// the stick does.
pub proof fn lemma_press_once_per_hold(t: JoystickTracker, x: u16, y: u16)
    ensures
        !is_press(spec_track(t, x, y, true), true),
        is_press(t, true) ==> spec_publishes(t, x, y, true),
        !is_press(t, false),
{
}

/// A reference reading changes only when the axis moved past the
/// threshold, and then it becomes the new reading.
pub proof fn lemma_reference_follows_movement(
    t: JoystickTracker,
    x: u16,
    y: u16,
    button_down: bool,
)
    ensures
        spec_track(t, x, y, button_down).ref_x != t.ref_x ==> moved(x, t.ref_x)
            && spec_track(t, x, y, button_down).ref_x == x,
        spec_track(t, x, y, button_down).ref_y != t.ref_y ==> moved(y, t.ref_y)
            && spec_track(t, x, y, button_down).ref_y == y,
{
}

} // verus!
