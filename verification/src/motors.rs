use vstd::prelude::*;

use crate::server::SuccessResponse;

verus! {

/// Body of a `POST /motor` or `POST /servo` request: `{"value": <u32>}`.
#[derive(Clone, Copy, Debug, PartialEq, Eq, Structural)]
pub struct MotorsRequest {
    pub value: u32,
}

/// Handles `POST /motor`: the value to signal to the motor task and the
/// answer to send back.
pub fn motor_handler(input: MotorsRequest) -> (res: (u32, SuccessResponse))
    ensures
        res.0 == input.value,
        res.1.success,
{
    (input.value, SuccessResponse::accepted())
}

/// Handles `POST /servo`: the angle to signal to the motor task and the
/// answer to send back.
pub fn servo_handler(input: MotorsRequest) -> (res: (u32, SuccessResponse))
    ensures
        res.0 == input.value,
        res.1.success,
{
    (input.value, SuccessResponse::accepted())
}

/// Length of one PWM period of the 50 Hz timer, in microseconds.
pub const PWM_PERIOD_US: u32 = 20000;

/// Servo pulse width at 0 degrees, in microseconds.
pub const SERVO_MIN_PULSE_US: u32 = 800;

/// Servo pulse width at 180 degrees, in microseconds.
pub const SERVO_MAX_PULSE_US: u32 = 2200;

/// Pulse width that arms the motor controller (full reverse), in microseconds.
pub const MOTOR_MIN_PULSE_US: u32 = 1000;

/// Pulse width of full throttle, in microseconds.
pub const MOTOR_MAX_PULSE_US: u32 = 2000;

/// Pulse width at which the motor stands still, in microseconds.
pub const MOTOR_NEUTRAL_PULSE_US: u32 = 1500;

/// Angle the servo is centred to at start-up.
pub const SERVO_START_ANGLE: u32 = 90;

/// Motor duty set once the controller is armed.
pub const MOTOR_IDLE_DUTY: u16 = 150;

/// Pause between the arming steps of the motor controller, in milliseconds.
pub const ARMING_PAUSE_MS: u64 = 2000;

/// The duty, as an integer, that `duty_from_angle` computes before it is
/// narrowed to 16 bits.
pub open spec fn spec_duty_from_angle(deg: int, min_duty: int, duty_gap: int) -> int {
    min_duty + (deg * duty_gap) / 180
}

/// Duty value for the servo at `deg` degrees: `min_duty` plus the share
/// `deg / 180` of `duty_gap`, rounded down and narrowed to 16 bits.
pub fn duty_from_angle(deg: u32, min_duty: u32, duty_gap: u32) -> (duty: u16)
    requires
        deg * duty_gap <= u32::MAX,
        spec_duty_from_angle(deg as int, min_duty as int, duty_gap as int) <= u32::MAX,
    ensures
        duty as int == spec_duty_from_angle(deg as int, min_duty as int, duty_gap as int)
            % 0x10000,
{
    let duty = min_duty + ((deg * duty_gap) / 180);
    proof {
        assert(duty as u16 == duty % 0x10000) by (bit_vector);
    }
    duty as u16
}

/// Duty that a channel with the given maximum duty needs for a pulse of
/// `pulse_us` microseconds in a 20 ms period.
pub open spec fn spec_pulse_duty(pulse_us: int, max_duty: int) -> int {
    (pulse_us * max_duty) / (PWM_PERIOD_US as int)
}

/// A command that reaches the motor task.
#[derive(Clone, Copy, Debug, PartialEq, Eq, Structural)]
pub enum MotorCommand {
    /// Turn the servo to the given angle, in degrees.
    Servo(u32),
    /// Drive the motor with the given raw duty.
    Motor(u32),
}

/// A step of work for the PWM channels.
#[derive(Clone, Copy, Debug, PartialEq, Eq, Structural)]
pub enum MotorStep {
    /// Set the duty of the servo channel.
    SetServoDuty(u16),
    /// Set the duty of the motor channel.
    SetMotorDuty(u16),
    /// Wait the given number of milliseconds.
    WaitMillis(u64),
}

/// Duty values of the servo and motor channels, derived from the maximum
/// duty of each channel.
#[derive(Clone, Copy, Debug, PartialEq, Eq, Structural)]
pub struct MotorCalibration {
    pub servo_max_duty: u16,
    pub motor_max_duty: u16,
    pub servo_min: u32,
    pub servo_max: u32,
    pub servo_gap: u32,
    pub motor_min: u32,
    pub motor_max: u32,
    pub neutral: u32,
}

impl MotorCalibration {
    /// Every duty value is the one its pulse width gives for the channel's
    /// maximum duty.
    pub open spec fn wf(self) -> bool {
        &&& self.servo_min == spec_pulse_duty(
            SERVO_MIN_PULSE_US as int,
            self.servo_max_duty as int,
        )
        &&& self.servo_max == spec_pulse_duty(
            SERVO_MAX_PULSE_US as int,
            self.servo_max_duty as int,
        )
        &&& self.servo_gap == self.servo_max - self.servo_min
        &&& self.motor_min == spec_pulse_duty(
            MOTOR_MIN_PULSE_US as int,
            self.motor_max_duty as int,
        )
        &&& self.motor_max == spec_pulse_duty(
            MOTOR_MAX_PULSE_US as int,
            self.motor_max_duty as int,
        )
        &&& self.neutral == spec_pulse_duty(
            MOTOR_NEUTRAL_PULSE_US as int,
            self.motor_max_duty as int,
        )
    }

    /// Derives the calibration from the maximum duty of the servo channel
    /// and of the motor channel.
    pub fn from_max_duty(servo_max_duty: u16, motor_max_duty: u16) -> (res: MotorCalibration)
        ensures
            res.wf(),
            res.servo_max_duty == servo_max_duty,
            res.motor_max_duty == motor_max_duty,
    {
        let servo_channel_max = servo_max_duty as u32;
        let motor_channel_max = motor_max_duty as u32;
        proof {
            lemma_pulse_duty_bounds(servo_channel_max as int);
            lemma_pulse_duty_bounds(motor_channel_max as int);
        }
        let servo_min = (SERVO_MIN_PULSE_US * servo_channel_max) / PWM_PERIOD_US;
        let servo_max = (SERVO_MAX_PULSE_US * servo_channel_max) / PWM_PERIOD_US;
        let servo_gap = servo_max - servo_min;
        let motor_min = (MOTOR_MIN_PULSE_US * motor_channel_max) / PWM_PERIOD_US;
        let motor_max = (MOTOR_MAX_PULSE_US * motor_channel_max) / PWM_PERIOD_US;
        let neutral = (MOTOR_NEUTRAL_PULSE_US * motor_channel_max) / PWM_PERIOD_US;
        MotorCalibration {
            servo_max_duty,
            motor_max_duty,
            servo_min,
            servo_max,
            servo_gap,
            motor_min,
            motor_max,
            neutral,
        }
    }

    /// The servo duty for `deg` degrees, or `None` where its computation
    /// would overflow 32 bits.
    pub open spec fn spec_servo_duty(self, deg: int) -> Option<int> {
        if deg * self.servo_gap > u32::MAX || spec_duty_from_angle(
            deg,
            self.servo_min as int,
            self.servo_gap as int,
        ) > u32::MAX {
            None
        } else {
            Some(spec_duty_from_angle(deg, self.servo_min as int, self.servo_gap as int) % 0x10000)
        }
    }

    /// The steps that arm the motor controller and centre the servo.
    pub fn startup_sequence(&self) -> (steps: Vec<MotorStep>)
        requires
            self.wf(),
        ensures
            steps@ == seq![
                MotorStep::SetServoDuty(
                    spec_duty_from_angle(
                        SERVO_START_ANGLE as int,
                        self.servo_min as int,
                        self.servo_gap as int,
                    ) as u16,
                ),
                MotorStep::SetMotorDuty(self.motor_min as u16),
                MotorStep::WaitMillis(ARMING_PAUSE_MS),
                MotorStep::SetMotorDuty(self.neutral as u16),
                MotorStep::WaitMillis(ARMING_PAUSE_MS),
                MotorStep::SetMotorDuty(MOTOR_IDLE_DUTY),
            ],
            spec_duty_from_angle(SERVO_START_ANGLE as int, self.servo_min as int, self.servo_gap as int)
                < 0x10000,
            self.motor_min < 0x10000,
            self.neutral < 0x10000,
    {
        proof {
            lemma_pulse_duty_bounds(self.servo_max_duty as int);
            lemma_pulse_duty_bounds(self.motor_max_duty as int);
            lemma_servo_duty_within(self.servo_min as int, self.servo_gap as int, 90);
        }
        let servo_duty = duty_from_angle(SERVO_START_ANGLE, self.servo_min, self.servo_gap);
        let mut steps: Vec<MotorStep> = Vec::new();
        steps.push(MotorStep::SetServoDuty(servo_duty));
        steps.push(MotorStep::SetMotorDuty(self.motor_min as u16));
        steps.push(MotorStep::WaitMillis(ARMING_PAUSE_MS));
        steps.push(MotorStep::SetMotorDuty(self.neutral as u16));
        steps.push(MotorStep::WaitMillis(ARMING_PAUSE_MS));
        steps.push(MotorStep::SetMotorDuty(MOTOR_IDLE_DUTY));
        steps
    }

    /// The step a command asks for: a servo angle becomes the servo duty of
    /// `duty_from_angle`, a motor value is narrowed to 16 bits. `None` for a
    /// servo angle whose duty would overflow 32 bits.
    pub fn on_command(&self, cmd: MotorCommand) -> (step: Option<MotorStep>)
        ensures
            match cmd {
                MotorCommand::Servo(deg) => match self.spec_servo_duty(deg as int) {
                    Some(d) => step == Some(MotorStep::SetServoDuty(d as u16)),
                    None => step is None,
                },
                MotorCommand::Motor(v) => step == Some(MotorStep::SetMotorDuty((v % 0x10000) as u16)),
            },
    {
        match cmd {
            MotorCommand::Servo(deg) => {
                match deg.checked_mul(self.servo_gap) {
                    None => None,
                    Some(scaled) => {
                        match self.servo_min.checked_add(scaled / 180) {
                            None => None,
                            Some(_) => {
                                let duty = duty_from_angle(deg, self.servo_min, self.servo_gap);
                                Some(MotorStep::SetServoDuty(duty))
                            },
                        }
                    },
                }
            },
            MotorCommand::Motor(v) => {
                proof {
                    assert(v as u16 == v % 0x10000) by (bit_vector);
                }
                Some(MotorStep::SetMotorDuty(v as u16))
            },
        }
    }
}

/// The duties of a calibration are ordered as their pulse widths are, and
/// all of them fit in 16 bits, so the start-up sequence sets them exactly.
pub proof fn lemma_calibration_ordered(cal: MotorCalibration)
    requires
        cal.wf(),
    ensures
        cal.servo_min <= cal.servo_max < 0x10000,
        cal.servo_gap == cal.servo_max - cal.servo_min,
        cal.motor_min <= cal.neutral <= cal.motor_max < 0x10000,
{
    lemma_pulse_duty_bounds(cal.servo_max_duty as int);
    lemma_pulse_duty_bounds(cal.motor_max_duty as int);
}

/// Every angle from 0 to 180 degrees is accepted, and its servo duty lies
/// between the duty of the shortest and of the longest servo pulse; 0 degrees
/// gives exactly the former and 180 degrees exactly the latter.
pub proof fn lemma_servo_duty_spans_range(cal: MotorCalibration, deg: int)
    requires
        cal.wf(),
        0 <= deg <= 180,
    ensures
        cal.spec_servo_duty(deg) is Some,
        cal.spec_servo_duty(deg)->0 == spec_duty_from_angle(
            deg,
            cal.servo_min as int,
            cal.servo_gap as int,
        ),
        cal.servo_min <= cal.spec_servo_duty(deg)->0 <= cal.servo_max,
        deg == 0 ==> cal.spec_servo_duty(deg)->0 == cal.servo_min,
        deg == 180 ==> cal.spec_servo_duty(deg)->0 == cal.servo_max,
{
    lemma_pulse_duty_bounds(cal.servo_max_duty as int);
    lemma_servo_duty_within(cal.servo_min as int, cal.servo_gap as int, deg);
    assert((0 * cal.servo_gap) / 180 == 0);
    assert((180 * cal.servo_gap) / 180 == cal.servo_gap);
}

/// A larger angle never gives a smaller servo duty.
pub proof fn lemma_servo_duty_monotone(cal: MotorCalibration, a: int, b: int)
    requires
        cal.wf(),
        0 <= a <= b <= 180,
    ensures
        cal.spec_servo_duty(a)->0 <= cal.spec_servo_duty(b)->0,
{
    lemma_servo_duty_spans_range(cal, a);
    lemma_servo_duty_spans_range(cal, b);
    let g = cal.servo_gap as int;
    assert(a * g <= b * g) by (nonlinear_arith)
        requires
            0 <= a <= b,
            0 <= g,
    ;
    assert((a * g) / 180 <= (b * g) / 180) by (nonlinear_arith)
        requires
            0 <= a * g <= b * g,
    ;
}

/// The calibration on the maximum duties themselves: each duty is the
/// share of the channel's maximum duty that its pulse takes of the 20 ms
/// period, rounded down.
pub proof fn lemma_calibration_formulas(cal: MotorCalibration)
    requires
        cal.wf(),
    ensures
        cal.servo_min == (800 * cal.servo_max_duty as int) / 20000,
        cal.servo_max == (2200 * cal.servo_max_duty as int) / 20000,
        cal.servo_gap == cal.servo_max - cal.servo_min,
        cal.motor_min == (1000 * cal.motor_max_duty as int) / 20000,
        cal.motor_max == (2000 * cal.motor_max_duty as int) / 20000,
        cal.neutral == (1500 * cal.motor_max_duty as int) / 20000,
{
}

/// The servo duty on the angle itself: the minimum duty plus `deg / 180`
/// of the gap, rounded down and narrowed to 16 bits; refused exactly when
/// `deg * gap` or that sum passes `u32::MAX`. The start-up angle is 90
/// degrees, the arming pauses 2000 ms and the idle motor duty 150.
pub proof fn lemma_servo_duty_formula(cal: MotorCalibration, deg: int, min_duty: int, duty_gap: int)
    ensures
        spec_duty_from_angle(deg, min_duty, duty_gap) == min_duty + (deg * duty_gap) / 180,
        (cal.spec_servo_duty(deg) is None) == (deg * cal.servo_gap > 0xffff_ffff
            || cal.servo_min + (deg * cal.servo_gap) / 180 > 0xffff_ffff),
        cal.spec_servo_duty(deg) is Some ==> cal.spec_servo_duty(deg)->0 == (cal.servo_min + (deg
            * cal.servo_gap) / 180) % 0x10000,
        SERVO_START_ANGLE == 90,
        ARMING_PAUSE_MS == 2000,
        MOTOR_IDLE_DUTY == 150,
{
}

/// Bounds of the pulse duties of a channel whose maximum duty fits in 16 bits.
proof fn lemma_pulse_duty_bounds(max_duty: int)
    requires
        0 <= max_duty <= 0xffff,
    ensures
        0 <= spec_pulse_duty(800, max_duty) <= spec_pulse_duty(1000, max_duty),
        spec_pulse_duty(1000, max_duty) <= spec_pulse_duty(1500, max_duty),
        spec_pulse_duty(1500, max_duty) <= spec_pulse_duty(2000, max_duty),
        spec_pulse_duty(800, max_duty) <= spec_pulse_duty(2200, max_duty),
        spec_pulse_duty(2200, max_duty) <= 7208,
        spec_pulse_duty(2000, max_duty) <= 6553,
        800 * max_duty <= u32::MAX,
        1000 * max_duty <= u32::MAX,
        1500 * max_duty <= u32::MAX,
        2000 * max_duty <= u32::MAX,
        2200 * max_duty <= u32::MAX,
{
    assert(spec_pulse_duty(800, max_duty) <= spec_pulse_duty(1000, max_duty)) by (nonlinear_arith)
        requires
            0 <= max_duty,
    ;
    assert(spec_pulse_duty(1000, max_duty) <= spec_pulse_duty(1500, max_duty)) by (nonlinear_arith)
        requires
            0 <= max_duty,
    ;
    assert(spec_pulse_duty(1500, max_duty) <= spec_pulse_duty(2000, max_duty)) by (nonlinear_arith)
        requires
            0 <= max_duty,
    ;
    assert(spec_pulse_duty(800, max_duty) <= spec_pulse_duty(2200, max_duty)) by (nonlinear_arith)
        requires
            0 <= max_duty,
    ;
    assert(0 <= spec_pulse_duty(800, max_duty)) by (nonlinear_arith)
        requires
            0 <= max_duty,
    ;
    assert(spec_pulse_duty(2200, max_duty) <= 7208) by (nonlinear_arith)
        requires
            0 <= max_duty <= 0xffff,
    ;
    assert(spec_pulse_duty(2000, max_duty) <= 6553) by (nonlinear_arith)
        requires
            0 <= max_duty <= 0xffff,
    ;
}

/// Within 0..=180 degrees the servo duty lies between `min_duty` and
/// `min_duty + duty_gap`.
proof fn lemma_servo_duty_within(min_duty: int, duty_gap: int, deg: int)
    requires
        0 <= duty_gap,
        0 <= deg <= 180,
    ensures
        0 <= deg * duty_gap <= 180 * duty_gap,
        min_duty <= spec_duty_from_angle(deg, min_duty, duty_gap) <= min_duty + duty_gap,
{
    assert(0 <= deg * duty_gap <= 180 * duty_gap) by (nonlinear_arith)
        requires
            0 <= duty_gap,
            0 <= deg <= 180,
    ;
    assert(0 <= (deg * duty_gap) / 180 <= duty_gap) by (nonlinear_arith)
        requires
            0 <= deg * duty_gap <= 180 * duty_gap,
    ;
}

} // verus!
