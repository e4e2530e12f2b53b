use fabsee::joystick::{JoystickData, JoystickTracker, MOVE_THRESHOLD, SAMPLE_PERIOD_MS};
use fabsee::led::{led_handler, LedRequest};
use fabsee::motors::{
    duty_from_angle, motor_handler, servo_handler, MotorCalibration, MotorCommand, MotorStep,
    MotorsRequest,
};
use fabsee::mqtt::{SensorReading, SensorSource, Unit, TELEMETRY_CAPACITY};
use fabsee::oled::{ScreenAction, ScreenPolicy};
use fabsee::server::{SuccessResponse, HTTP_PORT, WEB_TASK_POOL_SIZE};
use fabsee::supersonic::{intrusion_state_after, IntrusionMonitor, IntrusionStates};
use fabsee::wifi::{net_seed, LinkAction, LinkEvent, LinkState, LinkSupervisor};

#[test]
fn duty_from_angle_exact_values() {
    assert_eq!(duty_from_angle(0, 163, 287), 163);
    assert_eq!(duty_from_angle(90, 163, 287), 306);
    assert_eq!(duty_from_angle(180, 163, 287), 450);
    assert_eq!(duty_from_angle(1, 0, 179), 0);
    assert_eq!(duty_from_angle(1, 0, 180), 1);
}

#[test]
fn duty_from_angle_narrows_to_sixteen_bits() {
    assert_eq!(duty_from_angle(0, 65536, 0), 0);
    assert_eq!(duty_from_angle(0, 70000, 0), 4464);
    assert_eq!(duty_from_angle(180, 65535, 1), 0);
}

#[test]
fn calibration_for_twelve_bit_duty() {
    let cal = MotorCalibration::from_max_duty(4096, 4096);
    assert_eq!(cal.servo_min, 163);
    assert_eq!(cal.servo_max, 450);
    assert_eq!(cal.servo_gap, 287);
    assert_eq!(cal.motor_min, 204);
    assert_eq!(cal.motor_max, 409);
    assert_eq!(cal.neutral, 307);
}

#[test]
fn calibration_edges() {
    let zero = MotorCalibration::from_max_duty(0, 0);
    assert_eq!(zero.servo_min, 0);
    assert_eq!(zero.servo_gap, 0);
    assert_eq!(zero.neutral, 0);
    let full = MotorCalibration::from_max_duty(65535, 65535);
    assert_eq!(full.servo_min, 2621);
    assert_eq!(full.servo_max, 7208);
    assert_eq!(full.servo_gap, 4587);
    assert_eq!(full.motor_min, 3276);
    assert_eq!(full.motor_max, 6553);
    assert_eq!(full.neutral, 4915);
}

#[test]
fn startup_arms_motor_and_centres_servo() {
    let cal = MotorCalibration::from_max_duty(4096, 4096);
    assert_eq!(
        cal.startup_sequence(),
        vec![
            MotorStep::SetServoDuty(306),
            MotorStep::SetMotorDuty(204),
            MotorStep::WaitMillis(2000),
            MotorStep::SetMotorDuty(307),
            MotorStep::WaitMillis(2000),
            MotorStep::SetMotorDuty(150),
        ]
    );
}

#[test]
fn servo_commands() {
    let cal = MotorCalibration::from_max_duty(4096, 4096);
    assert_eq!(cal.on_command(MotorCommand::Servo(0)), Some(MotorStep::SetServoDuty(163)));
    assert_eq!(cal.on_command(MotorCommand::Servo(180)), Some(MotorStep::SetServoDuty(450)));
    assert_eq!(cal.on_command(MotorCommand::Servo(360)), Some(MotorStep::SetServoDuty(737)));
}

#[test]
fn servo_command_that_overflows_is_refused() {
    let cal = MotorCalibration::from_max_duty(4096, 4096);
    // 287 * 14_965_043 exceeds u32::MAX, 287 * 14_965_042 does not.
    assert_eq!(cal.on_command(MotorCommand::Servo(14_965_043)), None);
    assert_eq!(cal.on_command(MotorCommand::Servo(u32::MAX)), None);
    assert!(cal.on_command(MotorCommand::Servo(14_965_042)).is_some());
}

#[test]
fn servo_duty_is_monotone_within_half_turn() {
    let cal = MotorCalibration::from_max_duty(4096, 4096);
    let mut last = 0u16;
    for deg in 0..=180u32 {
        match cal.on_command(MotorCommand::Servo(deg)) {
            Some(MotorStep::SetServoDuty(d)) => {
                assert!(d >= last);
                assert!(d as u32 >= cal.servo_min && d as u32 <= cal.servo_max);
                last = d;
            }
            other => panic!("unexpected step {:?}", other),
        }
    }
}

#[test]
fn motor_commands_are_narrowed() {
    let cal = MotorCalibration::from_max_duty(4096, 4096);
    assert_eq!(cal.on_command(MotorCommand::Motor(300)), Some(MotorStep::SetMotorDuty(300)));
    assert_eq!(cal.on_command(MotorCommand::Motor(70000)), Some(MotorStep::SetMotorDuty(4464)));
    assert_eq!(cal.on_command(MotorCommand::Motor(65536)), Some(MotorStep::SetMotorDuty(0)));
}

#[test]
fn handlers_forward_value_and_accept() {
    assert_eq!(led_handler(LedRequest { is_on: true }), (true, SuccessResponse { success: true }));
    assert_eq!(led_handler(LedRequest { is_on: false }), (false, SuccessResponse { success: true }));
    assert_eq!(motor_handler(MotorsRequest { value: 42 }), (42, SuccessResponse { success: true }));
    assert_eq!(servo_handler(MotorsRequest { value: 135 }), (135, SuccessResponse { success: true }));
    assert!(SuccessResponse::accepted().success);
}

#[test]
fn joystick_first_sample_is_published() {
    let mut t = JoystickTracker::new();
    assert_eq!(t.on_sample(10, 20, false), Some(JoystickData { x: 10, y: 20 }));
    assert!(!t.pending);
}

#[test]
fn joystick_small_moves_are_quiet() {
    let mut t = JoystickTracker::new();
    t.on_sample(0, 0, false);
    assert_eq!(t.on_sample(MOVE_THRESHOLD, 0, false), None);
    assert_eq!(t.on_sample(0, MOVE_THRESHOLD, false), None);
    assert_eq!(t.ref_x, 0);
    assert_eq!(t.on_sample(MOVE_THRESHOLD + 1, 0, false), Some(JoystickData { x: 101, y: 0 }));
    assert_eq!(t.ref_x, 101);
}

#[test]
fn joystick_drift_accumulates_against_reference() {
    let mut t = JoystickTracker::new();
    t.on_sample(2000, 2000, false);
    assert_eq!(t.on_sample(2060, 2000, false), None);
    assert_eq!(t.on_sample(2100, 2000, false), None);
    assert_eq!(t.on_sample(2100, 1899, false), Some(JoystickData { x: 2100, y: 1899 }));
    assert_eq!((t.ref_x, t.ref_y), (2000, 1899));
}

#[test]
fn joystick_large_move_down_is_published() {
    let mut t = JoystickTracker::new();
    t.on_sample(4000, 4000, false);
    assert_eq!(t.on_sample(100, 4000, false), Some(JoystickData { x: 100, y: 4000 }));
}

#[test]
fn joystick_button_press_published_once() {
    let mut t = JoystickTracker::new();
    t.on_sample(500, 500, false);
    assert_eq!(t.on_sample(500, 500, true), Some(JoystickData { x: 500, y: 500 }));
    assert_eq!(t.on_sample(500, 500, true), None);
    assert_eq!(t.on_sample(500, 500, false), None);
    assert_eq!(t.on_sample(500, 500, true), Some(JoystickData { x: 500, y: 500 }));
}

#[test]
fn joystick_press_edge() {
    let mut t = JoystickTracker::new();
    assert!(t.is_press(true));
    assert!(!t.is_press(false));
    t.on_sample(500, 500, false);
    assert!(t.is_press(true));
    t.on_sample(500, 500, true);
    assert!(!t.is_press(true));
    assert!(!t.is_press(false));
    t.on_sample(500, 500, false);
    assert!(t.is_press(true));
}

#[test]
fn joystick_repeated_sample_is_quiet() {
    let mut t = JoystickTracker::new();
    t.on_sample(300, 3000, true);
    assert_eq!(t.on_sample(300, 3000, true), None);
    assert_eq!(SAMPLE_PERIOD_MS, 50);
}

#[test]
fn intrusion_thresholds_exact() {
    // 583 us is 9.998 cm, 584 us is 10.016 cm.
    assert_eq!(intrusion_state_after(IntrusionStates::Safe, 583), IntrusionStates::Danger);
    assert_eq!(intrusion_state_after(IntrusionStates::Safe, 584), IntrusionStates::Safe);
    // 699 us is 11.988 cm, 700 us is 12.005 cm.
    assert_eq!(intrusion_state_after(IntrusionStates::Danger, 699), IntrusionStates::Danger);
    assert_eq!(intrusion_state_after(IntrusionStates::Danger, 700), IntrusionStates::Safe);
    assert_eq!(intrusion_state_after(IntrusionStates::Danger, 0), IntrusionStates::Danger);
    assert_eq!(intrusion_state_after(IntrusionStates::Danger, u64::MAX), IntrusionStates::Safe);
}

#[test]
fn intrusion_hysteresis() {
    let mut m = IntrusionMonitor::new();
    let o = m.on_echo(1_000, 1_650);
    assert_eq!((o.pulse_width_us, o.state, o.state_changed), (650, IntrusionStates::Safe, false));
    let o = m.on_echo(2_000, 2_500);
    assert_eq!((o.state, o.state_changed), (IntrusionStates::Danger, true));
    let o = m.on_echo(3_000, 3_650);
    assert_eq!((o.state, o.state_changed), (IntrusionStates::Danger, false));
    let o = m.on_echo(4_000, 4_700);
    assert_eq!((o.state, o.state_changed), (IntrusionStates::Safe, true));
    assert_eq!(m.state, IntrusionStates::Safe);
}

#[test]
fn intrusion_stable_under_repeat() {
    for pw in [0u64, 583, 584, 650, 699, 700, 10_000] {
        for s in [IntrusionStates::Safe, IntrusionStates::Danger] {
            let once = intrusion_state_after(s, pw);
            assert_eq!(intrusion_state_after(once, pw), once);
        }
    }
}

#[test]
fn screen_draws_ferris_once_per_intrusion() {
    let mut p = ScreenPolicy::new();
    assert_eq!(p.on_tick(IntrusionStates::Safe), ScreenAction::DrawStatus);
    assert_eq!(p.on_tick(IntrusionStates::Danger), ScreenAction::DrawFerris);
    assert_eq!(p.on_tick(IntrusionStates::Danger), ScreenAction::Keep);
    assert_eq!(p.on_tick(IntrusionStates::Safe), ScreenAction::DrawStatus);
    assert_eq!(p.on_tick(IntrusionStates::Safe), ScreenAction::DrawStatus);
    assert_eq!(p.on_tick(IntrusionStates::Danger), ScreenAction::DrawFerris);
}

#[test]
fn net_seed_packs_words() {
    assert_eq!(net_seed(1, 2), 0x2_0000_0001);
    assert_eq!(net_seed(0xdead_beef, 0), 0xdead_beef);
    assert_eq!(net_seed(0, 0xffff_ffff), 0xffff_ffff_0000_0000);
    let s = net_seed(0x1234_5678, 0x9abc_def0);
    assert_eq!(s as u32, 0x1234_5678);
    assert_eq!((s >> 32) as u32, 0x9abc_def0);
}

#[test]
fn link_supervisor_cycle() {
    let mut l = LinkSupervisor::new();
    assert_eq!(l.action(), LinkAction::Connect);
    assert_eq!(l.on_event(LinkEvent::ConnectFailed), LinkAction::Sleep(5000));
    assert_eq!(l.on_event(LinkEvent::BackoffElapsed), LinkAction::Connect);
    assert_eq!(l.on_event(LinkEvent::ConnectSucceeded), LinkAction::WatchEvents);
    assert_eq!(l.on_event(LinkEvent::AccessPointEvent), LinkAction::WatchEvents);
    assert_eq!(l.on_event(LinkEvent::DisconnectWaitFailed), LinkAction::WatchEvents);
    assert_eq!(l.state, LinkState::Connected);
    assert_eq!(l.on_event(LinkEvent::StationDisconnected), LinkAction::Connect);
    assert_eq!(l.state, LinkState::Connecting);
}

#[test]
fn link_supervisor_ignores_out_of_place_events() {
    let mut l = LinkSupervisor::new();
    assert_eq!(l.on_event(LinkEvent::StationDisconnected), LinkAction::Connect);
    assert_eq!(l.on_event(LinkEvent::BackoffElapsed), LinkAction::Connect);
    l.on_event(LinkEvent::ConnectFailed);
    assert_eq!(l.on_event(LinkEvent::ConnectSucceeded), LinkAction::Sleep(5000));
    assert_eq!(l.state, LinkState::Backoff);
}

#[test]
fn plain_types_and_constants() {
    let r = SensorReading { source: SensorSource::Moisture, unit: Unit::Percentage, value: -3 };
    assert_eq!(r.value, -3);
    assert_ne!(r.source, SensorSource::Temperature);
    assert_ne!(Unit::Celsius, Unit::Raw);
    assert_eq!(TELEMETRY_CAPACITY, 8);
    assert_eq!(WEB_TASK_POOL_SIZE, 1);
    assert_eq!(HTTP_PORT, 80);
}
