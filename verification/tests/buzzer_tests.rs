use can_monitor_1_rust::alarm::buzzer::{
    alarm_passive_buzzer_sweet_spot, alarm_siren, alarm_smoke_siren, find_resonance,
    health_check_beep, health_check_double_beep, SoundStep,
};
use can_monitor_1_rust::alarm::AlarmState;

fn tone(half_period_us: u32, cycles: u32) -> SoundStep {
    SoundStep::Tone { half_period_us, cycles }
}

fn pause(ms: u32) -> SoundStep {
    SoundStep::Pause { ms }
}

#[test]
fn resonance_sweep() {
    let p = find_resonance();
    assert_eq!(p.len(), 40);
    assert_eq!(p[0], tone(250, 500));
    assert_eq!(p[1], pause(200));
    assert_eq!(p[2], tone(227, 500));
    assert_eq!(p[38], tone(86, 500));
    assert_eq!(p[39], pause(200));
}

#[test]
fn siren_sweeps_up_then_down() {
    let p = alarm_siren();
    assert_eq!(p.len(), 24);
    assert_eq!(p[0], tone(625, 10));
    assert_eq!(p[11], tone(263, 10));
    assert_eq!(p[12], tone(263, 10));
    assert_eq!(p[23], tone(625, 10));
    for i in 0..12 {
        assert_eq!(p[i], p[23 - i]);
    }
}

#[test]
fn sweet_spot_blasts() {
    let round = vec![
        tone(250, 1000),
        pause(500),
        tone(250, 1000),
        pause(500),
        tone(250, 1000),
        pause(500),
        pause(1500),
    ];
    let mut expected = round.clone();
    expected.extend(round);
    assert_eq!(alarm_passive_buzzer_sweet_spot(), expected);
}

#[test]
fn smoke_siren_blasts() {
    let p = alarm_smoke_siren();
    assert_eq!(p.len(), 14);
    assert_eq!(p[0], tone(147, 1700));
    assert_eq!(p[5], pause(500));
    assert_eq!(p[6], pause(1500));
    assert_eq!(p[7], tone(147, 1700));
    assert_eq!(p[13], pause(1500));
}

#[test]
fn health_beeps() {
    assert_eq!(health_check_beep(), vec![tone(227, 220), pause(50)]);
    assert_eq!(
        health_check_double_beep(),
        vec![tone(227, 110), pause(100), tone(227, 110), pause(100)]
    );
}

#[test]
fn alarm_state_new_and_reset() {
    let mut a = AlarmState::new();
    assert!(!a.is_playing);
    assert_eq!((a.phase, a.step), (0, 0));
    a.is_playing = true;
    a.phase = 3;
    a.step = 7;
    a.reset();
    assert!(!a.is_playing);
    assert_eq!((a.phase, a.step), (0, 0));
}
