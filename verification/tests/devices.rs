use esp_playground::blink::{blink_steps, default_seq, PinStep};
use esp_playground::config::Config;
use esp_playground::hc_sr04::{poll_echo, pulse_duration_us, trigger_steps, EchoPoll, ECHO_POLL_LIMIT};
use esp_playground::hc_sr501::{Movement, HCSR501};
use esp_playground::ic_line_check::ICLineChecker;
use esp_playground::lcd::{lcd_mode, scan_step, LcdMode, ScanStep, I2C_ADDRESS_END};

#[test]
fn default_rhythm() {
    let s = default_seq();
    assert_eq!(s.len(), 56);
    assert_eq!(&s[0..8], &[100, 400, 100, 400, 100, 400, 100, 400]);
    assert_eq!(&s[16..18], &[300, 200]);
    assert_eq!(&s[32..40], &[500, 500, 300, 200, 300, 200, 500, 500]);
    assert_eq!(&s[48..56], &[100, 400, 100, 400, 100, 400, 100, 400]);
    assert_eq!(s.iter().map(|&x| x as u64).sum::<u64>(), 12200);
}

#[test]
fn blink_alternates_from_on() {
    assert_eq!(
        blink_steps(&[100, 400, 300]),
        vec![
            PinStep { high: true, delay: 100 },
            PinStep { high: false, delay: 400 },
            PinStep { high: true, delay: 300 },
        ]
    );
    assert_eq!(blink_steps(&[]), vec![]);
    let steps = blink_steps(&default_seq());
    assert_eq!(steps.len(), 56);
    assert!(steps.windows(2).all(|w| w[0].high != w[1].high));
}

#[test]
fn echo_polls() {
    assert_eq!(ECHO_POLL_LIMIT, 100000);
    assert_eq!(poll_echo(0, true), EchoPoll::Waiting(1));
    assert_eq!(poll_echo(5, false), EchoPoll::Started);
    assert_eq!(poll_echo(99999, true), EchoPoll::Waiting(100000));
    assert_eq!(poll_echo(100000, true), EchoPoll::TimedOut);
}

#[test]
fn echo_times_out_after_limit() {
    let mut tries = 0;
    let mut polls = 0;
    loop {
        polls += 1;
        match poll_echo(tries, true) {
            EchoPoll::Waiting(t) => tries = t,
            EchoPoll::TimedOut => break,
            EchoPoll::Started => panic!("pin never went high"),
        }
    }
    assert_eq!(polls, 100001);
}

#[test]
fn trigger_pulse_and_echo_length() {
    assert_eq!(
        trigger_steps(),
        vec![
            PinStep { high: false, delay: 2 },
            PinStep { high: true, delay: 10 },
            PinStep { high: false, delay: 0 },
        ]
    );
    assert_eq!(pulse_duration_us(10, 250), 240);
    assert_eq!(pulse_duration_us(7, 7), 0);
}

#[test]
fn movements_are_numbered() {
    let mut sensor = HCSR501::new();
    assert_eq!(sensor.moves_count(), 0);
    let first = sensor.wait_next_move(1_000_000);
    assert_eq!(first, Movement { id: 1, start_time: 1_000_000, end_time: 0 });
    let second = sensor.wait_next_move(2_000_000);
    assert_eq!(second.id, 2);
    assert_eq!(sensor.moves_count(), 2);
    assert!(!first.is_latest(&sensor));
    assert!(second.is_latest(&sensor));
}

#[test]
fn only_latest_movement_is_joined() {
    let mut sensor = HCSR501::new();
    let mut first = sensor.wait_next_move(10);
    let mut second = sensor.wait_next_move(20);
    first.join(&sensor, 99);
    second.join(&sensor, 77);
    assert_eq!(first.end_time, 0);
    assert_eq!(second.end_time, 77);
    let m = Movement::new(5, 3);
    assert_eq!(m, Movement { id: 5, start_time: 3, end_time: 0 });
}

#[test]
fn movement_text() {
    let m = Movement { id: 3, start_time: 5_500_000, end_time: 12_000_001 };
    assert_eq!(m.to_string(), "Movement: 3, started at: 5, finished at: 12");
    assert_eq!(Movement::new(1, 0).to_string(), "Movement: 1, started at: 0, finished at: 0");
}

#[test]
fn line_checker_reading() {
    let mut c = ICLineChecker::new();
    assert!(c.true_if_low);
    assert!(c.check(true));
    assert!(!c.check(false));
    c.true_if_low = false;
    assert!(!c.check(true));
    assert!(c.check(false));
}

#[test]
fn i2c_scan_steps() {
    assert_eq!(I2C_ADDRESS_END, 127);
    assert_eq!(scan_step(0, false), ScanStep::Probe(1));
    assert_eq!(scan_step(40, true), ScanStep::Found(40));
    assert_eq!(scan_step(125, false), ScanStep::Probe(126));
    assert_eq!(scan_step(126, false), ScanStep::NotFound);
}

#[test]
fn i2c_scan_finds_lowest_answering_address() {
    let answers = |a: u8| a == 0x27 || a == 0x3f;
    let mut addr = 0;
    let found = loop {
        match scan_step(addr, answers(addr)) {
            ScanStep::Probe(next) => addr = next,
            ScanStep::Found(a) => break Some(a),
            ScanStep::NotFound => break None,
        }
    };
    assert_eq!(found, Some(0x27));
}

#[test]
fn lcd_modes() {
    assert_eq!(lcd_mode(true), LcdMode { display_on: true, cursor_visible: false, cursor_blink: false });
    assert_eq!(lcd_mode(false), LcdMode { display_on: false, cursor_visible: false, cursor_blink: false });
}

#[test]
fn default_config() {
    let c = Config::default();
    assert_eq!(c.access_point_ssid, "esp");
    assert_eq!(c.access_point_password, "");
}
