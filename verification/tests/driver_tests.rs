use rpi_einkserver_rs::epd2in13_v4::busy_poll_reads;
use rpi_einkserver_rs::BusOp;
use rpi_einkserver_rs::Epd2in13V4;
use rpi_einkserver_rs::EpdError;
use rpi_einkserver_rs::EpdPins;
use rpi_einkserver_rs::Color;

const BPR: usize = 16;
const IMAGE_LEN: usize = BPR * 250;

fn epd() -> Epd2in13V4 {
    Epd2in13V4::new(EpdPins { busy: 24, dc: 25, rst: 17 })
}

fn reset_ops() -> Vec<BusOp> {
    vec![
        BusOp::SetReset(true),
        BusOp::SleepMs(20),
        BusOp::SetReset(false),
        BusOp::SleepMs(2),
        BusOp::SetReset(true),
        BusOp::SleepMs(20),
    ]
}

fn command_data(c: u8, d: &[u8]) -> Vec<BusOp> {
    vec![BusOp::Command(c), BusOp::Data(d.to_vec())]
}

fn full_window_and_cursor() -> Vec<BusOp> {
    // X addresses are byte-granular (divided by 8); Y is little-endian
    // 16-bit: 249 = 0xF9, 0x00.
    let mut ops = command_data(0x44, &[0x00, 0x0F]);
    ops.extend(command_data(0x45, &[0x00, 0x00, 0xF9, 0x00]));
    ops.extend(command_data(0x4E, &[0x00]));
    ops.extend(command_data(0x4F, &[0x00, 0x00]));
    ops
}

fn turn_on(control: u8) -> Vec<BusOp> {
    let mut ops = command_data(0x22, &[control]);
    ops.push(BusOp::Command(0x20));
    ops.push(BusOp::WaitIdle);
    ops
}

#[test]
fn driver_keeps_its_line_assignment() {
    let pins = EpdPins { busy: 24, dc: 25, rst: 17 };
    let p = Epd2in13V4::new(pins).pins();
    assert_eq!((p.busy, p.dc, p.rst), (24, 25, 17));
}

#[test]
fn init_plan_matches_fixed_sequence() {
    let mut expected = reset_ops();
    expected.push(BusOp::WaitIdle);
    expected.push(BusOp::Command(0x12));
    expected.push(BusOp::WaitIdle);
    expected.extend(command_data(0x01, &[0xF9, 0x00, 0x00]));
    expected.extend(command_data(0x11, &[0x03]));
    expected.extend(full_window_and_cursor());
    expected.extend(command_data(0x3C, &[0x05]));
    expected.extend(command_data(0x21, &[0x00, 0x80]));
    expected.extend(command_data(0x18, &[0x80]));
    expected.push(BusOp::WaitIdle);

    assert_eq!(epd().init(), expected);
}

#[test]
fn init_fast_plan_matches_fixed_sequence() {
    let mut expected = reset_ops();
    expected.push(BusOp::Command(0x12));
    expected.push(BusOp::WaitIdle);
    expected.extend(command_data(0x18, &[0x80]));
    expected.extend(command_data(0x11, &[0x03]));
    expected.extend(full_window_and_cursor());
    expected.extend(command_data(0x22, &[0xB1]));
    expected.push(BusOp::Command(0x20));
    expected.push(BusOp::WaitIdle);
    expected.extend(command_data(0x1A, &[0x64, 0x00]));
    expected.extend(command_data(0x22, &[0x91]));
    expected.push(BusOp::Command(0x20));
    expected.push(BusOp::WaitIdle);

    assert_eq!(epd().init_fast(), expected);
}

#[test]
fn sleep_plan_is_deep_sleep_then_settle() {
    let mut expected = command_data(0x10, &[0x01]);
    expected.push(BusOp::SleepMs(100));
    assert_eq!(epd().sleep(), expected);
}

#[test]
fn clear_plan_writes_every_row_then_refreshes() {
    let plan = epd().clear(Color::Background);
    let mut expected = vec![BusOp::Command(0x24)];
    for _ in 0..250 {
        expected.push(BusOp::Data(vec![0xFF; BPR]));
    }
    expected.extend(turn_on(0xF7));
    assert_eq!(plan, expected);

    let plan = epd().clear(Color::Foreground);
    assert_eq!(plan[1], BusOp::Data(vec![0x00; BPR]));
    assert_eq!(plan.len(), 1 + 250 + 4);
}

#[test]
fn display_plan_is_transfer_then_normal_refresh() {
    let image = vec![0xA5u8; IMAGE_LEN];
    let plan = epd().display(&image).unwrap();
    let mut expected = vec![BusOp::Command(0x24), BusOp::Data(image.clone())];
    expected.extend(turn_on(0xF7));
    assert_eq!(plan, expected);
}

#[test]
fn display_fast_uses_fast_waveform() {
    let image = vec![0x5Au8; IMAGE_LEN];
    let plan = epd().display_fast(&image).unwrap();
    let mut expected = vec![BusOp::Command(0x24), BusOp::Data(image.clone())];
    expected.extend(turn_on(0xC7));
    assert_eq!(plan, expected);
}

#[test]
fn display_base_writes_both_frame_rams() {
    let image = vec![0x3Cu8; IMAGE_LEN];
    let plan = epd().display_base(&image).unwrap();
    let mut expected = vec![
        BusOp::Command(0x24),
        BusOp::Data(image.clone()),
        BusOp::Command(0x26),
        BusOp::Data(image.clone()),
    ];
    expected.extend(turn_on(0xF7));
    assert_eq!(plan, expected);
}

#[test]
fn display_partial_without_base_still_issues_fixed_sequence() {
    // The driver does not enforce that a base frame was written first; the
    // partial-refresh sequence is the same on a freshly created driver.
    let image = vec![0xFFu8; IMAGE_LEN];
    let plan = epd().display_partial(&image).unwrap();

    let mut expected = reset_ops();
    expected.extend(command_data(0x3C, &[0x80]));
    expected.extend(command_data(0x01, &[0xF9, 0x00, 0x00]));
    expected.extend(command_data(0x11, &[0x03]));
    expected.extend(full_window_and_cursor());
    expected.push(BusOp::Command(0x24));
    expected.push(BusOp::Data(image.clone()));
    expected.extend(turn_on(0xFF));
    assert_eq!(plan, expected);
}

#[test]
fn wrong_length_is_rejected_before_any_bus_op() {
    for &len in &[0usize, 1, IMAGE_LEN - 1, IMAGE_LEN + 1, 2 * IMAGE_LEN] {
        let image = vec![0u8; len];
        let expected_err = EpdError::BufferSize { expected: IMAGE_LEN, actual: len };
        assert_eq!(epd().display(&image), Err(expected_err));
        assert_eq!(epd().display_fast(&image), Err(expected_err));
        assert_eq!(epd().display_base(&image), Err(expected_err));
        assert_eq!(epd().display_partial(&image), Err(expected_err));
    }
}

#[test]
fn busy_wait_reads_n_plus_one_samples() {
    for n in 0usize..5 {
        let mut samples = vec![true; n];
        samples.push(false);
        // N busy cycles then idle: exactly N+1 reads, one sleep after each.
        assert_eq!(busy_poll_reads(&samples), Some(n + 1));
    }
}

#[test]
fn busy_wait_stops_at_first_idle_sample() {
    let samples = [false, true, true];
    assert_eq!(busy_poll_reads(&samples), Some(1));
    let samples = [true, false, true, false];
    assert_eq!(busy_poll_reads(&samples), Some(2));
}

#[test]
fn busy_wait_never_idle_blocks() {
    assert_eq!(busy_poll_reads(&[true; 8]), None);
    assert_eq!(busy_poll_reads(&[]), None);
}
