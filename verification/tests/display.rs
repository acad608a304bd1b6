use ttn_ingest::display::{
    count_valid, render_battery_line, render_screen, render_state_line, shown_state,
    DeviceSlot, DisplayAction, LoRaWanState,
};

fn slots(valid: &[bool]) -> Vec<DeviceSlot> {
    valid.iter().map(|v| DeviceSlot { valid: *v }).collect()
}

#[test]
fn the_first_line_shows_volts_and_devices() {
    assert_eq!(render_battery_line(3_870, 5).as_str(), "3.87V | Devices: 5");
    assert_eq!(render_battery_line(3_879, 0).as_str(), "3.87V | Devices: 0");
    assert_eq!(render_battery_line(4_059, 12).as_str(), "4.05V | Devices: 12");
    assert_eq!(render_battery_line(0, 0).as_str(), "0.00V | Devices: 0");
    assert_eq!(render_battery_line(9, 1).as_str(), "0.00V | Devices: 1");
    assert_eq!(render_battery_line(12_000, 100).as_str(), "12.00V | Devices: 100");
    assert_eq!(render_battery_line(u32::MAX, 1).as_str(), "4294967.29V | Devices: 1");
}

#[test]
fn a_count_without_room_is_left_out() {
    assert_eq!(
        render_battery_line(u32::MAX, 999_999_999).as_str(),
        "4294967.29V | Devices: 999999999"
    );
    assert_eq!(render_battery_line(u32::MAX, 1_000_000_000).as_str(), "4294967.29V | Devices: ");
    assert_eq!(
        render_battery_line(3_870, 1_000_000_000).as_str(),
        "3.87V | Devices: 1000000000"
    );
}

#[test]
fn the_first_line_is_that_of_the_formatter() {
    for mv in [0u32, 1, 10, 99, 100, 999, 1_000, 3_301, 65_535, 1_234_567, u32::MAX] {
        let head = format!("{}.{:02}V | Devices: ", mv / 1000, (mv % 1000) / 10);
        for count in [0usize, 7, 42, 1_000_000, usize::MAX] {
            let whole = format!("{}{}", head, count);
            let line = render_battery_line(mv, count);
            assert_eq!(line.as_str(), if whole.len() <= 32 { &whole } else { &head });
        }
    }
}

#[test]
fn each_state_has_its_line() {
    assert_eq!(render_state_line(LoRaWanState::Joining).as_str(), "LoRa: Joining");
    assert_eq!(render_state_line(LoRaWanState::Connected).as_str(), "LoRa: OK");
    assert_eq!(render_state_line(LoRaWanState::Error).as_str(), "LoRa: Error");
}

#[test]
fn only_valid_devices_count() {
    assert_eq!(count_valid(&slots(&[])), 0);
    assert_eq!(count_valid(&slots(&[true, false, true, true])), 3);
}

#[test]
fn a_screen_shows_zero_for_what_it_lacks() {
    let devices = slots(&[false, true]);
    let screen = render_screen(Some(4_200), Some(&devices), LoRaWanState::Connected);
    assert_eq!(screen.line1.as_str(), "4.20V | Devices: 1");
    assert_eq!(screen.line2.as_str(), "LoRa: OK");
    let screen = render_screen(None, None, LoRaWanState::Error);
    assert_eq!(screen.line1.as_str(), "0.00V | Devices: 0");
    assert_eq!(screen.line2.as_str(), "LoRa: Error");
}

#[test]
fn a_state_is_shown_and_signalled_again() {
    let connected = LoRaWanState::Connected;
    assert_eq!(shown_state(true, Some(connected)), (connected, Some(connected)));
    assert_eq!(
        shown_state(true, None),
        (LoRaWanState::Joining, Some(LoRaWanState::Joining))
    );
    assert_eq!(shown_state(false, None), (LoRaWanState::Joining, None));
    assert_eq!(shown_state(false, Some(connected)), (LoRaWanState::Joining, None));
}

#[test]
fn the_task_draws_until_it_is_over() {
    let mut action = DisplayAction::Start;
    let mut seen = vec![action];
    for ok in [true, true, false, false, true] {
        action = action.next(ok);
        seen.push(action);
    }
    assert_eq!(
        seen,
        vec![
            DisplayAction::Start,
            DisplayAction::Initialize,
            DisplayAction::Clear,
            DisplayAction::Draw,
            DisplayAction::Rest,
            DisplayAction::Draw,
        ]
    );
    assert_eq!(DisplayAction::Initialize.next(false), DisplayAction::Stop);
    assert_eq!(DisplayAction::Stop.next(true), DisplayAction::Stop);
}
