use nzxtcli::devices::{capability, supported_capability};
use nzxtcli::frames::{apply_report, channel_reports, direct_report};
use nzxtcli::topology::{
    channel_info_request, device_identity, is_channel_info_response, parse_channels_info,
    ProbeStep, TopologyProbe,
};
use nzxtcli::{Color, LedMode, NZXTHue2Controller, NZXT_VID};

#[test]
fn smart_device_scenario() {
    let cap = capability(0x2006).unwrap();
    assert_eq!((cap.name, cap.rgb_channels, cap.fan_channels), ("NZXT Smart Device V2", 2, 3));

    let mut response = [0u8; 64];
    response[0] = 0x21;
    response[1] = 0x03;
    response[0x0f] = 0x0b;
    for d in 1..6 {
        response[0x0f + d] = 0xff;
    }
    let channels = parse_channels_info(&response, cap.rgb_channels);
    assert_eq!(channels.len(), 2);
    assert_eq!(channels[0].led_count, 8);
    assert_eq!(channels[0].devices[0].id, 0x0b);
    assert_eq!(channels[0].devices[0].name, "Aer 2 fan (120mm)");
    assert_eq!(channels[0].devices[1].led_count, 0);
    assert_eq!(channels[1].led_count, 0);
}

#[test]
fn capability_table() {
    assert_eq!(capability(0x2011).unwrap().rgb_channels, 6);
    assert_eq!(capability(0x2001).unwrap().name, "NZXT Hue 2");
    assert_eq!(capability(0x3012).unwrap().fan_channels, 2);
    assert!(capability(0x1234).is_none());
    assert!(supported_capability(NZXT_VID, 0x2006).is_some());
    assert!(supported_capability(0x1234, 0x2006).is_none());
    let all = NZXTHue2Controller::known_controllers();
    assert_eq!(all.len(), 21);
    assert_eq!(all[&0x2022].name, "NZXT RGB & Fan Controller 2024");
}

#[test]
fn topology_sums_recognized_devices() {
    let mut response = [0u8; 64];
    // channel 1: F120 RGB fan (18), unknown, Kraken X3 logo (1), empty
    response[0x0f + 6] = 0x13;
    response[0x0f + 7] = 0x03;
    response[0x0f + 8] = 0x11;
    let channels = parse_channels_info(&response, 3);
    assert_eq!(channels[0].led_count, 0);
    assert_eq!(channels[1].led_count, 19);
    assert_eq!(channels[1].devices[1].led_count, 0);
    assert_eq!(channels[1].devices[2].name, "Kraken X3 logo");
    assert_eq!(device_identity(0x13), (18, "F120 RGB fan (120mm)"));
    assert_eq!(device_identity(0x00), (0, "<unknown>"));
}

#[test]
fn probe_waits_for_answer() {
    let request = channel_info_request();
    assert_eq!(&request[..2], &[0x20, 0x03]);
    assert!(request[2..].iter().all(|b| *b == 0));

    let mut other = [0u8; 64];
    other[0] = 0x75;
    let mut answer = [0u8; 64];
    answer[0] = 0x21;
    answer[1] = 0x03;
    answer[0x0f] = 0x01;
    assert!(is_channel_info_response(&answer, 64));
    assert!(!is_channel_info_response(&answer, 63));

    let mut probe = TopologyProbe::new(2, 3);
    assert!(matches!(probe.on_report(&other, 64), ProbeStep::ReadAgain));
    assert!(matches!(probe.on_report(&answer, 10), ProbeStep::ReadAgain));
    match probe.on_report(&answer, 64) {
        ProbeStep::Done(channels) => {
            assert_eq!(channels.len(), 2);
            assert_eq!(channels[0].led_count, 10);
        }
        _ => panic!("expected the topology"),
    }
}

#[test]
fn probe_gives_up() {
    let other = [0u8; 64];
    let mut probe = TopologyProbe::new(1, 2);
    assert!(matches!(probe.on_report(&other, 64), ProbeStep::ReadAgain));
    assert!(matches!(probe.on_report(&other, 64), ProbeStep::GaveUp));
}

#[test]
fn direct_and_apply_reports() {
    let colors = [Color::new(1, 2, 3), Color::new(4, 5, 6)];
    let r = direct_report(3, 2, &colors);
    assert_eq!(&r[..10], &[0x22, 0x12, 0x08, 0x00, 2, 1, 3, 5, 4, 6]);
    assert!(r[10..].iter().all(|b| *b == 0));

    let a = apply_report(1);
    let mut expected = [0u8; 64];
    expected[0] = 0x22;
    expected[1] = 0xa0;
    expected[2] = 0x02;
    expected[4] = 0x01;
    expected[7] = 0x28;
    expected[10] = 0x80;
    expected[12] = 0x32;
    expected[15] = 0x01;
    assert_eq!(a, expected);
}

#[test]
fn chunking_of_channel_colors() {
    let c = Color::new(9, 8, 7);
    assert_eq!(channel_reports(0, &[]), vec![apply_report(0)]);

    let colors = vec![c; 45];
    let reports = channel_reports(1, &colors);
    assert_eq!(reports.len(), 4);
    assert_eq!(reports[0][1], 0x10);
    assert_eq!(reports[2][1], 0x12);
    // the last direct report holds 45 % 20 = 5 colors
    assert_eq!(&reports[2][4..19], &[8, 9, 7, 8, 9, 7, 8, 9, 7, 8, 9, 7, 8, 9, 7]);
    assert!(reports[2][19..].iter().all(|b| *b == 0));
    assert_eq!(reports[3], apply_report(1));

    let reports = channel_reports(0, &vec![c; 40]);
    assert_eq!(reports.len(), 3);
    assert_eq!(reports[1][4 + 59], 7);
}

#[test]
fn led_mode_codes() {
    assert_eq!(LedMode::Fixed.code(), 0);
    assert_eq!(LedMode::StarryNight.code(), 9);
    assert_eq!(LedMode::RainbowFlow.code(), 0x0b);
    assert_eq!(LedMode::RainbowPulse.code(), 0x0d);
}

#[test]
fn version_text() {
    assert_eq!(nzxtcli::version_string(), "(release 0.1.0)");
}
