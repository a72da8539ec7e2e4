use lighthouse::command::{encode, parse_state, Command, PowerState, V1_CHARACTERISTIC, V2_CHARACTERISTIC};
use lighthouse::device::{
    classify, classify_and_match, matches_v1, matches_v2, DiscoveredDevice, Generation,
    MatchContext,
};
use lighthouse::error::Error;
use lighthouse::ident::normalize;
use lighthouse::session::{check_adapters, check_peripherals, keep_going, plan, Settings};
use lighthouse::text::{chars_of, trim};
use lighthouse::transport::{Action, Event, Phase, Sequencer};

fn strings(items: &[&str]) -> Vec<String> {
    items.iter().map(|s| s.to_string()).collect()
}

fn device(name: Option<&str>, id: &str) -> DiscoveredDevice {
    DiscoveredDevice { id: id.to_string(), name: name.map(|n| n.to_string()) }
}

fn bsid(b: &str) -> MatchContext {
    MatchContext { bsid: Some(b.to_string()) }
}

fn encoded(g: Generation, s: PowerState, ctx: &MatchContext) -> Command {
    match encode(g, s, ctx) {
        Ok(c) => c,
        Err(e) => panic!("unexpected error {:?}", e),
    }
}

#[test]
fn normalize_is_case_and_underscore_insensitive() {
    assert_eq!(normalize("HCI0/DEV_A1_B2"), "hci0/dev:a1:b2");
    assert_eq!(normalize("hci0/dev_a1_b2"), "hci0/dev:a1:b2");
    assert_eq!(normalize("A1:B2:C3:D4:E5:F6"), "a1:b2:c3:d4:e5:f6");
}

#[test]
fn normalize_is_idempotent() {
    let once = normalize("HCI0/DEV_A1_B2_C3");
    assert_eq!(normalize(&once), once);
    assert_eq!(normalize(""), "");
}

#[test]
fn normalize_keeps_other_characters() {
    assert_eq!(normalize("Ä-Z_9"), "Ä-z:9");
}

#[test]
fn classify_by_prefix() {
    assert_eq!(classify("LHB-7A2"), Some(Generation::V2));
    assert_eq!(classify("HTC BS1234"), Some(Generation::V1));
    assert_eq!(classify("HTC BS"), Some(Generation::V1));
    assert_eq!(classify("lhb-7A2"), None);
    assert_eq!(classify("HTC B"), None);
    assert_eq!(classify(""), None);
}

#[test]
fn v2_without_targets_always_matches() {
    for name in ["LHB-XXXX", "LHB-", "LHB-7A2"] {
        let d = device(Some(name), "AA:BB:CC:DD:EE:FF");
        let r = classify_and_match(&d, &Vec::new());
        match r {
            Some((Generation::V2, ctx)) => assert!(ctx.bsid.is_none()),
            other => panic!("unexpected {:?}", other),
        }
    }
}

#[test]
fn v2_targets_match_by_normalised_substring() {
    let id = "hci0/dev_AA_BB_CC_DD_EE_FF";
    assert!(matches_v2(id, &strings(&["aa:bb:cc:dd:ee:ff"])));
    assert!(matches_v2(id, &strings(&["DD:EE"])));
    assert!(matches_v2(id, &strings(&["11:22", "cc_dd"])));
    assert!(!matches_v2(id, &strings(&["11:22:33"])));
    assert!(!matches_v2("AA:BB", &strings(&["AA:BB:CC"])));
}

#[test]
fn v1_without_targets_never_matches() {
    let d = device(Some("HTC BS1234"), "AA:BB:CC:DD:EE:FF");
    assert!(classify_and_match(&d, &Vec::new()).is_none());
    assert_eq!(matches_v1("HTC BS1234", &Vec::new()), None);
}

#[test]
fn v1_matches_on_last_four_characters() {
    let r = matches_v1("HTC BS1234", &strings(&["AABB1234"]));
    assert_eq!(r, Some("AABB1234".to_string()));
    let r = matches_v1("HTC BS1234", &strings(&["FFFF1234"]));
    assert_eq!(r, Some("FFFF1234".to_string()));
}

#[test]
fn v1_first_matching_entry_wins_and_entries_are_trimmed() {
    let t = strings(&["AABBCC1234", "  DEAD1234 ", "BEEF1234"]);
    assert_eq!(matches_v1("HTC BS1234", &t), Some("DEAD1234".to_string()));
}

#[test]
fn v1_rejects_wrong_length_and_case() {
    assert_eq!(matches_v1("HTC BS1234", &strings(&["AABBCC1234"])), None);
    assert_eq!(matches_v1("HTC BS1234", &strings(&["1234"])), None);
    assert_eq!(matches_v1("HTC BSab12", &strings(&["0000AB12"])), None);
}

#[test]
fn unnamed_and_unknown_devices_are_skipped() {
    let t = strings(&["AABBCCDD"]);
    assert!(classify_and_match(&device(None, "x"), &t).is_none());
    assert!(classify_and_match(&device(Some("Headset"), "x"), &t).is_none());
}

#[test]
fn encode_v2_states() {
    let none = MatchContext { bsid: None };
    for (s, b) in [(PowerState::On, 0x01u8), (PowerState::Off, 0x00), (PowerState::Standby, 0x02)] {
        let c = encoded(Generation::V2, s, &none);
        assert_eq!(c.payload, vec![b]);
        assert_eq!(c.characteristic, V2_CHARACTERISTIC);
        assert_eq!(c.generation, Generation::V2);
    }
}

#[test]
fn encode_v1_off() {
    let c = encoded(Generation::V1, PowerState::Off, &bsid("AABBCCDD"));
    let mut expected = vec![0x12, 0x02, 0x00, 0x01, 0xDD, 0xCC, 0xBB, 0xAA];
    expected.extend_from_slice(&[0u8; 12]);
    assert_eq!(c.payload, expected);
    assert_eq!(c.payload.len(), 20);
    assert_eq!(c.characteristic, V1_CHARACTERISTIC);
}

#[test]
fn encode_v1_on() {
    let c = encoded(Generation::V1, PowerState::On, &bsid("AABBCCDD"));
    let mut expected = vec![0x12, 0x00, 0x00, 0x00, 0xDD, 0xCC, 0xBB, 0xAA];
    expected.extend_from_slice(&[0u8; 12]);
    assert_eq!(c.payload, expected);
}

#[test]
fn encode_v1_reads_big_endian_pairs() {
    let c = encoded(Generation::V1, PowerState::On, &bsid("0f1e2D3c"));
    assert_eq!(&c.payload[4..8], &[0x3C, 0x2D, 0x1E, 0x0F]);
}

#[test]
fn standby_capability() {
    assert!(Generation::V2.supports_standby());
    assert!(!Generation::V1.supports_standby());
}

#[test]
fn encode_v1_rejects_standby() {
    let r = encode(Generation::V1, PowerState::Standby, &bsid("AABBCCDD"));
    assert_eq!(r.err(), Some(Error::UnsupportedState { generation: Generation::V1 }));
}

#[test]
fn encode_v1_malformed_identifier() {
    for b in ["AABBCCDG", "AABBCC", "AABBCCDDEE", "+ABBCCDD", ""] {
        let r = encode(Generation::V1, PowerState::Off, &bsid(b));
        assert_eq!(r.err(), Some(Error::MalformedIdentifier));
    }
    let r = encode(Generation::V1, PowerState::On, &MatchContext { bsid: None });
    assert_eq!(r.err(), Some(Error::MalformedIdentifier));
}

#[test]
fn parse_state_ignores_case() {
    assert_eq!(parse_state("on"), Some(PowerState::On));
    assert_eq!(parse_state("OFF"), Some(PowerState::Off));
    assert_eq!(parse_state("StandBy"), Some(PowerState::Standby));
    assert_eq!(parse_state("sleep"), None);
    assert_eq!(parse_state(""), None);
}

#[test]
fn plan_rejects_unknown_state_for_matched_device() {
    let d = device(Some("LHB-7A2"), "AA:BB:CC:DD:EE:FF");
    let r = plan(&d, &Vec::new(), "sleep");
    assert_eq!(r.err(), Some(Error::UnsupportedState { generation: Generation::V2 }));
    let other = device(Some("Headset"), "AA:BB");
    assert!(matches!(plan(&other, &Vec::new(), "sleep"), Ok(None)));
}

#[test]
fn plan_v1_uses_matched_identifier() {
    let d = device(Some("HTC BSCCDD"), "00:11:22:33:44:55");
    let r = plan(&d, &strings(&["AABBCCDD"]), "off");
    match r {
        Ok(Some(c)) => assert_eq!(&c.payload[0..8], &[0x12, 0x02, 0x00, 0x01, 0xDD, 0xCC, 0xBB, 0xAA]),
        other => panic!("unexpected {:?}", other),
    }
}

fn drive(seq: &mut Sequencer, events: Vec<Event>) -> Vec<Action> {
    events.into_iter().map(|e| seq.step(e)).collect()
}

#[test]
fn end_to_end_single_v2_device() {
    let d = device(Some("LHB-7A2"), "AA:BB:CC:DD:EE:FF");
    let cmd = match plan(&d, &Vec::new(), "on") {
        Ok(Some(c)) => c,
        other => panic!("unexpected {:?}", other),
    };
    assert_eq!(cmd.payload, vec![0x01]);
    assert_eq!(cmd.characteristic, V2_CHARACTERISTIC);
    for written in [true, false] {
        let mut s = Sequencer::new(cmd.characteristic, 1000);
        let actions = drive(
            &mut s,
            vec![
                Event::Start,
                Event::Connected(true),
                Event::Discovered(Some(vec![7, V2_CHARACTERISTIC, V2_CHARACTERISTIC])),
                Event::Written(written),
                Event::Settled,
                Event::Disconnected(true),
            ],
        );
        let last = if written { Action::Succeeded } else { Action::Failed(Error::WriteFailed) };
        assert_eq!(
            actions,
            vec![
                Action::Connect,
                Action::Discover,
                Action::Write(1),
                Action::Settle(1000),
                Action::Disconnect,
                last,
            ]
        );
        assert_eq!(actions.iter().filter(|a| matches!(a, Action::Write(_))).count(), 1);
        assert!(s.is_finished());
    }
}

#[test]
fn discovery_failure_disconnects_once() {
    for disconnected in [true, false] {
        let mut s = Sequencer::new(V1_CHARACTERISTIC, 200);
        let actions = drive(
            &mut s,
            vec![
                Event::Start,
                Event::Connected(true),
                Event::Discovered(None),
                Event::Disconnected(disconnected),
            ],
        );
        assert_eq!(
            actions,
            vec![
                Action::Connect,
                Action::Discover,
                Action::Disconnect,
                Action::Failed(Error::DiscoveryFailed),
            ]
        );
        assert_eq!(actions.iter().filter(|a| **a == Action::Disconnect).count(), 1);
        assert_eq!(s.phase, Phase::Failed(Error::DiscoveryFailed));
    }
}

#[test]
fn connect_failure_ends_without_disconnect() {
    let mut s = Sequencer::new(V2_CHARACTERISTIC, 1000);
    let actions = drive(&mut s, vec![Event::Start, Event::Connected(false)]);
    assert_eq!(actions, vec![Action::Connect, Action::Failed(Error::ConnectFailed)]);
    assert_eq!(s.step(Event::Settled), Action::Failed(Error::ConnectFailed));
}

#[test]
fn missing_characteristic_disconnects_then_reports() {
    let mut s = Sequencer::new(V2_CHARACTERISTIC, 1000);
    let actions = drive(
        &mut s,
        vec![
            Event::Start,
            Event::Connected(true),
            Event::Discovered(Some(vec![V1_CHARACTERISTIC])),
            Event::Disconnected(true),
        ],
    );
    assert_eq!(actions[2], Action::Disconnect);
    assert_eq!(actions[3], Action::Failed(Error::CharacteristicNotFound));
}

#[test]
fn disconnect_failure_is_reported() {
    let mut s = Sequencer::new(V2_CHARACTERISTIC, 5);
    let actions = drive(
        &mut s,
        vec![
            Event::Start,
            Event::Connected(true),
            Event::Discovered(Some(vec![V2_CHARACTERISTIC])),
            Event::Written(true),
            Event::Settled,
            Event::Disconnected(false),
        ],
    );
    assert_eq!(actions[5], Action::Failed(Error::DisconnectFailed));
}

#[test]
fn out_of_order_event_waits() {
    let mut s = Sequencer::new(V2_CHARACTERISTIC, 5);
    assert_eq!(s.step(Event::Settled), Action::Wait);
    assert_eq!(s.phase, Phase::Idle);
}

#[test]
fn run_policy() {
    let go_on = Settings { settle_ms: 1000, continue_on_error: true };
    let stop = Settings { settle_ms: 1000, continue_on_error: false };
    assert!(keep_going(&go_on, Ok(())));
    assert!(keep_going(&stop, Ok(())));
    assert!(keep_going(&go_on, Err(Error::WriteFailed)));
    assert!(!keep_going(&stop, Err(Error::WriteFailed)));
    assert!(!keep_going(&go_on, Err(Error::UnsupportedState { generation: Generation::V1 })));
    assert_eq!(check_adapters(0), Err(Error::AdapterUnavailable));
    assert_eq!(check_adapters(2), Ok(()));
    assert_eq!(check_peripherals(0), Err(Error::NoPeripheralsFound));
    assert_eq!(check_peripherals(1), Ok(()));
}

#[test]
fn trim_removes_unicode_white_space() {
    assert_eq!(trim(&chars_of(" \t\u{3000}ab c\n")), chars_of("ab c"));
    assert_eq!(trim(&chars_of("   ")), Vec::<char>::new());
}
