use touch_port::{
    detect_all, make_event, new_event, parse_config, simulated_level, source_for, Action, Config,
    ConfigEntry, ConfigError, ConfigValue, Configuration, DeliveryMode, EdgeDetector, Level,
    Message, PortActor, SourceKind, Transition, event_type_of,
};

fn entry(key: &str, value: ConfigValue) -> ConfigEntry {
    ConfigEntry { key: key.to_string(), value }
}

fn mapping(entries: Vec<ConfigEntry>) -> Config {
    Config::Mapping(entries)
}

#[test]
fn only_line_id_gives_defaults() {
    let c = mapping(vec![entry("line_id", ConfigValue::U8(7))]);
    assert_eq!(
        parse_config(&c),
        Ok(Configuration { line_id: 7, poll_interval_millis: 100, simulate: false })
    );
}

#[test]
fn sixteen_bit_line_id_is_accepted() {
    let c = mapping(vec![entry("line_id", ConfigValue::U16(300))]);
    assert_eq!(parse_config(&c).map(|c| c.line_id), Ok(300));
}

#[test]
fn all_keys_are_read() {
    let c = mapping(vec![
        entry("simulate", ConfigValue::Bool(true)),
        entry("interval_millis", ConfigValue::U32(250)),
        entry("line_id", ConfigValue::U8(4)),
    ]);
    assert_eq!(
        parse_config(&c),
        Ok(Configuration { line_id: 4, poll_interval_millis: 250, simulate: true })
    );
}

#[test]
fn poll_interval_is_an_alternative_key() {
    let c = mapping(vec![
        entry("line_id", ConfigValue::U8(1)),
        entry("poll_interval", ConfigValue::U32(20)),
    ]);
    assert_eq!(parse_config(&c).map(|c| c.poll_interval_millis), Ok(20));
}

#[test]
fn interval_millis_wins_over_poll_interval() {
    let c = mapping(vec![
        entry("poll_interval", ConfigValue::U32(20)),
        entry("interval_millis", ConfigValue::U32(30)),
        entry("line_id", ConfigValue::U8(1)),
    ]);
    assert_eq!(parse_config(&c).map(|c| c.poll_interval_millis), Ok(30));
}

#[test]
fn optional_keys_of_wrong_type_take_defaults() {
    let c = mapping(vec![
        entry("line_id", ConfigValue::U8(2)),
        entry("interval_millis", ConfigValue::Text("fast".to_string())),
        entry("simulate", ConfigValue::U8(1)),
    ]);
    assert_eq!(
        parse_config(&c),
        Ok(Configuration { line_id: 2, poll_interval_millis: 100, simulate: false })
    );
}

#[test]
fn first_of_duplicate_keys_counts() {
    let c = mapping(vec![
        entry("line_id", ConfigValue::U8(5)),
        entry("line_id", ConfigValue::U8(6)),
    ]);
    assert_eq!(parse_config(&c).map(|c| c.line_id), Ok(5));
}

#[test]
fn missing_line_id_is_refused() {
    let c = mapping(vec![entry("simulate", ConfigValue::Bool(true))]);
    assert_eq!(parse_config(&c), Err(ConfigError::MissingLineId));
    assert_eq!(parse_config(&mapping(vec![])), Err(ConfigError::MissingLineId));
}

#[test]
fn line_id_of_wrong_type_is_refused() {
    let c = mapping(vec![entry("line_id", ConfigValue::U32(4))]);
    assert_eq!(parse_config(&c), Err(ConfigError::InvalidLineId));
    let c = mapping(vec![entry("line_id", ConfigValue::Text("4".to_string()))]);
    assert_eq!(parse_config(&c), Err(ConfigError::InvalidLineId));
}

#[test]
fn non_mapping_is_refused() {
    assert_eq!(parse_config(&Config::Value(ConfigValue::U8(4))), Err(ConfigError::NotAMapping));
    assert_eq!(parse_config(&Config::Value(ConfigValue::Null)), Err(ConfigError::NotAMapping));
}

#[test]
fn simulate_selects_simulated_source() {
    let sim = Configuration { line_id: 1, poll_interval_millis: 100, simulate: true };
    let hw = Configuration { line_id: 1, poll_interval_millis: 100, simulate: false };
    assert_eq!(source_for(&sim), SourceKind::Simulated);
    assert_eq!(source_for(&hw), SourceKind::Hardware);
}

#[test]
fn sample_sequence_gives_started_ended_started() {
    let (low, high) = (Level::Low, Level::High);
    let events = detect_all(&vec![low, high, high, low, low, high]);
    assert_eq!(events, vec![Transition::Started, Transition::Ended, Transition::Started]);
}

#[test]
fn repeated_samples_raise_nothing() {
    assert_eq!(detect_all(&vec![Level::Low; 10]), vec![]);
    assert_eq!(detect_all(&vec![Level::High; 10]), vec![Transition::Started]);
    let mut d = EdgeDetector::new();
    assert_eq!(d.observe(Level::High), Some(Transition::Started));
    assert_eq!(d.observe(Level::High), None);
    assert_eq!(d.observe(Level::High), None);
    assert_eq!(d.observe(Level::Low), Some(Transition::Ended));
    assert_eq!(d.observe(Level::Low), None);
}

#[test]
fn empty_samples_raise_nothing() {
    assert_eq!(detect_all(&vec![]), vec![]);
}

#[test]
fn detector_starts_low() {
    let d = EdgeDetector::new();
    assert_eq!(d.last, Level::Low);
}

#[test]
fn simulated_level_follows_seconds() {
    assert_eq!(simulated_level(0), Level::High);
    assert_eq!(simulated_level(1), Level::Low);
    assert_eq!(simulated_level(1_700_000_000), Level::High);
    assert_eq!(simulated_level(u64::MAX), Level::Low);
}

#[test]
fn event_types_name_the_press() {
    assert_eq!(event_type_of(Transition::Started), "io.caru.device.button_press.started");
    assert_eq!(event_type_of(Transition::Ended), "io.caru.device.button_press.ended");
}

#[test]
fn made_event_holds_its_parts() {
    let port = "touch-1".to_string();
    let e = make_event("abc".to_string(), &port, Transition::Ended, 1234);
    assert_eq!(e.event_id, "abc");
    assert_eq!(e.routing_id, "abc");
    assert_eq!(e.source_port_id, "touch-1");
    assert_eq!(e.event_type, "io.caru.device.button_press.ended");
    assert_eq!(e.timestamp_millis, 1234);
    assert_eq!(e.source_tag, "crn:io.caru.device.button");
    assert_eq!(e.delivery_mode, DeliveryMode::BestEffort);
}

#[test]
fn new_events_have_fresh_ids() {
    let port = "touch-1".to_string();
    let a = new_event(&port, Transition::Started);
    let b = new_event(&port, Transition::Started);
    assert_eq!(a.event_id.len(), 36);
    assert!(!a.event_id.is_empty());
    assert_eq!(a.routing_id, a.event_id);
    assert_ne!(a.event_id, b.event_id);
    assert_eq!(a.delivery_mode, DeliveryMode::BestEffort);
    assert_eq!(a.event_type, "io.caru.device.button_press.started");
    assert_eq!(a.source_port_id, "touch-1");
    // after 2020-01-01
    assert!(a.timestamp_millis > 1_577_836_800_000);
}

#[test]
fn init_and_unknown_messages_change_nothing() {
    let mut actor = PortActor::new();
    assert_eq!(actor.handle(&Message::Init), Action::Nothing);
    assert_eq!(actor.handle(&Message::Other), Action::NotImplemented);
    assert!(!actor.is_configured());
    assert_eq!(actor.configuration(), None);
}

#[test]
fn second_configuration_is_rejected() {
    let mut actor = PortActor::new();
    let first = mapping(vec![entry("line_id", ConfigValue::U8(3))]);
    let second = mapping(vec![
        entry("line_id", ConfigValue::U8(9)),
        entry("simulate", ConfigValue::Bool(true)),
    ]);
    let cfg = Configuration { line_id: 3, poll_interval_millis: 100, simulate: false };
    assert_eq!(
        actor.handle(&Message::ConfigUpdated(first)),
        Action::StartDetector(cfg, SourceKind::Hardware)
    );
    assert_eq!(actor.handle(&Message::ConfigUpdated(second)), Action::RejectReconfiguration);
    assert_eq!(actor.configuration(), Some(cfg));
    assert_eq!(actor.handle(&Message::Init), Action::Nothing);
    assert_eq!(actor.configuration(), Some(cfg));
}

#[test]
fn missing_line_id_aborts_before_start() {
    let mut actor = PortActor::new();
    let c = mapping(vec![entry("simulate", ConfigValue::Bool(true))]);
    assert_eq!(
        actor.handle(&Message::ConfigUpdated(c)),
        Action::Abort(ConfigError::MissingLineId)
    );
    assert!(!actor.is_configured());
}

#[test]
fn simulated_end_to_end() {
    let mut actor = PortActor::new();
    let c = mapping(vec![
        entry("line_id", ConfigValue::U8(4)),
        entry("simulate", ConfigValue::Bool(true)),
    ]);
    let cfg = Configuration { line_id: 4, poll_interval_millis: 100, simulate: true };
    assert_eq!(
        actor.handle(&Message::ConfigUpdated(c)),
        Action::StartDetector(cfg, SourceKind::Simulated)
    );
    let mut d = EdgeDetector::new();
    let port = "touch".to_string();
    let mut sent = Vec::new();
    for s in [Level::Low, Level::Low, Level::High, Level::Low] {
        if let Some(t) = d.observe(s) {
            sent.push(new_event(&port, t));
        }
    }
    assert_eq!(sent.len(), 2);
    assert_eq!(sent[0].event_type, "io.caru.device.button_press.started");
    assert_eq!(sent[1].event_type, "io.caru.device.button_press.ended");
}
