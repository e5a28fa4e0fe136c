use godot::obj::InstanceId;
use godot_signal_bridge::{
    argument_from_parts, publish_signals, signal_channel, write_godot_signal_events,
    GodotNodeHandle, GodotSignal, GodotSignalTarget, GodotSignalsPlugin, SignalConnection,
    VariantKind,
};

fn record(name: &str, id: i64) -> GodotSignal {
    let origin = GodotNodeHandle::from_instance_id(InstanceId::from_i64(id));
    GodotSignal {
        name: String::from(name),
        origin,
        target: GodotSignalTarget::Node(origin),
        arguments: Vec::new(),
    }
}

fn names(events: &[GodotSignal]) -> Vec<&str> {
    events.iter().map(|event| event.name.as_str()).collect()
}

#[test]
fn drain_of_an_idle_channel_is_empty() {
    let (_sender, reader) = signal_channel();
    assert!(reader.try_drain().is_empty());
    let mut events = Vec::new();
    write_godot_signal_events(&reader, &mut events);
    assert!(events.is_empty());
}

#[test]
fn drain_without_any_sender_left_is_empty() {
    let (sender, reader) = signal_channel();
    drop(sender);
    assert!(reader.try_drain().is_empty());
}

#[test]
fn sent_record_is_drained_once() {
    let (sender, reader) = signal_channel();
    assert!(sender.send(record("ready", 1)).is_ok());
    let first = reader.try_drain();
    assert_eq!(names(&first), vec!["ready"]);
    assert!(reader.try_drain().is_empty());
}

#[test]
fn send_after_the_reader_is_gone_is_refused_quietly() {
    let (sender, reader) = signal_channel();
    drop(reader);
    let mut late = record("late", 1);
    late.arguments.push(argument_from_parts(VariantKind::Int, String::from("5"), None));
    let returned = sender.send(late).unwrap_err();
    assert_eq!(returned.name, "late");
    assert_eq!(returned.origin.instance_id().to_i64(), 1);
    assert_eq!(returned.arguments.len(), 1);
    assert_eq!(returned.arguments[0].value, "5");
    let connection = SignalConnection::new(
        sender.duplicate(),
        InstanceId::from_i64(21),
        String::from("later"),
        None,
    );
    let argument = argument_from_parts(VariantKind::Bool, String::from("true"), None);
    let returned = connection.emit(vec![argument]).unwrap_err();
    assert_eq!(returned.name, "later");
    assert_eq!(returned.origin.instance_id().to_i64(), 21);
    assert_eq!(returned.arguments[0].kind_name, "Bool");
}

#[test]
fn duplicates_feed_the_same_channel() {
    let (sender, reader) = signal_channel();
    let first = sender.duplicate();
    let second = sender.duplicate();
    assert!(first.send(record("a", 1)).is_ok());
    assert!(second.send(record("b", 2)).is_ok());
    assert!(sender.send(record("c", 3)).is_ok());
    assert_eq!(names(&reader.try_drain()), vec!["a", "b", "c"]);
}

#[test]
fn ordering() {
    let (sender, reader) = signal_channel();
    let connection = SignalConnection::new(
        sender.duplicate(),
        InstanceId::from_i64(11),
        String::from("tick"),
        None,
    );
    for i in 0..5 {
        let argument = argument_from_parts(VariantKind::Int, i.to_string(), None);
        assert!(connection.emit(vec![argument]).is_ok());
    }
    let mut events = Vec::new();
    write_godot_signal_events(&reader, &mut events);
    assert_eq!(events.len(), 5);
    let seen: Vec<&str> = events.iter().map(|event| event.arguments[0].value.as_str()).collect();
    assert_eq!(seen, vec!["0", "1", "2", "3", "4"]);
    assert!(events.iter().all(|event| event.name == "tick"));
    assert!(events.iter().all(|event| event.arguments[0].kind_name == "Int"));
}

#[test]
fn each_connection_keeps_its_own_order() {
    let (sender, reader) = signal_channel();
    let left = SignalConnection::new(
        sender.duplicate(),
        InstanceId::from_i64(1),
        String::from("left"),
        None,
    );
    let right = SignalConnection::new(
        sender.duplicate(),
        InstanceId::from_i64(2),
        String::from("right"),
        None,
    );
    for i in 0..4 {
        let text = i.to_string();
        assert!(left.emit(vec![argument_from_parts(VariantKind::Int, text.clone(), None)]).is_ok());
        assert!(right.emit(vec![argument_from_parts(VariantKind::Int, text, None)]).is_ok());
    }
    let events = reader.try_drain();
    assert_eq!(events.len(), 8);
    for name in ["left", "right"] {
        let seen: Vec<&str> = events
            .iter()
            .filter(|event| event.name == name)
            .map(|event| event.arguments[0].value.as_str())
            .collect();
        assert_eq!(seen, vec!["0", "1", "2", "3"]);
    }
}

#[test]
fn publish_appends_the_batch_in_order() {
    let mut events = vec![record("old", 1)];
    publish_signals(&mut events, vec![record("a", 2), record("b", 3)]);
    assert_eq!(names(&events), vec!["old", "a", "b"]);
    publish_signals(&mut events, Vec::new());
    assert_eq!(names(&events), vec!["old", "a", "b"]);
}

#[test]
fn drain_keeps_the_events_of_the_frame_and_adds_behind_them() {
    let (sender, reader) = signal_channel();
    assert!(sender.send(record("first", 1)).is_ok());
    assert!(sender.send(record("second", 1)).is_ok());
    let mut events = vec![record("earlier", 9)];
    write_godot_signal_events(&reader, &mut events);
    assert_eq!(names(&events), vec!["earlier", "first", "second"]);
    write_godot_signal_events(&reader, &mut events);
    assert_eq!(names(&events), vec!["earlier", "first", "second"]);
}

#[test]
fn records_that_arrive_after_a_drain_wait_for_the_next() {
    let (sender, reader) = signal_channel();
    assert!(sender.send(record("one", 1)).is_ok());
    let mut frame = Vec::new();
    write_godot_signal_events(&reader, &mut frame);
    assert_eq!(names(&frame), vec!["one"]);
    assert!(sender.send(record("two", 1)).is_ok());
    let mut next = Vec::new();
    write_godot_signal_events(&reader, &mut next);
    assert_eq!(names(&next), vec!["two"]);
}

#[test]
fn plugin_opens_a_working_channel() {
    let plugin = GodotSignalsPlugin::default();
    let (sender, reader) = plugin.channel();
    assert!(sender.send(record("ready", 4)).is_ok());
    assert_eq!(names(&reader.try_drain()), vec!["ready"]);
}
