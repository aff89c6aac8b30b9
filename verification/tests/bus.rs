use personal_assistant::sync::{Channel, Signal, SyncBus};

fn token(text: &str) -> Signal {
    Signal::TokenProduced(text.to_string())
}

#[test]
fn signals_without_listeners_are_lost() {
    let mut bus = SyncBus::new();
    bus.notify_config_changed();
    bus.emit_token("lost");
    let late = bus.subscribe(Channel::TokenProduced);
    assert_eq!(bus.drain(late), vec![]);
    bus.emit_token("heard");
    assert_eq!(bus.drain(late), vec![token("heard")]);
}

#[test]
fn channels_are_independent() {
    let mut bus = SyncBus::new();
    let configs = bus.subscribe(Channel::ConfigChanged);
    let tokens = bus.subscribe(Channel::TokenProduced);
    assert_eq!((configs, tokens), (0, 1));
    bus.emit_token("a");
    bus.notify_config_changed();
    bus.emit_token("b");
    assert_eq!(bus.pending_count(configs), 1);
    assert_eq!(bus.pending_count(tokens), 2);
    assert_eq!(bus.drain(configs), vec![Signal::ConfigChanged]);
    assert_eq!(bus.drain(tokens), vec![token("a"), token("b")]);
}

#[test]
fn every_listener_of_a_channel_hears_every_signal_in_order() {
    let mut bus = SyncBus::new();
    let first = bus.subscribe(Channel::TokenProduced);
    bus.emit_token("one");
    let second = bus.subscribe(Channel::TokenProduced);
    bus.emit_token("two");
    bus.emit_token("three");
    assert_eq!(bus.subscriber_count(), 2);
    assert_eq!(bus.drain(first), vec![token("one"), token("two"), token("three")]);
    assert_eq!(bus.drain(second), vec![token("two"), token("three")]);
}

#[test]
fn draining_empties_one_inbox_only() {
    let mut bus = SyncBus::new();
    let first = bus.subscribe(Channel::ConfigChanged);
    let second = bus.subscribe(Channel::ConfigChanged);
    bus.notify_config_changed();
    assert_eq!(bus.drain(first), vec![Signal::ConfigChanged]);
    assert_eq!(bus.drain(first), vec![]);
    assert_eq!(bus.pending_count(second), 1);
    bus.publish(Signal::ConfigChanged);
    assert_eq!(bus.drain(second), vec![Signal::ConfigChanged, Signal::ConfigChanged]);
    assert_eq!(bus.drain(first), vec![Signal::ConfigChanged]);
}

#[test]
fn an_unknown_listener_holds_nothing() {
    let mut bus = SyncBus::new();
    assert_eq!(bus.pending_count(0), 0);
    assert_eq!(bus.drain(0), vec![]);
    let only = bus.subscribe(Channel::ConfigChanged);
    bus.notify_config_changed();
    assert_eq!(bus.drain(only + 1), vec![]);
    assert_eq!(bus.pending_count(only + 1), 0);
    assert_eq!(bus.pending_count(only), 1);
}

#[test]
fn a_signal_knows_its_channel() {
    assert_eq!(Signal::ConfigChanged.channel(), Channel::ConfigChanged);
    assert_eq!(token("x").channel(), Channel::TokenProduced);
    assert_eq!(token("x").clone(), token("x"));
    assert_ne!(token("x"), token("y"));
    assert_ne!(token(""), Signal::ConfigChanged);
}
