use apollo_router::configuration::{IpAddr, ListenAddr};
use apollo_router::event::State;
use apollo_router::source::open_file;
use apollo_router::state_channel::StateChannel;

fn running(port: u16) -> State {
    State::Running {
        address: ListenAddr { ip: IpAddr::V4(0x7f00_0001), port },
        schema_hash: "h".to_string(),
    }
}

#[test]
fn new_channel_is_open_and_empty() {
    let mut channel = StateChannel::new();
    assert_eq!(channel, StateChannel { buffered: None, closed: false });
    assert_eq!(channel.receive(), None);
}

#[test]
fn each_state_is_read_once() {
    let mut channel = StateChannel::new();
    assert_eq!(channel.send(State::Startup), None);
    assert_eq!(channel.receive(), Some(State::Startup));
    assert_eq!(channel.receive(), None);
    assert_eq!(channel.send(running(1)), None);
    assert_eq!(channel.receive(), Some(running(1)));
}

#[test]
fn latest_state_overwrites_the_unread_one() {
    let mut channel = StateChannel::new();
    assert_eq!(channel.send(State::Startup), None);
    assert_eq!(channel.send(running(1)), Some(State::Startup));
    assert_eq!(channel.send(running(2)), Some(running(1)));
    assert_eq!(channel.send(State::Stopped), Some(running(2)));
    // A slow receiver has missed three states, and reads the last one.
    assert_eq!(channel.receive(), Some(State::Stopped));
    assert_eq!(channel.receive(), None);
}

#[test]
fn closed_channel_takes_nothing() {
    let mut channel = StateChannel::new();
    assert_eq!(channel.send(running(1)), None);
    channel.close();
    assert_eq!(channel, StateChannel { buffered: None, closed: true });
    assert_eq!(channel.send(State::Stopped), Some(State::Stopped));
    assert_eq!(channel.receive(), None);
    assert!(channel.closed);
}

#[test]
fn opening_a_file() {
    let opened = open_file(true, Some(7), true);
    assert_eq!((opened.first, opened.live), (Some(7), true));
    let opened = open_file(true, Some(7), false);
    assert_eq!((opened.first, opened.live), (Some(7), false));
    let opened = open_file(true, None::<i32>, true);
    assert_eq!((opened.first, opened.live), (None, false));
    let opened = open_file(false, Some(7), true);
    assert_eq!((opened.first, opened.live), (None, false));
    let opened = open_file(false, None::<i32>, false);
    assert_eq!((opened.first, opened.live), (None, false));
}
