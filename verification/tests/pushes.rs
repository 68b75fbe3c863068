//! Pushes: what the hub remembers, and what a client is sent.

use hytedeck::client::{ClientAction, ClientEvent, ClientSession};
use hytedeck::hub::{Hub, BROADCAST_CAPACITY};
use hytedeck::model::{
    AppUsageEntry, AppUsageSnapshot, GridConfig, Push, ShellConfig, SystemSnapshot,
    WeatherSnapshot, RPC_ADDR,
};

fn system(ts_ms: u64) -> Push<f32> {
    Push::System(SystemSnapshot {
        ts_ms,
        cpu_usage: 12.5,
        cpu_temp: None,
        gpu_usage: Some(4.0),
        gpu_temp: Some(38.0),
    })
}

fn weather(ts_ms: u64) -> Push<f32> {
    Push::Weather(WeatherSnapshot {
        ts_ms,
        city: "上海".into(),
        temp_c: 25.0,
        condition: "晴".into(),
        high_c: 32.0,
        low_c: 20.2,
        sunrise: "05:45".into(),
        sunset: "18:11".into(),
    })
}

fn usage(ts_ms: u64) -> Push<f32> {
    Push::AppUsage(AppUsageSnapshot {
        ts_ms,
        top: vec![AppUsageEntry {
            name: "firefox".into(),
            today_secs: 2557,
            yesterday_secs: 1200,
        }],
    })
}

fn layout() -> Push<f32> {
    Push::Config(ShellConfig::default())
}

#[test]
fn the_default_layout_has_four_widgets() {
    let shell = ShellConfig::default();
    assert_eq!(shell.grid, GridConfig { columns: 4, row_height_px: 160, gap_px: 12 });
    let placed: Vec<(&str, u32, u32, u32, u32, u32)> =
        shell.widgets.iter().map(|w| (w.kind.as_str(), w.page, w.x, w.y, w.w, w.h)).collect();
    assert_eq!(
        placed,
        vec![
            ("clock", 0, 0, 0, 4, 3),
            ("metrics", 0, 0, 3, 4, 4),
            ("weather", 0, 0, 7, 4, 4),
            ("app_usage", 0, 0, 11, 4, 4),
        ]
    );
    assert_eq!(shell.clone(), shell);
    assert_eq!(RPC_ADDR, "127.0.0.1:9600");
}

#[test]
fn a_hub_greets_with_the_latest_of_each_kind_in_order() {
    let mut hub: Hub<f32> = Hub::new();
    assert!(hub.snapshot().is_empty());
    assert_eq!(hub.publish(usage(1)), usage(1));
    hub.publish(weather(2));
    hub.publish(system(3));
    assert_eq!(hub.snapshot(), vec![system(3), weather(2), usage(1)]);
    hub.publish(layout());
    hub.publish(system(4));
    hub.publish(weather(5));
    assert_eq!(hub.snapshot(), vec![layout(), system(4), weather(5), usage(1)]);
    let empty: Hub<f32> = Hub::default();
    assert_eq!(empty, Hub::new());
    assert_eq!(BROADCAST_CAPACITY, 32);
}

#[test]
fn a_client_gets_the_greeting_and_then_every_update() {
    let (session, action) = ClientSession::start(vec![layout(), system(1)]);
    assert_eq!(action, ClientAction::Send(layout()));
    let (session, action) = session.step(ClientEvent::Update(system(2)));
    assert_eq!(action, ClientAction::Wait);
    let (session, action) = session.step(ClientEvent::Sent);
    assert_eq!(action, ClientAction::Send(system(1)));
    let (session, action) = session.step(ClientEvent::Sent);
    assert_eq!(action, ClientAction::Send(system(2)));
    let (session, action) = session.step(ClientEvent::Sent);
    assert_eq!((&session, action), (&ClientSession::Waiting, ClientAction::Wait));
    let (session, action) = session.step(ClientEvent::Update(weather(3)));
    assert_eq!(action, ClientAction::Send(weather(3)));
    let (session, action) = session.step(ClientEvent::SendFailed);
    assert_eq!(action, ClientAction::Disconnect);
    let (session, action) = session.step(ClientEvent::Update(weather(4)));
    assert_eq!((session, action), (ClientSession::Ended, ClientAction::Disconnect));
}

#[test]
fn a_client_that_has_caught_up_knows_what_the_hub_knows() {
    let mut hub: Hub<f32> = Hub::new();
    hub.publish(layout());
    hub.publish(system(1));
    // Published between the subscription and the greeting, so it comes twice.
    let doubled = hub.publish(system(2));
    let mut known: Hub<f32> = Hub::new();
    let (mut session, mut action) = ClientSession::start(hub.snapshot());
    let mut updates = vec![doubled, hub.publish(weather(3)), hub.publish(system(4))];
    loop {
        let event = match action {
            ClientAction::Send(push) => {
                known.publish(push);
                ClientEvent::Sent
            }
            ClientAction::Wait => {
                if updates.is_empty() {
                    break;
                }
                ClientEvent::Update(updates.remove(0))
            }
            ClientAction::Disconnect => panic!("hung up"),
        };
        (session, action) = session.step(event);
    }
    assert_eq!(session, ClientSession::Waiting);
    assert_eq!(known, hub);
}

#[test]
fn a_session_ends_only_for_cause() {
    let waiting = || {
        let (session, action) = ClientSession::start(Vec::<Push<f32>>::new());
        assert_eq!(action, ClientAction::Wait);
        session
    };
    assert_eq!(waiting().step(ClientEvent::Inbound), (ClientSession::Waiting, ClientAction::Wait));
    assert_eq!(waiting().step(ClientEvent::Lagged(7)), (ClientSession::Waiting, ClientAction::Wait));
    for event in [ClientEvent::UpdatesClosed, ClientEvent::PeerGone] {
        assert_eq!(waiting().step(event), (ClientSession::Ended, ClientAction::Disconnect));
    }
}
