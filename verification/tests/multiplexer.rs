use apollo_router::configuration::{Configuration, IpAddr, ListenAddr, Schema};
use apollo_router::event::Event;
use apollo_router::multiplexer::{generate_event_stream, Multiplexer};

fn configuration(settings: &str) -> Configuration {
    Configuration {
        listen: ListenAddr { ip: IpAddr::V6(1), port: 80 },
        settings: settings.to_string(),
    }
}

fn schema(sdl: &str) -> Schema {
    Schema { hash: sdl.len().to_string(), sdl: sdl.to_string() }
}

#[test]
fn stream_is_cut_at_the_first_shutdown() {
    let merged = vec![
        Event::UpdateConfiguration(configuration("a")),
        Event::NoMoreConfiguration,
        Event::Shutdown,
        Event::UpdateSchema(schema("s")),
        Event::Shutdown,
        Event::NoMoreSchema,
    ];
    assert_eq!(
        generate_event_stream(merged),
        vec![
            Event::UpdateConfiguration(configuration("a")),
            Event::NoMoreConfiguration,
            Event::Shutdown
        ]
    );
}

#[test]
fn shutdown_is_appended_where_none_came() {
    let merged = vec![Event::NoMoreConfiguration, Event::NoMoreSchema];
    assert_eq!(
        generate_event_stream(merged),
        vec![Event::NoMoreConfiguration, Event::NoMoreSchema, Event::Shutdown]
    );
    assert_eq!(generate_event_stream(vec![]), vec![Event::Shutdown]);
    assert_eq!(generate_event_stream(vec![Event::Shutdown]), vec![Event::Shutdown]);
    assert_eq!(
        generate_event_stream(vec![Event::Shutdown, Event::Shutdown]),
        vec![Event::Shutdown]
    );
}

#[test]
fn unified_stream_holds_one_shutdown_at_its_end() {
    let cases = vec![
        vec![],
        vec![Event::Shutdown],
        vec![Event::UpdateSchema(schema("s")), Event::Shutdown, Event::Shutdown],
        vec![Event::UpdateSchema(schema("s")), Event::NoMoreSchema],
    ];
    for merged in cases {
        let unified = generate_event_stream(merged);
        assert_eq!(unified.last(), Some(&Event::Shutdown));
        assert_eq!(unified.iter().filter(|event| **event == Event::Shutdown).count(), 1);
    }
}

#[test]
fn multiplexer_forwards_until_shutdown() {
    let mut multiplexer = Multiplexer::new();
    assert!(!multiplexer.closed);
    assert_eq!(
        multiplexer.forward(Some(Event::NoMoreSchema)),
        Some(Event::NoMoreSchema)
    );
    assert!(!multiplexer.closed);
    assert_eq!(multiplexer.forward(Some(Event::Shutdown)), Some(Event::Shutdown));
    assert!(multiplexer.closed);
    assert_eq!(multiplexer.forward(Some(Event::NoMoreConfiguration)), None);
    assert_eq!(multiplexer.forward(Some(Event::Shutdown)), None);
    assert_eq!(multiplexer.forward(None), None);
    assert!(multiplexer.closed);
}

#[test]
fn multiplexer_ends_with_shutdown_when_the_sources_end() {
    let mut multiplexer = Multiplexer::new();
    assert_eq!(
        multiplexer.forward(Some(Event::UpdateConfiguration(configuration("a")))),
        Some(Event::UpdateConfiguration(configuration("a")))
    );
    assert_eq!(multiplexer.forward(None), Some(Event::Shutdown));
    assert!(multiplexer.closed);
    assert_eq!(multiplexer.forward(None), None);
}

#[test]
fn sentinels_come_once_and_after_their_updates() {
    // Three interleavings of the same sub-streams.
    let configurations = vec![
        Event::UpdateConfiguration(configuration("a")),
        Event::UpdateConfiguration(configuration("b")),
        Event::NoMoreConfiguration,
    ];
    let schemas = vec![Event::UpdateSchema(schema("s")), Event::NoMoreSchema];
    let one_after_the_other: Vec<Event> =
        configurations.iter().chain(schemas.iter()).cloned().collect();
    let schemas_first: Vec<Event> = schemas.iter().chain(configurations.iter()).cloned().collect();
    let alternating = vec![
        configurations[0].clone(),
        schemas[0].clone(),
        configurations[1].clone(),
        schemas[1].clone(),
        Event::Shutdown,
        configurations[2].clone(),
    ];
    for merged in [one_after_the_other, schemas_first, alternating] {
        let unified = generate_event_stream(merged);
        for (sentinel, update) in [
            (Event::NoMoreConfiguration, Event::UpdateConfiguration(configuration("a"))),
            (Event::NoMoreSchema, Event::UpdateSchema(schema("s"))),
        ] {
            let positions: Vec<usize> =
                (0..unified.len()).filter(|i| unified[*i] == sentinel).collect();
            assert!(positions.len() <= 1);
            if let Some(at) = positions.first() {
                let same_kind = std::mem::discriminant(&update);
                assert!(unified[at + 1..]
                    .iter()
                    .all(|event| std::mem::discriminant(event) != same_kind));
            }
        }
    }
}
