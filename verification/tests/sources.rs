use apollo_router::configuration::{Configuration, IpAddr, ListenAddr, Schema};
use apollo_router::event::Event;
use apollo_router::source::{
    debounce_millis, file_source, keep_successes, ConfigurationKind, SchemaKind, ShutdownKind,
    Supply, DEFAULT_DEBOUNCE_MILLIS,
};
use std::path::PathBuf;

fn localhost(port: u16) -> ListenAddr {
    ListenAddr { ip: IpAddr::V4(0x7f00_0001), port }
}

fn configuration(settings: &str) -> Configuration {
    Configuration { listen: localhost(4000), settings: settings.to_string() }
}

fn schema(sdl: &str) -> Schema {
    Schema { hash: format!("hash of {}", sdl), sdl: sdl.to_string() }
}

fn config_file(name: &str, watch: bool, delay: Option<u64>) -> ConfigurationKind {
    ConfigurationKind::File { path: PathBuf::from(name), watch, delay }
}

fn schema_file(name: &str, watch: bool, delay: Option<u64>) -> SchemaKind {
    SchemaKind::File { path: PathBuf::from(name), watch, delay }
}

#[test]
fn config_by_file_watching() {
    let contents = configuration("testdata/supergraph_config.yaml");
    // The file is there, is read, is written again with the same contents, and
    // then with garbage.
    let supply = Supply {
        present: true,
        initial: Some(contents.clone()),
        later: vec![Some(contents.clone()), None],
    };
    let events = config_file("supergraph_config.yaml", true, Some(10)).into_events(supply);

    // First update is guaranteed
    assert!(matches!(events[0], Event::UpdateConfiguration(_)));

    // Modify the file and try again
    assert!(matches!(events[1], Event::UpdateConfiguration(_)));

    // This time write garbage, there should not be an update.
    assert!(matches!(events[2], Event::NoMoreConfiguration));
    assert_eq!(events.len(), 3);
}

#[test]
fn config_by_file_invalid() {
    let garbage: Option<Configuration> = None;
    let supply = Supply { present: true, initial: garbage, later: vec![] };
    let events = config_file("Garbage", true, None).into_events(supply);

    // First update fails because the file is invalid.
    assert!(matches!(events[0], Event::NoMoreConfiguration));
    assert_eq!(events, vec![Event::NoMoreConfiguration]);
}

#[test]
fn config_by_file_missing() {
    let supply = Supply { present: false, initial: None, later: vec![] };
    let events = config_file("does_not_exit", true, None).into_events(supply);

    // First update fails because the file is missing.
    assert!(matches!(events[0], Event::NoMoreConfiguration));
    assert_eq!(events, vec![Event::NoMoreConfiguration]);
}

#[test]
fn config_by_file_no_watch() {
    let contents = configuration("testdata/supergraph_config.yaml");
    let supply = Supply { present: true, initial: Some(contents.clone()), later: vec![] };
    let events = config_file("supergraph_config.yaml", false, None).into_events(supply);
    assert!(matches!(events[0], Event::UpdateConfiguration(_)));
    assert!(matches!(events[1], Event::NoMoreConfiguration));
    assert_eq!(events, vec![Event::UpdateConfiguration(contents), Event::NoMoreConfiguration]);
}

#[test]
fn schema_by_file_watching() {
    let contents = schema("testdata/supergraph.graphql");
    let supply = Supply {
        present: true,
        initial: Some(contents.clone()),
        later: vec![Some(contents.clone())],
    };
    let events = schema_file("supergraph.graphql", true, Some(10)).into_events(supply);

    // First update is guaranteed
    assert!(matches!(events[0], Event::UpdateSchema(_)));

    // Modify the file and try again
    assert!(matches!(events[1], Event::UpdateSchema(_)));
    assert_eq!(
        events,
        vec![
            Event::UpdateSchema(contents.clone()),
            Event::UpdateSchema(contents),
            Event::NoMoreSchema
        ]
    );
}

#[test]
fn schema_by_file_missing() {
    let supply = Supply { present: false, initial: None, later: vec![] };
    let events = schema_file("does_not_exit", true, None).into_events(supply);

    // First update fails because the file is missing.
    assert!(matches!(events[0], Event::NoMoreSchema));
    assert_eq!(events.len(), 1);
}

#[test]
fn schema_by_file_no_watch() {
    let contents = schema("testdata/supergraph.graphql");
    let supply = Supply { present: true, initial: Some(contents.clone()), later: vec![] };
    let events = schema_file("supergraph.graphql", false, None).into_events(supply);
    assert!(matches!(events[0], Event::UpdateSchema(_)));
    assert!(matches!(events[1], Event::NoMoreSchema));
    assert_eq!(events, vec![Event::UpdateSchema(contents), Event::NoMoreSchema]);
}

#[test]
fn missing_file_ignores_what_is_read_later() {
    let supply = Supply {
        present: false,
        initial: Some(configuration("a")),
        later: vec![Some(configuration("b"))],
    };
    let events = config_file("gone.yaml", true, None).into_events(supply);
    assert_eq!(events, vec![Event::NoMoreConfiguration]);
}

#[test]
fn unwatched_file_ignores_later_changes() {
    let supply = Supply {
        present: true,
        initial: Some(configuration("a")),
        later: vec![Some(configuration("b")), Some(configuration("c"))],
    };
    let events = config_file("router.yaml", false, None).into_events(supply);
    assert_eq!(
        events,
        vec![Event::UpdateConfiguration(configuration("a")), Event::NoMoreConfiguration]
    );
}

#[test]
fn watcher_stays_live_after_garbage() {
    let supply = Supply {
        present: true,
        initial: Some(configuration("a")),
        later: vec![None, None, Some(configuration("b")), None, Some(configuration("c"))],
    };
    let events = config_file("router.yaml", true, Some(10)).into_events(supply);
    assert_eq!(
        events,
        vec![
            Event::UpdateConfiguration(configuration("a")),
            Event::UpdateConfiguration(configuration("b")),
            Event::UpdateConfiguration(configuration("c")),
            Event::NoMoreConfiguration,
        ]
    );
}

#[test]
fn static_configuration_is_update_then_sentinel() {
    let events = ConfigurationKind::Instance(configuration("x")).into_events(Supply::empty());
    assert_eq!(
        events,
        vec![Event::UpdateConfiguration(configuration("x")), Event::NoMoreConfiguration]
    );
    // Whatever is delivered makes no difference to a static source.
    let noisy = Supply { present: true, initial: Some(configuration("y")), later: vec![None] };
    let events = ConfigurationKind::Instance(configuration("x")).into_events(noisy);
    assert_eq!(
        events,
        vec![Event::UpdateConfiguration(configuration("x")), Event::NoMoreConfiguration]
    );
}

#[test]
fn static_schema_is_update_then_sentinel() {
    let events = SchemaKind::Instance(schema("type Query")).into_events(Supply::empty());
    assert_eq!(events, vec![Event::UpdateSchema(schema("type Query")), Event::NoMoreSchema]);
}

#[test]
fn kinds_from_values_are_static() {
    let kind = ConfigurationKind::from(configuration("x"));
    assert!(matches!(kind, ConfigurationKind::Instance(_)));
    assert_eq!(
        kind.into_events(Supply::empty()),
        vec![Event::UpdateConfiguration(configuration("x")), Event::NoMoreConfiguration]
    );
    let kind = SchemaKind::from(schema("s"));
    assert!(matches!(kind, SchemaKind::Instance(_)));
    assert_eq!(
        kind.into_events(Supply::empty()),
        vec![Event::UpdateSchema(schema("s")), Event::NoMoreSchema]
    );
}

#[test]
fn stream_maps_each_item_then_ends() {
    let supply = Supply {
        present: false,
        initial: None,
        later: vec![Some(configuration("a")), Some(configuration("b"))],
    };
    let events = ConfigurationKind::Stream.into_events(supply);
    assert_eq!(
        events,
        vec![
            Event::UpdateConfiguration(configuration("a")),
            Event::UpdateConfiguration(configuration("b")),
            Event::NoMoreConfiguration,
        ]
    );
    assert_eq!(
        SchemaKind::Stream.into_events(Supply::empty()),
        vec![Event::NoMoreSchema]
    );
}

#[test]
fn registry_skips_failed_polls() {
    let registry = SchemaKind::Registry {
        apollo_key: "key".to_string(),
        apollo_graph_ref: "graph@current".to_string(),
        url: Some(url::Url::parse("https://uplink.example.com/").unwrap()),
        poll_interval: 10_000,
    };
    let supply = Supply {
        present: false,
        initial: None,
        later: vec![None, Some(schema("v1")), None, None, Some(schema("v2"))],
    };
    assert_eq!(
        registry.into_events(supply),
        vec![
            Event::UpdateSchema(schema("v1")),
            Event::UpdateSchema(schema("v2")),
            Event::NoMoreSchema
        ]
    );
}

#[test]
fn shutdown_sources() {
    assert_eq!(ShutdownKind::Never.into_events(false), vec![]);
    assert_eq!(ShutdownKind::Never.into_events(true), vec![]);
    assert_eq!(ShutdownKind::Custom.into_events(false), vec![]);
    assert_eq!(ShutdownKind::Custom.into_events(true), vec![Event::Shutdown]);
    assert_eq!(ShutdownKind::CtrlC.into_events(false), vec![]);
    assert_eq!(ShutdownKind::CtrlC.into_events(true), vec![Event::Shutdown]);
}

#[test]
fn successes_keep_order() {
    assert_eq!(keep_successes(vec![Some(1), None, Some(2), Some(3), None]), vec![1, 2, 3]);
    assert_eq!(keep_successes(Vec::<Option<u8>>::new()), Vec::<u8>::new());
    assert_eq!(keep_successes(vec![None::<u8>, None]), Vec::<u8>::new());
}

#[test]
fn file_source_cases() {
    assert_eq!(file_source(false, Some(1), true, vec![Some(2)]), Vec::<i32>::new());
    assert_eq!(file_source(true, None, true, vec![Some(2)]), Vec::<i32>::new());
    assert_eq!(file_source(true, Some(1), false, vec![Some(2)]), vec![1]);
    assert_eq!(file_source(true, Some(1), true, vec![Some(2), None, Some(3)]), vec![1, 2, 3]);
}

#[test]
fn debounce_defaults_to_a_tenth_of_a_second() {
    assert_eq!(DEFAULT_DEBOUNCE_MILLIS, 100);
    assert_eq!(debounce_millis(None), 100);
    assert_eq!(debounce_millis(Some(10)), 10);
    assert_eq!(debounce_millis(Some(0)), 0);
}
