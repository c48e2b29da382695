use apollo_router::configuration::{IpAddr, ListenAddr};
use apollo_router::error::FederatedServerError;

#[test]
fn messages_without_detail() {
    assert_eq!(FederatedServerError::StartupError.message(), "failed to start server");
    assert_eq!(
        FederatedServerError::HttpServerLifecycleError.message(),
        "failed to stop HTTP Server"
    );
    assert_eq!(
        FederatedServerError::NoConfiguration.message(),
        "no valid configuration was supplied"
    );
    assert_eq!(FederatedServerError::NoSchema.message(), "no valid schema was supplied");
    assert_eq!(
        FederatedServerError::ServerSpaceportError.message(),
        "could not configure spaceport"
    );
    assert_eq!(
        FederatedServerError::NoReloadTracingHandleError.message(),
        "no reload handle available"
    );
}

#[test]
fn messages_with_detail() {
    let detail = || "boom".to_string();
    assert_eq!(
        FederatedServerError::DeserializeConfigError(detail()).message(),
        "could not deserialize configuration: boom"
    );
    assert_eq!(
        FederatedServerError::ReadConfigError(detail()).message(),
        "could not read configuration: boom"
    );
    assert_eq!(FederatedServerError::ConfigError(detail()).message(), "boom");
    assert_eq!(
        FederatedServerError::ReadSchemaError(detail()).message(),
        "could not read schema: boom"
    );
    assert_eq!(
        FederatedServerError::ServiceCreationError(detail()).message(),
        "could not create the HTTP pipeline: boom"
    );
    assert_eq!(
        FederatedServerError::ServerCreationError(detail()).message(),
        "could not create the HTTP server: boom"
    );
    assert_eq!(
        FederatedServerError::SetGlobalSubscriberError(detail()).message(),
        "could not set global subscriber: boom"
    );
    assert_eq!(
        FederatedServerError::ReloadTracingLayerError(detail()).message(),
        "could not reload tracing layer: boom"
    );
    assert_eq!(
        FederatedServerError::ReadConfigError(String::new()).message(),
        "could not read configuration: "
    );
}

#[test]
fn ephemeral_port_is_port_zero() {
    assert!(ListenAddr { ip: IpAddr::V4(0x7f00_0001), port: 0 }.is_ephemeral());
    assert!(!ListenAddr { ip: IpAddr::V4(0x7f00_0001), port: 4000 }.is_ephemeral());
    assert!(ListenAddr { ip: IpAddr::V6(1), port: 0 }.is_ephemeral());
}
