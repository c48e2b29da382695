//! The errors that end a lifecycle.

use vstd::prelude::*;

verus! {

/// Why the server failed. Variants that report a failure of a collaborator
/// carry that failure's text.
#[derive(Clone, Debug, PartialEq, Eq)]
pub enum FederatedServerError {
    /// The lifecycle task did not begin, or died.
    StartupError,
    /// The HTTP server could not be stopped.
    HttpServerLifecycleError,
    /// The configuration source ended before any valid configuration arrived.
    NoConfiguration,
    /// The schema source ended before any valid schema arrived.
    NoSchema,
    /// The configuration could not be deserialized.
    DeserializeConfigError(String),
    /// The configuration could not be read.
    ReadConfigError(String),
    /// The configuration was rejected by its validator.
    ConfigError(String),
    /// The schema could not be read.
    ReadSchemaError(String),
    /// The router factory could not create the request pipeline.
    ServiceCreationError(String),
    /// The server factory could not create the HTTP server.
    ServerCreationError(String),
    /// The usage reporter could not be configured.
    ServerSpaceportError,
    /// No handle is available to reload the tracing layer.
    NoReloadTracingHandleError,
    /// The global tracing subscriber could not be set.
    SetGlobalSubscriberError(String),
    /// The tracing layer could not be reloaded.
    ReloadTracingLayerError(String),
}

impl FederatedServerError {
    /// The text an error is reported with: a fixed sentence, followed by the
    /// collaborator's text where the variant carries one. A rejected
    /// configuration is reported by the validator's text alone.
    pub open spec fn message_text(&self) -> Seq<char> {
        match self {
            FederatedServerError::StartupError => "failed to start server"@,
            FederatedServerError::HttpServerLifecycleError => "failed to stop HTTP Server"@,
            FederatedServerError::NoConfiguration => "no valid configuration was supplied"@,
            FederatedServerError::NoSchema => "no valid schema was supplied"@,
            FederatedServerError::DeserializeConfigError(detail) =>
                "could not deserialize configuration: "@ + detail@,
            FederatedServerError::ReadConfigError(detail) =>
                "could not read configuration: "@ + detail@,
            FederatedServerError::ConfigError(detail) => detail@,
            FederatedServerError::ReadSchemaError(detail) => "could not read schema: "@ + detail@,
            FederatedServerError::ServiceCreationError(detail) =>
                "could not create the HTTP pipeline: "@ + detail@,
            FederatedServerError::ServerCreationError(detail) =>
                "could not create the HTTP server: "@ + detail@,
            FederatedServerError::ServerSpaceportError => "could not configure spaceport"@,
            FederatedServerError::NoReloadTracingHandleError => "no reload handle available"@,
            FederatedServerError::SetGlobalSubscriberError(detail) =>
                "could not set global subscriber: "@ + detail@,
            FederatedServerError::ReloadTracingLayerError(detail) =>
                "could not reload tracing layer: "@ + detail@,
        }
    }

    /// The text the error is reported with.
    pub fn message(&self) -> (text: String)
        ensures
            text@ == self.message_text(),
    {
        match self {
            FederatedServerError::StartupError => "failed to start server".to_owned(),
            FederatedServerError::HttpServerLifecycleError => "failed to stop HTTP Server".to_owned(),
            FederatedServerError::NoConfiguration => "no valid configuration was supplied".to_owned(),
            FederatedServerError::NoSchema => "no valid schema was supplied".to_owned(),
            FederatedServerError::DeserializeConfigError(detail) =>
                "could not deserialize configuration: ".to_owned().concat(detail.as_str()),
            FederatedServerError::ReadConfigError(detail) =>
                "could not read configuration: ".to_owned().concat(detail.as_str()),
            FederatedServerError::ConfigError(detail) => detail.clone(),
            FederatedServerError::ReadSchemaError(detail) =>
                "could not read schema: ".to_owned().concat(detail.as_str()),
            FederatedServerError::ServiceCreationError(detail) =>
                "could not create the HTTP pipeline: ".to_owned().concat(detail.as_str()),
            FederatedServerError::ServerCreationError(detail) =>
                "could not create the HTTP server: ".to_owned().concat(detail.as_str()),
            FederatedServerError::ServerSpaceportError => "could not configure spaceport".to_owned(),
            FederatedServerError::NoReloadTracingHandleError => "no reload handle available".to_owned(),
            FederatedServerError::SetGlobalSubscriberError(detail) =>
                "could not set global subscriber: ".to_owned().concat(detail.as_str()),
            FederatedServerError::ReloadTracingLayerError(detail) =>
                "could not reload tracing layer: ".to_owned().concat(detail.as_str()),
        }
    }
}

} // verus!
