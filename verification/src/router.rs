//! The server as its user sets it up: a builder, and the router that serves.

use crate::event::State;
use crate::source::{ConfigurationKind, SchemaKind, ShutdownKind};
use crate::state_machine::{Stage, StateMachine};
use vstd::prelude::*;

verus! {

/// Marks the types that create request pipelines. The creation itself is an
/// await and belongs to the caller.
pub trait RouterServiceFactory {

}

/// The factory that creates pipelines from the YAML configuration.
#[derive(Clone, Copy, Debug, PartialEq, Eq, Structural)]
pub struct YamlRouterServiceFactory {}

impl RouterServiceFactory for YamlRouterServiceFactory {

}

impl Default for YamlRouterServiceFactory {
    fn default() -> (factory: Self) {
        YamlRouterServiceFactory {  }
    }
}

/// A server that takes requests and federates a response from calls to
/// subgraphs.
pub struct ApolloRouter<RF> {
    /// The configuration that the server uses: static, or a source of updates.
    configuration: ConfigurationKind,
    /// The schema that the server uses: static, or a source of updates.
    schema: SchemaKind,
    /// What shuts the server down.
    shutdown: ShutdownKind,
    router_factory: RF,
}

/// A builder for an [`ApolloRouter`].
pub struct ApolloRouterBuilder<Factory = ()> {
    configuration: Option<ConfigurationKind>,
    schema: Option<SchemaKind>,
    shutdown: Option<ShutdownKind>,
    router_factory: Factory,
}

/// Everything a served router starts with.
pub struct Served<RF> {
    /// The state machine, starting up.
    pub machine: StateMachine,
    /// The state to broadcast first.
    pub first: State,
    /// The sources to open and merge.
    pub configuration: ConfigurationKind,
    pub schema: SchemaKind,
    pub shutdown: ShutdownKind,
    /// The factory that creates the pipelines.
    pub router_factory: RF,
}

impl<Factory: Default> Default for ApolloRouterBuilder<Factory> {
    fn default() -> (builder: Self)
        ensures
            builder.spec_configuration() is None,
            builder.spec_schema() is None,
            builder.spec_shutdown() is None,
    {
        ApolloRouterBuilder {
            configuration: None,
            schema: None,
            shutdown: None,
            router_factory: Factory::default(),
        }
    }
}

impl<Factory> ApolloRouterBuilder<Factory> {
    /// The configuration that was set, if any.
    pub closed spec fn spec_configuration(&self) -> Option<ConfigurationKind> {
        self.configuration
    }

    /// The schema that was set, if any.
    pub closed spec fn spec_schema(&self) -> Option<SchemaKind> {
        self.schema
    }

    /// The shutdown hook that was set, if any.
    pub closed spec fn spec_shutdown(&self) -> Option<ShutdownKind> {
        self.shutdown
    }

    /// The factory that was set.
    pub closed spec fn spec_router_factory(&self) -> Factory {
        self.router_factory
    }

    /// Whether a configuration is set.
    pub fn has_configuration(&self) -> (set: bool)
        ensures
            set == self.spec_configuration() is Some,
    {
        self.configuration.is_some()
    }

    /// Whether a schema is set.
    pub fn has_schema(&self) -> (set: bool)
        ensures
            set == self.spec_schema() is Some,
    {
        self.schema.is_some()
    }

    /// Whether a router can be built: a configuration and a schema are set.
    pub open spec fn spec_is_complete(&self) -> bool {
        self.spec_configuration() is Some && self.spec_schema() is Some
    }

    /// Whether a router can be built: a configuration and a schema are set.
    #[verifier::when_used_as_spec(spec_is_complete)]
    pub fn is_complete(&self) -> (complete: bool)
        ensures
            complete == self.spec_is_complete(),
    {
        self.configuration.is_some() && self.schema.is_some()
    }

    /// What a router built from this builder holds.
    pub open spec fn built<RF>(&self, router: ApolloRouter<RF>, router_factory: RF) -> bool {
        &&& Some(router.spec_configuration()) == self.spec_configuration()
        &&& Some(router.spec_schema()) == self.spec_schema()
        &&& router.spec_shutdown() == match self.spec_shutdown() {
            Some(shutdown) => shutdown,
            None => ShutdownKind::CtrlC,
        }
        &&& router.spec_router_factory() == router_factory
    }
}

impl ApolloRouterBuilder<()> {
    /// Sets the configuration.
    pub fn configuration(self, configuration: ConfigurationKind) -> (builder: Self)
        ensures
            builder.spec_configuration() == Some(configuration),
            builder.spec_schema() == self.spec_schema(),
            builder.spec_shutdown() == self.spec_shutdown(),
    {
        let mut builder = self;
        builder.configuration = Some(configuration);
        builder
    }

    /// Sets the schema.
    pub fn schema(self, schema: SchemaKind) -> (builder: Self)
        ensures
            builder.spec_configuration() == self.spec_configuration(),
            builder.spec_schema() == Some(schema),
            builder.spec_shutdown() == self.spec_shutdown(),
    {
        let mut builder = self;
        builder.schema = Some(schema);
        builder
    }

    /// Sets the shutdown hook.
    pub fn shutdown(self, shutdown: ShutdownKind) -> (builder: Self)
        ensures
            builder.spec_configuration() == self.spec_configuration(),
            builder.spec_schema() == self.spec_schema(),
            builder.spec_shutdown() == Some(shutdown),
    {
        let mut builder = self;
        builder.shutdown = Some(shutdown);
        builder
    }

    /// Uses a factory of the caller's own.
    pub fn with_factory<RF: RouterServiceFactory>(self, router_factory: RF) -> (builder:
        ApolloRouterBuilder<RF>)
        ensures
            builder.spec_configuration() == self.spec_configuration(),
            builder.spec_schema() == self.spec_schema(),
            builder.spec_shutdown() == self.spec_shutdown(),
            builder.spec_router_factory() == router_factory,
    {
        ApolloRouterBuilder {
            configuration: self.configuration,
            schema: self.schema,
            shutdown: self.shutdown,
            router_factory,
        }
    }

    /// Builds the router, with the YAML factory. Where no shutdown hook was
    /// set, the router is shut down by the interrupt signal.
    pub fn build(self) -> (router: ApolloRouter<YamlRouterServiceFactory>)
        requires
            self.spec_is_complete(),
        ensures
            self.built(router, YamlRouterServiceFactory {  }),
    {
        ApolloRouter {
            configuration: self.configuration.unwrap(),
            schema: self.schema.unwrap(),
            shutdown: match self.shutdown {
                Some(shutdown) => shutdown,
                None => ShutdownKind::CtrlC,
            },
            router_factory: YamlRouterServiceFactory::default(),
        }
    }
}

impl<RF: RouterServiceFactory> ApolloRouterBuilder<RF> {
    /// Builds the router, with the factory that was set. Where no shutdown
    /// hook was set, the router is shut down by the interrupt signal.
    pub fn build(self) -> (router: ApolloRouter<RF>)
        requires
            self.spec_is_complete(),
        ensures
            self.built(router, self.spec_router_factory()),
    {
        ApolloRouter {
            configuration: self.configuration.unwrap(),
            schema: self.schema.unwrap(),
            shutdown: match self.shutdown {
                Some(shutdown) => shutdown,
                None => ShutdownKind::CtrlC,
            },
            router_factory: self.router_factory,
        }
    }
}

impl<RF> ApolloRouter<RF> {
    /// The configuration source.
    pub closed spec fn spec_configuration(&self) -> ConfigurationKind {
        self.configuration
    }

    /// The schema source.
    pub closed spec fn spec_schema(&self) -> SchemaKind {
        self.schema
    }

    /// The shutdown hook.
    pub closed spec fn spec_shutdown(&self) -> ShutdownKind {
        self.shutdown
    }

    /// The factory of pipelines.
    pub closed spec fn spec_router_factory(&self) -> RF {
        self.router_factory
    }

    /// Starts the server's lifecycle: gives the state machine at its start,
    /// the state `Startup` to broadcast first, and the sources and the factory
    /// as they were set, for the caller to open, merge and drive.
    pub fn serve(self) -> (served: Served<RF>)
        ensures
            served.machine.stage == (Stage::Startup { configuration: None, schema: None }),
            !served.machine.configuration_ended,
            !served.machine.schema_ended,
            served.first == State::Startup,
            served.configuration == self.spec_configuration(),
            served.schema == self.spec_schema(),
            served.shutdown == self.spec_shutdown(),
            served.router_factory == self.spec_router_factory(),
    {
        let (machine, first) = StateMachine::new();
        Served {
            machine,
            first,
            configuration: self.configuration,
            schema: self.schema,
            shutdown: self.shutdown,
            router_factory: self.router_factory,
        }
    }
}

} // verus!
