//! Source adapters: what each kind of configuration, schema and shutdown
//! source emits.
//!
//! A source is opened by the caller, who reads files, pulls streams, polls the
//! registry and waits for signals. The caller reports what it saw in a
//! [`Supply`]; the functions here decide which events the source emits for it.
//! The events are those of a source that was given all of its supply; a consumer that
//! drops the source earlier has seen a prefix of them.

use crate::configuration::{Configuration, Schema};
use crate::event::Event;
use std::path::PathBuf;
use url::Url;
use vstd::prelude::*;

verus! {

/// `std::path::PathBuf`, which a file source carries to the caller who opens
/// the file. Nothing is claimed of its content.
#[verifier::external_type_specification]
#[verifier::external_body]
pub struct ExPathBuf(PathBuf);

/// `url::Url`, which a registry source carries to the caller who polls the
/// registry. Nothing is claimed of its content.
#[verifier::external_type_specification]
#[verifier::external_body]
pub struct ExUrl(Url);

/// The delay, in milliseconds, by which bursts of file changes are coalesced
/// when a file source names none.
pub const DEFAULT_DEBOUNCE_MILLIS: u64 = 100;

/// The delay, in milliseconds, that a watched file source waits for a burst of
/// changes to settle: the one it was given, else
/// [`DEFAULT_DEBOUNCE_MILLIS`].
pub fn debounce_millis(delay: Option<u64>) -> (millis: u64)
    ensures
        millis == match delay {
            Some(given) => given,
            None => DEFAULT_DEBOUNCE_MILLIS,
        },
{
    match delay {
        Some(given) => given,
        None => DEFAULT_DEBOUNCE_MILLIS,
    }
}

/// What the outside world delivered to one source.
pub struct Supply<T> {
    /// For a file source: whether the file existed when the source was opened.
    pub present: bool,
    /// For a file source: the value read when the source was opened, `None`
    /// where the file could not be read or parsed.
    pub initial: Option<T>,
    /// In order, for a stream source each item pulled, for a watched file the
    /// outcome of the read made after each change, for a registry the outcome
    /// of each poll; `None` stands for a read, parse or poll that failed.
    pub later: Vec<Option<T>>,
}

impl<T> Supply<T> {
    /// The supply of a source to which nothing was delivered.
    pub fn empty() -> (supply: Self)
        ensures
            !supply.present,
            supply.initial is None,
            supply.later@ == Seq::<Option<T>>::empty(),
    {
        Supply { present: false, initial: None, later: Vec::new() }
    }
}

/// The values among `outcomes` that were delivered, in order: a failure
/// (`None`) is skipped.
pub open spec fn successes<T>(outcomes: Seq<Option<T>>) -> Seq<T>
    decreases outcomes.len(),
{
    if outcomes.len() == 0 {
        Seq::empty()
    } else {
        let earlier = successes(outcomes.drop_last());
        match outcomes.last() {
            Some(value) => earlier.push(value),
            None => earlier,
        }
    }
}

/// The updates of a file source. A file that is missing, or whose first read
/// fails, gives none. Otherwise the first value is an update; where the file
/// is watched, so is each later read that succeeds.
pub open spec fn file_updates<T>(
    present: bool,
    initial: Option<T>,
    watch: bool,
    rereads: Seq<Option<T>>,
) -> Seq<T> {
    if !present {
        Seq::empty()
    } else {
        match initial {
            None => Seq::empty(),
            Some(first) => if watch {
                seq![first] + successes(rereads)
            } else {
                seq![first]
            },
        }
    }
}

/// What opening a file source gives.
pub struct Opened<T> {
    /// The first update, if there is one.
    pub first: Option<T>,
    /// Whether the source goes on to watch the file. Where it does not, the
    /// sentinel follows at once.
    pub live: bool,
}

/// Opens a file source: `present` says whether the file is there, `initial`
/// is what the first read gave. A file that is missing or cannot be read
/// gives nothing and is not watched, whatever `watch` says.
pub fn open_file<T>(present: bool, initial: Option<T>, watch: bool) -> (opened: Opened<T>)
    ensures
        opened.first == (if present {
            initial
        } else {
            None
        }),
        opened.live == (present && initial is Some && watch),
        forall|rereads: Seq<Option<T>>|
            #[trigger] file_updates(present, initial, watch, rereads) == (match opened.first {
                Some(first) => seq![first],
                None => Seq::empty(),
            }) + (if opened.live {
                successes(rereads)
            } else {
                Seq::empty()
            }),
{
    if !present {
        return Opened { first: None, live: false };
    }
    let live = initial.is_some() && watch;
    Opened { first: initial, live }
}

/// Keeps the values that were delivered and drops the failures.
pub fn keep_successes<T>(outcomes: Vec<Option<T>>) -> (values: Vec<T>)
    ensures
        values@ == successes(outcomes@),
{
    let mut values: Vec<T> = Vec::new();
    let ghost all = outcomes@;
    for outcome in it: outcomes
        invariant
            it.seq() == all,
            values@ == successes(all.take(it.index())),
    {
        proof {
            let done = all.take(it.index());
            let next = all.take(it.index() + 1);
            assert(next.drop_last() == done);
            assert(next.last() == outcome);
        }
        match outcome {
            Some(value) => {
                values.push(value);
            },
            None => {},
        }
    }
    proof {
        assert(all.take(all.len() as int) == all);
    }
    values
}

/// The updates of a file source, from what the caller found on disk.
pub fn file_source<T>(present: bool, initial: Option<T>, watch: bool, rereads: Vec<Option<T>>) -> (updates:
    Vec<T>)
    ensures
        updates@ == file_updates(present, initial, watch, rereads@),
{
    let mut updates: Vec<T> = Vec::new();
    let opened = open_file(present, initial, watch);
    match opened.first {
        Some(first) => {
            updates.push(first);
        },
        None => {},
    }
    if opened.live {
        let mut rest = keep_successes(rereads);
        updates.append(&mut rest);
    }
    updates
}

/// The sub-stream of a configuration source with the given updates: one
/// `UpdateConfiguration` for each, then `NoMoreConfiguration`.
pub open spec fn configuration_events(updates: Seq<Configuration>) -> Seq<Event> {
    Seq::new(
        updates.len() + 1,
        |i: int|
            if i < updates.len() {
                Event::UpdateConfiguration(updates[i])
            } else {
                Event::NoMoreConfiguration
            },
    )
}

/// The sub-stream of a schema source with the given updates: one
/// `UpdateSchema` for each, then `NoMoreSchema`.
pub open spec fn schema_events(updates: Seq<Schema>) -> Seq<Event> {
    Seq::new(
        updates.len() + 1,
        |i: int|
            if i < updates.len() {
                Event::UpdateSchema(updates[i])
            } else {
                Event::NoMoreSchema
            },
    )
}

/// Wraps each configuration in its update event and ends with the sentinel.
pub fn emit_configurations(updates: Vec<Configuration>) -> (events: Vec<Event>)
    ensures
        events@ == configuration_events(updates@),
{
    let mut events: Vec<Event> = Vec::new();
    let ghost all = updates@;
    for update in it: updates
        invariant
            it.seq() == all,
            events@.len() == it.index(),
            forall|i: int| 0 <= i < it.index() ==> events@[i] == Event::UpdateConfiguration(all[i]),
    {
        events.push(Event::UpdateConfiguration(update));
    }
    events.push(Event::NoMoreConfiguration);
    events
}

/// Wraps each schema in its update event and ends with the sentinel.
pub fn emit_schemas(updates: Vec<Schema>) -> (events: Vec<Event>)
    ensures
        events@ == schema_events(updates@),
{
    let mut events: Vec<Event> = Vec::new();
    let ghost all = updates@;
    for update in it: updates
        invariant
            it.seq() == all,
            events@.len() == it.index(),
            forall|i: int| 0 <= i < it.index() ==> events@[i] == Event::UpdateSchema(all[i]),
    {
        events.push(Event::UpdateSchema(update));
    }
    events.push(Event::NoMoreSchema);
    events
}

/// The configuration a server is given: one value, a stream of values, or a
/// file that may be watched.
#[derive(Debug)]
pub enum ConfigurationKind {
    /// A static configuration.
    Instance(Configuration),
    /// A stream of configurations, pulled by the caller. Where possible a new
    /// configuration is applied without restarting the HTTP server.
    Stream,
    /// A YAML file that may be watched for changes.
    File {
        /// The path of the configuration file.
        path: PathBuf,
        /// `true` to watch the file for changes and apply them.
        watch: bool,
        /// When watching, the delay in milliseconds before a change is applied.
        delay: Option<u64>,
    },
}

impl ConfigurationKind {
    /// The configurations that the source delivers for `supply`.
    pub open spec fn updates(self, supply: Supply<Configuration>) -> Seq<Configuration> {
        match self {
            ConfigurationKind::Instance(instance) => seq![instance],
            ConfigurationKind::Stream => successes(supply.later@),
            ConfigurationKind::File { watch, .. } => file_updates(
                supply.present,
                supply.initial,
                watch,
                supply.later@,
            ),
        }
    }

    /// Turns the source into its events, whatever its kind, so that all kinds
    /// are handled alike from here on: an `UpdateConfiguration` for each
    /// configuration the source delivers, then `NoMoreConfiguration`.
    pub fn into_events(self, supply: Supply<Configuration>) -> (events: Vec<Event>)
        ensures
            events@ == configuration_events(self.updates(supply)),
    {
        let updates = match self {
            ConfigurationKind::Instance(instance) => {
                let mut one: Vec<Configuration> = Vec::new();
                one.push(instance);
                one
            },
            ConfigurationKind::Stream => keep_successes(supply.later),
            ConfigurationKind::File { watch, .. } => file_source(
                supply.present,
                supply.initial,
                watch,
                supply.later,
            ),
        };
        emit_configurations(updates)
    }
}

impl From<Configuration> for ConfigurationKind {
    fn from(configuration: Configuration) -> (kind: Self) {
        ConfigurationKind::Instance(configuration)
    }
}

impl vstd::std_specs::convert::FromSpecImpl<Configuration> for ConfigurationKind {
    open spec fn obeys_from_spec() -> bool {
        true
    }

    open spec fn from_spec(configuration: Configuration) -> Self {
        ConfigurationKind::Instance(configuration)
    }
}

/// The schema a server is given: one value, a stream of values, a file that
/// may be watched, or a graph in the registry.
#[derive(Debug)]
pub enum SchemaKind {
    /// A static schema.
    Instance(Schema),
    /// A stream of schemas, pulled by the caller.
    Stream,
    /// A schema file that may be watched for changes.
    File {
        /// The path of the schema file.
        path: PathBuf,
        /// `true` to watch the file for changes and apply them.
        watch: bool,
        /// When watching, the delay in milliseconds before a change is applied.
        delay: Option<u64>,
    },
    /// A graph managed in the registry, polled for its supergraph.
    Registry {
        /// The key that authenticates the poller.
        apollo_key: String,
        /// The graph reference: a graph's name, `@`, and a variant.
        apollo_graph_ref: String,
        /// The endpoint to poll, where it is not the default one.
        url: Option<Url>,
        /// The time between two polls, in milliseconds.
        poll_interval: u64,
    },
}

impl SchemaKind {
    /// The schemas that the source delivers for `supply`.
    pub open spec fn updates(self, supply: Supply<Schema>) -> Seq<Schema> {
        match self {
            SchemaKind::Instance(instance) => seq![instance],
            SchemaKind::Stream => successes(supply.later@),
            SchemaKind::File { watch, .. } => file_updates(
                supply.present,
                supply.initial,
                watch,
                supply.later@,
            ),
            SchemaKind::Registry { .. } => successes(supply.later@),
        }
    }

    /// Turns the source into its events, whatever its kind, so that all kinds
    /// are handled alike from here on: an `UpdateSchema` for each schema the
    /// source delivers, then `NoMoreSchema`.
    pub fn into_events(self, supply: Supply<Schema>) -> (events: Vec<Event>)
        ensures
            events@ == schema_events(self.updates(supply)),
    {
        let updates = match self {
            SchemaKind::Instance(instance) => {
                let mut one: Vec<Schema> = Vec::new();
                one.push(instance);
                one
            },
            SchemaKind::Stream => keep_successes(supply.later),
            SchemaKind::File { watch, .. } => file_source(
                supply.present,
                supply.initial,
                watch,
                supply.later,
            ),
            SchemaKind::Registry { .. } => keep_successes(supply.later),
        };
        emit_schemas(updates)
    }
}

impl From<Schema> for SchemaKind {
    fn from(schema: Schema) -> (kind: Self) {
        SchemaKind::Instance(schema)
    }
}

impl vstd::std_specs::convert::FromSpecImpl<Schema> for SchemaKind {
    open spec fn obeys_from_spec() -> bool {
        true
    }

    open spec fn from_spec(schema: Schema) -> Self {
        SchemaKind::Instance(schema)
    }
}

/// The shutdown hook a server is given.
#[derive(Clone, Copy, Debug, PartialEq, Eq, Structural)]
pub enum ShutdownKind {
    /// No graceful shutdown: the source never fires.
    Never,
    /// A shutdown future of the caller's own.
    Custom,
    /// The interrupt signal of the operating system.
    CtrlC,
}

impl ShutdownKind {
    /// The events of the source: `Shutdown` once its trigger has fired, and
    /// nothing from a source that has no trigger.
    pub open spec fn events(self, fired: bool) -> Seq<Event> {
        match self {
            ShutdownKind::Never => Seq::empty(),
            ShutdownKind::Custom | ShutdownKind::CtrlC => if fired {
                seq![Event::Shutdown]
            } else {
                Seq::empty()
            },
        }
    }

    /// Turns the hook into its events: `fired` says whether the caller saw the
    /// future resolve or the signal arrive.
    pub fn into_events(self, fired: bool) -> (events: Vec<Event>)
        ensures
            events@ == self.events(fired),
    {
        let mut events: Vec<Event> = Vec::new();
        match self {
            ShutdownKind::Never => {},
            ShutdownKind::Custom | ShutdownKind::CtrlC => {
                if fired {
                    events.push(Event::Shutdown);
                }
            },
        }
        events
    }
}

/// A static source gives exactly its value and then the sentinel, whatever
/// the outside delivers.
pub proof fn lemma_static_source(
    configuration: Configuration,
    schema: Schema,
    configurations: Supply<Configuration>,
    schemas: Supply<Schema>,
)
    ensures
        configuration_events(ConfigurationKind::Instance(configuration).updates(configurations)) == seq![
            Event::UpdateConfiguration(configuration),
            Event::NoMoreConfiguration,
        ],
        schema_events(SchemaKind::Instance(schema).updates(schemas)) == seq![
            Event::UpdateSchema(schema),
            Event::NoMoreSchema,
        ],
{
}

/// The sub-stream of a source holds its sentinel once, as its last event, and
/// before it one update for each value, in order.
pub proof fn lemma_sentinel_is_last(configurations: Seq<Configuration>, schemas: Seq<Schema>)
    ensures
        configuration_events(configurations).len() == configurations.len() + 1,
        configuration_events(configurations).last() == Event::NoMoreConfiguration,
        forall|i: int|
            0 <= i < configurations.len() ==> #[trigger] configuration_events(configurations)[i]
                == Event::UpdateConfiguration(configurations[i]),
        schema_events(schemas).len() == schemas.len() + 1,
        schema_events(schemas).last() == Event::NoMoreSchema,
        forall|i: int| 0 <= i < schemas.len() ==> #[trigger] schema_events(schemas)[i] == Event::UpdateSchema(schemas[i]),
{
}

/// A file that is missing when its source is opened, or that cannot be read
/// then, gives no update, watched or not: the sub-stream is the sentinel
/// alone.
pub proof fn lemma_unreadable_file<T>(present: bool, initial: Option<T>, watch: bool, rereads: Seq<Option<T>>)
    requires
        !present || initial is None,
    ensures
        file_updates(present, initial, watch, rereads) == Seq::<T>::empty(),
        configuration_events(Seq::empty()) == seq![Event::NoMoreConfiguration],
        schema_events(Seq::empty()) == seq![Event::NoMoreSchema],
{
}

/// A file that is not watched gives its first value and nothing more.
pub proof fn lemma_unwatched_file<T>(first: T, rereads: Seq<Option<T>>)
    ensures
        file_updates(true, Some(first), false, rereads) == seq![first],
{
}

/// A read, parse or poll that fails gives no update and does not end the
/// source: the updates are those of the outcomes before it, and a value that
/// is delivered after it is an update like any other.
pub proof fn lemma_failure_is_skipped<T>(outcomes: Seq<Option<T>>, value: T)
    ensures
        successes(outcomes.push(None)) == successes(outcomes),
        successes(outcomes.push(Some(value))) == successes(outcomes).push(value),
        successes(outcomes.push(None).push(Some(value))) == successes(outcomes).push(value),
{
    assert(outcomes.push(None).drop_last() == outcomes);
    assert(outcomes.push(Some(value)).drop_last() == outcomes);
    assert(outcomes.push(None).push(Some(value)).drop_last() == outcomes.push(None));
}

/// Garbage in a watched file gives no update and leaves the watcher live:
/// after a read that failed the updates are what they were, and the next read
/// that succeeds is an update.
pub proof fn lemma_watcher_stays_live<T>(first: T, rereads: Seq<Option<T>>, value: T)
    ensures
        file_updates(true, Some(first), true, rereads.push(None)) == file_updates(
            true,
            Some(first),
            true,
            rereads,
        ),
        file_updates(true, Some(first), true, rereads.push(None).push(Some(value))) == file_updates(
            true,
            Some(first),
            true,
            rereads,
        ).push(value),
{
    lemma_failure_is_skipped(rereads, value);
}

/// The values delivered are as many as the outcomes at most, and each of them
/// is one of the outcomes.
pub proof fn lemma_successes_are_outcomes<T>(outcomes: Seq<Option<T>>)
    ensures
        successes(outcomes).len() <= outcomes.len(),
        forall|i: int|
            0 <= i < successes(outcomes).len() ==> outcomes.contains(Some(#[trigger] successes(outcomes)[i])),
    decreases outcomes.len(),
{
    if outcomes.len() > 0 {
        let shorter = outcomes.drop_last();
        lemma_successes_are_outcomes(shorter);
        assert forall|i: int| 0 <= i < successes(outcomes).len() implies outcomes.contains(
            Some(#[trigger] successes(outcomes)[i]),
        ) by {
            if i < successes(shorter).len() {
                let j = choose|j: int| 0 <= j < shorter.len() && shorter[j] == Some(successes(shorter)[i]);
                assert(outcomes[j] == shorter[j]);
            } else {
                assert(outcomes[outcomes.len() - 1] == Some(successes(outcomes)[i]));
            }
        }
    }
}

/// A poll of the registry that fails is transient: it gives no event, so
/// nothing changes for the reader, and the next poll that succeeds gives its
/// update.
pub proof fn lemma_registry_error_is_transient(
    apollo_key: String,
    apollo_graph_ref: String,
    url: Option<Url>,
    poll_interval: u64,
    before: Supply<Schema>,
    failed: Supply<Schema>,
    recovered: Supply<Schema>,
    schema: Schema,
)
    requires
        failed.later@ == before.later@.push(None),
        recovered.later@ == failed.later@.push(Some(schema)),
    ensures
        ({
            let registry = SchemaKind::Registry { apollo_key, apollo_graph_ref, url, poll_interval };
            &&& registry.updates(failed) == registry.updates(before)
            &&& schema_events(registry.updates(failed)) == schema_events(registry.updates(before))
            &&& registry.updates(recovered) == registry.updates(before).push(schema)
        }),
{
    lemma_failure_is_skipped(before.later@, schema);
}

} // verus!
