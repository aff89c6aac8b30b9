//! The commands through which a host reads and changes the store. Every
//! change that succeeds is announced on the bus, once.

use crate::db::{record_view, records_view, Database, DatabaseView};
use crate::error::{reply_view, Error, ErrorView};
use crate::model::config::{config_views, ModelConfig, ModelConfigView};
use crate::sync::{SignalView, SyncBus, SyncBusView};
use vstd::prelude::*;
use vstd::string::*;

verus! {

/// The namespace under which the records are kept in durable storage.
pub const NAMESPACE: &'static str = "my_ns";

/// The database, within the namespace, that holds the records.
pub const DATABASE: &'static str = "my_db";

/// The collection of the records, each keyed by its name.
pub const COLLECTION: &'static str = "model_config";

/// The place of the durable storage under the application's data directory.
pub fn storage_path(app_data_dir: &str) -> (path: String)
    ensures
        path@ == app_data_dir@ + "/db"@,
{
    let mut path = app_data_dir.to_owned();
    path.append("/db");
    path
}

/// The records that the host found when it opened durable storage.
pub open spec fn opened_records(opened: Result<Vec<ModelConfig>, String>) -> Option<
    Seq<ModelConfigView>,
> {
    match opened {
        Ok(stored) => Some(config_views(stored@)),
        Err(_) => None,
    }
}

/// What a request to connect answers.
pub open spec fn connect_reply(store: DatabaseView, opened: Result<Vec<ModelConfig>, String>) -> Result<
    Seq<char>,
    ErrorView,
> {
    if store.connected() {
        Ok("Database already connected"@)
    } else {
        match opened {
            Ok(_) => Ok("Connected to the database"@),
            Err(reason) => Err(ErrorView::ConnectionFailure(reason@)),
        }
    }
}

/// The store after a request to connect.
pub open spec fn connect_store(store: DatabaseView, opened: Option<Seq<ModelConfigView>>) -> DatabaseView {
    match opened {
        Some(stored) => store.connect(stored),
        None => store,
    }
}

/// The bus after a command that announces a change only if it succeeded.
pub open spec fn announce_unless(bus: SyncBusView, error: Option<ErrorView>) -> SyncBusView {
    if error is None {
        bus.publish(SignalView::ConfigChanged)
    } else {
        bus
    }
}

/// Connects the store. `opened` is what came of opening durable storage: the
/// records found there, or the reason why it could not be opened. A store
/// that is already connected answers so and looks at nothing.
pub fn connect(opened: Result<Vec<ModelConfig>, String>, state: &mut Database) -> (reply: Result<
    String,
    Error,
>)
    ensures
        reply_view(reply) == connect_reply(old(state)@, opened),
        final(state)@ == connect_store(old(state)@, opened_records(opened)),
        old(state)@.wf() ==> final(state)@.wf(),
{
    if state.is_connected() {
        return Ok("Database already connected".to_owned());
    }
    match opened {
        Ok(stored) => {
            state.connect(&stored);
            Ok("Connected to the database".to_owned())
        },
        Err(reason) => Err(Error::ConnectionFailure(reason)),
    }
}

/// Stores a new record and announces the change. A record whose name is
/// taken is turned away, and nothing is announced.
pub fn add_model_config(bus: &mut SyncBus, model_config: ModelConfig, state: &mut Database) -> (reply:
    Result<ModelConfig, Error>)
    ensures
        record_view(reply) == old(state)@.create_reply(model_config@),
        final(state)@ == old(state)@.create(model_config@),
        final(bus)@ == announce_unless(old(bus)@, old(state)@.create_error(model_config@)),
        old(state)@.wf() ==> final(state)@.wf(),
        old(bus)@.wf() ==> final(bus)@.wf(),
{
    match state.create(model_config) {
        Ok(created) => {
            bus.notify_config_changed();
            Ok(created)
        },
        Err(error) => Err(error),
    }
}

/// Deletes the record of a name and announces the change. A name that is
/// not stored is answered with a failure, and nothing is announced.
pub fn delete_model_config(bus: &mut SyncBus, name: &str, state: &mut Database) -> (reply: Result<
    ModelConfig,
    Error,
>)
    ensures
        record_view(reply) == old(state)@.delete_reply(name@),
        final(state)@ == old(state)@.delete(name@),
        final(bus)@ == announce_unless(old(bus)@, old(state)@.delete_error(name@)),
        old(state)@.wf() ==> final(state)@.wf(),
        old(bus)@.wf() ==> final(bus)@.wf(),
{
    match state.delete(name) {
        Ok(deleted) => {
            bus.notify_config_changed();
            Ok(deleted)
        },
        Err(error) => Err(error),
    }
}

/// All stored records, oldest first.
pub fn get_model_configs(state: &Database) -> (reply: Result<Vec<ModelConfig>, Error>)
    ensures
        records_view(reply) == state@.list_reply(),
{
    state.list()
}

} // verus!
