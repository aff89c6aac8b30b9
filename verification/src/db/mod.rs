//! The configuration store: the named records of the models that the user
//! has described, at most one record for each name.

pub mod logic;

use crate::error::{Error, ErrorView};
use crate::model::config::{config_views, ModelConfig, ModelConfigView};
use crate::text::same_text;
use vstd::prelude::*;

verus! {

/// How long the records of a connected store live.
#[derive(Clone, Copy, Debug, PartialEq, Eq, Structural)]
pub enum StorageMode {
    /// The records live in memory and are gone when the process ends.
    Volatile,
    /// The records were read from durable storage, and the host writes every
    /// change back to it.
    Durable,
}

/// The configuration store.
#[derive(Debug)]
pub struct Database {
    connection: Option<Connection>,
}

/// What a connected store holds.
#[derive(Debug)]
struct Connection {
    mode: StorageMode,
    records: Vec<ModelConfig>,
}

/// Mathematical value of a [`Database`].
pub struct DatabaseView {
    /// How the store is connected; `None` while it is not.
    pub mode: Option<StorageMode>,
    /// The stored records, oldest first.
    pub records: Seq<ModelConfigView>,
}

/// The position of the first record with a given name.
pub open spec fn position(records: Seq<ModelConfigView>, name: Seq<char>) -> Option<int>
    decreases records.len(),
{
    if records.len() == 0 {
        None
    } else {
        match position(records.drop_last(), name) {
            Some(found) => Some(found),
            None => if records.last().name == name {
                Some(records.len() - 1)
            } else {
                None
            },
        }
    }
}

/// No two records have the same name.
pub open spec fn names_unique(records: Seq<ModelConfigView>) -> bool {
    forall|i: int, j: int|
        0 <= i < j < records.len() ==> (#[trigger] records[i]).name != (#[trigger] records[j]).name
}

/// The records that are kept when a run of records is stored one after the
/// other: a record whose name is already taken is left out.
pub open spec fn first_of_each_name(records: Seq<ModelConfigView>) -> Seq<ModelConfigView>
    decreases records.len(),
{
    if records.len() == 0 {
        Seq::empty()
    } else {
        let kept = first_of_each_name(records.drop_last());
        if position(kept, records.last().name) is Some {
            kept
        } else {
            kept.push(records.last())
        }
    }
}

/// `position` finds the first record with the name, and finds none only if
/// there is none.
pub proof fn lemma_position(records: Seq<ModelConfigView>, name: Seq<char>)
    ensures
        match position(records, name) {
            Some(found) => 0 <= found < records.len() && records[found].name == name && forall|
                k: int,
            | 0 <= k < found ==> (#[trigger] records[k]).name != name,
            None => forall|k: int| 0 <= k < records.len() ==> (#[trigger] records[k]).name != name,
        },
    decreases records.len(),
{
    if records.len() > 0 {
        lemma_position(records.drop_last(), name);
        match position(records.drop_last(), name) {
            Some(found) => {
                assert forall|k: int| 0 <= k < found implies (#[trigger] records[k]).name
                    != name by {
                    assert(records.drop_last()[k] == records[k]);
                }
            },
            None => {
                assert forall|k: int| 0 <= k < records.len() - 1 implies (#[trigger] records[k]).name
                    != name by {
                    assert(records.drop_last()[k] == records[k]);
                }
            },
        }
    }
}

impl DatabaseView {
    /// No name is stored twice, and a store without a connection holds
    /// nothing.
    pub open spec fn wf(self) -> bool {
        &&& names_unique(self.records)
        &&& self.mode is None ==> self.records.len() == 0
    }

    /// A store that was never connected.
    pub open spec fn disconnected() -> DatabaseView {
        DatabaseView { mode: None, records: Seq::empty() }
    }

    /// An empty store whose records live in memory only.
    pub open spec fn volatile() -> DatabaseView {
        DatabaseView { mode: Some(StorageMode::Volatile), records: Seq::empty() }
    }

    /// Whether the store is connected.
    pub open spec fn connected(self) -> bool {
        self.mode is Some
    }

    /// Whether a record with the given name is stored.
    pub open spec fn contains(self, name: Seq<char>) -> bool {
        position(self.records, name) is Some
    }

    /// The store after a connection was made and the records found in
    /// durable storage were taken over. A store that is already connected
    /// stays as it is.
    pub open spec fn connect(self, stored: Seq<ModelConfigView>) -> DatabaseView {
        if self.connected() {
            self
        } else {
            DatabaseView { mode: Some(StorageMode::Durable), records: first_of_each_name(stored) }
        }
    }

    /// Why a record cannot be created, if it cannot.
    pub open spec fn create_error(self, config: ModelConfigView) -> Option<ErrorView> {
        if !self.connected() {
            Some(ErrorView::NotConnected)
        } else if self.contains(config.name) {
            Some(ErrorView::AlreadyExists)
        } else {
            None
        }
    }

    /// The store after a record was handed in for creation: it comes last,
    /// unless it was turned away.
    pub open spec fn create(self, config: ModelConfigView) -> DatabaseView {
        if self.create_error(config) is None {
            DatabaseView { records: self.records.push(config), ..self }
        } else {
            self
        }
    }

    /// Why the record of a name cannot be deleted, if it cannot.
    pub open spec fn delete_error(self, name: Seq<char>) -> Option<ErrorView> {
        if !self.connected() {
            Some(ErrorView::NotConnected)
        } else if !self.contains(name) {
            Some(ErrorView::NotFound)
        } else {
            None
        }
    }

    /// The store after the deletion of a name was asked for: the record of
    /// that name is gone, the others keep their order.
    pub open spec fn delete(self, name: Seq<char>) -> DatabaseView {
        if self.delete_error(name) is None {
            DatabaseView { records: self.records.remove(position(self.records, name).unwrap()), ..self }
        } else {
            self
        }
    }

    /// What the deletion of a name answers: the record that was stored under
    /// it, or the reason why nothing was deleted.
    pub open spec fn delete_reply(self, name: Seq<char>) -> Result<ModelConfigView, ErrorView> {
        match self.delete_error(name) {
            Some(error) => Err(error),
            None => Ok(self.records[position(self.records, name).unwrap()]),
        }
    }

    /// What the creation of a record answers: the record as it is stored, or
    /// the reason why it was turned away.
    pub open spec fn create_reply(self, config: ModelConfigView) -> Result<
        ModelConfigView,
        ErrorView,
    > {
        match self.create_error(config) {
            Some(error) => Err(error),
            None => Ok(config),
        }
    }

    /// What a request for all records answers.
    pub open spec fn list_reply(self) -> Result<Seq<ModelConfigView>, ErrorView> {
        if self.connected() {
            Ok(self.records)
        } else {
            Err(ErrorView::NotConnected)
        }
    }
}

/// A record that was just stored is found under its name.
pub proof fn lemma_created_is_contained(store: DatabaseView, config: ModelConfigView)
    requires
        store.create_error(config) is None,
    ensures
        store.create(config).contains(config.name),
        store.create(config).connected(),
{
}

/// Storing a record takes no other name: whether another name is stored is
/// the same before and after.
pub proof fn lemma_create_keeps_other_names(
    store: DatabaseView,
    config: ModelConfigView,
    other: Seq<char>,
)
    requires
        other != config.name,
    ensures
        store.create(config).contains(other) == store.contains(other),
{
    assert(store.records.push(config).drop_last() =~= store.records);
}

/// Two records with different names, neither of them stored yet, are both
/// created on a connected store, and afterwards come last in the order in
/// which they were handed in.
pub proof fn lemma_create_distinct_names(
    store: DatabaseView,
    first: ModelConfigView,
    second: ModelConfigView,
)
    requires
        store.connected(),
        first.name != second.name,
        !store.contains(first.name),
        !store.contains(second.name),
    ensures
        store.create_reply(first) == Ok::<ModelConfigView, ErrorView>(first),
        store.create(first).create_reply(second) == Ok::<ModelConfigView, ErrorView>(second),
        store.create(first).create(second).records == store.records.push(first).push(second),
{
    lemma_create_keeps_other_names(store, first, second.name);
}

/// Of two attempts to create a record under one name on a connected store,
/// the second is always turned away with `AlreadyExists` and changes
/// nothing; the first succeeds exactly if the name was not stored before.
/// On a store that does not hold the name, exactly one of the two succeeds.
pub proof fn lemma_create_same_name_twice(
    store: DatabaseView,
    first: ModelConfigView,
    second: ModelConfigView,
)
    requires
        store.connected(),
        first.name == second.name,
    ensures
        store.create_reply(first) is Ok <==> !store.contains(first.name),
        !store.contains(first.name) ==> store.create_reply(first) == Ok::<
            ModelConfigView,
            ErrorView,
        >(first),
        store.contains(first.name) ==> store.create_reply(first) == Err::<
            ModelConfigView,
            ErrorView,
        >(ErrorView::AlreadyExists),
        store.create(first).create_reply(second) == Err::<ModelConfigView, ErrorView>(
            ErrorView::AlreadyExists,
        ),
        store.create(first).create(second) == store.create(first),
{
    if !store.contains(first.name) {
        lemma_created_is_contained(store, first);
    }
}

/// Deleting a name that a connected store does not hold is answered with
/// `NotFound` and changes nothing.
pub proof fn lemma_delete_absent(store: DatabaseView, name: Seq<char>)
    requires
        store.connected(),
        !store.contains(name),
    ensures
        store.delete_reply(name) == Err::<ModelConfigView, ErrorView>(ErrorView::NotFound),
        store.delete(name) == store,
{
}

/// A record that was deleted is no longer stored: deleting its name again is
/// answered with `NotFound`.
pub proof fn lemma_delete_twice(store: DatabaseView, name: Seq<char>)
    requires
        store.wf(),
        store.delete_error(name) is None,
    ensures
        !store.delete(name).contains(name),
        store.delete(name).delete_reply(name) == Err::<ModelConfigView, ErrorView>(
            ErrorView::NotFound,
        ),
        store.delete(name).wf(),
{
    lemma_position(store.records, name);
    let found: int = position(store.records, name).unwrap();
    let rest = store.records.remove(found);
    lemma_position(rest, name);
    assert forall|k: int| 0 <= k < rest.len() implies (#[trigger] rest[k]).name != name by {}
    assert forall|i: int, j: int| 0 <= i < j < rest.len() implies (#[trigger] rest[i]).name != (
    #[trigger] rest[j]).name by {}
}

/// Of a run of records stored one after the other, no two that are kept
/// have the same name.
pub proof fn lemma_first_of_each_name_unique(records: Seq<ModelConfigView>)
    ensures
        names_unique(first_of_each_name(records)),
    decreases records.len(),
{
    if records.len() > 0 {
        lemma_first_of_each_name_unique(records.drop_last());
        lemma_position(first_of_each_name(records.drop_last()), records.last().name);
    }
}

/// No operation makes a store hold two records with the same name, or
/// gives records to a store without a connection.
pub proof fn lemma_store_stays_wf(
    store: DatabaseView,
    config: ModelConfigView,
    name: Seq<char>,
    stored: Seq<ModelConfigView>,
)
    requires
        store.wf(),
    ensures
        store.create(config).wf(),
        store.delete(name).wf(),
        store.connect(stored).wf(),
{
    lemma_position(store.records, config.name);
    lemma_first_of_each_name_unique(stored);
    if store.delete_error(name) is None {
        lemma_delete_twice(store, name);
    }
}

/// Before the store is connected, every operation is answered with
/// `NotConnected` and changes nothing.
pub proof fn lemma_not_connected(store: DatabaseView, config: ModelConfigView, name: Seq<char>)
    requires
        !store.connected(),
    ensures
        store.create_reply(config) == Err::<ModelConfigView, ErrorView>(ErrorView::NotConnected),
        store.delete_reply(name) == Err::<ModelConfigView, ErrorView>(ErrorView::NotConnected),
        store.list_reply() == Err::<Seq<ModelConfigView>, ErrorView>(ErrorView::NotConnected),
        store.create(config) == store,
        store.delete(name) == store,
{
}

/// Connecting is idempotent: a store that is connected is not changed by
/// another request to connect, whatever durable storage holds.
pub proof fn lemma_connect_idempotent(
    store: DatabaseView,
    stored: Seq<ModelConfigView>,
    again: Seq<ModelConfigView>,
)
    ensures
        store.connect(stored).connected(),
        store.connect(stored).connect(again) == store.connect(stored),
{
}

impl View for Database {
    type V = DatabaseView;

    closed spec fn view(&self) -> DatabaseView {
        match self.connection {
            Some(connection) => DatabaseView {
                mode: Some(connection.mode),
                records: config_views(connection.records@),
            },
            None => DatabaseView::disconnected(),
        }
    }
}

/// The plain value of an answer that carries one record.
pub open spec fn record_view(reply: Result<ModelConfig, Error>) -> Result<
    ModelConfigView,
    ErrorView,
> {
    match reply {
        Ok(config) => Ok(config@),
        Err(error) => Err(error@),
    }
}

/// The plain value of an answer that carries a list of records.
pub open spec fn records_view(reply: Result<Vec<ModelConfig>, Error>) -> Result<
    Seq<ModelConfigView>,
    ErrorView,
> {
    match reply {
        Ok(configs) => Ok(config_views(configs@)),
        Err(error) => Err(error@),
    }
}

/// Where the record of a name stands among the given records, if it does.
fn find(records: &Vec<ModelConfig>, name: &str) -> (found: Option<usize>)
    ensures
        match found {
            Some(index) => position(config_views(records@), name@) == Some(index as int) && index
                < records.len(),
            None => position(config_views(records@), name@) is None,
        },
{
    let ghost views = config_views(records@);
    let mut index: usize = 0;
    while index < records.len()
        invariant
            index <= records.len(),
            views == config_views(records@),
            forall|k: int| 0 <= k < index ==> (#[trigger] views[k]).name != name@,
        decreases records.len() - index,
    {
        if same_text(records[index].name.as_str(), name) {
            proof {
                lemma_position(views, name@);
                assert(views[index as int].name == name@);
            }
            return Some(index);
        }
        index += 1;
    }
    proof {
        lemma_position(views, name@);
    }
    None
}

impl Default for Database {
    /// A store that is not connected yet.
    fn default() -> (store: Self)
        ensures
            store@ == DatabaseView::disconnected(),
    {
        Database { connection: None }
    }
}

impl Database {
    /// A connected, empty store whose records live in memory only.
    pub fn init() -> (store: Self)
        ensures
            store@ == DatabaseView::volatile(),
            store@.wf(),
    {
        let store = Database {
            connection: Some(Connection { mode: StorageMode::Volatile, records: Vec::new() }),
        };
        assert(store@.records =~= Seq::<ModelConfigView>::empty());
        store
    }

    /// Whether the store is connected.
    pub fn is_connected(&self) -> (connected: bool)
        ensures
            connected == self@.connected(),
    {
        self.connection.is_some()
    }

    /// How the store is connected; `None` while it is not.
    pub fn mode(&self) -> (mode: Option<StorageMode>)
        ensures
            mode == self@.mode,
    {
        match &self.connection {
            Some(connection) => Some(connection.mode),
            None => None,
        }
    }

    /// The number of stored records.
    pub fn len(&self) -> (count: usize)
        ensures
            count == self@.records.len(),
    {
        match &self.connection {
            Some(connection) => connection.records.len(),
            None => 0,
        }
    }

    /// Whether a record with the given name is stored.
    pub fn contains(&self, name: &str) -> (stored: bool)
        ensures
            stored == self@.contains(name@),
    {
        match &self.connection {
            Some(connection) => find(&connection.records, name).is_some(),
            None => false,
        }
    }

    /// Stores a record under its name, unless the name is taken. Answers
    /// with the record as it is stored.
    pub fn create(&mut self, config: ModelConfig) -> (reply: Result<ModelConfig, Error>)
        ensures
            record_view(reply) == old(self)@.create_reply(config@),
            final(self)@ == old(self)@.create(config@),
            old(self)@.wf() ==> final(self)@.wf(),
    {
        match &mut self.connection {
            None => Err(Error::NotConnected),
            Some(connection) => {
                if find(&connection.records, config.name.as_str()).is_some() {
                    return Err(Error::AlreadyExists);
                }
                let created = config.clone();
                let ghost before = config_views(connection.records@);
                connection.records.push(config);
                proof {
                    lemma_position(before, config@.name);
                    assert(config_views(connection.records@) =~= before.push(config@));
                }
                Ok(created)
            },
        }
    }

    /// Removes the record of a name and answers with it.
    pub fn delete(&mut self, name: &str) -> (reply: Result<ModelConfig, Error>)
        ensures
            record_view(reply) == old(self)@.delete_reply(name@),
            final(self)@ == old(self)@.delete(name@),
            old(self)@.wf() ==> final(self)@.wf(),
    {
        match &mut self.connection {
            None => Err(Error::NotConnected),
            Some(connection) => {
                match find(&connection.records, name) {
                    Some(index) => {
                        let ghost before = config_views(connection.records@);
                        let deleted = connection.records.remove(index);
                        proof {
                            assert(config_views(connection.records@) =~= before.remove(
                                index as int,
                            ));
                            if old(self)@.wf() {
                                lemma_delete_twice(old(self)@, name@);
                            }
                        }
                        Ok(deleted)
                    },
                    None => Err(Error::NotFound),
                }
            },
        }
    }

    /// All stored records, oldest first.
    pub fn list(&self) -> (reply: Result<Vec<ModelConfig>, Error>)
        ensures
            records_view(reply) == self@.list_reply(),
    {
        match &self.connection {
            None => Err(Error::NotConnected),
            Some(connection) => {
                let configs = connection.records.clone();
                assert(config_views(configs@) =~= self@.records);
                Ok(configs)
            },
        }
    }

    /// Connects a store to durable storage and takes over the records found
    /// there, in their order; of records with the same name only the first
    /// is kept. Answers whether the connection is new: a store that is
    /// already connected stays as it is.
    pub fn connect(&mut self, stored: &Vec<ModelConfig>) -> (fresh: bool)
        ensures
            fresh == !old(self)@.connected(),
            final(self)@ == old(self)@.connect(config_views(stored@)),
            old(self)@.wf() ==> final(self)@.wf(),
    {
        if self.connection.is_some() {
            return false;
        }
        let mut records: Vec<ModelConfig> = Vec::new();
        let ghost all = config_views(stored@);
        let mut index: usize = 0;
        while index < stored.len()
            invariant
                index <= stored.len(),
                all == config_views(stored@),
                config_views(records@) == first_of_each_name(all.take(index as int)),
            decreases stored.len() - index,
        {
            assert(all.take(index + 1).drop_last() =~= all.take(index as int));
            if find(&records, stored[index].name.as_str()).is_none() {
                let record = stored[index].clone();
                records.push(record);
            }
            index += 1;
        }
        proof {
            assert(all.take(stored.len() as int) =~= all);
            lemma_first_of_each_name_unique(all);
        }
        self.connection = Some(Connection { mode: StorageMode::Durable, records });
        true
    }
}

} // verus!
