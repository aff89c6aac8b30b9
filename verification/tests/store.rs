use personal_assistant::db::logic::{
    add_model_config, connect, delete_model_config, get_model_configs, storage_path, COLLECTION,
    DATABASE, NAMESPACE,
};
use personal_assistant::db::{Database, StorageMode};
use personal_assistant::error::Error;
use personal_assistant::model::config::{ModelArchitecture, ModelConfig, TokenizerSource};
use personal_assistant::sync::{Channel, Signal, SyncBus};

fn config(name: &str, path: &str) -> ModelConfig {
    ModelConfig {
        name: name.to_string(),
        model_architecture: ModelArchitecture::Llama,
        model_path: path.to_string(),
        tokenizer_source: TokenizerSource::Embedded,
    }
}

fn m1() -> ModelConfig {
    config("m1", "/models/m1.bin")
}

#[test]
fn create_list_delete_with_one_signal_each() {
    let mut bus = SyncBus::new();
    let listener = bus.subscribe(Channel::ConfigChanged);
    let mut store = Database::init();

    assert_eq!(add_model_config(&mut bus, m1(), &mut store), Ok(m1()));
    assert_eq!(get_model_configs(&store), Ok(vec![m1()]));
    assert_eq!(bus.drain(listener), vec![Signal::ConfigChanged]);

    assert_eq!(delete_model_config(&mut bus, "m1", &mut store), Ok(m1()));
    assert_eq!(get_model_configs(&store), Ok(vec![]));
    assert_eq!(bus.drain(listener), vec![Signal::ConfigChanged]);
    assert_eq!(bus.drain(listener), vec![]);
}

#[test]
fn two_names_are_both_created() {
    let mut bus = SyncBus::new();
    let mut store = Database::init();
    let first = config("alpha", "/a.bin");
    let second = config("beta", "/b.bin");
    assert_eq!(add_model_config(&mut bus, first.clone(), &mut store), Ok(first.clone()));
    assert_eq!(add_model_config(&mut bus, second.clone(), &mut store), Ok(second.clone()));
    assert_eq!(get_model_configs(&store), Ok(vec![first, second]));
    assert_eq!(store.len(), 2);
}

#[test]
fn same_name_twice_succeeds_once() {
    let mut bus = SyncBus::new();
    let listener = bus.subscribe(Channel::ConfigChanged);
    let mut store = Database::init();
    let first = config("m1", "/models/m1.bin");
    let rival = config("m1", "/elsewhere/other.bin");
    assert_eq!(add_model_config(&mut bus, first.clone(), &mut store), Ok(first.clone()));
    assert_eq!(add_model_config(&mut bus, rival, &mut store), Err(Error::AlreadyExists));
    assert_eq!(get_model_configs(&store), Ok(vec![first]));
    assert_eq!(bus.drain(listener), vec![Signal::ConfigChanged]);
}

#[test]
fn names_differ_by_letter_case() {
    let mut bus = SyncBus::new();
    let mut store = Database::init();
    assert!(add_model_config(&mut bus, config("m1", "/a"), &mut store).is_ok());
    assert!(add_model_config(&mut bus, config("M1", "/b"), &mut store).is_ok());
    assert!(store.contains("m1"));
    assert!(store.contains("M1"));
    assert!(!store.contains("m"));
}

#[test]
fn deleting_an_absent_name_is_not_found() {
    let mut bus = SyncBus::new();
    let listener = bus.subscribe(Channel::ConfigChanged);
    let mut store = Database::init();
    assert_eq!(delete_model_config(&mut bus, "ghost", &mut store), Err(Error::NotFound));
    assert!(add_model_config(&mut bus, m1(), &mut store).is_ok());
    assert_eq!(delete_model_config(&mut bus, "ghost", &mut store), Err(Error::NotFound));
    assert_eq!(delete_model_config(&mut bus, "", &mut store), Err(Error::NotFound));
    assert_eq!(get_model_configs(&store), Ok(vec![m1()]));
    assert_eq!(bus.drain(listener), vec![Signal::ConfigChanged]);
}

#[test]
fn deleting_twice_is_not_found_the_second_time() {
    let mut bus = SyncBus::new();
    let mut store = Database::init();
    assert!(add_model_config(&mut bus, m1(), &mut store).is_ok());
    assert_eq!(delete_model_config(&mut bus, "m1", &mut store), Ok(m1()));
    assert_eq!(delete_model_config(&mut bus, "m1", &mut store), Err(Error::NotFound));
}

#[test]
fn delete_keeps_the_order_of_the_others() {
    let mut bus = SyncBus::new();
    let mut store = Database::init();
    for name in ["a", "b", "c", "d"] {
        assert!(add_model_config(&mut bus, config(name, "/x"), &mut store).is_ok());
    }
    assert_eq!(delete_model_config(&mut bus, "b", &mut store), Ok(config("b", "/x")));
    assert_eq!(
        get_model_configs(&store),
        Ok(vec![config("a", "/x"), config("c", "/x"), config("d", "/x")])
    );
    assert!(add_model_config(&mut bus, config("b", "/y"), &mut store).is_ok());
    assert_eq!(
        get_model_configs(&store),
        Ok(vec![config("a", "/x"), config("c", "/x"), config("d", "/x"), config("b", "/y")])
    );
}

#[test]
fn nothing_works_before_connect() {
    let mut bus = SyncBus::new();
    let listener = bus.subscribe(Channel::ConfigChanged);
    let mut store = Database::default();
    assert!(!store.is_connected());
    assert_eq!(store.mode(), None);
    assert_eq!(add_model_config(&mut bus, m1(), &mut store), Err(Error::NotConnected));
    assert_eq!(delete_model_config(&mut bus, "m1", &mut store), Err(Error::NotConnected));
    assert_eq!(get_model_configs(&store), Err(Error::NotConnected));
    assert_eq!(bus.drain(listener), vec![]);
}

#[test]
fn connect_takes_over_stored_records() {
    let mut store = Database::default();
    let stored = vec![config("a", "/1"), config("b", "/2")];
    assert_eq!(connect(Ok(stored.clone()), &mut store), Ok("Connected to the database".to_string()));
    assert!(store.is_connected());
    assert_eq!(store.mode(), Some(StorageMode::Durable));
    assert_eq!(get_model_configs(&store), Ok(stored));
}

#[test]
fn connect_keeps_the_first_of_each_name() {
    let mut store = Database::default();
    let stored = vec![config("a", "/1"), config("b", "/2"), config("a", "/3"), config("c", "/4")];
    assert!(connect(Ok(stored), &mut store).is_ok());
    assert_eq!(
        get_model_configs(&store),
        Ok(vec![config("a", "/1"), config("b", "/2"), config("c", "/4")])
    );
}

#[test]
fn connect_is_idempotent() {
    let mut bus = SyncBus::new();
    let mut store = Database::default();
    assert!(connect(Ok(vec![]), &mut store).is_ok());
    assert!(add_model_config(&mut bus, m1(), &mut store).is_ok());
    assert_eq!(
        connect(Ok(vec![config("other", "/o")]), &mut store),
        Ok("Database already connected".to_string())
    );
    assert_eq!(
        connect(Err("disk on fire".to_string()), &mut store),
        Ok("Database already connected".to_string())
    );
    assert_eq!(get_model_configs(&store), Ok(vec![m1()]));
    assert_eq!(store.mode(), Some(StorageMode::Durable));
}

#[test]
fn connect_failure_leaves_the_store_disconnected() {
    let mut store = Database::default();
    assert_eq!(
        connect(Err("permission denied".to_string()), &mut store),
        Err(Error::ConnectionFailure("permission denied".to_string()))
    );
    assert!(!store.is_connected());
    assert_eq!(get_model_configs(&store), Err(Error::NotConnected));
    assert!(connect(Ok(vec![]), &mut store).is_ok());
    assert_eq!(get_model_configs(&store), Ok(vec![]));
}

#[test]
fn a_started_store_is_volatile_and_empty() {
    let store = Database::init();
    assert!(store.is_connected());
    assert_eq!(store.mode(), Some(StorageMode::Volatile));
    assert_eq!(store.len(), 0);
    assert_eq!(get_model_configs(&store), Ok(vec![]));
    let mut again = store;
    assert_eq!(
        connect(Ok(vec![m1()]), &mut again),
        Ok("Database already connected".to_string())
    );
    assert_eq!(again.mode(), Some(StorageMode::Volatile));
    assert_eq!(again.len(), 0);
}

#[test]
fn storage_lives_under_the_data_directory() {
    assert_eq!(storage_path("/home/u/.local/share/app"), "/home/u/.local/share/app/db");
    assert_eq!(storage_path(""), "/db");
    assert_eq!(NAMESPACE, "my_ns");
    assert_eq!(DATABASE, "my_db");
    assert_eq!(COLLECTION, "model_config");
}

#[test]
fn failed_changes_announce_nothing() {
    let mut bus = SyncBus::new();
    let listener = bus.subscribe(Channel::ConfigChanged);
    let mut store = Database::init();
    assert!(add_model_config(&mut bus, m1(), &mut store).is_ok());
    assert_eq!(bus.pending_count(listener), 1);
    assert!(add_model_config(&mut bus, m1(), &mut store).is_err());
    assert!(delete_model_config(&mut bus, "nope", &mut store).is_err());
    assert_eq!(bus.pending_count(listener), 1);
    assert!(delete_model_config(&mut bus, "m1", &mut store).is_ok());
    assert_eq!(bus.pending_count(listener), 2);
}
