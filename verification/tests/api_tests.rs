use notes_client::setup::setup;
use notes_client::{ApiEntry, Client, Config, Failure, Heap, Operation, Reply};

fn host_error(text: &str) -> nvim_oxi::Error {
    nvim_oxi::Error::Lua(nvim_oxi::lua::Error::RuntimeError(text.to_string()))
}

fn config(dir: &str) -> Config {
    Config::new(dir.to_string())
}

#[test]
fn setup_operation_applies_the_configuration() {
    let mut heap = Heap::new();
    let client = Client::new(&mut heap);
    assert_eq!(setup(&client, &mut heap, Ok(config("/tmp/notes"))), Ok(()));
    assert!(client.already_setup(&heap));
    assert_eq!(client.notes_dir(&heap), "/tmp/notes");
}

#[test]
fn setup_operation_passes_a_failed_parse_on() {
    let mut heap = Heap::new();
    let client = Client::new(&mut heap);
    let missing = Failure::Domain("notes_dir: missing field".to_string());
    let outcome = setup(&client, &mut heap, Err(missing));
    assert_eq!(outcome, Err(Failure::Domain("notes_dir: missing field".to_string())));
    assert!(!client.already_setup(&heap));
    assert_eq!(client.notes_dir(&heap), "./");
    let outcome = setup(&client, &mut heap, Err(Failure::Host(host_error("E5560"))));
    assert_eq!(outcome, Err(Failure::Host(host_error("E5560"))));
    assert!(!client.already_setup(&heap));
}

#[test]
fn already_setup_turns_true_when_bridged_setup_succeeds() {
    let mut heap = Heap::new();
    let client = Client::new(&mut heap);
    assert!(!client.already_setup(&heap));
    let reply = client.setup(&mut heap, Ok(config("/tmp/notes")));
    assert_eq!(reply, Reply { result: Ok(()), message: None });
    assert!(client.already_setup(&heap));
    assert_eq!(client.notes_dir(&heap), "/tmp/notes");
}

#[test]
fn already_setup_stays_false_when_bridged_setup_fails() {
    let mut heap = Heap::new();
    let client = Client::new(&mut heap);
    let reply = client.setup(&mut heap, Err(Failure::Domain("notes_dir must be a string".to_string())));
    assert_eq!(reply.result, Ok(()));
    assert_eq!(reply.message, Some("notes_dir must be a string".to_string()));
    assert!(!client.already_setup(&heap));
    assert_eq!(client.notes_dir(&heap), "./");
}

#[test]
fn bridged_setup_propagates_a_host_error() {
    let mut heap = Heap::new();
    let client = Client::new(&mut heap);
    let reply = client.setup(&mut heap, Err(Failure::Host(host_error("E5560"))));
    assert_eq!(reply.result, Err(host_error("E5560")));
    assert_eq!(reply.message, None);
    assert!(!client.already_setup(&heap));
}

#[test]
fn bridged_setup_touches_no_other_state() {
    let mut heap = Heap::new();
    let bystander = Client::new(&mut heap);
    let client = Client::new(&mut heap);
    client.setup(&mut heap, Ok(config("/tmp/notes")));
    assert!(!bystander.already_setup(&heap));
    assert_eq!(bystander.notes_dir(&heap), "./");
}

#[test]
fn repeated_setup_applies_the_latest_configuration() {
    let mut heap = Heap::new();
    let client = Client::new(&mut heap);
    client.setup(&mut heap, Ok(config("/first")));
    let reply = client.setup(&mut heap, Ok(config("/second")));
    assert_eq!(reply, Reply { result: Ok(()), message: None });
    assert!(client.already_setup(&heap));
    assert_eq!(client.notes_dir(&heap), "/second");
}

#[test]
fn failed_setup_after_a_good_one_keeps_the_plugin_configured() {
    let mut heap = Heap::new();
    let client = Client::new(&mut heap);
    client.setup(&mut heap, Ok(config("/tmp/notes")));
    let reply = client.setup(&mut heap, Err(Failure::Domain("bad".to_string())));
    assert_eq!(reply.message, Some("bad".to_string()));
    assert!(client.already_setup(&heap));
    assert_eq!(client.notes_dir(&heap), "/tmp/notes");
}

#[test]
fn build_api_offers_setup() {
    let mut heap = Heap::new();
    let client = Client::new(&mut heap);
    let api = client.build_api();
    let expected = ApiEntry { name: "setup".to_string(), operation: Operation::Setup, client };
    assert_eq!(api, vec![expected]);
}

#[test]
fn build_api_leaves_the_state_alone() {
    let mut heap = Heap::new();
    let client = Client::new(&mut heap);
    let _ = client.build_api();
    assert!(!client.already_setup(&heap));
    assert_eq!(client.notes_dir(&heap), "./");
}

#[test]
fn invoking_the_setup_entry_configures_the_plugin() {
    let mut heap = Heap::new();
    let client = Client::new(&mut heap);
    let api = client.build_api();
    let entry = api.iter().find(|entry| entry.name == "setup").expect("setup is exposed");
    assert!(!client.already_setup(&heap));
    let reply = entry.call(&mut heap, Ok(config("/tmp/notes")));
    assert_eq!(reply, Reply { result: Ok(()), message: None });
    assert!(client.already_setup(&heap));
    assert_eq!(client.notes_dir(&heap), "/tmp/notes");
}

#[test]
fn invoking_the_setup_entry_with_bad_arguments_tells_the_user() {
    let mut heap = Heap::new();
    let client = Client::new(&mut heap);
    let api = client.build_api();
    let reply = api[0].call(&mut heap, Err(Failure::Domain("not a table".to_string())));
    assert_eq!(reply, Reply { result: Ok(()), message: Some("not a table".to_string()) });
    assert!(!client.already_setup(&heap));
}

#[test]
fn tables_of_aliased_handles_work_on_one_state() {
    let mut heap = Heap::new();
    let client = Client::new(&mut heap);
    let alias = client;
    let api = alias.build_api();
    api[0].call(&mut heap, Ok(config("/tmp/notes")));
    assert!(client.already_setup(&heap));
    assert_eq!(client.notes_dir(&heap), "/tmp/notes");
}
