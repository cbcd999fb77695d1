use message_decoder::file::{parse_file, Progress};
use message_decoder::loader::{distinct_speeds, load_file, outcome_of, LoadEvent, MessageLoader, MessageLoaderState};
use message_decoder::field::ParseError;
use message_decoder::message::Message;

const SAMPLE: &str = "timestamp,id,data,crc,ack,speed\n0.001,AB,DEADBEEF,FF,true,1M\n0.002,AB,DEAD0000,00,false,500k\n0.003,AC,00,00,true,1M\n";

fn message(speed: &str) -> Message {
    Message {
        timestamp: "0".to_string(),
        id: vec![1],
        data: vec![2],
        crc: vec![3],
        ack: false,
        speed: speed.to_string(),
    }
}

fn loading(path: &str) -> MessageLoader {
    let mut loader = MessageLoader::from_path(path.to_string());
    assert_eq!(loader.handle_file_loading(LoadEvent::Pending), Some(path.to_string()));
    loader
}

#[test]
fn new_loader_has_no_file() {
    let loader = MessageLoader::new();
    assert!(matches!(loader.state(), MessageLoaderState::FileNotSelected));
    assert_eq!(loader.file_path(), None);
    assert_eq!(loader.loading_progress(), Progress { done: 0, total: 0 });
    assert!(loader.known_speeds().is_empty());
}

#[test]
fn loader_from_path_waits_to_load() {
    let loader = MessageLoader::from_path("log.csv".to_string());
    assert!(matches!(loader.state(), MessageLoaderState::FileSelected(p) if p == "log.csv"));
    assert_eq!(loader.file_path(), Some(&"log.csv".to_string()));
    assert_eq!(loader.loading_progress().per_mille(), 0);
}

#[test]
fn selected_file_starts_loading_whatever_was_found() {
    let mut loader = MessageLoader::from_path("log.csv".to_string());
    let start = loader.handle_file_loading(LoadEvent::Finished(vec![message("1M")]));
    assert_eq!(start, Some("log.csv".to_string()));
    match loader.state() {
        MessageLoaderState::Loading { progress, file_path } => {
            assert_eq!(*progress, Progress { done: 0, total: 0 });
            assert_eq!(file_path, "log.csv");
        }
        _ => panic!("the loader is loading"),
    }
    assert!(loader.known_speeds().is_empty());
}

#[test]
fn loading_waits_while_nothing_is_posted() {
    let mut loader = loading("log.csv");
    assert_eq!(loader.handle_file_loading(LoadEvent::Pending), None);
    assert!(matches!(loader.state(), MessageLoaderState::Loading { .. }));
    loader.update_progress(Progress { done: 1, total: 4 });
    assert_eq!(loader.loading_progress(), Progress { done: 1, total: 4 });
    assert_eq!(loader.loading_progress().per_mille(), 250);
    assert_eq!(loader.handle_file_loading(LoadEvent::Pending), None);
    assert_eq!(loader.loading_progress(), Progress { done: 1, total: 4 });
}

#[test]
fn well_formed_file_ends_loaded() {
    let mut loader = loading("log.csv");
    let event = load_file(SAMPLE.as_bytes());
    assert_eq!(loader.handle_file_loading(event), None);
    match loader.state() {
        MessageLoaderState::Loaded { messages, file_path } => {
            assert_eq!(messages.len(), 3);
            assert_eq!(messages[2].id, vec![0xac]);
            assert_eq!(file_path, "log.csv");
        }
        _ => panic!("the loader is loaded"),
    }
    assert_eq!(loader.loading_progress(), Progress { done: 1, total: 1 });
    assert_eq!(loader.loading_progress().per_mille(), 1000);
    assert_eq!(loader.known_speeds(), &vec!["1M".to_string(), "500k".to_string()]);
    assert_eq!(loader.file_path(), Some(&"log.csv".to_string()));
    assert_eq!(loader.handle_file_loading(LoadEvent::Invalid), None);
    assert!(matches!(loader.state(), MessageLoaderState::Loaded { .. }));
}

#[test]
fn invalid_ack_ends_failed() {
    let text = "timestamp,id,data,crc,ack,speed\n0.001,AB,00,FF,true,1M\n0.002,AB,00,00,nope,500k\n";
    let mut loader = loading("bad.csv");
    let event = load_file(text.as_bytes());
    assert!(matches!(event, LoadEvent::Invalid));
    assert_eq!(loader.handle_file_loading(event), None);
    match loader.state() {
        MessageLoaderState::Error { file_path, error } => {
            assert_eq!(file_path.as_deref(), Some("bad.csv"));
            assert_eq!(error.as_deref(), Some("File invalid"));
        }
        _ => panic!("the loader has failed"),
    }
    assert_eq!(loader.loading_progress(), Progress { done: 0, total: 0 });
    assert!(loader.known_speeds().is_empty());
    assert_eq!(loader.handle_file_loading(LoadEvent::Finished(vec![message("1M")])), None);
    assert!(matches!(loader.state(), MessageLoaderState::Error { .. }));
    assert!(loader.known_speeds().is_empty());
}

#[test]
fn lost_decoding_ends_failed_with_its_own_error() {
    let mut loader = loading("log.csv");
    assert_eq!(loader.handle_file_loading(LoadEvent::Disconnected), None);
    match loader.state() {
        MessageLoaderState::Error { file_path, error } => {
            assert_eq!(file_path.as_deref(), Some("log.csv"));
            assert_eq!(error.as_deref(), Some("File load ended unexpectedly"));
        }
        _ => panic!("the loader has failed"),
    }
}

#[test]
fn idle_states_ignore_events() {
    let mut loader = MessageLoader::new();
    assert_eq!(loader.handle_file_loading(LoadEvent::Finished(vec![message("1M")])), None);
    assert!(matches!(loader.state(), MessageLoaderState::FileNotSelected));
    assert_eq!(loader.handle_file_loading(LoadEvent::Disconnected), None);
    assert!(matches!(loader.state(), MessageLoaderState::FileNotSelected));
    loader.update_progress(Progress { done: 3, total: 4 });
    assert_eq!(loader.loading_progress(), Progress { done: 0, total: 0 });
}

#[test]
fn replacing_the_path_restarts() {
    let mut loader = loading("a.csv");
    loader.handle_file_loading(load_file(SAMPLE.as_bytes()));
    loader.replace_file_path(Some("b.csv".to_string()));
    assert!(matches!(loader.state(), MessageLoaderState::FileSelected(p) if p == "b.csv"));
    assert_eq!(loader.known_speeds().len(), 2);
    assert_eq!(loader.loading_progress(), Progress { done: 0, total: 0 });
    assert_eq!(loader.handle_file_loading(LoadEvent::Pending), Some("b.csv".to_string()));
    loader.replace_file_path(None);
    assert!(matches!(loader.state(), MessageLoaderState::FileNotSelected));
    assert_eq!(loader.file_path(), None);
}

#[test]
fn set_error_keeps_the_file() {
    let mut loader = MessageLoader::from_path("a.csv".to_string());
    loader.set_error("dialog failed".to_string());
    match loader.state() {
        MessageLoaderState::Error { file_path, error } => {
            assert_eq!(file_path.as_deref(), Some("a.csv"));
            assert_eq!(error.as_deref(), Some("dialog failed"));
        }
        _ => panic!("the loader has failed"),
    }
    assert_eq!(loader.file_path(), Some(&"a.csv".to_string()));
    let mut empty = MessageLoader::new();
    empty.set_error("no file".to_string());
    assert!(matches!(empty.state(), MessageLoaderState::Error { file_path: None, .. }));
    empty.replace_file_path(Some("c.csv".to_string()));
    assert!(matches!(empty.state(), MessageLoaderState::FileSelected(_)));
}

#[test]
fn distinct_speeds_keeps_first_occurrences() {
    let messages = vec![message("1M"), message("500k"), message("1M"), message("667k"), message("500k")];
    assert_eq!(
        distinct_speeds(&messages),
        vec!["1M".to_string(), "500k".to_string(), "667k".to_string()]
    );
    assert!(distinct_speeds(&vec![]).is_empty());
}

#[test]
fn outcome_follows_the_result() {
    assert!(matches!(outcome_of(Err(ParseError {})), LoadEvent::Invalid));
    match outcome_of(parse_file(SAMPLE.as_bytes())) {
        LoadEvent::Finished(messages) => assert_eq!(messages.len(), 3),
        _ => panic!("a valid file gives messages"),
    }
    assert!(matches!(load_file(b"a,b\nc\n"), LoadEvent::Invalid));
}
