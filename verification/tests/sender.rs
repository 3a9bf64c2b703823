use exex_plugin::errors::PluginError;
use exex_plugin::sender::{flag_after_attempt, Sender};

use tokio::sync::mpsc;

#[test]
fn send_delivers_in_order_while_receiver_lives() {
    let (tx, mut rx) = mpsc::unbounded_channel::<u32>();
    let sender = Sender::new(tx);
    sender.send(1);
    sender.send(2);
    assert_eq!(rx.try_recv(), Ok(1));
    assert_eq!(rx.try_recv(), Ok(2));
    assert!(rx.try_recv().is_err());
}

#[test]
fn send_many_delivers_all_messages_in_order() {
    let (tx, mut rx) = mpsc::unbounded_channel::<&'static str>();
    let sender = Sender::new(tx);
    sender.send_many(vec!["list", "load", "unload"]);
    assert_eq!(rx.try_recv(), Ok("list"));
    assert_eq!(rx.try_recv(), Ok("load"));
    assert_eq!(rx.try_recv(), Ok("unload"));
    assert!(rx.try_recv().is_err());
}

#[test]
fn flag_after_attempt_is_set_exactly_on_failure_and_stays_set() {
    assert!(!flag_after_attempt(false, true));
    assert!(flag_after_attempt(false, false));
    assert!(flag_after_attempt(true, true));
    assert!(flag_after_attempt(true, false));
}

#[test]
fn clone_sends_to_the_same_queue() {
    let (tx, mut rx) = mpsc::unbounded_channel::<u32>();
    let sender = Sender::new(tx);
    let other = sender.clone();
    sender.send(1);
    other.send(2);
    assert_eq!(rx.try_recv(), Ok(1));
    assert_eq!(rx.try_recv(), Ok(2));
}

#[test]
fn send_never_panics_after_receiver_dropped() {
    let (tx, rx) = mpsc::unbounded_channel::<u32>();
    let sender = Sender::new(tx);
    drop(rx);
    // The first failed send flips the shared defensive flag; all later sends
    // are no-ops. None of them may panic or surface an error.
    sender.send(1);
    sender.send(2);
    sender.send_many(vec![3, 4, 5]);
}

#[test]
fn clones_share_the_receiver_gone_flag() {
    let (tx, rx) = mpsc::unbounded_channel::<u32>();
    let sender = Sender::new(tx);
    let other = sender.clone();
    drop(rx);
    // One handle observes the failure; the flag it sets is the same one the
    // other handle reads, so the other's sends are silent no-ops too.
    sender.send(1);
    other.send(2);
    other.send_many(vec![3, 4]);
}

#[test]
fn send_many_after_receiver_dropped_is_a_noop() {
    let (tx, rx) = mpsc::unbounded_channel::<u32>();
    let sender = Sender::new(tx);
    drop(rx);
    sender.send_many(vec![1, 2, 3]);
    sender.send_many(Vec::new());
}

#[test]
fn error_messages_reproduce_the_underlying_failure() {
    let e = PluginError::LibraryLoad { detail: "no such file".to_string() };
    assert_eq!(e.message(), "failed to open plugin library: no such file");
    let e = PluginError::SymbolNotFound;
    assert_eq!(e.message(), "constructor symbol was not found on plugin library");
    let e = PluginError::DuplicateIdentity { id: "MinimalExEx".to_string() };
    assert_eq!(e.message(), "plugin with id `MinimalExEx` is already presented on manager");
    let e = PluginError::ReservedIdentity { id: "ExExManager".to_string() };
    assert_eq!(e.message(), "id `ExExManager` is reserved for manager; choose another id for plugin");
    let e = PluginError::LifecycleHook { detail: "init failed".to_string() };
    assert_eq!(e.message(), "plugin lifecycle hook failed: init failed");
}
