use amq_node::client::ConnectionType;
use amq_node::client::DeliveryMode;
use amq_node::client::Lifecycle;
use amq_node::client::PipelineType;
use amq_node::client::connection_type_from_code;
use amq_node::client::default_config;
use amq_node::client::delivery_mode_from_code;
use amq_node::client::pipeline_type_from_code;
use amq_node::registry::Registry;

#[test]
fn tests() {
    let mut reg = Registry::new();
    reg.init();
    let h = reg.new_instance(0);
    reg.set_on_message_recieved_callback(h, 1);
    reg.fini();
}

#[test]
fn unknown_handle_rejected() {
    let mut reg = Registry::new();
    reg.init();
    let h = reg.new_instance(1);
    assert_eq!(h, 1);
    for bad in [0usize, 2, 7, 1000] {
        assert!(!reg.run(bad, Ok(())));
        assert!(!reg.send_message(bad, Ok(())));
        assert!(!reg.close(bad));
        assert_eq!(reg.get_last_error(bad), "");
        assert!(!reg.set_broker_uri(bad, "tcp://x"));
        assert!(!reg.set_username(bad, "u"));
        assert!(!reg.set_password(bad, "p"));
        assert!(!reg.set_queue_or_topic_name(bad, "q"));
        assert!(!reg.set_pipeline_type(bad, 0));
        assert!(!reg.set_delivery_mode(bad, 0));
        assert!(!reg.set_session_transacted_mode(bad, true));
        assert!(!reg.set_on_message_recieved_callback(bad, 3));
        assert!(!reg.notify(bad, "m"));
        assert!(reg.connect_config(bad).is_none());
        assert!(reg.produce_command(bad, "m", 4).is_none());
        assert!(reg.client_state(bad).is_none());
        assert!(reg.connection_type(bad).is_none());
    }
    // nothing about the one real client changed
    assert_eq!(reg.instance_count(), 1);
    assert_eq!(reg.client_state(h), Some(Lifecycle::Unconfigured));
    assert_eq!(reg.get_last_error(h), "");
    assert!(reg.take_pending().is_empty());
}

#[test]
fn created_handles_distinct() {
    let mut reg = Registry::new();
    let mut handles = Vec::new();
    for i in 0..5 {
        handles.push(reg.new_instance(i));
    }
    for a in 0..handles.len() {
        for b in 0..handles.len() {
            if a != b {
                assert_ne!(handles[a], handles[b]);
            }
        }
    }
    assert_eq!(handles, vec![1, 2, 3, 4, 5]);
    assert_eq!(reg.instance_count(), 5);
}

#[test]
fn close_idempotent() {
    let mut reg = Registry::new();
    reg.init();
    let h = reg.new_instance(1);
    assert!(reg.close(h));
    assert!(reg.close(h));
    assert_eq!(reg.client_state(h), Some(Lifecycle::Closed));
    // every other operation now reports failure
    assert!(!reg.run(h, Ok(())));
    assert!(!reg.send_message(h, Ok(())));
    assert!(!reg.set_broker_uri(h, "tcp://x"));
    assert!(!reg.set_on_message_recieved_callback(h, 1));
    // while get_last_error still answers (the recorded text, not a crash)
    let e = reg.get_last_error(h);
    assert!(!e.is_empty());
    // and a third close still succeeds
    assert!(reg.close(h));
}

#[test]
fn close_keeps_last_error_readable() {
    let mut reg = Registry::new();
    reg.init();
    let h = reg.new_instance(1);
    assert!(!reg.run(h, Err(String::from("broker unreachable"))));
    assert!(reg.close(h));
    assert!(reg.close(h));
    assert_eq!(reg.get_last_error(h), "broker unreachable");
}

#[test]
fn setters_rejected_after_run() {
    let mut reg = Registry::new();
    reg.init();
    let h = reg.new_instance(1);
    assert!(reg.set_broker_uri(h, "tcp://localhost:61616"));
    assert!(reg.run(h, Ok(())));
    assert_eq!(reg.client_state(h), Some(Lifecycle::Running));
    assert!(!reg.set_broker_uri(h, "tcp://elsewhere:61616"));
    assert!(!reg.set_username(h, "u"));
    assert!(!reg.set_password(h, "p"));
    assert!(!reg.set_queue_or_topic_name(h, "q"));
    assert!(!reg.set_pipeline_type(h, 1));
    assert!(!reg.set_delivery_mode(h, 1));
    assert!(!reg.set_session_transacted_mode(h, true));
    assert_eq!(reg.get_last_error(h), "operation not legal in the current state");
    // the rejected setters had no effect: the produce command still carries
    // the settings from before run
    let cmd = reg.produce_command(h, "m", 4).unwrap();
    assert_eq!(cmd.delivery_mode, DeliveryMode::Persistent);
}

#[test]
fn consumer_cannot_send() {
    let mut reg = Registry::new();
    reg.init();
    let h = reg.new_instance(0);
    assert_eq!(reg.connection_type(h), Some(ConnectionType::Consumer));
    // before run
    assert!(!reg.send_message(h, Ok(())));
    assert_eq!(reg.get_last_error(h), "sending requires a producer connection");
    assert!(reg.produce_command(h, "m", 4).is_none());
    // while running
    assert!(reg.run(h, Ok(())));
    assert!(!reg.send_message(h, Ok(())));
    assert!(reg.produce_command(h, "m", 4).is_none());
    // after close
    assert!(reg.close(h));
    assert!(!reg.send_message(h, Ok(())));
    assert!(reg.produce_command(h, "m", 4).is_none());
}

#[test]
fn config_round_trip() {
    let mut reg = Registry::new();
    reg.init();
    let h = reg.new_instance(1);
    assert!(reg.set_broker_uri(h, "tcp://broker:61616"));
    assert!(reg.set_username(h, "alice"));
    assert!(reg.set_password(h, "swordfish"));
    assert!(reg.set_queue_or_topic_name(h, "orders"));
    assert!(reg.set_pipeline_type(h, 1));
    assert!(reg.set_delivery_mode(h, 1));
    assert!(reg.set_session_transacted_mode(h, true));
    let cfg = reg.connect_config(h).unwrap();
    assert_eq!(cfg.broker_uri, "tcp://broker:61616");
    assert_eq!(cfg.username, "alice");
    assert_eq!(cfg.password, "swordfish");
    assert_eq!(cfg.destination, "orders");
    assert_eq!(cfg.pipeline_type, PipelineType::Topic);
    assert_eq!(cfg.delivery_mode, DeliveryMode::NonPersistent);
    assert!(cfg.transacted);
}

#[test]
fn producer_scenario() {
    let mut reg = Registry::new();
    reg.init();
    let h = reg.new_instance(1);
    assert!(reg.set_broker_uri(h, "tcp://localhost:61616"));
    assert!(reg.set_queue_or_topic_name(h, "orders"));
    assert!(reg.set_pipeline_type(h, 0));
    let cfg = reg.connect_config(h).unwrap();
    assert_eq!(cfg.broker_uri, "tcp://localhost:61616");
    assert_eq!(cfg.destination, "orders");
    assert_eq!(cfg.pipeline_type, PipelineType::Queue);
    assert!(reg.run(h, Ok(())));
    let cmd = reg.produce_command(h, "hello", 4).unwrap();
    assert_eq!(cmd.body, "hello");
    assert_eq!(cmd.priority, 4);
    assert!(reg.send_message(h, Ok(())));
    assert!(reg.close(h));
    assert!(!reg.send_message(h, Ok(())));
    assert!(!reg.get_last_error(h).is_empty());
}

#[test]
fn out_of_range_connection_type_defaults_to_producer() {
    let mut reg = Registry::new();
    let c = reg.new_instance(0);
    let p1 = reg.new_instance(1);
    let p7 = reg.new_instance(7);
    let pm = reg.new_instance(-3);
    assert_eq!(reg.connection_type(c), Some(ConnectionType::Consumer));
    assert_eq!(reg.connection_type(p1), Some(ConnectionType::Producer));
    assert_eq!(reg.connection_type(p7), Some(ConnectionType::Producer));
    assert_eq!(reg.connection_type(pm), Some(ConnectionType::Producer));
}

#[test]
fn run_before_init_fails() {
    let mut reg = Registry::new();
    let h = reg.new_instance(1);
    assert!(reg.connect_config(h).is_none());
    assert!(!reg.run(h, Ok(())));
    assert_eq!(reg.get_last_error(h), "messaging library is not initialized");
}

#[test]
fn run_failure_records_error_and_state() {
    let mut reg = Registry::new();
    reg.init();
    let h = reg.new_instance(1);
    assert!(reg.set_broker_uri(h, "tcp://localhost:61616"));
    assert!(!reg.run(h, Err(String::from("connection refused"))));
    assert_eq!(reg.get_last_error(h), "connection refused");
    // the failure left the client configured: it may be corrected and rerun
    assert_eq!(reg.client_state(h), Some(Lifecycle::Configured));
    assert!(reg.set_broker_uri(h, "tcp://other:61616"));
    assert!(reg.run(h, Ok(())));
    assert_eq!(reg.client_state(h), Some(Lifecycle::Running));
    // the error is sticky: the successful run did not clear it
    assert_eq!(reg.get_last_error(h), "connection refused");
}

#[test]
fn send_failure_records_error() {
    let mut reg = Registry::new();
    reg.init();
    let h = reg.new_instance(1);
    assert!(reg.run(h, Ok(())));
    assert!(!reg.send_message(h, Err(String::from("broker rejected the message"))));
    assert_eq!(reg.get_last_error(h), "broker rejected the message");
    // the client is still running and may send again
    assert!(reg.send_message(h, Ok(())));
    assert_eq!(reg.get_last_error(h), "broker rejected the message");
}

#[test]
fn run_twice_is_illegal() {
    let mut reg = Registry::new();
    reg.init();
    let h = reg.new_instance(1);
    assert!(reg.run(h, Ok(())));
    assert!(!reg.run(h, Ok(())));
    assert_eq!(reg.get_last_error(h), "operation not legal in the current state");
}

#[test]
fn callback_registration() {
    let mut reg = Registry::new();
    reg.init();
    let p = reg.new_instance(1);
    assert!(!reg.set_on_message_recieved_callback(p, 1));
    assert_eq!(
        reg.get_last_error(p),
        "message callbacks require a consumer connection"
    );
    let c = reg.new_instance(0);
    // legal before run, and registering again silently replaces
    assert!(reg.set_on_message_recieved_callback(c, 1));
    assert!(reg.set_on_message_recieved_callback(c, 2));
    // legal after run too
    assert!(reg.run(c, Ok(())));
    assert!(reg.set_on_message_recieved_callback(c, 3));
    // but not once closed
    assert!(reg.close(c));
    assert!(!reg.set_on_message_recieved_callback(c, 4));
}

#[test]
fn notify_queues_in_arrival_order() {
    let mut reg = Registry::new();
    reg.init();
    let h = reg.new_instance(0);
    assert!(reg.set_on_message_recieved_callback(h, 9));
    assert!(reg.run(h, Ok(())));
    assert!(reg.notify(h, "first"));
    assert!(reg.notify(h, "second"));
    assert!(reg.notify(h, "third"));
    let pending = reg.take_pending();
    assert_eq!(pending.len(), 3);
    assert_eq!(pending[0].body, "first");
    assert_eq!(pending[1].body, "second");
    assert_eq!(pending[2].body, "third");
    for d in &pending {
        assert_eq!(d.handle, h);
        assert_eq!(d.handler, 9);
    }
    // the queue was drained
    assert!(reg.take_pending().is_empty());
}

#[test]
fn notify_dropped_without_handler_or_run() {
    let mut reg = Registry::new();
    reg.init();
    let h = reg.new_instance(0);
    // not running yet: dropped
    assert!(!reg.notify(h, "early"));
    assert!(reg.run(h, Ok(())));
    // running but no handler registered: dropped
    assert!(!reg.notify(h, "unheard"));
    assert!(reg.set_on_message_recieved_callback(h, 5));
    assert!(reg.notify(h, "heard"));
    // closed: dropped
    assert!(reg.close(h));
    assert!(!reg.notify(h, "late"));
    let pending = reg.take_pending();
    assert_eq!(pending.len(), 1);
    assert_eq!(pending[0].body, "heard");
}

#[test]
fn fini_refused_while_any_client_is_open() {
    let mut reg = Registry::new();
    assert!(reg.init());
    assert!(reg.fini());
    assert!(reg.init());
    let a = reg.new_instance(0);
    let b = reg.new_instance(1);
    assert!(!reg.fini());
    assert!(reg.close(a));
    assert!(!reg.fini());
    assert!(reg.close(b));
    assert!(reg.fini());
}

#[test]
fn code_mappings() {
    assert_eq!(connection_type_from_code(0), ConnectionType::Consumer);
    assert_eq!(connection_type_from_code(1), ConnectionType::Producer);
    assert_eq!(connection_type_from_code(42), ConnectionType::Producer);
    assert_eq!(pipeline_type_from_code(0), PipelineType::Queue);
    assert_eq!(pipeline_type_from_code(1), PipelineType::Topic);
    assert_eq!(pipeline_type_from_code(-1), PipelineType::Topic);
    assert_eq!(delivery_mode_from_code(0), DeliveryMode::Persistent);
    assert_eq!(delivery_mode_from_code(1), DeliveryMode::NonPersistent);
    assert_eq!(delivery_mode_from_code(8), DeliveryMode::NonPersistent);
}

#[test]
fn default_configuration() {
    let cfg = default_config();
    assert_eq!(cfg.broker_uri, "");
    assert_eq!(cfg.username, "");
    assert_eq!(cfg.password, "");
    assert_eq!(cfg.destination, "");
    assert_eq!(cfg.pipeline_type, PipelineType::Queue);
    assert_eq!(cfg.delivery_mode, DeliveryMode::Persistent);
    assert!(!cfg.transacted);
    let mut reg = Registry::new();
    let h = reg.new_instance(1);
    assert_eq!(reg.get_last_error(h), "");
}

#[test]
fn produce_command_carries_configuration() {
    let mut reg = Registry::new();
    reg.init();
    let h = reg.new_instance(1);
    assert!(reg.set_delivery_mode(h, 1));
    assert!(reg.run(h, Ok(())));
    let cmd = reg.produce_command(h, "payload", 7).unwrap();
    assert_eq!(cmd.body, "payload");
    assert_eq!(cmd.priority, 7);
    assert_eq!(cmd.delivery_mode, DeliveryMode::NonPersistent);
    // a send is not legal before run: a second producer still unconfigured
    let h2 = reg.new_instance(1);
    assert!(reg.produce_command(h2, "payload", 7).is_none());
}
