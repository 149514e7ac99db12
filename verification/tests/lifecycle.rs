use hostbridge::bridge::{Bridge, BridgeError, Phase};
use hostbridge::engine::{HostEngine, ModelEngine};
use hostbridge::handler::UNHANDLED;
use hostbridge::handlers::CommandHandler;

fn echo_bridge() -> Bridge<ModelEngine, CommandHandler> {
    let engine = ModelEngine::new("echo", b"ping\0".to_vec());
    Bridge::new(engine)
}

#[test]
fn init_self_test_reaches_the_registered_handler() {
    let mut bridge = echo_bridge();
    bridge.add_cmd("echo", CommandHandler::Counter { calls: 0, code: 5 });

    assert_eq!(bridge.current_phase(), Phase::Uninitialized);
    let started = bridge.init();
    assert_eq!(started, Ok(5));
    assert_eq!(bridge.current_phase(), Phase::Running);
    assert!(bridge.host_engine().is_started());

    // The side channel: the self-test dispatch ran the handler exactly once.
    match bridge.get("echo") {
        Some(CommandHandler::Counter { calls, code }) => {
            assert_eq!(*calls, 1);
            assert_eq!(*code, 5);
        }
        other => panic!("unexpected handler {:?}", other),
    }
}

#[test]
fn init_without_self_test_handler_is_fatal() {
    let mut bridge = echo_bridge();
    let started = bridge.init();
    assert_eq!(started, Err(BridgeError::SelfTestFailed));
    assert_eq!(bridge.current_phase(), Phase::Uninitialized);
    assert!(!bridge.host_engine().is_started());
    assert_eq!(bridge.host_engine().tick_count(), 0);
}

#[test]
fn install_and_start_walk_the_lifecycle() {
    let mut bridge = echo_bridge();
    bridge.add_cmd("echo", CommandHandler::Echo { code: 1 });

    let installed = bridge.install();
    assert_eq!(installed, Ok(1));
    assert_eq!(bridge.current_phase(), Phase::Installed);
    assert!(bridge.host_engine().is_callback_installed());
    assert!(!bridge.host_engine().is_started());

    bridge.start();
    assert_eq!(bridge.current_phase(), Phase::Running);
    assert!(bridge.host_engine().is_started());
}

#[test]
fn drive_loop_ticks_the_engine_exactly_n_times() {
    let mut bridge = echo_bridge();
    bridge.add_cmd("echo", CommandHandler::Echo { code: 1 });
    bridge.init().unwrap();
    assert_eq!(bridge.host_engine().tick_count(), 0);

    bridge.process(0);
    assert_eq!(bridge.host_engine().tick_count(), 0);

    bridge.process(1);
    assert_eq!(bridge.host_engine().tick_count(), 1);

    bridge.process(40);
    assert_eq!(bridge.host_engine().tick_count(), 41);
}

#[test]
fn dispatch_through_the_running_bridge() {
    let mut bridge = echo_bridge();
    bridge.add_cmd("echo", CommandHandler::Echo { code: 1 });
    bridge.add_cmd("serial_write", CommandHandler::SerialWrite { written: Vec::new() });
    bridge.init().unwrap();

    assert_eq!(bridge.exec("echo", b"\0"), 1);
    assert_eq!(bridge.exec("does_not_exist", b"\0"), UNHANDLED);

    bridge.exec("serial_write", b"hi\0");
    match bridge.get("serial_write") {
        Some(CommandHandler::SerialWrite { written }) => {
            assert_eq!(written.as_slice(), b"hi\0");
        }
        other => panic!("unexpected handler {:?}", other),
    }
}

#[test]
fn model_engine_observations_start_clean() {
    let mut engine = ModelEngine::new("echo", b"ping\0".to_vec());
    assert!(!engine.is_callback_installed());
    assert!(!engine.is_started());
    assert_eq!(engine.tick_count(), 0);

    // Once the callback is installed, the engine probes it with exactly the
    // self-test call it was built with.
    engine.register_callback();
    let probe = engine.self_test_call();
    assert_eq!(probe.0.as_str(), "echo");
    assert_eq!(probe.1.as_slice(), b"ping\0");
}
