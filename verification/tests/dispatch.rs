use hostbridge::handler::{SUCCESS, UNHANDLED};
use hostbridge::handlers::CommandHandler;
use hostbridge::marshal::{check_c_str, command_bytes};
use hostbridge::registry::Registry;

#[test]
fn unregistered_name_returns_unhandled_sentinel() {
    let mut reg: Registry<CommandHandler> = Registry::new();
    reg.add_cmd("other", CommandHandler::Counter { calls: 0, code: 9 });

    let status = reg.exec("does_not_exist", b"payload\0");
    assert_eq!(status, UNHANDLED);

    // No handler side effect occurred: the one registered handler was never called.
    match reg.get("other") {
        Some(CommandHandler::Counter { calls, code }) => {
            assert_eq!(*calls, 0);
            assert_eq!(*code, 9);
        }
        other => panic!("unexpected handler {:?}", other),
    }
}

#[test]
fn unregistered_name_unhandled_for_any_payload() {
    let mut reg: Registry<CommandHandler> = Registry::new();
    assert_eq!(reg.exec("nope", b""), UNHANDLED);
    assert_eq!(reg.exec("nope", b"\0"), UNHANDLED);
    assert_eq!(reg.exec("nope", b"abc"), UNHANDLED);
    assert_eq!(reg.exec("nope", &[0u8; 64]), UNHANDLED);
}

#[test]
fn registered_handler_status_is_returned_exactly() {
    let mut reg: Registry<CommandHandler> = Registry::new();
    reg.add_cmd("serial_available", CommandHandler::SerialAvailable);
    reg.add_cmd("serial_read", CommandHandler::SerialRead);
    reg.add_cmd("status_code", CommandHandler::Echo { code: -37 });

    // SerialAvailable reports 0 explicitly.
    assert_eq!(reg.exec("serial_available", b"\0"), 0);
    // SerialRead reports no status, so the default success code comes back.
    assert_eq!(reg.exec("serial_read", b"\0"), SUCCESS);
    // Echo reports its fixed code, preserved bit for bit.
    assert_eq!(reg.exec("status_code", b"\0"), -37);
}

#[test]
fn reregistering_a_name_last_write_wins() {
    let mut reg: Registry<CommandHandler> = Registry::new();
    reg.add_cmd("cmd", CommandHandler::Counter { calls: 0, code: 10 });
    assert_eq!(reg.exec("cmd", b"\0"), 10);

    reg.add_cmd("cmd", CommandHandler::Counter { calls: 0, code: 20 });
    // Every dispatch after the second registration observes the second
    // handler, never the first.
    assert_eq!(reg.exec("cmd", b"\0"), 20);
    assert_eq!(reg.exec("cmd", b"\0"), 20);
    match reg.get("cmd") {
        Some(CommandHandler::Counter { calls, code }) => {
            // The replacement started from a fresh count: the first handler's
            // single call is gone with it.
            assert_eq!(*calls, 2);
            assert_eq!(*code, 20);
        }
        other => panic!("unexpected handler {:?}", other),
    }
}

#[test]
fn distinct_registrations_are_all_dispatchable() {
    let mut reg: Registry<CommandHandler> = Registry::new();
    let names = ["alpha", "beta", "gamma", "delta", "epsilon"];
    for (i, name) in names.iter().enumerate() {
        reg.add_cmd(name, CommandHandler::Echo { code: i as i32 + 100 });
    }
    for (i, name) in names.iter().enumerate() {
        assert_eq!(reg.exec(name, b"\0"), i as i32 + 100);
    }
}

#[test]
fn serial_write_accumulates_payload_terminator_included() {
    let mut reg: Registry<CommandHandler> = Registry::new();
    reg.add_cmd("serial_write", CommandHandler::SerialWrite { written: Vec::new() });

    let status = reg.exec("serial_write", b"hi\0");
    assert_eq!(status, SUCCESS);
    match reg.get("serial_write") {
        Some(CommandHandler::SerialWrite { written }) => {
            assert_eq!(written.as_slice(), b"hi\0");
        }
        other => panic!("unexpected handler {:?}", other),
    }

    // A second dispatch appends after the first, byte for byte.
    reg.exec("serial_write", b"!\0");
    match reg.get("serial_write") {
        Some(CommandHandler::SerialWrite { written }) => {
            assert_eq!(written.as_slice(), b"hi\0!\0");
        }
        other => panic!("unexpected handler {:?}", other),
    }
}

#[test]
fn counter_saturates_at_its_limit() {
    let mut reg: Registry<CommandHandler> = Registry::new();
    reg.add_cmd("cmd", CommandHandler::Counter { calls: u64::MAX, code: 4 });
    assert_eq!(reg.exec("cmd", b"\0"), 4);
    match reg.get("cmd") {
        Some(CommandHandler::Counter { calls, .. }) => assert_eq!(*calls, u64::MAX),
        other => panic!("unexpected handler {:?}", other),
    }
}

#[test]
fn is_registered_tracks_the_mapping() {
    let mut reg: Registry<CommandHandler> = Registry::new();
    assert!(!reg.is_registered("layerState"));
    reg.add_cmd("layerState", CommandHandler::SerialRead);
    assert!(reg.is_registered("layerState"));
    assert!(!reg.is_registered("does_not_exist"));
}

#[test]
fn the_full_command_surface_registers_and_dispatches() {
    let mut reg: Registry<CommandHandler> = Registry::new();
    reg.add_cmd("serial_available", CommandHandler::SerialAvailable);
    reg.add_cmd("serial_read", CommandHandler::SerialRead);
    reg.add_cmd("serial_write", CommandHandler::SerialWrite { written: Vec::new() });
    reg.add_cmd("keyboard_send", CommandHandler::SerialRead);
    reg.add_cmd("mouse_send", CommandHandler::SerialRead);
    reg.add_cmd("capabilityCallback", CommandHandler::SerialRead);
    reg.add_cmd("layerState", CommandHandler::SerialRead);

    let surface = [
        "serial_available",
        "serial_read",
        "serial_write",
        "keyboard_send",
        "mouse_send",
        "capabilityCallback",
        "layerState",
    ];
    for name in surface {
        assert!(reg.is_registered(name));
    }
    // serial_available reports 0 explicitly; the silent handlers all come
    // back as the default success code.
    assert_eq!(reg.exec("serial_available", b"\0"), 0);
    assert_eq!(reg.exec("serial_read", b"\0"), SUCCESS);
    assert_eq!(reg.exec("serial_write", b"\0"), SUCCESS);
    assert_eq!(reg.exec("keyboard_send", b"\0"), SUCCESS);
    assert_eq!(reg.exec("mouse_send", b"\0"), SUCCESS);
    assert_eq!(reg.exec("capabilityCallback", b"\0"), SUCCESS);
    assert_eq!(reg.exec("layerState", b"\0"), SUCCESS);
}

#[test]
fn terminated_name_bytes_are_validated() {
    assert!(check_c_str(b"serial_write\0"));
    assert!(check_c_str(b"\0"));
    assert!(!check_c_str(b""));
    assert!(!check_c_str(b"serial_write"));
    assert!(!check_c_str(b"serial\0write\0"));
}

#[test]
fn command_bytes_drop_only_the_terminator() {
    assert_eq!(command_bytes(b"echo\0").as_slice(), b"echo");
    assert_eq!(command_bytes(b"\0").as_slice(), b"");
}
