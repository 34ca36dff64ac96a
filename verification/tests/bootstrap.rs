use runjs::bootstrap::{
    boot_step, dispatch, init, module_name, Binding, BootAction, BootEvent, BootFailure,
    BootStage, Effect, Phase, Runtime, Slot,
};
use runjs::bridge::{AllowList, Bridge};
use runjs::error::BridgeError;
use runjs::host::Context;
use runjs::value::{GuestValue, Property};

#[test]
fn a_slot_is_set_once_and_taken_once() {
    let mut slot: Slot<u32> = Slot::new();
    assert!(slot.is_empty());
    assert!(!slot.is_full());
    slot.set(7);
    assert!(slot.is_full());
    assert!(!slot.is_empty());
    assert_eq!(slot.take(), 7);
    assert!(!slot.is_full());
    assert!(!slot.is_empty());
    assert!(matches!(slot, Slot::Taken));
}

#[test]
fn a_second_set_hands_the_value_back() {
    let mut slot: Slot<String> = Slot::new();
    assert_eq!(slot.try_set("a".to_string()), Ok(()));
    assert_eq!(slot.try_set("b".to_string()), Err("b".to_string()));
    assert_eq!(slot.try_take(), Some("a".to_string()));
    assert_eq!(slot.try_set("c".to_string()), Err("c".to_string()));
    assert!(matches!(slot, Slot::Taken));
}

#[test]
fn nothing_is_taken_before_a_set_or_twice() {
    let mut slot: Slot<u8> = Slot::new();
    assert_eq!(slot.try_take(), None);
    assert!(slot.is_empty());
    slot.set(1);
    assert_eq!(slot.try_take(), Some(1));
    assert_eq!(slot.try_take(), None);
    assert!(matches!(slot, Slot::Taken));
}

#[test]
fn a_runtime_goes_through_its_phases() {
    let mut runtime: Runtime<String> = Runtime::new();
    assert_eq!(runtime.current_phase(), Phase::Uninitialized);
    runtime.store("context".to_string(), vec![1, 2, 3]);
    assert_eq!(runtime.current_phase(), Phase::Initialized);
    let (context, bytecode) = runtime.take();
    assert_eq!(context, "context");
    assert_eq!(bytecode, vec![1, 2, 3]);
    assert_eq!(runtime.current_phase(), Phase::Consumed);
}

#[test]
fn a_runtime_is_stored_once_and_taken_once() {
    let mut runtime: Runtime<u32> = Runtime::new();
    assert_eq!(runtime.try_take(), None);
    assert_eq!(runtime.current_phase(), Phase::Uninitialized);
    assert_eq!(runtime.try_store(1, vec![9]), Ok(()));
    assert_eq!(runtime.try_store(2, vec![8]), Err((2, vec![8])));
    assert_eq!(runtime.try_take(), Some((1, vec![9])));
    assert_eq!(runtime.try_take(), None);
    assert_eq!(runtime.try_store(3, vec![7]), Err((3, vec![7])));
    assert_eq!(runtime.current_phase(), Phase::Consumed);
}

#[test]
fn the_bootstrap_begins_with_the_source() {
    assert_eq!(init(), (BootStage::ReadingSource, BootAction::ReadSource));
    assert_eq!(module_name(), "function.mjs");
}

#[test]
fn a_bootstrap_without_failure_ends_ready() {
    let events = [
        BootEvent::SourceRead { ok: true },
        BootEvent::Compiled { ok: true },
        BootEvent::Installed { ok: true },
        BootEvent::Installed { ok: true },
        BootEvent::Stored,
    ];
    let (mut stage, first) = init();
    let mut actions = vec![first];
    for event in events {
        let (next, action) = boot_step(stage, event);
        stage = next;
        actions.push(action);
    }
    assert_eq!(stage, BootStage::Ready);
    assert_eq!(
        actions,
        vec![
            BootAction::ReadSource,
            BootAction::Compile,
            BootAction::Install(Binding::ConsoleLog),
            BootAction::Install(Binding::HttpSend),
            BootAction::Store,
            BootAction::Finish,
        ]
    );
    assert_eq!(boot_step(stage, BootEvent::Begin), (BootStage::Ready, BootAction::Nothing));
}

#[test]
fn every_failure_of_the_bootstrap_is_fatal() {
    assert_eq!(
        boot_step(BootStage::ReadingSource, BootEvent::SourceRead { ok: false }),
        (BootStage::Failed, BootAction::Abort(BootFailure::SourceUnreadable))
    );
    assert_eq!(
        boot_step(BootStage::Compiling, BootEvent::Compiled { ok: false }),
        (BootStage::Failed, BootAction::Abort(BootFailure::CompileError))
    );
    assert_eq!(
        boot_step(BootStage::InstallingConsole, BootEvent::Installed { ok: false }),
        (BootStage::Failed, BootAction::Abort(BootFailure::InstallError))
    );
    assert_eq!(
        boot_step(BootStage::InstallingHttp, BootEvent::Installed { ok: false }),
        (BootStage::Failed, BootAction::Abort(BootFailure::InstallError))
    );
    assert_eq!(
        boot_step(BootStage::Failed, BootEvent::Begin),
        (BootStage::Failed, BootAction::Nothing)
    );
}

#[test]
fn the_bootstrap_takes_no_step_out_of_order() {
    assert_eq!(
        boot_step(BootStage::Start, BootEvent::Compiled { ok: true }),
        (BootStage::Failed, BootAction::Abort(BootFailure::OutOfOrder))
    );
    assert_eq!(
        boot_step(BootStage::ReadingSource, BootEvent::Begin),
        (BootStage::Failed, BootAction::Abort(BootFailure::OutOfOrder))
    );
    assert_eq!(
        boot_step(BootStage::Storing, BootEvent::Installed { ok: true }),
        (BootStage::Failed, BootAction::Abort(BootFailure::OutOfOrder))
    );
    assert_eq!(
        boot_step(BootStage::Compiling, BootEvent::Stored),
        (BootStage::Failed, BootAction::Abort(BootFailure::OutOfOrder))
    );
}

#[test]
fn the_bindings_have_their_names() {
    assert_eq!(Binding::ConsoleLog.object(), Some("console"));
    assert_eq!(Binding::ConsoleLog.name(), "log");
    assert_eq!(Binding::HttpSend.object(), None);
    assert_eq!(Binding::HttpSend.name(), "reqwest_get");
}

#[test]
fn a_call_of_console_log_asks_for_a_line() {
    let bridge = Bridge::new(AllowList::example());
    let args = vec![GuestValue::Str("a".to_string()), GuestValue::Int(1), GuestValue::Bool(true)];
    assert_eq!(
        dispatch(Binding::ConsoleLog, &bridge, &args),
        Ok(Effect::Write("a 1 true\n".to_string()))
    );
    assert_eq!(
        dispatch(Binding::ConsoleLog, &bridge, &vec![GuestValue::Opaque]),
        Err(BridgeError::NotStringifiable { index: 0 })
    );
    let written = dispatch(Binding::ConsoleLog, &bridge, &vec![]).unwrap();
    assert_eq!(written, Effect::Write("\n".to_string()));
    assert_eq!(written.reply(), Some(GuestValue::Undefined));
}

#[test]
fn a_call_of_the_http_entry_point_asks_for_a_request() {
    let bridge = Bridge::new(AllowList::example());
    let request = |uri: &str| {
        vec![GuestValue::Object(vec![
            Property { key: "method".to_string(), value: GuestValue::Str("GET".to_string()) },
            Property { key: "uri".to_string(), value: GuestValue::Str(uri.to_string()) },
        ])]
    };
    match dispatch(Binding::HttpSend, &bridge, &request("https://example.com/")) {
        Ok(effect) => {
            assert_eq!(effect.reply(), None);
            match effect {
                Effect::Send(sent) => {
                    assert_eq!(sent.method, "GET");
                    assert_eq!(sent.uri, "https://example.com/");
                },
                other => panic!("unexpected: {:?}", other),
            }
        },
        other => panic!("unexpected: {:?}", other),
    }
    assert_eq!(
        dispatch(Binding::HttpSend, &bridge, &request("https://evil.test/")),
        Err(BridgeError::OriginNotAllowed { uri: "https://evil.test/".to_string() })
    );
    assert_eq!(
        dispatch(Binding::HttpSend, &bridge, &vec![]),
        Err(BridgeError::ArityError { got: 0 })
    );
}

#[test]
fn the_store_of_an_instantiation_holds_its_data() {
    let mut context: Context<u8, String> = Context::new(5, Some("bridge".to_string()));
    assert!(context.has_runtime_data());
    assert_eq!(*context.wasi(), 5);
    assert_eq!(context.runtime_data(), "bridge");
    assert_eq!(context.take_runtime_data(), Some("bridge".to_string()));
    assert!(!context.has_runtime_data());
    assert_eq!(context.take_runtime_data(), None);
    let mut both: Context<u8, String> = Context::new(5, Some("bridge".to_string()));
    *both.wasi_mut() += 1;
    both.runtime_data_mut().push('!');
    assert_eq!(both.wasi, 6);
    assert_eq!(both.runtime_data, Some("bridge!".to_string()));
    let bare: Context<u8, String> = Context::new(1, None);
    assert!(!bare.has_runtime_data());
    assert_eq!(bare.wasi, 1);
}
