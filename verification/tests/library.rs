use std::collections::VecDeque;

use wasm_crimp::checksum::WasmChecksum;
use wasm_crimp::command::{
    finish_replay, ReplayCommand, ReplayCommandError, ReplayFinish, ReplayOptions,
    ReplayRunOutcome, RunTarget,
};
use wasm_crimp::embed::{
    host_should_continue, oom, panic_report, uart_puts_bytes, AllocPlan, BufWriter, GpioDtSpec,
    ZephyrAlloc, ZephyrConsole,
};
use wasm_crimp::error::ReplayError;
use wasm_crimp::events::common_events::{
    CustomMessageEvent, HostFuncEntryEvent, TraceSignatureEvent, WasmFuncReturnError,
    WasmFuncReturnEvent,
};
use wasm_crimp::events::component_events::{
    BuiltinEntryEvent, BuiltinError, InstantiationEvent as ComponentInstantiationEvent,
    PostReturnEvent, RRComponentInstanceId, ResourceEnterCallEntryEvent,
    ResourceExitCallEntryEvent, WasmFuncBeginEvent,
};
use wasm_crimp::events::core_events::{
    InstantiationEvent as CoreInstantiationEvent, RRModuleInstanceId,
    WasmFuncEntryEvent as CoreWasmFuncEntryEvent,
};
use wasm_crimp::events::{EventError, RRFuncArgVals, ResultEvent};
use wasm_crimp::flat::{FlatBytes, ValRaw};
use wasm_crimp::index::{ExportIndex, FuncIndex};
use wasm_crimp::record::RecordBuffer;
use wasm_crimp::replay::{ReadOutcome, ReplayBuffer};
use wasm_crimp::replay_driver::{
    core_export_func, CoreExport,
    ComponentInstanceMap, ModuleInstanceMap, ReplayEnvironment, ReplayHostContext, ReplayInstance,
    TopLevelStep,
};
use wasm_crimp::rr_event::RREvent;
use wasm_crimp::settings::{RecordSettings, ReplaySettings};
use wasm_crimp::validate::Validate;

const VERSION: &str = "46.0.3";

type Reads = VecDeque<Result<RREvent, String>>;

fn reads_of(events: Vec<RREvent>) -> Reads {
    events.into_iter().map(Ok).collect()
}

fn signature(add_validation: bool) -> RREvent {
    RREvent::TraceSignature(TraceSignatureEvent {
        checksum: VERSION.to_string(),
        settings: RecordSettings { add_validation, event_window_size: 16 },
    })
}

// --- error messages ---------------------------------------------------------

#[test]
fn error_messages_of_fixed_variants() {
    assert_eq!(ReplayError::EmptyBuffer.message(), "replay buffer is empty");
    assert_eq!(
        ReplayError::FailedValidation.message(),
        "failed validation check during replay; see wasmtime log for error"
    );
    assert_eq!(ReplayError::IncorrectEventVariant.message(), "event type mismatch during replay");
    assert_eq!(
        ReplayError::InvalidEventPosition.message(),
        "event occured at an invalid position in the trace"
    );
}

#[test]
fn error_messages_of_ids() {
    assert_eq!(
        ReplayError::MissingComponentInstance(RRComponentInstanceId(3)).message(),
        "missing component instance ID RRComponentInstanceId(3) during replay"
    );
    assert_eq!(
        ReplayError::MissingModuleInstance(RRModuleInstanceId(907)).message(),
        "missing module instance ID RRModuleInstanceId(907) during replay"
    );
    assert_eq!(
        ReplayError::InvalidCoreFuncIndex(FuncIndex(5)).message(),
        "replay core func (Function(FuncIndex(5))) during replay is invalid"
    );
}

#[test]
fn error_messages_of_checksums() {
    let component = ReplayError::MissingComponent(WasmChecksum([0xab; 32]));
    assert_eq!(
        component.message(),
        format!("missing component binary with checksum 0x{} during replay", "ab".repeat(32))
    );
    let module = ReplayError::MissingModule(WasmChecksum([0x01; 32]));
    assert_eq!(
        module.message(),
        format!("missing module binary with checksum \"{}\" during replay", "01".repeat(32))
    );
}

#[test]
fn error_message_of_failed_read() {
    assert_eq!(
        ReplayError::FailedRead("unexpected end".to_string()).message(),
        "unexpected endNote: Ensure sufficient `deserialization-buffer-size` in replay settings if you included `validation-metadata` during recording"
    );
}

#[test]
fn error_message_of_event_error() {
    let e = ReplayError::from_event_error(BuiltinError::new("a \"quoted\" text".to_string()));
    assert_eq!(e.message(), "BuiltinError(\"a \\\"quoted\\\" text\")");
}

// --- checksums and text -----------------------------------------------------

#[test]
fn checksum_is_sha256() {
    assert_eq!(
        WasmChecksum::from_binary(&[]).to_hex(),
        "e3b0c44298fc1c149afbf4c8996fb92427ae41e4649b934ca495991b7852b855"
    );
    assert_eq!(
        WasmChecksum::from_binary(b"abc").to_hex(),
        "ba7816bf8f01cfea414140de5dae2223b00361a396177a9cb410ff61f20015ad"
    );
}

#[test]
fn checksum_equality() {
    let a = WasmChecksum::from_binary(&[1, 2, 3]);
    let b = WasmChecksum::from_binary(&[1, 2, 3]);
    let c = WasmChecksum::from_binary(&[1, 2, 4]);
    assert!(a == b);
    assert!(a.same_as(&b));
    assert!(a != c);
}

#[test]
fn func_arg_vals_debug() {
    let vals = [ValRaw::i32(0x1234), ValRaw::i64(5)];
    let args = RRFuncArgVals::from_flat_iter(&vals, &[4, 2]);
    assert_eq!(args.debug_string(), "RRFuncArgVals [(4, \"0x00001234\"), (2, \"0x0005\")]");
    let empty = RRFuncArgVals::from_flat_iter::<ValRaw>(&[], &[]);
    assert_eq!(empty.debug_string(), "RRFuncArgVals []");
}

// --- flat values ------------------------------------------------------------

#[test]
fn raw_values_are_little_endian() {
    let mut expected = [0u8; 16];
    expected[0] = 0xff;
    expected[1] = 0xff;
    expected[2] = 0xff;
    expected[3] = 0xff;
    assert_eq!(ValRaw::i32(-1).get_bytes(), expected);
    let mut one = [0u8; 16];
    one[0] = 1;
    assert_eq!(ValRaw::u64(1).get_bytes(), one);
    assert_eq!(ValRaw::v128(0x0102).get_bytes()[..2], [0x02, 0x01]);
    assert_eq!(ValRaw::float32(0x3f80_0000).get_bytes()[..4], [0x00, 0x00, 0x80, 0x3f]);
}

#[test]
fn flat_roundtrip_keeps_recorded_bytes() {
    let vals = [ValRaw::i64(0x0102_0304_0506_0708), ValRaw::i32(7), ValRaw::float64(9)];
    let sizes = [8u8, 4, 8];
    let args = RRFuncArgVals::from_flat_iter(&vals, &sizes);
    assert_eq!(args.sizes, vec![8, 4, 8]);
    assert_eq!(args.bytes.len(), 20);
    let mut back = [ValRaw::u64(0xdead); 3];
    args.clone().into_raw_slice(&mut back);
    for i in 0..3 {
        assert_eq!(back[i].get_bytes()[..sizes[i] as usize], vals[i].get_bytes()[..sizes[i] as usize]);
    }
    let decoded = args.to_val_vec(2);
    assert_eq!(decoded.len(), 2);
    assert_eq!(decoded[0].get_bytes(), vals[0].get_bytes());
    assert_eq!(decoded[1].get_bytes(), vals[1].get_bytes());
}

#[test]
fn flat_values_cut_to_their_size() {
    let vals = [ValRaw::i64(0x1122_3344_5566_7788)];
    let args = RRFuncArgVals::from_flat_iter(&vals, &[2]);
    assert_eq!(args.bytes, vec![0x88, 0x77]);
    let decoded = args.to_val_vec(5);
    assert_eq!(decoded.len(), 1);
    let mut expected = [0u8; 16];
    expected[0] = 0x88;
    expected[1] = 0x77;
    assert_eq!(decoded[0].get_bytes(), expected);
    assert_eq!(ValRaw::from_bytes(&[0x88, 0x77]).get_bytes(), expected);
}

// --- recording --------------------------------------------------------------

#[test]
fn record_window_flushes_when_full() {
    let settings = RecordSettings { add_validation: false, event_window_size: 2 };
    let mut rec = RecordBuffer::new_recorder(VERSION.to_string(), settings);
    assert_eq!(rec.take_written().len(), 0);
    rec.push_event(RREvent::Nop);
    let written = rec.take_written();
    assert_eq!(written.len(), 2);
    assert!(matches!(written[0], RREvent::TraceSignature(_)));
    assert!(matches!(written[1], RREvent::Nop));
    rec.push_event(RREvent::Nop);
    assert_eq!(rec.take_written().len(), 0);
    rec.finish();
    let written = rec.take_written();
    assert_eq!(written.len(), 2);
    assert!(matches!(written[1], RREvent::Eof));
    assert!(*rec.settings() == settings);
}

#[test]
fn validation_events_only_when_asked() {
    let mut rec = RecordBuffer::new_recorder(VERSION.to_string(), RecordSettings::default());
    rec.record_event_validation(|| RREvent::Nop);
    rec.flush();
    assert_eq!(rec.take_written().len(), 1);

    let settings = RecordSettings { add_validation: true, event_window_size: 16 };
    let mut rec = RecordBuffer::new_recorder(VERSION.to_string(), settings);
    rec.record_event_validation(|| RREvent::Nop);
    rec.flush();
    assert_eq!(rec.take_written().len(), 2);
}

#[test]
fn default_settings() {
    assert!(RecordSettings::default() == RecordSettings { add_validation: false, event_window_size: 16 });
    assert!(
        ReplaySettings::default() == ReplaySettings { validate: false, deserialize_buffer_size: 64 }
    );
}

// --- replaying --------------------------------------------------------------

#[test]
fn replay_reads_settings_from_signature() {
    let mut reads = reads_of(vec![signature(true), RREvent::Eof]);
    let mut buf = ReplayBuffer::new_replayer(&mut reads, ReplaySettings::default(), VERSION).unwrap();
    assert!(buf.trace_settings().add_validation);
    assert!(buf.validation_recorded());
    assert!(*buf.settings() == ReplaySettings::default());
    assert!(matches!(buf.next_event(&mut reads), Err(ReplayError::EmptyBuffer)));
    assert!(buf.is_exhausted());
    assert!(buf.next_in(&mut reads).is_none());
}

#[test]
fn replay_refuses_bad_signatures() {
    let mut reads = reads_of(vec![signature(false), RREvent::Eof]);
    let r = ReplayBuffer::new_replayer(&mut reads, ReplaySettings::default(), "0.0.0");
    assert!(matches!(r, Err(ReplayError::FailedValidation)));

    let mut reads = reads_of(vec![
        RREvent::Nop,
        RREvent::ComponentBuiltinEntry(BuiltinEntryEvent::ResourceEnterCall(ResourceEnterCallEntryEvent {})),
    ]);
    let r = ReplayBuffer::new_replayer(&mut reads, ReplaySettings::default(), VERSION);
    assert!(matches!(r, Err(ReplayError::IncorrectEventVariant)));

    let mut reads = reads_of(vec![RREvent::Eof]);
    let r = ReplayBuffer::new_replayer(&mut reads, ReplaySettings::default(), VERSION);
    assert!(matches!(r, Err(ReplayError::EmptyBuffer)));

    let mut reads: Reads = VecDeque::new();
    reads.push_back(Err("truncated".to_string()));
    let r = ReplayBuffer::new_replayer(&mut reads, ReplaySettings::default(), VERSION);
    assert!(matches!(r, Err(ReplayError::FailedRead(m)) if m == "truncated"));
}

#[test]
fn replay_reports_failed_reads() {
    let mut reads = reads_of(vec![signature(false)]);
    reads.push_back(Err("broken".to_string()));
    reads.push_back(Ok(RREvent::Eof));
    let mut buf = ReplayBuffer::new_replayer(&mut reads, ReplaySettings::default(), VERSION).unwrap();
    assert!(matches!(buf.next_event(&mut reads), Err(ReplayError::FailedRead(m)) if m == "broken"));
    assert!(!buf.is_exhausted());
    assert!(buf.next_in(&mut reads).is_none());
}

#[test]
fn accept_read_decides_each_read() {
    let mut buf = ReplayBuffer::new(ReplaySettings::default());
    assert!(matches!(buf.accept_read(Ok(RREvent::Nop)), ReadOutcome::ReadAgain));
    assert!(matches!(
        buf.accept_read(Ok(RREvent::CustomMessage(CustomMessageEvent::from("x".to_string())))),
        ReadOutcome::ReadAgain
    ));
    assert!(matches!(buf.accept_read(Err("e".to_string())), ReadOutcome::Fail(ReplayError::FailedRead(_))));
    assert!(matches!(buf.accept_read(Ok(signature(false))), ReadOutcome::Deliver(RREvent::TraceSignature(_))));
    assert!(!buf.is_exhausted());
    assert!(matches!(buf.accept_read(Ok(RREvent::Eof)), ReadOutcome::Finished));
    assert!(buf.is_exhausted());
}

#[test]
fn remaining_events_are_detected() {
    let entry = RREvent::ComponentBuiltinEntry(BuiltinEntryEvent::ResourceExitCall(
        ResourceExitCallEntryEvent {},
    ));
    let mut reads = reads_of(vec![signature(false), RREvent::Nop, entry, RREvent::Eof]);
    let mut buf = ReplayBuffer::new_replayer(&mut reads, ReplaySettings::default(), VERSION).unwrap();
    assert!(buf.has_remaining_events(&mut reads).unwrap());
    assert!(!buf.has_remaining_events(&mut reads).unwrap());
    assert!(!buf.has_remaining_events(&mut reads).unwrap());
}

#[test]
fn validation_events_are_checked() {
    let vals = [ValRaw::i32(3)];
    let args = RRFuncArgVals::from_flat_iter(&vals, &[4]);
    let recorded = RREvent::HostFuncEntry(HostFuncEntryEvent { args: args.clone() });
    let settings = ReplaySettings { validate: true, deserialize_buffer_size: 64 };

    let mut reads = reads_of(vec![signature(true), recorded.clone(), RREvent::Eof]);
    let mut buf = ReplayBuffer::new_replayer(&mut reads, settings, VERSION).unwrap();
    let same = HostFuncEntryEvent { args: args.clone() };
    assert!(buf.next_event_validation::<HostFuncEntryEvent, HostFuncEntryEvent>(&mut reads, &same).is_ok());

    let mut reads = reads_of(vec![signature(true), recorded.clone(), RREvent::Eof]);
    let mut buf = ReplayBuffer::new_replayer(&mut reads, settings, VERSION).unwrap();
    let other = HostFuncEntryEvent { args: RRFuncArgVals::from_flat_iter(&[ValRaw::i32(4)], &[4]) };
    assert!(matches!(
        buf.next_event_validation::<HostFuncEntryEvent, HostFuncEntryEvent>(&mut reads, &other),
        Err(ReplayError::FailedValidation)
    ));

    // Without validation events in the trace nothing is read.
    let mut reads = reads_of(vec![signature(false), RREvent::Eof]);
    let mut buf = ReplayBuffer::new_replayer(&mut reads, settings, VERSION).unwrap();
    assert!(buf.next_event_validation::<HostFuncEntryEvent, HostFuncEntryEvent>(&mut reads, &other).is_ok());
    assert_eq!(reads.len(), 1);
}

#[test]
fn signature_validation() {
    let sig = TraceSignatureEvent { checksum: VERSION.to_string(), settings: RecordSettings::default() };
    assert!(sig.validate(VERSION).is_ok());
    assert!(matches!(sig.validate("1.0.0"), Err(ReplayError::FailedValidation)));
}

#[test]
fn wasm_return_validation() {
    let vals = [ValRaw::i32(1)];
    let args = RRFuncArgVals::from_flat_iter(&vals, &[4]);
    let ok_event = WasmFuncReturnEvent(ResultEvent::from_anyhow_result(&Ok(args.clone())));
    assert!(ok_event.validate(&Ok(args.clone())).is_ok());
    assert!(matches!(
        ok_event.validate(&Err(anyhow::Error::msg("trap"))),
        Err(ReplayError::FailedValidation)
    ));

    let err_event: WasmFuncReturnEvent =
        WasmFuncReturnEvent(ResultEvent::from_anyhow_result(&Err(anyhow::Error::msg("rec failed"))));
    let r = err_event.validate(&Err(anyhow::Error::msg("exec failed")));
    match r {
        Err(e @ ReplayError::EventError(_)) => assert_eq!(
            e.message(),
            "WasmFuncReturnError(\"Error on execution: exec failed | Error from recording: rec failed\")"
        ),
        _ => panic!("expected an event error"),
    }
    let bad: ResultEvent<RRFuncArgVals, WasmFuncReturnError> = ResultEvent::new(Ok(args));
    assert!(bad.is_ok());
}

#[test]
fn builtin_entry_validation() {
    let a = BuiltinEntryEvent::ResourceEnterCall(ResourceEnterCallEntryEvent {});
    let b = BuiltinEntryEvent::ResourceExitCall(ResourceExitCallEntryEvent {});
    assert!(a.validate(&a).is_ok());
    assert!(matches!(a.validate(&b), Err(ReplayError::FailedValidation)));
}

#[test]
fn event_conversions() {
    let e: RREvent = RREvent::from(WasmFuncBeginEvent {
        instance: RRComponentInstanceId(1),
        func_index: ExportIndex::from_u32(2),
    });
    assert!(!e.is_diagnostic());
    let back: Result<WasmFuncBeginEvent, ReplayError> = WasmFuncBeginEvent::try_from(e.clone());
    assert!(back.unwrap() == WasmFuncBeginEvent { instance: RRComponentInstanceId(1), func_index: ExportIndex(2) });
    let wrong: Result<PostReturnEvent, ReplayError> = PostReturnEvent::try_from(e);
    assert!(matches!(wrong, Err(ReplayError::IncorrectEventVariant)));
    assert!(RREvent::Nop.is_diagnostic());
    assert!(RREvent::CustomMessage(CustomMessageEvent("m".to_string())).is_diagnostic());
    assert_eq!(FuncIndex::from_u32(9).as_u32(), 9);
}

// --- replay driver ----------------------------------------------------------

#[test]
fn environment_lookups() {
    let module_sum = WasmChecksum::from_binary(b"module");
    let component_sum = WasmChecksum::from_binary(b"component");
    let mut env: ReplayEnvironment<&str, &str> = ReplayEnvironment::new(ReplaySettings::default());
    env.add_module(module_sum, "m");
    env.add_component(component_sum, "c");
    assert_eq!(*env.get_module(module_sum).unwrap(), "m");
    assert_eq!(*env.get_component(component_sum).unwrap(), "c");
    assert!(matches!(env.get_module(component_sum), Err(ReplayError::MissingModule(s)) if s == component_sum));
    assert!(matches!(env.get_component(module_sum), Err(ReplayError::MissingComponent(s)) if s == module_sum));
    env.add_module(module_sum, "m2");
    assert_eq!(*env.get_module(module_sum).unwrap(), "m2");
    assert!(env.settings() == ReplaySettings::default());
}

#[test]
fn instance_maps() {
    let mut components: ComponentInstanceMap<u8> = ComponentInstanceMap::new();
    assert!(matches!(
        components.get(RRComponentInstanceId(4)),
        Err(ReplayError::MissingComponentInstance(RRComponentInstanceId(4)))
    ));
    components.insert(RRComponentInstanceId(4), 40);
    assert_eq!(components.get(RRComponentInstanceId(4)).unwrap(), 40);

    let mut modules: ModuleInstanceMap<u8> = ModuleInstanceMap::new();
    modules.insert(RRModuleInstanceId(1), 10);
    modules.insert(RRModuleInstanceId(1), 11);
    assert_eq!(modules.get(RRModuleInstanceId(1)).unwrap(), 11);
    assert!(matches!(
        modules.get(RRModuleInstanceId(2)),
        Err(ReplayError::MissingModuleInstance(RRModuleInstanceId(2)))
    ));

    let host: ReplayHostContext<u8> = ReplayHostContext::new();
    assert!(host.get_module_instance(RRModuleInstanceId(0)).is_err());
}

#[test]
fn planning_top_level_events() {
    let module_sum = WasmChecksum::from_binary(b"module");
    let mut env: ReplayEnvironment<&str, &str> = ReplayEnvironment::new(ReplaySettings::default());
    env.add_module(module_sum, "m");
    let mut replay: ReplayInstance<&str, &str, u8, u16> = ReplayInstance::new(env);

    let inst = CoreInstantiationEvent { module: module_sum, instance: RRModuleInstanceId(7) };
    let step = replay.plan_top_level_event(RREvent::CoreWasmInstantiation(inst)).unwrap();
    assert!(matches!(step, TopLevelStep::InstantiateModule(e) if e == inst));
    let pending = replay.host_mut().take_current_module_instantiation();
    assert!(pending.unwrap() == inst);
    assert!(replay.host_mut().take_current_module_instantiation().is_none());

    let missing = CoreInstantiationEvent { module: WasmChecksum([0; 32]), instance: RRModuleInstanceId(8) };
    assert!(matches!(
        replay.plan_top_level_event(RREvent::CoreWasmInstantiation(missing)),
        Err(ReplayError::MissingModule(_))
    ));

    let comp = ComponentInstantiationEvent { component: module_sum, instance: RRComponentInstanceId(1) };
    assert!(matches!(
        replay.plan_top_level_event(RREvent::ComponentInstantiation(comp)),
        Err(ReplayError::MissingComponent(_))
    ));

    let call = CoreWasmFuncEntryEvent {
        instance: RRModuleInstanceId(7),
        func_index: FuncIndex(3),
        args: RRFuncArgVals::from_flat_iter(&[ValRaw::i32(5)], &[4]),
    };
    assert!(matches!(
        replay.plan_top_level_event(RREvent::CoreWasmFuncEntry(call.clone())),
        Err(ReplayError::MissingModuleInstance(RRModuleInstanceId(7)))
    ));
    replay.insert_module_instance(RRModuleInstanceId(7), 700);
    assert_eq!(replay.host_mut().get_module_instance(RRModuleInstanceId(7)).unwrap(), 700);
    match replay.plan_top_level_event(RREvent::CoreWasmFuncEntry(call)) {
        Ok(TopLevelStep::CallCoreFunc { instance, func_index, args }) => {
            assert_eq!(instance, 700);
            assert!(func_index == FuncIndex(3));
            assert_eq!(args.bytes, vec![5, 0, 0, 0]);
        }
        _ => panic!("expected a core call"),
    }

    let begin = WasmFuncBeginEvent { instance: RRComponentInstanceId(2), func_index: ExportIndex(0) };
    assert!(matches!(
        replay.plan_top_level_event(RREvent::ComponentWasmFuncBegin(begin)),
        Err(ReplayError::MissingComponentInstance(RRComponentInstanceId(2)))
    ));
    replay.insert_component_instance(RRComponentInstanceId(2), 20);
    assert!(matches!(
        replay.plan_top_level_event(RREvent::ComponentWasmFuncBegin(begin)),
        Ok(TopLevelStep::CallComponentFunc { instance: 20, func_index: ExportIndex(0) })
    ));
    let post = PostReturnEvent { instance: RRComponentInstanceId(2), func_index: ExportIndex(0) };
    assert!(matches!(
        replay.plan_top_level_event(RREvent::ComponentPostReturn(post)),
        Ok(TopLevelStep::PostReturn { instance: 20, func_index: ExportIndex(0) })
    ));
    assert!(matches!(replay.plan_top_level_event(RREvent::Nop), Err(ReplayError::IncorrectEventVariant)));
}

#[test]
fn stepping_through_a_trace() {
    let module_sum = WasmChecksum::from_binary(b"module");
    let mut env: ReplayEnvironment<&str, &str> = ReplayEnvironment::new(ReplaySettings::default());
    env.add_module(module_sum, "m");
    let mut replay: ReplayInstance<&str, &str, u8, u16> = ReplayInstance::new(env);
    let inst = CoreInstantiationEvent { module: module_sum, instance: RRModuleInstanceId(1) };
    let mut reads = reads_of(vec![
        signature(false),
        RREvent::Nop,
        RREvent::CoreWasmInstantiation(inst),
        RREvent::Eof,
    ]);
    let mut buf = ReplayBuffer::new_replayer(&mut reads, ReplaySettings::default(), VERSION).unwrap();
    let step = replay.next_top_level_step(&mut buf, &mut reads).unwrap();
    assert!(matches!(step, Some(TopLevelStep::InstantiateModule(e)) if e == inst));
    assert!(replay.next_top_level_step(&mut buf, &mut reads).unwrap().is_none());
    assert!(replay.next_top_level_step(&mut buf, &mut reads).unwrap().is_none());
}

// --- embedded hosts ---------------------------------------------------------

#[test]
fn buf_writer_prints_hex() {
    let mut w = BufWriter::new();
    let (n, text) = w.write(&[0x00, 0xab, 0x10, 0xff]);
    assert_eq!(n, 4);
    assert_eq!(text, "00ab10ff");
    let (n, text) = w.write(&[]);
    assert_eq!(n, 0);
    assert_eq!(text, "");
}

#[test]
fn console_chunks() {
    let mut console = ZephyrConsole;
    let long = "a".repeat(300);
    let chunks = console.write_str(&long);
    assert_eq!(chunks.len(), 3);
    assert_eq!(chunks[0].len(), 128);
    assert_eq!(chunks[1].len(), 128);
    assert_eq!(chunks[2].len(), 44);
    assert_eq!(console.write_str("").len(), 0);
    let exact = "b".repeat(256);
    let chunks = console.write_str(&exact);
    assert_eq!(chunks.len(), 2);
    assert_eq!(chunks[1], vec![b'b'; 128]);
    assert_eq!(console.write_str("hi\n"), vec![b"hi\n".to_vec()]);
}

#[test]
fn allocation_plans() {
    let a = ZephyrAlloc;
    let word = std::mem::align_of::<usize>();
    assert!(a.plan_alloc(0, 16) == AllocPlan::Dangling);
    assert!(a.plan_alloc(24, word) == AllocPlan::Malloc { size: 24 });
    assert!(a.plan_alloc(24, 1) == AllocPlan::Malloc { size: 24 });
    assert!(a.plan_alloc(64, word * 2) == AllocPlan::AlignedAlloc { align: word * 2, size: 64 });
    assert!(a.dealloc(8));
    assert!(!a.dealloc(0));
}

#[test]
fn oom_and_panic_messages() {
    assert_eq!(oom(64, 8), "alloc failed: size=64 align=8");
    assert_eq!(oom(0, 1), "alloc failed: size=0 align=1");
    assert_eq!(panic_report(Some(("src/lib.rs", 42))), "PANIC\nfile: src/lib.rs\nline: 42\n");
    assert_eq!(panic_report(None), "PANIC\n(no loc)\n");
}

#[test]
fn uart_output() {
    assert_eq!(uart_puts_bytes(b"trap!\n\0"), b"trap!\r\n".to_vec());
    assert_eq!(uart_puts_bytes(b"a\nb\0c\n"), b"a\r\nb".to_vec());
    assert_eq!(uart_puts_bytes(b"no nul"), b"no nul".to_vec());
    assert_eq!(uart_puts_bytes(b"\0"), Vec::<u8>::new());
}

#[test]
fn host_continue_flag() {
    assert_eq!(host_should_continue(true), 1);
    assert_eq!(host_should_continue(false), 0);
}

#[test]
fn gpio_spec_from_guest_memory() {
    let mut mem = vec![0u8; 20];
    mem[4..8].copy_from_slice(&0x2000_0010u32.to_le_bytes());
    mem[8..12].copy_from_slice(&13u32.to_le_bytes());
    mem[12..16].copy_from_slice(&0x0000_0001u32.to_le_bytes());
    let spec = GpioDtSpec::from_guest_memory(&mem, 4).unwrap();
    assert!(spec == GpioDtSpec { port: 0x2000_0010, pin: 13, dt_flags: 1 });
    assert!(GpioDtSpec::from_guest_memory(&mem, 8).is_some());
    assert!(GpioDtSpec::from_guest_memory(&mem, 9).is_none());
    assert!(GpioDtSpec::from_guest_memory(&mem[..8], 0).is_none());
    assert!(GpioDtSpec::from_guest_memory(&mem, u32::MAX).is_none());
}

// --- the replay command -----------------------------------------------------

#[test]
fn replay_options() {
    let opts = ReplayOptions::new("trace.bin".to_string());
    assert_eq!(opts.trace, "trace.bin");
    assert!(opts.settings() == ReplaySettings { validate: false, deserialize_buffer_size: 64 });
    let opts = ReplayOptions { trace: "t".to_string(), validate: true, deserialize_buffer_size: 256 };
    assert!(opts.settings() == ReplaySettings { validate: true, deserialize_buffer_size: 256 });
}

fn command(coredump: Option<&str>, allow_unknown_exports: Option<bool>) -> ReplayCommand {
    ReplayCommand {
        replay_opts: ReplayOptions::new("trace.bin".to_string()),
        coredump: coredump.map(|s| s.to_string()),
        allow_unknown_exports,
        fuel: None,
    }
}

#[test]
fn coredump_patterns_are_refused() {
    assert!(command(None, None).check_coredump().is_ok());
    assert!(command(Some("core.dump"), None).check_coredump().is_ok());
    let r = command(Some("core.%p"), None).check_coredump();
    assert!(r == Err(ReplayCommandError::CoredumpPattern));
    assert_eq!(
        ReplayCommandError::CoredumpPattern.message(),
        "the coredump-on-trap path does not support patterns yet."
    );
}

#[test]
fn component_linker_options() {
    assert!(command(None, None).check_component_linker().is_ok());
    assert!(command(None, Some(true)).check_component_linker() == Err(ReplayCommandError::UnknownExportsWithComponent));
    assert_eq!(
        ReplayCommandError::UnknownExportsWithComponent.message(),
        "--allow-unknown-exports not supported with components"
    );
}

#[test]
fn command_environment() {
    let cmd = command(None, None);
    let env = cmd.environment::<&str, &str>(RunTarget::Core("m"), b"binary");
    let sum = WasmChecksum::from_binary(b"binary");
    assert_eq!(*env.get_module(sum).unwrap(), "m");
    assert!(env.get_component(sum).is_err());
    let env = cmd.environment::<&str, &str>(RunTarget::Component("c"), b"binary");
    assert_eq!(*env.get_component(sum).unwrap(), "c");
    assert!(env.get_module(sum).is_err());
}

#[test]
fn finishing_a_replay() {
    assert!(finish_replay(ReplayRunOutcome::Completed) == ReplayFinish::Success);
    assert!(finish_replay(ReplayRunOutcome::Failed { trap: true }) == ReplayFinish::AbortOnTrap);
    assert!(finish_replay(ReplayRunOutcome::Failed { trap: false }) == ReplayFinish::Failure);
    assert!(finish_replay(ReplayRunOutcome::TimedOut) == ReplayFinish::AbortOnTrap);
}

// --- results, validation messages and decisions added to the driver ----------

#[test]
fn results_from_messages() {
    let ok: ResultEvent<u32, BuiltinError> = ResultEvent::from_result(Ok(5));
    assert_eq!(ok.ret().unwrap(), 5);
    let err: ResultEvent<u32, BuiltinError> = ResultEvent::from_result(Err("Exit call failed!".to_string()));
    assert_eq!(err.ret().unwrap_err().get(), "Exit call failed!");
    let from_anyhow: ResultEvent<u32, BuiltinError> =
        ResultEvent::from_anyhow_result(&Err(anyhow::Error::msg("Exit call failed!")));
    assert_eq!(from_anyhow.ret().unwrap_err().get(), "Exit call failed!");
}

#[test]
fn validation_of_outcomes() {
    let rec: ResultEvent<u32, BuiltinError> = ResultEvent::from_result(Err("rec".to_string()));
    match rec.validate_outcome(Err("exec".to_string())) {
        Err(e @ ReplayError::EventError(_)) => assert_eq!(
            e.message(),
            "BuiltinError(\"Error on execution: exec | Error from recording: rec\")"
        ),
        _ => panic!("expected an event error"),
    }
    match rec.validate_outcome(Err("rec".to_string())) {
        Err(ReplayError::EventError(r)) => {
            assert_eq!(r.message, "Error on execution: rec | Error from recording: rec")
        }
        _ => panic!("expected an event error"),
    }
    assert!(matches!(rec.validate_outcome(Ok(&1)), Err(ReplayError::FailedValidation)));
    let ok: ResultEvent<u32, BuiltinError> = ResultEvent::from_result(Ok(7));
    assert!(ok.validate_outcome(Ok(&7)).is_ok());
    assert!(matches!(ok.validate_outcome(Ok(&8)), Err(ReplayError::FailedValidation)));
    assert!(matches!(ok.validate_outcome(Err("x".to_string())), Err(ReplayError::FailedValidation)));
}

#[test]
fn reads_after_the_end() {
    let mut reads = reads_of(vec![signature(true), RREvent::Eof]);
    let mut buf = ReplayBuffer::new_replayer(&mut reads, ReplaySettings::default(), VERSION).unwrap();
    assert!(buf.next_in(&mut reads).is_none());
    let r: Result<HostFuncEntryEvent, ReplayError> = buf.next_event_typed(&mut reads);
    assert!(matches!(r, Err(ReplayError::EmptyBuffer)));
    let other = HostFuncEntryEvent { args: RRFuncArgVals::from_flat_iter(&[ValRaw::i32(4)], &[4]) };
    assert!(matches!(
        buf.next_event_validation::<HostFuncEntryEvent, HostFuncEntryEvent>(&mut reads, &other),
        Err(ReplayError::EmptyBuffer)
    ));
}

#[test]
fn linker_setup_by_target() {
    let with_flag = command(None, Some(true));
    assert!(with_flag.linker_setup::<u8, u8>(&RunTarget::Core(0)) == Ok(Some(true)));
    assert!(
        with_flag.linker_setup::<u8, u8>(&RunTarget::Component(0))
            == Err(ReplayCommandError::UnknownExportsWithComponent)
    );
    let without = command(None, None);
    assert!(without.linker_setup::<u8, u8>(&RunTarget::Core(0)) == Ok(None));
    assert!(without.linker_setup::<u8, u8>(&RunTarget::Component(0)) == Ok(None));
}

#[test]
fn core_exports_must_be_functions() {
    assert_eq!(core_export_func(CoreExport::Func(9u8), FuncIndex(1)).unwrap(), 9);
    assert!(matches!(
        core_export_func(CoreExport::<u8>::Memory, FuncIndex(1)),
        Err(ReplayError::InvalidCoreFuncIndex(FuncIndex(1)))
    ));
    assert!(matches!(
        core_export_func(CoreExport::<u8>::Global, FuncIndex(3)),
        Err(ReplayError::InvalidCoreFuncIndex(FuncIndex(3)))
    ));
}

#[test]
fn more_events_validate_by_equality() {
    let begin = WasmFuncBeginEvent { instance: RRComponentInstanceId(1), func_index: ExportIndex(2) };
    let other = WasmFuncBeginEvent { instance: RRComponentInstanceId(1), func_index: ExportIndex(3) };
    assert!(begin.validate(&begin).is_ok());
    assert!(matches!(begin.validate(&other), Err(ReplayError::FailedValidation)));
    let a = RRFuncArgVals::from_flat_iter(&[ValRaw::i32(1)], &[4]);
    let b = RRFuncArgVals::from_flat_iter(&[ValRaw::i32(1)], &[2]);
    assert!(a.validate(&a.clone()).is_ok());
    assert!(matches!(a.validate(&b), Err(ReplayError::FailedValidation)));
    assert!(RRModuleInstanceId(4).validate(&RRModuleInstanceId(4)).is_ok());
    assert!(RRComponentInstanceId(4).validate(&RRComponentInstanceId(5)).is_err());
}

#[test]
fn failed_validation_hands_back_recorded_error() {
    let recorded = RREvent::WasmFuncReturn(WasmFuncReturnEvent(ResultEvent::from_result(Err(
        "rec failed".to_string(),
    ))));
    let settings = ReplaySettings { validate: true, deserialize_buffer_size: 64 };
    let mut reads = reads_of(vec![signature(true), recorded, RREvent::Eof]);
    let mut buf = ReplayBuffer::new_replayer(&mut reads, settings, VERSION).unwrap();
    let observed: Result<RRFuncArgVals, anyhow::Error> = Err(anyhow::Error::msg("exec failed"));
    let r = buf.next_event_validation::<Result<RRFuncArgVals, anyhow::Error>, WasmFuncReturnEvent>(
        &mut reads, &observed,
    );
    match r {
        Err(e @ ReplayError::EventError(_)) => assert_eq!(
            e.message(),
            "WasmFuncReturnError(\"Error on execution: exec failed | Error from recording: rec failed\")"
        ),
        _ => panic!("expected the recorded error"),
    }
}
