use std::collections::VecDeque;

use wasm_crimp::checksum::WasmChecksum;
use wasm_crimp::error::ReplayError;
use wasm_crimp::events::common_events::{HostFuncEntryEvent, HostFuncReturnEvent};
use wasm_crimp::events::component_events::{
    BuiltinEntryEvent, BuiltinReturnEvent, InstantiationEvent as ComponentInstantiationEvent,
    LowerFlatEntryEvent, LowerFlatReturnEvent, LowerMemoryEntryEvent, LowerMemoryReturnEvent,
    MemorySliceWriteEvent, RRComponentInstanceId, ReallocEntryEvent, ReallocReturnEvent,
    ResourceDropEntryEvent, ResourceDropRet, ResourceDropReturnEvent, ResourceEnterCallEntryEvent,
    ResourceExitCallEntryEvent, ResourceExitCallReturnEvent, ResourceRep32ReturnEvent,
    ResourceTransferBorrowEntryEvent, ResourceTransferBorrowReturnEvent,
    ResourceTransferOwnEntryEvent, ResourceTransferOwnReturnEvent,
    WasmFuncEntryEvent as ComponentWasmFuncEntryEvent,
};
use wasm_crimp::events::core_events::{
    InstantiationEvent as CoreInstantiationEvent, RRModuleInstanceId,
    WasmFuncEntryEvent as CoreWasmFuncEntryEvent,
};
use wasm_crimp::events::{EventError, RRFuncArgVals, ResultEvent};
use wasm_crimp::flat::ValRaw;
use wasm_crimp::index::FuncIndex;
use wasm_crimp::record::RecordBuffer;
use wasm_crimp::replay::ReplayBuffer;
use wasm_crimp::rr_event::RREvent;
use wasm_crimp::settings::{RecordSettings, ReplaySettings};
use wasm_crimp::validate::Validate;
use wasmtime_environ::component::InterfaceType;

const VERSION: &str = "46.0.3";

type Reads = VecDeque<Result<RREvent, String>>;

/// Records with `record_fn`, finishes the trace, and replays it with
/// `replay_fn`; the trace must be used up afterwards.
fn rr_harness<S, T>(record_fn: S, replay_fn: T)
where
    S: FnOnce(&mut RecordBuffer),
    T: FnOnce(&mut ReplayBuffer, &mut Reads),
{
    let mut recorder = RecordBuffer::new_recorder(VERSION.to_string(), RecordSettings::default());
    record_fn(&mut recorder);
    recorder.finish();
    let mut reads: Reads = recorder.take_written().into_iter().map(Ok).collect();

    let mut replayer =
        ReplayBuffer::new_replayer(&mut reads, ReplaySettings::default(), VERSION).unwrap();
    replay_fn(&mut replayer, &mut reads);

    // Check queue is empty
    assert!(replayer.next_in(&mut reads).is_none());
}

fn verify_equal_slices(record_vals: &[ValRaw], replay_vals: &[ValRaw], flat_sizes: &[u8]) {
    for ((a, b), sz) in record_vals.iter().zip(replay_vals.iter()).zip(flat_sizes.iter()) {
        let a_slice: &[u8] = &a.get_bytes()[..*sz as usize];
        let b_slice: &[u8] = &b.get_bytes()[..*sz as usize];
        assert!(
            a_slice == b_slice,
            "Recorded values {a_slice:?} and replayed values {b_slice:?} do not match"
        );
    }
}

#[test]
fn host_func() {
    let values = vec![ValRaw::float64(20), ValRaw::i32(10), ValRaw::i64(30)];
    let flat_sizes: Vec<u8> = vec![8, 4, 8];

    let return_values = vec![ValRaw::i32(1), ValRaw::float32(2), ValRaw::i64(3)];
    let return_flat_sizes: Vec<u8> = vec![4, 4, 8];
    let mut return_replay_values = values.clone();

    rr_harness(
        |recorder| {
            recorder.record_event(|| {
                RREvent::from(HostFuncEntryEvent {
                    args: RRFuncArgVals::from_flat_iter(&values, &flat_sizes),
                })
            });
            recorder.record_event(|| {
                RREvent::from(HostFuncReturnEvent {
                    args: RRFuncArgVals::from_flat_iter(&return_values, &return_flat_sizes),
                })
            });
        },
        |replayer, reads| {
            let event: HostFuncEntryEvent = replayer.next_event_typed(reads).unwrap();
            event
                .validate(&HostFuncEntryEvent {
                    args: RRFuncArgVals::from_flat_iter(&values, &flat_sizes),
                })
                .unwrap();
            let event: HostFuncReturnEvent = replayer.next_event_typed(reads).unwrap();
            event.args.into_raw_slice(&mut return_replay_values);
            verify_equal_slices(&return_values, &return_replay_values, &return_flat_sizes);
        },
    );
}

#[test]
fn wasm_func_entry() {
    let values = vec![ValRaw::i32(42), ValRaw::float64(314), ValRaw::i64(84)];
    let flat_sizes: Vec<u8> = vec![4, 8, 8];
    let origin = (RRModuleInstanceId(15), FuncIndex::from_u32(7));
    let mut replay_values = values.clone();
    let mut replay_origin = None;

    let return_values = vec![ValRaw::float32(7), ValRaw::float32(8), ValRaw::v128(21)];
    let return_flat_sizes: Vec<u8> = vec![4, 4, 16];
    let mut return_replay_values = values.clone();

    rr_harness(
        |recorder| {
            recorder.record_event(|| {
                RREvent::from(CoreWasmFuncEntryEvent {
                    instance: origin.0,
                    func_index: origin.1,
                    args: RRFuncArgVals::from_flat_iter(&values, &flat_sizes),
                })
            });
            recorder.record_event(|| {
                RREvent::from(ComponentWasmFuncEntryEvent {
                    args: RRFuncArgVals::from_flat_iter(&return_values, &return_flat_sizes),
                })
            });
        },
        |replayer, reads| {
            let event: CoreWasmFuncEntryEvent = replayer.next_event_typed(reads).unwrap();
            replay_origin = Some((event.instance, event.func_index));
            event.args.into_raw_slice(&mut replay_values);
            assert!(origin == replay_origin.unwrap());
            verify_equal_slices(&values, &replay_values, &flat_sizes);

            let event: ComponentWasmFuncEntryEvent = replayer.next_event_typed(reads).unwrap();
            event.args.into_raw_slice(&mut return_replay_values);
            verify_equal_slices(&return_values, &return_replay_values, &return_flat_sizes);
        },
    );
}

#[test]
fn builtin_event_entry() {
    let events: Vec<BuiltinEntryEvent> = vec![
        BuiltinEntryEvent::ResourceDrop(ResourceDropEntryEvent {
            caller_instance: 3,
            resource: 42,
            idx: 10,
        }),
        BuiltinEntryEvent::ResourceTransferOwn(ResourceTransferOwnEntryEvent {
            src_idx: 5,
            src_table: 1,
            dst_table: 2,
        }),
        BuiltinEntryEvent::ResourceTransferBorrow(ResourceTransferBorrowEntryEvent {
            src_idx: 7,
            src_table: 3,
            dst_table: 4,
        }),
        BuiltinEntryEvent::ResourceEnterCall(ResourceEnterCallEntryEvent {}),
        BuiltinEntryEvent::ResourceExitCall(ResourceExitCallEntryEvent {}),
    ];

    rr_harness(
        |recorder| {
            for event in &events {
                recorder.record_event(|| RREvent::from(*event));
            }
        },
        |replayer, reads| {
            for event in &events {
                let replay_event: BuiltinEntryEvent = replayer.next_event_typed(reads).unwrap();
                assert!(*event == replay_event);
            }
        },
    );
}

#[test]
fn builtin_event_return() {
    let events: Vec<BuiltinReturnEvent> = vec![
        BuiltinReturnEvent::ResourceDrop(ResourceDropReturnEvent(ResultEvent::from_anyhow_result(
            &Ok(ResourceDropRet::default()),
        ))),
        BuiltinReturnEvent::ResourceRep32(ResourceRep32ReturnEvent(
            ResultEvent::from_anyhow_result(&Ok(123)),
        )),
        BuiltinReturnEvent::ResourceTransferOwn(ResourceTransferOwnReturnEvent(
            ResultEvent::from_anyhow_result(&Ok(42)),
        )),
        BuiltinReturnEvent::ResourceTransferBorrow(ResourceTransferBorrowReturnEvent(
            ResultEvent::from_anyhow_result(&Ok(17)),
        )),
        BuiltinReturnEvent::ResourceExitCall(ResourceExitCallReturnEvent(
            ResultEvent::from_anyhow_result(&Err(anyhow::Error::msg("Exit call failed!"))),
        )),
    ];

    rr_harness(
        |recorder| {
            for event in &events {
                recorder.record_event(|| RREvent::from(event.clone()));
            }
        },
        |replayer, reads| {
            for event in &events {
                let replay_event: BuiltinReturnEvent = replayer.next_event_typed(reads).unwrap();
                match (replay_event, event) {
                    (BuiltinReturnEvent::ResourceDrop(e), BuiltinReturnEvent::ResourceDrop(expected)) => {
                        assert_eq!(e.ret().unwrap(), expected.clone().ret().unwrap());
                    }
                    (BuiltinReturnEvent::ResourceRep32(e), BuiltinReturnEvent::ResourceRep32(expected)) => {
                        assert_eq!(e.ret().unwrap(), expected.clone().ret().unwrap());
                    }
                    (
                        BuiltinReturnEvent::ResourceTransferOwn(e),
                        BuiltinReturnEvent::ResourceTransferOwn(expected),
                    ) => {
                        assert_eq!(e.ret().unwrap(), expected.clone().ret().unwrap());
                    }
                    (
                        BuiltinReturnEvent::ResourceTransferBorrow(e),
                        BuiltinReturnEvent::ResourceTransferBorrow(expected),
                    ) => {
                        assert_eq!(e.ret().unwrap(), expected.clone().ret().unwrap());
                    }
                    (
                        BuiltinReturnEvent::ResourceExitCall(e),
                        BuiltinReturnEvent::ResourceExitCall(expected),
                    ) => {
                        assert_eq!(
                            e.ret().unwrap_err().get(),
                            expected.clone().ret().unwrap_err().get()
                        );
                    }
                    _ => unreachable!(),
                };
            }
        },
    );
}

#[test]
fn lower_flat_events() {
    let entry = LowerFlatEntryEvent { ty: InterfaceType::U32 };
    let return_event = LowerFlatReturnEvent(ResultEvent::from_anyhow_result(&Ok(())));

    rr_harness(
        |recorder| {
            recorder.record_event(|| RREvent::from(entry));
            recorder.record_event(|| RREvent::from(return_event.clone()));
        },
        |replayer, reads| {
            let e: LowerFlatEntryEvent = replayer.next_event_typed(reads).unwrap();
            assert_eq!(e.ty, InterfaceType::U32);
            let e: LowerFlatReturnEvent = replayer.next_event_typed(reads).unwrap();
            assert!(e.0.ret().is_ok());
        },
    );
}

#[test]
fn lower_memory_events() {
    let entry = LowerMemoryEntryEvent { ty: InterfaceType::String, offset: 1024 };
    let return_event = LowerMemoryReturnEvent(ResultEvent::from_anyhow_result(&Ok(())));

    rr_harness(
        |recorder| {
            recorder.record_event(|| RREvent::from(entry));
            recorder.record_event(|| RREvent::from(return_event.clone()));
        },
        |replayer, reads| {
            let e: LowerMemoryEntryEvent = replayer.next_event_typed(reads).unwrap();
            assert_eq!(e.ty, InterfaceType::String);
            assert_eq!(e.offset, 1024);
            let e: LowerMemoryReturnEvent = replayer.next_event_typed(reads).unwrap();
            assert!(e.0.ret().is_ok());
        },
    );
}

#[test]
fn realloc_events() {
    let entry = ReallocEntryEvent { old_addr: 0x1000, old_size: 64, old_align: 8, new_size: 128 };
    let return_event = ReallocReturnEvent(ResultEvent::from_anyhow_result(&Ok(0x2000)));

    rr_harness(
        |recorder| {
            recorder.record_event(|| RREvent::from(entry));
            recorder.record_event(|| RREvent::from(return_event.clone()));
        },
        |replayer, reads| {
            let e: ReallocEntryEvent = replayer.next_event_typed(reads).unwrap();
            assert_eq!(e.old_addr, 0x1000);
            assert_eq!(e.old_size, 64);
            assert_eq!(e.old_align, 8);
            assert_eq!(e.new_size, 128);
            let e: ReallocReturnEvent = replayer.next_event_typed(reads).unwrap();
            assert_eq!(e.0.ret().unwrap(), 0x2000);
        },
    );
}

#[test]
fn memory_slice_write_event() {
    let event = MemorySliceWriteEvent { offset: 512, bytes: vec![0x01, 0x02, 0x03, 0x04, 0xFF] };

    rr_harness(
        |recorder| {
            recorder.record_event(|| RREvent::from(event.clone()));
        },
        |replayer, reads| {
            let e: MemorySliceWriteEvent = replayer.next_event_typed(reads).unwrap();
            assert_eq!(e.offset, 512);
            assert_eq!(e.bytes, vec![0x01, 0x02, 0x03, 0x04, 0xFF]);
        },
    );
}

#[test]
fn instantiation_event() {
    let component_event = ComponentInstantiationEvent {
        component: WasmChecksum::from_binary(&[0xAB; 256]),
        instance: RRComponentInstanceId(42),
    };

    let core_event = CoreInstantiationEvent {
        module: WasmChecksum::from_binary(&[0xCD; 256]),
        instance: RRModuleInstanceId(17),
    };

    rr_harness(
        |recorder| {
            recorder.record_event(|| RREvent::from(component_event));
            recorder.record_event(|| RREvent::from(core_event));
        },
        |replayer, reads| {
            let e: ComponentInstantiationEvent = replayer.next_event_typed(reads).unwrap();
            e.validate(&component_event).unwrap();
            let e: CoreInstantiationEvent = replayer.next_event_typed(reads).unwrap();
            e.validate(&core_event).unwrap();
        },
    );
}

#[test]
fn replay_skips_diagnostic_events() {
    rr_harness(
        |recorder| {
            recorder.record_event(|| RREvent::Nop);
            recorder.record_event(|| {
                RREvent::CustomMessage(wasm_crimp::events::common_events::CustomMessageEvent(
                    "note".to_string(),
                ))
            });
            recorder.record_event(|| {
                RREvent::from(BuiltinEntryEvent::ResourceEnterCall(ResourceEnterCallEntryEvent {}))
            });
        },
        |replayer, reads| {
            let e: BuiltinEntryEvent = replayer.next_event_typed(reads).unwrap();
            assert!(e == BuiltinEntryEvent::ResourceEnterCall(ResourceEnterCallEntryEvent {}));
        },
    );
}

#[test]
fn wrong_event_type_is_refused() {
    rr_harness(
        |recorder| {
            recorder.record_event(|| RREvent::from(ReallocEntryEvent {
                old_addr: 1,
                old_size: 2,
                old_align: 4,
                new_size: 8,
            }));
        },
        |replayer, reads| {
            let r: Result<MemorySliceWriteEvent, ReplayError> = replayer.next_event_typed(reads);
            assert!(matches!(r, Err(ReplayError::IncorrectEventVariant)));
        },
    );
}

#[test]
fn failing_result_keeps_message() {
    let e: ResultEvent<u32, wasm_crimp::events::component_events::BuiltinError> =
        ResultEvent::from_anyhow_result(&Err(anyhow::Error::msg("boom")));
    assert!(!e.is_ok());
    assert_eq!(e.ret().unwrap_err().get(), "boom");
}
