use nebula::device::{Device, Frame, Outcome, Payload, Reply};
use nebula::engine::EngineState;
use nebula::wire::{Asic, Chain, DispatchError, Job, LedState, SleepMillis, SleptMillis};

fn test_device() -> Device {
    let chain = Chain { asic: Asic::Bm1370, cnt: 1 };
    Device::new(0x1122_3344_5566_7788, chain, "1.2.3")
}

fn job(id: u32) -> Job {
    Job {
        id,
        version: 0x2000_0000,
        prev_tx_hash: [0u8; 32],
        merkle_root: [1u8; 32],
        ntime: 1_700_000_000,
        nbits: 0x1703_255f,
    }
}

#[test]
fn unique_id_replies_with_device_id() {
    let mut d = test_device();
    let r = d.dispatch(Frame {
        path: "poststation/unique_id/get",
        seq_no: 11,
        payload: Payload::Empty,
    });
    assert_eq!(
        r,
        Outcome::Replied {
            seq_no: 11,
            reply: Reply::UniqueId(0x1122_3344_5566_7788)
        }
    );
}

#[test]
fn info_reports_version_and_chain() {
    let mut d = test_device();
    let r = d.dispatch(Frame {
        path: "nebula/info",
        seq_no: 2,
        payload: Payload::Empty,
    });
    match r {
        Outcome::Replied {
            seq_no,
            reply: Reply::InfoReport(i),
        } => {
            assert_eq!(seq_no, 2);
            assert_eq!(i.version, "1.2.3");
            assert_eq!(i.chain, Chain { asic: Asic::Bm1370, cnt: 1 });
        }
        other => panic!("expected an info reply, got {:?}", other),
    }
}

#[test]
fn unknown_path_is_reported_and_nothing_runs() {
    let mut d = test_device();
    let r = d.dispatch(Frame {
        path: "nebula/blink",
        seq_no: 7,
        payload: Payload::Empty,
    });
    assert_eq!(
        r,
        Outcome::Failed {
            seq_no: 7,
            err: DispatchError::UnknownPath
        }
    );
    assert_eq!(d.ctx.led, LedState::Off);
    assert_eq!(d.engine.state, EngineState::Idle);
    assert!(!d.halted);
}

#[test]
fn outbound_topic_has_no_inbound_handler() {
    let mut d = test_device();
    let r = d.dispatch(Frame {
        path: "/nebula/share",
        seq_no: 3,
        payload: Payload::Empty,
    });
    assert_eq!(
        r,
        Outcome::Failed {
            seq_no: 3,
            err: DispatchError::UnknownPath
        }
    );
}

#[test]
fn wrong_payload_is_a_decode_failure() {
    let mut d = test_device();
    let r = d.dispatch(Frame {
        path: "nebula/led/set",
        seq_no: 9,
        payload: Payload::Empty,
    });
    assert_eq!(
        r,
        Outcome::Failed {
            seq_no: 9,
            err: DispatchError::TransportDecodeError
        }
    );
    assert_eq!(d.ctx.led, LedState::Off);
}

#[test]
fn led_transitions_are_exact() {
    let mut d = test_device();
    let on = d.dispatch(Frame {
        path: "nebula/led/set",
        seq_no: 1,
        payload: Payload::Led(LedState::On),
    });
    assert_eq!(
        on,
        Outcome::Replied {
            seq_no: 1,
            reply: Reply::Ack
        }
    );
    assert_eq!(d.ctx.led, LedState::On);
    let info = d.dispatch(Frame {
        path: "nebula/info",
        seq_no: 2,
        payload: Payload::Empty,
    });
    assert!(matches!(
        info,
        Outcome::Replied {
            seq_no: 2,
            reply: Reply::InfoReport(_)
        }
    ));
    assert_eq!(d.ctx.led, LedState::On);
    let off = d.dispatch(Frame {
        path: "nebula/led/set",
        seq_no: 3,
        payload: Payload::Led(LedState::Off),
    });
    assert_eq!(
        off,
        Outcome::Replied {
            seq_no: 3,
            reply: Reply::Ack
        }
    );
    assert_eq!(d.ctx.led, LedState::Off);
}

#[test]
fn sleep_pool_rejects_the_fourth_and_recovers() {
    let mut d = test_device();
    let mut tasks = Vec::new();
    for seq in 1u32..=3 {
        let r = d.dispatch(Frame {
            path: "nebula/sleep",
            seq_no: seq,
            payload: Payload::Sleep(SleepMillis { millis: 50 }),
        });
        match r {
            Outcome::Spawned { task } => {
                assert_eq!(task.seq_no, seq);
                assert_eq!(task.millis, 50);
                tasks.push(task);
            }
            other => panic!("expected a spawned task, got {:?}", other),
        }
    }
    let fourth = d.dispatch(Frame {
        path: "nebula/sleep",
        seq_no: 4,
        payload: Payload::Sleep(SleepMillis { millis: 50 }),
    });
    assert_eq!(
        fourth,
        Outcome::Failed {
            seq_no: 4,
            err: DispatchError::PoolExhausted
        }
    );
    let done = d.sleep_complete(tasks[0], 50);
    assert_eq!(done.seq_no, 1);
    let fifth = d.dispatch(Frame {
        path: "nebula/sleep",
        seq_no: 5,
        payload: Payload::Sleep(SleepMillis { millis: 20 }),
    });
    assert!(matches!(fifth, Outcome::Spawned { .. }));
}

#[test]
fn sleep_reply_reports_elapsed_within_bounds() {
    let mut d = test_device();
    let r = d.dispatch(Frame {
        path: "nebula/sleep",
        seq_no: 21,
        payload: Payload::Sleep(SleepMillis { millis: 50 }),
    });
    let task = match r {
        Outcome::Spawned { task } => task,
        other => panic!("expected a spawned task, got {:?}", other),
    };
    let done = d.sleep_complete(task, 52);
    assert_eq!(done.seq_no, 21);
    assert_eq!(done.reply, Reply::Slept(SleptMillis { millis: 52 }));
    match done.reply {
        Reply::Slept(s) => {
            assert!(s.millis >= 50);
            assert!(s.millis <= 200);
        }
        other => panic!("expected a slept reply, got {:?}", other),
    }
}

#[test]
fn abnormal_sleep_end_frees_the_slot_without_a_reply() {
    let mut d = test_device();
    let mut tasks = Vec::new();
    for seq in 1u32..=3 {
        match d.dispatch(Frame {
            path: "nebula/sleep",
            seq_no: seq,
            payload: Payload::Sleep(SleepMillis { millis: 10 }),
        }) {
            Outcome::Spawned { task } => tasks.push(task),
            other => panic!("expected a spawned task, got {:?}", other),
        }
    }
    d.sleep_failed(tasks[1]);
    let again = d.dispatch(Frame {
        path: "nebula/sleep",
        seq_no: 6,
        payload: Payload::Sleep(SleepMillis { millis: 10 }),
    });
    assert!(matches!(again, Outcome::Spawned { .. }));
}

#[test]
fn job_topic_starts_hashing() {
    let mut d = test_device();
    let r = d.dispatch(Frame {
        path: "/nebula/job",
        seq_no: 1,
        payload: Payload::JobMsg(job(40)),
    });
    assert_eq!(r, Outcome::TopicDone);
    assert_eq!(d.engine.state, EngineState::Hashing(job(40)));
}

#[test]
fn malformed_job_is_rejected_and_state_kept() {
    let mut d = test_device();
    let mut bad = job(41);
    bad.nbits = 0xff00_0000;
    let r = d.dispatch(Frame {
        path: "/nebula/job",
        seq_no: 1,
        payload: Payload::JobMsg(bad),
    });
    assert_eq!(
        r,
        Outcome::Failed {
            seq_no: 1,
            err: DispatchError::InvalidJob
        }
    );
    assert_eq!(d.engine.state, EngineState::Idle);
}

#[test]
fn stop_topic_while_idle_is_a_noop() {
    let mut d = test_device();
    let r = d.dispatch(Frame {
        path: "/nebula/stop",
        seq_no: 1,
        payload: Payload::Empty,
    });
    assert_eq!(r, Outcome::TopicDone);
    assert_eq!(d.engine.state, EngineState::Idle);
}

#[test]
fn picoboot_reset_halts_all_further_dispatch() {
    let mut d = test_device();
    let r = d.dispatch(Frame {
        path: "picoboot/reset",
        seq_no: 5,
        payload: Payload::Empty,
    });
    assert_eq!(r, Outcome::Halting);
    assert!(d.halted);
    let after = d.dispatch(Frame {
        path: "nebula/info",
        seq_no: 6,
        payload: Payload::Empty,
    });
    assert_eq!(after, Outcome::Unresponsive);
    let led = d.dispatch(Frame {
        path: "nebula/led/set",
        seq_no: 7,
        payload: Payload::Led(LedState::On),
    });
    assert_eq!(led, Outcome::Unresponsive);
    assert_eq!(d.ctx.led, LedState::Off);
}

#[test]
fn fresh_device_starts_idle_dark_and_empty() {
    let d = test_device();
    assert!(!d.halted);
    assert_eq!(d.ctx.led, LedState::Off);
    assert_eq!(d.engine.state, EngineState::Idle);
    assert_eq!(d.sleep_pool.in_flight.len(), 0);
    assert_eq!(d.sleep_pool.capacity, 3);
}

#[test]
fn sleep_accepts_the_largest_request() {
    let mut d = test_device();
    let r = d.dispatch(Frame {
        path: "nebula/sleep",
        seq_no: 1,
        payload: Payload::Sleep(SleepMillis { millis: u16::MAX }),
    });
    let task = match r {
        Outcome::Spawned { task } => task,
        other => panic!("expected a spawned task, got {:?}", other),
    };
    assert_eq!(task.millis, u16::MAX);
    let done = d.sleep_complete(task, u16::MAX);
    assert_eq!(done.reply, Reply::Slept(SleptMillis { millis: u16::MAX }));
}

#[test]
fn resubmitting_the_same_job_id_restarts_on_it() {
    let mut d = test_device();
    let a = job(40);
    let mut b = job(40);
    b.ntime += 1;
    assert_eq!(
        d.dispatch(Frame { path: "/nebula/job", seq_no: 1, payload: Payload::JobMsg(a) }),
        Outcome::TopicDone
    );
    assert_eq!(
        d.dispatch(Frame { path: "/nebula/job", seq_no: 2, payload: Payload::JobMsg(b) }),
        Outcome::TopicDone
    );
    assert_eq!(d.engine.state, EngineState::Hashing(b));
}
