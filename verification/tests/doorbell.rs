use flash_bridge::codec::{Command, Error, Response, Xflash};
use flash_bridge::doorbell::{Exchange, MemAction, MemEvent, MemStep};
use flash_bridge::layout::Layout;

/// Drive one exchange against a simulated stub. The command slot's `kind`
/// reads nonzero for the first `ack_polls` polls, then 0; the response
/// slot's `kind` reads 0 for the first `rsp_polls` polls, then the response
/// frame is visible. Elapsed time grows only while sleeping. Returns every
/// action the exchange asked for, and its verdict.
fn drive(
    layout: Layout,
    command: Command,
    timeout_ms: u64,
    ack_polls: u32,
    rsp_polls: u32,
    frame: [u32; 4],
) -> (Vec<MemAction>, Result<Response, Error>) {
    let mut ex = Exchange::new(layout, command, timeout_ms);
    let mut actions = Vec::new();
    let mut elapsed: u64 = 0;
    let mut cmd_kind_reads: u32 = 0;
    let mut rsp_kind_polls: u32 = 0;
    let mut acked = false;
    loop {
        match ex.current() {
            MemStep::Finished => return (actions, ex.finish()),
            MemStep::Do(action) => {
                actions.push(action);
                let event = match action {
                    MemAction::WriteWord { .. } => MemEvent::Written,
                    MemAction::ResetTimer => {
                        elapsed = 0;
                        MemEvent::TimerReset
                    }
                    MemAction::SleepMs { ms } => {
                        elapsed += ms;
                        MemEvent::Slept
                    }
                    MemAction::ReadWord { addr } => {
                        let value = if addr == layout.cmd_kind && !acked {
                            cmd_kind_reads += 1;
                            if cmd_kind_reads > ack_polls {
                                acked = true;
                                0
                            } else {
                                command.to_bytes()[0]
                            }
                        } else if addr == layout.rsp_kind {
                            rsp_kind_polls += 1;
                            if rsp_kind_polls > rsp_polls {
                                frame[0]
                            } else {
                                0
                            }
                        } else if addr == layout.rsp_val0 {
                            frame[1]
                        } else if addr == layout.rsp_val1 {
                            frame[2]
                        } else if addr == layout.rsp_val2 {
                            frame[3]
                        } else {
                            panic!("read of an address outside the mailbox: {addr:#x}");
                        };
                        MemEvent::WordRead { value, elapsed_ms: elapsed }
                    }
                };
                ex = ex.apply(event);
            }
        }
    }
}

fn touches_response_slot(layout: &Layout, action: &MemAction) -> bool {
    let addr = match action {
        MemAction::WriteWord { addr, .. } => *addr,
        MemAction::ReadWord { addr } => *addr,
        _ => return false,
    };
    addr == layout.rsp_kind
        || addr == layout.rsp_val0
        || addr == layout.rsp_val1
        || addr == layout.rsp_val2
}

#[test]
fn happy_exchange_stages_frame_then_decodes_okay() {
    let layout = Layout::standard();
    let cmd = Command::SectorErase { offset: 0x1000, length: 0x2000 };
    let (actions, verdict) = drive(layout, cmd, 3000, 2, 3, [0xD0, 0, 0, 0]);
    assert_eq!(verdict, Ok(Response::Okay));
    // The frame is staged highest offset first, its kind word last.
    assert_eq!(
        actions[..4],
        [
            MemAction::WriteWord { addr: layout.cmd_arg2, value: 0 },
            MemAction::WriteWord { addr: layout.cmd_arg1, value: 0x2000 },
            MemAction::WriteWord { addr: layout.cmd_arg0, value: 0x1000 },
            MemAction::WriteWord { addr: layout.cmd_kind, value: 0xC1 },
        ]
    );
    // Each polling window starts with its own stopwatch.
    let timers = actions.iter().filter(|a| matches!(a, MemAction::ResetTimer)).count();
    assert_eq!(timers, 2);
    // Every sleep is one dwell interval.
    for a in &actions {
        if let MemAction::SleepMs { ms } = a {
            assert_eq!(*ms, 100);
        }
    }
    // The response slot is freed at the end.
    assert_eq!(actions.last(), Some(&MemAction::WriteWord { addr: layout.rsp_kind, value: 0 }));
}

#[test]
fn xflash_info_frame_decodes_to_the_identity() {
    let layout = Layout::standard();
    let (_, verdict) = drive(layout, Command::GetXflashInfo, 3000, 0, 0, [0xD1, 7, 9, 0]);
    assert_eq!(
        verdict,
        Ok(Response::XflashInfo(Xflash { manufacturer_id: 7, device_id: 9 }))
    );
}

#[test]
fn unknown_frame_fails_with_invalid_response() {
    let layout = Layout::standard();
    let (actions, verdict) = drive(layout, Command::MassErase, 3000, 0, 0, [0x99, 1, 2, 3]);
    assert_eq!(verdict, Err(Error::InvalidResponse { bytes: [0x99, 1, 2, 3] }));
    // Even an undecodable frame frees the response slot first.
    assert_eq!(actions.last(), Some(&MemAction::WriteWord { addr: layout.rsp_kind, value: 0 }));
}

#[test]
fn unacknowledged_command_times_out_with_response_slot_untouched() {
    let layout = Layout::standard();
    // The stub never clears the command kind: with a 1 s budget and a 100 ms
    // dwell the exchange gives up after ten sleeps.
    let (actions, verdict) = drive(layout, Command::MassErase, 1000, u32::MAX, 0, [0xD0, 0, 0, 0]);
    assert_eq!(verdict, Err(Error::FirmwareTimeout));
    for a in &actions {
        assert!(!touches_response_slot(&layout, a), "touched the response slot: {a:?}");
    }
    let sleeps = actions.iter().filter(|a| matches!(a, MemAction::SleepMs { .. })).count();
    assert_eq!(sleeps, 10);
}

#[test]
fn missing_response_times_out_in_its_own_window() {
    let layout = Layout::standard();
    // The command is consumed at once, but no response ever shows up.
    let (actions, verdict) = drive(layout, Command::MassErase, 1000, 0, u32::MAX, [0xD0, 0, 0, 0]);
    assert_eq!(verdict, Err(Error::FirmwareTimeout));
    // The response slot was polled but never written: it is left in place
    // for the stub.
    for a in &actions {
        assert!(
            !matches!(a, MemAction::WriteWord { addr, .. } if *addr == layout.rsp_kind),
            "wrote the response slot: {a:?}"
        );
    }
}

#[test]
fn late_ack_still_times_out() {
    let layout = Layout::standard();
    // The kind clears only on the poll at which the budget is already spent:
    // the exchange must still report a timeout, not proceed.
    let (_, verdict) = drive(layout, Command::MassErase, 1000, 10, 0, [0xD0, 0, 0, 0]);
    assert_eq!(verdict, Err(Error::FirmwareTimeout));
}
