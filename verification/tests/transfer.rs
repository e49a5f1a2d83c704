use flash_bridge::codec::{Command, Error, Response, Xflash};
use flash_bridge::transfer::{OpAction, OpEvent, OpStep, ReadOp, WriteOp};

const BUF_ADDR: u32 = 0x2000_4000;

/// Drive a read to completion, handing each `ReadBlock` an `Okay` and each
/// buffer fetch `len` bytes of a running pattern. Returns the commands
/// issued and the result.
fn drive_read(mut op: ReadOp) -> (Vec<Command>, Result<Vec<u8>, Error>) {
    let mut commands = Vec::new();
    let mut counter: u8 = 0;
    loop {
        match op.current() {
            OpStep::Finished => return (commands, op.finish()),
            OpStep::Do(OpAction::Exchange { cmd, timeout_ms }) => {
                assert_eq!(timeout_ms, 3000);
                commands.push(cmd);
                op = op.apply(OpEvent::Responded(Ok(Response::Okay)));
            }
            OpStep::Do(OpAction::ReadBuf { addr, len }) => {
                assert_eq!(addr, BUF_ADDR);
                let mut bytes = Vec::new();
                for _ in 0..len {
                    bytes.push(counter);
                    counter = counter.wrapping_add(1);
                }
                op = op.apply(OpEvent::BufRead(bytes));
            }
            OpStep::Do(OpAction::WriteBuf { .. }) => panic!("a read never stages bytes"),
        }
    }
}

#[test]
fn read_of_zero_length_is_empty_and_issues_nothing() {
    let op = ReadOp::new(BUF_ADDR, 0x500, 0);
    assert!(matches!(op.current(), OpStep::Finished));
    let (commands, result) = drive_read(op);
    assert_eq!(commands, Vec::new());
    assert_eq!(result, Ok(Vec::new()));
}

#[test]
fn read_of_10000_issues_three_read_blocks() {
    let (commands, result) = drive_read(ReadOp::new(BUF_ADDR, 0, 10000));
    assert_eq!(
        commands,
        vec![
            Command::ReadBlock { offset: 0, length: 4096 },
            Command::ReadBlock { offset: 4096, length: 4096 },
            Command::ReadBlock { offset: 8192, length: 1808 },
        ]
    );
    let data = result.unwrap();
    assert_eq!(data.len(), 10000);
    assert_eq!(data[0], 0);
    assert_eq!(data[9999], (9999 % 256) as u8);
}

#[test]
fn read_shorter_than_the_buffer_issues_one_command() {
    let (commands, result) = drive_read(ReadOp::new(BUF_ADDR, 0x40, 17));
    assert_eq!(commands, vec![Command::ReadBlock { offset: 0x40, length: 17 }]);
    assert_eq!(result.unwrap().len(), 17);
}

#[test]
fn read_aborts_on_a_response_other_than_okay() {
    let mut op = ReadOp::new(BUF_ADDR, 0, 10000);
    assert!(matches!(op.current(), OpStep::Do(OpAction::Exchange { .. })));
    let info = Response::XflashInfo(Xflash { manufacturer_id: 1, device_id: 2 });
    op = op.apply(OpEvent::Responded(Ok(info)));
    assert!(matches!(op.current(), OpStep::Finished));
    assert_eq!(op.finish(), Err(Error::BadResponse { response: info }));
}

#[test]
fn read_aborts_on_a_failed_exchange() {
    let mut op = ReadOp::new(BUF_ADDR, 0, 100);
    op = op.apply(OpEvent::Responded(Err(Error::FirmwareTimeout)));
    assert!(matches!(op.current(), OpStep::Finished));
    assert_eq!(op.finish(), Err(Error::FirmwareTimeout));
}

/// Drive a write to completion, recording the staged chunks and the commands
/// issued, answering every exchange with `Okay`.
fn drive_write(mut op: WriteOp) -> (Vec<Vec<u8>>, Vec<Command>, Result<(), Error>) {
    let mut chunks = Vec::new();
    let mut commands = Vec::new();
    loop {
        match op.current() {
            OpStep::Finished => return (chunks, commands, op.finish()),
            OpStep::Do(OpAction::WriteBuf { addr, data }) => {
                assert_eq!(addr, BUF_ADDR);
                chunks.push(data);
                op = op.apply(OpEvent::BufWritten);
            }
            OpStep::Do(OpAction::Exchange { cmd, timeout_ms }) => {
                assert_eq!(timeout_ms, 3000);
                commands.push(cmd);
                op = op.apply(OpEvent::Responded(Ok(Response::Okay)));
            }
            OpStep::Do(OpAction::ReadBuf { .. }) => panic!("a write never fetches bytes"),
        }
    }
}

#[test]
fn write_of_nothing_succeeds_and_issues_nothing() {
    let op = WriteOp::new(BUF_ADDR, 0x500, Vec::new());
    assert!(matches!(op.current(), OpStep::Finished));
    let (chunks, commands, result) = drive_write(op);
    assert!(chunks.is_empty());
    assert!(commands.is_empty());
    assert_eq!(result, Ok(()));
}

#[test]
fn write_of_5000_bytes_goes_in_two_chunks() {
    let payload: Vec<u8> = (0..5000u32).map(|i| (i % 256) as u8).collect();
    let (chunks, commands, result) = drive_write(WriteOp::new(BUF_ADDR, 0x100, payload.clone()));
    assert_eq!(result, Ok(()));
    assert_eq!(
        commands,
        vec![
            Command::WriteBlock { offset: 0x100, length: 4096 },
            Command::WriteBlock { offset: 0x100 + 4096, length: 904 },
        ]
    );
    assert_eq!(chunks.len(), 2);
    assert_eq!(chunks[0], payload[..4096].to_vec());
    assert_eq!(chunks[1], payload[4096..].to_vec());
}

#[test]
fn write_aborts_on_a_response_other_than_okay() {
    let mut op = WriteOp::new(BUF_ADDR, 0, vec![1, 2, 3]);
    op = op.apply(OpEvent::BufWritten);
    let info = Response::XflashInfo(Xflash { manufacturer_id: 9, device_id: 8 });
    op = op.apply(OpEvent::Responded(Ok(info)));
    assert!(matches!(op.current(), OpStep::Finished));
    assert_eq!(op.finish(), Err(Error::BadResponse { response: info }));
}

#[test]
fn write_aborts_on_a_failed_exchange() {
    let mut op = WriteOp::new(BUF_ADDR, 0, vec![1, 2, 3]);
    op = op.apply(OpEvent::BufWritten);
    op = op.apply(OpEvent::Responded(Err(Error::FirmwareTimeout)));
    assert_eq!(op.finish(), Err(Error::FirmwareTimeout));
}
