//! Chunking of arbitrary-length flash reads and writes onto the fixed-size
//! transfer buffer.
//!
//! Like the doorbell handshake, each operation is a state machine over plain
//! values: it names the next piece of outside work (an exchange to run, the
//! transfer buffer to read or fill), and consumes what came of it. A read
//! issues `ReadBlock` commands of at most `BUF_SIZE` bytes and accumulates
//! the bytes fetched from the buffer after each `Okay`; a write stages each
//! chunk in the buffer and then issues `WriteBlock`, requiring `Okay`. A
//! zero-length read and an empty write complete at once, with no exchange.
//! Any response other than `Okay` aborts the whole operation.

use vstd::prelude::*;

use crate::codec::{Command, Error, Response};
use crate::doorbell::DEFAULT_TIMEOUT_MS;
use crate::layout::BUF_SIZE;

verus! {

/// One piece of outside work a transfer operation needs done.
#[derive(Debug)]
pub enum OpAction {
    /// Run one full doorbell exchange for `cmd` under `timeout_ms`.
    Exchange { cmd: Command, timeout_ms: u64 },
    /// Read `len` bytes out of the transfer buffer.
    ReadBuf { addr: u32, len: u32 },
    /// Stage these bytes in the transfer buffer.
    WriteBuf { addr: u32, data: Vec<u8> },
}

/// What the driver observed while doing the requested work.
#[derive(Debug)]
pub enum OpEvent {
    /// The verdict of the exchange.
    Responded(Result<Response, Error>),
    /// The bytes read out of the transfer buffer.
    BufRead(Vec<u8>),
    /// The bytes were staged.
    BufWritten,
}

/// What the operation asks for next: work to do, or nothing more.
#[derive(Debug)]
pub enum OpStep {
    Do(OpAction),
    Finished,
}

/// Where a read operation stands.
#[derive(Clone, Copy, Debug, PartialEq, Eq, Structural)]
pub enum ReadPhase {
    /// Issue `ReadBlock` for the next chunk.
    Issue,
    /// The chunk is staged in the buffer; fetch it.
    Fetch,
    Complete,
}

/// A `read_data(offset, length)` operation split into buffer-sized chunks.
pub struct ReadOp {
    /// Base of the transfer buffer.
    pub buf_addr: u32,
    /// Flash offset of the next chunk.
    pub offset: u32,
    /// Bytes still to request.
    pub remaining: u32,
    /// Bytes accumulated so far.
    pub out: Vec<u8>,
    /// Why the operation aborted, if it did.
    pub failed: Option<Error>,
    pub phase: ReadPhase,
}

impl ReadOp {
    pub open spec fn wf(self) -> bool {
        &&& self.offset + self.remaining <= u32::MAX
        &&& (self.phase is Complete <==> (self.remaining == 0 || self.failed is Some))
        &&& (self.failed is Some ==> self.phase is Complete)
    }

    /// Length of the next chunk: what remains, capped at the buffer size.
    pub open spec fn spec_chunk(self) -> u32 {
        if self.remaining < BUF_SIZE {
            self.remaining
        } else {
            BUF_SIZE
        }
    }

    /// Which observation the current phase is waiting for.
    pub open spec fn wants(self, ev: OpEvent) -> bool {
        match self.phase {
            ReadPhase::Issue => ev is Responded,
            ReadPhase::Fetch => ev is BufRead,
            ReadPhase::Complete => false,
        }
    }

    /// Begin a read of `length` bytes at `offset`. A zero-length read is
    /// complete from the start: no exchange is ever issued for it, and its
    /// result is empty.
    pub fn new(buf_addr: u32, offset: u32, length: u32) -> (r: ReadOp)
        requires
            offset + length <= u32::MAX,
        ensures
            r.wf(),
            r.buf_addr == buf_addr,
            r.offset == offset,
            r.remaining == length,
            r.out@ == Seq::<u8>::empty(),
            r.failed is None,
            length == 0 ==> r.phase is Complete,
            length != 0 ==> r.phase is Issue,
    {
        let phase = if length == 0 {
            ReadPhase::Complete
        } else {
            ReadPhase::Issue
        };
        ReadOp { buf_addr, offset, remaining: length, out: Vec::new(), failed: None, phase }
    }

    /// The next piece of work, or `Finished` once complete.
    pub fn current(&self) -> (r: OpStep)
        requires
            self.wf(),
        ensures
            self.phase is Issue ==> (r matches OpStep::Do(a) && a == (OpAction::Exchange {
                cmd: Command::ReadBlock { offset: self.offset, length: self.spec_chunk() },
                timeout_ms: DEFAULT_TIMEOUT_MS,
            })),
            self.phase is Fetch ==> (r matches OpStep::Do(a) && a == (OpAction::ReadBuf {
                addr: self.buf_addr,
                len: self.spec_chunk(),
            })),
            self.phase is Complete ==> r is Finished,
    {
        let chunk = if self.remaining < BUF_SIZE {
            self.remaining
        } else {
            BUF_SIZE
        };
        match self.phase {
            ReadPhase::Issue => OpStep::Do(
                OpAction::Exchange {
                    cmd: Command::ReadBlock { offset: self.offset, length: chunk },
                    timeout_ms: DEFAULT_TIMEOUT_MS,
                },
            ),
            ReadPhase::Fetch => OpStep::Do(OpAction::ReadBuf { addr: self.buf_addr, len: chunk }),
            ReadPhase::Complete => OpStep::Finished,
        }
    }

    /// Consume the observation of the work `current` asked for. Only an
    /// `Okay` response lets the chunk proceed; any other verdict aborts the
    /// whole operation. After a fetch the chunk's bytes are appended and the
    /// window advances; the operation completes when nothing remains.
    pub fn apply(self, ev: OpEvent) -> (r: ReadOp)
        requires
            self.wf(),
            self.wants(ev),
        ensures
            r.wf(),
            r.buf_addr == self.buf_addr,
            self.phase is Issue ==> (ev matches OpEvent::Responded(res) ==> {
                match res {
                    Ok(Response::Okay) => r == (ReadOp { phase: ReadPhase::Fetch, ..self }),
                    Ok(other) => r == (ReadOp {
                        phase: ReadPhase::Complete,
                        failed: Some(Error::BadResponse { response: other }),
                        ..self
                    }),
                    Err(e) => r == (ReadOp {
                        phase: ReadPhase::Complete,
                        failed: Some(e),
                        ..self
                    }),
                }
            }),
            self.phase is Fetch ==> (ev matches OpEvent::BufRead(values) ==> {
                &&& r.out@ == self.out@ + values@
                &&& r.offset == self.offset + self.spec_chunk()
                &&& r.remaining == self.remaining - self.spec_chunk()
                &&& r.failed is None
                &&& (r.remaining == 0 <==> r.phase is Complete)
                &&& (r.remaining != 0 <==> r.phase is Issue)
            }),
    {
        let ReadOp { buf_addr, offset, remaining, out, failed, phase } = self;
        let chunk = if remaining < BUF_SIZE {
            remaining
        } else {
            BUF_SIZE
        };
        match phase {
            ReadPhase::Issue => {
                match ev {
                    OpEvent::Responded(res) => {
                        match res {
                            Ok(Response::Okay) => ReadOp {
                                buf_addr,
                                offset,
                                remaining,
                                out,
                                failed,
                                phase: ReadPhase::Fetch,
                            },
                            Ok(other) => ReadOp {
                                buf_addr,
                                offset,
                                remaining,
                                out,
                                failed: Some(Error::BadResponse { response: other }),
                                phase: ReadPhase::Complete,
                            },
                            Err(e) => ReadOp {
                                buf_addr,
                                offset,
                                remaining,
                                out,
                                failed: Some(e),
                                phase: ReadPhase::Complete,
                            },
                        }
                    },
                    _ => vstd::pervasive::unreached(),
                }
            },
            ReadPhase::Fetch => {
                match ev {
                    OpEvent::BufRead(values) => {
                        let mut out = out;
                        let mut values = values;
                        out.append(&mut values);
                        let remaining = remaining - chunk;
                        let phase = if remaining == 0 {
                            ReadPhase::Complete
                        } else {
                            ReadPhase::Issue
                        };
                        ReadOp { buf_addr, offset: offset + chunk, remaining, out, failed, phase }
                    },
                    _ => vstd::pervasive::unreached(),
                }
            },
            ReadPhase::Complete => vstd::pervasive::unreached(),
        }
    }

    /// The accumulated bytes of a completed read, or why it aborted.
    pub fn finish(self) -> (r: Result<Vec<u8>, Error>)
        requires
            self.wf(),
            self.phase is Complete,
        ensures
            self.failed matches Some(e) ==> r == Err::<Vec<u8>, Error>(e),
            self.failed is None ==> (r matches Ok(v) && v@ == self.out@),
    {
        match self.failed {
            Some(e) => Err(e),
            None => Ok(self.out),
        }
    }
}

/// Where a write operation stands.
#[derive(Clone, Copy, Debug, PartialEq, Eq, Structural)]
pub enum WritePhase {
    /// Stage the next chunk in the transfer buffer.
    Stage,
    /// The chunk is staged; issue `WriteBlock` for it.
    Issue,
    Complete,
}

/// A `write_data(offset, values)` operation split into buffer-sized chunks.
pub struct WriteOp {
    /// Base of the transfer buffer.
    pub buf_addr: u32,
    /// Flash offset of the next chunk.
    pub offset: u32,
    /// The whole payload.
    pub data: Vec<u8>,
    /// How much of the payload is already written.
    pub pos: usize,
    /// Why the operation aborted, if it did.
    pub failed: Option<Error>,
    pub phase: WritePhase,
}

impl WriteOp {
    pub open spec fn wf(self) -> bool {
        &&& self.pos <= self.data@.len()
        &&& self.offset + self.data@.len() - self.pos <= u32::MAX
        &&& (self.phase is Complete <==> (self.pos == self.data@.len() || self.failed is Some))
        &&& (self.failed is Some ==> self.phase is Complete)
    }

    /// Length of the next chunk: what remains of the payload, capped at the
    /// buffer size.
    pub open spec fn spec_chunk(self) -> int {
        if self.data@.len() - self.pos < BUF_SIZE {
            self.data@.len() - self.pos
        } else {
            BUF_SIZE as int
        }
    }

    /// Which observation the current phase is waiting for.
    pub open spec fn wants(self, ev: OpEvent) -> bool {
        match self.phase {
            WritePhase::Stage => ev is BufWritten,
            WritePhase::Issue => ev is Responded,
            WritePhase::Complete => false,
        }
    }

    /// Begin a write of `data` at `offset`. An empty payload is complete
    /// from the start: no exchange is ever issued for it, and it succeeds.
    pub fn new(buf_addr: u32, offset: u32, data: Vec<u8>) -> (r: WriteOp)
        requires
            offset + data@.len() <= u32::MAX,
        ensures
            r.wf(),
            r.buf_addr == buf_addr,
            r.offset == offset,
            r.data@ == data@,
            r.pos == 0,
            r.failed is None,
            data@.len() == 0 ==> r.phase is Complete,
            data@.len() != 0 ==> r.phase is Stage,
    {
        let phase = if data.len() == 0 {
            WritePhase::Complete
        } else {
            WritePhase::Stage
        };
        WriteOp { buf_addr, offset, data, pos: 0, failed: None, phase }
    }

    /// The next piece of work, or `Finished` once complete.
    pub fn current(&self) -> (r: OpStep)
        requires
            self.wf(),
        ensures
            self.phase is Stage ==> (r matches OpStep::Do(a) && a matches OpAction::WriteBuf {
                addr,
                data,
            } && addr == self.buf_addr && data@ == self.data@.subrange(
                self.pos as int,
                self.pos + self.spec_chunk(),
            )),
            self.phase is Issue ==> (r matches OpStep::Do(a) && a == (OpAction::Exchange {
                cmd: Command::WriteBlock {
                    offset: self.offset,
                    length: self.spec_chunk() as u32,
                },
                timeout_ms: DEFAULT_TIMEOUT_MS,
            })),
            self.phase is Complete ==> r is Finished,
    {
        let rest = self.data.len() - self.pos;
        let chunk: usize = if rest < BUF_SIZE as usize {
            rest
        } else {
            BUF_SIZE as usize
        };
        match self.phase {
            WritePhase::Stage => OpStep::Do(
                OpAction::WriteBuf {
                    addr: self.buf_addr,
                    data: copy_range(&self.data, self.pos, self.pos + chunk),
                },
            ),
            WritePhase::Issue => OpStep::Do(
                OpAction::Exchange {
                    cmd: Command::WriteBlock { offset: self.offset, length: chunk as u32 },
                    timeout_ms: DEFAULT_TIMEOUT_MS,
                },
            ),
            WritePhase::Complete => OpStep::Finished,
        }
    }

    /// Consume the observation of the work `current` asked for. Once a chunk
    /// is staged the command is issued; only an `Okay` response advances the
    /// window, and any other verdict aborts the whole operation. The
    /// operation completes when the whole payload is written.
    pub fn apply(self, ev: OpEvent) -> (r: WriteOp)
        requires
            self.wf(),
            self.wants(ev),
        ensures
            r.wf(),
            r.buf_addr == self.buf_addr,
            self.phase is Stage ==> r == (WriteOp { phase: WritePhase::Issue, ..self }),
            self.phase is Issue ==> (ev matches OpEvent::Responded(res) ==> {
                match res {
                    Ok(Response::Okay) => {
                        &&& r.data@ == self.data@
                        &&& r.pos == self.pos + self.spec_chunk()
                        &&& r.offset == self.offset + self.spec_chunk()
                        &&& r.failed is None
                        &&& (r.pos == r.data@.len() <==> r.phase is Complete)
                        &&& (r.pos != r.data@.len() <==> r.phase is Stage)
                    },
                    Ok(other) => r == (WriteOp {
                        phase: WritePhase::Complete,
                        failed: Some(Error::BadResponse { response: other }),
                        ..self
                    }),
                    Err(e) => r == (WriteOp {
                        phase: WritePhase::Complete,
                        failed: Some(e),
                        ..self
                    }),
                }
            }),
    {
        let WriteOp { buf_addr, offset, data, pos, failed, phase } = self;
        let rest = data.len() - pos;
        let chunk: usize = if rest < BUF_SIZE as usize {
            rest
        } else {
            BUF_SIZE as usize
        };
        match phase {
            WritePhase::Stage => {
                match ev {
                    OpEvent::BufWritten => WriteOp {
                        buf_addr,
                        offset,
                        data,
                        pos,
                        failed,
                        phase: WritePhase::Issue,
                    },
                    _ => vstd::pervasive::unreached(),
                }
            },
            WritePhase::Issue => {
                match ev {
                    OpEvent::Responded(res) => {
                        match res {
                            Ok(Response::Okay) => {
                                let pos = pos + chunk;
                                let phase = if pos == data.len() {
                                    WritePhase::Complete
                                } else {
                                    WritePhase::Stage
                                };
                                WriteOp {
                                    buf_addr,
                                    offset: offset + chunk as u32,
                                    data,
                                    pos,
                                    failed,
                                    phase,
                                }
                            },
                            Ok(other) => WriteOp {
                                buf_addr,
                                offset,
                                data,
                                pos,
                                failed: Some(Error::BadResponse { response: other }),
                                phase: WritePhase::Complete,
                            },
                            Err(e) => WriteOp {
                                buf_addr,
                                offset,
                                data,
                                pos,
                                failed: Some(e),
                                phase: WritePhase::Complete,
                            },
                        }
                    },
                    _ => vstd::pervasive::unreached(),
                }
            },
            WritePhase::Complete => vstd::pervasive::unreached(),
        }
    }

    /// Success of a completed write, or why it aborted.
    pub fn finish(self) -> (r: Result<(), Error>)
        requires
            self.wf(),
            self.phase is Complete,
        ensures
            self.failed matches Some(e) ==> r == Err::<(), Error>(e),
            self.failed is None ==> r == Ok::<(), Error>(()),
    {
        match self.failed {
            Some(e) => Err(e),
            None => Ok(()),
        }
    }
}

/// Copy `v[from..to]` into a fresh vector.
fn copy_range(v: &Vec<u8>, from: usize, to: usize) -> (r: Vec<u8>)
    requires
        from <= to <= v@.len(),
    ensures
        r@ == v@.subrange(from as int, to as int),
{
    let mut r: Vec<u8> = Vec::new();
    let mut i: usize = from;
    while i < to
        invariant
            from <= i <= to <= v@.len(),
            r@ == v@.subrange(from as int, i as int),
        decreases to - i,
    {
        let b = v[i];
        r.push(b);
        proof {
            assert(v@.subrange(from as int, i as int).push(v@[i as int]) =~= v@.subrange(
                from as int,
                i + 1 as int,
            ));
        }
        i = i + 1;
    }
    r
}

} // verus!
