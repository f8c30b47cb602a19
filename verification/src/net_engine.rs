//! Engine orchestration: role dispatch and the per-connection session state
//! machines. The caller owns the sockets; it feeds transport events in and
//! carries payload bytes out, so every decision in here is verified.
use vstd::prelude::*;
use crate::double_buffer::{DoubleBuffer, RawBuffer, CAPACITY};
use crate::generator::{Generator, PACKETS_TO_SEND, pattern_spec};
use crate::stats::{StatsCollector, Report, record_model, spec_report};
use crate::user_config::{AppMode, UserConfig};

verus! {

/// A failure that ends a session or the whole process.
#[derive(Clone, Copy, Debug, PartialEq, Eq)]
pub enum FatalError {
    /// The client could not reach the server: fatal, no report is produced.
    ConnectError,
    /// The server could not claim its port.
    BindError,
    /// The server could not listen on its claimed port.
    ListenError,
    /// A read on an established stream failed: ends that session only.
    ReadError,
    /// A write on an established stream failed: ends that session only.
    WriteError,
}

/// What one transport read returned.
#[derive(Clone, Copy, Debug, PartialEq, Eq)]
pub enum ReadOutcome {
    /// A successful read of this many bytes; zero means graceful peer close.
    Len(usize),
    /// The read failed.
    Failed,
}

/// Client control flow: connect, receive until peer close, report.
#[derive(Clone, Copy, Debug, PartialEq, Eq)]
pub enum ClientState {
    Connecting,
    Receiving,
    Finalizing,
    Done,
}

/// What the caller should do next with its transport.
#[derive(Clone, Copy, Debug, PartialEq, Eq)]
pub enum ClientAction {
    /// Issue the next read.
    ContinueReading,
    /// The peer closed; compute and emit the report.
    Finalize,
}

/// One client-side connection: receives a byte stream and accumulates
/// statistics until the peer closes or the stream fails.
#[derive(Clone, Copy, Debug, PartialEq, Eq)]
pub struct ClientSession {
    pub state: ClientState,
    pub stats: StatsCollector,
}

impl ClientSession {
    pub fn new() -> (s: ClientSession)
        ensures
            s.state == ClientState::Connecting,
            s.stats.is_zero(),
    {
        ClientSession { state: ClientState::Connecting, stats: StatsCollector::new() }
    }

    /// The connection attempt resolved. On failure the session ends with
    /// `ConnectError` and no report can ever be produced.
    pub fn on_connect(&mut self, success: bool) -> (r: Result<(), FatalError>)
        requires
            old(self).state == ClientState::Connecting,
        ensures
            final(self).stats == old(self).stats,
            (if success {
                r is Ok && final(self).state == ClientState::Receiving
            } else {
                r == Err::<(), FatalError>(FatalError::ConnectError)
                    && final(self).state == ClientState::Done
            }),
    {
        if success {
            self.state = ClientState::Receiving;
            Ok(())
        } else {
            self.state = ClientState::Done;
            Err(FatalError::ConnectError)
        }
    }

    /// One successful read arrived. A non-zero read is recorded before the
    /// next read is issued; a zero-length read means graceful peer close
    /// and moves the session to finalization.
    pub fn on_read(&mut self, read_len: usize) -> (a: ClientAction)
        requires
            old(self).state == ClientState::Receiving,
            old(self).stats.packet_count < u64::MAX,
            old(self).stats.total_bytes + read_len <= u64::MAX,
        ensures
            (if read_len == 0 {
                a == ClientAction::Finalize
                    && final(self).state == ClientState::Finalizing
                    && final(self).stats == old(self).stats
            } else {
                a == ClientAction::ContinueReading
                    && final(self).state == ClientState::Receiving
                    && final(self).stats.model() == record_model(
                    old(self).stats.model(),
                    read_len as int,
                )
            }),
    {
        if read_len == 0 {
            self.state = ClientState::Finalizing;
            ClientAction::Finalize
        } else {
            self.stats.record(read_len);
            ClientAction::ContinueReading
        }
    }

    /// A read failed: fatal to this session only, and no report comes out.
    pub fn on_read_error(&mut self) -> (e: FatalError)
        requires
            old(self).state == ClientState::Receiving,
        ensures
            e == FatalError::ReadError,
            final(self).state == ClientState::Done,
            final(self).stats == old(self).stats,
    {
        self.state = ClientState::Done;
        FatalError::ReadError
    }

    /// Compute the final report from the accumulated statistics and the
    /// wall-clock bounds; the session is over afterwards.
    pub fn finalize(&mut self, start_ms: u64, end_ms: u64) -> (r: Report)
        requires
            old(self).state == ClientState::Finalizing,
            start_ms <= end_ms,
        ensures
            final(self).state == ClientState::Done,
            final(self).stats == old(self).stats,
            r == spec_report(
                old(self).stats.packet_count as int,
                old(self).stats.total_bytes as int,
                old(self).stats.max_packet_size as int,
                start_ms as int,
                end_ms as int,
            ),
    {
        self.state = ClientState::Done;
        self.stats.finalize(start_ms, end_ms)
    }
}

/// The client receive loop over a whole trace of read outcomes, starting
/// from stats model `m`: `Some` of the final model on graceful close (the
/// first zero-length read), `None` when the stream fails first or the
/// trace ends without a close.
pub open spec fn client_loop_model(m: (int, int, int), reads: Seq<ReadOutcome>) -> Option<
    (int, int, int),
>
    decreases reads.len(),
{
    if reads.len() == 0 {
        None
    } else {
        match reads[0] {
            ReadOutcome::Failed => None,
            ReadOutcome::Len(n) => if n == 0 {
                Some(m)
            } else {
                client_loop_model(record_model(m, n as int), reads.drop_first())
            },
        }
    }
}

/// One whole client session as a function of its transport events: the
/// connection outcome and the trace of reads, with the wall clock sampled
/// at start and at close. Returns the report on graceful close, and
/// otherwise exactly one of: `ConnectError` when the connection failed,
/// `ReadError` when the stream failed before the peer closed. The bounds on
/// the trace keep the 64-bit counters within headroom.
pub fn client_session_run(
    connect_ok: bool,
    reads: &Vec<ReadOutcome>,
    start_ms: u64,
    end_ms: u64,
) -> (r: Result<Report, FatalError>)
    requires
        start_ms <= end_ms,
        reads@.len() < 0x8000_0000,
        forall|k: int|
            0 <= k < reads@.len() ==> ((#[trigger] reads@[k]) matches ReadOutcome::Len(n)
                ==> n < 0x1_0000_0000),
    ensures
        !connect_ok ==> r == Err::<Report, FatalError>(FatalError::ConnectError),
        connect_ok ==> (match client_loop_model((0int, 0int, 0int), reads@) {
            Some(m) => r == Ok::<Report, FatalError>(
                spec_report(m.0, m.1, m.2, start_ms as int, end_ms as int),
            ),
            None => r == Err::<Report, FatalError>(FatalError::ReadError),
        }),
{
    let mut session = ClientSession::new();
    match session.on_connect(connect_ok) {
        Err(e) => {
            return Err(e);
        },
        Ok(_) => {},
    }
    let n: usize = reads.len();
    let mut i: usize = 0;
    proof {
        assert(reads@.skip(0) =~= reads@);
    }
    while i < n
        invariant
            connect_ok,
            session.state == ClientState::Receiving,
            n == reads@.len(),
            n < 0x8000_0000,
            i <= n,
            forall|k: int|
                0 <= k < reads@.len() ==> ((#[trigger] reads@[k]) matches ReadOutcome::Len(ln)
                    ==> ln < 0x1_0000_0000),
            session.stats.packet_count <= i,
            session.stats.total_bytes <= i * 0x1_0000_0000,
            client_loop_model((0int, 0int, 0int), reads@) == client_loop_model(
                session.stats.model(),
                reads@.skip(i as int),
            ),
            start_ms <= end_ms,
        decreases n - i,
    {
        proof {
            assert(reads@.skip(i as int)[0] == reads@[i as int]);
        }
        let outcome = reads[i];
        match outcome {
            ReadOutcome::Failed => {
                let e = session.on_read_error();
                return Err(e);
            },
            ReadOutcome::Len(read_len) => {
                let a = session.on_read(read_len);
                match a {
                    ClientAction::Finalize => {
                        let rep = session.finalize(start_ms, end_ms);
                        return Ok(rep);
                    },
                    ClientAction::ContinueReading => {},
                }
                proof {
                    assert(reads@.skip(i as int).drop_first() =~= reads@.skip(i as int + 1));
                }
            },
        }
        i = i + 1;
    }
    // the trace ran out without a close: the stream failed
    Err(FatalError::ReadError)
}

/// One server-side connection: a generator and a double buffer of its own,
/// plus per-session statistics. The generator fills the write slot, the
/// swap publishes it, and the drained read slot goes out on the caller's
/// transport. With exactly two slots the generator can never run more than
/// one buffer ahead of the sender: backpressure is inherent.
pub struct ServerSession {
    pub double_buffer: DoubleBuffer,
    pub generator: Generator,
    pub stats: StatsCollector,
}

impl ServerSession {
    /// Between calls both slots are home and the buffer is well formed.
    pub open spec fn wf(&self) -> bool {
        &&& self.double_buffer.wf()
        &&& self.double_buffer.quiescent()
    }

    pub fn new(total_packets: u64) -> (s: ServerSession)
        ensures
            s.wf(),
            s.generator.next_seq == 1,
            s.generator.remaining == total_packets,
            s.stats.is_zero(),
    {
        ServerSession {
            double_buffer: DoubleBuffer::new(),
            generator: Generator::new(total_packets),
            stats: StatsCollector::new(),
        }
    }

    /// Produce the next outbound packet: fill the write slot with the
    /// pattern, swap, and drain the freshly readable slot. Returns `None`
    /// once the configured packet budget is spent. With the session
    /// quiescent between calls, no acquire or swap in here can contend.
    pub fn next_chunk(&mut self) -> (r: Option<Vec<u8>>)
        requires
            old(self).wf(),
            old(self).generator.next_seq < u64::MAX,
        ensures
            final(self).wf(),
            final(self).stats == old(self).stats,
            match r {
                Some(bytes) => {
                    &&& old(self).generator.remaining > 0
                    &&& bytes@ == Seq::new(
                        CAPACITY as nat,
                        |i: int| pattern_spec(old(self).generator.next_seq),
                    )
                    &&& final(self).generator.next_seq == old(self).generator.next_seq + 1
                    &&& final(self).generator.remaining == old(self).generator.remaining - 1
                    &&& final(self).double_buffer.spec_write_idx() == old(
                        self,
                    ).double_buffer.spec_read_idx()
                },
                None => {
                    &&& old(self).generator.remaining == 0
                    &&& *final(self) == *old(self)
                },
            },
    {
        if self.generator.remaining == 0 {
            return None;
        }
        let mut handle = match self.double_buffer.getForWrite() {
            Ok(h) => h,
            Err(_) => unreached(),
        };
        let _len: usize = self.generator.fill(&mut handle.slot);
        self.double_buffer.release(handle);
        match self.double_buffer.switch() {
            Ok(_) => {},
            Err(_) => unreached(),
        }
        let rhandle = match self.double_buffer.getForRead() {
            Ok(h) => h,
            Err(_) => unreached(),
        };
        let bytes = copy_valid_bytes(&rhandle.slot);
        self.double_buffer.release(rhandle);
        Some(bytes)
    }

    /// The caller reports the outcome of writing a drained chunk. Success
    /// is accounted in this session's statistics; a failed or partial
    /// write is fatal to this session only.
    pub fn on_write_result(&mut self, write_ok: bool, bytes_written: usize) -> (r: Result<
        (),
        FatalError,
    >)
        requires
            old(self).wf(),
            old(self).stats.packet_count < u64::MAX,
            old(self).stats.total_bytes + bytes_written <= u64::MAX,
        ensures
            final(self).wf(),
            final(self).double_buffer == old(self).double_buffer,
            final(self).generator == old(self).generator,
            (if write_ok {
                r is Ok && final(self).stats.model() == record_model(
                    old(self).stats.model(),
                    bytes_written as int,
                )
            } else {
                r == Err::<(), FatalError>(FatalError::WriteError)
                    && final(self).stats == old(self).stats
            }),
    {
        if write_ok {
            self.stats.record(bytes_written);
            Ok(())
        } else {
            Err(FatalError::WriteError)
        }
    }
}

/// Copy of a slot's valid bytes, in order.
fn copy_valid_bytes(slot: &RawBuffer) -> (v: Vec<u8>)
    requires
        slot.wf(),
    ensures
        v@ == slot.valid_bytes(),
{
    let mut v: Vec<u8> = Vec::new();
    let mut i: usize = 0;
    while i < slot.len
        invariant
            i <= slot.len,
            slot.wf(),
            v@.len() == i,
            forall|j: int| 0 <= j < i ==> v@[j] == slot.buffer@[j],
        decreases slot.len - i,
    {
        v.push(slot.buffer[i]);
        i = i + 1;
    }
    proof {
        assert(v@ =~= slot.valid_bytes());
    }
    v
}

/// Per-role session state created at engine start.
pub enum EngineSession {
    Client(ClientSession),
    Server(ServerSession),
}

/// Routes to the client or server control flow and owns the configuration.
pub struct NetEngine {
    pub config: UserConfig,
}

impl NetEngine {
    pub fn new(config: UserConfig) -> (e: NetEngine)
        ensures
            e.config == config,
    {
        NetEngine { config }
    }

    /// Role selection: the freshly initialized session for this engine's
    /// configured mode. The caller owns the transport and drives the
    /// session with its events.
    pub fn run(&self) -> (r: EngineSession)
        ensures
            match r {
                EngineSession::Client(c) => {
                    &&& self.config.appMode == AppMode::kClient
                    &&& c.state == ClientState::Connecting
                    &&& c.stats.is_zero()
                },
                EngineSession::Server(s) => {
                    &&& self.config.appMode == AppMode::kServer
                    &&& s.wf()
                    &&& s.generator.next_seq == 1
                    &&& s.generator.remaining == PACKETS_TO_SEND
                    &&& s.stats.is_zero()
                },
            },
    {
        match self.config.appMode {
            AppMode::kClient => EngineSession::Client(ClientSession::new()),
            AppMode::kServer => EngineSession::Server(ServerSession::new(PACKETS_TO_SEND)),
        }
    }
}

} // verus!
