use netperf::generator::{pattern, Generator, PACKETS_TO_SEND};
use netperf::double_buffer::RawBuffer;
use netperf::net_engine::{
    client_session_run, ClientAction, ClientSession, ClientState, EngineSession, FatalError,
    NetEngine, ReadOutcome, ServerSession,
};
use netperf::user_config::{AppMode, Lay4Mode, UserConfig};

#[test]
fn pattern_is_the_ascii_digit_of_the_sequence() {
    assert_eq!(pattern(1), b'1');
    assert_eq!(pattern(9), b'9');
    assert_eq!(pattern(10), b'0');
    assert_eq!(pattern(12345), b'5');
    assert_eq!(pattern(100_000), b'0');
}

#[test]
fn generator_fills_whole_slot_with_pattern() {
    let mut g = Generator::new(5);
    let mut slot = RawBuffer::default();
    let len = g.fill(&mut slot);
    assert_eq!(len, 4096);
    assert_eq!(slot.len, 4096);
    assert!(slot.buffer.iter().all(|&b| b == b'1'));
    assert_eq!(g.next_seq, 2);
    assert_eq!(g.remaining, 4);
}

#[test]
fn client_graceful_close_after_three_chunks() {
    // three reads of 4096 bytes, then a zero-length read: graceful close
    let reads = vec![
        ReadOutcome::Len(4096),
        ReadOutcome::Len(4096),
        ReadOutcome::Len(4096),
        ReadOutcome::Len(0),
    ];
    let report = client_session_run(true, &reads, 0, 10_000)
        .expect("a closed stream yields a report");
    assert_eq!(report.packet_count, 3);
    assert_eq!(report.total_bytes, 12_288);
    assert_eq!(report.max_packet_size, 4096);
    assert_eq!(report.elapsed_ms, 10_000);
    let bw = report.bandwidth.expect("ten seconds");
    assert_eq!(bw.bps, 1228);
}

#[test]
fn client_connection_refused_yields_no_report() {
    let reads: Vec<ReadOutcome> = Vec::new();
    let r = client_session_run(false, &reads, 0, 0);
    assert_eq!(r, Err(FatalError::ConnectError));
}

#[test]
fn client_read_error_is_fatal_to_the_session() {
    let reads = vec![ReadOutcome::Len(4096), ReadOutcome::Failed];
    let r = client_session_run(true, &reads, 0, 5_000);
    assert_eq!(r, Err(FatalError::ReadError));
}

#[test]
fn client_stream_that_never_closes_counts_as_read_error() {
    let reads = vec![ReadOutcome::Len(4096)];
    let r = client_session_run(true, &reads, 0, 5_000);
    assert_eq!(r, Err(FatalError::ReadError));
}

#[test]
fn client_session_steps_through_its_states() {
    let mut c = ClientSession::new();
    assert_eq!(c.state, ClientState::Connecting);
    c.on_connect(true).expect("connected");
    assert_eq!(c.state, ClientState::Receiving);
    assert_eq!(c.on_read(1000), ClientAction::ContinueReading);
    assert_eq!(c.stats.packet_count, 1);
    assert_eq!(c.on_read(0), ClientAction::Finalize);
    assert_eq!(c.state, ClientState::Finalizing);
    let report = c.finalize(0, 2_000);
    assert_eq!(c.state, ClientState::Done);
    assert_eq!(report.packet_count, 1);
    assert_eq!(report.total_bytes, 1000);
}

#[test]
fn client_failed_connect_marks_session_done() {
    let mut c = ClientSession::new();
    let r = c.on_connect(false);
    assert_eq!(r, Err(FatalError::ConnectError));
    assert_eq!(c.state, ClientState::Done);
    assert_eq!(c.stats.packet_count, 0);
}

#[test]
fn server_chunks_follow_the_pattern_then_stop() {
    let mut s = ServerSession::new(3);
    let c1 = s.next_chunk().expect("first chunk");
    assert_eq!(c1.len(), 4096);
    assert!(c1.iter().all(|&b| b == b'1'));
    let c2 = s.next_chunk().expect("second chunk");
    assert!(c2.iter().all(|&b| b == b'2'));
    let c3 = s.next_chunk().expect("third chunk");
    assert!(c3.iter().all(|&b| b == b'3'));
    assert!(s.next_chunk().is_none());
    assert!(s.next_chunk().is_none());
}

#[test]
fn server_write_results_accumulate_stats() {
    let mut s = ServerSession::new(10);
    let chunk = s.next_chunk().expect("chunk");
    s.on_write_result(true, chunk.len()).expect("write accounted");
    assert_eq!(s.stats.packet_count, 1);
    assert_eq!(s.stats.total_bytes, 4096);
    assert_eq!(s.stats.max_packet_size, 4096);
}

#[test]
fn concurrent_sessions_keep_independent_stats() {
    // two server-side connections; a forced write failure on one must not
    // disturb the other's in-progress counters
    let mut a = ServerSession::new(10);
    let mut b = ServerSession::new(10);
    let ca = a.next_chunk().expect("chunk for a");
    a.on_write_result(true, ca.len()).expect("a first write");
    let cb = b.next_chunk().expect("chunk for b");
    b.on_write_result(true, cb.len()).expect("b first write");
    let cb2 = b.next_chunk().expect("second chunk for b");
    b.on_write_result(true, cb2.len()).expect("b second write");

    let failed = a.on_write_result(false, 0);
    assert_eq!(failed, Err(FatalError::WriteError));
    // the failed session keeps its counters as they were
    assert_eq!(a.stats.packet_count, 1);
    assert_eq!(a.stats.total_bytes, 4096);
    // the other session is untouched and keeps going
    assert_eq!(b.stats.packet_count, 2);
    assert_eq!(b.stats.total_bytes, 8192);
    let cb3 = b.next_chunk().expect("b continues");
    b.on_write_result(true, cb3.len()).expect("b third write");
    assert_eq!(b.stats.packet_count, 3);
}

#[test]
fn engine_run_routes_by_configured_mode() {
    let mut config = UserConfig::default();
    config.appMode = AppMode::kClient;
    let engine = NetEngine::new(config);
    match engine.run() {
        EngineSession::Client(c) => assert_eq!(c.state, ClientState::Connecting),
        EngineSession::Server(_) => panic!("client config must start a client session"),
    }

    let engine = NetEngine::new(UserConfig::default());
    match engine.run() {
        EngineSession::Server(s) => {
            assert_eq!(s.generator.next_seq, 1);
            assert_eq!(s.generator.remaining, PACKETS_TO_SEND);
            assert_eq!(s.stats.packet_count, 0);
        }
        EngineSession::Client(_) => panic!("default config is a server"),
    }
}

#[test]
fn default_config_matches_the_stock_values() {
    let c = UserConfig::default();
    assert_eq!(c.appMode, AppMode::kServer);
    assert_eq!(c.lay4Mode, Lay4Mode::kTcp);
    assert_eq!(c.packetSize, 65535);
    assert_eq!(c.testTimeSeconds, 0);
    assert_eq!(c.port, 9090);
    assert!(c.ip.is_empty());
}
