use apex_kube_manager::stats::{ForwardStats, ProxyOutcome};

#[test]
fn fresh_stats_are_zero() {
    let s = ForwardStats::new();
    assert_eq!(s.snapshot(), (0, 0, 0, 0));
}

#[test]
fn open_and_close_move_active_and_total() {
    let mut s = ForwardStats::new();
    s.connection_opened();
    s.connection_opened();
    assert_eq!(s.snapshot(), (2, 2, 0, 0));
    s.connection_closed();
    assert_eq!(s.snapshot(), (1, 2, 0, 0));
}

#[test]
fn bytes_accumulate() {
    let mut s = ForwardStats::new();
    s.add_bytes_sent(10);
    s.add_bytes_sent(5);
    s.add_bytes_received(7);
    assert_eq!(s.snapshot(), (0, 0, 15, 7));
}

#[test]
fn bytes_saturate_at_the_largest_u64() {
    let mut s = ForwardStats::new();
    s.add_bytes_sent(u64::MAX - 1);
    s.add_bytes_sent(5);
    s.add_bytes_received(u64::MAX);
    s.add_bytes_received(1);
    assert_eq!(s.snapshot(), (0, 0, u64::MAX, u64::MAX));
}

#[test]
fn finished_connection_counts_both_directions_once() {
    let mut s = ForwardStats::new();
    s.connection_opened();
    s.connection_opened();
    s.connection_opened();
    s.connection_finished(ProxyOutcome::Copied { sent: 12, received: 40 });
    assert_eq!(s.snapshot(), (2, 3, 12, 40));
    s.connection_finished(ProxyOutcome::Copied { sent: 0, received: 30 });
    assert_eq!(s.snapshot(), (1, 3, 12, 70));
    s.connection_finished(ProxyOutcome::TunnelFailed);
    assert_eq!(s.snapshot(), (0, 3, 12, 70));
}

#[test]
fn failed_tunnel_counts_no_bytes() {
    let mut s = ForwardStats::new();
    s.connection_opened();
    s.connection_finished(ProxyOutcome::TunnelFailed);
    assert_eq!(s.snapshot(), (0, 1, 0, 0));
}

#[test]
fn n_connections_then_their_ends_conserve_accounting() {
    let n: u64 = 25;
    let mut s = ForwardStats::new();
    for _ in 0..n {
        s.connection_opened();
    }
    assert_eq!(s.snapshot().0, n);
    for i in 0..n {
        s.connection_finished(ProxyOutcome::Copied { sent: i, received: 2 * i });
    }
    let (active, total, sent, received) = s.snapshot();
    assert_eq!(active, 0);
    assert_eq!(total, n);
    assert_eq!(sent, (0..n).sum::<u64>());
    assert_eq!(received, 2 * (0..n).sum::<u64>());
}

#[test]
fn interleaved_connections_conserve_accounting() {
    let mut s = ForwardStats::new();
    s.connection_opened();
    s.connection_opened();
    s.connection_finished(ProxyOutcome::TunnelFailed);
    s.connection_opened();
    s.connection_finished(ProxyOutcome::Copied { sent: 0, received: 4 });
    s.connection_finished(ProxyOutcome::Copied { sent: 9, received: 0 });
    assert_eq!(s.snapshot(), (0, 3, 9, 4));
}
