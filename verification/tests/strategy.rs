use congestion_control::algorithm::CongestionControlAlgorithm;
use congestion_control::algorithm::UnknownAlgorithm;
use congestion_control::congestion::Congestion;
use congestion_control::test_sender::TestSender;
use congestion_control::types::Acked;
use congestion_control::types::RttStats;
use congestion_control::types::Sent;
use congestion_control::types::INITIAL_WINDOW;
use congestion_control::types::MINIMUM_WINDOW;

fn test_sender() -> TestSender {
    TestSender::new(CongestionControlAlgorithm::Disabled)
}

fn reno_sender() -> TestSender {
    TestSender::new(CongestionControlAlgorithm::Reno)
}

fn rtt_stats() -> RttStats {
    RttStats {
        latest_rtt: 0,
        smoothed_rtt: 0,
        rttvar: 0,
        min_rtt: 0,
    }
}

#[test]
fn none_init() {
    let r = Congestion::new(CongestionControlAlgorithm::Disabled);

    assert_eq!(r.cwnd(), usize::MAX);
    assert_eq!(r.bytes_in_flight(), 0);
}

#[test]
fn none_no_window_reduction_on_loss() {
    let mut sender = test_sender();
    let size = sender.max_datagram_size;

    sender.send_packet(size);
    sender.lose_n_packets(1, size, None);

    assert_eq!(sender.congestion_window(), usize::MAX);
}

#[test]
fn none_window_unchanged_after_ack() {
    let mut sender = test_sender();
    let size = sender.max_datagram_size;

    for _ in 0..5 {
        sender.send_packet(size);
    }

    let cwnd_before = sender.congestion_window();
    sender.ack_n_packets(3, size);

    assert_eq!(sender.congestion_window(), cwnd_before);
}

#[test]
fn none_from_string() {
    let algo: CongestionControlAlgorithm = "none".parse().unwrap();
    assert_eq!(algo, CongestionControlAlgorithm::Disabled);
}

#[test]
fn reno_from_string() {
    let algo: CongestionControlAlgorithm = "reno".parse().unwrap();
    assert_eq!(algo, CongestionControlAlgorithm::Reno);
}

#[test]
fn unknown_selector_is_rejected() {
    let res = "bbr17".parse::<CongestionControlAlgorithm>();
    assert_eq!(res, Err(UnknownAlgorithm));

    let res = "".parse::<CongestionControlAlgorithm>();
    assert_eq!(res, Err(UnknownAlgorithm));
}

#[test]
fn reno_init() {
    let r = Congestion::new(CongestionControlAlgorithm::Reno);

    assert_eq!(r.cwnd(), INITIAL_WINDOW);
    assert_eq!(r.cwnd(), 13500);
    assert_eq!(r.bytes_in_flight(), 0);
}

#[test]
fn none_ack_batch_is_drained() {
    let mut r = Congestion::new(CongestionControlAlgorithm::Disabled);
    let mut batch = vec![
        Acked {
            pkt_num: 0,
            time_sent: 1,
            size: 1200,
        },
        Acked {
            pkt_num: 1,
            time_sent: 2,
            size: 1200,
        },
    ];

    r.on_packets_acked(2400, &mut batch, 10, &rtt_stats());

    assert!(batch.is_empty());
    assert_eq!(r.cwnd(), usize::MAX);
}

#[test]
fn reno_ack_batch_is_drained() {
    let mut r = Congestion::new(CongestionControlAlgorithm::Reno);
    let mut batch = vec![Acked {
        pkt_num: 0,
        time_sent: 1,
        size: 1350,
    }];

    r.on_packets_acked(1350, &mut batch, 10, &rtt_stats());

    assert!(batch.is_empty());
    assert_eq!(r.cwnd(), 13500 + 1350);
}

#[test]
fn empty_ack_batch_changes_nothing() {
    let mut r = Congestion::new(CongestionControlAlgorithm::Reno);
    let mut batch: Vec<Acked> = Vec::new();

    r.on_packets_acked(0, &mut batch, 0, &rtt_stats());

    assert!(batch.is_empty());
    assert_eq!(r.cwnd(), INITIAL_WINDOW);
}

#[test]
fn reno_growth_saturates_at_max() {
    let mut r = Congestion::new(CongestionControlAlgorithm::Reno);
    r.congestion_window = usize::MAX - 100;
    let mut batch = vec![Acked {
        pkt_num: 0,
        time_sent: 0,
        size: 1350,
    }];

    r.on_packets_acked(1350, &mut batch, 0, &rtt_stats());

    assert_eq!(r.cwnd(), usize::MAX);
}

#[test]
fn reno_no_growth_at_or_above_threshold() {
    let mut r = Congestion::new(CongestionControlAlgorithm::Reno);
    r.ssthresh = r.congestion_window;
    let mut batch = vec![Acked {
        pkt_num: 0,
        time_sent: 0,
        size: 1350,
    }];

    r.on_packets_acked(1350, &mut batch, 0, &rtt_stats());

    assert_eq!(r.cwnd(), INITIAL_WINDOW);
}

#[test]
fn reno_loss_halves_window() {
    let mut sender = reno_sender();
    let size = sender.max_datagram_size;

    for _ in 0..5 {
        sender.send_packet(size);
    }
    sender.lose_n_packets(1, size, None);

    assert_eq!(sender.congestion_window(), INITIAL_WINDOW / 2);
}

#[test]
fn reno_loss_saturates_at_minimum_window() {
    let mut sender = reno_sender();
    let size = sender.max_datagram_size;

    for _ in 0..5 {
        sender.send_packet(size);
    }
    for _ in 0..4 {
        sender.lose_n_packets(1, size, None);
    }

    assert_eq!(sender.congestion_window(), MINIMUM_WINDOW);
    assert_eq!(sender.congestion_window(), 2700);
}

#[test]
fn none_rollback_always_reports_success() {
    let mut r = Congestion::new(CongestionControlAlgorithm::Disabled);

    assert!(r.rollback());

    r.checkpoint();
    assert!(r.rollback());
    assert_eq!(r.cwnd(), usize::MAX);
}

#[test]
fn reno_rollback_without_checkpoint_reports_nothing() {
    let mut r = Congestion::new(CongestionControlAlgorithm::Reno);

    assert!(!r.rollback());
    assert_eq!(r.cwnd(), INITIAL_WINDOW);
}

#[test]
fn reno_checkpoint_rollback_is_noop_pair() {
    let mut r = Congestion::new(CongestionControlAlgorithm::Reno);
    let cwnd_before = r.cwnd();

    r.checkpoint();
    let reverted = r.rollback();

    assert!(!reverted);
    assert_eq!(r.cwnd(), cwnd_before);
}

#[test]
fn reno_rollback_undoes_spurious_loss() {
    let mut sender = reno_sender();
    let size = sender.max_datagram_size;

    for _ in 0..5 {
        sender.send_packet(size);
    }
    let cwnd_before = sender.congestion_window();

    sender.congestion.checkpoint();
    sender.lose_n_packets(1, size, None);
    assert_eq!(sender.congestion_window(), cwnd_before / 2);

    let reverted = sender.congestion.rollback();

    assert!(reverted);
    assert_eq!(sender.congestion_window(), cwnd_before);
}

#[test]
fn send_and_ack_update_flight_accounting() {
    let mut sender = test_sender();
    let size = sender.max_datagram_size;

    for _ in 0..5 {
        sender.send_packet(size);
    }
    assert_eq!(sender.bytes_in_flight(), 5 * size);

    sender.ack_n_packets(3, size);
    assert_eq!(sender.bytes_in_flight(), 2 * size);

    sender.lose_n_packets(2, size, Some(42));
    assert_eq!(sender.bytes_in_flight(), 0);
}

#[test]
fn state_str_names_the_phase() {
    let none = Congestion::new(CongestionControlAlgorithm::Disabled);
    assert_eq!(none.state_str(0), "none");

    let mut reno = Congestion::new(CongestionControlAlgorithm::Reno);
    assert_eq!(reno.state_str(0), "slow_start");

    let largest = Sent {
        pkt_num: 0,
        time_sent: 0,
        size: 1350,
        ack_eliciting: true,
        in_flight: true,
    };
    reno.congestion_event(1350, 1350, &largest, 0);
    assert_eq!(reno.state_str(0), "congestion_avoidance");
}

#[test]
fn debug_fmt_names_the_variant() {
    let none = Congestion::new(CongestionControlAlgorithm::Disabled);
    assert_eq!(none.debug_fmt(0), "none");

    let reno = Congestion::new(CongestionControlAlgorithm::Reno);
    assert_eq!(reno.debug_fmt(0), "reno");
}
