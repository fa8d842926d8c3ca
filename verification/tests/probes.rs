use kindlebridge::link::{Command, Header};
use kindlebridge::probe::{byte_count, test_payload};
use kindlebridge::tcp_probe;
use kindlebridge::tcp_probe::{ProbeAction, ProbeClientError, ProbeEvent, TcpProbe};
use kindlebridge::usb_bench;
use kindlebridge::usb_bench::{
    BenchAction, BenchEvent, ProbeError, ProbeMode, Selection, UsbBench, Written,
};

fn texts(arguments: &[&str]) -> Vec<String> {
    arguments.iter().map(|text| text.to_string()).collect()
}

fn header(command: Command, sequence: u32) -> Header {
    Header {
        command,
        stream_id: 0,
        sequence,
        end_stream: false,
    }
}

#[test]
fn parses_bounded_probe_arguments() {
    let arguments = texts(&["127.0.0.1:7788", "--payload-size", "4096", "--rounds", "10"]);
    let parsed = tcp_probe::parse_arguments(&arguments, true).unwrap();
    assert_eq!(parsed.address, "127.0.0.1:7788");
    assert_eq!(parsed.payload_size, 4096);
    assert_eq!(parsed.rounds, 10);
}

#[test]
fn rejects_unbounded_work() {
    let arguments = texts(&["127.0.0.1:7788", "--rounds", "100001"]);
    assert!(matches!(
        tcp_probe::parse_arguments(&arguments, true),
        Err(ProbeClientError::InvalidRounds(100_001))
    ));
}

#[test]
fn each_odd_probe_argument_is_told() {
    let refuse = |arguments: &[&str], is_address| {
        tcp_probe::parse_arguments(&texts(arguments), is_address)
            .unwrap_err()
            .to_text()
    };
    assert_eq!(
        refuse(&[], true),
        "usage: kindlebridge-tcp-probe IP:PORT [--payload-size BYTES] [--rounds N]"
    );
    assert_eq!(
        refuse(&["kindle"], false),
        "address must be an IP address and port"
    );
    assert_eq!(
        refuse(&["1.2.3.4:5", "--rounds"], true),
        "--rounds requires a value"
    );
    assert_eq!(
        refuse(&["1.2.3.4:5", "--payload-size", "many"], true),
        "--payload-size must be an integer"
    );
    assert_eq!(
        refuse(&["1.2.3.4:5", "--payload-size", "0"], true),
        "payload size 0 is outside 1..=1048576"
    );
    assert_eq!(
        refuse(&["1.2.3.4:5", "--rounds", "100001"], true),
        "round count 100001 is outside 1..=100000"
    );
    let usual = tcp_probe::parse_arguments(&texts(&["1.2.3.4:5"]), true).unwrap();
    assert_eq!((usual.payload_size, usual.rounds), (256 * 1024, 64));
}

#[test]
fn a_probe_checks_every_frame() {
    tcp_probe::check_hello(header(Command::Hello, 0)).unwrap();
    assert_eq!(
        tcp_probe::check_hello(header(Command::Hello, 1))
            .unwrap_err()
            .to_text(),
        "device returned an invalid probe HELLO"
    );
    let payload = test_payload(300);
    assert_eq!(payload[250], 250);
    assert_eq!(payload[251], 0);
    tcp_probe::check_pong(header(Command::Pong, 7), &payload, 7, 300).unwrap();
    assert_eq!(
        tcp_probe::check_pong(header(Command::Pong, 7), &payload, 8, 300)
            .unwrap_err()
            .to_text(),
        "device returned a mismatched PONG for sequence 8"
    );
    assert!(tcp_probe::check_pong(header(Command::Pong, 7), &payload, 7, 299).is_err());
    assert_eq!(tcp_probe::sequence_of(0).unwrap(), 1);
    assert!(matches!(
        tcp_probe::sequence_of(u32::MAX),
        Err(ProbeClientError::SequenceExhausted)
    ));
    assert_eq!(byte_count(u32::MAX, u32::MAX), 18446744065119617025);

    usb_bench::check_hello(header(Command::Hello, 0)).unwrap();
    usb_bench::check_pong(header(Command::Pong, 2), b"", 2, b"").unwrap();
    assert!(matches!(
        usb_bench::check_pong(header(Command::Pong, 2), b"x", 2, b""),
        Err(ProbeError::MismatchedPong(2))
    ));
    usb_bench::check_goaway(header(Command::GoAway, 3), 3).unwrap();
    assert_eq!(
        usb_bench::check_goaway(header(Command::GoAway, 3), 4)
            .unwrap_err()
            .to_text(),
        "device returned an invalid GOAWAY"
    );
}

#[test]
fn defaults_match_the_frozen_kt6_probe_profile() {
    let parsed = usb_bench::parse_arguments(&Vec::new()).unwrap();
    assert_eq!(parsed.vendor_id, 0x1949);
    assert_eq!(parsed.product_id, 0x9981);
    assert_eq!(parsed.serial, None);
    assert_eq!(parsed.mode, ProbeMode::Duplex);
    assert_eq!(parsed.payload_size, 256 * 1024);
    assert_eq!(parsed.rounds, 128);
    let buffers = usb_bench::probe_buffer_config(1000, 1000);
    assert_eq!(buffers.transfer_size, 16 * 1024);
    assert_eq!(buffers.read_queue_depth, 4);
    assert_eq!(buffers.write_queue_depth, 4);
}

#[test]
fn rejects_unbounded_probe_work() {
    assert!(matches!(
        usb_bench::parse_arguments(&texts(&["--rounds", "99999"])),
        Err(ProbeError::InvalidRounds(99_999))
    ));
}

#[test]
fn accepts_readable_direction_names_and_short_aliases() {
    for (value, expected) in [
        ("duplex", ProbeMode::Duplex),
        ("host-to-device", ProbeMode::HostToDevice),
        ("h2d", ProbeMode::HostToDevice),
        ("device-to-host", ProbeMode::DeviceToHost),
        ("d2h", ProbeMode::DeviceToHost),
    ] {
        let arguments = usb_bench::parse_arguments(&texts(&["--mode", value])).unwrap();
        assert_eq!(arguments.mode, expected);
    }
}

#[test]
fn each_odd_bench_argument_is_told() {
    let refuse = |arguments: &[&str]| {
        usb_bench::parse_arguments(&texts(arguments))
            .unwrap_err()
            .to_text()
    };
    assert_eq!(refuse(&["--vid", "xyz"]), "invalid or missing --vid value");
    assert_eq!(
        refuse(&["--pid", "0x10000"]),
        "invalid or missing --pid value"
    );
    assert_eq!(
        refuse(&["--mode", "side\tways"]),
        "invalid probe mode \"side\\tways\"; expected duplex, host-to-device, or device-to-host"
    );
    assert_eq!(
        refuse(&["--payload-size", "1048577"]),
        "payload size 1048577 is outside 1..=1048576"
    );
    assert_eq!(
        refuse(&["--rounds", "0"]),
        "round count 0 is outside 1..=99998"
    );
    let parsed = usb_bench::parse_arguments(&texts(&[
        "--vid", "0x1a2B", "--pid", "ff", "--serial", "G0", "--rounds",
    ]))
    .unwrap();
    assert_eq!(parsed.vendor_id, 0x1a2b);
    assert_eq!(parsed.product_id, 0xff);
    assert_eq!(parsed.serial.as_deref(), Some("G0"));
    assert_eq!(parsed.rounds, 128);
    assert_eq!(
        usb_bench::hello_payload(&parsed),
        "kindlebridge-usb-bench/0.2;mode=duplex;payload=262144;rounds=128"
    );
}

#[test]
fn bytes_count_in_the_directions_of_the_mode() {
    assert_eq!(usb_bench::totals(ProbeMode::Duplex, 10, 3), (30, 30));
    assert_eq!(usb_bench::totals(ProbeMode::HostToDevice, 10, 3), (30, 0));
    assert_eq!(usb_bench::totals(ProbeMode::DeviceToHost, 10, 3), (0, 30));
    let (sent, expected) = usb_bench::round_payloads(ProbeMode::DeviceToHost, 4);
    assert!(sent.is_empty());
    assert_eq!(expected, [0, 1, 2, 3]);
    assert_eq!(ProbeMode::HostToDevice.name(), "host-to-device");
}

fn bench(rounds: &str) -> (usb_bench::Arguments, UsbBench) {
    let arguments = usb_bench::parse_arguments(&texts(&[
        "--mode",
        "d2h",
        "--payload-size",
        "5",
        "--rounds",
        rounds,
    ]))
    .unwrap();
    let (bench, action) = UsbBench::begin(&arguments);
    assert!(matches!(
        action,
        BenchAction::Greet(text) if text.starts_with("kindlebridge-usb-bench/0.2;mode=device-to-host")
    ));
    (arguments, bench)
}

#[test]
fn a_bench_greets_runs_its_rounds_and_takes_leave() {
    let (_, mut bench) = bench("2");
    let hello = BenchEvent::Frame(header(Command::Hello, 0), Vec::new());
    assert!(matches!(
        bench.advance(hello),
        BenchAction::Start { payload, rounds: 2 } if payload.is_empty()
    ));
    assert!(matches!(bench.advance(BenchEvent::Started), BenchAction::Receive));
    let pong = |sequence| BenchEvent::Frame(header(Command::Pong, sequence), vec![0, 1, 2, 3, 4]);
    assert!(matches!(bench.advance(pong(1)), BenchAction::Receive));
    assert!(matches!(bench.advance(pong(2)), BenchAction::Join));
    assert!(matches!(
        bench.advance(BenchEvent::Written(Written::Sent)),
        BenchAction::Leave(3)
    ));
    let goaway = BenchEvent::Frame(header(Command::GoAway, 3), Vec::new());
    assert!(matches!(
        bench.advance(goaway),
        BenchAction::Report {
            host_to_device: 0,
            device_to_host: 10,
        }
    ));
}

#[test]
fn a_bench_fails_at_the_step_that_goes_wrong() {
    let hello = || BenchEvent::Frame(header(Command::Hello, 0), Vec::new());
    let failure = |action| match action {
        BenchAction::Fail(error) => error.to_text(),
        other => panic!("unexpected {other:?}"),
    };
    let (_, mut wrong) = bench("1");
    let ping = BenchEvent::Frame(header(Command::Ping, 0), Vec::new());
    assert_eq!(failure(wrong.advance(ping)), "device returned an invalid HELLO");

    let (_, mut wrong) = bench("1");
    wrong.advance(hello());
    wrong.advance(BenchEvent::Started);
    let short = BenchEvent::Frame(header(Command::Pong, 1), vec![0, 1, 2, 3]);
    assert_eq!(
        failure(wrong.advance(short)),
        "device returned a mismatched PONG for 1"
    );

    let joined = || {
        let (_, mut bench) = bench("1");
        bench.advance(hello());
        bench.advance(BenchEvent::Started);
        bench.advance(BenchEvent::Frame(
            header(Command::Pong, 1),
            vec![0, 1, 2, 3, 4],
        ));
        bench
    };
    assert_eq!(
        failure(joined().advance(BenchEvent::Written(Written::Panicked))),
        "USB writer thread panicked"
    );
    assert_eq!(
        failure(joined().advance(BenchEvent::Written(Written::Failed("stall".to_owned())))),
        "USB writer failed: stall"
    );
    let mut left = joined();
    left.advance(BenchEvent::Written(Written::Sent));
    let early = BenchEvent::Frame(header(Command::GoAway, 1), Vec::new());
    assert_eq!(failure(left.advance(early)), "device returned an invalid GOAWAY");
}

#[test]
fn a_bench_reports_the_smaller_packet_and_queue() {
    let (arguments, _) = bench("2");
    let mut buffers = usb_bench::probe_buffer_config(1000, 1000);
    buffers.write_queue_depth = 3;
    let selection = Selection {
        interface_number: 1,
        alternate_setting: 2,
        bulk_in_address: 0x81,
        bulk_out_address: 0x02,
        bulk_in_max_packet_size: 512,
        bulk_out_max_packet_size: 64,
    };
    let report = usb_bench::report(&arguments, selection, buffers, 0, 10, 1 << 70);
    assert_eq!(report.max_packet_size, 64);
    assert_eq!(report.queue_depth_each_direction, 3);
    assert_eq!(report.transfer_size, 16 * 1024);
    assert_eq!(report.mode, "device-to-host");
    assert_eq!((report.rounds, report.payload_size), (2, 5));
    assert_eq!(report.bulk_in_address, 0x81);
    assert_eq!(report.device_to_host_bytes, 10);
    assert_eq!(report.elapsed_millis, u64::MAX);
}

#[test]
fn a_tcp_probe_sends_its_farewell_after_the_last_answer() {
    let arguments = tcp_probe::parse_arguments(
        &texts(&["1.2.3.4:5", "--payload-size", "3", "--rounds", "2"]),
        true,
    )
    .unwrap();
    let (mut probe, action) = TcpProbe::begin(&arguments);
    assert!(matches!(
        action,
        ProbeAction::Greet(text) if text == "kindlebridge-tcp-probe/0.1"
    ));
    let hello = ProbeEvent::Frame(header(Command::Hello, 0), b"{}".to_vec());
    assert!(matches!(
        probe.advance(hello),
        ProbeAction::Start { hello, payload, rounds: 2 } if hello == b"{}" && payload == [0, 1, 2]
    ));
    assert!(matches!(probe.advance(ProbeEvent::Started), ProbeAction::Receive));
    let pong = |sequence| ProbeEvent::Frame(header(Command::Pong, sequence), vec![0, 1, 2]);
    assert!(matches!(probe.advance(pong(1)), ProbeAction::Receive));
    assert!(matches!(probe.advance(pong(2)), ProbeAction::Join));
    assert!(matches!(
        probe.advance(ProbeEvent::Written(None)),
        ProbeAction::Leave(3)
    ));
    assert!(matches!(probe.advance(ProbeEvent::Left), ProbeAction::Report(6)));

    let (mut probe, _) = TcpProbe::begin(&arguments);
    let hello = ProbeEvent::Frame(header(Command::Hello, 0), b"{}".to_vec());
    probe.advance(hello);
    probe.advance(ProbeEvent::Started);
    assert!(matches!(
        probe.advance(pong(2)),
        ProbeAction::Fail(ProbeClientError::MismatchedPong(1))
    ));
}
