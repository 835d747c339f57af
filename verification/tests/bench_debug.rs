use obot::bench_debug::{
    decode_packet, decode_packet_csv, format_milli_cycles, format_run_stats_csv, jlink_script,
    parse_jlink_mem8_output, parse_u32, usage, JlinkOptions, DEFAULT_ADDRESS, DEFAULT_DEVICE,
    DEFAULT_SPEED_KHZ,
};
use obot::hex_bytes::parse_hex_bytes;
use obot::benchmark::{BenchmarkReport, CycleStatsSnapshot, LoopBenchmarkSnapshot};
use obot::protocol::{BenchmarkPacket, BENCHMARK_PACKET_LEN};

fn sample_packet() -> BenchmarkPacket {
    BenchmarkPacket {
        sequence: 9,
        report: BenchmarkReport {
            fast: LoopBenchmarkSnapshot {
                period: CycleStatsSnapshot {
                    samples: 10,
                    last_cycles: 3_398,
                    max_cycles: 3_416,
                    mean_milli_cycles: 3_397_560,
                },
                execution: CycleStatsSnapshot {
                    samples: 11,
                    last_cycles: 709,
                    max_cycles: 710,
                    mean_milli_cycles: 708_965,
                },
            },
            main: LoopBenchmarkSnapshot {
                period: CycleStatsSnapshot {
                    samples: 12,
                    last_cycles: 17_000,
                    max_cycles: 17_045,
                    mean_milli_cycles: 16_999_800,
                },
                execution: CycleStatsSnapshot {
                    samples: 13,
                    last_cycles: 3_555,
                    max_cycles: 6_445,
                    mean_milli_cycles: 3_555_490,
                },
            },
        },
    }
}

#[test]
fn formats_milli_cycles_without_unnecessary_trailing_zeroes() {
    assert_eq!(format_milli_cycles(708_965), "708.965");
    assert_eq!(format_milli_cycles(17_000_000), "17000");
    assert_eq!(format_milli_cycles(1_250), "1.25");
}

#[test]
fn prints_motor_util_run_stats_shape() {
    let output = format_run_stats_csv("rust", sample_packet());

    assert_eq!(
        output,
        "name, max_fast_loop_cycles, max_fast_loop_period, max_main_loop_cycles, max_main_loop_period, mean_fast_loop_cycles, mean_fast_loop_period, mean_main_loop_cycles, mean_main_loop_period\nrust, 710, 3416, 6445, 17045, 708.965, 3397.56, 3555.49, 16999.8\n"
    );
}

#[test]
fn parses_jlink_mem8_output() {
    let encoded = sample_packet().encode();
    let mut output = String::new();
    for (row, chunk) in encoded.chunks(16).enumerate() {
        output.push_str(&format!("{:08X} =", DEFAULT_ADDRESS + (row * 16) as u32));
        for byte in chunk {
            output.push_str(&format!(" {byte:02X}"));
        }
        output.push('\n');
    }

    assert_eq!(
        parse_jlink_mem8_output(&output, BENCHMARK_PACKET_LEN).unwrap(),
        encoded
    );
}

#[test]
fn builds_jlink_script_for_exported_symbol_address() {
    let script = jlink_script(&JlinkOptions {
        address: DEFAULT_ADDRESS,
        speed_khz: DEFAULT_SPEED_KHZ,
        device: DEFAULT_DEVICE,
    });

    assert!(script.contains("device STM32G474RE\n"));
    assert!(script.contains("mem8 0x20000000 81\n"));
}

#[test]
fn jlink_script_is_the_whole_commander_sequence() {
    let script = jlink_script(&JlinkOptions {
        address: 0xAB,
        speed_khz: 1_000,
        device: DEFAULT_DEVICE,
    });
    assert_eq!(
        script,
        "device STM32G474RE\nif SWD\nspeed 1000\nconnect\nmem8 0x000000AB 81\nexit\n"
    );
}

#[test]
fn milli_cycles_keep_significant_fraction_digits() {
    assert_eq!(format_milli_cycles(0), "0");
    assert_eq!(format_milli_cycles(5), "0.005");
    assert_eq!(format_milli_cycles(1_010), "1.01");
    assert_eq!(format_milli_cycles(u64::MAX), "18446744073709551.615");
}

#[test]
fn parses_decimal_and_hex_numbers() {
    assert_eq!(parse_u32("4000"), Some(4_000));
    assert_eq!(parse_u32("0x20000000"), Some(0x2000_0000));
    assert_eq!(parse_u32("0XfF"), Some(255));
    assert_eq!(parse_u32("+7"), Some(7));
    assert_eq!(parse_u32(""), None);
    assert_eq!(parse_u32("0x"), None);
    assert_eq!(parse_u32("4294967296"), None);
    assert_eq!(parse_u32("12a"), None);
    assert_eq!(parse_u32("-1"), None);
}

#[test]
fn jlink_options_take_defaults_and_flags() {
    let args: Vec<String> = ["--address", "0x20000020", "--speed", "1000", "--device", "STM32G474RE"]
        .iter()
        .map(|s| s.to_string())
        .collect();
    assert_eq!(
        JlinkOptions::parse(&args),
        Ok(JlinkOptions { address: 0x2000_0020, speed_khz: 1_000, device: DEFAULT_DEVICE })
    );
    assert_eq!(
        JlinkOptions::parse(&[]),
        Ok(JlinkOptions { address: DEFAULT_ADDRESS, speed_khz: DEFAULT_SPEED_KHZ, device: DEFAULT_DEVICE })
    );
    let missing = vec!["--speed".to_string()];
    assert_eq!(JlinkOptions::parse(&missing), Err("--speed requires a value".to_string()));
    let invalid = vec!["--address".to_string(), "zz".to_string()];
    assert_eq!(
        JlinkOptions::parse(&invalid),
        Err("invalid --address value `zz`".to_string())
    );
    let device = vec!["--device".to_string(), "STM32F4".to_string()];
    assert_eq!(
        JlinkOptions::parse(&device),
        Err("unsupported device `STM32F4`; this helper currently supports `STM32G474RE`".to_string())
    );
    let unknown = vec!["--verbose".to_string()];
    assert_eq!(JlinkOptions::parse(&unknown), Err("unknown option `--verbose`".to_string()));
}

#[test]
fn decoding_checks_the_packet_length() {
    let encoded = sample_packet().encode();
    assert_eq!(decode_packet(&encoded), Ok(sample_packet()));
    assert_eq!(decode_packet(&encoded[..80]), Err("expected 81 bytes, got 80".to_string()));
    assert!(decode_packet_csv(&encoded).unwrap().starts_with("name, "));
    assert!(decode_packet_csv(&encoded).unwrap().contains("\nrust_debug, 710, "));
    assert!(usage().starts_with("usage:\n  obot-bench-debug decode-hex <81 packet bytes as hex>\n"));
}

#[test]
fn short_jlink_dumps_are_refused_with_both_counts() {
    let output = "20000000 = 01 02 xx 3G\nno equals 04\n20000010 = [05] 6\n";
    assert_eq!(parse_jlink_mem8_output(output, 3), Ok(vec![1, 2, 5]));
    assert_eq!(
        parse_jlink_mem8_output(output, 4),
        Err("J-Link output contained 3 benchmark bytes, expected 4".to_string())
    );
    assert_eq!(
        parse_jlink_mem8_output(output, 0),
        Err("J-Link output contained 3 benchmark bytes, expected 0".to_string())
    );
}

#[test]
fn parses_hex_bytes_from_compact_or_spaced_input() {
    assert_eq!(
        parse_hex_bytes("0x0102 03, 04:05").unwrap(),
        [1, 2, 3, 4, 5]
    );
}

#[test]
fn refuses_odd_tokens_and_bad_pairs() {
    assert_eq!(
        parse_hex_bytes("0x012"),
        Err("hex token `012` has an odd number of digits".to_string())
    );
    assert_eq!(parse_hex_bytes("01 zz"), Err("invalid hex byte `zz`".to_string()));
    assert_eq!(parse_hex_bytes("é"), Err("invalid hex byte `é`".to_string()));
    assert_eq!(
        parse_hex_bytes("é1"),
        Err("hex token `é1` has an odd number of digits".to_string())
    );
    assert_eq!(parse_hex_bytes("+f\u{0B}=\u{3000}0a\u{3000}"), Ok(vec![0x0F, 0x0A]));
    assert_eq!(parse_hex_bytes(" ,, 0x "), Ok(vec![]));
}

#[test]
fn hardware_log_readout_formats_as_recorded() {
    let stats = |max_cycles: u32, mean_milli_cycles: u64| CycleStatsSnapshot {
        samples: 1000,
        last_cycles: max_cycles,
        max_cycles,
        mean_milli_cycles,
    };
    let packet = BenchmarkPacket {
        sequence: 0,
        report: BenchmarkReport {
            fast: LoopBenchmarkSnapshot {
                period: stats(3_445, 3_399_982),
                execution: stats(161, 74_596),
            },
            main: LoopBenchmarkSnapshot {
                period: stats(17_007, 17_000_002),
                execution: stats(131, 130_856),
            },
        },
    };
    let csv = decode_packet_csv(&packet.encode()).unwrap();
    assert_eq!(
        csv.lines().nth(1),
        Some("rust_debug, 161, 3445, 131, 17007, 74.596, 3399.982, 130.856, 17000.002")
    );
}
