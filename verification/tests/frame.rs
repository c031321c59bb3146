use spindle_monitor::frame::{parse_udp_packet, FrameError};

fn frame(ts: i64, machine: u16, spindle: u8, rpm: f64, vib: &[f64], temp: &[f64], disp: &[f64]) -> Vec<u8> {
    let mut b = Vec::new();
    b.extend_from_slice(&ts.to_le_bytes());
    b.extend_from_slice(&machine.to_le_bytes());
    b.push(spindle);
    b.push(vib.len() as u8);
    b.push(temp.len() as u8);
    b.push(disp.len() as u8);
    b.extend_from_slice(&rpm.to_le_bytes());
    for v in vib.iter().chain(temp).chain(disp) {
        b.extend_from_slice(&v.to_le_bytes());
    }
    b
}

#[test]
fn parses_complete_frame() {
    let b = frame(-1_700_000_000_123, 513, 2, 4500.0, &[1.5, -2.25], &[45.0], &[0.01, 0.02, 0.03]);
    let f = parse_udp_packet(&b).unwrap();
    assert_eq!(f.timestamp, -1_700_000_000_123);
    assert_eq!(f.machine_id, 513);
    assert_eq!(f.spindle_id, 2);
    assert_eq!(f64::from_bits(f.rpm_bits), 4500.0);
    let vib: Vec<f64> = f.vibration_bits.iter().map(|&x| f64::from_bits(x)).collect();
    assert_eq!(vib, vec![1.5, -2.25]);
    let temp: Vec<f64> = f.temperature_bits.iter().map(|&x| f64::from_bits(x)).collect();
    assert_eq!(temp, vec![45.0]);
    let disp: Vec<f64> = f.displacement_bits.iter().map(|&x| f64::from_bits(x)).collect();
    assert_eq!(disp, vec![0.01, 0.02, 0.03]);
}

#[test]
fn ignores_trailing_bytes() {
    let mut b = frame(7, 1, 0, 0.0, &[], &[], &[]);
    b.extend_from_slice(&[9, 9, 9]);
    let f = parse_udp_packet(&b).unwrap();
    assert_eq!(f.timestamp, 7);
    assert!(f.vibration_bits.is_empty());
}

#[test]
fn rejects_short_header() {
    let b = frame(7, 1, 0, 0.0, &[], &[], &[]);
    assert_eq!(parse_udp_packet(&b[..21]).unwrap_err(), FrameError::Truncated);
    assert_eq!(parse_udp_packet(&[]).unwrap_err(), FrameError::Truncated);
}

#[test]
fn rejects_missing_samples() {
    let b = frame(7, 1, 0, 1.0, &[1.0, 2.0], &[3.0], &[]);
    assert!(parse_udp_packet(&b).is_ok());
    assert_eq!(parse_udp_packet(&b[..b.len() - 1]).unwrap_err(), FrameError::Truncated);
}
