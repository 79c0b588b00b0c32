use combat_sim::orders::{make_orders, parse_orders, BIAS, SCALE};
use combat_sim::ship::ShipClass;
use combat_sim::snapshot::{
    decode_snapshot, encode_snapshot, BulletEntry, LineEntry, ShipEntry, Snapshot,
};
use combat_sim::victory::Status;

#[test]
fn orders_of_origin_are_positive_and_round_trip() {
    let o = make_orders(0, 0);
    assert_eq!(o, 500000500000);
    assert!(o > 0);
    assert_eq!(parse_orders(o), (0, 0));
}

#[test]
fn zero_orders_mean_the_origin() {
    assert_eq!(parse_orders(0), (0, 0));
}

#[test]
fn orders_round_trip_across_the_range() {
    let cases: [(i64, i64); 7] = [
        (1000, 0),
        (-1, -1),
        (250, -125),
        (BIAS - 1, BIAS - 1),
        (-BIAS, BIAS - 1),
        (BIAS - 1, -BIAS),
        (-123456, 398877),
    ];
    for &(x, y) in &cases {
        assert_eq!(parse_orders(make_orders(x, y)), (x, y));
    }
}

#[test]
fn the_reserved_corner_packs_to_zero() {
    assert_eq!(make_orders(-BIAS, -BIAS), 0);
}

#[test]
fn packed_coordinates_sit_in_their_digits() {
    let o = make_orders(7, -3);
    assert_eq!(o % SCALE, (7 + BIAS) as u64);
    assert_eq!(o / SCALE, (-3 + BIAS) as u64);
}

fn sample_snapshot() -> Snapshot {
    Snapshot {
        tick: 4242,
        status: Status::Victory { team: 1 },
        ships: vec![
            ShipEntry {
                handle: 11,
                team: 0,
                class: ShipClass::Fighter,
                position_x_bits: f64::to_bits(-100.0),
                position_y_bits: f64::to_bits(0.25),
                velocity_x_bits: f64::to_bits(35.5),
                velocity_y_bits: f64::to_bits(-1.0),
                heading_bits: f64::to_bits(3.14),
                angular_velocity_bits: f64::to_bits(0.0),
                health_bits: f64::to_bits(100.0),
            },
            ShipEntry {
                handle: 12,
                team: -4,
                class: ShipClass::Torpedo,
                position_x_bits: f64::to_bits(9000.0),
                position_y_bits: f64::to_bits(-9000.0),
                velocity_x_bits: f64::to_bits(0.0),
                velocity_y_bits: f64::to_bits(700.0),
                heading_bits: f64::to_bits(0.0),
                angular_velocity_bits: f64::to_bits(-0.5),
                health_bits: f64::to_bits(20.0),
            },
        ],
        bullets: vec![BulletEntry {
            position_x_bits: f64::to_bits(1.0),
            position_y_bits: f64::to_bits(2.0),
            velocity_x_bits: f64::to_bits(900.0),
            velocity_y_bits: f64::to_bits(-30.0),
            mass_bits: f64::to_bits(0.1),
            team: 1,
            ttl_bits: f64::to_bits(1.5),
        }],
        lines: vec![LineEntry {
            start_x_bits: f64::to_bits(1000.0),
            start_y_bits: f64::to_bits(0.0),
            end_x_bits: f64::to_bits(1050.0),
            end_y_bits: f64::to_bits(0.0),
            color_r_bits: f64::to_bits(0.0),
            color_g_bits: f64::to_bits(1.0),
            color_b_bits: f64::to_bits(0.0),
            color_a_bits: f64::to_bits(1.0),
        }],
    }
}

#[test]
fn snapshot_round_trips() {
    let snap = sample_snapshot();
    let bytes = encode_snapshot(&snap);
    assert_eq!(bytes.len() % 8, 0);
    let back = decode_snapshot(&bytes).expect("a serialized snapshot parses");
    assert_eq!(back, snap);
}

#[test]
fn empty_snapshot_round_trips() {
    let snap =
        Snapshot { tick: 0, status: Status::Running, ships: vec![], bullets: vec![], lines: vec![] };
    let bytes = encode_snapshot(&snap);
    assert_eq!(bytes.len(), 7 * 8);
    let back = decode_snapshot(&bytes).expect("a serialized snapshot parses");
    assert_eq!(back, snap);
}

#[test]
fn truncated_bytes_are_refused() {
    let snap = sample_snapshot();
    let mut bytes = encode_snapshot(&snap);
    bytes.pop();
    assert!(decode_snapshot(&bytes).is_none());
    assert!(decode_snapshot(&[]).is_none());
    assert!(decode_snapshot(&[0u8; 16]).is_none());
}

#[test]
fn a_foreign_version_is_refused() {
    let snap = sample_snapshot();
    let mut bytes = encode_snapshot(&snap);
    bytes[0] = 99;
    assert!(decode_snapshot(&bytes).is_none());
}

#[test]
fn a_mangled_class_tag_is_refused() {
    let snap = sample_snapshot();
    let mut bytes = encode_snapshot(&snap);
    // The class tag is the third word of the first ship entry, which
    // starts after the five header words.
    let class_byte = 8 * (5 + 2);
    bytes[class_byte] = 200;
    assert!(decode_snapshot(&bytes).is_none());
}

#[test]
fn negative_teams_survive_the_trip() {
    let snap = sample_snapshot();
    let bytes = encode_snapshot(&snap);
    let back = decode_snapshot(&bytes).unwrap();
    assert_eq!(back.ships[1].team, -4);
}
