use gyro_sync::quaternion::{can_adapt, set_quats, AdaptedQuats, Quat, TimedQuat};

fn quat(w: i64, x: i64, y: i64, z: i64) -> Quat {
    Quat { w, x, y, z }
}

/// The product of two quaternions.
fn product(a: Quat, b: Quat) -> Quat {
    Quat {
        w: a.w * b.w - a.x * b.x - a.y * b.y - a.z * b.z,
        x: a.w * b.x + a.x * b.w + a.y * b.z - a.z * b.y,
        y: a.w * b.y - a.x * b.z + a.y * b.w + a.z * b.x,
        z: a.w * b.z + a.x * b.y - a.y * b.x + a.z * b.w,
    }
}

#[test]
fn adapted_rotation_is_conjugate_of_product_with_half_turn() {
    let q = quat(1, 2, 3, 4);
    assert_eq!(q.adapt(), quat(-2, -1, -4, 3));
    let p = product(q, quat(0, 1, 0, 0));
    assert_eq!(q.adapt(), quat(p.w, -p.x, -p.y, -p.z));
    // the identity becomes half a turn about X, conjugated
    assert_eq!(quat(1 << 30, 0, 0, 0).adapt(), quat(0, -(1 << 30), 0, 0));
    assert_eq!(quat(0, 0, 0, 0).adapt(), quat(0, 0, 0, 0));
}

#[test]
fn adaptation_keeps_the_norm() {
    let q = quat(300, -200, 100, -50);
    let a = q.adapt();
    let norm = |q: Quat| q.w * q.w + q.x * q.x + q.y * q.y + q.z * q.z;
    assert_eq!(norm(a), norm(q));
}

#[test]
fn adaptation_at_the_limits() {
    let q = quat(i64::MAX, -i64::MAX, i64::MAX, -i64::MAX);
    assert!(q.is_valid());
    assert_eq!(q.adapt(), quat(i64::MAX, -i64::MAX, i64::MAX, i64::MAX));
    assert!(!quat(i64::MIN, 0, 0, 0).is_valid());
    assert!(!quat(0, i64::MIN, 0, 0).is_valid());
    assert!(!quat(0, 0, i64::MIN, 0).is_valid());
    assert!(!quat(0, 0, 0, i64::MIN).is_valid());
}

#[test]
fn series_is_adapted_sample_by_sample() {
    let series = vec![
        TimedQuat { timestamp: 1000, quat: quat(1, 2, 3, 4) },
        TimedQuat { timestamp: 2000, quat: quat(-5, 6, -7, 8) },
        TimedQuat { timestamp: 1500, quat: quat(0, 0, 1, 0) },
    ];
    assert!(can_adapt(&series));
    let out = set_quats(&series);
    assert_eq!(
        out,
        AdaptedQuats {
            timestamps: vec![1000, 2000, 1500],
            quats: vec![quat(-2, -1, -4, 3), quat(-6, 5, -8, -7), quat(0, 0, 0, 1)],
        }
    );
    let none = set_quats(&Vec::new());
    assert!(none.timestamps.is_empty() && none.quats.is_empty());
}

#[test]
fn adapting_twice_gives_identical_output() {
    let series: Vec<TimedQuat> = (0..100)
        .map(|i| TimedQuat { timestamp: i * 1000, quat: quat(i * 3 - 7, 11 - i, i * i, -i) })
        .collect();
    let first = set_quats(&series);
    let second = set_quats(&series);
    assert_eq!(first, second);
}

#[test]
fn series_with_unadaptable_sample_is_refused() {
    let series = vec![
        TimedQuat { timestamp: 0, quat: quat(1, 0, 0, 0) },
        TimedQuat { timestamp: 1, quat: quat(0, 0, i64::MIN, 0) },
    ];
    assert!(!can_adapt(&series));
    assert!(can_adapt(&Vec::new()));
}
