use mousequake::trajectory::{
    create_trajectory, CircleTrajectory, InfinityTrajectory, LinearTrajectory, Point,
    SquareTrajectory, StarTrajectory, Trajectory, TrajectoryType,
};

/// One pixel in the engine's fixed-point micro-pixel units.
const PIXEL: i64 = 1_000_000;

fn to_f64(p: &Point) -> (f64, f64) {
    (p.x as f64 / PIXEL as f64, p.y as f64 / PIXEL as f64)
}

#[test]
fn test_linear_trajectory() {
    let mut trajectory = LinearTrajectory::new(10);

    let p1 = to_f64(&trajectory.next());
    assert_eq!(p1.0, 5.0);
    assert_eq!(p1.1, 0.0);

    let p2 = to_f64(&trajectory.next());
    assert_eq!(p2.0, -5.0);
    assert_eq!(p2.1, 0.0);

    let p3 = to_f64(&trajectory.next());
    assert_eq!(p3.0, 5.0);
    assert_eq!(p3.1, 0.0);
}

#[test]
fn test_circle_trajectory() {
    let mut trajectory = CircleTrajectory::new(10);
    let mut distances = Vec::new();
    let mut first_points = Vec::new();

    // Collect first cycle of movements
    for _ in 0..36 {
        let point = to_f64(&trajectory.next());
        let distance = (point.0 * point.0 + point.1 * point.1).sqrt();
        distances.push(distance);
        first_points.push(point);
    }

    // All movement distances should be similar (within 10% tolerance)
    let avg_distance = distances.iter().sum::<f64>() / distances.len() as f64;
    for distance in &distances {
        assert!(
            (distance - avg_distance).abs() / avg_distance < 0.1,
            "Movement distances should be uniform in a circle"
        );
    }

    // Second cycle should match the first (periodic behavior)
    for i in 0..36 {
        let point = to_f64(&trajectory.next());
        assert!(
            (point.0 - first_points[i].0).abs() < 0.01 && (point.1 - first_points[i].1).abs() < 0.01,
            "Circle trajectory should be periodic"
        );
    }
}

#[test]
fn test_star_trajectory() {
    let mut trajectory = StarTrajectory::new(20);
    let mut first_cycle = Vec::new();
    let mut position_x = 0.0;
    let mut position_y = 0.0;
    let mut radial_distances = Vec::new();

    // Collect one complete star cycle
    for _ in 0..10 {
        let point = to_f64(&trajectory.next());
        position_x += point.0;
        position_y += point.1;
        let radial_distance = (position_x * position_x + position_y * position_y).sqrt();
        radial_distances.push(radial_distance);
        first_cycle.push(point);
    }

    // Should return to origin after one complete star
    assert!(
        position_x.abs() < 0.1 && position_y.abs() < 0.1,
        "Star should form a closed path"
    );

    // Star should visit both outer and inner radii
    let max_radius = radial_distances
        .iter()
        .max_by(|a, b| a.partial_cmp(b).unwrap())
        .unwrap();
    let min_radius = radial_distances
        .iter()
        .min_by(|a, b| a.partial_cmp(b).unwrap())
        .unwrap();
    assert!(
        *max_radius > *min_radius * 2.0,
        "Star should have distinct outer and inner vertices"
    );

    // Second cycle should match the first (periodic behavior)
    for i in 0..10 {
        let point = to_f64(&trajectory.next());
        assert!(
            (point.0 - first_cycle[i].0).abs() < 0.01 && (point.1 - first_cycle[i].1).abs() < 0.01,
            "Star trajectory should be periodic"
        );
    }
}

#[test]
fn test_square_trajectory() {
    let mut trajectory = SquareTrajectory::new(10);

    let p1 = to_f64(&trajectory.next());
    assert_eq!(p1.0, -10.0);
    assert_eq!(p1.1, 0.0);

    let p2 = to_f64(&trajectory.next());
    assert_eq!(p2.0, 0.0);
    assert_eq!(p2.1, -10.0);

    let p3 = to_f64(&trajectory.next());
    assert_eq!(p3.0, 10.0);
    assert_eq!(p3.1, 0.0);

    let p4 = to_f64(&trajectory.next());
    assert_eq!(p4.0, 0.0);
    assert_eq!(p4.1, 10.0);

    let p5 = to_f64(&trajectory.next());
    assert_eq!(p5.0, -10.0);
    assert_eq!(p5.1, 0.0);
}

#[test]
fn test_infinity_trajectory() {
    let mut trajectory = InfinityTrajectory::new(10);
    let mut x_positions = Vec::new();
    let mut first_cycle = Vec::new();
    let mut current_x = 0.0;

    // Track x positions through one cycle
    for _ in 0..36 {
        let point = to_f64(&trajectory.next());
        current_x += point.0;
        x_positions.push(current_x);
        first_cycle.push(point);
    }

    // X position should oscillate (go positive, then negative, then back)
    let max_x = x_positions
        .iter()
        .max_by(|a, b| a.partial_cmp(b).unwrap())
        .unwrap();
    let min_x = x_positions
        .iter()
        .min_by(|a, b| a.partial_cmp(b).unwrap())
        .unwrap();
    assert!(
        *max_x > 2.0 && *min_x < -2.0,
        "Infinity pattern should oscillate in x direction"
    );

    // Should cross near center at least twice in a cycle
    let mut center_crossings = 0;
    for &x in &x_positions {
        if x.abs() < 0.5 {
            center_crossings += 1;
        }
    }
    assert!(
        center_crossings >= 2,
        "Infinity pattern should cross center multiple times"
    );

    // Second cycle should match the first (periodic behavior)
    for i in 0..36 {
        let point = to_f64(&trajectory.next());
        assert!(
            (point.0 - first_cycle[i].0).abs() < 0.01 && (point.1 - first_cycle[i].1).abs() < 0.01,
            "Infinity trajectory should be periodic"
        );
    }
}

#[test]
fn test_circle_first_delta_exact() {
    // For size 10, the first chord is 10 * (cos(10 deg) - 1) / 2 horizontally
    // and 10 * sin(10 deg) / 2 vertically, in exact table micro-pixels.
    let mut trajectory = CircleTrajectory::new(10);
    let p = trajectory.next();
    assert_eq!(p.x, -75_960);
    assert_eq!(p.y, 868_240);
}

#[test]
fn test_circle_periodicity_is_exact() {
    // The deltas are re-derived from the step index, so call 37 equals
    // call 1 exactly, not merely within a tolerance.
    let mut a = CircleTrajectory::new(77);
    let mut b = CircleTrajectory::new(77);
    let first = a.next();
    for _ in 0..36 {
        b.next();
    }
    let wrapped = b.next();
    assert_eq!(first, wrapped);
}

#[test]
fn test_star_closure_is_exact() {
    // One star period sums to exactly (0, 0) in micro-pixels.
    let mut trajectory = StarTrajectory::new(20);
    let mut sum_x: i64 = 0;
    let mut sum_y: i64 = 0;
    for _ in 0..10 {
        let p = trajectory.next();
        sum_x += p.x;
        sum_y += p.y;
    }
    assert_eq!(sum_x, 0);
    assert_eq!(sum_y, 0);
}

#[test]
fn test_infinity_x_extremes_exact() {
    // The accumulated x-position reaches exactly +size/2 at step 9 and
    // exactly -size/2 at step 27, and is exactly zero at steps 18 and 36.
    let mut trajectory = InfinityTrajectory::new(10);
    let mut x: i64 = 0;
    let mut y: i64 = 0;
    let mut positions = Vec::new();
    for _ in 0..36 {
        let p = trajectory.next();
        x += p.x;
        y += p.y;
        positions.push((x, y));
    }
    assert_eq!(positions[8].0, 5 * PIXEL);
    assert_eq!(positions[17].0, 0);
    assert_eq!(positions[26].0, -5 * PIXEL);
    assert_eq!(positions[35], (0, 0));
}

#[test]
fn test_create_trajectory_selects_pattern() {
    let kinds = [
        TrajectoryType::Linear,
        TrajectoryType::Circle,
        TrajectoryType::Star,
        TrajectoryType::Square,
        TrajectoryType::Infinity,
    ];
    let firsts: Vec<Point> = kinds
        .iter()
        .map(|&kind| create_trajectory(kind, 10).next())
        .collect();
    assert_eq!(firsts[0], LinearTrajectory::new(10).next());
    assert_eq!(firsts[1], CircleTrajectory::new(10).next());
    assert_eq!(firsts[2], StarTrajectory::new(10).next());
    assert_eq!(firsts[3], SquareTrajectory::new(10).next());
    assert_eq!(firsts[4], InfinityTrajectory::new(10).next());
}

#[test]
fn test_to_pixels_truncates_toward_zero() {
    assert_eq!(Point::new(1_999_999, -1_999_999).to_pixels(), (1, -1));
    assert_eq!(Point::new(999_999, -999_999).to_pixels(), (0, 0));
    assert_eq!(Point::new(5 * PIXEL, -10 * PIXEL).to_pixels(), (5, -10));
    assert_eq!(Point::new(0, 0).to_pixels(), (0, 0));
}

#[test]
fn test_largest_size_closes() {
    // The largest accepted size runs a whole period of each pattern
    // without overflow, and the closed patterns still sum to zero.
    let size: i64 = 1_000_000;
    for (kind, period) in [
        (TrajectoryType::Linear, 2),
        (TrajectoryType::Circle, 36),
        (TrajectoryType::Star, 10),
        (TrajectoryType::Square, 4),
        (TrajectoryType::Infinity, 36),
    ] {
        let mut t = create_trajectory(kind, size);
        let mut sum_x: i64 = 0;
        let mut sum_y: i64 = 0;
        for _ in 0..period {
            let p = t.next();
            sum_x += p.x;
            sum_y += p.y;
        }
        assert_eq!((sum_x, sum_y), (0, 0));
    }
}

#[test]
fn test_default_size_linear() {
    // The default configured size is one pixel: the line oscillates by
    // half a pixel, which rounds to no whole-pixel movement.
    let mut trajectory = LinearTrajectory::new(1);
    let p = trajectory.next();
    assert_eq!(p.x, 500_000);
    assert_eq!(p.to_pixels(), (0, 0));
}
