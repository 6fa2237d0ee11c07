use sphere_cast::geom::{discriminant, ray_misses, scene_sphere, Ray, Sphere};
use sphere_cast::vec3::Vec3;

#[test]
fn scene_sphere_is_the_scaled_scene() {
    // The sphere at (0, -2, 4) with radius 0.75, scaled by 4.
    let s = scene_sphere();
    assert_eq!(s.center, Vec3 { x: 0, y: -8, z: 16 });
    assert_eq!(s.radius, 3);
}

#[test]
fn ray_pointing_away_misses() {
    // From (0, 0, -1) looking along (0, 0, -1), scaled by 4.
    let ray = Ray::new(Vec3::from(0, 0, -4), Vec3::from(0, 0, -4));
    let s = scene_sphere();
    assert_eq!(discriminant(&ray, &s), -3520);
    assert!(ray_misses(&ray, &s));
}

#[test]
fn ray_through_center_hits() {
    // From (0, 0, -1) straight at the sphere center, scaled by 4.
    let ray = Ray::new(Vec3::from(0, 0, -4), Vec3::from(0, -8, 20));
    let s = scene_sphere();
    assert_eq!(discriminant(&ray, &s), 16704);
    assert!(!ray_misses(&ray, &s));
}

#[test]
fn tangent_ray_counts_as_miss() {
    let ray = Ray::new(Vec3::from(0, 0, 0), Vec3::from(1, 0, 0));
    let s = Sphere { center: Vec3::from(0, 1, 0), radius: 1 };
    assert_eq!(discriminant(&ray, &s), 0);
    assert!(ray_misses(&ray, &s));
}

#[test]
fn camera_ray_runs_from_eye_to_view_plane() {
    let r = Ray::for_pixel(5, -7, 2);
    assert_eq!(r.origin, Vec3 { x: 0, y: 0, z: -2 });
    assert_eq!(r.direction, Vec3 { x: 5, y: -7, z: 2 });
}
