use raytracer::light::{Directional, DynamicLight, Point, Spot};
use raytracer::renderable::Sphere;
use raytracer::scalar::Scalar;
use raytracer::trace::{closest_collision, negligible, one_light, shaded, trace_pixel, trace_ray};
use raytracer::util::{
    clamp_color, normalization_scale, rgb_from_vector, vector_from_rgb, Color,
};
use raytracer::vector::Vector3;

type V = (f32, f32, f32);

fn s(x: f32) -> Scalar {
    Scalar::from_bits(x.to_bits())
}

fn f(x: Scalar) -> f32 {
    f32::from_bits(x.to_bits())
}

fn color(r: f32, g: f32, b: f32) -> Color {
    Color { r: s(r), g: s(g), b: s(b) }
}

fn v(p: V) -> Vector3 {
    Vector3::new(s(p.0), s(p.1), s(p.2))
}

fn dot(a: V, b: V) -> f32 {
    a.0 * b.0 + a.1 * b.1 + a.2 * b.2
}

fn sub(a: V, b: V) -> V {
    (a.0 - b.0, a.1 - b.1, a.2 - b.2)
}

fn sphere(origin: V, direction: V, center: V, radius: f32) -> Option<Scalar> {
    let a = dot(direction, direction);
    let b = 2.0 * dot(direction, sub(origin, center));
    let c = dot(origin, origin) + dot(center, center) - 2.0 * dot(origin, center) - radius * radius;
    let delta = b * b - 4.0 * a * c;
    let root = delta.sqrt();
    Sphere::collides_with(s(delta), s((-b - root) / (2.0 * a)), s((-b + root) / (2.0 * a)))
}

fn tone_map(c: Color) -> Color {
    let n = f(normalization_scale(c));
    color(f(c.r) / n, f(c.g) / n, f(c.b) / n)
}

#[test]
fn closest_of_two_spheres_is_the_nearer_in_either_order() {
    let origin = (0.0, 0.0, 0.0);
    let ahead = (0.0, 0.0, 1.0);
    let near = sphere(origin, ahead, (0.0, 0.0, 5.0), 1.0);
    let far = sphere(origin, ahead, (0.0, 0.0, 5.5), 1.0);
    assert_eq!(near, Some(s(4.0)));
    assert_eq!(far, Some(s(4.5)));
    assert_eq!(closest_collision(&vec![near, far]), Some((0, s(4.0))));
    assert_eq!(closest_collision(&vec![far, near]), Some((1, s(4.0))));
}

#[test]
fn closest_of_no_hits_is_nothing() {
    assert_eq!(closest_collision(&vec![]), None);
    assert_eq!(closest_collision(&vec![None, None, None]), None);
}

#[test]
fn closest_passes_over_misses() {
    let hits = vec![None, Some(s(7.0)), None, Some(s(2.5)), Some(s(9.0)), None];
    assert_eq!(closest_collision(&hits), Some((3, s(2.5))));
    assert_eq!(closest_collision(&vec![None, Some(s(3.0))]), Some((1, s(3.0))));
}

#[test]
fn closest_of_equal_distances_is_the_first() {
    let hits = vec![Some(s(5.0)), Some(s(2.0)), Some(s(2.0)), Some(s(3.0))];
    assert_eq!(closest_collision(&hits), Some((1, s(2.0))));
}

#[test]
fn closest_follows_the_total_order() {
    let hits = vec![Some(s(0.0)), Some(s(-0.0)), Some(s(f32::NAN)), Some(s(f32::INFINITY))];
    assert_eq!(closest_collision(&hits), Some((1, s(-0.0))));
    let open = vec![Some(s(f32::NAN)), Some(s(f32::INFINITY))];
    assert_eq!(closest_collision(&open), Some((1, s(f32::INFINITY))));
}

#[test]
fn closest_distance_is_the_same_for_every_order() {
    let a = [Some(s(4.0)), None, Some(s(1.5)), Some(s(8.0))];
    let orders: [[usize; 4]; 6] =
        [[0, 1, 2, 3], [3, 2, 1, 0], [2, 0, 3, 1], [1, 3, 0, 2], [1, 0, 3, 2], [3, 0, 1, 2]];
    for order in orders.iter() {
        let hits: Vec<Option<Scalar>> = order.iter().map(|&i| a[i]).collect();
        let place = order.iter().position(|&i| i == 2).unwrap();
        assert_eq!(closest_collision(&hits), Some((place, s(1.5))));
    }
}

#[test]
fn occluder_takes_the_light_and_gives_it_back() {
    let point = (0.0, 0.0, 0.0);
    let toward_light = (0.0, 1.0, 0.0);
    let light_dist = 10.0;
    let intensity = 10.0 * 1.0 / (light_dist * light_dist);
    let cos = 1.0;
    let between = sphere(point, toward_light, (0.0, 5.0, 0.0), 1.0);
    assert_eq!(between, Some(s(4.0)));
    assert!(shaded(between, s(light_dist)));
    assert!(!one_light(s(intensity), between, s(light_dist), s(cos)));
    let moved_away = sphere(point, toward_light, (8.0, 5.0, 0.0), 1.0);
    assert_eq!(moved_away, None);
    assert!(!shaded(moved_away, s(light_dist)));
    assert!(one_light(s(intensity), moved_away, s(light_dist), s(cos)));
    let beyond = sphere(point, toward_light, (0.0, 15.0, 0.0), 1.0);
    assert_eq!(beyond, Some(s(14.0)));
    assert!(one_light(s(intensity), beyond, s(light_dist), s(cos)));
}

#[test]
fn weak_light_is_passed_over() {
    assert!(negligible(s(0.00009)));
    assert!(negligible(s(0.0)));
    assert!(negligible(s(-1.0)));
    assert!(!negligible(s(0.0001)));
    assert!(!negligible(s(0.5)));
    assert!(!one_light(s(0.00009), None, s(3.0), s(1.0)));
    assert!(one_light(s(0.0001), None, s(3.0), s(1.0)));
}

#[test]
fn light_behind_the_surface_adds_nothing() {
    assert!(!one_light(s(1.0), None, s(3.0), s(-0.25)));
    assert!(one_light(s(1.0), None, s(3.0), s(0.0)));
    assert!(one_light(s(1.0), None, s(3.0), s(-0.0)));
    assert!(one_light(s(1.0), None, s(3.0), s(0.7)));
}

#[test]
fn nothing_shades_a_point_from_a_light_at_infinity_but_a_surface() {
    let far = s(f32::INFINITY);
    assert!(!shaded(None, far));
    assert!(shaded(Some(s(1.0e30)), far));
    assert!(!shaded(Some(far), far));
    assert!(!shaded(Some(s(3.0)), s(3.0)));
    assert!(shaded(Some(s(2.9)), s(3.0)));
}

#[test]
fn ray_that_meets_nothing_shows_the_background() {
    let sky = color(0.2, 0.4, 0.8);
    let wall = color(0.5, 0.5, 0.5);
    assert_eq!(trace_ray(sky, None), sky);
    assert_eq!(trace_ray(sky, Some(wall)), wall);
}

#[test]
fn pixel_bytes_are_the_integer_parts() {
    assert_eq!(trace_pixel(color(25.5, 0.0, 255.0)), [25, 0, 255]);
    assert_eq!(trace_pixel(color(127.5, 254.99, 1.0)), [127, 254, 1]);
    let tenth = 0.1f32 * 255.0;
    assert_eq!(trace_pixel(color(tenth, tenth, tenth)), [25, 25, 25]);
}

#[test]
fn tone_mapping_keeps_what_can_be_shown() {
    for &(r, g, b) in
        &[(0.0, 0.0, 0.0), (1.0, 1.0, 1.0), (0.25, 0.5, 0.75), (0.1, 0.1, 0.1), (1.0, 0.0, -0.0)]
    {
        let c = color(r, g, b);
        assert!(c.displayable());
        assert_eq!(normalization_scale(c), s(1.0));
        assert_eq!(tone_map(c), c);
        assert_eq!(tone_map(tone_map(c)), tone_map(c));
    }
}

#[test]
fn tone_mapping_divides_by_the_largest_channel() {
    let c = color(2.0, 1.0, 0.0);
    assert!(!c.displayable());
    assert_eq!(normalization_scale(c), s(2.0));
    assert_eq!(tone_map(c), color(1.0, 0.5, 0.0));
    assert_eq!(normalization_scale(color(0.5, 4.0, 3.0)), s(4.0));
    assert_eq!(normalization_scale(color(0.5, 0.25, 8.0)), s(8.0));
    assert_eq!(normalization_scale(color(-3.0, 0.25, 0.5)), s(1.0));
    assert!(tone_map(color(0.5, 4.0, 3.0)).displayable());
}

#[test]
fn displayable_means_every_channel_from_zero_to_one() {
    assert!(color(0.0, 0.5, 1.0).displayable());
    assert!(!color(0.0, 0.5, 1.0000001).displayable());
    assert!(!color(-0.1, 0.5, 1.0).displayable());
    assert!(!color(0.0, f32::NAN, 1.0).displayable());
}

#[test]
fn clamping_keeps_each_channel_between_zero_and_one() {
    assert_eq!(clamp_color(color(-0.5, 0.5, 1.5)), color(0.0, 0.5, 1.0));
    assert_eq!(clamp_color(color(0.0, 1.0, 2.0)), color(0.0, 1.0, 1.0));
    assert_eq!(clamp_color(color(f32::INFINITY, f32::NEG_INFINITY, 0.25)), color(1.0, 0.0, 0.25));
    assert_eq!(clamp_color(color(-0.0, 0.0, 1.0)), color(-0.0, 0.0, 1.0));
    let kept = clamp_color(color(f32::NAN, 0.5, 0.5));
    assert!(kept.r.is_nan());
    assert!(clamp_color(color(7.0, -7.0, 0.3)).displayable());
}

#[test]
fn colors_and_vectors_share_their_components() {
    let c = color(0.1, 0.2, 0.3);
    let w = v((0.1, 0.2, 0.3));
    assert_eq!(vector_from_rgb(c), w);
    assert_eq!(rgb_from_vector(w), c);
    assert_eq!(rgb_from_vector(vector_from_rgb(c)), c);
    assert_eq!(Color::black(), color(0.0, 0.0, 0.0));
    assert_eq!(Color::white(), color(1.0, 1.0, 1.0));
}

#[test]
fn directional_light_is_the_same_from_everywhere() {
    let sun = Directional { color: color(1.0, 1.0, 0.5), direction: v((0.0, 1.0, 0.0)), intensity: s(0.75) };
    for &p in &[(0.0, 0.0, 0.0), (5.0, -3.0, 100.0)] {
        assert_eq!(sun.direction_from(v(p)), (v((0.0, 1.0, 0.0)), s(f32::INFINITY)));
        assert_eq!(sun.intensity_at(v(p)), s(0.75));
    }
    assert_eq!(sun.color(), color(1.0, 1.0, 0.5));
}

#[test]
fn lights_give_their_color() {
    let red = color(1.0, 0.0, 0.0);
    let green = color(0.0, 1.0, 0.0);
    let blue = color(0.0, 0.0, 1.0);
    let sun = Directional { color: red, direction: v((0.0, 1.0, 0.0)), intensity: s(1.0) };
    let bulb = Point { color: green, position: v((0.0, 4.0, 0.0)), intensity: s(1.0) };
    let lamp = Spot {
        color: blue,
        position: v((0.0, 4.0, 0.0)),
        direction: v((0.0, -1.0, 0.0)),
        intensity: s(2.0),
        falloff_angle: s(0.2),
        max_angle: s(0.6),
    };
    assert_eq!(bulb.color(), green);
    assert_eq!(lamp.color(), blue);
    assert_eq!(DynamicLight::Directional(sun).color(), red);
    assert_eq!(DynamicLight::Point(bulb).color(), green);
    assert_eq!(DynamicLight::Spot(lamp).color(), blue);
}

#[test]
fn spotlight_is_full_near_its_axis_and_dark_outside_its_cone() {
    let lamp = Spot {
        color: color(1.0, 1.0, 1.0),
        position: v((0.0, 4.0, 0.0)),
        direction: v((0.0, -1.0, 0.0)),
        intensity: s(2.0),
        falloff_angle: s(0.25),
        max_angle: s(0.75),
    };
    let faded = |angle: f32| 2.0 * (0.75 - angle) / (0.75 - 0.25);
    assert_eq!(lamp.intensity_at(s(0.0), s(faded(0.0))), s(2.0));
    assert_eq!(lamp.intensity_at(s(0.25), s(faded(0.25))), s(2.0));
    assert_eq!(lamp.intensity_at(s(0.5), s(faded(0.5))), s(1.0));
    assert_eq!(lamp.intensity_at(s(0.625), s(faded(0.625))), s(0.5));
    assert_eq!(lamp.intensity_at(s(0.75), s(faded(0.75))), s(0.0));
    assert_eq!(lamp.intensity_at(s(1.0), s(faded(1.0))), s(0.0));
    assert_eq!(lamp.intensity_at(s(f32::NAN), s(f32::NAN)), s(0.0));
}

#[test]
fn spotlight_without_a_fading_zone_is_dark_from_its_edge_on() {
    let lamp = Spot {
        color: color(1.0, 1.0, 1.0),
        position: v((0.0, 4.0, 0.0)),
        direction: v((0.0, -1.0, 0.0)),
        intensity: s(2.0),
        falloff_angle: s(0.5),
        max_angle: s(0.5),
    };
    assert_eq!(lamp.intensity_at(s(0.25), s(9.0)), s(2.0));
    assert_eq!(lamp.intensity_at(s(0.5), s(9.0)), s(0.0));
    assert_eq!(lamp.intensity_at(s(0.75), s(9.0)), s(0.0));
}
