use raytracer::{
    Behavior, Camera, Color, Component, DiffuseMaterial, FlatColorMaterial, Hit, Intersection,
    Material, MaterialShape, MirrorMaterial, NSphere, Ray, Raytracer, Scene, SceneElement, Shape,
    Simple3DCamera, Sphere, TracingOptions, Vec2, Vec3, Vec4, VecScene, Vector,
};

#[derive(Clone, Copy, Debug, PartialEq)]
struct Real(f32);

impl Component for Real {
    fn count_value(n: usize) -> Self {
        Real(n as f32)
    }

    fn unit_value(word: u32) -> Self {
        Real((word >> 8) as f32 * (1.0 / 16_777_216.0))
    }

    fn full_turn() -> Self {
        Real(std::f32::consts::TAU)
    }

    fn sum(self, rhs: Self) -> Self {
        Real(self.0 + rhs.0)
    }

    fn difference(self, rhs: Self) -> Self {
        Real(self.0 - rhs.0)
    }

    fn product(self, rhs: Self) -> Self {
        Real(self.0 * rhs.0)
    }

    fn quotient(self, rhs: Self) -> Self {
        Real(self.0 / rhs.0)
    }

    fn negation(self) -> Self {
        Real(-self.0)
    }

    fn root(self) -> Self {
        Real(self.0.sqrt())
    }

    fn less(self, rhs: Self) -> bool {
        self.0 < rhs.0
    }

    fn same(self, rhs: Self) -> bool {
        self.0 == rhs.0
    }

    fn truncated(self) -> u8 {
        self.0 as u8
    }

    fn from_count(n: usize) -> Self {
        Self::count_value(n)
    }

    fn from_random_word(word: u32) -> Self {
        Self::unit_value(word)
    }

    fn tau() -> Self {
        Self::full_turn()
    }

    fn add(self, rhs: Self) -> Self {
        self.sum(rhs)
    }

    fn sub(self, rhs: Self) -> Self {
        self.difference(rhs)
    }

    fn mul(self, rhs: Self) -> Self {
        self.product(rhs)
    }

    fn div(self, rhs: Self) -> Self {
        self.quotient(rhs)
    }

    fn neg(self) -> Self {
        self.negation()
    }

    fn sqrt(self) -> Self {
        self.root()
    }

    fn lt(self, rhs: Self) -> bool {
        self.less(rhs)
    }

    fn equals(self, rhs: Self) -> bool {
        self.same(rhs)
    }

    fn to_byte(self) -> u8 {
        self.truncated()
    }

    fn cos(self) -> Self {
        Real(self.0.cos())
    }

    fn sin(self) -> Self {
        Real(self.0.sin())
    }
}

fn r(x: f32) -> Real {
    Real(x)
}

fn v2(x: f32, y: f32) -> Vec2<Real> {
    Vec2::new(Real(x), Real(y))
}

fn v3(x: f32, y: f32, z: f32) -> Vec3<Real> {
    Vec3::new(Real(x), Real(y), Real(z))
}

fn gray(brightness: f32, alpha: f32) -> Color<Real> {
    Color::new_gray(Real(brightness), Real(alpha))
}

fn rgba(red: f32, green: f32, blue: f32, alpha: f32) -> Color<Real> {
    Color::new(Real(red), Real(green), Real(blue), Real(alpha))
}

fn sphere(x: f32, y: f32, z: f32, radius: f32) -> Sphere<Real> {
    Sphere { center: v3(x, y, z), radius: Real(radius) }
}

fn light(x: f32, y: f32, z: f32, radius: f32, color: Color<Real>) -> Box<dyn SceneElement<Vec3<Real>>> {
    Box::new(MaterialShape { shape: sphere(x, y, z, radius), material: FlatColorMaterial { color } })
}

fn mirror(x: f32, y: f32, z: f32, radius: f32) -> Box<dyn SceneElement<Vec3<Real>>> {
    Box::new(MaterialShape { shape: sphere(x, y, z, radius), material: MirrorMaterial })
}

fn options(max_bounces: usize) -> TracingOptions<Real> {
    TracingOptions { background_color: Color::clear(), max_bounces, near_clipping: Real(0.0001) }
}

fn hit(direction: Vec3<Real>, point: Vec3<Real>, normal: Vec3<Real>) -> Hit<Vec3<Real>> {
    Hit {
        ray_direction: direction.normalized(),
        intersection: point,
        normal: normal.normalized(),
    }
}

fn close(a: Real, b: f32) -> bool {
    (a.0 - b).abs() < 1e-4
}

#[test]
fn sphere_straight_ahead() {
    let ball = sphere(0.0, 0.0, 10.0, 2.0);
    let ray = Ray::new(v3(0.0, 0.0, 0.0), v3(0.0, 0.0, 1.0));
    let found = ball.first_intersection(&ray, r(0.0001)).unwrap();
    assert_eq!(found.distance, r(8.0));
    assert_eq!(found.data.intersection, v3(0.0, 0.0, 8.0));
    assert_eq!(found.data.normal.into_inner(), v3(0.0, 0.0, -1.0));
    assert_eq!(found.data.ray_direction, ray.direction);
}

#[test]
fn sphere_off_the_axis() {
    let ball = sphere(0.0, 0.0, 10.0, 2.0);
    let ray = Ray::new(v3(1.0, 0.0, 0.0), v3(0.0, 0.0, 1.0));
    let found = ball.first_intersection(&ray, r(0.0001)).unwrap();
    assert_eq!(found.distance, r(8.267_949));
    assert_eq!(found.data.intersection, v3(1.0, 0.0, 8.267_949));
    assert_eq!(found.data.normal.into_inner(), v3(0.5, 0.0, -0.866_025_45));
}

#[test]
fn sphere_round_trip_along_an_axis() {
    for (distance, radius) in [(10.0, 2.0), (100.0, 90.0), (3.0, 0.5), (1000.0, 990.0)] {
        let ball = sphere(0.0, distance, 0.0, radius);
        let ray = Ray::new(v3(0.0, 0.0, 0.0), v3(0.0, 1.0, 0.0));
        let found = ball.first_intersection(&ray, r(0.0001)).unwrap();
        assert_eq!(found.distance, r(distance - radius));
        assert_eq!(found.data.intersection.sub(ball.center).norm(), r(radius));
    }
}

#[test]
fn sphere_round_trip_in_any_direction() {
    let center = v3(3.0, -4.0, 12.0);
    let origin = v3(1.0, 1.0, -1.0);
    let distance = center.sub(origin).norm();
    let ball = NSphere { center, radius: r(2.5) };
    let ray = Ray::new(origin, center.sub(origin));
    let found = ball.first_intersection(&ray, r(0.0001)).unwrap();
    assert!(close(found.distance, distance.0 - 2.5));
    assert!(close(found.data.intersection.sub(center).norm(), 2.5));
}

#[test]
fn circle_and_hypersphere_are_hit_alike() {
    let circle = NSphere { center: v2(5.0, 0.0), radius: r(1.0) };
    let found = circle.first_intersection(&Ray::new(v2(0.0, 0.0), v2(1.0, 0.0)), r(0.0)).unwrap();
    assert_eq!(found.distance, r(4.0));
    assert_eq!(found.data.normal.into_inner(), v2(-1.0, 0.0));

    let center = Vec4::new(r(0.0), r(0.0), r(0.0), r(7.0));
    let towards = Vec4::new(r(0.0), r(0.0), r(0.0), r(1.0));
    let hypersphere = NSphere { center, radius: r(3.0) };
    let ray = Ray::new(Vec4::zero(), towards);
    let found = hypersphere.first_intersection(&ray, r(0.0)).unwrap();
    assert_eq!(found.distance, r(4.0));
    assert_eq!(found.data.intersection, Vec4::new(r(0.0), r(0.0), r(0.0), r(4.0)));
}

#[test]
fn sphere_behind_the_ray_is_missed() {
    let ball = sphere(0.0, 0.0, -10.0, 2.0);
    let ray = Ray::new(v3(0.0, 0.0, 0.0), v3(0.0, 0.0, 1.0));
    assert!(ball.first_intersection(&ray, r(0.0001)).is_none());
}

#[test]
fn sphere_beside_the_ray_is_missed() {
    let ball = sphere(0.0, 3.0, 10.0, 2.0);
    let ray = Ray::new(v3(0.0, 0.0, 0.0), v3(0.0, 0.0, 1.0));
    assert!(ball.first_intersection(&ray, r(0.0001)).is_none());
}

#[test]
fn sphere_that_the_ray_grazes_is_hit_once() {
    let ball = sphere(0.0, 2.0, 10.0, 2.0);
    let ray = Ray::new(v3(0.0, 0.0, 0.0), v3(0.0, 0.0, 1.0));
    let found = ball.first_intersection(&ray, r(0.0001)).unwrap();
    assert_eq!(found.distance, r(10.0));
    assert_eq!(found.data.normal.into_inner(), v3(0.0, -1.0, 0.0));
}

#[test]
fn sphere_around_the_origin_of_the_ray_is_missed() {
    let ray = Ray::new(v3(0.0, 0.0, 0.0), v3(0.0, 0.0, 1.0));
    let centre_ahead = sphere(0.0, 0.0, 1.0, 5.0);
    assert!(centre_ahead.first_intersection(&ray, r(0.0001)).is_none());
    let centre_behind = sphere(0.0, 0.0, -1.0, 5.0);
    assert!(centre_behind.first_intersection(&ray, r(0.0001)).is_none());
    let centre_at_origin = sphere(0.0, 0.0, 0.0, 5.0);
    assert!(centre_at_origin.first_intersection(&ray, r(0.0001)).is_none());
}

#[test]
fn sphere_within_near_clipping_is_missed() {
    let ball = sphere(0.0, 0.0, 10.0, 2.0);
    let ray = Ray::new(v3(0.0, 0.0, 0.0), v3(0.0, 0.0, 1.0));
    assert!(ball.first_intersection(&ray, r(7.5)).is_some());
    assert!(ball.first_intersection(&ray, r(8.0)).is_none());
    assert!(ball.first_intersection(&ray, r(8.5)).is_none());
}

#[test]
fn flat_material_glows_and_ends_the_path() {
    let material = FlatColorMaterial { color: rgba(5.0, 4.0, 3.0, 1.0) };
    for normal in [v3(0.0, 1.0, 0.0), v3(1.0, 0.0, 0.0)] {
        let behavior = material.behavior(hit(v3(0.0, -1.0, 0.0), v3(1.0, 2.0, 3.0), normal));
        assert_eq!(behavior.emission, rgba(5.0, 4.0, 3.0, 1.0));
        assert_eq!(behavior.color, rgba(5.0, 4.0, 3.0, 1.0));
        assert!(behavior.next_bounce.is_none());
    }
}

#[test]
fn mirror_turns_the_ray_around_the_normal() {
    let behavior = MirrorMaterial.behavior(
        hit(v3(0.0, -1.0, 0.0), v3(1.0, 2.0, 3.0), v3(0.0, 1.0, 0.0)),
    );
    assert_eq!(behavior.emission, Color::black());
    assert_eq!(behavior.color, Color::white());
    let next = behavior.next_bounce.unwrap();
    assert_eq!(next.origin, v3(1.0, 2.0, 3.0));
    assert_eq!(next.direction.into_inner(), v3(0.0, 1.0, 0.0));
}

#[test]
fn mirror_keeps_what_runs_along_the_surface() {
    let behavior = MirrorMaterial.behavior(
        hit(v3(3.0, -4.0, 0.0), v3(0.0, 0.0, 0.0), v3(0.0, 1.0, 0.0)),
    );
    let next = behavior.next_bounce.unwrap();
    assert_eq!(next.direction.into_inner(), v3(0.6, 0.8, 0.0));
}

#[test]
fn mirror_reflects_at_the_angle_of_incidence() {
    let cases = [
        (v3(1.0, -1.0, 0.0), v3(0.0, 1.0, 0.0)),
        (v3(0.3, -0.2, 0.9), v3(1.0, 2.0, -3.0)),
        (v3(-5.0, 1.0, 2.0), v3(0.5, 0.5, 0.1)),
        (v3(0.0, 0.0, 1.0), v3(0.0, 0.0, -1.0)),
    ];
    for (direction, normal) in cases {
        let geometry = hit(direction, v3(0.0, 0.0, 0.0), normal);
        let d = geometry.ray_direction.into_inner();
        let n = geometry.normal.into_inner();
        let reflected = MirrorMaterial.behavior(geometry).next_bounce.unwrap().direction;
        assert!(close(reflected.into_inner().dot(n), -d.dot(n).0));
        assert!(close(reflected.into_inner().norm(), 1.0));
    }
}

#[test]
fn diffuse_scatters_around_the_normal() {
    let material = DiffuseMaterial { color: rgba(0.75, 0.25, 0.25, 1.0) };
    let geometry = hit(v3(0.0, -1.0, 0.0), v3(1.0, 2.0, 3.0), v3(0.0, 1.0, 0.0));
    let behavior = material.scatter(geometry, r(0.0), r(1.0), r(0.0));
    assert_eq!(behavior.emission, Color::black());
    assert_eq!(behavior.color, rgba(0.75, 0.25, 0.25, 1.0));
    let next = behavior.next_bounce.unwrap();
    assert_eq!(next.origin, v3(1.0, 2.0, 3.0));
    assert_eq!(next.direction.into_inner(), v3(0.0, 1.0, 0.0));
}

#[test]
fn diffuse_scatters_by_the_drawn_numbers() {
    let material = DiffuseMaterial { color: Color::white() };
    let geometry = hit(v3(0.0, -1.0, 0.0), v3(0.0, 0.0, 0.0), v3(0.0, 1.0, 0.0));
    let along_first = material.scatter(geometry, r(1.0), r(1.0), r(0.0)).next_bounce.unwrap();
    assert_eq!(along_first.direction.into_inner(), v3(0.0, 0.0, 1.0));
    let geometry = hit(v3(0.0, -1.0, 0.0), v3(0.0, 0.0, 0.0), v3(0.0, 1.0, 0.0));
    let along_second = material.scatter(geometry, r(1.0), r(0.0), r(1.0)).next_bounce.unwrap();
    assert_eq!(along_second.direction.into_inner(), v3(1.0, 0.0, 0.0));
    let geometry = hit(v3(0.0, -1.0, 0.0), v3(0.0, 0.0, 0.0), v3(0.0, 1.0, 0.0));
    let between = material.scatter(geometry, r(0.6), r(1.0), r(0.0)).next_bounce.unwrap();
    let direction = between.direction.into_inner();
    assert!(close(direction.x, 0.0) && close(direction.y, 0.8) && close(direction.z, 0.6));
}

#[test]
fn diffuse_turns_the_normal_towards_the_ray() {
    let material = DiffuseMaterial { color: Color::white() };
    let from_inside = hit(v3(0.0, 1.0, 0.0), v3(0.0, 0.0, 0.0), v3(0.0, 1.0, 0.0));
    let next = material.scatter(from_inside, r(0.0), r(1.0), r(0.0)).next_bounce.unwrap();
    assert_eq!(next.direction.into_inner(), v3(0.0, -1.0, 0.0));
}

#[test]
fn diffuse_draws_from_the_hemisphere_of_the_ray() {
    let material = DiffuseMaterial { color: rgba(0.25, 0.25, 0.75, 1.0) };
    let mut first: Option<Vec3<Real>> = None;
    let mut distinct = false;
    for _ in 0..64 {
        let geometry = hit(v3(1.0, -1.0, 0.0), v3(4.0, 5.0, 6.0), v3(0.0, 1.0, 0.0));
        let normal = geometry.normal.into_inner();
        let behavior = material.behavior(geometry);
        assert_eq!(behavior.emission, Color::black());
        assert_eq!(behavior.color, rgba(0.25, 0.25, 0.75, 1.0));
        let next = behavior.next_bounce.unwrap();
        assert_eq!(next.origin, v3(4.0, 5.0, 6.0));
        let direction = next.direction.into_inner();
        assert!(close(direction.norm(), 1.0));
        assert!(direction.dot(normal).0 >= -1e-4);
        distinct = distinct || first.map_or(false, |f| f != direction);
        first = first.or(Some(direction));
    }
    assert!(distinct);
}

#[test]
fn material_shape_answers_with_the_material() {
    let element = MaterialShape {
        shape: sphere(0.0, 0.0, 10.0, 2.0),
        material: FlatColorMaterial { color: gray(5.0, 1.0) },
    };
    let ray = Ray::new(v3(0.0, 0.0, 0.0), v3(0.0, 0.0, 1.0));
    let found = element.first_intersection(ray, r(0.0001)).unwrap();
    assert_eq!(found.distance, r(8.0));
    assert_eq!(found.data.emission, gray(5.0, 1.0));
    assert!(found.data.next_bounce.is_none());
    let away = Ray::new(v3(0.0, 0.0, 0.0), v3(0.0, 0.0, -1.0));
    assert!(element.first_intersection(away, r(0.0001)).is_none());
}

#[test]
fn empty_scene_answers_nothing() {
    let scene: VecScene<Vec3<Real>> = VecScene::new();
    let ray = Ray::new(v3(0.0, 0.0, 0.0), v3(0.0, 0.0, 1.0));
    assert!(scene.first_intersection(ray, r(0.0001)).is_none());
}

#[test]
fn scene_answers_with_the_nearer_shape_in_either_order() {
    let near = gray(0.25, 1.0);
    let far = gray(0.75, 1.0);
    let ray = Ray::new(v3(0.0, 0.0, 0.0), v3(0.0, 0.0, 1.0));

    let mut near_first = VecScene::new();
    near_first.add(light(0.0, 0.0, 10.0, 3.0, near));
    near_first.add(light(0.0, 0.0, 12.0, 3.0, far));
    let found = near_first.first_intersection(ray, r(0.0001)).unwrap();
    assert_eq!(found.distance, r(7.0));
    assert_eq!(found.data.emission, near);

    let mut far_first = VecScene::new();
    far_first.add(light(0.0, 0.0, 12.0, 3.0, far));
    far_first.add(light(0.0, 0.0, 10.0, 3.0, near));
    let found = far_first.first_intersection(ray, r(0.0001)).unwrap();
    assert_eq!(found.distance, r(7.0));
    assert_eq!(found.data.emission, near);
}

#[test]
fn scene_skips_the_shapes_that_are_missed() {
    let mut scene = VecScene::new();
    scene.add(light(0.0, 0.0, -10.0, 3.0, gray(0.25, 1.0)));
    scene.add(light(0.0, 0.0, 30.0, 3.0, gray(0.5, 1.0)));
    scene.add(light(0.0, 20.0, 10.0, 3.0, gray(0.75, 1.0)));
    let ray = Ray::new(v3(0.0, 0.0, 0.0), v3(0.0, 0.0, 1.0));
    let found = scene.first_intersection(ray, r(0.0001)).unwrap();
    assert_eq!(found.distance, r(27.0));
    assert_eq!(found.data.emission, gray(0.5, 1.0));
}

#[test]
fn scene_keeps_the_first_of_two_equally_near() {
    let mut scene = VecScene::new();
    scene.add(light(0.0, 0.0, 10.0, 3.0, gray(0.25, 1.0)));
    scene.add(light(0.0, 0.0, 10.0, 3.0, gray(0.75, 1.0)));
    let ray = Ray::new(v3(0.0, 0.0, 0.0), v3(0.0, 0.0, 1.0));
    let found = scene.first_intersection(ray, r(0.0001)).unwrap();
    assert_eq!(found.data.emission, gray(0.25, 1.0));
}

#[test]
fn scene_inside_a_scene() {
    let mut inner = VecScene::new();
    inner.add(light(0.0, 0.0, 10.0, 3.0, gray(0.25, 1.0)));
    inner.add(light(0.0, 0.0, 20.0, 3.0, gray(0.5, 1.0)));
    let mut outer = VecScene::new();
    outer.add(light(0.0, 0.0, 15.0, 3.0, gray(0.75, 1.0)));
    outer.add(Box::new(inner));
    outer.add(light(0.0, 0.0, 8.0, 0.5, gray(1.0, 1.0)));
    let ray = Ray::new(v3(0.0, 0.0, 0.0), v3(0.0, 0.0, 1.0));
    let found = outer.first_intersection(ray, r(0.0001)).unwrap();
    assert_eq!(found.distance, r(7.0));
    assert_eq!(found.data.emission, gray(0.25, 1.0));
    let found = outer.first_intersection(ray, r(7.25)).unwrap();
    assert_eq!(found.distance, r(7.5));
    assert_eq!(found.data.emission, gray(1.0, 1.0));
}

#[test]
fn camera_looks_along_forward() {
    let camera = Simple3DCamera::new(v3(0.0, 0.0, -20.0), Vec3::positive_z(), Vec3::positive_y());
    assert_eq!(camera.position(), v3(0.0, 0.0, -20.0));
    let ray = camera.ray(v2(0.0, 0.0));
    assert_eq!(ray.origin, v3(0.0, 0.0, -20.0));
    assert_eq!(ray.direction.into_inner(), v3(0.0, 0.0, 1.0));
}

#[test]
fn camera_spans_the_screen_with_right_and_up() {
    let camera = Simple3DCamera::new(v3(0.0, 0.0, 0.0), Vec3::positive_z(), Vec3::positive_y());
    assert_eq!(camera.ray(v2(0.75, 0.0)).direction.into_inner(), v3(0.6, 0.0, 0.8));
    assert_eq!(camera.ray(v2(0.0, -0.75)).direction.into_inner(), v3(0.0, -0.6, 0.8));
    let sideways = Simple3DCamera::new(v3(0.0, 0.0, 0.0), Vec3::positive_x(), Vec3::positive_y());
    assert_eq!(sideways.ray(v2(0.75, 0.0)).direction.into_inner(), v3(0.8, 0.0, -0.6));
    assert_eq!(sideways.ray(v2(0.0, 0.75)).direction.into_inner(), v3(0.8, 0.6, 0.0));
}

#[test]
fn camera_can_be_moved() {
    let mut camera = Simple3DCamera::new(v3(0.0, 0.0, 0.0), Vec3::positive_z(), Vec3::positive_y());
    camera.set_position(v3(1.0, 2.0, 3.0));
    assert_eq!(camera.position(), v3(1.0, 2.0, 3.0));
    let ray = camera.ray(v2(0.75, 0.0));
    assert_eq!(ray.origin, v3(1.0, 2.0, 3.0));
    assert_eq!(ray.direction.into_inner(), v3(0.6, 0.0, 0.8));
}

#[test]
fn behavior_adds_what_arrives_times_its_color() {
    let behavior: Behavior<Vec3<Real>> = Behavior {
        emission: rgba(0.5, 0.0, 0.25, 1.0),
        color: rgba(0.5, 2.0, 1.0, 0.5),
        next_bounce: None,
    };
    assert_eq!(behavior.shade(rgba(1.0, 0.25, 4.0, 1.0)), rgba(1.0, 0.5, 4.25, 1.5));
}

#[test]
fn trace_of_a_ray_that_meets_nothing_is_the_background() {
    let camera = Simple3DCamera::new(v3(0.0, 0.0, -20.0), Vec3::positive_z(), Vec3::positive_y());
    let mut scene = VecScene::new();
    scene.add(light(0.0, -100.0, 0.0, 90.0, Color::white()));
    let raytracer = Raytracer { camera, element: scene };
    let background = rgba(0.1, 0.2, 0.3, 0.4);
    let options =
        TracingOptions { background_color: background, max_bounces: 1, near_clipping: r(0.0001) };
    assert_eq!(raytracer.trace(v2(0.0, 0.5), &options), background);
    assert_eq!(raytracer.trace(v2(0.0, 0.0), &options), background);
}

#[test]
fn emissive_sphere_below_the_camera() {
    let camera = Simple3DCamera::new(v3(0.0, 0.0, -20.0), Vec3::positive_z(), Vec3::positive_y());
    let mut scene = VecScene::new();
    scene.add(light(0.0, -100.0, 0.0, 90.0, Color::white()));
    let raytracer = Raytracer { camera, element: scene };
    let options = options(1);
    assert_eq!(raytracer.trace(v2(0.0, 0.5), &options), Color::clear());
    assert_eq!(raytracer.trace(v2(0.3, 0.0), &options), Color::clear());
    assert_eq!(raytracer.trace(v2(0.0, -1.0), &options), Color::white());
    assert_eq!(raytracer.trace(v2(0.1, -2.0), &options), Color::white());
}

#[test]
fn mirror_without_a_bounce_left_shows_what_it_gives_off() {
    let camera = Simple3DCamera::new(v3(0.0, 0.0, 0.0), Vec3::positive_z(), Vec3::positive_y());
    let mut scene = VecScene::new();
    scene.add(mirror(0.0, 0.0, 10.0, 2.0));
    scene.add(light(0.0, 0.0, -10.0, 2.0, gray(5.0, 1.0)));
    let raytracer = Raytracer { camera, element: scene };
    assert_eq!(raytracer.trace(v2(0.0, 0.0), &options(0)), Color::black());
}

#[test]
fn mirror_with_a_bounce_left_shows_the_light() {
    let camera = Simple3DCamera::new(v3(0.0, 0.0, 0.0), Vec3::positive_z(), Vec3::positive_y());
    let mut scene = VecScene::new();
    scene.add(mirror(0.0, 0.0, 10.0, 2.0));
    scene.add(light(0.0, 0.0, -10.0, 2.0, gray(5.0, 1.0)));
    let raytracer = Raytracer { camera, element: scene };
    assert_eq!(raytracer.trace(v2(0.0, 0.0), &options(1)), rgba(5.0, 5.0, 5.0, 2.0));
    assert_eq!(raytracer.trace(v2(0.0, 0.0), &options(5)), rgba(5.0, 5.0, 5.0, 2.0));
}

#[test]
fn two_mirrors_use_up_the_bounces() {
    let camera = Simple3DCamera::new(v3(0.0, 0.0, 0.0), Vec3::positive_z(), Vec3::positive_y());
    let mut scene = VecScene::new();
    scene.add(mirror(0.0, 0.0, 10.0, 2.0));
    scene.add(mirror(0.0, 0.0, -10.0, 2.0));
    let raytracer = Raytracer { camera, element: scene };
    let background = rgba(0.5, 0.5, 0.5, 0.5);
    for bounces in 0..6 {
        let options = TracingOptions {
            background_color: background,
            max_bounces: bounces,
            near_clipping: r(0.0001),
        };
        let alpha = 1.0 + bounces as f32;
        assert_eq!(raytracer.trace(v2(0.0, 0.0), &options), rgba(0.0, 0.0, 0.0, alpha));
    }
}

#[test]
fn mirror_that_reflects_into_the_void_adds_the_background() {
    let camera = Simple3DCamera::new(v3(0.0, 0.0, 0.0), Vec3::positive_z(), Vec3::positive_y());
    let mut scene = VecScene::new();
    scene.add(mirror(0.0, 0.0, 10.0, 2.0));
    let raytracer = Raytracer { camera, element: scene };
    let background = rgba(0.25, 0.5, 0.75, 0.5);
    let options =
        TracingOptions { background_color: background, max_bounces: 3, near_clipping: r(0.0001) };
    assert_eq!(raytracer.trace(v2(0.0, 0.0), &options), rgba(0.25, 0.5, 0.75, 1.5));
}

#[test]
fn options_with_a_negative_near_clipping_are_not_valid() {
    assert!(options(3).is_valid());
    let zero = TracingOptions { background_color: Color::clear(), max_bounces: 3, near_clipping: r(0.0) };
    assert!(zero.is_valid());
    let negative =
        TracingOptions { background_color: Color::clear(), max_bounces: 3, near_clipping: r(-0.5) };
    assert!(!negative.is_valid());
}

#[test]
fn an_intersection_holds_a_distance_and_its_data() {
    let found = Intersection { distance: r(2.0), data: 7u8 };
    assert_eq!(found.distance, r(2.0));
    assert_eq!(found.data, 7);
}
