use raytracer::{
    render_image, Color, Component, DiffuseMaterial, Fixed, FlatColorMaterial, MaterialShape,
    MirrorMaterial, Ray, Raytracer, Scene, SceneElement, Shape, Simple3DCamera, Sphere,
    TracingOptions, Vec2, Vec3, VecScene, Vector,
};

const ONE: i64 = 1 << 32;

fn whole(n: i64) -> Fixed {
    Fixed { bits: n * ONE }
}

fn ratio(numerator: i64, denominator: i64) -> Fixed {
    Fixed { bits: numerator * ONE / denominator }
}

fn v3(x: i64, y: i64, z: i64) -> Vec3<Fixed> {
    Vec3::new(whole(x), whole(y), whole(z))
}

fn gray(brightness: Fixed, alpha: Fixed) -> Color<Fixed> {
    Color::new_gray(brightness, alpha)
}

fn sphere(x: i64, y: i64, z: i64, radius: i64) -> Sphere<Fixed> {
    Sphere { center: v3(x, y, z), radius: whole(radius) }
}

fn options(max_bounces: usize) -> TracingOptions<Fixed> {
    TracingOptions {
        background_color: Color::clear(),
        max_bounces,
        near_clipping: ratio(1, 10_000),
    }
}

fn as_float(value: Fixed) -> f64 {
    value.bits as f64 / ONE as f64
}

#[test]
fn fixed_counts() {
    assert_eq!(Fixed::from_count(0), whole(0));
    assert_eq!(Fixed::from_count(1).bits, 4_294_967_296);
    assert_eq!(Fixed::from_count(255), whole(255));
    assert_eq!(Fixed::from_count(2_147_483_647), whole(2_147_483_647));
    assert_eq!(Fixed::from_count(2_147_483_648).bits, i64::MAX);
    assert_eq!(Fixed::from_count(usize::MAX).bits, i64::MAX);
}

#[test]
fn fixed_sums_and_differences() {
    assert_eq!(ratio(3, 2).add(ratio(5, 4)), ratio(11, 4));
    assert_eq!(ratio(3, 2).sub(ratio(5, 4)), ratio(1, 4));
    assert_eq!(ratio(3, 2).sub(whole(2)), ratio(-1, 2));
    assert_eq!(whole(7).neg(), whole(-7));
    assert_eq!(whole(0).neg(), whole(0));
}

#[test]
fn fixed_stays_within_its_range() {
    let most = Fixed { bits: i64::MAX };
    let least = Fixed { bits: i64::MIN };
    assert_eq!(most.add(whole(1)), most);
    assert_eq!(least.sub(whole(1)), least);
    assert_eq!(least.neg(), most);
    assert_eq!(most.mul(whole(2)), most);
    assert_eq!(most.mul(whole(-2)), least);
    assert_eq!(least.mul(least), most);
    assert_eq!(whole(1_000_000).mul(whole(1_000_000)), most);
    assert_eq!(whole(1_000_000).div(Fixed { bits: 1 }), most);
    assert_eq!(whole(-1_000_000).div(Fixed { bits: 1 }), least);
}

#[test]
fn fixed_products() {
    assert_eq!(ratio(3, 2).mul(ratio(5, 2)), ratio(15, 4));
    assert_eq!(ratio(-3, 2).mul(ratio(5, 2)), ratio(-15, 4));
    assert_eq!(ratio(-3, 2).mul(ratio(-5, 2)), ratio(15, 4));
    assert_eq!(whole(46_340).mul(whole(46_340)), whole(2_147_395_600));
    assert_eq!(whole(5).mul(whole(0)), whole(0));
}

#[test]
fn fixed_products_are_cut_off_towards_zero() {
    let least_step = Fixed { bits: 1 };
    assert_eq!(least_step.mul(ratio(1, 2)), whole(0));
    assert_eq!(least_step.neg().mul(ratio(1, 2)), whole(0));
    assert_eq!(Fixed { bits: 3 }.mul(ratio(1, 2)).bits, 1);
    assert_eq!(Fixed { bits: -3 }.mul(ratio(1, 2)).bits, -1);
}

#[test]
fn fixed_quotients() {
    assert_eq!(whole(15).div(whole(4)), ratio(15, 4));
    assert_eq!(whole(1).div(whole(3)).bits, 1_431_655_765);
    assert_eq!(whole(-1).div(whole(3)).bits, -1_431_655_765);
    assert_eq!(whole(1).div(whole(-3)).bits, -1_431_655_765);
    assert_eq!(whole(-1).div(whole(-3)).bits, 1_431_655_765);
    assert_eq!(whole(0).div(whole(3)), whole(0));
}

#[test]
fn fixed_division_by_zero_is_the_end_of_the_range() {
    assert_eq!(whole(1).div(whole(0)).bits, i64::MAX);
    assert_eq!(whole(-1).div(whole(0)).bits, i64::MIN);
    assert_eq!(whole(0).div(whole(0)), whole(0));
}

#[test]
fn fixed_roots() {
    assert_eq!(whole(4).sqrt(), whole(2));
    assert_eq!(whole(49).sqrt(), whole(7));
    assert_eq!(ratio(1, 4).sqrt(), ratio(1, 2));
    assert_eq!(whole(2).sqrt().bits, 6_074_000_999);
    assert_eq!(whole(0).sqrt(), whole(0));
    assert_eq!(whole(-4).sqrt(), whole(0));
    assert_eq!(Fixed { bits: 1 }.sqrt().bits, 65_536);
    let greatest = Fixed { bits: i64::MAX }.sqrt();
    assert_eq!(greatest.bits, 199_032_864_766_430);
    assert!(greatest.mul(greatest).bits <= i64::MAX);
}

#[test]
fn fixed_comparisons() {
    assert!(ratio(1, 2).lt(ratio(3, 4)));
    assert!(!ratio(3, 4).lt(ratio(1, 2)));
    assert!(!ratio(3, 4).lt(ratio(3, 4)));
    assert!(whole(-1).lt(whole(0)));
    assert!(ratio(3, 4).equals(ratio(6, 8)));
    assert!(!ratio(3, 4).equals(ratio(1, 2)));
}

#[test]
fn fixed_bytes() {
    assert_eq!(whole(0).to_byte(), 0);
    assert_eq!(ratio(255, 2).to_byte(), 127);
    assert_eq!(whole(255).to_byte(), 255);
    assert_eq!(whole(256).to_byte(), 255);
    assert_eq!(whole(-3).to_byte(), 0);
    assert_eq!(ratio(1, 2).mul(whole(255)).to_byte(), 127);
}

#[test]
fn fixed_from_a_drawn_word() {
    assert_eq!(Fixed::from_random_word(0), whole(0));
    assert_eq!(Fixed::from_random_word(1 << 31), ratio(1, 2));
    assert_eq!(Fixed::from_random_word(u32::MAX).bits, ONE - 1);
    assert!(Fixed::from_random_word(u32::MAX).lt(whole(1)));
}

#[test]
fn fixed_full_turn() {
    assert_eq!(Fixed::tau().bits, 26_986_075_409);
    assert!((as_float(Fixed::tau()) - std::f64::consts::TAU).abs() < 1e-9);
}

#[test]
fn fixed_sine_at_the_quarters() {
    let quarter = Fixed { bits: 6_746_518_852 };
    let half = Fixed { bits: 13_493_037_705 };
    assert_eq!(whole(0).sin(), whole(0));
    assert_eq!(quarter.sin(), whole(1));
    assert_eq!(half.sin(), whole(0));
    assert_eq!(half.add(quarter).sin(), whole(-1));
    assert_eq!(whole(0).cos(), whole(1));
    assert_eq!(quarter.cos().bits, 0);
    assert_eq!(Fixed { bits: 2_248_839_617 }.sin().bits, 2_147_483_647);
}

#[test]
fn fixed_sine_and_cosine_are_near_the_true_ones() {
    let mut bits: i64 = -60_000_000_000;
    while bits < 60_000_000_000 {
        let angle = Fixed { bits };
        let x = as_float(angle);
        assert!((as_float(angle.sin()) - x.sin()).abs() < 0.002, "sine of {}", x);
        assert!((as_float(angle.cos()) - x.cos()).abs() < 0.002, "cosine of {}", x);
        bits += 7_654_321;
    }
}

#[test]
fn fixed_vectors() {
    assert_eq!(v3(2, 3, 6).norm(), whole(7));
    assert_eq!(v3(0, 0, 5).normalized().into_inner(), v3(0, 0, 1));
    assert_eq!(v3(1, 2, 3).cross(v3(-4, 5, 1)), v3(-13, -13, 13));
    assert_eq!(v3(1, 2, 3).dot(v3(4, 5, 6)), whole(32));
    let unit = v3(3, 0, 4).normalized().into_inner();
    assert_eq!(unit, Vec3::new(ratio(3, 5), whole(0), ratio(4, 5)));
}

#[test]
fn fixed_sphere_straight_ahead() {
    let ball = sphere(0, 0, 10, 2);
    let ray = Ray::new(v3(0, 0, 0), v3(0, 0, 1));
    let found = ball.first_intersection(&ray, ratio(1, 10_000)).unwrap();
    assert_eq!(found.distance, whole(8));
    assert_eq!(found.data.intersection, v3(0, 0, 8));
    assert_eq!(found.data.normal.into_inner(), v3(0, 0, -1));
    assert!(ball.first_intersection(&ray, whole(8)).is_none());
}

#[test]
fn fixed_scene_with_a_mirror_and_a_light() {
    let camera = Simple3DCamera::new(v3(0, 0, 0), Vec3::positive_z(), Vec3::positive_y());
    let mut scene = VecScene::new();
    scene.add(Box::new(MaterialShape { shape: sphere(0, 0, 10, 2), material: MirrorMaterial }));
    scene.add(Box::new(MaterialShape {
        shape: sphere(0, 0, -10, 2),
        material: FlatColorMaterial { color: gray(whole(5), whole(1)) },
    }));
    let ray = Ray::new(v3(0, 0, 0), v3(0, 0, 1));
    assert_eq!(scene.first_intersection(ray, ratio(1, 10_000)).unwrap().distance, whole(8));
    let raytracer = Raytracer { camera, element: scene };
    let centre = Vec2::new(whole(0), whole(0));
    assert_eq!(raytracer.trace(centre, &options(0)), Color::black());
    assert_eq!(raytracer.trace(centre, &options(1)), Color::new(whole(5), whole(5), whole(5), whole(2)));
}

#[test]
fn fixed_emissive_sphere_below_the_camera() {
    let camera = Simple3DCamera::new(v3(0, 0, -20), Vec3::positive_z(), Vec3::positive_y());
    let mut scene = VecScene::new();
    scene.add(Box::new(MaterialShape {
        shape: sphere(0, -100, 0, 90),
        material: FlatColorMaterial { color: Color::white() },
    }));
    let raytracer = Raytracer { camera, element: scene };
    assert_eq!(raytracer.trace(Vec2::new(whole(0), ratio(1, 2)), &options(1)), Color::clear());
    assert_eq!(raytracer.trace(Vec2::new(whole(0), whole(-1)), &options(1)), Color::white());
}

#[test]
fn fixed_picture_is_the_same_with_any_number_of_workers() {
    let camera = Simple3DCamera::new(v3(0, 0, -20), Vec3::positive_z(), Vec3::positive_y());
    let mut scene = VecScene::new();
    scene.add(Box::new(MaterialShape { shape: sphere(-5, -5, 5, 3), material: MirrorMaterial }));
    scene.add(Box::new(MaterialShape {
        shape: sphere(0, 100, 0, 90),
        material: FlatColorMaterial { color: gray(whole(5), whole(1)) },
    }));
    scene.add(Box::new(MaterialShape {
        shape: sphere(0, -1000, 5, 990),
        material: FlatColorMaterial { color: gray(ratio(1, 4), whole(1)) },
    }));
    let raytracer = Raytracer { camera, element: scene };
    let alone = rayon::ThreadPoolBuilder::new().num_threads(1).build().unwrap();
    let many = rayon::ThreadPoolBuilder::new().num_threads(5).build().unwrap();
    let first = alone.install(|| render_image(&raytracer, 12, 9, 2, &options(3)));
    let second = many.install(|| render_image(&raytracer, 12, 9, 2, &options(3)));
    assert_eq!(first.pixels(), second.pixels());
    assert_eq!(first.pixels()[first.index(6, 0)], Color::white());
    assert_eq!(first.pixels()[first.index(6, 8)], gray(ratio(1, 4), whole(1)));
}

#[test]
fn fixed_diffuse_bounces_stay_above_the_surface() {
    let material = DiffuseMaterial { color: Color::<Fixed>::white() };
    for _ in 0..64 {
        let hit = raytracer::Hit {
            ray_direction: v3(0, -1, 0).normalized(),
            intersection: v3(1, 2, 3),
            normal: v3(0, 1, 0).normalized(),
        };
        let next = raytracer::Material::behavior(&material, hit).next_bounce.unwrap();
        assert_eq!(next.origin, v3(1, 2, 3));
        let direction = next.direction.into_inner();
        assert!(direction.y.bits >= 0);
        assert!((as_float(direction.norm()) - 1.0).abs() < 1e-3);
    }
}
