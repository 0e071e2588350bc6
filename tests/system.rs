use solar_rustlib::generator::{asteroid, AsteroidSample};
use solar_rustlib::ids::{decimal_string, numbered_id_string};
use solar_rustlib::object::{DefaultObject, DefaultObjectBuilder};
use solar_rustlib::orbit::{Color, FnKinematics, ObjectType, ObjectVisuals, Orbit, Point};
use solar_rustlib::properties::ObjectPropertyValue::Integer;
use solar_rustlib::stations::station_register;
use solar_rustlib::system::System;

fn f(bits: u64) -> f64 {
    f64::from_bits(bits)
}

fn pt(x: f64, y: f64) -> Point {
    Point { x: x.to_bits(), y: y.to_bits() }
}

fn shift(origin: Point, offset: Point) -> Point {
    pt(f(origin.x) + f(offset.x), f(origin.y) + f(offset.y))
}

fn advance_angle(angle: u64, orbital_speed: u64, elapsed: u64) -> u64 {
    let two_pi = 2.0 * std::f64::consts::PI;
    (f(angle) - f(orbital_speed) * f(elapsed)).rem_euclid(two_pi).to_bits()
}

fn polar(origin: Point, altitude: u64, angle: u64) -> Point {
    let a = f(angle);
    pt(f(origin.x) + f(altitude) * a.cos(), f(origin.y) + f(altitude) * a.sin())
}

fn add(a: u64, b: u64) -> u64 {
    (f(a) + f(b)).to_bits()
}

type FloatMath = FnKinematics<fn(Point, Point) -> Point, fn(u64, u64, u64) -> u64, fn(Point, u64, u64) -> Point, fn(u64, u64) -> u64>;

fn float_math() -> FloatMath {
    FnKinematics { shift_fn: shift, advance_angle_fn: advance_angle, polar_fn: polar, add_fn: add }
}

fn star(x: f64, y: f64) -> DefaultObject {
    DefaultObjectBuilder::with_visuals(ObjectType::Star, ObjectVisuals::circle(50.0f64.to_bits(), (255, 200, 0)))
        .orbit(Orbit::Fixed(pt(x, y)))
        .build()
}

fn rock(origin: usize) -> DefaultObject {
    asteroid(
        origin,
        AsteroidSample {
            radius: 2.0f64.to_bits(),
            altitude: 100.0f64.to_bits(),
            angle: 1.0f64.to_bits(),
            speed: 0.1f64.to_bits(),
            color: Color { r: 1, g: 2, b: 3, a: 255 },
        },
    )
}

#[test]
fn sun_and_planet_after_one_tick() {
    let mut system = System::new("Sol");
    assert!(system.add_object("sun".to_string(), star(300.0, 225.0)));
    let planet = DefaultObjectBuilder::with_visuals(ObjectType::Planet, ObjectVisuals::circle(20.0f64.to_bits(), (0, 0, 255)))
        .orbit(Orbit::Circular {
            altitude: 125.0f64.to_bits(),
            orbital_speed: 0.5f64.to_bits(),
            angle: 0.0f64.to_bits(),
            origin: 0,
        })
        .build();
    assert!(system.add_object("planet".to_string(), planet));
    system.update(&float_math(), 1.0f64.to_bits());

    let sun = system.get("sun").unwrap();
    assert_eq!(sun.position(), pt(300.0, 225.0));
    let planet = system.get("planet").unwrap();
    let angle = match planet.orbit {
        Orbit::Circular { angle, .. } => f(angle),
        _ => panic!("the orbit changed variant"),
    };
    assert!((angle - 5.7832).abs() < 1e-4);
    let p = planet.position();
    assert!((f(p.x) - (300.0 + 125.0 * angle.cos())).abs() < 1e-9);
    assert!((f(p.y) - (225.0 + 125.0 * angle.sin())).abs() < 1e-9);
    assert_eq!(f(planet.time_alive), 1.0);
}

#[test]
fn fixed_orbit_ignores_elapsed_time() {
    let mut orbit = Orbit::Fixed(pt(4.0, -2.0));
    for dt in [0.0, 1.0, 1000.0, -3.5] {
        assert_eq!(orbit.compute(&float_math(), f64::to_bits(dt), pt(9.0, 9.0)), pt(4.0, -2.0));
    }
    assert_eq!(orbit, Orbit::Fixed(pt(4.0, -2.0)));
}

#[test]
fn circular_orbit_turns_by_speed_times_dt() {
    let mut orbit = Orbit::Circular { altitude: 1.0f64.to_bits(), orbital_speed: 0.25f64.to_bits(), angle: 1.0f64.to_bits(), origin: 0 };
    for _ in 0..3 {
        orbit.compute(&float_math(), 1.0f64.to_bits(), pt(0.0, 0.0));
    }
    match orbit {
        Orbit::Circular { angle, .. } => assert!((f(angle) - 0.25).abs() < 1e-12),
        _ => panic!("the orbit changed variant"),
    }
}

#[test]
fn relative_orbit_follows_origin() {
    let mut system = System::new("s");
    system.add_object("a".to_string(), star(10.0, 20.0));
    let moon = DefaultObjectBuilder::with_visuals(ObjectType::Moon, ObjectVisuals::square(3.0f64.to_bits(), (9, 9, 9)))
        .orbit(Orbit::Relative { position: pt(1.0, -1.0), origin: 0 })
        .build();
    system.add_object("b".to_string(), moon);
    system.update(&float_math(), 0.5f64.to_bits());
    assert_eq!(system.object(1).position(), pt(11.0, 19.0));
}

#[test]
fn init_places_fixed_objects() {
    let mut system = System::new("s");
    system.add_object("a".to_string(), star(7.0, 8.0));
    system.add_object("b".to_string(), rock(0));
    assert_eq!(system.object(0).position(), pt(0.0, 0.0));
    system.init();
    assert_eq!(system.object(0).position(), pt(7.0, 8.0));
    assert_eq!(system.object(1).position(), pt(0.0, 0.0));
}

#[test]
fn duplicate_id_is_refused() {
    let mut system = System::new("s");
    assert!(system.add_object("a".to_string(), star(1.0, 1.0)));
    assert!(!system.add_object("a".to_string(), star(2.0, 2.0)));
    assert_eq!(system.len(), 1);
    assert_eq!(system.get("a").unwrap().orbit, Orbit::Fixed(pt(1.0, 1.0)));
    assert_eq!(system.handle("a"), Some(0));
    assert_eq!(system.handle("b"), None);
    assert!(system.get("b").is_none());
}

#[test]
fn batch_gets_numbered_ids() {
    let mut system = System::new("s");
    system.add_object("sun".to_string(), star(0.0, 0.0));
    let batch = vec![rock(0), rock(0), rock(0)];
    assert_eq!(system.generate_objects("belt", batch), Ok(()));
    assert_eq!(system.len(), 4);
    assert_eq!(system.id(1), "belt-1");
    assert_eq!(system.id(2), "belt-2");
    assert_eq!(system.id(3), "belt-3");
    assert!(system.get("belt-3").is_some());
}

#[test]
fn batch_stops_at_first_taken_id() {
    let mut system = System::new("s");
    system.add_object("sun".to_string(), star(0.0, 0.0));
    system.add_object("belt-2".to_string(), rock(0));
    let r = system.generate_objects("belt", vec![rock(0), rock(0), rock(0)]);
    assert_eq!(r, Err("System::generate_objects : id \"belt-2\" already taken".to_string()));
    assert_eq!(system.len(), 3);
    assert_eq!(system.id(2), "belt-1");
    assert!(system.get("belt-3").is_none());
}

#[test]
fn empty_batch_is_fine() {
    let mut system = System::new("s");
    assert_eq!(system.generate_objects("x", Vec::new()), Ok(()));
    assert_eq!(system.len(), 0);
    assert_eq!(system.name(), "s");
}

#[test]
fn ids_are_decimal() {
    assert_eq!(decimal_string(0), "0");
    assert_eq!(decimal_string(7), "7");
    assert_eq!(decimal_string(10), "10");
    assert_eq!(decimal_string(1203), "1203");
    assert_eq!(decimal_string(usize::MAX), usize::MAX.to_string());
    assert_eq!(numbered_id_string("belt", 12), "belt-12");
    assert_eq!(numbered_id_string("", 1), "-1");
}

#[test]
fn register_of_an_object_can_be_changed() {
    let mut system = System::new("s");
    system.add_object("a".to_string(), star(0.0, 0.0));
    system.object_register_mut(0).add_property("level", Integer(1), "Current level.");
    system.object_register_mut(0).get_int_mut("level").map(|v| *v += 1);
    assert_eq!(system.object(0).register().get_int("level"), Some(&2));
    system.update(&float_math(), 1.0f64.to_bits());
    assert_eq!(system.object(0).register().get_int("level"), Some(&2));
}

#[test]
fn builder_defaults() {
    let o = DefaultObjectBuilder::with_visuals(ObjectType::Station, ObjectVisuals::square(10.0f64.to_bits(), (100, 200, 200))).build();
    assert_eq!(o.orbit, Orbit::Fixed(pt(0.0, 0.0)));
    assert_eq!(o.position(), pt(0.0, 0.0));
    assert_eq!(o.time_alive, 0);
    assert_eq!(o.object_type(), ObjectType::Station);
    assert_eq!(*o.visuals(), ObjectVisuals::Square { size: 10.0f64.to_bits(), color: Color { r: 100, g: 200, b: 200, a: 255 } });
    assert_eq!(o.register().get_int("anything"), None);
}

#[test]
fn system_register_holds_name_and_version() {
    let mut system = System::new("Sol");
    let reg = system.register();
    assert_eq!(reg.get_text("system_name"), Some(&"Sol".to_string()));
    assert_eq!(reg.get_int("data_version"), Some(&0));
    assert_eq!(reg.get_description("system_name"), Some(&"The name of the current solar system.".to_string()));
    assert!(!reg.get("data_version").unwrap().is_mutable());
    system.add_object("a".to_string(), star(0.0, 0.0));
    system.update(&float_math(), 1.0f64.to_bits());
    assert_eq!(system.register().get_text("system_name"), Some(&"Sol".to_string()));
}

#[test]
fn station_register_starts_stocked() {
    let mut reg = station_register();
    assert_eq!(reg.get_int("level"), Some(&1));
    assert_eq!(reg.get_float("minerals"), Some(&0.0f64.to_bits()));
    assert_eq!(reg.get_float("minerals_max"), Some(&1000.0f64.to_bits()));
    assert_eq!(reg.get_float("energy"), Some(&0.0f64.to_bits()));
    assert_eq!(reg.get_float("energy_max"), Some(&1000.0f64.to_bits()));
    assert_eq!(reg.get_float("energy_rate"), Some(&10.0f64.to_bits()));
    assert_eq!(reg.get_display_name("energy_rate"), Some(&"Energy production rate".to_string()));
    assert_eq!(reg.get_display_name("level"), None);
    assert_eq!(reg.get_description("minerals"), Some(&"Current amount of minerals in stock.".to_string()));
    assert_eq!(reg.keys().len(), 6);
    assert!(reg.get_float_mut("energy").is_some());
}

#[test]
fn time_alive_accumulates() {
    let mut system = System::new("s");
    system.add_object("a".to_string(), star(0.0, 0.0));
    system.update(&float_math(), 0.25f64.to_bits());
    system.update(&float_math(), 0.5f64.to_bits());
    assert_eq!(f(system.object(0).time_alive), 0.75);
}
