use weather::compass::degrees_to_compass;

const UNKNOWN: &str = "Error med att hämta vindriktingen";

const POINTS: [&str; 16] = [
    "Nord",
    "Nord Nordöst",
    "Nordöst",
    "Öst Nordöst",
    "Öst",
    "Öst Sydöst",
    "Sydöst",
    "Syd Sydöst",
    "Syd",
    "Syd Sydväst",
    "Sydväst",
    "Väst Sydväst",
    "Väst",
    "West Nordväst",
    "Nordväst",
    "Nord Nordväst",
];

#[test]
fn north_at_zero() {
    assert_eq!(degrees_to_compass(0), "Nord");
}

#[test]
fn northeast_at_forty_five() {
    assert_eq!(degrees_to_compass(45), "Nordöst");
}

#[test]
fn north_at_three_hundred_sixty() {
    assert_eq!(degrees_to_compass(360), "Nord");
}

#[test]
fn boundaries_belong_to_lower_range() {
    let cases: [(i32, &str); 20] = [
        (21, "Nord"),
        (22, "Nord Nordöst"),
        (43, "Nord Nordöst"),
        (44, "Nordöst"),
        (46, "Öst Nordöst"),
        (66, "Öst Nordöst"),
        (67, "Öst"),
        (111, "Öst"),
        (112, "Öst Sydöst"),
        (135, "Sydöst"),
        (136, "Syd Sydöst"),
        (180, "Syd"),
        (202, "Syd Sydväst"),
        (225, "Sydväst"),
        (246, "Väst Sydväst"),
        (270, "Väst"),
        (313, "West Nordväst"),
        (314, "Nordväst"),
        (336, "Nord Nordväst"),
        (337, "Nord"),
    ];
    for (deg, label) in cases {
        assert_eq!(degrees_to_compass(deg), label, "bearing {}", deg);
    }
}

#[test]
fn every_bearing_in_range_is_a_compass_point() {
    for deg in 0..=360 {
        let label = degrees_to_compass(deg);
        assert!(POINTS.contains(&label), "bearing {}", deg);
    }
    for point in POINTS {
        assert!((0..=360).any(|d| degrees_to_compass(d) == point), "{}", point);
    }
}

#[test]
fn bearing_out_of_range_gives_error_label() {
    assert_eq!(degrees_to_compass(-1), UNKNOWN);
    assert_eq!(degrees_to_compass(361), UNKNOWN);
    assert_eq!(degrees_to_compass(i32::MIN), UNKNOWN);
    assert_eq!(degrees_to_compass(i32::MAX), UNKNOWN);
    assert!(!POINTS.contains(&UNKNOWN));
}
