use gestro::direction::Direction;

#[test]
fn test_all_directions_present() {
    assert_eq!(Direction::ALL.len(), 8);
}

#[test]
fn all_directions_run_clockwise_from_north() {
    assert_eq!(
        Direction::ALL,
        [
            Direction::N,
            Direction::NE,
            Direction::E,
            Direction::SE,
            Direction::S,
            Direction::SW,
            Direction::W,
            Direction::NW,
        ]
    );
    for (i, d) in Direction::ALL.iter().enumerate() {
        assert_eq!(d.index(), i);
    }
}

#[test]
fn labels_name_screen_directions() {
    assert_eq!(Direction::N.label(), "Up");
    assert_eq!(Direction::NE.label(), "Up-Right");
    assert_eq!(Direction::E.label(), "Right");
    assert_eq!(Direction::SE.label(), "Down-Right");
    assert_eq!(Direction::S.label(), "Down");
    assert_eq!(Direction::SW.label(), "Down-Left");
    assert_eq!(Direction::W.label(), "Left");
    assert_eq!(Direction::NW.label(), "Up-Left");
}

#[test]
fn labels_are_distinct() {
    for a in Direction::ALL.iter() {
        for b in Direction::ALL.iter() {
            if a != b {
                assert_ne!(a.label(), b.label());
            }
        }
    }
}

#[test]
fn directions_print_as_their_names() {
    let names: Vec<String> = Direction::ALL.iter().map(|d| d.to_string()).collect();
    assert_eq!(names, vec!["N", "NE", "E", "SE", "S", "SW", "W", "NW"]);
    for d in Direction::ALL.iter() {
        assert_eq!(d.to_string(), format!("{:?}", d));
    }
}
