use gestro::config::{Bindings, Modifier, Shortcut};
use gestro::direction::Direction;

fn shortcut(mods: &[&str], key: &str, label: Option<&str>) -> Shortcut {
    Shortcut {
        modifiers: mods.iter().map(|m| Modifier(m.to_string())).collect(),
        key: key.to_string(),
        label: label.map(|l| l.to_string()),
    }
}

#[test]
fn new_bindings_are_empty() {
    let b = Bindings::new();
    for d in Direction::ALL.iter() {
        assert!(b.get(*d).is_none());
    }
}

#[test]
fn get_after_insert_gives_the_shortcut() {
    let mut b = Bindings::new();
    b.insert(Direction::E, shortcut(&["Ctrl"], "Right", Some("Test East")));
    b.insert(Direction::W, shortcut(&["Ctrl"], "Left", None));
    assert_eq!(b.get(Direction::E), Some(&shortcut(&["Ctrl"], "Right", Some("Test East"))));
    assert_eq!(b.get(Direction::W).unwrap().key, "Left");
    assert!(b.get(Direction::N).is_none());
    b.insert(Direction::E, shortcut(&[], "F5", None));
    assert_eq!(b.get(Direction::E).unwrap().key, "F5");
    assert_eq!(b.get(Direction::W).unwrap().key, "Left");
}

#[test]
fn remove_unbinds_only_that_direction() {
    let mut b = Bindings::new();
    b.insert(Direction::S, shortcut(&["Ctrl"], "w", None));
    b.insert(Direction::N, shortcut(&["Ctrl"], "n", None));
    b.remove(Direction::S);
    assert!(b.get(Direction::S).is_none());
    assert_eq!(b.get(Direction::N).unwrap().key, "n");
    b.remove(Direction::SE);
    assert_eq!(b.get(Direction::N).unwrap().key, "n");
}

#[test]
fn clones_are_equal() {
    let s = shortcut(&["Ctrl", "Shift"], "t", Some("Re-open closed tab"));
    assert_eq!(s.clone(), s);
    let m = Modifier("Alt".to_string());
    assert_eq!(m.clone(), m);
    let mut b = Bindings::new();
    b.insert(Direction::SW, s.clone());
    let c = b.clone();
    assert_eq!(c.get(Direction::SW), Some(&s));
    for d in Direction::ALL.iter() {
        if *d != Direction::SW {
            assert!(c.get(*d).is_none());
        }
    }
}
