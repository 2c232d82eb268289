use tlist::tenum::TEnum;
use tlist::tenum::TEnumMap;

#[derive(Copy, Clone, PartialEq, Debug)]
enum Color {
    Red,
    Green,
    Blue,
}

impl TEnum for Color {
    fn keys() -> Vec<Self> {
        vec![Color::Red, Color::Green, Color::Blue]
    }
}

#[test]
fn empty_map_has_a_default_for_every_key() {
    let m: TEnumMap<Color, i32> = TEnumMap::empty();
    assert_eq!(m.get(Color::Red), Some(&0));
    assert_eq!(m.get(Color::Green), Some(&0));
    assert_eq!(m.get(Color::Blue), Some(&0));
}

#[test]
fn new_map_holds_the_given_entries() {
    let m: TEnumMap<Color, i32> = TEnumMap::new(&[(Color::Red, 1), (Color::Blue, 3)]);
    assert_eq!(m.get(Color::Red), Some(&1));
    assert_eq!(m.get(Color::Blue), Some(&3));
    assert_eq!(m.get(Color::Green), None);
    let none: TEnumMap<Color, i32> = TEnumMap::new(&[]);
    assert_eq!(none.get(Color::Red), None);
}

#[test]
fn get_finds_the_first_entry_of_a_key() {
    let m: TEnumMap<Color, i32> = TEnumMap::new(&[(Color::Red, 1), (Color::Red, 2)]);
    assert_eq!(m.get(Color::Red), Some(&1));
}

#[test]
fn insert_replaces_or_appends() {
    let mut m: TEnumMap<Color, i32> = TEnumMap::new(&[(Color::Red, 1)]);
    m.insert(Color::Red, 10);
    assert_eq!(m.get(Color::Red), Some(&10));
    assert_eq!(m.get(Color::Green), None);
    m.insert(Color::Green, 20);
    assert_eq!(m.get(Color::Green), Some(&20));
    assert_eq!(m.get(Color::Red), Some(&10));
}

#[test]
fn insert_replaces_only_the_first_entry_of_a_key() {
    let mut m: TEnumMap<Color, i32> = TEnumMap::new(&[(Color::Red, 1), (Color::Red, 2)]);
    m.insert(Color::Red, 10);
    m.remove(Color::Red);
    assert_eq!(m.get(Color::Red), Some(&2));
}

#[test]
fn remove_takes_the_first_entry_of_a_key() {
    let mut m: TEnumMap<Color, i32> =
        TEnumMap::new(&[(Color::Red, 1), (Color::Blue, 3), (Color::Red, 2)]);
    m.remove(Color::Red);
    assert_eq!(m.get(Color::Red), Some(&2));
    assert_eq!(m.get(Color::Blue), Some(&3));
    m.remove(Color::Red);
    assert_eq!(m.get(Color::Red), None);
    m.remove(Color::Red);
    assert_eq!(m.get(Color::Red), None);
    assert_eq!(m.get(Color::Blue), Some(&3));
    m.remove(Color::Green);
    assert_eq!(m.get(Color::Blue), Some(&3));
}
