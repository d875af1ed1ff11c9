use rusty_battleship::playmap::Playmap;
use rusty_battleship::point::Point;

#[test]
fn test_is_marked_field() {
    let map = Playmap::from(0b0010 << 124);

    assert_eq!(map.is_marked_field(Point { x: 2, y: 0 }), true);
    assert_eq!(map.is_marked_field(Point { x: 1, y: 0 }), false);
}

#[test]
fn test_mark_field() {
    let mut map = Playmap::new();

    map.mark_field(Point { x: 0, y: 0 });
    assert_eq!(map, Playmap::from(0b1000 << 124));

    map.mark_field(Point { x: 2, y: 0 });
    assert_eq!(map, Playmap::from(0b1010 << 124));
}

#[test]
fn test_demark_field() {
    let mut map = Playmap::from(0b1010 << 124);

    map.demark_field(Point { x: 0, y: 0 });
    assert_eq!(map, Playmap::from(0b0010 << 124));

    map.demark_field(Point { x: 2, y: 0 });
    assert_eq!(map, Playmap::from(0b0000 << 124));
}

#[test]
fn mark_then_clear_restores_empty_board() {
    for y in 0..10u8 {
        for x in 0..10u8 {
            let p = Point { x, y };
            let mut map = Playmap::new();
            map.mark_field(p);
            assert!(map.is_marked_field(p));
            map.demark_field(p);
            assert_eq!(map, Playmap::new());
        }
    }
}

#[test]
fn marking_twice_is_marking_once() {
    let mut once = Playmap::from(0b1001 << 124);
    once.mark_field(Point { x: 5, y: 5 });
    let mut twice = once;
    twice.mark_field(Point { x: 5, y: 5 });
    assert_eq!(once, twice);
}

#[test]
fn last_cell_is_bit_28() {
    let mut map = Playmap::new();
    map.mark_field(Point { x: 9, y: 9 });
    assert_eq!(map.value, 1u128 << 28);
}

#[test]
fn intersection_and_population_count() {
    let a = Playmap::from(0b1101 << 124);
    let b = Playmap::from(0b0111 << 124);
    assert_eq!(a.intersection(&b), Playmap::from(0b0101 << 124));
    assert_eq!(a.population_count(), 3);
    assert_eq!(Playmap::new().population_count(), 0);
    assert_eq!(Playmap::from(u128::MAX).population_count(), 128);
}
