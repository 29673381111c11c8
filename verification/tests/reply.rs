use dm::{Dmsoft, Reply, ReturnsLong, ReturnsLongAt, ReturnsText, Variant};

fn slot(value: Variant) -> Variant {
    Variant::Ref(Box::new(value))
}

fn long(n: i32) -> Variant {
    Variant::Long(n)
}

fn text(s: &str) -> Variant {
    Variant::Str(s.to_string())
}

fn replied(result: Variant, args: Vec<Variant>) -> Reply {
    Reply { result, args }
}

#[test]
fn an_integer_reply_is_read_as_an_integer() {
    let reply = replied(long(1), Vec::new());
    assert_eq!(ReturnsLong::read(&reply), Some(1));
    let reply = replied(long(-1), vec![long(5)]);
    assert_eq!(ReturnsLong::read(&reply), Some(-1));
}

#[test]
fn a_reply_of_another_kind_is_no_integer() {
    for result in [Variant::Empty, Variant::Double(1), text("1"), slot(long(1))] {
        let reply = Reply { result, args: Vec::new() };
        assert_eq!(ReturnsLong::read(&reply), None);
    }
}

#[test]
fn a_string_reply_is_read_as_a_string() {
    let reply = replied(Variant::Str("10,20|30,40".to_string()), Vec::new());
    assert_eq!(ReturnsText::read(reply), Some("10,20|30,40".to_string()));
    let reply = replied(Variant::Str(String::new()), Vec::new());
    assert_eq!(ReturnsText::read(reply), Some(String::new()));
}

#[test]
fn a_reply_of_another_kind_is_no_string() {
    for result in [Variant::Empty, Variant::Double(1), long(1), slot(text("1"))] {
        let reply = Reply { result, args: Vec::new() };
        assert_eq!(ReturnsText::read(reply), None);
    }
}

#[test]
fn what_the_callee_wrote_to_the_slots_is_read_at_once() {
    let reply = Reply {
        result: long(1),
        args: vec![slot(long(240)), slot(long(130)), long(0)],
    };
    let (mut x, mut y) = (0, 0);
    assert_eq!(ReturnsLongAt::read(&reply, &mut x, &mut y), Some(1));
    assert_eq!((x, y), (130, 240));
}

#[test]
fn the_slot_of_y_comes_first_and_the_slot_of_x_second() {
    let reply = replied(long(0), vec![slot(long(2)), slot(long(1))]);
    let (mut x, mut y) = (-5, -5);
    assert_eq!(ReturnsLongAt::read(&reply, &mut x, &mut y), Some(0));
    assert_eq!(x, 1);
    assert_eq!(y, 2);
}

#[test]
fn a_later_reply_does_not_change_what_was_read_from_an_earlier_one() {
    let first = replied(long(1), vec![slot(long(20)), slot(long(10))]);
    let (mut x, mut y) = (0, 0);
    assert_eq!(ReturnsLongAt::read(&first, &mut x, &mut y), Some(1));

    let mut dm = Dmsoft::new();
    let _ = dm.proceed("GetColor", vec![long(4), long(3)], Some(2));
    let second = replied(long(1), vec![slot(long(99)), slot(long(98))]);
    let (mut other_x, mut other_y) = (0, 0);
    assert_eq!(ReturnsLongAt::read(&second, &mut other_x, &mut other_y), Some(1));
    assert_eq!(ReturnsLong::read(&second), Some(1));
    let _ = Dmsoft::complete(Ok(second));

    assert_eq!((x, y), (10, 20));
    assert_eq!((other_x, other_y), (98, 99));
    let (mut again_x, mut again_y) = (0, 0);
    assert_eq!(ReturnsLongAt::read(&first, &mut again_x, &mut again_y), Some(1));
    assert_eq!((again_x, again_y), (10, 20));
}

#[test]
fn a_slot_that_the_callee_left_empty_reads_as_zero() {
    let reply = replied(long(-1), vec![slot(Variant::Empty), slot(long(7))]);
    let (mut x, mut y) = (5, 5);
    assert_eq!(ReturnsLongAt::read(&reply, &mut x, &mut y), Some(-1));
    assert_eq!((x, y), (7, 0));
    let reply = replied(long(-1), vec![slot(Variant::Empty), slot(Variant::Empty)]);
    assert_eq!(ReturnsLongAt::read(&reply, &mut x, &mut y), Some(-1));
    assert_eq!((x, y), (0, 0));
}

#[test]
fn a_reply_of_the_wrong_shape_leaves_the_position_alone() {
    let wrong = [
        replied(long(1), Vec::new()),
        replied(long(1), vec![slot(long(2))]),
        replied(long(1), vec![long(2), slot(long(1))]),
        replied(long(1), vec![slot(long(2)), long(1)]),
        replied(long(1), vec![slot(Variant::Double(2)), slot(long(1))]),
        replied(long(1), vec![slot(long(2)), slot(text("1"))]),
        replied(long(1), vec![slot(slot(long(2))), slot(long(1))]),
        replied(Variant::Empty, vec![slot(long(2)), slot(long(1))]),
        replied(text("1"), vec![slot(long(2)), slot(long(1))]),
    ];
    for reply in wrong {
        let (mut x, mut y) = (-3, -4);
        assert_eq!(ReturnsLongAt::read(&reply, &mut x, &mut y), None, "{reply:?}");
        assert_eq!((x, y), (-3, -4), "{reply:?}");
    }
}

#[test]
fn a_search_that_found_nothing_reports_minus_one_everywhere() {
    let mut dm = Dmsoft::new();
    let _ = dm.proceed("FindStr", Vec::new(), Some(6));
    let sim = 1.0f64.to_bits();
    let dm::Step::Call(made) = dm.FindStr(0, 0, 2000, 2000, "1", "000000-000000", sim).0 else {
        unreachable!()
    };
    let mut args = made.args;
    args[0] = slot(long(-1));
    args[1] = slot(long(-1));
    let reply = Dmsoft::complete(Ok(Reply { result: long(-1), args })).unwrap();
    let (mut x, mut y) = (0, 0);
    assert_eq!(ReturnsLongAt::read(&reply, &mut x, &mut y), Some(-1));
    assert_eq!((x, y), (-1, -1));
}
