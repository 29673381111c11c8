use std::sync::Mutex;

use dm::{Dmsoft, Step};

/// Resolves `name` the way an embedding does: under the lock, with a lookup only when the
/// binding asks for one. Returns the id of the call.
fn resolve(
    binding: &Mutex<Dmsoft>,
    lookups: &mut usize,
    name: &str,
    answer: Option<i32>,
) -> Option<i32> {
    let mut dm = binding.lock().unwrap();
    let step = match dm.Invoke(name, Vec::new()) {
        Step::Lookup { name, args } => {
            *lookups += 1;
            dm.proceed(&name, args, answer)
        }
        step => step,
    };
    match step {
        Step::Call(call) => Some(call.id),
        _ => None,
    }
}

#[test]
fn a_name_is_looked_up_once_however_often_it_is_invoked() {
    let binding = Mutex::new(Dmsoft::new());
    let mut lookups = 0;
    let first = resolve(&binding, &mut lookups, "Ver", Some(100));
    assert_eq!(first, Some(100));
    for i in 0..8 {
        assert_eq!(resolve(&binding, &mut lookups, "Ver", Some(200 + i)), first);
    }
    assert_eq!(lookups, 1);
}

#[test]
fn a_name_that_is_not_exposed_is_looked_up_once_too() {
    let binding = Mutex::new(Dmsoft::new());
    let mut lookups = 0;
    for answer in [None, Some(-1), Some(5), None] {
        assert_eq!(resolve(&binding, &mut lookups, "Nope", answer), None);
    }
    assert_eq!(lookups, 1);
}

#[test]
fn every_name_has_its_own_lookup() {
    let binding = Mutex::new(Dmsoft::new());
    let mut lookups = 0;
    assert_eq!(resolve(&binding, &mut lookups, "Ver", Some(1)), Some(1));
    assert_eq!(resolve(&binding, &mut lookups, "Ocr", Some(2)), Some(2));
    assert_eq!(resolve(&binding, &mut lookups, "Nope", None), None);
    assert_eq!(resolve(&binding, &mut lookups, "Ocr", Some(9)), Some(2));
    assert_eq!(resolve(&binding, &mut lookups, "Ver", Some(9)), Some(1));
    assert_eq!(lookups, 3);
}
