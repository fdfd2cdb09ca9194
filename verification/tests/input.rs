use unnamed_game::input::{Action, ActionQueue};
use unnamed_game::input::Action::{Down, Left, Right, Up};

#[test]
fn new_queue_has_nothing_pressed() {
    let queue = ActionQueue::new();

    assert_eq!(queue.just_pressed(Left), false);
    assert_eq!(queue.just_pressed(Right), false);
    assert_eq!(queue.just_pressed(Up), false);
    assert_eq!(queue.just_pressed(Down), false);
}

#[test]
fn test_all_pressed() {
    let mut queue = ActionQueue::new();

    queue.update(vec![Left, Right, Up, Down]);

    assert_eq!(queue.just_pressed(Left), true);
    assert_eq!(queue.just_pressed(Right), true);
    assert_eq!(queue.just_pressed(Up), true);
    assert_eq!(queue.just_pressed(Down), true);
}

#[test]
fn update_queue() {
    let mut queue = ActionQueue::new();

    queue.update(vec![Left]);

    assert_eq!(queue.is_pressed(Left), true);
    assert_eq!(queue.is_pressed(Right), false);

    queue.update(Vec::<Action>::new());

    assert_eq!(queue.is_pressed(Left), false);
}

#[test]
fn held_is_not_just_pressed() {
    let mut queue = ActionQueue::new();

    queue.update(vec![Left]);

    assert_eq!(queue.just_pressed(Left), true);
    assert_eq!(queue.just_pressed(Right), false);

    queue.update(vec![Left]);

    assert_eq!(queue.just_pressed(Left), false);
}

#[test]
fn test_just_released() {
    let mut queue = ActionQueue::new();

    queue.update(vec![Left, Right]);

    assert_eq!(queue.just_released(Left), false);

    queue.update(vec![Left, Right]);
    assert_eq!(queue.just_released(Left), false);

    queue.update(vec![Right]);
    assert_eq!(queue.just_released(Left), true);

    queue.update(vec![Right]);
    assert_eq!(queue.just_released(Left), false);
}

/// What a queue says of every action: pressed, just pressed, just released.
fn report(queue: &ActionQueue) -> Vec<(bool, bool, bool)> {
    Action::all()
        .into_iter()
        .map(|a| (queue.is_pressed(a), queue.just_pressed(a), queue.just_released(a)))
        .collect()
}

#[test]
fn new_queue_reports_nothing_at_all() {
    let queue = ActionQueue::new();
    assert_eq!(report(&queue), vec![(false, false, false); 4]);
}

#[test]
fn all_pressed_are_pressed_and_just_pressed() {
    let mut queue = ActionQueue::new();
    queue.update(vec![Left, Right, Up, Down]);
    assert_eq!(report(&queue), vec![(true, true, false); 4]);
}

#[test]
fn release_after_press_is_an_edge() {
    let mut queue = ActionQueue::new();
    queue.update(vec![Left]);
    queue.update(vec![]);
    assert_eq!(queue.is_pressed(Left), false);
    assert_eq!(queue.just_released(Left), true);
    assert_eq!(queue.just_pressed(Left), false);
    queue.update(vec![]);
    assert_eq!(report(&queue), vec![(false, false, false); 4]);
}

#[test]
fn held_stays_pressed() {
    let mut queue = ActionQueue::new();
    queue.update(vec![Left]);
    assert_eq!(queue.just_pressed(Left), true);
    queue.update(vec![Left]);
    assert_eq!(queue.just_pressed(Left), false);
    assert_eq!(queue.is_pressed(Left), true);
    assert_eq!(queue.just_released(Left), false);
}

#[test]
fn duplicates_collapse() {
    let mut twice = ActionQueue::new();
    let mut once = ActionQueue::new();
    twice.update(vec![Left, Left]);
    once.update(vec![Left]);
    assert_eq!(report(&twice), report(&once));
    assert_eq!(
        report(&twice),
        vec![(true, true, false), (false, false, false), (false, false, false), (false, false, false)]
    );

    // The repeat must not spill into the neighbouring bit, now or later.
    twice.update(vec![Right, Left, Right, Left, Right]);
    once.update(vec![Left, Right]);
    assert_eq!(report(&twice), report(&once));
    assert_eq!(twice.is_pressed(Right), true);
    assert_eq!(twice.just_pressed(Right), true);
    assert_eq!(twice.just_pressed(Left), false);
    assert_eq!(twice.is_pressed(Up), false);

    twice.update(vec![Down, Down, Down, Down, Down, Down, Down, Down, Down]);
    once.update(vec![Down]);
    assert_eq!(report(&twice), report(&once));
    assert_eq!(twice.just_released(Left), true);
    assert_eq!(twice.just_released(Right), true);
    assert_eq!(twice.is_pressed(Down), true);
}

#[test]
fn order_makes_no_difference() {
    let mut a = ActionQueue::new();
    let mut b = ActionQueue::new();
    a.update(vec![Up, Left, Down]);
    b.update(vec![Down, Up, Left]);
    assert_eq!(report(&a), report(&b));
}

#[test]
fn full_edge_cycle() {
    let mut queue = ActionQueue::new();
    let mut released = Vec::new();
    let mut pressed = Vec::new();
    for tick in [vec![Left, Right], vec![Left, Right], vec![Right], vec![Right]] {
        queue.update(tick);
        released.push(queue.just_released(Left));
        pressed.push(queue.just_pressed(Left));
    }
    assert_eq!(released, vec![false, false, true, false]);
    assert_eq!(pressed, vec![true, false, false, false]);
}

#[test]
fn just_pressed_compares_two_ticks() {
    // Every pair of consecutive ticks over all sixteen sets of actions.
    let all = Action::all();
    let sets: Vec<Vec<Action>> = (0u8..16)
        .map(|m| all.iter().copied().filter(|a| m & a.bit() != 0).collect())
        .collect();
    for before in &sets {
        for now in &sets {
            let mut queue = ActionQueue::new();
            queue.update(before.clone());
            let was: Vec<bool> = all.iter().map(|a| queue.is_pressed(*a)).collect();
            queue.update(now.clone());
            for (i, a) in all.iter().enumerate() {
                assert_eq!(queue.is_pressed(*a), now.contains(a));
                assert_eq!(queue.just_pressed(*a), queue.is_pressed(*a) && !was[i]);
                assert_eq!(queue.just_released(*a), !queue.is_pressed(*a) && was[i]);
            }
        }
    }
}

#[test]
fn action_bits_are_distinct_single_bits() {
    assert_eq!(Left.bit(), 0x01);
    assert_eq!(Right.bit(), 0x02);
    assert_eq!(Up.bit(), 0x04);
    assert_eq!(Down.bit(), 0x08);
    let all = Action::all();
    assert_eq!(all, vec![Left, Right, Up, Down]);
    for a in &all {
        assert_eq!(a.bit().count_ones(), 1);
        assert_eq!(a.bit() & unnamed_game::input::ACTION_BITS, a.bit());
        for b in &all {
            if a != b {
                assert_eq!(a.bit() & b.bit(), 0);
            }
        }
    }
}
