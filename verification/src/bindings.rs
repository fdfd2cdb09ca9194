//! Which key each player presses for each action, and the actions that a set
//! of held keys amounts to.

use vstd::prelude::*;
use crate::input::Action;

verus! {

/// The keys that the game listens to.
#[derive(Clone, Copy, Debug, PartialEq, Eq, Hash, Structural)]
pub enum Key {
    W,
    A,
    S,
    D,
    Up,
    Left,
    Down,
    Right,
}

/// How many players have keys of their own. Players are numbered from zero.
pub const PLAYERS: u32 = 2;

/// The key that `player` presses for `action`: the first player uses W, A, S
/// and D, the second the arrow keys.
pub open spec fn spec_binding(player: u32, action: Action) -> Key {
    if player == 0 {
        match action {
            Action::Up => Key::W,
            Action::Left => Key::A,
            Action::Down => Key::S,
            Action::Right => Key::D,
        }
    } else {
        match action {
            Action::Up => Key::Up,
            Action::Left => Key::Left,
            Action::Down => Key::Down,
            Action::Right => Key::Right,
        }
    }
}

/// The key that `player` presses for `action`.
#[verifier::when_used_as_spec(spec_binding)]
pub fn binding(player: u32, action: Action) -> (key: Key)
    requires
        player < PLAYERS,
    ensures
        key == spec_binding(player, action),
{
    if player == 0 {
        match action {
            Action::Up => Key::W,
            Action::Left => Key::A,
            Action::Down => Key::S,
            Action::Right => Key::D,
        }
    } else {
        match action {
            Action::Up => Key::Up,
            Action::Left => Key::Left,
            Action::Down => Key::Down,
            Action::Right => Key::Right,
        }
    }
}

/// No key is bound twice: two players never share a key, and one player
/// never uses one key for two actions.
pub proof fn lemma_bindings_distinct(p: u32, a: Action, q: u32, b: Action)
    requires
        p < PLAYERS,
        q < PLAYERS,
    ensures
        binding(p, a) == binding(q, b) <==> p == q && a == b,
{
}

/// Whether `key` is among the keys of `held`.
fn is_held(held: &Vec<Key>, key: Key) -> (found: bool)
    ensures
        found == held@.contains(key),
{
    let mut i: usize = 0;
    while i < held.len()
        invariant
            i <= held.len(),
            forall|j: int| 0 <= j < i ==> held@[j] != key,
        decreases held.len() - i,
    {
        if held[i] == key {
            return true;
        }
        i = i + 1;
    }
    false
}

/// The actions of `player` that are active while the keys of `held` are
/// down: every action whose key is held, each once, in the order of
/// [`Action::all`].
pub open spec fn spec_pressed_actions(player: u32, held: Seq<Key>) -> Seq<Action> {
    Action::spec_all().filter(|action: Action| held.contains(spec_binding(player, action)))
}

/// The actions of `player` that are active while the keys of `held` are
/// down. Keys that `player` has no use for, and keys named twice, change
/// nothing.
pub fn pressed_actions(player: u32, held: &Vec<Key>) -> (actions: Vec<Action>)
    requires
        player < PLAYERS,
    ensures
        actions@ == spec_pressed_actions(player, held@),
{
    let all = Action::all();
    let ghost wanted = |action: Action| held@.contains(spec_binding(player, action));
    let mut actions: Vec<Action> = Vec::new();
    let mut i: usize = 0;
    proof {
        all@.take(0).lemma_filter_len(wanted);
    }
    while i < all.len()
        invariant
            i <= all.len(),
            player < PLAYERS,
            all@ == Action::spec_all(),
            wanted == (|action: Action| held@.contains(spec_binding(player, action))),
            actions@ == all@.take(i as int).filter(wanted),
        decreases all.len() - i,
    {
        let action = all[i];
        proof {
            all@.lemma_take_succ_push(i as int);
            all@.take(i as int).lemma_filter_push(action, wanted);
        }
        if is_held(held, binding(player, action)) {
            actions.push(action);
        }
        i = i + 1;
    }
    assert(all@.take(i as int) =~= all@);
    actions
}

/// Filtering a sequence without repeats leaves one without repeats.
proof fn lemma_filter_keeps_distinct(s: Seq<Action>, pred: spec_fn(Action) -> bool)
    requires
        s.no_duplicates(),
    ensures
        s.filter(pred).no_duplicates(),
    decreases s.len(),
{
    reveal(Seq::filter);
    if s.len() > 0 {
        let rest = s.drop_last();
        let kept = rest.filter(pred);
        lemma_filter_keeps_distinct(rest, pred);
        if pred(s.last()) {
            if kept.contains(s.last()) {
                rest.lemma_filter_contains_rev(pred, s.last());
                let j = choose|j: int| 0 <= j < rest.len() && rest[j] == s.last();
                assert(s[j] == s[s.len() - 1]);
            }
            assert forall|i: int, j: int|
                0 <= i < kept.len() + 1 && 0 <= j < kept.len() + 1 && i != j implies kept.push(
                s.last(),
            )[i] != kept.push(s.last())[j] by {
                if i < kept.len() {
                    assert(kept.contains(kept[i]));
                }
                if j < kept.len() {
                    assert(kept.contains(kept[j]));
                }
            }
        }
    }
}

/// An action is among the pressed ones exactly if its key is held, and none
/// is named twice.
pub proof fn lemma_pressed_actions_are_the_held_ones(player: u32, held: Seq<Key>, action: Action)
    ensures
        spec_pressed_actions(player, held).contains(action) <==> held.contains(
            spec_binding(player, action),
        ),
        spec_pressed_actions(player, held).no_duplicates(),
{
    let wanted = |a: Action| held.contains(spec_binding(player, a));
    let all = Action::spec_all();
    let pressed = all.filter(wanted);
    assert(all[0] == Action::Left && all[1] == Action::Right && all[2] == Action::Up && all[3]
        == Action::Down);
    if pressed.contains(action) {
        let i = choose|i: int| 0 <= i < pressed.len() && pressed[i] == action;
        all.lemma_filter_pred(wanted, i);
    }
    if wanted(action) {
        let k: int = match action {
            Action::Left => 0,
            Action::Right => 1,
            Action::Up => 2,
            Action::Down => 3,
        };
        all.lemma_filter_contains(wanted, k);
    }
    lemma_filter_keeps_distinct(all, wanted);
}

} // verus!
