//! Logical input actions and the per-player queue that detects their edges.
//!
//! Once per tick the owner of an [`ActionQueue`] hands it the actions that are
//! active right now. The queue keeps that tick and the one before it, and
//! answers three questions about any action: is it pressed, was it pressed
//! in this very tick, was it released in this very tick.
//!
//! A queue holds two bit masks, one bit per action. Contracts speak of them
//! directly, and of what they mean: the view of a queue, a [`QueueView`], is
//! the two sets of actions that the masks stand for ([`actions_in`]).

use vstd::prelude::*;

verus! {

/// A logical input, independent of the device that produced it.
#[derive(Clone, Copy, Debug, PartialEq, Eq, Hash, Structural)]
pub enum Action {
    Left,
    Right,
    Up,
    Down,
}

/// Every bit that stands for some action.
pub const ACTION_BITS: u8 = 0x0F;

impl Action {
    /// The bit that stands for this action in a mask.
    pub open spec fn spec_bit(self) -> u8 {
        match self {
            Action::Left => 0x01,
            Action::Right => 0x02,
            Action::Up => 0x04,
            Action::Down => 0x08,
        }
    }

    /// The bit that stands for this action in a mask.
    #[verifier::when_used_as_spec(spec_bit)]
    pub fn bit(self) -> (b: u8)
        ensures
            b == self.spec_bit(),
    {
        match self {
            Action::Left => 0x01,
            Action::Right => 0x02,
            Action::Up => 0x04,
            Action::Down => 0x08,
        }
    }

    /// Every action, in the order in which input is sampled.
    pub open spec fn spec_all() -> Seq<Action> {
        seq![Action::Left, Action::Right, Action::Up, Action::Down]
    }

    /// Every action, in the order in which input is sampled.
    pub fn all() -> (actions: Vec<Action>)
        ensures
            actions@ == Action::spec_all(),
    {
        let mut actions: Vec<Action> = Vec::new();
        actions.push(Action::Left);
        actions.push(Action::Right);
        actions.push(Action::Up);
        actions.push(Action::Down);
        assert(actions@ =~= Action::spec_all());
        actions
    }
}

/// Whether `mask` has exactly one bit set.
pub open spec fn is_single_bit(mask: u8) -> bool {
    mask != 0 && mask & ((mask - 1) as u8) == 0
}

/// Each action owns one bit of [`ACTION_BITS`], and no two actions share a
/// bit.
pub proof fn lemma_action_bits_disjoint(a: Action, b: Action)
    ensures
        is_single_bit(a.bit()),
        a.bit() & ACTION_BITS == a.bit(),
        a != b ==> a.bit() & b.bit() == 0,
        a == b <==> a.bit() == b.bit(),
{
    assert(is_single_bit(0x01) && is_single_bit(0x02) && is_single_bit(0x04) && is_single_bit(
        0x08,
    )) by (bit_vector);
    assert(0x01u8 & 0x0F == 0x01 && 0x02u8 & 0x0F == 0x02 && 0x04u8 & 0x0F == 0x04 && 0x08u8 & 0x0F
        == 0x08) by (bit_vector);
    assert(0x01u8 & 0x02 == 0 && 0x01u8 & 0x04 == 0 && 0x01u8 & 0x08 == 0 && 0x02u8 & 0x01 == 0
        && 0x02u8 & 0x04 == 0 && 0x02u8 & 0x08 == 0 && 0x04u8 & 0x01 == 0 && 0x04u8 & 0x02 == 0
        && 0x04u8 & 0x08 == 0 && 0x08u8 & 0x01 == 0 && 0x08u8 & 0x02 == 0 && 0x08u8 & 0x04 == 0)
        by (bit_vector);
}

/// The actions whose bit is set in `mask`.
pub open spec fn actions_in(mask: u8) -> Set<Action> {
    Set::new(|a: Action| mask & a.spec_bit() == a.spec_bit())
}

/// Whether `mask` sets no bit but those of actions.
pub open spec fn only_action_bits(mask: u8) -> bool {
    mask & ACTION_BITS == mask
}

/// The bitwise union of the bits of `actions`.
pub open spec fn union_mask(actions: Seq<Action>) -> u8
    decreases actions.len(),
{
    if actions.len() == 0 {
        0
    } else {
        union_mask(actions.drop_last()) | actions.last().spec_bit()
    }
}

/// A mask of action bits is known by the actions in it.
pub proof fn lemma_actions_determine_mask(m: u8, n: u8)
    requires
        only_action_bits(m),
        only_action_bits(n),
        actions_in(m) == actions_in(n),
    ensures
        m == n,
{
    assert forall|a: Action| (m & a.bit() == a.bit()) == (n & a.bit() == a.bit()) by {
        assert(actions_in(m).contains(a) == (m & a.bit() == a.bit()));
        assert(actions_in(n).contains(a) == (n & a.bit() == a.bit()));
    }
    assert(Action::Left.bit() == 0x01 && Action::Right.bit() == 0x02);
    assert(Action::Up.bit() == 0x04 && Action::Down.bit() == 0x08);
    assert(m == n) by (bit_vector)
        requires
            m & 0x0F == m,
            n & 0x0F == n,
            (m & 0x01 == 0x01) == (n & 0x01 == 0x01),
            (m & 0x02 == 0x02) == (n & 0x02 == 0x02),
            (m & 0x04 == 0x04) == (n & 0x04 == 0x04),
            (m & 0x08 == 0x08) == (n & 0x08 == 0x08),
    ;
}

/// The zero mask holds no action.
proof fn lemma_zero_mask_is_empty()
    ensures
        only_action_bits(0),
        actions_in(0) == Set::<Action>::empty(),
{
    assert(0u8 & 0x0F == 0) by (bit_vector);
    assert forall|a: Action| !actions_in(0).contains(a) by {
        let bit = a.bit();
        lemma_action_bits_disjoint(a, a);
        assert(bit != 0 ==> 0u8 & bit != bit) by (bit_vector);
    }
    assert(actions_in(0) =~= Set::<Action>::empty());
}

/// Setting the bit of `a` in `mask` adds `a` to the actions in it and
/// changes nothing else.
proof fn lemma_set_bit_inserts(mask: u8, a: Action)
    requires
        only_action_bits(mask),
    ensures
        only_action_bits(mask | a.bit()),
        actions_in(mask | a.bit()) == actions_in(mask).insert(a),
{
    let bit = a.bit();
    lemma_action_bits_disjoint(a, a);
    assert((mask | bit) & 0x0F == mask | bit) by (bit_vector)
        requires
            mask & 0x0F == mask,
            bit & 0x0F == bit,
    ;
    assert forall|b: Action| actions_in(mask | bit).contains(b) == actions_in(mask).insert(
        a,
    ).contains(b) by {
        let other = b.bit();
        lemma_action_bits_disjoint(a, b);
        if a == b {
            assert((mask | bit) & bit == bit) by (bit_vector);
        } else {
            assert(((mask | bit) & other == other) == (mask & other == other)) by (bit_vector)
                requires
                    bit & other == 0,
            ;
        }
    }
    assert(actions_in(mask | bit) =~= actions_in(mask).insert(a));
}

/// The union of the bits of a list holds exactly the actions that the list
/// names, however often and in whatever order it names them, and no other
/// bit.
pub proof fn lemma_union_mask_holds_the_named_actions(actions: Seq<Action>)
    ensures
        only_action_bits(union_mask(actions)),
        actions_in(union_mask(actions)) == actions.to_set(),
    decreases actions.len(),
{
    if actions.len() == 0 {
        lemma_zero_mask_is_empty();
        assert(actions.to_set() =~= Set::<Action>::empty());
    } else {
        let rest = actions.drop_last();
        lemma_union_mask_holds_the_named_actions(rest);
        lemma_set_bit_inserts(union_mask(rest), actions.last());
        rest.lemma_push_to_set_commute(actions.last());
        assert(rest.push(actions.last()) =~= actions);
    }
}

/// What a queue knows: the actions active as of the latest update, and those
/// active as of the update before it.
pub struct QueueView {
    pub current: Set<Action>,
    pub previous: Set<Action>,
}

impl QueueView {
    /// Nothing pressed and no history.
    pub open spec fn fresh() -> QueueView {
        QueueView { current: Set::empty(), previous: Set::empty() }
    }

    /// The state after one more tick in which exactly the actions of `active`
    /// are active. What was current becomes the history; how often or where
    /// an action occurs in `active` makes no difference.
    pub open spec fn step(self, active: Seq<Action>) -> QueueView {
        QueueView { current: active.to_set(), previous: self.current }
    }

    /// The state of a fresh queue after the given ticks, oldest first.
    pub open spec fn after(ticks: Seq<Seq<Action>>) -> QueueView
        decreases ticks.len(),
    {
        if ticks.len() == 0 {
            QueueView::fresh()
        } else {
            QueueView::after(ticks.drop_last()).step(ticks.last())
        }
    }

    /// `action` is active in the current tick.
    pub open spec fn is_pressed(self, action: Action) -> bool {
        self.current.contains(action)
    }

    /// `action` is active in the current tick and was not in the one before.
    pub open spec fn just_pressed(self, action: Action) -> bool {
        self.current.contains(action) && !self.previous.contains(action)
    }

    /// `action` is not active in the current tick and was in the one before.
    pub open spec fn just_released(self, action: Action) -> bool {
        !self.current.contains(action) && self.previous.contains(action)
    }
}

/// Two generations of input for one player, one bit per action.
pub struct ActionQueue {
    current_frame: u8,
    last_frame: u8,
}

/// Whether the bit of `action` is set in `bitset`.
fn is_pressed(bitset: u8, action: Action) -> (pressed: bool)
    ensures
        pressed == (bitset & action.bit() == action.bit()),
        pressed == actions_in(bitset).contains(action),
{
    bitset & action.bit() == action.bit()
}

/// The bitwise union of the bits of `actions`.
fn mask_of(actions: &Vec<Action>) -> (mask: u8)
    ensures
        mask == union_mask(actions@),
{
    let mut mask: u8 = 0;
    let mut i: usize = 0;
    while i < actions.len()
        invariant
            i <= actions.len(),
            mask == union_mask(actions@.take(i as int)),
        decreases actions.len() - i,
    {
        assert(actions@.take(i + 1).drop_last() =~= actions@.take(i as int));
        mask = mask | actions[i].bit();
        i = i + 1;
    }
    assert(actions@.take(i as int) =~= actions@);
    mask
}

impl View for ActionQueue {
    type V = QueueView;

    /// The two sets of actions that the masks of the queue stand for.
    open spec fn view(&self) -> QueueView {
        QueueView {
            current: actions_in(self.current()),
            previous: actions_in(self.previous()),
        }
    }
}

impl ActionQueue {
    /// The mask of the actions active as of the latest update.
    pub closed spec fn current(&self) -> u8 {
        self.current_frame
    }

    /// The mask of the actions active as of the update before the latest.
    pub closed spec fn previous(&self) -> u8 {
        self.last_frame
    }

    /// Neither mask sets a bit that stands for no action.
    #[verifier::type_invariant]
    pub open spec fn wf(&self) -> bool {
        only_action_bits(self.current()) && only_action_bits(self.previous())
    }

    /// A queue with nothing pressed and no history: both masks are zero, and
    /// no question about any action is answered with yes.
    pub fn new() -> (queue: Self)
        ensures
            queue.current() == 0,
            queue.previous() == 0,
            queue.wf(),
            queue@ == QueueView::fresh(),
            forall|action: Action|
                !queue@.is_pressed(action) && !queue@.just_pressed(action)
                    && !queue@.just_released(action),
    {
        proof {
            lemma_zero_mask_is_empty();
        }
        Self { current_frame: 0, last_frame: 0 }
    }

    /// Add the input for a new tick: what was current becomes the history,
    /// and the union of the bits of `currently_pressed` becomes current. So
    /// exactly the actions that the list names are pressed afterwards; an
    /// action named more than once counts once, and an empty list releases
    /// everything.
    pub fn update(&mut self, currently_pressed: Vec<Action>)
        ensures
            final(self).previous() == old(self).current(),
            final(self).current() == union_mask(currently_pressed@),
            final(self).wf(),
            final(self)@ == old(self)@.step(currently_pressed@),
    {
        proof {
            use_type_invariant(&*self);
            lemma_union_mask_holds_the_named_actions(currently_pressed@);
        }
        let mask = mask_of(&currently_pressed);
        self.last_frame = self.current_frame;
        self.current_frame = mask;
    }

    /// Whether `action` went from released to pressed in the latest tick: its
    /// bit is set in the current mask and clear in the previous one.
    pub fn just_pressed(&self, action: Action) -> (pressed: bool)
        ensures
            pressed == self@.just_pressed(action),
    {
        is_pressed(self.current_frame, action) && !is_pressed(self.last_frame, action)
    }

    /// Whether `action` is active as of the latest tick: its bit is set in
    /// the current mask.
    pub fn is_pressed(&self, action: Action) -> (pressed: bool)
        ensures
            pressed == self@.is_pressed(action),
    {
        is_pressed(self.current_frame, action)
    }

    /// Whether `action` went from pressed to released in the latest tick: its
    /// bit is clear in the current mask and set in the previous one.
    pub fn just_released(&self, action: Action) -> (released: bool)
        ensures
            released == self@.just_released(action),
    {
        !is_pressed(self.current_frame, action) && is_pressed(self.last_frame, action)
    }
}

/// A queue is known by what it reports: two queues with the same view are
/// the same queue.
pub proof fn lemma_view_determines_queue(p: ActionQueue, q: ActionQueue)
    requires
        p.wf(),
        q.wf(),
        p@ == q@,
    ensures
        p == q,
{
    lemma_actions_determine_mask(p.current(), q.current());
    lemma_actions_determine_mask(p.previous(), q.previous());
}

/// Updating is safe against duplicates: two lists that name the same actions,
/// however often and in whatever order, leave a queue in the same state.
pub proof fn lemma_update_ignores_duplicates(
    before: ActionQueue,
    once: Seq<Action>,
    repeated: Seq<Action>,
    p: ActionQueue,
    q: ActionQueue,
)
    requires
        p.wf(),
        q.wf(),
        p@ == before@.step(once),
        q@ == before@.step(repeated),
        forall|action: Action| once.contains(action) <==> repeated.contains(action),
    ensures
        p@ == q@,
        p == q,
{
    assert(once.to_set() =~= repeated.to_set());
    lemma_view_determines_queue(p, q);
}

/// Naming an action once more in a tick has no effect beyond its first
/// occurrence.
pub proof fn lemma_repeated_action_changes_nothing(
    before: QueueView,
    active: Seq<Action>,
    again: Action,
)
    requires
        active.contains(again),
    ensures
        before.step(active.push(again)) == before.step(active),
{
    active.lemma_push_to_set_commute(again);
    assert(active.to_set().insert(again) =~= active.to_set());
}

/// After a tick, an action is pressed exactly if the tick names it, just
/// pressed exactly if it is pressed now and was not before the tick, and just
/// released exactly if it is not pressed now and was before the tick.
pub proof fn lemma_edges_compare_two_ticks(before: QueueView, active: Seq<Action>, action: Action)
    ensures
        before.step(active).is_pressed(action) == active.contains(action),
        before.step(active).just_pressed(action) == (before.step(active).is_pressed(action)
            && !before.is_pressed(action)),
        before.step(active).just_released(action) == (!before.step(active).is_pressed(action)
            && before.is_pressed(action)),
{
}

/// Over the whole life of a queue: at every tick but the first state, an
/// action is just pressed exactly if it is pressed at that tick and was not
/// pressed at the tick before, and just released exactly if the reverse
/// holds. The state at tick `t` is that of a fresh queue after the first `t`
/// updates.
pub proof fn lemma_edges_at_tick(ticks: Seq<Seq<Action>>, t: int, action: Action)
    requires
        0 < t <= ticks.len(),
    ensures
        QueueView::after(ticks.take(t)).is_pressed(action) == ticks[t - 1].contains(action),
        QueueView::after(ticks.take(t)).just_pressed(action) == (QueueView::after(
            ticks.take(t),
        ).is_pressed(action) && !QueueView::after(ticks.take(t - 1)).is_pressed(action)),
        QueueView::after(ticks.take(t)).just_released(action) == (!QueueView::after(
            ticks.take(t),
        ).is_pressed(action) && QueueView::after(ticks.take(t - 1)).is_pressed(action)),
{
    assert(ticks.take(t).drop_last() =~= ticks.take(t - 1));
    assert(ticks.take(t).last() == ticks[t - 1]);
}

/// Of the four ways in which two ticks can differ for one action, each gives
/// its own answers: idle, just pressed, held, just released.
pub proof fn lemma_edge_states(queue: QueueView, action: Action)
    ensures
        !queue.previous.contains(action) && !queue.current.contains(action) ==> !queue.is_pressed(
            action,
        ) && !queue.just_pressed(action) && !queue.just_released(action),
        !queue.previous.contains(action) && queue.current.contains(action) ==> queue.is_pressed(
            action,
        ) && queue.just_pressed(action) && !queue.just_released(action),
        queue.previous.contains(action) && queue.current.contains(action) ==> queue.is_pressed(
            action,
        ) && !queue.just_pressed(action) && !queue.just_released(action),
        queue.previous.contains(action) && !queue.current.contains(action) ==> !queue.is_pressed(
            action,
        ) && !queue.just_pressed(action) && queue.just_released(action),
{
}

} // verus!
