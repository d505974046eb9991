//! The altitude filter's history: the last ten conversions, newest first.
//!
//! The filter averages a fixed window. Each new altitude evicts the oldest
//! one; the slots are kept in a ring so that nothing is shifted in memory.

use vstd::prelude::*;

verus! {

/// Number of samples that the filter averages.
pub const HISTORY_LEN: usize = 10;

/// A window of the last `HISTORY_LEN` values.
#[derive(Debug)]
pub struct History<T> {
    slots: [T; HISTORY_LEN],
    head: usize,
}

/// The window after `value` came in: `value` in front, the oldest one gone.
pub open spec fn pushed<T>(window: Seq<T>, value: T) -> Seq<T> {
    seq![value] + window.drop_last()
}

/// The window after `values` came in one by one.
pub open spec fn pushed_all<T>(window: Seq<T>, values: Seq<T>) -> Seq<T>
    decreases values.len(),
{
    if values.len() == 0 {
        window
    } else {
        pushed_all(pushed(window, values[0]), values.drop_first())
    }
}

impl<T> View for History<T> {
    type V = Seq<T>;

    /// The window, newest value first.
    closed spec fn view(&self) -> Seq<T> {
        Seq::new(
            HISTORY_LEN as nat,
            |age: int| self.slots@[(self.head + age) % (HISTORY_LEN as int)],
        )
    }
}

impl<T> History<T> {
    #[verifier::type_invariant]
    spec fn head_in_range(self) -> bool {
        self.head < HISTORY_LEN
    }

    /// A window always has `HISTORY_LEN` slots.
    pub proof fn lemma_window_len(&self)
        ensures
            self@.len() == HISTORY_LEN,
    {
    }
}

impl<T: Copy> History<T> {
    /// A window filled with `seed`.
    pub fn new(seed: T) -> (history: Self)
        ensures
            history@ == Seq::new(HISTORY_LEN as nat, |age: int| seed),
    {
        let history = History { slots: [seed;HISTORY_LEN], head: 0 };
        assert(history@ =~= Seq::new(HISTORY_LEN as nat, |age: int| seed));
        history
    }

    /// Takes `value` in as the newest and evicts the oldest.
    pub fn push(&mut self, value: T)
        ensures
            final(self)@ == pushed(old(self)@, value),
    {
        proof {
            use_type_invariant(&*self);
        }
        let head = if self.head == 0 {
            HISTORY_LEN - 1
        } else {
            self.head - 1
        };
        self.slots[head] = value;
        self.head = head;
        assert(self@ =~= pushed(old(self)@, value));
    }

    /// The value that came in `age` pushes before the newest.
    pub fn get(&self, age: usize) -> (value: T)
        requires
            age < HISTORY_LEN,
        ensures
            value == self@[age as int],
    {
        proof {
            use_type_invariant(self);
        }
        let index = if self.head + age >= HISTORY_LEN {
            self.head + age - HISTORY_LEN
        } else {
            self.head + age
        };
        self.slots[index]
    }

    /// The whole window, newest value first.
    pub fn snapshot(&self) -> (window: [T; HISTORY_LEN])
        ensures
            window@ == self@,
    {
        let mut window = self.slots;
        let mut age: usize = 0;
        while age < HISTORY_LEN
            invariant
                age <= HISTORY_LEN,
                forall|i: int| 0 <= i < age ==> window@[i] == self@[i],
            decreases HISTORY_LEN - age,
        {
            window[age] = self.get(age);
            age = age + 1;
        }
        assert(window@ =~= self@);
        window
    }
}

/// A window holds the values that came in, newest first, in front of what is
/// left of the window before them.
pub proof fn lemma_pushed_all<T>(window: Seq<T>, values: Seq<T>, age: int)
    requires
        window.len() == HISTORY_LEN,
        0 <= age < HISTORY_LEN,
    ensures
        pushed_all(window, values).len() == HISTORY_LEN,
        age < values.len() ==> pushed_all(window, values)[age] == values[values.len() - 1 - age],
        age >= values.len() ==> pushed_all(window, values)[age] == window[age - values.len()],
    decreases values.len(),
{
    if values.len() > 0 {
        lemma_pushed_all(pushed(window, values[0]), values.drop_first(), age);
    }
}

/// Ten values replace the window: once at least ten have come in, the window
/// is the last ten of them, newest first, whatever it held before.
pub proof fn law_history_fully_replaced<T>(window: Seq<T>, values: Seq<T>)
    requires
        window.len() == HISTORY_LEN,
        values.len() >= HISTORY_LEN,
    ensures
        pushed_all(window, values) == Seq::new(
            HISTORY_LEN as nat,
            |age: int| values[values.len() - 1 - age],
        ),
{
    assert forall|age: int| 0 <= age < HISTORY_LEN implies pushed_all(window, values)[age]
        == values[values.len() - 1 - age] by {
        lemma_pushed_all(window, values, age);
    }
    lemma_pushed_all(window, values, 0);
    assert(pushed_all(window, values) =~= Seq::new(
        HISTORY_LEN as nat,
        |age: int| values[values.len() - 1 - age],
    ));
}

/// One sample holds one slot: two streams of samples that differ in a single
/// place give windows that agree in every slot but the one that this sample
/// holds, and agree everywhere once ten more samples have come in.
pub proof fn law_one_sample_holds_one_slot<T>(
    window: Seq<T>,
    values: Seq<T>,
    others: Seq<T>,
    place: int,
    age: int,
)
    requires
        window.len() == HISTORY_LEN,
        values.len() == others.len(),
        0 <= place < values.len(),
        forall|i: int| 0 <= i < values.len() && i != place ==> values[i] == others[i],
        0 <= age < HISTORY_LEN,
        age != values.len() - 1 - place,
    ensures
        pushed_all(window, values)[age] == pushed_all(window, others)[age],
{
    lemma_pushed_all(window, values, age);
    lemma_pushed_all(window, others, age);
}

/// The sum of a window of exact numbers.
pub open spec fn window_sum(window: Seq<int>) -> int
    decreases window.len(),
{
    if window.len() == 0 {
        0
    } else {
        window[0] + window_sum(window.drop_first())
    }
}

/// In exact arithmetic, two windows that differ in one slot have sums that
/// differ by what the slot differs by; the mean of the ten slots therefore
/// moves by a tenth of it.
pub proof fn law_one_slot_moves_the_sum_by_its_delta(a: Seq<int>, b: Seq<int>, slot: int)
    requires
        a.len() == b.len(),
        0 <= slot < a.len(),
        forall|i: int| 0 <= i < a.len() && i != slot ==> a[i] == b[i],
    ensures
        window_sum(a) - window_sum(b) == a[slot] - b[slot],
    decreases a.len(),
{
    if slot == 0 {
        assert(a.drop_first() =~= b.drop_first());
    } else {
        law_one_slot_moves_the_sum_by_its_delta(a.drop_first(), b.drop_first(), slot - 1);
    }
}

} // verus!
