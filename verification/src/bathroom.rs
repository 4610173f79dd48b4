//! The bathroom: cabins, one queue per gender, and the policy that decides
//! which gender may enter and when the turn passes to the other.

use vstd::prelude::*;
use crate::outside::{fresh_id, is_random_id};
use crate::person::{Gender, Person};
use crate::scan::{leading, lemma_leading_bounds, lemma_leading_unique};

verus! {

/// The cabin is occupied by the person with this identifier.
pub open spec fn slot_holds(slot: Option<Person>, id: u128) -> bool {
    slot matches Some(p) && p.id == id
}

/// The test for a cabin that is occupied.
pub open spec fn taken() -> spec_fn(Option<Person>) -> bool {
    |slot: Option<Person>| slot is Some
}

/// The test for a cabin that the person with this identifier does not
/// occupy.
pub open spec fn not_held_by(id: u128) -> spec_fn(Option<Person>) -> bool {
    |slot: Option<Person>| !slot_holds(slot, id)
}

/// The index of the first free cabin, or the number of cabins where none is
/// free.
pub open spec fn first_free(cabins: Seq<Option<Person>>) -> int {
    leading(cabins, taken())
}

/// The index of the first cabin that the person with this identifier
/// occupies, or the number of cabins where they occupy none.
pub open spec fn slot_of(cabins: Seq<Option<Person>>, id: u128) -> int {
    leading(cabins, not_held_by(id))
}

/// The number of occupied cabins.
pub open spec fn occupied(cabins: Seq<Option<Person>>) -> nat
    decreases cabins.len(),
{
    if cabins.len() == 0 {
        0
    } else {
        occupied(cabins.drop_last()) + if cabins.last() is Some {
            1nat
        } else {
            0nat
        }
    }
}

/// Someone in the queue has this identifier.
pub open spec fn queue_has(queue: Seq<Person>, id: u128) -> bool {
    exists|j: int| 0 <= j < queue.len() && (#[trigger] queue[j]).id == id
}

/// Some cabin is occupied by the person with this identifier.
pub open spec fn cabins_have(cabins: Seq<Option<Person>>, id: u128) -> bool {
    exists|i: int| 0 <= i < cabins.len() && slot_holds(#[trigger] cabins[i], id)
}

/// No two people in the queue share an identifier.
pub open spec fn queue_ids_differ(queue: Seq<Person>) -> bool {
    forall|i: int, j: int|
        0 <= i < j < queue.len() ==> (#[trigger] queue[i]).id != (#[trigger] queue[j]).id
}

/// Everyone in the queue is of gender `g`.
pub open spec fn queue_is_of(queue: Seq<Person>, g: Gender) -> bool {
    forall|j: int| 0 <= j < queue.len() ==> (#[trigger] queue[j]).gender == g
}

/// The time from `since` until `now`; 0 where nothing has started or `now`
/// lies before `since`.
pub open spec fn elapsed_since(since: Option<u64>, now: u64) -> u64 {
    match since {
        Some(t) => if now >= t {
            (now - t) as u64
        } else {
            0
        },
        None => 0,
    }
}

/// What a bathroom holds, as mathematical values.
pub struct BathroomView {
    pub id: u128,
    pub cabins: Seq<Option<Person>>,
    pub allowed_gender: Gender,
    pub use_count: nat,
    pub first_user_entered_at: Option<u64>,
    pub male_queue: Seq<Person>,
    pub female_queue: Seq<Person>,
    pub max_use_time: u64,
}

impl BathroomView {
    /// The queue of gender `g`.
    pub open spec fn queue(self, g: Gender) -> Seq<Person> {
        match g {
            Gender::Male => self.male_queue,
            Gender::Female => self.female_queue,
        }
    }

    /// The same bathroom with `q` as the queue of gender `g`.
    pub open spec fn with_queue(self, g: Gender, q: Seq<Person>) -> BathroomView {
        match g {
            Gender::Male => BathroomView { male_queue: q, ..self },
            Gender::Female => BathroomView { female_queue: q, ..self },
        }
    }

    /// The number of cabins.
    pub open spec fn capacity(self) -> nat {
        self.cabins.len()
    }

    /// The counters are consistent: no more uses were granted in this window
    /// than there are cabins, the window has a start exactly when a use was
    /// granted, and each queue holds people of its own gender only.
    pub open spec fn wf(self) -> bool {
        &&& self.use_count <= self.cabins.len()
        &&& (self.use_count == 0 <==> self.first_user_entered_at is None)
        &&& queue_is_of(self.male_queue, Gender::Male)
        &&& queue_is_of(self.female_queue, Gender::Female)
    }

    /// The person with this identifier waits in one of the queues.
    pub open spec fn queued(self, id: u128) -> bool {
        queue_has(self.male_queue, id) || queue_has(self.female_queue, id)
    }

    /// The person with this identifier occupies a cabin.
    pub open spec fn occupies(self, id: u128) -> bool {
        cabins_have(self.cabins, id)
    }

    /// Every identifier stands at one place only: once in one queue, or in
    /// one cabin.
    pub open spec fn ids_unique(self) -> bool {
        &&& queue_ids_differ(self.male_queue)
        &&& queue_ids_differ(self.female_queue)
        &&& forall|i: int, j: int|
            0 <= i < self.male_queue.len() && 0 <= j < self.female_queue.len() ==> (
            #[trigger] self.male_queue[i]).id != (#[trigger] self.female_queue[j]).id
        &&& forall|i: int, j: int|
            0 <= i < self.cabins.len() && 0 <= j < self.male_queue.len() ==> !slot_holds(
                #[trigger] self.cabins[i],
                (#[trigger] self.male_queue[j]).id,
            )
        &&& forall|i: int, j: int|
            0 <= i < self.cabins.len() && 0 <= j < self.female_queue.len() ==> !slot_holds(
                #[trigger] self.cabins[i],
                (#[trigger] self.female_queue[j]).id,
            )
        &&& forall|i: int, j: int, id: u128|
            0 <= i < j < self.cabins.len() ==> !(slot_holds(#[trigger] self.cabins[i], id)
                && #[trigger] slot_holds(self.cabins[j], id))
    }

    /// Whoever occupies a cabin is of the gender that has the turn.
    pub open spec fn only_allowed_inside(self) -> bool {
        forall|i: int|
            0 <= i < self.cabins.len() ==> ((#[trigger] self.cabins[i]) matches Some(p)
                ==> p.gender == self.allowed_gender)
    }

    /// No cabin is occupied.
    pub open spec fn all_cabins_empty(self) -> bool {
        forall|i: int| 0 <= i < self.cabins.len() ==> (#[trigger] self.cabins[i]) is None
    }

    /// Every cabin is empty, someone of the other gender waits, and nobody
    /// of the allowed gender does.
    pub open spec fn only_others_wait(self) -> bool {
        &&& self.all_cabins_empty()
        &&& self.queue(self.allowed_gender.other()).len() > 0
        &&& self.queue(self.allowed_gender).len() == 0
    }

    /// The time that the current window has lasted.
    pub open spec fn elapsed(self, now: u64) -> u64 {
        elapsed_since(self.first_user_entered_at, now)
    }

    /// The bathroom with the use count and the window's start cleared.
    pub open spec fn with_window_reset(self) -> BathroomView {
        BathroomView { use_count: 0, first_user_entered_at: None, ..self }
    }

    /// With nobody waiting in the other gender's queue the window is
    /// reset; otherwise nothing changes.
    pub open spec fn after_idle_reset(self) -> BathroomView {
        if self.queue(self.allowed_gender.other()).len() == 0 {
            self.with_window_reset()
        } else {
            self
        }
    }

    /// The turn should pass to the other gender: every cabin is empty, and
    /// the other gender waits or the allowed gender does not.
    pub open spec fn switch_due(self) -> bool {
        self.all_cabins_empty() && (self.queue(self.allowed_gender.other()).len() > 0
            || self.queue(self.allowed_gender).len() == 0)
    }

    /// The bathroom after the turn has passed to the other gender.
    pub open spec fn switched(self) -> BathroomView {
        BathroomView { allowed_gender: self.allowed_gender.other(), ..self.with_window_reset() }
    }

    /// The bathroom after the policy was evaluated once: the idle reset,
    /// then the switch where it is due.
    pub open spec fn after_policy(self) -> BathroomView {
        let reset = self.after_idle_reset();
        if reset.switch_due() {
            reset.switched()
        } else {
            reset
        }
    }

    /// `p` as they stand in the queue: with the time of joining recorded.
    pub open spec fn stamped_joined(p: Person, now: u64) -> Person {
        Person { joined_queue_at: Some(now), ..p }
    }

    /// The bathroom after `p` joined the queue of their gender at `now` and
    /// the policy was evaluated.
    pub open spec fn after_enqueue(self, p: Person, now: u64) -> BathroomView {
        self.with_queue(
            p.gender,
            self.queue(p.gender).push(Self::stamped_joined(p, now)),
        ).after_policy()
    }

    /// The head of the queue of gender `g` may enter at `now`: there is a
    /// head, it is of the allowed gender, the window has neither used up
    /// its count nor its time, and a cabin is free.
    pub open spec fn may_admit(self, g: Gender, now: u64) -> bool {
        &&& self.queue(g).len() > 0
        &&& self.queue(g)[0].gender == self.allowed_gender
        &&& self.use_count != self.cabins.len()
        &&& self.elapsed(now) < self.max_use_time
        &&& first_free(self.cabins) < self.cabins.len()
    }

    /// The head of the queue of gender `g` as they stand in the cabin: with
    /// the time of entering recorded.
    pub open spec fn admitted(self, g: Gender, now: u64) -> Person {
        Person { entered_bathroom_at: Some(now), ..self.queue(g)[0] }
    }

    /// The bathroom after the head of the queue of gender `g` was asked in
    /// at `now`: unchanged where they may not enter, else with them in the
    /// first free cabin.
    pub open spec fn after_allocate(self, g: Gender, now: u64) -> BathroomView {
        if self.may_admit(g, now) {
            BathroomView {
                cabins: self.cabins.update(first_free(self.cabins), Some(self.admitted(g, now))),
                use_count: self.use_count + 1,
                first_user_entered_at: if self.use_count == 0 {
                    Some(now)
                } else {
                    self.first_user_entered_at
                },
                ..self.with_queue(g, self.queue(g).remove(0))
            }
        } else {
            self
        }
    }

    /// The bathroom after the person with this identifier left their cabin
    /// and the policy was evaluated.
    pub open spec fn after_free(self, id: u128) -> BathroomView {
        BathroomView {
            cabins: self.cabins.update(slot_of(self.cabins, id), None),
            ..self
        }.after_policy()
    }
}

/// A bathroom of `capacity` empty cabins with nobody waiting, in which `g`
/// has the turn.
pub open spec fn empty_bathroom(
    id: u128,
    g: Gender,
    capacity: usize,
    max_use_time: u64,
) -> BathroomView {
    BathroomView {
        id,
        cabins: Seq::new(capacity as nat, |i: int| None::<Person>),
        allowed_gender: g,
        use_count: 0,
        first_user_entered_at: None,
        male_queue: Seq::empty(),
        female_queue: Seq::empty(),
        max_use_time,
    }
}

/// There are never more occupied cabins than cabins.
pub proof fn lemma_occupied_bounded(cabins: Seq<Option<Person>>)
    ensures
        occupied(cabins) <= cabins.len(),
    decreases cabins.len(),
{
    if cabins.len() > 0 {
        lemma_occupied_bounded(cabins.drop_last());
    }
}

/// Putting `slot` in place of cabin `i` changes the number of occupied
/// cabins by what cabin `i` held and what `slot` holds.
pub proof fn lemma_occupied_update(cabins: Seq<Option<Person>>, i: int, slot: Option<Person>)
    requires
        0 <= i < cabins.len(),
    ensures
        occupied(cabins.update(i, slot)) + (if cabins[i] is Some {
            1nat
        } else {
            0nat
        }) == occupied(cabins) + (if slot is Some {
            1nat
        } else {
            0nat
        }),
    decreases cabins.len(),
{
    let after = cabins.update(i, slot);
    if i == cabins.len() - 1 {
        assert(after.drop_last() == cabins.drop_last());
    } else {
        assert(after.drop_last() == cabins.drop_last().update(i, slot));
        lemma_occupied_update(cabins.drop_last(), i, slot);
    }
}

/// A person occupies a cabin exactly when `slot_of` points at one, and then
/// it points at the first cabin of theirs.
pub proof fn lemma_slot_of(cabins: Seq<Option<Person>>, id: u128)
    ensures
        0 <= slot_of(cabins, id) <= cabins.len(),
        cabins_have(cabins, id) <==> slot_of(cabins, id) < cabins.len(),
        slot_of(cabins, id) < cabins.len() ==> slot_holds(cabins[slot_of(cabins, id)], id),
{
    lemma_leading_bounds(cabins, not_held_by(id));
    let at = slot_of(cabins, id);
    if cabins_have(cabins, id) {
        let i = choose|i: int| 0 <= i < cabins.len() && slot_holds(#[trigger] cabins[i], id);
        if at >= cabins.len() {
            assert(not_held_by(id)(cabins[i]));
        }
    }
}

/// A bathroom with a fixed number of cabins and one queue per gender.
///
/// `use_count` counts the people let in since the current window began,
/// and `first_user_entered_at` is the time at which the first of them
/// entered. `max_use_time` is the longest that a window may last while
/// people are still let in.
#[derive(Clone, Debug)]
pub struct Bathroom {
    pub id: u128,
    pub cabins: Vec<Option<Person>>,
    pub allowed_gender: Gender,
    pub use_count: usize,
    pub first_user_entered_at: Option<u64>,
    pub male_queue: Vec<Person>,
    pub female_queue: Vec<Person>,
    pub max_use_time: u64,
}

impl View for Bathroom {
    type V = BathroomView;

    open spec fn view(&self) -> BathroomView {
        BathroomView {
            id: self.id,
            cabins: self.cabins@,
            allowed_gender: self.allowed_gender,
            use_count: self.use_count as nat,
            first_user_entered_at: self.first_user_entered_at,
            male_queue: self.male_queue@,
            female_queue: self.female_queue@,
            max_use_time: self.max_use_time,
        }
    }
}

/// A copy of the queue.
fn copy_queue(queue: &Vec<Person>) -> (copy: Vec<Person>)
    ensures
        copy@ == queue@,
{
    let mut copy: Vec<Person> = Vec::new();
    let mut i: usize = 0;
    while i < queue.len()
        invariant
            i <= queue@.len(),
            copy@ == queue@.take(i as int),
        decreases queue@.len() - i,
    {
        copy.push(queue[i]);
        i = i + 1;
        assert(copy@ == queue@.take(i as int));
    }
    assert(queue@.take(queue@.len() as int) == queue@);
    copy
}

/// A copy of the cabins.
fn copy_cabins(cabins: &Vec<Option<Person>>) -> (copy: Vec<Option<Person>>)
    ensures
        copy@ == cabins@,
{
    let mut copy: Vec<Option<Person>> = Vec::new();
    let mut i: usize = 0;
    while i < cabins.len()
        invariant
            i <= cabins@.len(),
            copy@ == cabins@.take(i as int),
        decreases cabins@.len() - i,
    {
        copy.push(cabins[i]);
        i = i + 1;
        assert(copy@ == cabins@.take(i as int));
    }
    assert(cabins@.take(cabins@.len() as int) == cabins@);
    copy
}

/// A bathroom under the given identifier with `capacity` empty cabins and
/// nobody waiting, in which `g` has the turn.
pub fn bathroom_with_id(id: u128, g: Gender, capacity: usize, max_use_time: u64) -> (b: Bathroom)
    ensures
        b@ == empty_bathroom(id, g, capacity, max_use_time),
        b@.wf(),
        b@.ids_unique(),
        b@.all_cabins_empty(),
{
    let mut cabins: Vec<Option<Person>> = Vec::new();
    let mut i: usize = 0;
    while i < capacity
        invariant
            i <= capacity,
            cabins@ == Seq::new(i as nat, |k: int| None::<Person>),
        decreases capacity - i,
    {
        cabins.push(None);
        i = i + 1;
        assert(cabins@ == Seq::new(i as nat, |k: int| None::<Person>));
    }
    Bathroom {
        id,
        cabins,
        allowed_gender: g,
        use_count: 0,
        first_user_entered_at: None,
        male_queue: Vec::new(),
        female_queue: Vec::new(),
        max_use_time,
    }
}

/// A bathroom under a newly drawn random identifier with `capacity` empty
/// cabins and nobody waiting, in which `g` has the turn.
pub fn new_bathroom(g: Gender, capacity: usize, max_use_time: u64) -> (b: Bathroom)
    ensures
        b@ == empty_bathroom(b.id, g, capacity, max_use_time),
        is_random_id(b.id),
        b@.wf(),
        b@.ids_unique(),
        b@.all_cabins_empty(),
{
    let id: u128 = fresh_id();
    bathroom_with_id(id, g, capacity, max_use_time)
}

impl Bathroom {
    /// The number of cabins.
    pub fn capacity(&self) -> (n: usize)
        ensures
            n == self@.capacity(),
    {
        self.cabins.len()
    }

    /// An independent copy of the bathroom as it is now.
    pub fn snapshot(&self) -> (copy: Bathroom)
        ensures
            copy@ == self@,
    {
        Bathroom {
            id: self.id,
            cabins: copy_cabins(&self.cabins),
            allowed_gender: self.allowed_gender,
            use_count: self.use_count,
            first_user_entered_at: self.first_user_entered_at,
            male_queue: copy_queue(&self.male_queue),
            female_queue: copy_queue(&self.female_queue),
            max_use_time: self.max_use_time,
        }
    }

    /// The number of people who wait in the queue of gender `g`.
    pub fn queue_len(&self, g: Gender) -> (n: usize)
        ensures
            n == self@.queue(g).len(),
    {
        match g {
            Gender::Male => self.male_queue.len(),
            Gender::Female => self.female_queue.len(),
        }
    }

    /// The number of occupied cabins.
    pub fn occupied_cabins(&self) -> (n: usize)
        ensures
            n == occupied(self@.cabins),
            n <= self@.capacity(),
    {
        let mut n: usize = 0;
        let mut i: usize = 0;
        while i < self.cabins.len()
            invariant
                i <= self.cabins@.len(),
                n == occupied(self.cabins@.take(i as int)),
                n <= i,
            decreases self.cabins@.len() - i,
        {
            proof {
                assert(self.cabins@.take(i + 1).drop_last() == self.cabins@.take(i as int));
            }
            if self.cabins[i].is_some() {
                n = n + 1;
            }
            i = i + 1;
        }
        proof {
            assert(self.cabins@.take(self.cabins@.len() as int) == self.cabins@);
        }
        n
    }

    /// The index of the first free cabin, or the number of cabins where
    /// none is free.
    pub fn first_free_cabin(&self) -> (at: usize)
        ensures
            at == first_free(self@.cabins),
            at <= self@.capacity(),
            at < self@.capacity() ==> self@.cabins[at as int] is None,
    {
        let mut i: usize = 0;
        while i < self.cabins.len() && self.cabins[i].is_some()
            invariant
                i <= self.cabins@.len(),
                forall|k: int| 0 <= k < i ==> taken()(#[trigger] self.cabins@[k]),
            decreases self.cabins@.len() - i,
        {
            i = i + 1;
        }
        proof {
            lemma_leading_unique(self.cabins@, taken(), i as int);
        }
        i
    }

    /// The index of the first cabin that the person with this identifier
    /// occupies, or the number of cabins where they occupy none.
    pub fn cabin_of(&self, person_id: u128) -> (at: usize)
        ensures
            at == slot_of(self@.cabins, person_id),
            at <= self@.capacity(),
            at < self@.capacity() <==> self@.occupies(person_id),
    {
        let mut i: usize = 0;
        while i < self.cabins.len() && !Self::slot_is_of(&self.cabins[i], person_id)
            invariant
                i <= self.cabins@.len(),
                forall|k: int| 0 <= k < i ==> not_held_by(person_id)(#[trigger] self.cabins@[k]),
            decreases self.cabins@.len() - i,
        {
            i = i + 1;
        }
        proof {
            lemma_leading_unique(self.cabins@, not_held_by(person_id), i as int);
            lemma_slot_of(self.cabins@, person_id);
        }
        i
    }

    /// Whether the cabin is occupied by the person with this identifier.
    fn slot_is_of(slot: &Option<Person>, person_id: u128) -> (held: bool)
        ensures
            held == slot_holds(*slot, person_id),
    {
        match slot {
            Some(p) => p.id == person_id,
            None => false,
        }
    }

    /// Whether the person with this identifier occupies a cabin.
    pub fn holds(&self, person_id: u128) -> (held: bool)
        ensures
            held == self@.occupies(person_id),
    {
        self.cabin_of(person_id) < self.cabins.len()
    }

    /// Whether no cabin is occupied.
    pub fn is_empty(&self) -> (empty: bool)
        ensures
            empty == self@.all_cabins_empty(),
    {
        let at: usize = self.first_taken_cabin();
        at == self.cabins.len()
    }

    /// The index of the first occupied cabin, or the number of cabins where
    /// all are free.
    fn first_taken_cabin(&self) -> (at: usize)
        ensures
            at <= self@.capacity(),
            at == self@.capacity() <==> self@.all_cabins_empty(),
    {
        let mut i: usize = 0;
        while i < self.cabins.len() && self.cabins[i].is_none()
            invariant
                i <= self.cabins@.len(),
                forall|k: int| 0 <= k < i ==> (#[trigger] self.cabins@[k]) is None,
            decreases self.cabins@.len() - i,
        {
            i = i + 1;
        }
        i
    }

    /// The time that the current window has lasted at `now`; 0 where it
    /// has not begun.
    pub fn elapsed(&self, now: u64) -> (t: u64)
        ensures
            t == self@.elapsed(now),
    {
        match self.first_user_entered_at {
            Some(start) => if now >= start {
                now - start
            } else {
                0
            },
            None => 0,
        }
    }

    /// Resets the window where nobody of the other gender waits, and says
    /// whether the turn should pass to the other gender now: every cabin
    /// is empty, and the other gender waits or the allowed gender does not.
    pub fn should_switch_genders(&mut self) -> (switch: bool)
        ensures
            final(self)@ == old(self)@.after_idle_reset(),
            switch == old(self)@.switch_due(),
            switch == final(self)@.switch_due(),
            old(self)@.wf() ==> final(self)@.wf(),
            old(self)@.ids_unique() ==> final(self)@.ids_unique(),
            occupied(final(self)@.cabins) <= final(self)@.capacity() == old(self)@.capacity(),
            old(self)@.only_allowed_inside() ==> final(self)@.only_allowed_inside(),
    {
        let other_queue_empty: bool = self.queue_len(self.allowed_gender.other()) == 0;
        if other_queue_empty {
            self.use_count = 0;
            self.first_user_entered_at = None;
        }
        let all_cabins_empty: bool = self.is_empty();
        let current_queue_empty: bool = self.queue_len(self.allowed_gender) == 0;
        proof {
            lemma_occupied_bounded(self@.cabins);
        }
        all_cabins_empty && (!other_queue_empty || current_queue_empty)
    }

    /// Passes the turn to the other gender and begins a new window.
    pub fn switch_genders(&mut self)
        ensures
            final(self)@ == old(self)@.switched(),
            old(self)@.wf() ==> final(self)@.wf(),
            old(self)@.ids_unique() ==> final(self)@.ids_unique(),
            occupied(final(self)@.cabins) <= final(self)@.capacity() == old(self)@.capacity(),
    {
        self.allowed_gender = self.allowed_gender.other();
        self.use_count = 0;
        self.first_user_entered_at = None;
        proof {
            lemma_occupied_bounded(self@.cabins);
        }
    }

    /// Evaluates the policy once: the idle reset, then the switch where it
    /// is due. Says whether the turn passed.
    pub fn apply_policy(&mut self) -> (switched: bool)
        ensures
            final(self)@ == old(self)@.after_policy(),
            switched == old(self)@.switch_due(),
            old(self)@.wf() ==> final(self)@.wf(),
            old(self)@.ids_unique() ==> final(self)@.ids_unique(),
            occupied(final(self)@.cabins) <= final(self)@.capacity() == old(self)@.capacity(),
            old(self)@.only_allowed_inside() ==> final(self)@.only_allowed_inside(),
    {
        proof {
            if self@.only_allowed_inside() {
                lemma_step_keeps_genders_apart(self@, Step::Policy);
            }
        }
        let switch: bool = self.should_switch_genders();
        if switch {
            self.switch_genders();
        }
        switch
    }

    /// Puts `person_to_enqueue` at the end of the queue of their gender,
    /// with `now` as the time of joining, and evaluates the policy.
    pub fn enqueue(&mut self, person_to_enqueue: Person, now: u64)
        ensures
            final(self)@ == old(self)@.after_enqueue(person_to_enqueue, now),
            old(self)@.wf() ==> final(self)@.wf(),
            old(self)@.ids_unique() && !old(self)@.queued(person_to_enqueue.id) && !old(
                self,
            )@.occupies(person_to_enqueue.id) ==> final(self)@.ids_unique(),
            occupied(final(self)@.cabins) <= final(self)@.capacity() == old(self)@.capacity(),
            old(self)@.only_allowed_inside() ==> final(self)@.only_allowed_inside(),
    {
        let mut person: Person = person_to_enqueue;
        person.joined_queue_at = Some(now);
        match person.gender {
            Gender::Male => self.male_queue.push(person),
            Gender::Female => self.female_queue.push(person),
        }
        proof {
            if old(self)@.ids_unique() && !old(self)@.queued(person_to_enqueue.id) && !old(
                self,
            )@.occupies(person_to_enqueue.id) {
                lemma_enqueue_keeps_ids_unique(old(self)@, person_to_enqueue, now);
            }
            if old(self)@.only_allowed_inside() {
                lemma_step_keeps_genders_apart(
                    old(self)@,
                    Step::Enqueue { person: person_to_enqueue, now },
                );
            }
            assert(self@ == old(self)@.with_queue(
                person_to_enqueue.gender,
                old(self)@.queue(person_to_enqueue.gender).push(
                    BathroomView::stamped_joined(person_to_enqueue, now),
                ),
            ));
        }
        self.apply_policy();
    }

    /// Lets the head of the queue of gender `gender` into the first free
    /// cabin, with `now` as the time of entering, and returns them. Where
    /// the queue is empty, its head is not of the allowed gender, the
    /// window has used up its count or its time, or no cabin is free,
    /// nothing changes and nobody is returned.
    pub fn allocate_cabin(&mut self, gender: Gender, now: u64) -> (entered: Option<Person>)
        requires
            old(self)@.wf(),
        ensures
            final(self)@ == old(self)@.after_allocate(gender, now),
            entered == if old(self)@.may_admit(gender, now) {
                Some(old(self)@.admitted(gender, now))
            } else {
                None
            },
            final(self)@.wf(),
            old(self)@.ids_unique() ==> final(self)@.ids_unique(),
            occupied(final(self)@.cabins) <= final(self)@.capacity() == old(self)@.capacity(),
            occupied(final(self)@.cabins) == occupied(old(self)@.cabins) + if entered is Some {
                1nat
            } else {
                0nat
            },
            old(self)@.only_allowed_inside() ==> final(self)@.only_allowed_inside(),
    {
        proof {
            lemma_occupied_bounded(self@.cabins);
            if self@.ids_unique() {
                lemma_allocate_keeps_ids_unique(self@, gender, now);
            }
            if self@.only_allowed_inside() {
                lemma_step_keeps_genders_apart(self@, Step::Allocate { gender, now });
            }
        }
        if self.queue_len(gender) == 0 {
            return None;
        }
        let head: Person = match gender {
            Gender::Male => self.male_queue[0],
            Gender::Female => self.female_queue[0],
        };
        if head.gender != self.allowed_gender || self.use_count == self.cabins.len()
            || self.elapsed(now) >= self.max_use_time {
            return None;
        }
        let at: usize = self.first_free_cabin();
        if at >= self.cabins.len() {
            return None;
        }
        if self.use_count == 0 {
            self.first_user_entered_at = Some(now);
        }
        self.use_count = self.use_count + 1;
        let mut person: Person = head;
        person.entered_bathroom_at = Some(now);
        match gender {
            Gender::Male => {
                self.male_queue.remove(0);
            },
            Gender::Female => {
                self.female_queue.remove(0);
            },
        }
        self.cabins[at] = Some(person);
        proof {
            lemma_occupied_update(old(self)@.cabins, at as int, Some(person));
            lemma_occupied_bounded(self@.cabins);
        }
        Some(person)
    }

    /// Clears the first cabin that the person with this identifier
    /// occupies, and evaluates the policy.
    pub fn free_cabin(&mut self, person_id: u128)
        requires
            old(self)@.occupies(person_id),
        ensures
            final(self)@ == old(self)@.after_free(person_id),
            old(self)@.wf() ==> final(self)@.wf(),
            old(self)@.ids_unique() ==> final(self)@.ids_unique(),
            old(self)@.ids_unique() ==> !final(self)@.occupies(person_id),
            occupied(final(self)@.cabins) + 1 == occupied(old(self)@.cabins),
            occupied(final(self)@.cabins) <= final(self)@.capacity() == old(self)@.capacity(),
            old(self)@.only_allowed_inside() ==> final(self)@.only_allowed_inside(),
    {
        let at: usize = self.cabin_of(person_id);
        proof {
            lemma_slot_of(self@.cabins, person_id);
            if self@.only_allowed_inside() {
                lemma_step_keeps_genders_apart(self@, Step::Free { id: person_id });
            }
            if self@.ids_unique() {
                lemma_free_keeps_ids_unique(self@, person_id);
            }
            lemma_occupied_update(self@.cabins, at as int, None);
        }
        self.cabins[at] = None;
        self.apply_policy();
    }
}

/// The policy moves nobody: queues and cabins stay as they are.
pub proof fn lemma_policy_moves_nobody(s: BathroomView)
    ensures
        s.after_policy().cabins == s.cabins,
        s.after_policy().male_queue == s.male_queue,
        s.after_policy().female_queue == s.female_queue,
        s.ids_unique() ==> s.after_policy().ids_unique(),
{
}

/// Where every identifier in the bathroom stands at one place only and the
/// newcomer's identifier stands nowhere in it, every identifier stands at
/// one place only after the newcomer has joined the queue.
pub proof fn lemma_enqueue_keeps_ids_unique(s: BathroomView, p: Person, now: u64)
    requires
        s.ids_unique(),
        !s.queued(p.id),
        !s.occupies(p.id),
    ensures
        s.after_enqueue(p, now).ids_unique(),
{
    let joined = BathroomView::stamped_joined(p, now);
    let t = s.with_queue(p.gender, s.queue(p.gender).push(joined));
    assert(t.ids_unique());
    lemma_policy_moves_nobody(t);
}

/// Where every identifier in the bathroom stands at one place only, it
/// still does after the head of a queue was asked in.
pub proof fn lemma_allocate_keeps_ids_unique(s: BathroomView, g: Gender, now: u64)
    requires
        s.ids_unique(),
    ensures
        s.after_allocate(g, now).ids_unique(),
{
    if s.may_admit(g, now) {
        lemma_leading_bounds(s.cabins, taken());
        let t = s.after_allocate(g, now);
        assert(t.ids_unique());
    }
}

/// Where every identifier in the bathroom stands at one place only, it
/// still does after someone left their cabin, and they occupy no cabin any
/// more.
pub proof fn lemma_free_keeps_ids_unique(s: BathroomView, id: u128)
    requires
        s.ids_unique(),
        s.occupies(id),
    ensures
        s.after_free(id).ids_unique(),
        !s.after_free(id).occupies(id),
{
    lemma_slot_of(s.cabins, id);
    let t = BathroomView { cabins: s.cabins.update(slot_of(s.cabins, id), None), ..s };
    assert(t.ids_unique());
    lemma_policy_moves_nobody(t);
    assert(!cabins_have(t.cabins, id));
}

/// Where every identifier stands at one place only, nobody is at once in a
/// queue and in a cabin.
pub proof fn lemma_never_queued_and_inside(s: BathroomView, id: u128)
    requires
        s.ids_unique(),
    ensures
        !(s.queued(id) && s.occupies(id)),
{
}

/// In a bathroom with a cabin and a window of some length, whose cabins
/// are all empty and where only the other gender waits, the policy passes
/// the turn, and the head of the other gender's queue may enter at once.
pub proof fn lemma_turn_passes_to_waiting_gender(s: BathroomView, now: u64)
    requires
        s.wf(),
        s.only_others_wait(),
        s.capacity() > 0,
        s.max_use_time > 0,
    ensures
        s.switch_due(),
        s.after_policy().allowed_gender == s.allowed_gender.other(),
        s.after_policy().may_admit(s.allowed_gender.other(), now),
        s.after_policy().admitted(s.allowed_gender.other(), now).gender
            == s.allowed_gender.other(),
        s.after_policy().admitted(s.allowed_gender.other(), now).id == s.queue(
            s.allowed_gender.other(),
        )[0].id,
{
    let t = s.after_policy();
    assert(t.cabins[0] is None);
    lemma_leading_unique(t.cabins, taken(), 0);
    assert(first_free(t.cabins) == 0);
    assert(t.queue(s.allowed_gender.other())[0].gender == s.allowed_gender.other());
}

/// One thing that can happen to a bathroom.
pub enum Step {
    /// Someone joins the queue of their gender.
    Enqueue { person: Person, now: u64 },
    /// The head of a queue is asked in.
    Allocate { gender: Gender, now: u64 },
    /// Someone leaves their cabin.
    Free { id: u128 },
    /// The policy is evaluated.
    Policy,
}

impl BathroomView {
    /// The step can be taken: whoever leaves a cabin occupies one.
    pub open spec fn can_take(self, step: Step) -> bool {
        match step {
            Step::Free { id } => self.occupies(id),
            _ => true,
        }
    }

    /// The step can be taken, and whoever joins a queue is not yet
    /// anywhere in the bathroom.
    pub open spec fn can_take_fresh(self, step: Step) -> bool {
        match step {
            Step::Enqueue { person, now } => !self.queued(person.id) && !self.occupies(person.id),
            _ => self.can_take(step),
        }
    }

    /// The bathroom after the step.
    pub open spec fn after_step(self, step: Step) -> BathroomView {
        match step {
            Step::Enqueue { person, now } => self.after_enqueue(person, now),
            Step::Allocate { gender, now } => self.after_allocate(gender, now),
            Step::Free { id } => self.after_free(id),
            Step::Policy => self.after_policy(),
        }
    }

    /// The bathroom after all the steps, taken in turn.
    pub open spec fn after_steps(self, steps: Seq<Step>) -> BathroomView
        decreases steps.len(),
    {
        if steps.len() == 0 {
            self
        } else {
            self.after_step(steps[0]).after_steps(steps.drop_first())
        }
    }

    /// Each of the steps can be taken when its turn comes.
    pub open spec fn can_take_all(self, steps: Seq<Step>) -> bool
        decreases steps.len(),
    {
        steps.len() == 0 || (self.can_take(steps[0]) && self.after_step(steps[0]).can_take_all(
            steps.drop_first(),
        ))
    }

    /// Each of the steps can be taken when its turn comes, and whoever
    /// joins a queue is not yet anywhere in the bathroom then.
    pub open spec fn can_take_all_fresh(self, steps: Seq<Step>) -> bool
        decreases steps.len(),
    {
        steps.len() == 0 || (self.can_take_fresh(steps[0]) && self.after_step(
            steps[0],
        ).can_take_all_fresh(steps.drop_first()))
    }
}

/// A step that can be taken keeps the counters consistent and the number
/// of cabins as it is.
pub proof fn lemma_step_keeps_wf(s: BathroomView, step: Step)
    requires
        s.wf(),
        s.can_take(step),
    ensures
        s.after_step(step).wf(),
        s.after_step(step).capacity() == s.capacity(),
{
    match step {
        Step::Enqueue { person, now } => {
            let joined = BathroomView::stamped_joined(person, now);
            let t = s.with_queue(person.gender, s.queue(person.gender).push(joined));
            assert(t.wf());
        },
        Step::Allocate { gender, now } => {
            lemma_leading_bounds(s.cabins, taken());
            if s.may_admit(gender, now) {
                let t = s.with_queue(gender, s.queue(gender).remove(0));
                assert(queue_is_of(t.male_queue, Gender::Male));
                assert(queue_is_of(t.female_queue, Gender::Female));
            }
        },
        Step::Free { id } => {
            lemma_slot_of(s.cabins, id);
        },
        Step::Policy => {},
    }
}

/// Whatever is done to a bathroom, in whatever order: the number of
/// cabins stays, and never are more cabins occupied than there are.
pub proof fn lemma_never_more_occupied_than_cabins(s: BathroomView, steps: Seq<Step>)
    requires
        s.wf(),
        s.can_take_all(steps),
    ensures
        s.after_steps(steps).wf(),
        s.after_steps(steps).capacity() == s.capacity(),
        occupied(s.after_steps(steps).cabins) <= s.capacity(),
    decreases steps.len(),
{
    if steps.len() == 0 {
        lemma_occupied_bounded(s.cabins);
    } else {
        lemma_step_keeps_wf(s, steps[0]);
        lemma_never_more_occupied_than_cabins(s.after_step(steps[0]), steps.drop_first());
    }
}

/// Whatever is done to a bathroom, in whatever order: as long as nobody
/// joins a queue who is already in the bathroom, nobody is at once in a
/// queue and in a cabin, nor in two queues or two cabins.
pub proof fn lemma_never_in_two_places(s: BathroomView, steps: Seq<Step>, id: u128)
    requires
        s.wf(),
        s.ids_unique(),
        s.can_take_all_fresh(steps),
    ensures
        s.after_steps(steps).ids_unique(),
        !(s.after_steps(steps).queued(id) && s.after_steps(steps).occupies(id)),
    decreases steps.len(),
{
    if steps.len() == 0 {
    } else {
        let step = steps[0];
        lemma_step_keeps_wf(s, step);
        match step {
            Step::Enqueue { person, now } => lemma_enqueue_keeps_ids_unique(s, person, now),
            Step::Allocate { gender, now } => lemma_allocate_keeps_ids_unique(s, gender, now),
            Step::Free { id } => lemma_free_keeps_ids_unique(s, id),
            Step::Policy => lemma_policy_moves_nobody(s),
        }
        lemma_never_in_two_places(s.after_step(step), steps.drop_first(), id);
    }
}

/// A step keeps the two genders apart: where whoever occupies a cabin is
/// of the gender that has the turn, this still holds after the step,
/// because the turn only passes while every cabin is empty.
pub proof fn lemma_step_keeps_genders_apart(s: BathroomView, step: Step)
    requires
        s.only_allowed_inside(),
        s.can_take(step),
    ensures
        s.after_step(step).only_allowed_inside(),
{
    match step {
        Step::Allocate { gender, now } => {
            lemma_leading_bounds(s.cabins, taken());
        },
        Step::Free { id } => {
            lemma_slot_of(s.cabins, id);
        },
        _ => {},
    }
}

/// Whatever is done to a bathroom, in whatever order: the two genders are
/// never inside together.
pub proof fn lemma_never_both_genders_inside(s: BathroomView, steps: Seq<Step>)
    requires
        s.only_allowed_inside(),
        s.can_take_all(steps),
    ensures
        s.after_steps(steps).only_allowed_inside(),
    decreases steps.len(),
{
    if steps.len() > 0 {
        lemma_step_keeps_genders_apart(s, steps[0]);
        lemma_never_both_genders_inside(s.after_step(steps[0]), steps.drop_first());
    }
}

/// Each queue is served in the order of arrival: a step leaves a queue as
/// it is, takes its first person away, or puts one more at its end.
pub proof fn lemma_queues_change_at_their_ends(s: BathroomView, step: Step, g: Gender)
    ensures
        ({
            let before = s.queue(g);
            let after = s.after_step(step).queue(g);
            ||| after == before
            ||| before.len() > 0 && after == before.drop_first()
            ||| after.len() > 0 && after.drop_last() == before
        }),
{
    let before = s.queue(g);
    match step {
        Step::Enqueue { person, now } => {
            let joined = BathroomView::stamped_joined(person, now);
            assert(before.push(joined).drop_last() == before);
        },
        Step::Allocate { gender, now } => {
            assert(before.len() > 0 ==> before.remove(0) == before.drop_first());
        },
        _ => {},
    }
}

} // verus!
