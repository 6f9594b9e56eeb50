//! The pool of upstream sessions.
//!
//! A cell stands for the session of one backend or one credential. It is
//! absent, opening or open. Whoever finds it absent claims the opening latch
//! and dials; whoever finds it opening waits and asks again. The subscription
//! pool files one cell per credential and hands the configured credentials
//! out in turn.

use crate::subscription::{credential_hash, credential_views, AzureSubscribeKey};
use crate::region::AzureApiRegionIdentifier;
use crate::text::str_eq;
use vstd::prelude::*;

verus! {

/// How long a caller waits before it asks an opening cell again, in milliseconds.
pub const LATCH_WAIT_MILLIS: u64 = 200;

/// How long the dialer waits after a failed dial before the next, in milliseconds.
pub const DIAL_RETRY_MILLIS: u64 = 1000;

/// The state of a cell.
#[derive(Clone, Copy, Debug, PartialEq, Eq, Structural)]
pub enum CellState {
    /// No session, and nobody is opening one.
    Absent,
    /// One caller holds the latch and dials.
    Opening,
    /// A usable session is installed.
    Open,
}

/// What happens to a cell.
#[derive(Clone, Copy, Debug, PartialEq, Eq, Structural)]
pub enum CellEvent {
    /// A caller asks for the session.
    Acquire,
    /// The dial of the latch holder gave a session.
    DialSucceeded,
    /// The dial of the latch holder failed.
    DialFailed,
    /// The session met a read or write error, or the peer closed it.
    ConnectionLost,
}

/// What the cell asks of whoever reported the event.
#[derive(Clone, Copy, Debug, PartialEq, Eq, Structural)]
pub enum CellAction {
    /// Nothing to do.
    Nothing,
    /// The session is open: use it.
    UseSession,
    /// The latch is yours: dial.
    Dial,
    /// Another caller is dialing: sleep, then ask again.
    Wait { millis: u64 },
    /// The session is installed and the latch released: start its read loop.
    StartReadLoop,
    /// The latch stays yours: sleep, then dial again.
    RetryDial { millis: u64 },
}

/// The state machine of a cell. An event that does not fit the state changes nothing.
pub open spec fn cell_step(state: CellState, event: CellEvent) -> (CellState, CellAction) {
    match (state, event) {
        (CellState::Open, CellEvent::Acquire) => (CellState::Open, CellAction::UseSession),
        (CellState::Absent, CellEvent::Acquire) => (CellState::Opening, CellAction::Dial),
        (CellState::Opening, CellEvent::Acquire) => (
            CellState::Opening,
            CellAction::Wait { millis: LATCH_WAIT_MILLIS },
        ),
        (CellState::Opening, CellEvent::DialSucceeded) => (
            CellState::Open,
            CellAction::StartReadLoop,
        ),
        (CellState::Opening, CellEvent::DialFailed) => (
            CellState::Opening,
            CellAction::RetryDial { millis: DIAL_RETRY_MILLIS },
        ),
        (CellState::Open, CellEvent::ConnectionLost) => (CellState::Absent, CellAction::Nothing),
        _ => (state, CellAction::Nothing),
    }
}

/// The cell of one backend or one credential.
#[derive(Clone, Copy, Debug)]
pub struct SessionCell {
    state: CellState,
}

impl View for SessionCell {
    type V = CellState;

    closed spec fn view(&self) -> CellState {
        self.state
    }
}

impl SessionCell {
    /// A cell without a session.
    pub fn new() -> (cell: Self)
        ensures
            cell@ == CellState::Absent,
    {
        SessionCell { state: CellState::Absent }
    }

    /// The state of the cell.
    pub fn state(&self) -> (state: CellState)
        ensures
            state == self@,
    {
        self.state
    }

    /// Takes one event and says what is to be done.
    pub fn step(&mut self, event: CellEvent) -> (action: CellAction)
        ensures
            (final(self)@, action) == cell_step(old(self)@, event),
    {
        match (self.state, event) {
            (CellState::Open, CellEvent::Acquire) => CellAction::UseSession,
            (CellState::Absent, CellEvent::Acquire) => {
                self.state = CellState::Opening;
                CellAction::Dial
            },
            (CellState::Opening, CellEvent::Acquire) => CellAction::Wait {
                millis: LATCH_WAIT_MILLIS,
            },
            (CellState::Opening, CellEvent::DialSucceeded) => {
                self.state = CellState::Open;
                CellAction::StartReadLoop
            },
            (CellState::Opening, CellEvent::DialFailed) => CellAction::RetryDial {
                millis: DIAL_RETRY_MILLIS,
            },
            (CellState::Open, CellEvent::ConnectionLost) => {
                self.state = CellState::Absent;
                CellAction::Nothing
            },
            _ => CellAction::Nothing,
        }
    }

    /// A caller asks for the session: use it, dial for it, or wait.
    pub fn acquire(&mut self) -> (action: CellAction)
        ensures
            (final(self)@, action) == cell_step(old(self)@, CellEvent::Acquire),
            action is UseSession || action is Dial || action is Wait,
    {
        self.step(CellEvent::Acquire)
    }
}

/// The state of a cell after a run of events.
pub open spec fn cell_run(state: CellState, events: Seq<CellEvent>) -> CellState
    decreases events.len(),
{
    if events.len() == 0 {
        state
    } else {
        cell_step(cell_run(state, events.drop_last()), events.last()).0
    }
}

/// The action begins a dial.
pub open spec fn begins_dial(action: CellAction) -> bool {
    action is Dial || action is RetryDial
}

/// The event reports the end of the dial that the state waits for.
pub open spec fn ends_dial(state: CellState, event: CellEvent) -> bool {
    state == CellState::Opening && (event == CellEvent::DialSucceeded || event
        == CellEvent::DialFailed)
}

/// The number of dials that were begun and have not ended, after a run of
/// events on a cell that started absent.
pub open spec fn dials_in_progress(events: Seq<CellEvent>) -> int
    decreases events.len(),
{
    if events.len() == 0 {
        0
    } else {
        let state = cell_run(CellState::Absent, events.drop_last());
        let ended: int = if ends_dial(state, events.last()) {
            1
        } else {
            0
        };
        let begun: int = if begins_dial(cell_step(state, events.last()).1) {
            1
        } else {
            0
        };
        dials_in_progress(events.drop_last()) - ended + begun
    }
}

/// At every instant at most one dial is in progress for a cell, and one is
/// in progress exactly while the cell is opening.
pub proof fn lemma_one_dial_at_a_time(events: Seq<CellEvent>)
    ensures
        0 <= dials_in_progress(events) <= 1,
        dials_in_progress(events) == 1 <==> cell_run(CellState::Absent, events)
            == CellState::Opening,
    decreases events.len(),
{
    if events.len() > 0 {
        lemma_one_dial_at_a_time(events.drop_last());
    }
}

/// The index of the next credential after `opens` sessions were opened.
pub open spec fn turn_after(index: nat, opens: nat, len: nat) -> nat {
    (index + opens) % len
}

/// Handing the credentials out in turn reaches every one of them within as
/// many opened sessions as there are credentials.
pub proof fn lemma_round_robin_visits_all(index: nat, len: nat, target: nat)
    requires
        index < len,
        target < len,
    ensures
        exists|opens: nat| opens < len && turn_after(index, opens, len) == target,
{
    let opens: nat = if target >= index {
        (target - index) as nat
    } else {
        (target + len - index) as nat
    };
    assert(turn_after(index, opens, len) == target) by {
        if target >= index {
            assert(index + opens == target);
            assert(target % len == target) by (nonlinear_arith)
                requires
                    0 <= target < len,
            ;
        } else {
            assert(index + opens == target + len);
            assert((target + len) % len == target) by (nonlinear_arith)
                requires
                    0 <= target < len,
            ;
        }
    }
}

/// One more opened session moves the turn on by one.
pub proof fn lemma_turn_advances(index: nat, opens: nat, len: nat)
    requires
        len > 0,
    ensures
        turn_after(turn_after(index, opens, len), 1, len) == turn_after(index, opens + 1, len),
{
    let l = len as int;
    let a = (index + opens) as int;
    assert(((a % l) + 1) % l == (a + 1) % l) by (nonlinear_arith)
        requires
            l > 0,
            a >= 0,
    ;
}

/// The hash is that of one of the credentials.
pub open spec fn is_hash_of_one(
    keys: Seq<(Seq<char>, AzureApiRegionIdentifier)>,
    hash: Seq<char>,
) -> bool {
    exists|i: int| 0 <= i < keys.len() && hash == credential_hash(keys[i].0, keys[i].1)
}

/// One cell of the subscription backend with the hash it is filed under.
#[derive(Debug)]
struct PoolSlot {
    hash: String,
    cell: SessionCell,
}

spec fn slot_hashes(slots: Seq<PoolSlot>) -> Seq<Seq<char>> {
    Seq::new(slots.len(), |i: int| slots[i].hash@)
}

spec fn slot_states(slots: Seq<PoolSlot>) -> Seq<CellState> {
    Seq::new(slots.len(), |i: int| slots[i].cell@)
}

spec fn all_filed(keys: Seq<(Seq<char>, AzureApiRegionIdentifier)>, hashes: Seq<Seq<char>>) -> bool {
    forall|i: int|
        0 <= i < keys.len() ==> hashes.contains(#[trigger] credential_hash(keys[i].0, keys[i].1))
}

fn find_slot(slots: &Vec<PoolSlot>, hash: &str) -> (r: Option<usize>)
    ensures
        match r {
            Some(i) => i < slots@.len() && slot_hashes(slots@)[i as int] == hash@,
            None => !slot_hashes(slots@).contains(hash@),
        },
{
    let mut i: usize = 0;
    while i < slots.len()
        invariant
            i <= slots@.len(),
            forall|k: int| 0 <= k < i ==> slot_hashes(slots@)[k] != hash@,
        decreases slots@.len() - i,
    {
        if str_eq(slots[i].hash.as_str(), hash) {
            return Some(i);
        }
        i += 1;
    }
    None
}

fn copy_slots(slots: &Vec<PoolSlot>) -> (r: Vec<PoolSlot>)
    ensures
        slot_hashes(r@) == slot_hashes(slots@),
        slot_states(r@) == slot_states(slots@),
{
    let mut out: Vec<PoolSlot> = Vec::new();
    let mut i: usize = 0;
    while i < slots.len()
        invariant
            i <= slots@.len(),
            out@.len() == i,
            forall|k: int|
                0 <= k < i ==> out@[k].hash@ == slots@[k].hash@ && out@[k].cell@ == slots@[k].cell@,
        decreases slots@.len() - i,
    {
        out.push(PoolSlot { hash: slots[i].hash.clone(), cell: slots[i].cell });
        i += 1;
    }
    assert(slot_hashes(out@) =~= slot_hashes(slots@));
    assert(slot_states(out@) =~= slot_states(slots@));
    out
}

fn file_into(slots: &mut Vec<PoolSlot>, hash: String) -> (r: usize)
    requires
        slot_hashes(old(slots)@).no_duplicates(),
    ensures
        slot_hashes(final(slots)@).no_duplicates(),
        r < final(slots)@.len(),
        slot_hashes(final(slots)@)[r as int] == hash@,
        slot_hashes(old(slots)@).contains(hash@) ==> slot_hashes(final(slots)@) == slot_hashes(
            old(slots)@,
        ) && slot_states(final(slots)@) == slot_states(old(slots)@),
        !slot_hashes(old(slots)@).contains(hash@) ==> slot_hashes(final(slots)@) == slot_hashes(
            old(slots)@,
        ).push(hash@) && slot_states(final(slots)@) == slot_states(old(slots)@).push(
            CellState::Absent,
        ),
{
    match find_slot(slots, hash.as_str()) {
        Some(i) => i,
        None => {
            slots.push(PoolSlot { hash, cell: SessionCell::new() });
            assert(slot_hashes(slots@) =~= slot_hashes(old(slots)@).push(hash@));
            assert(slot_states(slots@) =~= slot_states(old(slots)@).push(CellState::Absent));
            slots.len() - 1
        },
    }
}

proof fn lemma_still_filed(
    keys: Seq<(Seq<char>, AzureApiRegionIdentifier)>,
    before: Seq<Seq<char>>,
    after: Seq<Seq<char>>,
)
    requires
        all_filed(keys, before),
        after == before || exists|hash: Seq<char>| after == before.push(hash),
    ensures
        all_filed(keys, after),
{
    assert forall|i: int| 0 <= i < keys.len() implies after.contains(
        #[trigger] credential_hash(keys[i].0, keys[i].1),
    ) by {
        let h = credential_hash(keys[i].0, keys[i].1);
        assert(before.contains(h));
        let w = choose|w: int| 0 <= w < before.len() && before[w] == h;
        assert(after[w] == h);
    }
}

/// The cells of the subscription backend, filed by credential hash, and the
/// turn among the configured credentials. There is a configured
/// credential, the turn points at one, every configured credential has
/// its cell, and no hash is filed twice.
#[derive(Debug)]
pub struct SubscriptionPool {
    keys: Vec<AzureSubscribeKey>,
    slots: Vec<PoolSlot>,
    index: usize,
}

impl SubscriptionPool {
    #[verifier::type_invariant]
    spec fn well_filed(self) -> bool {
        &&& self.keys@.len() > 0
        &&& self.index < self.keys@.len()
        &&& slot_hashes(self.slots@).no_duplicates()
        &&& all_filed(credential_views(self.keys@), slot_hashes(self.slots@))
    }

    /// The configured credentials.
    pub closed spec fn keys(&self) -> Seq<(Seq<char>, AzureApiRegionIdentifier)> {
        credential_views(self.keys@)
    }

    /// The hashes under which cells are filed, oldest first.
    pub closed spec fn hashes(&self) -> Seq<Seq<char>> {
        slot_hashes(self.slots@)
    }

    /// The states of the cells, in the order of `hashes`.
    pub closed spec fn states(&self) -> Seq<CellState> {
        slot_states(self.slots@)
    }

    /// The place of the configured credential whose turn it is.
    pub closed spec fn index(&self) -> nat {
        self.index as nat
    }

    /// There is a configured credential, the turn points at one, every
    /// configured credential has its cell, and no hash is filed twice.
    /// This holds of every pool.
    pub open spec fn wf(&self) -> bool {
        &&& self.keys().len() > 0
        &&& self.index() < self.keys().len()
        &&& self.hashes().len() == self.states().len()
        &&& self.hashes().no_duplicates()
        &&& forall|i: int|
            0 <= i < self.keys().len() ==> self.hashes().contains(
                #[trigger] credential_hash(self.keys()[i].0, self.keys()[i].1),
            )
    }

    /// The pool of the configured credentials, each with an absent cell.
    /// Without a credential there is no pool.
    pub fn new(keys: Vec<AzureSubscribeKey>) -> (r: Option<Self>)
        ensures
            r is Some <==> keys@.len() > 0,
            r matches Some(pool) ==> {
                &&& pool.wf()
                &&& pool.keys() == credential_views(keys@)
                &&& pool.index() == 0
                &&& forall|i: int| 0 <= i < pool.states().len() ==> pool.states()[i] == CellState::Absent
                &&& forall|j: int|
                    0 <= j < pool.hashes().len() ==> is_hash_of_one(
                        pool.keys(),
                        #[trigger] pool.hashes()[j],
                    )
            },
    {
        if keys.len() == 0 {
            return None;
        }
        let ghost views = credential_views(keys@);
        let mut slots: Vec<PoolSlot> = Vec::new();
        assert(slot_hashes(slots@) =~= Seq::<Seq<char>>::empty());
        let mut i: usize = 0;
        while i < keys.len()
            invariant
                i <= keys@.len(),
                views == credential_views(keys@),
                slot_hashes(slots@).no_duplicates(),
                forall|k: int|
                    0 <= k < i ==> slot_hashes(slots@).contains(
                        #[trigger] credential_hash(views[k].0, views[k].1),
                    ),
                forall|k: int| 0 <= k < slots@.len() ==> slot_states(slots@)[k] == CellState::Absent,
                forall|j: int|
                    0 <= j < slots@.len() ==> is_hash_of_one(
                        views,
                        #[trigger] slot_hashes(slots@)[j],
                    ),
            decreases keys@.len() - i,
        {
            let ghost before = slot_hashes(slots@);
            let ghost states = slot_states(slots@);
            let hash = keys[i].hash_str();
            let at = file_into(&mut slots, hash);
            assert forall|k: int| 0 <= k < slots@.len() implies slot_states(slots@)[k]
                == CellState::Absent by {
                assert(slot_states(slots@).len() == slots@.len());
                if before.contains(hash@) {
                    assert(slot_states(slots@) == states);
                    assert(states[k] == CellState::Absent);
                } else {
                    assert(slot_states(slots@) == states.push(CellState::Absent));
                    if k < states.len() {
                        assert(states[k] == CellState::Absent);
                    }
                }
            }
            assert forall|k: int| 0 <= k <= i implies slot_hashes(slots@).contains(
                #[trigger] credential_hash(views[k].0, views[k].1),
            ) by {
                let h = credential_hash(views[k].0, views[k].1);
                if k < i {
                    assert(before.contains(h));
                    let w = choose|w: int| 0 <= w < before.len() && before[w] == h;
                    assert(slot_hashes(slots@)[w] == h);
                } else {
                    assert(slot_hashes(slots@)[at as int] == h);
                }
            }
            assert forall|j: int| 0 <= j < slots@.len() implies is_hash_of_one(
                views,
                #[trigger] slot_hashes(slots@)[j],
            ) by {
                if j < before.len() {
                    assert(slot_hashes(slots@)[j] == before[j]);
                    assert(is_hash_of_one(views, before[j]));
                } else {
                    assert(slot_hashes(slots@)[j] == credential_hash(
                        views[i as int].0,
                        views[i as int].1,
                    ));
                }
            }
            i += 1;
        }
        Some(SubscriptionPool { keys, slots, index: 0 })
    }

    /// The configured credential whose turn it is.
    pub fn key_in_turn(&self) -> (r: &AzureSubscribeKey)
        ensures
            self.wf(),
            r@ == self.keys()[self.index() as int],
    {
        proof {
            use_type_invariant(self);
        }
        &self.keys[self.index]
    }

    /// The number of cells.
    pub fn len(&self) -> (n: usize)
        ensures
            self.wf(),
            n == self.states().len(),
    {
        proof {
            use_type_invariant(self);
        }
        self.slots.len()
    }

    /// The hash of the credential that a request asks for.
    pub open spec fn wanted(&self, pinned: Option<&AzureSubscribeKey>) -> Seq<char> {
        match pinned {
            Some(key) => credential_hash(key.0@, key.1),
            None => credential_hash(
                self.keys()[self.index() as int].0,
                self.keys()[self.index() as int].1,
            ),
        }
    }

    /// The cell for a request: that of the pinned credential, which is
    /// filed on the spot if it has none yet, or else that of the configured
    /// credential whose turn it is.
    pub fn select(&mut self, pinned: Option<&AzureSubscribeKey>) -> (r: usize)
        ensures
            old(self).wf(),
            final(self).wf(),
            final(self).keys() == old(self).keys(),
            final(self).index() == old(self).index(),
            r < final(self).hashes().len(),
            final(self).hashes()[r as int] == old(self).wanted(pinned),
            old(self).hashes().contains(old(self).wanted(pinned)) ==> final(self).hashes() == old(
                self,
            ).hashes() && final(self).states() == old(self).states(),
            !old(self).hashes().contains(old(self).wanted(pinned)) ==> final(self).hashes() == old(
                self,
            ).hashes().push(old(self).wanted(pinned)) && final(self).states() == old(
                self,
            ).states().push(CellState::Absent),
            pinned is None ==> old(self).hashes().contains(old(self).wanted(pinned)),
    {
        proof {
            use_type_invariant(&*self);
        }
        let hash = match pinned {
            Some(key) => key.hash_str(),
            None => self.keys[self.index].hash_str(),
        };
        proof {
            if pinned is None {
                let i = self.index() as int;
                assert(self.hashes().contains(
                    credential_hash(self.keys()[i].0, self.keys()[i].1),
                ));
            }
        }
        let mut slots = copy_slots(&self.slots);
        let r = file_into(&mut slots, hash);
        proof {
            lemma_still_filed(self.keys(), self.hashes(), slot_hashes(slots@));
        }
        self.slots = slots;
        r
    }

    /// Reports an event to a cell and says what is to be done. A session
    /// that was opened moves the turn on to the next configured credential.
    /// There is nothing to do for a cell that the pool does not have.
    pub fn step(&mut self, cell: usize, event: CellEvent) -> (action: CellAction)
        ensures
            old(self).wf(),
            final(self).wf(),
            final(self).keys() == old(self).keys(),
            final(self).hashes() == old(self).hashes(),
            cell < old(self).states().len() ==> {
                &&& action == cell_step(old(self).states()[cell as int], event).1
                &&& final(self).states() == old(self).states().update(
                    cell as int,
                    cell_step(old(self).states()[cell as int], event).0,
                )
            },
            cell >= old(self).states().len() ==> action == CellAction::Nothing
                && final(self).states() == old(self).states(),
            final(self).index() == if action is StartReadLoop {
                turn_after(old(self).index(), 1, old(self).keys().len())
            } else {
                old(self).index()
            },
    {
        proof {
            use_type_invariant(&*self);
        }
        if cell >= self.slots.len() {
            return CellAction::Nothing;
        }
        let mut slots = copy_slots(&self.slots);
        assert(slots@.len() == slot_hashes(slots@).len());
        assert(self.slots@.len() == slot_hashes(self.slots@).len());
        assert(slots@[cell as int].cell@ == slot_states(self.slots@)[cell as int]);
        assert(slots@[cell as int].hash@ == slot_hashes(self.slots@)[cell as int]);
        let mut slot = slots[cell].cell;
        let action = slot.step(event);
        let hash = slots[cell].hash.clone();
        slots.set(cell, PoolSlot { hash, cell: slot });
        assert(slot_states(slots@) =~= old(self).states().update(
            cell as int,
            cell_step(old(self).states()[cell as int], event).0,
        ));
        assert(slot_hashes(slots@) =~= old(self).hashes());
        self.slots = slots;
        if let CellAction::StartReadLoop = action {
            let n: usize = self.keys.len();
            let next: usize = if self.index + 1 < n {
                self.index + 1
            } else {
                0
            };
            assert(next == turn_after(old(self).index(), 1, old(self).keys().len())) by {
                let i = old(self).index() as int;
                let l = old(self).keys().len() as int;
                if i + 1 < l {
                    assert((i + 1) % l == i + 1) by (nonlinear_arith)
                        requires
                            0 <= i + 1 < l,
                    ;
                } else {
                    assert(i + 1 == l);
                    assert(l % l == 0) by (nonlinear_arith)
                        requires
                            l > 0,
                    ;
                }
            }
            self.index = next;
        }
        action
    }
}

} // verus!
