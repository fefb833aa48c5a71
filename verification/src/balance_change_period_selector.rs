//! Sliding window of balance changes per trading place.
//!
//! Each trading place has a queue of its balance changes, oldest first. A
//! queue is synchronized by dropping changes from its front: without a
//! position change to go by, every change older than the start of the period;
//! with one, every change before the fill at which the position changed. A
//! read shows the queue with the changes of that fill cut down to the portion
//! that belongs to the position held since. A trading place for which no
//! change was added has no queue; a synchronization passes it over, and a read
//! of it shows no changes.

use crate::balance_changes_accumulator::BalanceChangeAccumulator;
use crate::identifiers::TradePlaceAccount;
use crate::position_change::PositionAuthority;
use crate::position_change::PositionChange;
use crate::profit_loss_balance_change::ProfitLossBalanceChange;
use crate::time::now;
use crate::time::DateTime;
use crate::time::Duration;
use std::collections::VecDeque;
use vstd::prelude::*;

verus! {

/// View of a trading place: the exchange, the account number and the pair.
pub type TradePlace = ((Seq<char>, u8), Seq<char>);

/// Why the selector could not do what it was asked.
#[derive(Clone, Copy, Debug, PartialEq, Eq)]
pub enum SelectorError {
    /// The clock shows an instant that cannot be counted.
    ClockOutOfRange,
    /// The instant one period before the given one cannot be counted.
    StartOfPeriodOutOfRange,
    /// The portion of a balance change has no representation.
    PortionOverflow,
}

/// Whether a change at the front of a queue stays there: without a position
/// change, when it is not older than the start of the period; with one, when
/// it belongs to the fill of the position change.
pub open spec fn stays(
    entry: ProfitLossBalanceChange,
    start_of_period: DateTime,
    boundary: Option<PositionChange>,
) -> bool {
    match boundary {
        None => entry.change_date@ >= start_of_period@,
        Some(position_change) => entry.client_order_fill_id@
            == position_change.client_order_fill_id@,
    }
}

/// The queue after synchronization: changes are dropped from the front until
/// one stays.
pub open spec fn synchronized(
    queue: Seq<ProfitLossBalanceChange>,
    start_of_period: DateTime,
    boundary: Option<PositionChange>,
) -> Seq<ProfitLossBalanceChange>
    decreases queue.len(),
{
    if queue.len() == 0 || stays(queue[0], start_of_period, boundary) {
        queue
    } else {
        synchronized(queue.drop_first(), start_of_period, boundary)
    }
}

/// Whether a change belongs to the fill of the position change.
pub open spec fn at_boundary(
    entry: ProfitLossBalanceChange,
    boundary: Option<PositionChange>,
) -> bool {
    boundary matches Some(position_change) && entry.client_order_fill_id@
        == position_change.client_order_fill_id@
}

/// A change as a read shows it: cut down to the portion where it belongs to
/// the fill of the position change, as it is otherwise. `None` where the
/// portion has no representation.
pub open spec fn shown(
    entry: ProfitLossBalanceChange,
    boundary: Option<PositionChange>,
) -> Option<ProfitLossBalanceChange> {
    if at_boundary(entry, boundary) {
        entry.portioned(boundary->0.portion)
    } else {
        Some(entry)
    }
}

/// Whether every change of the queue can be shown.
pub open spec fn all_shown(
    queue: Seq<ProfitLossBalanceChange>,
    boundary: Option<PositionChange>,
) -> bool {
    forall|i: int| 0 <= i < queue.len() ==> (#[trigger] shown(queue[i], boundary)) is Some
}

/// The changes of a queue as a read shows them, in the order of the queue.
pub open spec fn items_of(
    queue: Seq<ProfitLossBalanceChange>,
    boundary: Option<PositionChange>,
) -> Seq<ProfitLossBalanceChange> {
    Seq::new(queue.len(), |i: int| shown(queue[i], boundary)->0)
}

/// Whether every change of the sequence was made at the given trading place.
pub open spec fn in_place(changes: Seq<ProfitLossBalanceChange>, place: TradePlace) -> bool {
    forall|k: int| 0 <= k < changes.len() ==> (#[trigger] changes[k]).trade_place() == place
}

/// Whether the changes of a queue are in the order of their dates.
pub open spec fn chronological(queue: Seq<ProfitLossBalanceChange>) -> bool {
    forall|i: int, j: int|
        0 <= i <= j < queue.len() ==> (#[trigger] queue[i]).change_date@ <= (
        #[trigger] queue[j]).change_date@
}

/// Whether the instant one `period` before `now` can be counted.
pub open spec fn period_fits(now: DateTime, period: Duration) -> bool {
    i64::MIN <= now@ - period@ <= i64::MAX
}

/// The instant one `period` before `now`.
pub open spec fn start_of(now: DateTime, period: Duration) -> DateTime {
    DateTime { timestamp_nanos: (now@ - period@) as i64 }
}

struct TradePlaceQueue {
    trade_place: TradePlaceAccount,
    changes: VecDeque<ProfitLossBalanceChange>,
}

/// The balance changes of the last period, kept apart by trading place.
///
/// The view is the map from each known trading place to its queue of changes,
/// oldest first.
pub struct BalanceChangePeriodSelector<A: PositionAuthority> {
    period: Duration,
    position_authority: Option<A>,
    queues: Vec<TradePlaceQueue>,
}

impl<A: PositionAuthority> View for BalanceChangePeriodSelector<A> {
    type V = Map<TradePlace, Seq<ProfitLossBalanceChange>>;

    closed spec fn view(&self) -> Map<TradePlace, Seq<ProfitLossBalanceChange>> {
        Map::new(
            |place: TradePlace| self.places().contains(place),
            |place: TradePlace| self.queues[self.places().index_of(place)].changes@,
        )
    }
}

impl<A: PositionAuthority> BalanceChangePeriodSelector<A> {
    /// The known trading places, in the order in which they became known.
    pub closed spec fn trade_places(self) -> Seq<TradePlaceAccount> {
        Seq::new(self.queues.len() as nat, |i: int| self.queues[i].trade_place)
    }

    /// The views of the known trading places, in the same order.
    pub open spec fn places(self) -> Seq<TradePlace> {
        Seq::new(self.trade_places().len(), |i: int| self.trade_places()[i]@)
    }

    /// The length of the window.
    pub closed spec fn spec_period(&self) -> Duration {
        self.period
    }

    /// The position authority, if one is configured.
    pub closed spec fn position_authority(self) -> Option<A> {
        self.position_authority
    }

    /// No trading place is known twice, and the queue of a trading place
    /// holds changes of that place alone.
    #[verifier::type_invariant]
    spec fn wf(self) -> bool {
        &&& self.places().no_duplicates()
        &&& forall|i: int|
            0 <= i < self.queues.len() ==> in_place(
                (#[trigger] self.queues[i]).changes@,
                self.queues[i].trade_place@,
            )
    }

    /// Whether the trading places are kept apart: none is known twice, the
    /// known ones are those that have a queue, and the queue of each holds
    /// changes of that place alone. Every selector that was built keeps them
    /// so.
    pub open spec fn kept_apart(self) -> bool {
        &&& self.places().no_duplicates()
        &&& forall|place: TradePlace|
            self@.contains_key(place) <==> #[trigger] self.places().contains(place)
        &&& forall|place: TradePlace|
            self@.contains_key(place) ==> in_place(#[trigger] self@[place], place)
    }

    /// The known trading places are the keys of the view: each of them has a
    /// queue, and no other trading place has one.
    pub proof fn lemma_places_are_keys(self)
        ensures
            forall|place: TradePlace|
                self@.contains_key(place) <==> #[trigger] self.places().contains(place),
            forall|i: int|
                0 <= i < self.places().len() ==> self@.contains_key(#[trigger] self.places()[i]),
    {
    }

    proof fn lemma_kept_apart(self)
        requires
            self.wf(),
        ensures
            self.kept_apart(),
    {
        assert forall|place: TradePlace| self@.contains_key(place) implies in_place(
            #[trigger] self@[place],
            place,
        ) by {
            let i = self.places().index_of(place);
            assert(0 <= i < self.places().len() && self.places()[i] == place);
            self.lemma_index(i);
        }
    }

    /// Whether `boundary` is what a synchronization of `trade_place` goes by:
    /// an answer that the position authority can give when it is asked for
    /// the last position change of `trade_place` before `start_of_period`;
    /// without a position authority there is no position change.
    pub open spec fn answers(
        self,
        trade_place: TradePlaceAccount,
        start_of_period: DateTime,
        boundary: Option<PositionChange>,
    ) -> bool {
        match self.position_authority() {
            Some(authority) => call_ensures(
                A::get_last_position_change_before_period,
                (&authority, &trade_place, start_of_period),
                boundary,
            ),
            None => boundary is None,
        }
    }

    /// Whether `later` has the configuration of `self`.
    pub open spec fn configured_as(self, later: Self) -> bool {
        &&& later.spec_period() == self.spec_period()
        &&& later.position_authority() == self.position_authority()
    }

    /// Whether `later` knows the trading places of `self`, each with the
    /// queue that it has in `self`.
    pub open spec fn same_queues(self, later: Self) -> bool {
        &&& later@ == self@
        &&& later.trade_places() == self.trade_places()
    }

    /// The queue of a trading place, empty where the place is not known.
    pub open spec fn queue(self, place: TradePlace) -> Seq<ProfitLossBalanceChange> {
        if self@.contains_key(place) {
            self@[place]
        } else {
            Seq::empty()
        }
    }

    /// Whether `later` is `self` with one more change, added to the queue of
    /// its trading place and that queue synchronized by `boundary` at the date
    /// of the change.
    pub open spec fn added(
        self,
        later: Self,
        balance_change: ProfitLossBalanceChange,
        boundary: Option<PositionChange>,
    ) -> bool {
        let place = balance_change.trade_place();
        &&& self.answers(
            balance_change.place(),
            start_of(balance_change.change_date, self.spec_period()),
            boundary,
        )
        &&& later@ == self@.insert(
            place,
            synchronized(
                self.queue(place).push(balance_change),
                start_of(balance_change.change_date, self.spec_period()),
                boundary,
            ),
        )
        &&& later.trade_places() == if self@.contains_key(place) {
            self.trade_places()
        } else {
            self.trade_places().push(balance_change.place())
        }
    }

    /// Whether `later` and `result` are what the adding of `balance_change`
    /// leaves and gives: an error and the queues as they were where the
    /// window of the change cannot be counted, else the change added and its
    /// queue synchronized by what the position authority answered.
    pub open spec fn change_added(
        self,
        later: Self,
        result: Result<(), SelectorError>,
        balance_change: ProfitLossBalanceChange,
    ) -> bool {
        if !period_fits(balance_change.change_date, self.spec_period()) {
            &&& result == Err::<(), SelectorError>(SelectorError::StartOfPeriodOutOfRange)
            &&& self.same_queues(later)
        } else {
            &&& result is Ok
            &&& exists|boundary: Option<PositionChange>| #[trigger]
                self.added(later, balance_change, boundary)
        }
    }

    /// Whether `later` is `self` with the queue of the known trading place
    /// `place` synchronized by `boundary`.
    pub open spec fn synchronized_at(
        self,
        later: Self,
        place: TradePlace,
        start_of_period: DateTime,
        boundary: Option<PositionChange>,
    ) -> bool {
        &&& later@ == self@.insert(place, synchronized(self@[place], start_of_period, boundary))
        &&& later.trade_places() == self.trade_places()
    }

    /// Whether `later` and `result` are what the synchronization of
    /// `trade_place` for a window that ends at `now` leaves and gives: an
    /// error where the start of the window cannot be counted, no position
    /// change where the trading place is not known, both with the queues as
    /// they were; else the answer of the position authority, and the queue of
    /// the trading place synchronized by it.
    pub open spec fn period_synchronized(
        self,
        later: Self,
        result: Result<Option<PositionChange>, SelectorError>,
        now: DateTime,
        trade_place: TradePlaceAccount,
    ) -> bool {
        if !period_fits(now, self.spec_period()) {
            &&& result == Err::<Option<PositionChange>, SelectorError>(
                SelectorError::StartOfPeriodOutOfRange,
            )
            &&& self.same_queues(later)
        } else if !self@.contains_key(trade_place@) {
            &&& result == Ok::<Option<PositionChange>, SelectorError>(None)
            &&& self.same_queues(later)
        } else {
            &&& result matches Ok(boundary)
            &&& self.answers(trade_place, start_of(now, self.spec_period()), boundary)
            &&& self.synchronized_at(
                later,
                trade_place@,
                start_of(now, self.spec_period()),
                boundary,
            )
        }
    }

    /// Whether `later` and `result` are what a read of `trade_place` at `now`
    /// leaves and gives: an error where the start of the window cannot be
    /// counted, and no change at all where the trading place is not known,
    /// both with the queues as they were and no queue made; else the queue
    /// of the trading place synchronized by what the position authority
    /// answered, and its changes as they are shown with that answer.
    pub open spec fn read_at(
        self,
        later: Self,
        result: Result<Vec<ProfitLossBalanceChange>, SelectorError>,
        now: DateTime,
        trade_place: TradePlaceAccount,
    ) -> bool {
        let place = trade_place@;
        if !period_fits(now, self.spec_period()) {
            &&& result == Err::<Vec<ProfitLossBalanceChange>, SelectorError>(
                SelectorError::StartOfPeriodOutOfRange,
            )
            &&& self.same_queues(later)
        } else if !self@.contains_key(place) {
            &&& result matches Ok(items)
            &&& items@ == Seq::<ProfitLossBalanceChange>::empty()
            &&& self.same_queues(later)
        } else {
            exists|boundary: Option<PositionChange>|
                {
                    &&& #[trigger] self.answers(
                        trade_place,
                        start_of(now, self.spec_period()),
                        boundary,
                    )
                    &&& self.synchronized_at(
                        later,
                        place,
                        start_of(now, self.spec_period()),
                        boundary,
                    )
                    &&& if all_shown(later@[place], boundary) {
                        result matches Ok(items) && items@ == items_of(later@[place], boundary)
                    } else {
                        result == Err::<Vec<ProfitLossBalanceChange>, SelectorError>(
                            SelectorError::PortionOverflow,
                        )
                    }
                }
        }
    }

    /// Whether `later` and `result` are what a read of every trading place at
    /// `now` leaves and gives.
    pub open spec fn read_all_at(
        self,
        later: Self,
        result: Result<Vec<Vec<ProfitLossBalanceChange>>, SelectorError>,
        now: DateTime,
    ) -> bool {
        if !period_fits(now, self.spec_period()) {
            &&& result == Err::<Vec<Vec<ProfitLossBalanceChange>>, SelectorError>(
                SelectorError::StartOfPeriodOutOfRange,
            )
            &&& self.same_queues(later)
        } else {
            exists|boundaries: Seq<Option<PositionChange>>|
                {
                    &&& #[trigger] self.synchronized_all(
                        later,
                        start_of(now, self.spec_period()),
                        boundaries,
                    )
                    &&& if later.all_places_shown(boundaries) {
                        result matches Ok(items) && later.items_of_all(items, boundaries)
                    } else {
                        result == Err::<Vec<Vec<ProfitLossBalanceChange>>, SelectorError>(
                            SelectorError::PortionOverflow,
                        )
                    }
                }
        }
    }

    /// Whether `later` is `self` with the queue of every trading place
    /// synchronized, the queue of the `i`-th place by `boundaries[i]`.
    pub open spec fn synchronized_all(
        self,
        later: Self,
        start_of_period: DateTime,
        boundaries: Seq<Option<PositionChange>>,
    ) -> bool {
        &&& boundaries.len() == self.places().len()
        &&& later.trade_places() == self.trade_places()
        &&& later@.dom() == self@.dom()
        &&& forall|i: int|
            0 <= i < self.places().len() ==> {
                &&& self.answers(
                    self.trade_places()[i],
                    start_of_period,
                    #[trigger] boundaries[i],
                )
                &&& later@[self.places()[i]] == synchronized(
                    self@[self.places()[i]],
                    start_of_period,
                    boundaries[i],
                )
            }
    }

    /// Whether every change of every queue can be shown, those of the `i`-th
    /// trading place with `boundaries[i]`.
    pub open spec fn all_places_shown(self, boundaries: Seq<Option<PositionChange>>) -> bool {
        forall|i: int|
            0 <= i < self.places().len() ==> all_shown(
                self@[self.places()[i]],
                #[trigger] boundaries[i],
            )
    }

    /// Whether `items` holds one sequence for each known trading place, in
    /// their order, and each sequence changes of its trading place alone.
    pub open spec fn each_of_its_place(self, items: Vec<Vec<ProfitLossBalanceChange>>) -> bool {
        &&& items@.len() == self.places().len()
        &&& forall|i: int|
            0 <= i < self.places().len() ==> in_place((#[trigger] items@[i])@, self.places()[i])
    }

    /// Whether `items` holds, for each trading place in turn, the changes of
    /// its queue as a read with `boundaries[i]` shows them.
    pub open spec fn items_of_all(
        self,
        items: Vec<Vec<ProfitLossBalanceChange>>,
        boundaries: Seq<Option<PositionChange>>,
    ) -> bool {
        &&& items.len() == self.places().len()
        &&& forall|i: int|
            0 <= i < self.places().len() ==> (#[trigger] items[i])@ == items_of(
                self@[self.places()[i]],
                boundaries[i],
            )
    }

    proof fn lemma_index(self, i: int)
        requires
            self.wf(),
            0 <= i < self.queues.len(),
        ensures
            self.places().len() == self.queues.len(),
            self.trade_places()[i] == self.queues[i].trade_place,
            self.places()[i] == self.queues[i].trade_place@,
            self.places().contains(self.places()[i]),
            self.places().index_of(self.places()[i]) == i,
            self@.contains_key(self.places()[i]),
            self@[self.places()[i]] == self.queues[i].changes@,
    {
        let place = self.places()[i];
        assert(self.places().contains(place));
        let found = self.places().index_of(place);
        assert(0 <= found < self.places().len() && self.places()[found] == place);
        assert(found == i);
    }

    /// A selector that knows no trading place yet. It keeps the changes of
    /// the last `period`, and asks `position_authority`, where there is one,
    /// for the position change to go by.
    pub fn new(period: Duration, position_authority: Option<A>) -> (r: Self)
        ensures
            r@ == Map::<TradePlace, Seq<ProfitLossBalanceChange>>::empty(),
            r.trade_places() == Seq::<TradePlaceAccount>::empty(),
            r.spec_period() == period,
            r.position_authority() == position_authority,
            r.kept_apart(),
    {
        let r = BalanceChangePeriodSelector { period, position_authority, queues: Vec::new() };
        assert(r@ =~= Map::<TradePlace, Seq<ProfitLossBalanceChange>>::empty());
        assert(r.trade_places() =~= Seq::<TradePlaceAccount>::empty());
        assert(r.places() =~= Seq::<TradePlace>::empty());
        proof {
            r.lemma_emptied();
            r.lemma_kept_apart();
        }
        r
    }

    /// The length of the window.
    #[verifier::when_used_as_spec(spec_period)]
    pub fn period(&self) -> (r: Duration)
        ensures
            r == self.spec_period(),
    {
        self.period
    }

    proof fn lemma_emptied(self)
        requires
            self.queues.len() == 0,
        ensures
            self.wf(),
    {
    }

    fn find(&self, trade_place: &TradePlaceAccount) -> (r: Option<usize>)
        ensures
            self.wf(),
            self.kept_apart(),
            r matches Some(i) ==> i < self.queues.len() && self.places()[i as int]
                == trade_place@ && self@.contains_key(trade_place@) && self@[trade_place@]
                == self.queues[i as int].changes@,
            r is None ==> !self@.contains_key(trade_place@),
    {
        proof {
            use_type_invariant(self);
            self.lemma_kept_apart();
        }
        let mut i: usize = 0;
        while i < self.queues.len()
            invariant
                self.wf(),
                i <= self.queues.len(),
                forall|j: int| 0 <= j < i ==> self.places()[j] != trade_place@,
            decreases self.queues.len() - i,
        {
            if self.queues[i].trade_place.equals(trade_place) {
                proof {
                    self.lemma_index(i as int);
                }
                return Some(i);
            }
            i = i + 1;
        }
        None
    }

    proof fn lemma_updated(self, later: Self, i: int)
        requires
            self.wf(),
            0 <= i < self.queues.len(),
            later.queues.len() == self.queues.len(),
            forall|j: int|
                0 <= j < self.queues.len() ==> (#[trigger] later.queues[j]).trade_place
                    == self.queues[j].trade_place,
            forall|j: int|
                0 <= j < self.queues.len() && j != i ==> (#[trigger] later.queues[j]).changes@
                    == self.queues[j].changes@,
            in_place(later.queues[i].changes@, self.queues[i].trade_place@),
        ensures
            later.wf(),
            later.trade_places() == self.trade_places(),
            later.places() == self.places(),
            later@ == self@.insert(self.places()[i], later.queues[i].changes@),
    {
        assert(later.trade_places() =~= self.trade_places());
        assert(later.places() =~= self.places());
        assert forall|place: TradePlace| #[trigger] later@.contains_key(place) implies later@[place]
            == self@.insert(self.places()[i], later.queues[i].changes@)[place] by {
            let j = later.places().index_of(place);
            assert(0 <= j < later.places().len() && later.places()[j] == place);
            self.lemma_index(j);
            self.lemma_index(i);
        }
        self.lemma_index(i);
        assert(later@ =~= self@.insert(self.places()[i], later.queues[i].changes@));
    }

    proof fn lemma_pushed(self, later: Self)
        requires
            self.wf(),
            later.queues.len() == self.queues.len() + 1,
            forall|j: int|
                0 <= j < self.queues.len() ==> (#[trigger] later.queues[j]) == self.queues[j],
            !self@.contains_key(later.queues[self.queues.len() as int].trade_place@),
            in_place(
                later.queues[self.queues.len() as int].changes@,
                later.queues[self.queues.len() as int].trade_place@,
            ),
        ensures
            later.wf(),
            later.trade_places() == self.trade_places().push(
                later.queues[self.queues.len() as int].trade_place,
            ),
            later.places() == self.places().push(
                later.queues[self.queues.len() as int].trade_place@,
            ),
            later@ == self@.insert(
                later.queues[self.queues.len() as int].trade_place@,
                later.queues[self.queues.len() as int].changes@,
            ),
    {
        let n = self.queues.len() as int;
        let place = later.queues[n].trade_place@;
        assert(later.trade_places() =~= self.trade_places().push(later.queues[n].trade_place));
        assert(later.places() =~= self.places().push(place));
        assert forall|j: int| 0 <= j < n implies self.places()[j] != place by {
            self.lemma_index(j);
        }
        assert(later.wf());
        assert forall|other: TradePlace| #[trigger] later@.contains_key(other) implies later@[other]
            == self@.insert(place, later.queues[n].changes@)[other] by {
            let j = later.places().index_of(other);
            assert(0 <= j < later.places().len() && later.places()[j] == other);
            later.lemma_index(j);
            if j < n {
                self.lemma_index(j);
            }
        }
        assert forall|other: TradePlace|
            self@.insert(place, later.queues[n].changes@).contains_key(
                other,
            ) implies #[trigger] later@.contains_key(other) by {
            if other == place {
                later.lemma_index(n);
            } else {
                let j = self.places().index_of(other);
                assert(0 <= j < self.places().len() && self.places()[j] == other);
                later.lemma_index(j);
            }
        }
        assert(later@ =~= self@.insert(place, later.queues[n].changes@));
    }

    /// Takes the queues out, to change them, and leaves none behind.
    fn take_queues(&mut self) -> (queues: Vec<TradePlaceQueue>)
        ensures
            queues == old(self).queues,
            old(self).wf(),
            final(self).queues@.len() == 0,
            final(self).period == old(self).period,
            final(self).position_authority == old(self).position_authority,
    {
        proof {
            use_type_invariant(&*self);
        }
        let mut queues: Vec<TradePlaceQueue> = Vec::new();
        proof {
            let emptied = BalanceChangePeriodSelector {
                period: self.period,
                position_authority: self.position_authority,
                queues,
            };
            emptied.lemma_emptied();
        }
        core::mem::swap(&mut self.queues, &mut queues);
        queues
    }

    /// The known trading places, in the order in which they became known.
    pub fn get_trade_places(&self) -> (r: Vec<TradePlaceAccount>)
        ensures
            r@ == self.trade_places(),
            self.kept_apart(),
    {
        proof {
            use_type_invariant(self);
            self.lemma_kept_apart();
        }
        let mut trade_places: Vec<TradePlaceAccount> = Vec::new();
        let mut i: usize = 0;
        while i < self.queues.len()
            invariant
                i <= self.queues.len(),
                trade_places@.len() == i,
                forall|j: int| 0 <= j < i ==> trade_places@[j] == self.queues[j].trade_place,
            decreases self.queues.len() - i,
        {
            trade_places.push(self.queues[i].trade_place.clone());
            i = i + 1;
        }
        assert(trade_places@ =~= self.trade_places());
        trade_places
    }

    /// Whether a balance change was ever added for the trading place.
    pub fn has_trade_place(&self, trade_place: &TradePlaceAccount) -> (r: bool)
        ensures
            r == self@.contains_key(trade_place@),
    {
        self.find(trade_place).is_some()
    }

    /// The instant one period before `now`, or `None` where it cannot be
    /// counted.
    pub fn start_of_period(&self, now: DateTime) -> (r: Option<DateTime>)
        ensures
            period_fits(now, self.spec_period()) ==> r == Some(start_of(now, self.spec_period())),
            !period_fits(now, self.spec_period()) ==> r is None,
    {
        now.checked_sub(self.period)
    }

    /// Asks the position authority, where there is one, for the last position
    /// change of the trading place before the start of the period.
    fn ask(&self, trade_place: &TradePlaceAccount, start_of_period: DateTime) -> (r: Option<
        PositionChange,
    >)
        ensures
            self.answers(*trade_place, start_of_period, r),
    {
        match &self.position_authority {
            Some(authority) => authority.get_last_position_change_before_period(
                trade_place,
                start_of_period,
            ),
            None => None,
        }
    }

    fn synchronize_index(
        &mut self,
        i: usize,
        start_of_period: DateTime,
        boundary: &Option<PositionChange>,
    )
        requires
            i < old(self).queues.len(),
        ensures
            old(self).wf(),
            final(self).wf(),
            final(self).kept_apart(),
            old(self).configured_as(*final(self)),
            final(self).queues.len() == old(self).queues.len(),
            old(self).synchronized_at(
                *final(self),
                old(self).places()[i as int],
                start_of_period,
                *boundary,
            ),
    {
        let mut queues = self.take_queues();
        evict(&mut queues[i].changes, start_of_period, boundary);
        proof {
            let later = BalanceChangePeriodSelector {
                period: self.period,
                position_authority: self.position_authority,
                queues,
            };
            old(self).lemma_index(i as int);
            let whole = old(self).queues[i as int].changes@;
            let kept = later.queues[i as int].changes@;
            let place = old(self).queues[i as int].trade_place@;
            let dropped = lemma_synchronized_is_tail(whole, start_of_period, *boundary);
            assert forall|k: int| 0 <= k < kept.len() implies (#[trigger] kept[k]).trade_place()
                == place by {
                assert(kept[k] == whole[dropped + k]);
            }
            old(self).lemma_updated(later, i as int);
            later.lemma_kept_apart();
        }
        self.queues = queues;
    }

    /// Synchronizes the queue of the trading place by the given position
    /// change: drops changes from its front until one stays. A trading place
    /// that is not known is passed over.
    pub fn synchronize_with(
        &mut self,
        start_of_period: DateTime,
        trade_place: &TradePlaceAccount,
        boundary: &Option<PositionChange>,
    )
        ensures
            old(self).configured_as(*final(self)),
            old(self).kept_apart(),
            final(self).kept_apart(),
            old(self)@.contains_key(trade_place@) ==> old(self).synchronized_at(
                *final(self),
                trade_place@,
                start_of_period,
                *boundary,
            ),
            !old(self)@.contains_key(trade_place@) ==> old(self).same_queues(*final(self)),
    {
        proof {
            use_type_invariant(&*self);
            self.lemma_kept_apart();
        }
        match self.find(trade_place) {
            Some(i) => {
                self.synchronize_index(i, start_of_period, boundary);
            },
            None => {},
        }
    }

    /// Synchronizes the queue of the trading place for a window that ends at
    /// `now`, by the position change that the position authority reports, and
    /// hands that position change back. A trading place that is not known is
    /// passed over, and the position authority is not asked.
    pub fn synchronize_period(&mut self, now: DateTime, trade_place: &TradePlaceAccount) -> (r:
        Result<Option<PositionChange>, SelectorError>)
        ensures
            old(self).configured_as(*final(self)),
            old(self).kept_apart(),
            final(self).kept_apart(),
            old(self).period_synchronized(*final(self), r, now, *trade_place),
    {
        proof {
            use_type_invariant(&*self);
            self.lemma_kept_apart();
        }
        let start_of_period = match self.start_of_period(now) {
            Some(start_of_period) => start_of_period,
            None => {
                return Err(SelectorError::StartOfPeriodOutOfRange);
            },
        };
        let i = match self.find(trade_place) {
            Some(i) => i,
            None => {
                return Ok(None);
            },
        };
        let boundary = self.ask(trade_place, start_of_period);
        self.synchronize_index(i, start_of_period, &boundary);
        Ok(boundary)
    }

    /// Adds a balance change to the queue of its trading place, which becomes
    /// known if it was not, and synchronizes that queue for a window that ends
    /// at the date of the change. Nothing is added when the start of that
    /// window cannot be counted.
    pub fn add(&mut self, balance_change: &ProfitLossBalanceChange) -> (r: Result<
        (),
        SelectorError,
    >)
        ensures
            old(self).configured_as(*final(self)),
            old(self).kept_apart(),
            final(self).kept_apart(),
            old(self).change_added(*final(self), r, *balance_change),
    {
        proof {
            use_type_invariant(&*self);
            self.lemma_kept_apart();
        }
        let start_of_period = match self.start_of_period(balance_change.change_date) {
            Some(start_of_period) => start_of_period,
            None => {
                return Err(SelectorError::StartOfPeriodOutOfRange);
            },
        };
        let trade_place = balance_change.trade_place_account();
        let found = self.find(&trade_place);
        let mut queues = self.take_queues();
        let i = match found {
            Some(i) => {
                queues[i].changes.push_back(balance_change.clone());
                i
            },
            None => {
                let mut changes = VecDeque::new();
                changes.push_back(balance_change.clone());
                queues.push(TradePlaceQueue { trade_place: trade_place.clone(), changes });
                queues.len() - 1
            },
        };
        let ghost pushed = BalanceChangePeriodSelector {
            period: self.period,
            position_authority: self.position_authority,
            queues,
        };
        proof {
            if found is Some {
                old(self).lemma_index(i as int);
                old(self).lemma_updated(pushed, i as int);
            } else {
                old(self).lemma_pushed(pushed);
            }
            pushed.lemma_index(i as int);
        }
        self.queues = queues;
        let boundary = self.ask(&trade_place, start_of_period);
        self.synchronize_index(i, start_of_period, &boundary);
        proof {
            let place = balance_change.trade_place();
            assert(final(self)@ =~= old(self)@.insert(
                place,
                synchronized(
                    old(self).queue(place).push(*balance_change),
                    start_of_period,
                    boundary,
                ),
            ));
            assert(old(self).added(*final(self), *balance_change, boundary));
        }
        Ok(())
    }

    fn items_at_index(&self, i: usize, boundary: &Option<PositionChange>) -> (r: Option<
        Vec<ProfitLossBalanceChange>,
    >)
        requires
            i < self.queues.len(),
        ensures
            all_shown(self.queues[i as int].changes@, *boundary) ==> (r matches Some(items)
                && items@ == items_of(self.queues[i as int].changes@, *boundary)),
            !all_shown(self.queues[i as int].changes@, *boundary) ==> r is None,
    {
        let queue = &self.queues[i].changes;
        let mut items: Vec<ProfitLossBalanceChange> = Vec::new();
        let mut k: usize = 0;
        while k < queue.len()
            invariant
                i < self.queues.len(),
                queue@ == self.queues[i as int].changes@,
                k <= queue.len(),
                items@.len() == k,
                forall|j: int| 0 <= j < k ==> shown(queue@[j], *boundary) == Some(items@[j]),
            decreases queue.len() - k,
        {
            let entry = &queue[k];
            let item = match boundary {
                Some(position_change) => {
                    if entry.client_order_fill_id.equals(&position_change.client_order_fill_id) {
                        entry.with_portion(position_change.portion)
                    } else {
                        Some(entry.clone())
                    }
                },
                None => Some(entry.clone()),
            };
            assert(item == shown(queue@[k as int], *boundary));
            match item {
                Some(item) => {
                    items.push(item);
                },
                None => {
                    assert(shown(queue@[k as int], *boundary) is None);
                    return None;
                },
            }
            k = k + 1;
        }
        assert(items@ =~= items_of(queue@, *boundary));
        Some(items)
    }

    /// The changes in the queue of the trading place, oldest first, as they
    /// are shown with the given position change: a change of the fill of the
    /// position change is cut down to its portion, every other change is
    /// shown as it is. A trading place that is not known has no changes to
    /// show. The queues are left as they are.
    pub fn items_with(&self, trade_place: &TradePlaceAccount, boundary: &Option<PositionChange>)
        -> (r: Result<Vec<ProfitLossBalanceChange>, SelectorError>)
        ensures
            !all_shown(self.queue(trade_place@), *boundary) ==> r == Err::<
                Vec<ProfitLossBalanceChange>,
                SelectorError,
            >(SelectorError::PortionOverflow),
            all_shown(self.queue(trade_place@), *boundary) ==> (r matches Ok(items) && items@
                == items_of(self.queue(trade_place@), *boundary)),
            !self@.contains_key(trade_place@) ==> (r matches Ok(items) && items@
                == Seq::<ProfitLossBalanceChange>::empty()),
            self.kept_apart(),
            r matches Ok(items) ==> in_place(items@, trade_place@),
    {
        proof {
            if self@.contains_key(trade_place@) && all_shown(self@[trade_place@], *boundary) {
                use_type_invariant(self);
                self.lemma_kept_apart();
                lemma_shown_in_place(self@[trade_place@], *boundary, trade_place@);
            }
        }
        match self.find(trade_place) {
            Some(i) => match self.items_at_index(i, boundary) {
                Some(items) => Ok(items),
                None => Err(SelectorError::PortionOverflow),
            },
            None => {
                let items: Vec<ProfitLossBalanceChange> = Vec::new();
                assert(items@ =~= items_of(self.queue(trade_place@), *boundary));
                Ok(items)
            },
        }
    }

    /// Synchronizes the queue of the trading place for a window that ends at
    /// `now` and gives its changes, oldest first, as they are shown with the
    /// position change that the synchronization went by. A trading place
    /// that is not known is passed over: the read gives no changes, makes no
    /// queue, and does not ask the position authority.
    pub fn get_items_by_trade_place_at(&mut self, now: DateTime, trade_place: &TradePlaceAccount)
        -> (r: Result<Vec<ProfitLossBalanceChange>, SelectorError>)
        ensures
            old(self).configured_as(*final(self)),
            old(self).kept_apart(),
            final(self).kept_apart(),
            old(self).read_at(*final(self), r, now, *trade_place),
            r matches Ok(items) ==> in_place(items@, trade_place@),
    {
        proof {
            use_type_invariant(&*self);
            self.lemma_kept_apart();
        }
        let start_of_period = match self.start_of_period(now) {
            Some(start_of_period) => start_of_period,
            None => {
                return Err(SelectorError::StartOfPeriodOutOfRange);
            },
        };
        let i = match self.find(trade_place) {
            Some(i) => i,
            None => {
                return Ok(Vec::new());
            },
        };
        let boundary = self.ask(trade_place, start_of_period);
        self.synchronize_index(i, start_of_period, &boundary);
        proof {
            self.lemma_index(i as int);
            old(self).lemma_index(i as int);
        }
        let r = match self.items_at_index(i, &boundary) {
            Some(items) => Ok(items),
            None => Err(SelectorError::PortionOverflow),
        };
        proof {
            assert(old(self).answers(*trade_place, start_of_period, boundary));
            if r is Ok {
                lemma_shown_in_place(self@[trade_place@], boundary, trade_place@);
            }
        }
        r
    }

    fn synchronize_all(&mut self, start_of_period: DateTime) -> (boundaries: Vec<
        Option<PositionChange>,
    >)
        ensures
            old(self).wf(),
            final(self).wf(),
            old(self).configured_as(*final(self)),
            final(self).queues.len() == old(self).queues.len(),
            old(self).synchronized_all(*final(self), start_of_period, boundaries@),
    {
        proof {
            use_type_invariant(&*self);
        }
        let mut boundaries: Vec<Option<PositionChange>> = Vec::new();
        let mut i: usize = 0;
        while i < self.queues.len()
            invariant
                old(self).wf(),
                self.wf(),
                old(self).configured_as(*self),
                self.queues.len() == old(self).queues.len(),
                self.trade_places() == old(self).trade_places(),
                self@.dom() == old(self)@.dom(),
                i <= self.queues.len(),
                boundaries.len() == i,
                forall|j: int|
                    0 <= j < i ==> {
                        &&& old(self).answers(
                            self.trade_places()[j],
                            start_of_period,
                            #[trigger] boundaries@[j],
                        )
                        &&& self@[self.places()[j]] == synchronized(
                            old(self)@[self.places()[j]],
                            start_of_period,
                            boundaries@[j],
                        )
                    },
                forall|j: int|
                    i <= j < self.queues.len() ==> self@[#[trigger] self.places()[j]]
                        == old(self)@[self.places()[j]],
            decreases self.queues.len() - i,
        {
            let ghost before = *self;
            let boundary = self.ask(&self.queues[i].trade_place, start_of_period);
            self.synchronize_index(i, start_of_period, &boundary);
            boundaries.push(boundary);
            proof {
                before.lemma_index(i as int);
                assert(self@.dom() =~= before@.dom());
                assert forall|j: int| 0 <= j < self.queues.len() && j != i implies self@[
                #[trigger] self.places()[j]] == before@[self.places()[j]] by {
                    before.lemma_index(j);
                }
            }
            i = i + 1;
        }
        proof {
            assert(self.places().len() == self.queues.len()) by {
                if self.queues.len() > 0 {
                    self.lemma_index(0);
                }
            }
        }
        boundaries
    }

    /// Synchronizes the queue of every trading place for a window that ends at
    /// `now` and gives, for each trading place in the order in which they
    /// became known, its changes, oldest first, as they are shown with the
    /// position change that its synchronization went by.
    #[verifier::loop_isolation(false)]
    pub fn get_items_at(&mut self, now: DateTime) -> (r: Result<
        Vec<Vec<ProfitLossBalanceChange>>,
        SelectorError,
    >)
        ensures
            old(self).configured_as(*final(self)),
            old(self).kept_apart(),
            final(self).kept_apart(),
            old(self).read_all_at(*final(self), r, now),
            r matches Ok(items) ==> old(self).each_of_its_place(items),
    {
        proof {
            use_type_invariant(&*self);
            self.lemma_kept_apart();
        }
        let start_of_period = match self.start_of_period(now) {
            Some(start_of_period) => start_of_period,
            None => {
                return Err(SelectorError::StartOfPeriodOutOfRange);
            },
        };
        let boundaries = self.synchronize_all(start_of_period);
        let mut all: Vec<Vec<ProfitLossBalanceChange>> = Vec::new();
        let mut i: usize = 0;
        proof {
            if self.queues.len() > 0 {
                self.lemma_index(0);
            }
        }
        while i < self.queues.len()
            invariant
                self.wf(),
                self.places().len() == self.queues.len(),
                boundaries.len() == self.queues.len(),
                i <= self.queues.len(),
                all.len() == i,
                forall|j: int|
                    0 <= j < i ==> all_shown(self@[self.places()[j]], #[trigger] boundaries@[j]),
                forall|j: int|
                    0 <= j < i ==> (#[trigger] all@[j])@ == items_of(
                        self@[self.places()[j]],
                        boundaries@[j],
                    ),
            decreases self.queues.len() - i,
        {
            proof {
                self.lemma_index(i as int);
            }
            match self.items_at_index(i, &boundaries[i]) {
                Some(items) => {
                    all.push(items);
                },
                None => {
                    assert(!all_shown(self@[self.places()[i as int]], boundaries@[i as int]));
                    assert(!self.all_places_shown(boundaries@));
                    return Err(SelectorError::PortionOverflow);
                },
            }
            i = i + 1;
        }
        assert(self.all_places_shown(boundaries@));
        assert(self.items_of_all(all, boundaries@));
        proof {
            self.lemma_kept_apart();
            assert forall|j: int| 0 <= j < self.places().len() implies in_place(
                (#[trigger] all@[j])@,
                self.places()[j],
            ) by {
                self.lemma_index(j);
                lemma_shown_in_place(self@[self.places()[j]], boundaries@[j], self.places()[j]);
            }
        }
        Ok(all)
    }

    /// Reads the clock, synchronizes the queue of every trading place for a
    /// window that ends now, and gives, for each trading place in the order in
    /// which they became known, its changes, oldest first, as they are shown
    /// with the position change that its synchronization went by.
    pub fn get_items(&mut self) -> (r: Result<Vec<Vec<ProfitLossBalanceChange>>, SelectorError>)
        ensures
            old(self).configured_as(*final(self)),
            r == Err::<Vec<Vec<ProfitLossBalanceChange>>, SelectorError>(
                SelectorError::ClockOutOfRange,
            ) ==> old(self).same_queues(*final(self)),
            r != Err::<Vec<Vec<ProfitLossBalanceChange>>, SelectorError>(
                SelectorError::ClockOutOfRange,
            ) ==> exists|at: DateTime| #[trigger] old(self).read_all_at(*final(self), r, at),
            old(self).kept_apart(),
            final(self).kept_apart(),
            r matches Ok(items) ==> old(self).each_of_its_place(items),
    {
        proof {
            use_type_invariant(&*self);
            self.lemma_kept_apart();
        }
        match now() {
            Some(at) => self.get_items_at(at),
            None => Err(SelectorError::ClockOutOfRange),
        }
    }

    /// Reads the clock, synchronizes the queue of the trading place for a
    /// window that ends now, and gives its changes, oldest first, as they are
    /// shown with the position change that the synchronization went by.
    pub fn get_items_by_trade_place(&mut self, trade_place: &TradePlaceAccount) -> (r: Result<
        Vec<ProfitLossBalanceChange>,
        SelectorError,
    >)
        ensures
            old(self).configured_as(*final(self)),
            r == Err::<Vec<ProfitLossBalanceChange>, SelectorError>(SelectorError::ClockOutOfRange)
                ==> old(self).same_queues(*final(self)),
            r != Err::<Vec<ProfitLossBalanceChange>, SelectorError>(SelectorError::ClockOutOfRange)
                ==> exists|at: DateTime| #[trigger]
                old(self).read_at(*final(self), r, at, *trade_place),
            old(self).kept_apart(),
            final(self).kept_apart(),
            r matches Ok(items) ==> in_place(items@, trade_place@),
    {
        proof {
            use_type_invariant(&*self);
            self.lemma_kept_apart();
        }
        match now() {
            Some(at) => self.get_items_by_trade_place_at(at, trade_place),
            None => Err(SelectorError::ClockOutOfRange),
        }
    }
}

impl<A: PositionAuthority> BalanceChangeAccumulator for BalanceChangePeriodSelector<A> {
    /// Adds the balance change as [`BalanceChangePeriodSelector::add`] does;
    /// a change whose window cannot be counted is passed over.
    fn add_balance_change(&mut self, balance_change: &ProfitLossBalanceChange)
        ensures
            old(self).configured_as(*final(self)),
            old(self).kept_apart(),
            final(self).kept_apart(),
            exists|result: Result<(), SelectorError>| #[trigger]
                old(self).change_added(*final(self), result, *balance_change),
    {
        let _ = self.add(balance_change);
    }
}

/// Drops changes from the front of the queue until one stays.
fn evict(
    queue: &mut VecDeque<ProfitLossBalanceChange>,
    start_of_period: DateTime,
    boundary: &Option<PositionChange>,
)
    ensures
        final(queue)@ == synchronized(old(queue)@, start_of_period, *boundary),
{
    loop
        invariant
            synchronized(queue@, start_of_period, *boundary) == synchronized(
                old(queue)@,
                start_of_period,
                *boundary,
            ),
        ensures
            queue@ == synchronized(old(queue)@, start_of_period, *boundary),
        decreases queue.len(),
    {
        if queue.len() == 0 {
            break ;
        }
        let front_stays = match boundary {
            None => !queue[0].change_date.is_before(&start_of_period),
            Some(position_change) => queue[0].client_order_fill_id.equals(
                &position_change.client_order_fill_id,
            ),
        };
        if front_stays {
            break ;
        }
        let ghost before = queue@;
        let _ = queue.pop_front();
        assert(queue@ == before.drop_first());
    }
}

/// The synchronized queue is a tail of the queue: some number of changes is
/// gone from the front, none of them one that stays, and the first change that
/// is left stays.
pub proof fn lemma_synchronized_is_tail(
    queue: Seq<ProfitLossBalanceChange>,
    start_of_period: DateTime,
    boundary: Option<PositionChange>,
) -> (dropped: int)
    ensures
        0 <= dropped <= queue.len(),
        synchronized(queue, start_of_period, boundary) == queue.skip(dropped),
        forall|i: int| 0 <= i < dropped ==> !stays(#[trigger] queue[i], start_of_period, boundary),
        dropped < queue.len() ==> stays(queue[dropped], start_of_period, boundary),
    decreases queue.len(),
{
    if queue.len() == 0 || stays(queue[0], start_of_period, boundary) {
        assert(queue.skip(0) =~= queue);
        0
    } else {
        let rest = lemma_synchronized_is_tail(queue.drop_first(), start_of_period, boundary);
        assert(queue.drop_first().skip(rest) =~= queue.skip(rest + 1));
        assert forall|i: int| 0 <= i < rest + 1 implies !stays(
            #[trigger] queue[i],
            start_of_period,
            boundary,
        ) by {
            if i > 0 {
                assert(queue[i] == queue.drop_first()[i - 1]);
            }
        }
        rest + 1
    }
}

/// A queue that was synchronized is left as it is when it is synchronized
/// again at the same instant by the same position change.
pub proof fn lemma_synchronized_again(
    queue: Seq<ProfitLossBalanceChange>,
    start_of_period: DateTime,
    boundary: Option<PositionChange>,
)
    ensures
        synchronized(synchronized(queue, start_of_period, boundary), start_of_period, boundary)
            == synchronized(queue, start_of_period, boundary),
    decreases queue.len(),
{
    if queue.len() == 0 || stays(queue[0], start_of_period, boundary) {
    } else {
        lemma_synchronized_again(queue.drop_first(), start_of_period, boundary);
    }
}

/// Without a position change, a queue in the order of its dates holds after
/// synchronization no change older than the start of the period, and every
/// change is shown as it is.
pub proof fn lemma_window_without_position_change(
    queue: Seq<ProfitLossBalanceChange>,
    start_of_period: DateTime,
)
    requires
        chronological(queue),
    ensures
        forall|i: int|
            0 <= i < synchronized(queue, start_of_period, None).len() ==> (#[trigger] synchronized(
                queue,
                start_of_period,
                None,
            )[i]).change_date@ >= start_of_period@,
        all_shown(synchronized(queue, start_of_period, None), None),
        items_of(synchronized(queue, start_of_period, None), None) == synchronized(
            queue,
            start_of_period,
            None,
        ),
{
    let kept = synchronized(queue, start_of_period, None);
    let dropped = lemma_synchronized_is_tail(queue, start_of_period, None);
    assert forall|i: int| 0 <= i < kept.len() implies (#[trigger] kept[i]).change_date@
        >= start_of_period@ by {
        assert(kept[i] == queue[dropped + i]);
        assert(queue[dropped].change_date@ <= queue[dropped + i].change_date@);
    }
    assert(items_of(kept, None) =~= kept);
}

/// No change that is as young as the start of the period is dropped from a
/// queue in the order of its dates when there is no position change.
pub proof fn lemma_window_keeps_period(
    queue: Seq<ProfitLossBalanceChange>,
    start_of_period: DateTime,
    i: int,
)
    requires
        chronological(queue),
        0 <= i < queue.len(),
        queue[i].change_date@ >= start_of_period@,
    ensures
        synchronized(queue, start_of_period, None).contains(queue[i]),
{
    let kept = synchronized(queue, start_of_period, None);
    let dropped = lemma_synchronized_is_tail(queue, start_of_period, None);
    if i < dropped {
        assert(!stays(queue[i], start_of_period, None));
    }
    assert(kept[i - dropped] == queue[i]);
}

/// With a position change whose fill has a change in the queue, the
/// synchronized queue begins with the first change of that fill, however old
/// it is, and holds every change from there on.
pub proof fn lemma_boundary_fill_stays(
    queue: Seq<ProfitLossBalanceChange>,
    start_of_period: DateTime,
    position_change: PositionChange,
    i: int,
) -> (dropped: int)
    requires
        0 <= i < queue.len(),
        queue[i].client_order_fill_id@ == position_change.client_order_fill_id@,
    ensures
        0 <= dropped <= i,
        synchronized(queue, start_of_period, Some(position_change)) == queue.skip(dropped),
        at_boundary(queue[dropped], Some(position_change)),
        forall|j: int|
            0 <= j < dropped ==> !at_boundary(#[trigger] queue[j], Some(position_change)),
        synchronized(queue, start_of_period, Some(position_change))[i - dropped] == queue[i],
{
    let dropped = lemma_synchronized_is_tail(queue, start_of_period, Some(position_change));
    if i < dropped {
        assert(!stays(queue[i], start_of_period, Some(position_change)));
    }
    dropped
}

/// What a read shows of a queue: as many changes as the queue holds, in its
/// order; a change of the fill of the position change with both amounts
/// multiplied by the portion, every other change as it is.
pub proof fn lemma_items_portioned(
    queue: Seq<ProfitLossBalanceChange>,
    boundary: Option<PositionChange>,
    i: int,
)
    requires
        all_shown(queue, boundary),
        0 <= i < queue.len(),
    ensures
        items_of(queue, boundary).len() == queue.len(),
        !at_boundary(queue[i], boundary) ==> items_of(queue, boundary)[i] == queue[i],
        at_boundary(queue[i], boundary) ==> {
            let item = items_of(queue, boundary)[i];
            let portion = boundary->0.portion;
            &&& Some(item.balance_change) == queue[i].balance_change.times(portion)
            &&& Some(item.usd_balance_change) == queue[i].usd_balance_change.times(portion)
            &&& item.exchange_account_id == queue[i].exchange_account_id
            &&& item.currency_pair == queue[i].currency_pair
            &&& item.currency_code == queue[i].currency_code
            &&& item.client_order_fill_id == queue[i].client_order_fill_id
            &&& item.change_date == queue[i].change_date
        },
{
    assert(shown(queue[i], boundary) is Some);
}

/// What a read shows of the queue of a trading place are changes of that
/// trading place: a change that is cut down to its portion keeps its place.
pub proof fn lemma_shown_in_place(
    queue: Seq<ProfitLossBalanceChange>,
    boundary: Option<PositionChange>,
    place: TradePlace,
)
    requires
        in_place(queue, place),
        all_shown(queue, boundary),
    ensures
        in_place(items_of(queue, boundary), place),
{
    assert forall|k: int| 0 <= k < items_of(queue, boundary).len() implies (
    #[trigger] items_of(queue, boundary)[k]).trade_place() == place by {
        assert(shown(queue[k], boundary) is Some);
        assert(queue[k].trade_place() == place);
    }
}

/// Synchronization keeps a queue in the order of its dates.
pub proof fn lemma_chronological_synchronized(
    queue: Seq<ProfitLossBalanceChange>,
    start_of_period: DateTime,
    boundary: Option<PositionChange>,
)
    requires
        chronological(queue),
    ensures
        chronological(synchronized(queue, start_of_period, boundary)),
{
    let kept = synchronized(queue, start_of_period, boundary);
    let dropped = lemma_synchronized_is_tail(queue, start_of_period, boundary);
    assert forall|i: int, j: int| 0 <= i <= j < kept.len() implies (#[trigger] kept[i]).change_date@
        <= (#[trigger] kept[j]).change_date@ by {
        assert(kept[i] == queue[dropped + i]);
        assert(kept[j] == queue[dropped + j]);
    }
}

/// A change that is not older than the last one keeps a queue in the order
/// of its dates.
pub proof fn lemma_chronological_pushed(
    queue: Seq<ProfitLossBalanceChange>,
    entry: ProfitLossBalanceChange,
)
    requires
        chronological(queue),
        queue.len() > 0 ==> queue.last().change_date@ <= entry.change_date@,
    ensures
        chronological(queue.push(entry)),
{
    let longer = queue.push(entry);
    assert forall|i: int, j: int| 0 <= i <= j < longer.len() implies (
    #[trigger] longer[i]).change_date@ <= (#[trigger] longer[j]).change_date@ by {
        if j == queue.len() && i < queue.len() {
            assert(queue[i].change_date@ <= queue[queue.len() - 1].change_date@);
        }
    }
}

/// A read of a trading place without a position authority, of a queue in the
/// order of its dates: the read gives the queue as the synchronization left
/// it, and no change in it is older than one period before `now`.
pub proof fn lemma_read_within_period<A: PositionAuthority>(
    before: BalanceChangePeriodSelector<A>,
    after: BalanceChangePeriodSelector<A>,
    items: Vec<ProfitLossBalanceChange>,
    now: DateTime,
    trade_place: TradePlaceAccount,
)
    requires
        before.position_authority() is None,
        before.read_at(after, Ok(items), now, trade_place),
        chronological(before.queue(trade_place@)),
    ensures
        items@ == after.queue(trade_place@),
        items@ == synchronized(
            before.queue(trade_place@),
            start_of(now, before.spec_period()),
            None,
        ),
        forall|i: int|
            0 <= i < items@.len() ==> (#[trigger] items@[i]).change_date@ >= now@
                - before.spec_period()@,
{
    let start_of_period = start_of(now, before.spec_period());
    if before@.contains_key(trade_place@) {
        lemma_window_without_position_change(before@[trade_place@], start_of_period);
        assert(after@[trade_place@] == synchronized(
            before@[trade_place@],
            start_of_period,
            None,
        ));
    }
}

/// A read of a trading place for which the position authority reports the
/// position change `position_change`, whose fill has a change in the queue:
/// the read shows the changes of the queue from the first change of that fill
/// on, however old they are; it shows each change of that fill with both
/// amounts multiplied by the portion of the position change, and every other
/// change as it is.
pub proof fn lemma_read_keeps_boundary_fill<A: PositionAuthority>(
    before: BalanceChangePeriodSelector<A>,
    after: BalanceChangePeriodSelector<A>,
    items: Vec<ProfitLossBalanceChange>,
    now: DateTime,
    trade_place: TradePlaceAccount,
    position_change: PositionChange,
    i: int,
) -> (dropped: int)
    requires
        before.read_at(after, Ok(items), now, trade_place),
        forall|boundary: Option<PositionChange>| #[trigger]
            before.answers(trade_place, start_of(now, before.spec_period()), boundary)
                ==> boundary == Some(position_change),
        0 <= i < before.queue(trade_place@).len(),
        before.queue(trade_place@)[i].client_order_fill_id@
            == position_change.client_order_fill_id@,
    ensures
        0 <= dropped <= i,
        after@[trade_place@] == before@[trade_place@].skip(dropped),
        at_boundary(before@[trade_place@][dropped], Some(position_change)),
        items@.len() == before@[trade_place@].len() - dropped,
        forall|j: int|
            dropped <= j < before@[trade_place@].len() ==> Some(#[trigger] items@[j - dropped])
                == shown(before@[trade_place@][j], Some(position_change)),
        Some(items@[i - dropped]) == before@[trade_place@][i].portioned(position_change.portion),
{
    let start_of_period = start_of(now, before.spec_period());
    let queue = before@[trade_place@];
    let dropped = lemma_boundary_fill_stays(queue, start_of_period, position_change, i);
    let kept = after@[trade_place@];
    assert(kept == synchronized(queue, start_of_period, Some(position_change)));
    assert forall|j: int| dropped <= j < queue.len() implies Some(#[trigger] items@[j - dropped])
        == shown(queue[j], Some(position_change)) by {
        assert(kept[j - dropped] == queue[j]);
        assert(shown(kept[j - dropped], Some(position_change)) is Some);
    }
    dropped
}

/// Two reads of a trading place in a row at the same instant, with nothing
/// added in between and a position authority that answers the same both
/// times: the second read leaves the queues as the first left them, and
/// gives what the first gave.
pub proof fn lemma_read_again<A: PositionAuthority>(
    before: BalanceChangePeriodSelector<A>,
    between: BalanceChangePeriodSelector<A>,
    after: BalanceChangePeriodSelector<A>,
    first: Result<Vec<ProfitLossBalanceChange>, SelectorError>,
    second: Result<Vec<ProfitLossBalanceChange>, SelectorError>,
    now: DateTime,
    trade_place: TradePlaceAccount,
    answer: Option<PositionChange>,
)
    requires
        before.configured_as(between),
        before.read_at(between, first, now, trade_place),
        between.read_at(after, second, now, trade_place),
        forall|boundary: Option<PositionChange>| #[trigger]
            before.answers(trade_place, start_of(now, before.spec_period()), boundary)
                ==> boundary == answer,
    ensures
        between.same_queues(after),
        first is Ok <==> second is Ok,
        first is Ok ==> first->Ok_0@ == second->Ok_0@,
        first is Err ==> first->Err_0 == second->Err_0,
{
    let start_of_period = start_of(now, before.spec_period());
    let place = trade_place@;
    if period_fits(now, before.spec_period()) && before@.contains_key(place) {
        let went_by = choose|boundary: Option<PositionChange>|
            {
                &&& #[trigger] before.answers(trade_place, start_of_period, boundary)
                &&& before.synchronized_at(between, place, start_of_period, boundary)
                &&& if all_shown(between@[place], boundary) {
                    first matches Ok(items) && items@ == items_of(between@[place], boundary)
                } else {
                    first == Err::<Vec<ProfitLossBalanceChange>, SelectorError>(
                        SelectorError::PortionOverflow,
                    )
                }
            };
        assert(went_by == answer);
        assert(between@.contains_key(place));
        let went_by_again = choose|boundary: Option<PositionChange>|
            {
                &&& #[trigger] between.answers(trade_place, start_of_period, boundary)
                &&& between.synchronized_at(after, place, start_of_period, boundary)
                &&& if all_shown(after@[place], boundary) {
                    second matches Ok(items) && items@ == items_of(after@[place], boundary)
                } else {
                    second == Err::<Vec<ProfitLossBalanceChange>, SelectorError>(
                        SelectorError::PortionOverflow,
                    )
                }
            };
        assert(before.answers(trade_place, start_of_period, went_by_again));
        assert(went_by_again == answer);
        lemma_synchronized_again(before@[place], start_of_period, answer);
        assert(after@ =~= between@);
    }
}

/// A change that is not older than the last one of its queue, added to a
/// queue in the order of its dates, leaves the queue in that order.
pub proof fn lemma_add_keeps_order<A: PositionAuthority>(
    before: BalanceChangePeriodSelector<A>,
    after: BalanceChangePeriodSelector<A>,
    balance_change: ProfitLossBalanceChange,
    boundary: Option<PositionChange>,
)
    requires
        before.added(after, balance_change, boundary),
        chronological(before.queue(balance_change.trade_place())),
        before.queue(balance_change.trade_place()).len() > 0 ==> before.queue(
            balance_change.trade_place(),
        ).last().change_date@ <= balance_change.change_date@,
    ensures
        chronological(after.queue(balance_change.trade_place())),
{
    let place = balance_change.trade_place();
    let queue = before.queue(place);
    lemma_chronological_pushed(queue, balance_change);
    lemma_chronological_synchronized(
        queue.push(balance_change),
        start_of(balance_change.change_date, before.spec_period()),
        boundary,
    );
}

} // verus!
