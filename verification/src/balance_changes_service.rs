//! The decisions of the balance changes service.
//!
//! The service takes fills at its front door and turns each into an event;
//! its loop takes the events one by one. A timer event has the risk limit
//! checked. A balance change event is handled step by step: each balance
//! change of the event is valued in the valuation currency and published as a
//! profit/loss balance change, in the order of the event, and after the last
//! one the risk limit is checked. This module decides what comes next; the
//! surroundings receive the events, ask for the valuations, publish the
//! changes and check the limit.

use crate::amount::Amount;
use crate::balance_changes_calculator::balance_changes_of;
use crate::balance_changes_calculator::BalanceChangesCalculator;
use crate::balance_changes_calculator::BalanceChangesCalculatorResult;
use crate::balance_changes_calculator::CalculatorError;
use crate::configuration_descriptor::ConfigurationDescriptor;
use crate::identifiers::ClientOrderFillId;
use crate::identifiers::CurrencyCode;
use crate::orders::OrderFill;
use crate::orders::OrderSnapshot;
use crate::profit_loss_balance_change::ProfitLossBalanceChange;
use crate::symbol::CurrencyPairToSymbolConverter;
use crate::time::DateTime;
use vstd::prelude::*;

verus! {

/// Room in the queue of events: so much that the loop never keeps the front
/// door waiting, and little enough that a loop that fell far behind shows.
pub const EVENT_QUEUE_CAPACITY: usize = 20_000;

/// Time between two ticks of the timer, in nanoseconds: five seconds. The
/// first tick comes at once.
pub const TIMER_PERIOD_NANOS: i64 = 5_000_000_000;

/// The balance changes of one fill, with the fill and the instant at which
/// they were taken in.
#[derive(Debug, PartialEq, Eq)]
pub struct BalanceChange {
    pub balance_changes: BalanceChangesCalculatorResult,
    pub client_order_fill_id: ClientOrderFillId,
    pub change_date: DateTime,
}

impl BalanceChange {
    /// The balance changes of the given fill, taken in at the given instant.
    pub fn new(
        balance_changes: BalanceChangesCalculatorResult,
        client_order_fill_id: ClientOrderFillId,
        change_date: DateTime,
    ) -> (r: Self)
        ensures
            r == (BalanceChange { balance_changes, client_order_fill_id, change_date }),
    {
        Self { balance_changes, client_order_fill_id, change_date }
    }

    /// How many balance changes the event holds.
    pub open spec fn len(self) -> int {
        self.balance_changes.balance_changes@.len() as int
    }

    /// The profit/loss balance change that the `i`-th balance change of the
    /// event makes when it is worth `usd_change`.
    pub open spec fn change_at(self, i: int, usd_change: Amount) -> ProfitLossBalanceChange {
        ProfitLossBalanceChange {
            exchange_account_id: self.balance_changes.exchange_account_id,
            currency_pair: self.balance_changes.currency_pair,
            currency_code: self.balance_changes.balance_changes@[i].currency_code,
            client_order_fill_id: self.client_order_fill_id,
            change_date: self.change_date,
            balance_change: self.balance_changes.balance_changes@[i].balance_change,
            usd_balance_change: usd_change,
        }
    }
}

/// What the loop of the service takes from its queue.
#[derive(Debug, PartialEq, Eq)]
pub enum BalanceChangeServiceEvent {
    /// The timer ticked.
    OnTimer,
    /// A fill changed balances.
    BalanceChange(BalanceChange),
}

/// A balance change event that waits for the valuation of one of its
/// balance changes.
pub struct Valuing {
    event: BalanceChange,
    index: usize,
    valuation_currency_code: CurrencyCode,
}

/// A balance change event of which one profit/loss balance change is ready
/// to be published.
pub struct Publishing {
    event: BalanceChange,
    index: usize,
    valuation_currency_code: CurrencyCode,
    change: ProfitLossBalanceChange,
}

/// What the surroundings of the service have to do next.
pub enum Step {
    /// Ask for the valuation of a balance change, and go on with
    /// [`Valuing::valued`].
    Valuate(Valuing),
    /// Hand the change to every accumulator and have it persisted, and go on
    /// with [`Publishing::published`].
    Publish(Publishing),
    /// Have the risk limit checked, and receive the next event.
    CheckForLimit,
}

/// What the loop of the service got when it waited for an event.
pub enum Received {
    /// An event came.
    Event(BalanceChangeServiceEvent),
    /// Cancellation was requested.
    Cancelled,
    /// The queue was closed though no cancellation was requested.
    Closed,
}

/// How the loop of the service goes on.
pub enum Turn {
    /// Handle the event, beginning with the given step.
    Handle(Step),
    /// Leave the loop.
    Exit,
    /// Fail: the queue is gone while the service is meant to run.
    QueueClosed,
}

/// Whether `step` is the step with which the handling of `event` goes on
/// when its first `index` balance changes are published: the valuation of
/// the next one, or its publication with a valuation of zero where it is in
/// the valuation currency itself, or the check of the risk limit when none is
/// left.
pub open spec fn goes_on_with(
    step: Step,
    event: BalanceChange,
    index: int,
    valuation_currency_code: CurrencyCode,
) -> bool {
    if index >= event.len() {
        step is CheckForLimit
    } else {
        match BalanceChangesCalculatorResult::known_usd_change(
            event.balance_changes.balance_changes@[index].currency_code,
            valuation_currency_code,
        ) {
            Some(usd_change) => {
                &&& step matches Step::Publish(publishing)
                &&& publishing.event() == event
                &&& publishing.index() == index
                &&& publishing.valuation_currency() == valuation_currency_code
                &&& publishing.pending() == event.change_at(index, usd_change)
            },
            None => {
                &&& step matches Step::Valuate(valuing)
                &&& valuing.event() == event
                &&& valuing.index() == index
                &&& valuing.valuation_currency() == valuation_currency_code
            },
        }
    }
}

fn next_step(event: BalanceChange, index: usize, valuation_currency_code: CurrencyCode) -> (r: Step)
    ensures
        goes_on_with(r, event, index as int, valuation_currency_code),
{
    if index >= event.balance_changes.balance_changes.len() {
        Step::CheckForLimit
    } else {
        match event.balance_changes.calculate_usd_change(
            &event.balance_changes.balance_changes[index].currency_code,
            &valuation_currency_code,
        ) {
            Some(usd_change) => {
                let change = make_change(&event, index, usd_change);
                Step::Publish(Publishing { event, index, valuation_currency_code, change })
            },
            None => Step::Valuate(Valuing { event, index, valuation_currency_code }),
        }
    }
}

fn make_change(event: &BalanceChange, index: usize, usd_change: Amount) -> (r:
    ProfitLossBalanceChange)
    requires
        index < event.len(),
    ensures
        r == event.change_at(index as int, usd_change),
{
    let change = &event.balance_changes.balance_changes[index];
    ProfitLossBalanceChange::new(
        event.balance_changes.exchange_account_id.clone(),
        event.balance_changes.currency_pair.clone(),
        change.currency_code.clone(),
        event.client_order_fill_id.clone(),
        event.change_date,
        change.balance_change,
        usd_change,
    )
}

impl Valuing {
    #[verifier::type_invariant]
    spec fn in_range(self) -> bool {
        &&& self.index < self.event.len()
        &&& self.event.balance_changes.balance_changes@[self.index as int].currency_code@
            != self.valuation_currency_code@
    }

    /// The event that is handled.
    pub closed spec fn event(self) -> BalanceChange {
        self.event
    }

    /// Which balance change of the event waits for its valuation.
    pub closed spec fn index(self) -> int {
        self.index as int
    }

    /// The valuation currency.
    pub closed spec fn valuation_currency(self) -> CurrencyCode {
        self.valuation_currency_code
    }

    /// The currency of the balance change to value.
    pub fn currency_code(&self) -> (r: &CurrencyCode)
        ensures
            0 <= self.index() < self.event().len(),
            *r == self.event().balance_changes.balance_changes@[self.index()].currency_code,
            r@ != self.valuation_currency()@,
    {
        proof {
            use_type_invariant(self);
        }
        &self.event.balance_changes.balance_changes[self.index].currency_code
    }

    /// The amount to value.
    pub fn amount(&self) -> (r: Amount)
        ensures
            0 <= self.index() < self.event().len(),
            r == self.event().balance_changes.balance_changes@[self.index()].balance_change,
    {
        proof {
            use_type_invariant(self);
        }
        self.event.balance_changes.balance_changes[self.index].balance_change
    }

    /// Goes on when the valuation is there: the balance change, worth
    /// `usd_change`, is ready to be published.
    pub fn valued(self, usd_change: Amount) -> (r: Publishing)
        ensures
            r.event() == self.event(),
            r.index() == self.index(),
            r.valuation_currency() == self.valuation_currency(),
            r.pending() == self.event().change_at(self.index(), usd_change),
    {
        proof {
            use_type_invariant(&self);
        }
        let change = make_change(&self.event, self.index, usd_change);
        Publishing {
            event: self.event,
            index: self.index,
            valuation_currency_code: self.valuation_currency_code,
            change,
        }
    }
}

impl Publishing {
    #[verifier::type_invariant]
    spec fn in_range(self) -> bool {
        self.index < self.event.len()
    }

    /// The event that is handled.
    pub closed spec fn event(self) -> BalanceChange {
        self.event
    }

    /// Which balance change of the event is ready to be published.
    pub closed spec fn index(self) -> int {
        self.index as int
    }

    /// The valuation currency.
    pub closed spec fn valuation_currency(self) -> CurrencyCode {
        self.valuation_currency_code
    }

    /// The profit/loss balance change to publish.
    pub closed spec fn pending(self) -> ProfitLossBalanceChange {
        self.change
    }

    /// The profit/loss balance change to publish.
    pub fn change(&self) -> (r: &ProfitLossBalanceChange)
        ensures
            *r == self.pending(),
    {
        &self.change
    }

    /// Goes on when the change is published: with the next balance change of
    /// the event, or with the check of the risk limit after the last.
    pub fn published(self) -> (r: Step)
        ensures
            goes_on_with(r, self.event(), self.index() + 1, self.valuation_currency()),
    {
        proof {
            use_type_invariant(&self);
        }
        let count = self.event.balance_changes.balance_changes.len();
        assert(self.index < count);
        next_step(self.event, self.index + 1, self.valuation_currency_code)
    }
}

/// The deciding part of the balance changes service.
pub struct BalanceChangesService {
    balance_changes_calculator: BalanceChangesCalculator,
    valuation_currency_code: CurrencyCode,
}

impl BalanceChangesService {
    /// The calculator of the service.
    pub closed spec fn calculator(self) -> BalanceChangesCalculator {
        self.balance_changes_calculator
    }

    /// The valuation currency.
    pub closed spec fn valuation_currency(self) -> CurrencyCode {
        self.valuation_currency_code
    }

    /// Whether `result` is what the front door makes of the given fill of
    /// the given order at `now`: nothing once cancellation was requested,
    /// else the event of the balance changes that the calculator gives, with
    /// the identifier of the fill and `now` as its date.
    pub open spec fn taken_in(
        self,
        is_cancellation_requested: bool,
        now: DateTime,
        configuration_descriptor: ConfigurationDescriptor,
        order: OrderSnapshot,
        fill: OrderFill,
        result: Result<Option<BalanceChangeServiceEvent>, CalculatorError>,
    ) -> bool {
        if is_cancellation_requested {
            result == Ok::<Option<BalanceChangeServiceEvent>, CalculatorError>(None)
        } else {
            match result {
                Ok(Some(BalanceChangeServiceEvent::BalanceChange(event))) => {
                    &&& self.calculator().calculated(
                        configuration_descriptor,
                        order,
                        fill,
                        Ok(event.balance_changes),
                    )
                    &&& Some(event.client_order_fill_id) == fill.client_order_fill_id
                    &&& event.change_date == now
                },
                Ok(_) => false,
                Err(error) => self.calculator().calculated(
                    configuration_descriptor,
                    order,
                    fill,
                    Err(error),
                ),
            }
        }
    }

    /// Whether `turn` is how the loop goes on after it got `received`.
    pub open spec fn turned(self, received: Received, turn: Turn) -> bool {
        match received {
            Received::Event(BalanceChangeServiceEvent::OnTimer) => {
                &&& turn matches Turn::Handle(step)
                &&& step is CheckForLimit
            },
            Received::Event(BalanceChangeServiceEvent::BalanceChange(balance_change)) => {
                &&& turn matches Turn::Handle(step)
                &&& goes_on_with(step, balance_change, 0, self.valuation_currency())
            },
            Received::Cancelled => turn is Exit,
            Received::Closed => turn is QueueClosed,
        }
    }

    /// The service that calculates with the given symbols and values in the
    /// given currency.
    pub fn new(
        currency_pair_to_symbol_converter: CurrencyPairToSymbolConverter,
        valuation_currency_code: CurrencyCode,
    ) -> (r: Self)
        ensures
            r.calculator().symbols() == currency_pair_to_symbol_converter,
            r.valuation_currency() == valuation_currency_code,
    {
        BalanceChangesService {
            balance_changes_calculator: BalanceChangesCalculator::new(
                currency_pair_to_symbol_converter,
            ),
            valuation_currency_code,
        }
    }

    /// The calculator of the service.
    pub fn balance_changes_calculator(&self) -> (r: &BalanceChangesCalculator)
        ensures
            *r == self.calculator(),
    {
        &self.balance_changes_calculator
    }

    /// The front door of the service: the event to put into the queue for a
    /// fill of an order. Once cancellation was requested there is none.
    /// Otherwise the fill has to carry its identifier and the symbol of the
    /// order's pair has to be known.
    pub fn add_balance_change(
        &self,
        is_cancellation_requested: bool,
        now: DateTime,
        configuration_descriptor: ConfigurationDescriptor,
        order: &OrderSnapshot,
        order_fill: &OrderFill,
    ) -> (r: Result<Option<BalanceChangeServiceEvent>, CalculatorError>)
        requires
            !is_cancellation_requested ==> order_fill.client_order_fill_id is Some,
            !is_cancellation_requested ==> self.calculator().symbol_of(*order) is Some,
        ensures
            self.taken_in(
                is_cancellation_requested,
                now,
                configuration_descriptor,
                *order,
                *order_fill,
                r,
            ),
    {
        if is_cancellation_requested {
            return Ok(None);
        }
        let client_order_fill_id = order_fill.client_order_fill_id.as_ref().unwrap().clone();
        match self.balance_changes_calculator.get_balance_changes(
            configuration_descriptor,
            order,
            order_fill,
        ) {
            Ok(balance_changes) => Ok(
                Some(
                    BalanceChangeServiceEvent::BalanceChange(
                        BalanceChange::new(balance_changes, client_order_fill_id, now),
                    ),
                ),
            ),
            Err(error) => Err(error),
        }
    }

    /// The event that a tick of the timer puts into the queue: none once
    /// cancellation was requested.
    pub fn on_timer_tick(&self, is_cancellation_requested: bool) -> (r: Option<
        BalanceChangeServiceEvent,
    >)
        ensures
            is_cancellation_requested ==> r is None,
            !is_cancellation_requested ==> r == Some(BalanceChangeServiceEvent::OnTimer),
    {
        if is_cancellation_requested {
            None
        } else {
            Some(BalanceChangeServiceEvent::OnTimer)
        }
    }

    /// The first step of the handling of a balance change event: the step
    /// of its first balance change, or the check of the risk limit where it
    /// holds none.
    pub fn handle_balance_change_event(&self, event: BalanceChange) -> (r: Step)
        ensures
            goes_on_with(r, event, 0, self.valuation_currency()),
    {
        next_step(event, 0, self.valuation_currency_code.clone())
    }

    /// How the loop goes on after it waited for an event or for cancellation,
    /// whichever came first: a tick of the timer has the risk limit checked,
    /// a balance change event is handled from its first balance change on,
    /// cancellation ends the loop, and a queue that was closed without
    /// cancellation is a failure.
    pub fn run(&self, received: Received) -> (r: Turn)
        ensures
            self.turned(received, r),
    {
        match received {
            Received::Event(BalanceChangeServiceEvent::OnTimer) => Turn::Handle(
                Step::CheckForLimit,
            ),
            Received::Event(BalanceChangeServiceEvent::BalanceChange(balance_change)) => {
                Turn::Handle(self.handle_balance_change_event(balance_change))
            },
            Received::Cancelled => Turn::Exit,
            Received::Closed => Turn::QueueClosed,
        }
    }
}

/// What comes of a fill that the front door took in: its event holds one
/// balance change for each that the calculator gives, and the profit/loss
/// balance change that is published for one of them has the account and the
/// pair of the order, the identifier of the fill, the instant at which the
/// fill was taken in, the currency and the amount of that balance change,
/// and the valuation that was given for it.
pub proof fn lemma_changes_of_a_fill(
    service: BalanceChangesService,
    now: DateTime,
    configuration_descriptor: ConfigurationDescriptor,
    order: OrderSnapshot,
    fill: OrderFill,
    event: BalanceChange,
    i: int,
    usd_change: Amount,
)
    requires
        service.taken_in(
            false,
            now,
            configuration_descriptor,
            order,
            fill,
            Ok(Some(BalanceChangeServiceEvent::BalanceChange(event))),
        ),
        0 <= i < event.len(),
    ensures
        balance_changes_of(service.calculator().symbol_of(order)->0, order.side, fill) is Ok,
        ({
            let changes = balance_changes_of(
                service.calculator().symbol_of(order)->0,
                order.side,
                fill,
            )->Ok_0;
            let change = event.change_at(i, usd_change);
            &&& event.len() == changes.len()
            &&& change.exchange_account_id == order.exchange_account_id
            &&& change.currency_pair == order.currency_pair
            &&& Some(change.client_order_fill_id) == fill.client_order_fill_id
            &&& change.change_date == now
            &&& change.currency_code == changes[i].currency_code
            &&& change.balance_change == changes[i].balance_change
            &&& change.usd_balance_change == usd_change
        }),
{
}

} // verus!
