//! The decisions of one monitoring cycle.
//!
//! A cycle, or tick, asks for each price that the active alerts need, once
//! per symbol and venue and with a bounded number of attempts, then goes
//! through the alerts in order and, for each one that fires, has its owner
//! notified and then has it marked as triggered.
//!
//! Nothing here asks, sleeps, sends or stores.  A [`Tick`] says what is to be
//! done next, the caller does it and reports how it went, and the tick says
//! what comes after.  A failure to notify or to mark changes nothing in what
//! comes after.

use crate::decimal::decimal_text;
use crate::evaluator::{first_price, should_trigger, triggers};
use crate::models::{
    alert_views, sample_views, AlertCondition, AlertType, AlertTypeView, CryptoPrice,
    CryptoPriceView, PriceAlert, PriceAlertView,
};
use crate::text::{escape_markdown, escaped, same_text, texts};
use vstd::prelude::*;
use vstd::string::*;

verus! {

/// Attempts made for one price before the tick goes on without it.
pub const MAX_RETRIES: u32 = 3;

/// Seconds to wait before an attempt that follows a failed one.
pub const RETRY_DELAY: u64 = 5;

/// How often a price is asked for, and how long to wait in between.
#[derive(Debug, Clone, Copy, PartialEq, Eq, Structural)]
pub struct RetryPolicy {
    /// Attempts per price; at least one attempt is made whatever this says.
    pub max_attempts: u32,
    /// Seconds to wait before each attempt but the first.
    pub delay_secs: u64,
}

impl RetryPolicy {
    /// Three attempts, five seconds apart.
    pub fn standard() -> (policy: RetryPolicy)
        ensures
            policy == (RetryPolicy { max_attempts: MAX_RETRIES, delay_secs: RETRY_DELAY }),
    {
        RetryPolicy { max_attempts: MAX_RETRIES, delay_secs: RETRY_DELAY }
    }
}

/// The seconds to wait before checking again whether the notification service
/// can be reached, after `failures` failed checks in a row: `initial`
/// doubled with each failure after the first, but at most `longest`.
pub open spec fn backoff(failures: nat, initial: nat, longest: nat) -> nat
    decreases failures,
{
    if failures <= 1 {
        if initial < longest {
            initial
        } else {
            longest
        }
    } else {
        let before = backoff((failures - 1) as nat, initial, longest);
        if 2 * before < longest {
            2 * before
        } else {
            longest
        }
    }
}

/// The seconds to wait before the next check of the notification service.
pub fn backoff_delay(failures: u32, initial: u64, longest: u64) -> (seconds: u64)
    ensures
        seconds == backoff(failures as nat, initial as nat, longest as nat),
{
    let mut seconds = if initial < longest {
        initial
    } else {
        longest
    };
    let mut done: u32 = 1;
    while done < failures
        invariant
            1 <= done,
            done <= failures || (failures == 0 && done == 1),
            seconds <= longest,
            seconds == backoff(done as nat, initial as nat, longest as nat),
        decreases failures - done,
    {
        seconds = if seconds < longest - seconds {
            2 * seconds
        } else {
            longest
        };
        done += 1;
    }
    proof {
        assert(backoff(0, initial as nat, longest as nat) == backoff(
            1,
            initial as nat,
            longest as nat,
        ));
    }
    seconds
}

/// Checks of the notification service made at start before it is given up.
pub const MAX_VERIFY_RETRIES: u32 = 3;

/// Seconds to wait after the first failed check of the notification service.
pub const INITIAL_VERIFY_DELAY: u64 = 5;

/// The longest wait between two checks of the notification service.
pub const MAX_VERIFY_DELAY: u64 = 30;

/// What to do after `failures` failed checks of the notification service in
/// a row: give up once [`MAX_VERIFY_RETRIES`] checks have failed, else wait
/// the seconds of the result and check again.  The loop starts either way.
pub fn verify_retry_delay(failures: u32) -> (wait: Option<u64>)
    ensures
        failures >= MAX_VERIFY_RETRIES ==> wait is None,
        failures < MAX_VERIFY_RETRIES ==> wait == Some(
            backoff(
                failures as nat,
                INITIAL_VERIFY_DELAY as nat,
                MAX_VERIFY_DELAY as nat,
            ) as u64,
        ),
{
    if failures >= MAX_VERIFY_RETRIES {
        None
    } else {
        Some(backoff_delay(failures, INITIAL_VERIFY_DELAY, MAX_VERIFY_DELAY))
    }
}

/// Why a notification cannot be sent.
#[derive(Debug, Clone, Copy, PartialEq, Eq, Structural)]
pub enum NotificationError {
    /// The owner is no chat that a message can be sent to.
    InvalidUser,
}

/// The text to send for `message` to `user_id`: the message with its markup
/// escaped, or, for a `user_id` that is not positive, the error.
pub fn prepare_notification(user_id: i64, message: &str) -> (r: Result<String, NotificationError>)
    ensures
        user_id <= 0 ==> r == Err::<String, NotificationError>(NotificationError::InvalidUser),
        user_id > 0 ==> r is Ok && r->Ok_0@ == escaped(message@),
{
    if user_id <= 0 {
        Err(NotificationError::InvalidUser)
    } else {
        Ok(escape_markdown(message))
    }
}

/// A price to ask for: of a symbol, at a venue or at the default one.
#[derive(Debug, Clone)]
pub struct PriceRequest {
    pub symbol: String,
    pub source: Option<String>,
}

/// The view of a [`PriceRequest`].
pub struct PriceRequestView {
    pub symbol: Seq<char>,
    pub source: Option<Seq<char>>,
}

impl View for PriceRequest {
    type V = PriceRequestView;

    open spec fn view(&self) -> PriceRequestView {
        PriceRequestView {
            symbol: self.symbol@,
            source: match self.source {
                Some(s) => Some(s@),
                None => None,
            },
        }
    }
}

/// The views of a sequence of requests, in the same order.
pub open spec fn request_views(requests: Seq<PriceRequest>) -> Seq<PriceRequestView> {
    Seq::new(requests.len(), |i: int| requests[i]@)
}

/// The prices that an alert needs: its symbol at the default venue for a
/// price alert, its symbol at each of its venues for a depeg alert, each of
/// its two tokens at the default venue for a pair alert.
pub open spec fn requests_of(alert: PriceAlertView) -> Seq<PriceRequestView> {
    match alert.alert_type {
        AlertTypeView::Price { .. } => seq![
            PriceRequestView { symbol: alert.symbol, source: None },
        ],
        AlertTypeView::Depeg { exchanges, .. } => Seq::new(
            exchanges.len(),
            |i: int| PriceRequestView { symbol: alert.symbol, source: Some(exchanges[i]) },
        ),
        AlertTypeView::PairDepeg { token1, token2, .. } => seq![
            PriceRequestView { symbol: token1, source: None },
            PriceRequestView { symbol: token2, source: None },
        ],
    }
}

/// Whether a tick looks at an alert: it is active and was saved.
pub open spec fn is_watched(alert: PriceAlertView) -> bool {
    alert.is_active && alert.id is Some
}

/// The prices that the watched alerts need, alert by alert, repeats included.
pub open spec fn all_requests(alerts: Seq<PriceAlertView>) -> Seq<PriceRequestView>
    decreases alerts.len(),
{
    if alerts.len() == 0 {
        Seq::<PriceRequestView>::empty()
    } else if is_watched(alerts.last()) {
        all_requests(alerts.drop_last()) + requests_of(alerts.last())
    } else {
        all_requests(alerts.drop_last())
    }
}

/// A sequence with `x` added at the end unless it is in it.
pub open spec fn with_new(s: Seq<PriceRequestView>, x: PriceRequestView) -> Seq<PriceRequestView> {
    if s.contains(x) {
        s
    } else {
        s.push(x)
    }
}

/// A sequence without the repeats: of equal requests the first stays.
pub open spec fn without_repeats(s: Seq<PriceRequestView>) -> Seq<PriceRequestView>
    decreases s.len(),
{
    if s.len() == 0 {
        Seq::<PriceRequestView>::empty()
    } else {
        with_new(without_repeats(s.drop_last()), s.last())
    }
}

/// The prices to ask for in a tick: what the watched alerts need, each
/// symbol and venue once, in the order of first need.
pub open spec fn required_fetches(alerts: Seq<PriceAlertView>) -> Seq<PriceRequestView> {
    without_repeats(all_requests(alerts))
}

/// Nothing occurs twice in a sequence without repeats, and it holds exactly
/// what the sequence held.
pub proof fn lemma_without_repeats(s: Seq<PriceRequestView>)
    ensures
        forall|i: int, j: int|
            0 <= i < j < without_repeats(s).len() ==> without_repeats(s)[i] != without_repeats(
                s,
            )[j],
        forall|x: PriceRequestView| #[trigger] without_repeats(s).contains(x) <==> s.contains(x),
    decreases s.len(),
{
    if s.len() > 0 {
        let init = s.drop_last();
        let before = without_repeats(init);
        let result = without_repeats(s);
        lemma_without_repeats(init);
        assert forall|i: int, j: int| 0 <= i < j < result.len() implies result[i] != result[j] by {
            if j == before.len() {
                assert(result[i] == before[i]);
                assert(before.contains(result[i]));
            } else {
                assert(result[i] == before[i] && result[j] == before[j]);
            }
        }
        assert forall|x: PriceRequestView| #[trigger] result.contains(x) <==> s.contains(x) by {
            if result.contains(x) {
                let i = choose|i: int| 0 <= i < result.len() && result[i] == x;
                if i < before.len() {
                    assert(before[i] == x);
                    assert(before.contains(x));
                    assert(init.contains(x));
                    let j = choose|j: int| 0 <= j < init.len() && init[j] == x;
                    assert(s[j] == x);
                } else {
                    assert(s[s.len() - 1] == x);
                }
            }
            if s.contains(x) {
                let j = choose|j: int| 0 <= j < s.len() && s[j] == x;
                if j < init.len() {
                    assert(init[j] == x);
                    assert(init.contains(x));
                    assert(before.contains(x));
                    let i = choose|i: int| 0 <= i < before.len() && before[i] == x;
                    assert(result[i] == x);
                } else {
                    if before.contains(x) {
                        let i = choose|i: int| 0 <= i < before.len() && before[i] == x;
                        assert(result[i] == x);
                    } else {
                        assert(result[result.len() - 1] == x);
                    }
                }
            }
        }
    }
}

/// In a tick no symbol and venue is asked for twice, and a price is asked
/// for exactly if a watched alert needs it.
pub proof fn law_fetches_are_grouped(alerts: Seq<PriceAlertView>)
    ensures
        forall|i: int, j: int|
            0 <= i < j < required_fetches(alerts).len() ==> required_fetches(alerts)[i]
                != required_fetches(alerts)[j],
        forall|x: PriceRequestView| #[trigger]
            required_fetches(alerts).contains(x) <==> all_requests(alerts).contains(x),
{
    lemma_without_repeats(all_requests(alerts));
}

/// Whether the request for `symbol` at `source` is among the requests.
fn has_request(requests: &Vec<PriceRequest>, symbol: &String, source: &Option<String>) -> (found:
    bool)
    ensures
        found == request_views(requests@).contains(
            (PriceRequest { symbol: *symbol, source: *source })@,
        ),
{
    let ghost wanted = (PriceRequest { symbol: *symbol, source: *source })@;
    let mut i: usize = 0;
    while i < requests.len()
        invariant
            i <= requests.len(),
            wanted == (PriceRequest { symbol: *symbol, source: *source })@,
            forall|j: int| 0 <= j < i ==> (#[trigger] request_views(requests@)[j]) != wanted,
        decreases requests.len() - i,
    {
        let candidate = &requests[i];
        let same_source = match (&candidate.source, source) {
            (Some(a), Some(b)) => same_text(a.as_str(), b.as_str()),
            (None, None) => true,
            _ => false,
        };
        if same_source && same_text(candidate.symbol.as_str(), symbol.as_str()) {
            proof {
                assert(request_views(requests@)[i as int] == wanted);
            }
            return true;
        }
        i += 1;
    }
    false
}

/// Adds the request for `symbol` at `source` unless it is among the requests.
fn add_request(requests: &mut Vec<PriceRequest>, symbol: &String, source: Option<String>)
    ensures
        request_views(final(requests)@) == with_new(
            request_views(old(requests)@),
            (PriceRequest { symbol: *symbol, source })@,
        ),
{
    if !has_request(requests, symbol, &source) {
        requests.push(PriceRequest { symbol: symbol.clone(), source });
        proof {
            assert(request_views(requests@) =~= request_views(old(requests)@).push(
                (PriceRequest { symbol: *symbol, source })@,
            ));
        }
    }
}

/// The prices to ask for in a tick over `alerts`, which the machine can
/// count.
pub fn plan_fetches(alerts: &Vec<PriceAlert>) -> (requests: Vec<PriceRequest>)
    ensures
        request_views(requests@) == required_fetches(alert_views(alerts@)),
        alerts@.len() <= usize::MAX,
{
    let ghost views = alert_views(alerts@);
    let mut requests: Vec<PriceRequest> = Vec::new();
    let ghost mut seen: Seq<PriceRequestView> = Seq::empty();
    let mut i: usize = 0;
    while i < alerts.len()
        invariant
            i <= alerts.len(),
            views == alert_views(alerts@),
            seen == all_requests(views.take(i as int)),
            request_views(requests@) == without_repeats(seen),
        decreases alerts.len() - i,
    {
        let alert = &alerts[i];
        let ghost start = seen;
        proof {
            assert(views.take(i + 1).drop_last() =~= views.take(i as int));
            assert(views.take(i + 1).last() == alert@);
        }
        if alert.is_active && alert.id.is_some() {
            assert(is_watched(alert@));
            match &alert.alert_type {
                AlertType::Price { .. } => {
                    add_request(&mut requests, &alert.symbol, None);
                    proof {
                        let x = PriceRequestView { symbol: alert@.symbol, source: None };
                        seen = seen.push(x);
                        assert(seen.drop_last() =~= start);
                        assert(seen.last() == x);
                        assert(seen =~= start + requests_of(alert@));
                        assert(request_views(requests@) == without_repeats(seen));
                    }
                },
                AlertType::Depeg { exchanges, .. } => {
                    let mut j: usize = 0;
                    while j < exchanges.len()
                        invariant
                            j <= exchanges.len(),
                            alert@.alert_type is Depeg,
                            alert@.alert_type->Depeg_exchanges == texts(exchanges@),
                            seen == start + requests_of(alert@).take(j as int),
                            request_views(requests@) == without_repeats(seen),
                        decreases exchanges.len() - j,
                    {
                        let ghost before = seen;
                        add_request(&mut requests, &alert.symbol, Some(exchanges[j].clone()));
                        proof {
                            let x = PriceRequestView {
                                symbol: alert@.symbol,
                                source: Some(exchanges@[j as int]@),
                            };
                            assert(requests_of(alert@)[j as int] == x);
                            seen = seen.push(x);
                            assert(seen.drop_last() =~= before);
                            assert(seen.last() == x);
                            assert(seen =~= start + requests_of(alert@).take(j + 1));
                            assert(request_views(requests@) == without_repeats(seen));
                        }
                        j += 1;
                    }
                    proof {
                        assert(requests_of(alert@).take(j as int) =~= requests_of(alert@));
                        assert(seen == start + requests_of(alert@));
                    }
                },
                AlertType::PairDepeg { token1, token2, .. } => {
                    add_request(&mut requests, token1, None);
                    proof {
                        let x = PriceRequestView { symbol: token1@, source: None };
                        seen = seen.push(x);
                        assert(seen.drop_last() =~= start);
                        assert(seen.last() == x);
                        assert(request_views(requests@) == without_repeats(seen));
                    }
                    let ghost middle = seen;
                    add_request(&mut requests, token2, None);
                    proof {
                        let y = PriceRequestView { symbol: token2@, source: None };
                        seen = seen.push(y);
                        assert(seen.drop_last() =~= middle);
                        assert(seen.last() == y);
                        assert(seen =~= start + requests_of(alert@));
                        assert(request_views(requests@) == without_repeats(seen));
                    }
                },
            }
        }
        assert(seen == all_requests(views.take(i + 1)));
        i += 1;
    }
    proof {
        assert(views.take(i as int) =~= views);
    }
    requests
}

/// A price that was asked for, with the answer to it.
#[derive(Debug, Clone)]
pub struct Answer {
    pub request: PriceRequest,
    pub sample: CryptoPrice,
}

/// The view of an [`Answer`].
pub struct AnswerView {
    pub request: PriceRequestView,
    pub sample: CryptoPriceView,
}

impl View for Answer {
    type V = AnswerView;

    open spec fn view(&self) -> AnswerView {
        AnswerView { request: self.request@, sample: self.sample@ }
    }
}

/// The views of a sequence of answers, in the same order.
pub open spec fn answer_views(answers: Seq<Answer>) -> Seq<AnswerView> {
    Seq::new(answers.len(), |i: int| answers[i]@)
}

/// The sample of an answer as the alerts read it: under the symbol that was
/// asked for and, where a venue was asked, under that venue, whatever the
/// source called them.
pub open spec fn sample_of(answer: AnswerView) -> CryptoPriceView {
    CryptoPriceView {
        symbol: answer.request.symbol,
        price: answer.sample.price,
        exchange: match answer.request.source {
            Some(venue) => venue,
            None => answer.sample.exchange,
        },
        timestamp: answer.sample.timestamp,
    }
}

/// The samples gathered for an alert: the answers to the prices that the
/// alert needs, in the order in which they came, and no others.
pub open spec fn samples_for(alert: PriceAlertView, answers: Seq<AnswerView>) -> Seq<
    CryptoPriceView,
>
    decreases answers.len(),
{
    if answers.len() == 0 {
        Seq::<CryptoPriceView>::empty()
    } else if requests_of(alert).contains(answers.last().request) {
        samples_for(alert, answers.drop_last()).push(sample_of(answers.last()))
    } else {
        samples_for(alert, answers.drop_last())
    }
}

/// Whether an alert is to be notified on the answers of a tick: it is
/// watched and it fires on the samples gathered for it.
pub open spec fn is_due(alert: PriceAlertView, answers: Seq<AnswerView>) -> bool {
    is_watched(alert) && triggers(alert, samples_for(alert, answers))
}

/// An alert reads only the answers to the prices it needs: an answer to any
/// other price changes nothing in the samples gathered for it, and so
/// nothing in whether it is due.
pub proof fn law_alert_reads_its_own_answers(
    alert: PriceAlertView,
    answers: Seq<AnswerView>,
    other: AnswerView,
)
    requires
        !requests_of(alert).contains(other.request),
    ensures
        samples_for(alert, answers.push(other)) == samples_for(alert, answers),
        is_due(alert, answers.push(other)) == is_due(alert, answers),
{
    assert(answers.push(other).drop_last() =~= answers);
}

/// An alert none of whose prices was answered is not due: a price that
/// could not be had is not made up from another.
pub proof fn law_unanswered_alert_is_not_due(alert: PriceAlertView, answers: Seq<AnswerView>)
    requires
        forall|i: int|
            0 <= i < answers.len() ==> !requests_of(alert).contains((#[trigger] answers[i]).request),
    ensures
        samples_for(alert, answers).len() == 0,
        !is_due(alert, answers),
    decreases answers.len(),
{
    if answers.len() > 0 {
        let earlier = answers.drop_last();
        assert forall|i: int| 0 <= i < earlier.len() implies !requests_of(alert).contains(
            (#[trigger] earlier[i]).request,
        ) by {
            assert(earlier[i] == answers[i]);
        }
        law_unanswered_alert_is_not_due(alert, earlier);
        assert(!requests_of(alert).contains(answers[answers.len() - 1].request));
    }
    let none = samples_for(alert, answers);
    assert(crate::evaluator::max_deviation(
        none,
        alert.symbol,
        alert.alert_type->Depeg_exchanges,
        alert.alert_type->Depeg_target_price,
    ) is None);
}

/// Position of the first alert at or after `from` that is due, or the number
/// of alerts if there is none.
pub open spec fn next_due(
    alerts: Seq<PriceAlertView>,
    answers: Seq<AnswerView>,
    from: int,
) -> int
    decreases alerts.len() - from,
{
    if from < 0 || from >= alerts.len() {
        alerts.len() as int
    } else if is_due(alerts[from], answers) {
        from
    } else {
        next_due(alerts, answers, from + 1)
    }
}

/// The first due alert at or after `from` is due, lies at or after `from`, and
/// no alert between `from` and it is due.
pub proof fn lemma_next_due(
    alerts: Seq<PriceAlertView>,
    answers: Seq<AnswerView>,
    from: int,
)
    requires
        0 <= from,
    ensures
        from <= next_due(alerts, answers, from) || next_due(alerts, answers, from) == alerts.len(),
        next_due(alerts, answers, from) <= alerts.len(),
        next_due(alerts, answers, from) < alerts.len() ==> is_due(
            alerts[next_due(alerts, answers, from)],
            answers,
        ),
        forall|k: int|
            from <= k < next_due(alerts, answers, from) ==> !is_due(#[trigger] alerts[k], answers),
    decreases alerts.len() - from,
{
    if from < alerts.len() && !is_due(alerts[from], answers) {
        lemma_next_due(alerts, answers, from + 1);
    }
}

/// Where a tick stands.
#[derive(Debug, Clone, Copy, PartialEq, Eq, Structural)]
pub enum Phase {
    /// Waiting for the price of request number `request`, after `failures`
    /// failed attempts.
    Fetching { request: usize, failures: u32 },
    /// Waiting for the notification for alert number `alert` to be sent.
    Notifying { alert: usize },
    /// Waiting for alert number `alert` to be marked as triggered at `at`.
    Marking { alert: usize, at: i64 },
    /// Nothing is left to do.
    Done,
}

/// What the caller reports to a tick.
#[derive(Debug, Clone)]
pub enum TickEvent {
    /// The price source answered with a sample, or failed or timed out.
    Fetched(Option<CryptoPrice>),
    /// The notification was sent, or not.
    Notified(bool),
    /// The alert was marked, or not.
    Marked(bool),
}

/// The view of a [`TickEvent`].
pub enum TickEventView {
    Fetched(Option<CryptoPriceView>),
    Notified(bool),
    Marked(bool),
}

impl View for TickEvent {
    type V = TickEventView;

    open spec fn view(&self) -> TickEventView {
        match *self {
            TickEvent::Fetched(sample) => TickEventView::Fetched(
                match sample {
                    Some(s) => Some(s@),
                    None => None,
                },
            ),
            TickEvent::Notified(sent) => TickEventView::Notified(sent),
            TickEvent::Marked(stored) => TickEventView::Marked(stored),
        }
    }
}

/// What a tick asks its caller to do.
#[derive(Debug, Clone)]
pub enum TickAction {
    /// Wait `delay_secs` seconds, then ask the price source, and report
    /// [`TickEvent::Fetched`].  This is attempt number `attempt`.
    Fetch { request: PriceRequest, attempt: u32, delay_secs: u64 },
    /// Send `message` to `owner` and report [`TickEvent::Notified`].
    Notify { alert_id: i64, owner: i64, message: String },
    /// Mark the alert as triggered at `at` and report [`TickEvent::Marked`].
    MarkTriggered { alert_id: i64, at: i64 },
    /// The tick is over.
    Finished,
}

/// The view of a [`TickAction`].
pub enum TickActionView {
    Fetch { request: PriceRequestView, attempt: u32, delay_secs: u64 },
    Notify { alert_id: i64, owner: i64, message: Seq<char> },
    MarkTriggered { alert_id: i64, at: i64 },
    Finished,
}

impl View for TickAction {
    type V = TickActionView;

    open spec fn view(&self) -> TickActionView {
        match *self {
            TickAction::Fetch { request, attempt, delay_secs } => TickActionView::Fetch {
                request: request@,
                attempt,
                delay_secs,
            },
            TickAction::Notify { alert_id, owner, message } => TickActionView::Notify {
                alert_id,
                owner,
                message: message@,
            },
            TickAction::MarkTriggered { alert_id, at } => TickActionView::MarkTriggered {
                alert_id,
                at,
            },
            TickAction::Finished => TickActionView::Finished,
        }
    }
}

/// How a price is written in a message; a dash where there is none.
pub open spec fn price_text(price: Option<nat>) -> Seq<char> {
    match price {
        Some(p) => decimal_text(p),
        None => "-"@,
    }
}

/// The words for a condition.
pub open spec fn condition_text(condition: AlertCondition) -> Seq<char> {
    match condition {
        AlertCondition::Above => "mayor que"@,
        AlertCondition::Below => "menor que"@,
    }
}

/// The message that tells the owner of an alert that it fired.
pub open spec fn alert_message(alert: PriceAlertView, samples: Seq<CryptoPriceView>) -> Seq<char> {
    match alert.alert_type {
        AlertTypeView::Price { target_price, condition } => "🚨 *Alerta de Precio*\nSymbol: "@
            + alert.symbol + "\nCondición: "@ + condition_text(condition) + " "@ + decimal_text(
            target_price,
        ) + "\nPrecio actual: $"@ + price_text(first_price(samples, alert.symbol)),
        AlertTypeView::Depeg { target_price, differential, .. } => "🚨 *Alerta de Depeg*\nSymbol: "@
            + alert.symbol + "\nPrecio objetivo: $"@ + decimal_text(target_price)
            + "\nDesviación mayor que "@ + decimal_text(differential) + "%"@,
        AlertTypeView::PairDepeg {
            token1,
            token2,
            expected_ratio,
            differential,
        } => "🚨 *Alerta de Par*\nPar: "@ + token1 + "/"@ + token2 + "\nRatio esperado: "@
            + decimal_text(expected_ratio) + "\nDesviación mayor que "@ + decimal_text(differential)
            + "%"@,
    }
}

/// The message that tells the owner of an alert that it fired.
pub fn format_alert_message(alert: &PriceAlert, samples: &Vec<CryptoPrice>) -> (message: String)
    ensures
        message@ == alert_message(alert@, sample_views(samples@)),
{
    match &alert.alert_type {
        AlertType::Price { target_price, condition } => {
            let mut message = String::from_str("🚨 *Alerta de Precio*\nSymbol: ");
            message.append(alert.symbol.as_str());
            message.append("\nCondición: ");
            match condition {
                AlertCondition::Above => message.append("mayor que"),
                AlertCondition::Below => message.append("menor que"),
            }
            message.append(" ");
            target_price.write_to(&mut message);
            message.append("\nPrecio actual: $");
            match crate::evaluator::find_price(samples, &alert.symbol) {
                Some(price) => price.write_to(&mut message),
                None => message.append("-"),
            }
            message
        },
        AlertType::Depeg { target_price, differential, .. } => {
            let mut message = String::from_str("🚨 *Alerta de Depeg*\nSymbol: ");
            message.append(alert.symbol.as_str());
            message.append("\nPrecio objetivo: $");
            target_price.write_to(&mut message);
            message.append("\nDesviación mayor que ");
            differential.write_to(&mut message);
            message.append("%");
            message
        },
        AlertType::PairDepeg { token1, token2, expected_ratio, differential } => {
            let mut message = String::from_str("🚨 *Alerta de Par*\nPar: ");
            message.append(token1.as_str());
            message.append("/");
            message.append(token2.as_str());
            message.append("\nRatio esperado: ");
            expected_ratio.write_to(&mut message);
            message.append("\nDesviación mayor que ");
            differential.write_to(&mut message);
            message.append("%");
            message
        },
    }
}

/// The view of a [`Tick`].
pub struct TickView {
    pub policy: RetryPolicy,
    pub alerts: Seq<PriceAlertView>,
    pub requests: Seq<PriceRequestView>,
    pub answers: Seq<AnswerView>,
    pub phase: Phase,
}

/// The phase in which the alerts from number `from` on are gone through:
/// waiting for the notification of the first one that is due, or done.
pub open spec fn evaluation_phase(
    alerts: Seq<PriceAlertView>,
    answers: Seq<AnswerView>,
    from: int,
) -> Phase {
    let due = next_due(alerts, answers, from);
    if due < alerts.len() {
        Phase::Notifying { alert: due as usize }
    } else {
        Phase::Done
    }
}

impl TickView {
    /// Whether the alerts and requests can be counted by the machine, and
    /// the phase names a request or an alert that exists, and an alert that
    /// was saved.
    pub open spec fn wf(self) -> bool {
        &&& self.alerts.len() <= usize::MAX
        &&& self.requests.len() <= usize::MAX
        &&& match self.phase {
            Phase::Fetching { request, failures } => request < self.requests.len() && (failures
                == 0 || failures < self.policy.max_attempts),
            Phase::Notifying { alert } => alert < self.alerts.len()
                && self.alerts[alert as int].id is Some,
            Phase::Marking { alert, .. } => alert < self.alerts.len()
                && self.alerts[alert as int].id is Some,
            Phase::Done => true,
        }
    }

    /// The phase in which request number `request` is asked for, or, if there
    /// is no such request, the phase in which the alerts are gone through.
    pub open spec fn fetch_phase(self, request: int) -> Phase {
        if request < self.requests.len() {
            Phase::Fetching { request: request as usize, failures: 0 }
        } else {
            evaluation_phase(self.alerts, self.answers, 0)
        }
    }

    /// What the tick waits for.
    pub open spec fn pending(self) -> TickActionView {
        match self.phase {
            Phase::Fetching { request, failures } => TickActionView::Fetch {
                request: self.requests[request as int],
                attempt: (failures + 1) as u32,
                delay_secs: if failures == 0 {
                    0
                } else {
                    self.policy.delay_secs
                },
            },
            Phase::Notifying { alert } => TickActionView::Notify {
                alert_id: self.alerts[alert as int].id->0,
                owner: self.alerts[alert as int].user_id,
                message: alert_message(
                    self.alerts[alert as int],
                    samples_for(self.alerts[alert as int], self.answers),
                ),
            },
            Phase::Marking { alert, at } => TickActionView::MarkTriggered {
                alert_id: self.alerts[alert as int].id->0,
                at,
            },
            Phase::Done => TickActionView::Finished,
        }
    }

    /// The tick after the caller reported `event` at the time `now`.
    ///
    /// A sample is kept and the next price asked for.  A failed attempt is
    /// repeated until the attempts of the policy are used up, then the tick
    /// goes on without that price.  When no price is left to ask for, the
    /// alerts are gone through in order.  An alert that is due is notified,
    /// then marked, whether or not the notification was sent; then the
    /// alerts behind it are gone through, whether or not it was marked.  An
    /// event that the tick does not wait for changes nothing.
    pub open spec fn after(self, event: TickEventView, now: i64) -> TickView {
        match (self.phase, event) {
            (Phase::Fetching { request, .. }, TickEventView::Fetched(Some(sample))) => {
                let kept = TickView {
                    answers: self.answers.push(
                        AnswerView { request: self.requests[request as int], sample },
                    ),
                    ..self
                };
                TickView { phase: kept.fetch_phase(request + 1), ..kept }
            },
            (Phase::Fetching { request, failures }, TickEventView::Fetched(None)) => {
                if failures + 1 < self.policy.max_attempts {
                    TickView {
                        phase: Phase::Fetching { request, failures: (failures + 1) as u32 },
                        ..self
                    }
                } else {
                    TickView { phase: self.fetch_phase(request + 1), ..self }
                }
            },
            (Phase::Notifying { alert }, TickEventView::Notified(_)) => TickView {
                phase: Phase::Marking { alert, at: now },
                ..self
            },
            (Phase::Marking { alert, .. }, TickEventView::Marked(_)) => TickView {
                phase: evaluation_phase(self.alerts, self.answers, alert + 1),
                ..self
            },
            _ => self,
        }
    }
}

/// The tick over `alerts` at its beginning: no sample yet, and waiting for
/// the first price or, if none is needed, done.
pub open spec fn begun(alerts: Seq<PriceAlertView>, policy: RetryPolicy) -> TickView {
    let empty = TickView {
        policy,
        alerts,
        requests: required_fetches(alerts),
        answers: Seq::<AnswerView>::empty(),
        phase: Phase::Done,
    };
    TickView { phase: empty.fetch_phase(0), ..empty }
}

/// The tick after `count` failed attempts in a row.
pub open spec fn after_failures(tick: TickView, count: nat, now: i64) -> TickView
    decreases count,
{
    if count == 0 {
        tick
    } else {
        after_failures(tick, (count - 1) as nat, now).after(TickEventView::Fetched(None), now)
    }
}

/// A tick that names what exists goes on naming what exists.
pub proof fn law_tick_stays_well_formed(tick: TickView, event: TickEventView, now: i64)
    requires
        tick.wf(),
    ensures
        tick.after(event, now).wf(),
        tick.after(event, now).alerts == tick.alerts,
        tick.after(event, now).requests == tick.requests,
        tick.after(event, now).policy == tick.policy,
{
    let next = tick.after(event, now);
    lemma_next_due(next.alerts, next.answers, 0);
    match tick.phase {
        Phase::Marking { alert, .. } => {
            lemma_next_due(next.alerts, next.answers, alert + 1);
        },
        _ => {},
    }
}

/// A tick at its beginning names what exists.
pub proof fn law_begun_is_well_formed(alerts: Seq<PriceAlertView>, policy: RetryPolicy)
    requires
        alerts.len() <= usize::MAX,
        required_fetches(alerts).len() <= usize::MAX,
    ensures
        begun(alerts, policy).wf(),
{
    let tick = begun(alerts, policy);
    lemma_next_due(tick.alerts, tick.answers, 0);
}

/// A price source that fails fewer times than the policy has attempts and
/// then answers yields its sample: after the failures the tick still waits
/// for the same price, and the answer is kept with the answers gathered
/// before.
pub proof fn law_retry_yields_sample(
    tick: TickView,
    failed: nat,
    sample: CryptoPriceView,
    now: i64,
)
    requires
        tick.wf(),
        tick.phase is Fetching,
        tick.phase->Fetching_failures == 0,
        failed < tick.policy.max_attempts,
    ensures
        after_failures(tick, failed, now).phase == (Phase::Fetching {
            request: tick.phase->Fetching_request,
            failures: failed as u32,
        }),
        after_failures(tick, failed, now).answers == tick.answers,
        after_failures(tick, failed, now).policy == tick.policy,
        after_failures(tick, failed, now).after(
            TickEventView::Fetched(Some(sample)),
            now,
        ).answers == tick.answers.push(
            AnswerView { request: tick.requests[tick.phase->Fetching_request as int], sample },
        ),
    decreases failed,
{
    let request = tick.phase->Fetching_request;
    if failed > 0 {
        law_retry_yields_sample(tick, (failed - 1) as nat, sample, now);
        let before = after_failures(tick, (failed - 1) as nat, now);
        let current = after_failures(tick, failed, now);
        assert(before.phase == (Phase::Fetching { request, failures: (failed - 1) as u32 }));
        assert(current == before.after(TickEventView::Fetched(None), now));
        assert(before.policy == tick.policy);
        assert(current.phase == (Phase::Fetching { request, failures: failed as u32 }));
        assert(current.answers == tick.answers);
    } else {
        assert(after_failures(tick, failed, now) == tick);
        assert(tick.phase == (Phase::Fetching { request, failures: 0 }));
    }
}

/// When the attempts of the policy are used up the tick goes on without the
/// price: nothing is added to the answers, and the tick waits for the next
/// price or, after the last one, goes through the alerts.
pub proof fn law_exhausted_retries_move_on(tick: TickView, now: i64)
    requires
        tick.wf(),
        tick.phase is Fetching,
        tick.phase->Fetching_failures + 1 >= tick.policy.max_attempts,
    ensures
        tick.after(TickEventView::Fetched(None), now).answers == tick.answers,
        tick.after(TickEventView::Fetched(None), now).phase == tick.fetch_phase(
            tick.phase->Fetching_request + 1,
        ),
{
}

/// What comes after a notification or a marking does not depend on whether
/// it succeeded: the alerts behind are gone through all the same, and the
/// first of them that is due is notified next.
pub proof fn law_failures_are_isolated(tick: TickView, a: bool, b: bool, now: i64)
    requires
        tick.wf(),
    ensures
        tick.after(TickEventView::Notified(a), now) == tick.after(TickEventView::Notified(b), now),
        tick.after(TickEventView::Marked(a), now) == tick.after(TickEventView::Marked(b), now),
        tick.phase matches Phase::Marking { alert, .. } ==> forall|later: int|
            alert < later < tick.alerts.len() && is_due(#[trigger] tick.alerts[later], tick.answers)
                ==> (tick.after(TickEventView::Marked(a), now).phase matches Phase::Notifying {
                alert: next,
            } && alert < next <= later),
{
    match tick.phase {
        Phase::Marking { alert, .. } => {
            lemma_next_due(tick.alerts, tick.answers, alert + 1);
        },
        _ => {},
    }
}

/// How far a tick has come: nothing while prices are asked for, then two
/// steps for each alert that is notified and marked, and past the last alert
/// when it is done.
pub open spec fn progress(tick: TickView) -> int {
    match tick.phase {
        Phase::Fetching { .. } => 0,
        Phase::Notifying { alert } => 2 * alert + 1,
        Phase::Marking { alert, .. } => 2 * alert + 2,
        Phase::Done => 2 * (tick.alerts.len() as int) + 1,
    }
}

/// The tick after a series of reports, each with the time at which it was
/// made.
pub open spec fn after_all(tick: TickView, reports: Seq<(TickEventView, i64)>) -> TickView
    decreases reports.len(),
{
    if reports.len() == 0 {
        tick
    } else {
        after_all(tick, reports.drop_last()).after(reports.last().0, reports.last().1)
    }
}

/// A tick never goes back: no report takes it to an earlier alert, and the
/// report that it waits for while notifying or marking takes it further.
pub proof fn law_tick_goes_forward(tick: TickView, event: TickEventView, now: i64)
    requires
        tick.wf(),
    ensures
        progress(tick.after(event, now)) >= progress(tick),
        tick.phase is Notifying && event is Notified ==> progress(tick.after(event, now))
            > progress(tick),
        tick.phase is Marking && event is Marked ==> progress(tick.after(event, now)) > progress(
            tick,
        ),
{
    lemma_next_due(tick.alerts, tick.answers, 0);
    match tick.phase {
        Phase::Fetching { .. } => {
            let next = tick.after(event, now);
            lemma_next_due(next.alerts, next.answers, 0);
        },
        Phase::Marking { alert, .. } => {
            lemma_next_due(tick.alerts, tick.answers, alert + 1);
        },
        _ => {},
    }
}

/// Whatever is reported to a tick, and in whatever order, it stays well
/// formed and does not go back.
pub proof fn lemma_after_all(tick: TickView, reports: Seq<(TickEventView, i64)>)
    requires
        tick.wf(),
    ensures
        after_all(tick, reports).wf(),
        after_all(tick, reports).alerts == tick.alerts,
        progress(after_all(tick, reports)) >= progress(tick),
    decreases reports.len(),
{
    if reports.len() > 0 {
        let before = after_all(tick, reports.drop_last());
        lemma_after_all(tick, reports.drop_last());
        law_tick_stays_well_formed(before, reports.last().0, reports.last().1);
        law_tick_goes_forward(before, reports.last().0, reports.last().1);
    }
}

/// No alert is notified twice in a tick: once the notification of an alert
/// was reported, the tick never again waits for the notification of that
/// alert or of one before it, whatever is reported to it afterwards.
pub proof fn law_notified_at_most_once(
    tick: TickView,
    sent: bool,
    now: i64,
    reports: Seq<(TickEventView, i64)>,
)
    requires
        tick.wf(),
        tick.phase is Notifying,
    ensures
        after_all(tick.after(TickEventView::Notified(sent), now), reports).phase matches Phase::Notifying {
            alert,
        } ==> alert > tick.phase->Notifying_alert,
{
    let notified = tick.after(TickEventView::Notified(sent), now);
    law_tick_stays_well_formed(tick, TickEventView::Notified(sent), now);
    lemma_after_all(notified, reports);
}

/// An alert that fired is not due again, whatever the answers: a later tick
/// over it notifies nobody.
pub proof fn law_fired_alert_is_not_due(
    alert: PriceAlertView,
    answers: Seq<AnswerView>,
    now: i64,
)
    ensures
        !is_due(alert.triggered(now), answers),
{
}

/// Whether an alert needs the price that a request asks for.
pub fn needs(alert: &PriceAlert, request: &PriceRequest) -> (needed: bool)
    ensures
        needed == requests_of(alert@).contains(request@),
{
    let ghost wanted = requests_of(alert@);
    match &alert.alert_type {
        AlertType::Price { .. } => {
            let needed = request.source.is_none() && same_text(
                request.symbol.as_str(),
                alert.symbol.as_str(),
            );
            proof {
                if needed {
                    assert(wanted[0] == request@);
                }
            }
            needed
        },
        AlertType::Depeg { exchanges, .. } => {
            match &request.source {
                Some(venue) => {
                    let needed = same_text(request.symbol.as_str(), alert.symbol.as_str())
                        && crate::text::contains_text(exchanges, venue.as_str());
                    proof {
                        if needed {
                            let i = choose|i: int|
                                0 <= i < texts(exchanges@).len() && texts(exchanges@)[i] == venue@;
                            assert(wanted[i] == request@);
                        }
                        if wanted.contains(request@) {
                            let i = choose|i: int| 0 <= i < wanted.len() && wanted[i] == request@;
                            assert(texts(exchanges@)[i] == venue@);
                        }
                    }
                    needed
                },
                None => false,
            }
        },
        AlertType::PairDepeg { token1, token2, .. } => {
            let needed = request.source.is_none() && (same_text(
                request.symbol.as_str(),
                token1.as_str(),
            ) || same_text(request.symbol.as_str(), token2.as_str()));
            proof {
                if needed {
                    if request.symbol@ == token1@ {
                        assert(wanted[0] == request@);
                    } else {
                        assert(wanted[1] == request@);
                    }
                }
            }
            needed
        },
    }
}

/// The samples gathered for an alert among the answers of a tick.
pub fn gather(alert: &PriceAlert, answers: &Vec<Answer>) -> (samples: Vec<CryptoPrice>)
    ensures
        sample_views(samples@) == samples_for(alert@, answer_views(answers@)),
{
    let ghost views = answer_views(answers@);
    let mut samples: Vec<CryptoPrice> = Vec::new();
    let mut i: usize = 0;
    while i < answers.len()
        invariant
            i <= answers.len(),
            views == answer_views(answers@),
            sample_views(samples@) == samples_for(alert@, views.take(i as int)),
        decreases answers.len() - i,
    {
        let answer = &answers[i];
        proof {
            assert(views.take(i + 1).drop_last() =~= views.take(i as int));
            assert(views.take(i + 1).last() == answer@);
        }
        if needs(alert, &answer.request) {
            let ghost before = samples@;
            samples.push(
                CryptoPrice {
                    symbol: answer.request.symbol.clone(),
                    price: answer.sample.price,
                    exchange: match &answer.request.source {
                        Some(venue) => venue.clone(),
                        None => answer.sample.exchange.clone(),
                    },
                    timestamp: answer.sample.timestamp,
                },
            );
            proof {
                assert(sample_views(samples@) =~= sample_views(before).push(sample_of(answer@)));
            }
        }
        i += 1;
    }
    proof {
        assert(views.take(i as int) =~= views);
    }
    samples
}

/// One monitoring cycle: the alerts it goes through, the prices it asks for,
/// the answers gathered so far, and what it waits for.
pub struct Tick {
    policy: RetryPolicy,
    alerts: Vec<PriceAlert>,
    requests: Vec<PriceRequest>,
    answers: Vec<Answer>,
    phase: Phase,
}

impl View for Tick {
    type V = TickView;

    closed spec fn view(&self) -> TickView {
        TickView {
            policy: self.policy,
            alerts: alert_views(self.alerts@),
            requests: request_views(self.requests@),
            answers: answer_views(self.answers@),
            phase: self.phase,
        }
    }
}

impl Tick {
    #[verifier::type_invariant]
    spec fn consistent(self) -> bool {
        self@.wf()
    }

    /// Position of the first alert at or after `from` that is due.
    fn find_due(&self, from: usize) -> (due: usize)
        ensures
            due == next_due(self@.alerts, self@.answers, from as int),
            due <= self.alerts.len(),
    {
        let mut i: usize = from;
        while i < self.alerts.len()
            invariant
                next_due(self@.alerts, self@.answers, from as int) == next_due(
                    self@.alerts,
                    self@.answers,
                    i as int,
                ),
            decreases self.alerts.len() - i,
        {
            let alert = &self.alerts[i];
            proof {
                assert(self@.alerts[i as int] == alert@);
            }
            if alert.is_active && alert.id.is_some() && should_trigger(
                alert,
                &gather(alert, &self.answers),
            ) {
                return i;
            }
            i += 1;
        }
        self.alerts.len()
    }

    /// The phase in which the alerts from number `from` on are gone through.
    fn evaluation_from(&self, from: usize) -> (phase: Phase)
        ensures
            phase == evaluation_phase(self@.alerts, self@.answers, from as int),
    {
        let due = self.find_due(from);
        if due < self.alerts.len() {
            Phase::Notifying { alert: due }
        } else {
            Phase::Done
        }
    }

    /// The phase in which request number `request` is asked for.
    fn fetch_from(&self, request: usize) -> (phase: Phase)
        ensures
            phase == self@.fetch_phase(request as int),
    {
        if request < self.requests.len() {
            Phase::Fetching { request, failures: 0 }
        } else {
            self.evaluation_from(0)
        }
    }

    /// Begins a tick over `alerts`, which are the active alerts of the store.
    pub fn begin(alerts: Vec<PriceAlert>, policy: RetryPolicy) -> (tick: Tick)
        ensures
            tick@ == begun(alert_views(alerts@), policy),
    {
        let requests = plan_fetches(&alerts);
        proof {
            assert(request_views(requests@).len() == requests@.len());
            assert(alert_views(alerts@).len() == alerts@.len());
        }
        let answers: Vec<Answer> = Vec::with_capacity(requests.len());
        let mut tick = Tick { policy, alerts, requests, answers, phase: Phase::Done };
        let phase = tick.fetch_from(0);
        proof {
            assert(tick@.answers =~= Seq::<AnswerView>::empty());
            lemma_next_due(tick@.alerts, tick@.answers, 0);
        }
        tick.phase = phase;
        tick
    }

    /// Whether nothing is left to do.
    pub fn is_finished(&self) -> (finished: bool)
        ensures
            finished == (self@.phase is Done),
    {
        match self.phase {
            Phase::Done => true,
            _ => false,
        }
    }

    /// Where the tick stands.
    pub fn phase(&self) -> (phase: Phase)
        ensures
            phase == self@.phase,
            self@.wf(),
    {
        proof {
            use_type_invariant(self);
        }
        self.phase
    }

    /// What the tick waits for.
    pub fn pending(&self) -> (action: TickAction)
        ensures
            action@ == self@.pending(),
    {
        proof {
            use_type_invariant(self);
        }
        match self.phase {
            Phase::Fetching { request, failures } => {
                let wanted = &self.requests[request];
                let source = match &wanted.source {
                    Some(s) => Some(s.clone()),
                    None => None,
                };
                TickAction::Fetch {
                    request: PriceRequest { symbol: wanted.symbol.clone(), source },
                    attempt: failures + 1,
                    delay_secs: if failures == 0 {
                        0
                    } else {
                        self.policy.delay_secs
                    },
                }
            },
            Phase::Notifying { alert } => {
                let due = &self.alerts[alert];
                let alert_id = match due.id {
                    Some(id) => id,
                    None => 0,
                };
                TickAction::Notify {
                    alert_id,
                    owner: due.user_id,
                    message: format_alert_message(due, &gather(due, &self.answers)),
                }
            },
            Phase::Marking { alert, at } => {
                let alert_id = match self.alerts[alert].id {
                    Some(id) => id,
                    None => 0,
                };
                TickAction::MarkTriggered { alert_id, at }
            },
            Phase::Done => TickAction::Finished,
        }
    }

    /// Takes the caller's report of how the pending action went, at the time
    /// `now`, and says what is to be done next.
    pub fn handle(&mut self, event: TickEvent, now: i64) -> (action: TickAction)
        ensures
            final(self)@ == old(self)@.after(event@, now),
            action@ == final(self)@.pending(),
    {
        proof {
            use_type_invariant(&*self);
            law_tick_stays_well_formed(self@, event@, now);
            assert(self@.requests.len() == self.requests@.len());
            assert(self@.alerts.len() == self.alerts@.len());
        }
        let phase = self.phase;
        match phase {
            Phase::Fetching { request, failures } => {
                match event {
                    TickEvent::Fetched(Some(sample)) => {
                        let asked = &self.requests[request];
                        let answer = Answer {
                            request: PriceRequest {
                                symbol: asked.symbol.clone(),
                                source: match &asked.source {
                                    Some(venue) => Some(venue.clone()),
                                    None => None,
                                },
                            },
                            sample,
                        };
                        let mut answers: Vec<Answer> = Vec::new();
                        std::mem::swap(&mut self.answers, &mut answers);
                        answers.push(answer);
                        std::mem::swap(&mut self.answers, &mut answers);
                        proof {
                            assert(self@.answers =~= old(self)@.answers.push(
                                AnswerView {
                                    request: old(self)@.requests[request as int],
                                    sample: sample@,
                                },
                            ));
                        }
                        let next = self.fetch_from(request + 1);
                        self.phase = next;
                    },
                    TickEvent::Fetched(None) => {
                        if failures + 1 < self.policy.max_attempts {
                            self.phase = Phase::Fetching { request, failures: failures + 1 };
                        } else {
                            let next = self.fetch_from(request + 1);
                            self.phase = next;
                        }
                    },
                    _ => {},
                }
            },
            Phase::Notifying { alert } => {
                match event {
                    TickEvent::Notified(_) => {
                        self.phase = Phase::Marking { alert, at: now };
                    },
                    _ => {},
                }
            },
            Phase::Marking { alert, .. } => {
                match event {
                    TickEvent::Marked(_) => {
                        let next = self.evaluation_from(alert + 1);
                        self.phase = next;
                    },
                    _ => {},
                }
            },
            Phase::Done => {},
        }
        self.pending()
    }
}

} // verus!
