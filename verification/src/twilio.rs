//! Inbound text messages: a rider completes or cancels a rescue by SMS.
//!
//! A webhook request is handled in steps that alternate with outside work:
//! the signature is checked, the form is parsed, the ride is looked up by the
//! sender's phone, the ride is moved on and stored, and the sender gets a
//! reply. Each step here decides; parsing, lookup and storage are done by the
//! caller, who hands the outcome to the next step.

use vstd::prelude::*;
use vstd::utf8::encode_utf8;

use crate::error::{CoreError, CoreErrorView};
use crate::fsm::{RideEvent, RideStatus, RideStatusMachine};
use crate::model::{Ride, RideView};
use crate::signature;
use crate::text;

verus! {

/// What the webhook shares with the sender of its requests.
#[derive(Clone)]
pub struct TwilioConfig {
    pub auth_token: String,
    pub webhook_url: String,
}

/// The form that a message arrives as: the sender's phone and the text.
#[derive(Debug)]
pub struct TwilioSmsPayload {
    pub from: String,
    pub body: String,
}

/// Why a webhook request is turned down.
#[derive(Debug)]
pub enum TwilioError {
    Unauthorized,
    BadRequest(String),
    Core(CoreError),
    NotFound,
}

/// A refusal with its texts as sequences of characters.
pub enum TwilioErrorView {
    Unauthorized,
    BadRequest(Seq<char>),
    Core(CoreErrorView),
    NotFound,
}

impl View for TwilioError {
    type V = TwilioErrorView;

    open spec fn view(&self) -> TwilioErrorView {
        match self {
            TwilioError::Unauthorized => TwilioErrorView::Unauthorized,
            TwilioError::BadRequest(reason) => TwilioErrorView::BadRequest(reason@),
            TwilioError::Core(error) => TwilioErrorView::Core(error@),
            TwilioError::NotFound => TwilioErrorView::NotFound,
        }
    }
}

impl From<CoreError> for TwilioError {
    fn from(error: CoreError) -> (wrapped: Self)
        ensures
            wrapped@ == TwilioErrorView::Core(error@),
    {
        TwilioError::Core(error)
    }
}

impl vstd::std_specs::convert::FromSpecImpl<CoreError> for TwilioError {
    open spec fn obeys_from_spec() -> bool {
        true
    }

    open spec fn from_spec(error: CoreError) -> Self {
        TwilioError::Core(error)
    }
}

impl TwilioError {
    /// The HTTP status that the refusal is answered with.
    pub open spec fn status_of(error: TwilioErrorView) -> u16 {
        match error {
            TwilioErrorView::Unauthorized => 401,
            TwilioErrorView::BadRequest(_) => 400,
            TwilioErrorView::NotFound => 404,
            TwilioErrorView::Core(CoreErrorView::InvalidStatusTransition { .. }) => 400,
            TwilioErrorView::Core(_) => 500,
        }
    }

    pub fn status_code(&self) -> (status: u16)
        ensures
            status == Self::status_of(self@),
    {
        match self {
            TwilioError::Unauthorized => 401,
            TwilioError::BadRequest(_) => 400,
            TwilioError::NotFound => 404,
            TwilioError::Core(CoreError::InvalidStatusTransition { .. }) => 400,
            TwilioError::Core(_) => 500,
        }
    }
}

/// Checks the signature of a request against the one expected for the token,
/// the URL of the webhook and the body.
pub fn verify_signature(auth_token: &str, webhook_url: &str, body: &[u8], signature: &str) -> (verified:
    Result<bool, TwilioError>)
    ensures
        verified matches Ok(valid) && valid == (signature::expected_signature(
            auth_token@,
            webhook_url@,
            body@,
        ) == signature@),
{
    match signature::sign(auth_token, webhook_url, body) {
        Some(expected) => Ok(signature::signature_matches(expected.as_str(), signature)),
        None => Err(TwilioError::Unauthorized),
    }
}

/// Whether a request proves its origin: it carries a signature, and the
/// signature is the expected one.
pub open spec fn is_authorized(
    auth_token: Seq<char>,
    webhook_url: Seq<char>,
    signature: Option<Seq<char>>,
    body: Seq<u8>,
) -> bool {
    signature matches Some(s) && s == signature::expected_signature(auth_token, webhook_url, body)
}

/// The first step: lets a request through if it proves its origin, and turns
/// it down as unauthorized if not. `signature` is the value of the
/// `X-Twilio-Signature` header, where the request has one that is text.
pub fn authorize(config: &TwilioConfig, signature: Option<&str>, body: &[u8]) -> (passed: Result<
    (),
    TwilioError,
>)
    ensures
        passed is Ok <==> is_authorized(
            config.auth_token@,
            config.webhook_url@,
            match signature {
                Some(s) => Some(s@),
                None => None,
            },
            body@,
        ),
        passed matches Err(e) ==> e@ == TwilioErrorView::Unauthorized,
{
    match signature {
        None => Err(TwilioError::Unauthorized),
        Some(given) => {
            match verify_signature(
                config.auth_token.as_str(),
                config.webhook_url.as_str(),
                body,
                given,
            ) {
                Ok(true) => Ok(()),
                Ok(false) => Err(TwilioError::Unauthorized),
                Err(e) => Err(e),
            }
        },
    }
}

/// The second step: the form that the body parsed to, or a bad request where
/// it did not parse.
pub fn parsed_form(form: Option<TwilioSmsPayload>) -> (payload: Result<
    TwilioSmsPayload,
    TwilioError,
>)
    ensures
        match form {
            Some(given) => payload matches Ok(p) && p == given,
            None => payload matches Err(e) && e@ == TwilioErrorView::BadRequest(
                "invalid form payload"@,
            ),
        },
{
    match form {
        Some(given) => Ok(given),
        None => Err(TwilioError::BadRequest("invalid form payload".to_owned())),
    }
}

/// What a message asks for, given its text in uppercase: to cancel where the
/// text holds the word `CANCEL`, to complete otherwise.
pub open spec fn requested_event(uppercase_body: Seq<char>) -> RideEvent {
    if text::occurs_in(encode_utf8(uppercase_body), encode_utf8("CANCEL"@)) {
        RideEvent::Cancel
    } else {
        RideEvent::Complete
    }
}

/// Reads the event off a message text that is already in uppercase.
pub fn event_in_uppercase(uppercase_body: &str) -> (event: RideEvent)
    ensures
        event == requested_event(uppercase_body@),
{
    if text::contains(uppercase_body, "CANCEL") {
        RideEvent::Cancel
    } else {
        RideEvent::Complete
    }
}

/// Reads the event off a message text, whatever its case.
pub fn event_of(body: &str) -> (event: RideEvent)
    ensures
        event == requested_event(text::uppercase(body@)),
{
    let upper = text::to_uppercase(body);
    event_in_uppercase(upper.as_str())
}

/// Where `event` takes a ride whose stored status is `status`.
pub open spec fn moved_status(status: Seq<char>, event: RideEvent) -> Result<
    RideStatus,
    CoreErrorView,
> {
    match RideStatus::with_code(status) {
        None => Err(CoreErrorView::InvalidStatusTransition { from: status, to: Seq::empty() }),
        Some(current) => match RideStatusMachine::event_target(current, event) {
            Some(next) => Ok(next),
            None => Err(
                CoreErrorView::InvalidStatusTransition { from: current.code(), to: Seq::empty() },
            ),
        },
    }
}

/// The third step, once the store has answered the lookup by phone: the ride
/// to be stored, with its status moved on as the message asks, and the new
/// status. A failed lookup is passed on; no ride is `NotFound`; a status
/// that cannot be read or moved is an invalid transition.
pub fn move_ride(found: Result<Option<Ride>, CoreError>, event: RideEvent) -> (moved: Result<
    (Ride, RideStatus),
    TwilioError,
>)
    ensures
        match found {
            Err(e) => moved matches Err(refusal) && refusal@ == TwilioErrorView::Core(e@),
            Ok(None) => moved matches Err(refusal) && refusal@ == TwilioErrorView::NotFound,
            Ok(Some(ride)) => match moved_status(ride@.status, event) {
                Ok(next) => moved matches Ok(pair) && pair.1 == next && pair.0@ == (RideView {
                    status: next.code(),
                    ..ride@
                }),
                Err(e) => moved matches Err(refusal) && refusal@ == TwilioErrorView::Core(e),
            },
        },
{
    let ride = match found {
        Err(e) => {
            return Err(TwilioError::Core(e));
        },
        Ok(None) => {
            return Err(TwilioError::NotFound);
        },
        Ok(Some(ride)) => ride,
    };
    let current = match RideStatus::try_from(ride.status.as_str()) {
        Ok(current) => current,
        Err(e) => {
            return Err(TwilioError::Core(e));
        },
    };
    let next = match RideStatusMachine::apply_event(current, event) {
        Ok(next) => next,
        Err(e) => {
            return Err(TwilioError::Core(e));
        },
    };
    let mut ride = ride;
    ride.status = next.to_string();
    Ok((ride, next))
}

/// The text that the rider is answered with.
pub open spec fn reply_text(status: RideStatus) -> Seq<char> {
    if status == RideStatus::Completed {
        "Thanks! Your rescue is marked complete."@
    } else {
        "Your rescue has been cancelled."@
    }
}

/// The last step, once the store has answered the save: the reply to the
/// rider, or the failure of the store.
pub fn reply(saved: Result<(), CoreError>, status: RideStatus) -> (answer: Result<
    &'static str,
    TwilioError,
>)
    ensures
        match saved {
            Ok(_) => answer matches Ok(message) && message@ == reply_text(status),
            Err(e) => answer matches Err(refusal) && refusal@ == TwilioErrorView::Core(e@),
        },
{
    match saved {
        Err(e) => Err(TwilioError::Core(e)),
        Ok(_) => {
            if status == RideStatus::Completed {
                Ok("Thanks! Your rescue is marked complete.")
            } else {
                Ok("Your rescue has been cancelled.")
            }
        },
    }
}

/// A message that asks to cancel never completes a ride, and a message that
/// does not never cancels one.
pub proof fn moved_status_follows_event(status: Seq<char>, event: RideEvent)
    requires
        moved_status(status, event) is Ok,
    ensures
        moved_status(status, event)->Ok_0 == event.target(),
        RideStatus::with_code(status) is Some,
        !RideStatus::with_code(status)->0.is_terminal(),
{
    let current = RideStatus::with_code(status)->0;
    RideStatusMachine::event_applies_where_target_allowed(current, event);
    if current.is_terminal() {
        RideStatusMachine::terminal_status_allows_nothing(current, event.target());
    }
}

/// Where the handling of a message stands: what the caller was last asked to
/// do, with what has been decided so far.
#[derive(Debug)]
pub enum Sms {
    /// The caller was asked to parse the form in the body.
    Parsing,
    /// The store was asked for the ride of the sender; `event` is what the
    /// message asks for.
    Finding { event: RideEvent },
    /// The store was asked to take the ride in its new status.
    Saving { status: RideStatus },
    /// Nothing is left to do.
    Done,
}

/// What the caller is asked to do next.
#[derive(Debug)]
pub enum SmsAction {
    ParseForm,
    FindByPhone(String),
    Save(Ride),
    /// Answer the request with this text; the handling is over.
    Reply(&'static str),
    /// Answer the request with the refusal; the handling is over.
    Fail(TwilioError),
}

/// What came of the action that the caller was asked for.
#[derive(Debug)]
pub enum SmsOutcome {
    /// The form, where the body parsed as one.
    Parsed(Option<TwilioSmsPayload>),
    Found(Result<Option<Ride>, CoreError>),
    Saved(Result<(), CoreError>),
}

impl SmsAction {
    /// Whether the action is this refusal.
    pub open spec fn fails_with(self, refusal: TwilioErrorView) -> bool {
        self matches SmsAction::Fail(given) && given@ == refusal
    }
}

impl Sms {
    /// The step of handling a message: what state and action follow from a
    /// state and the outcome of the action that led to it.
    ///
    /// The form is parsed once the request has proved its origin. The ride is
    /// looked up by the phone that the form names, moved as the text of the
    /// form asks, and stored before the rider is answered. A failure on the
    /// way ends the handling with that failure, and an outcome that the state
    /// does not wait for ends it as a bad request.
    pub open spec fn steps_to(self, outcome: SmsOutcome, next: Sms, action: SmsAction) -> bool {
        match (self, outcome) {
            (Sms::Parsing, SmsOutcome::Parsed(Some(form))) => {
                &&& next == (Sms::Finding { event: requested_event(text::uppercase(form.body@)) })
                &&& action matches SmsAction::FindByPhone(phone)
                &&& phone@ == form.from@
            },
            (Sms::Parsing, SmsOutcome::Parsed(None)) => {
                next is Done && action.fails_with(
                    TwilioErrorView::BadRequest("invalid form payload"@),
                )
            },
            (Sms::Finding { event }, SmsOutcome::Found(Err(e))) => {
                next is Done && action.fails_with(TwilioErrorView::Core(e@))
            },
            (Sms::Finding { event }, SmsOutcome::Found(Ok(None))) => {
                next is Done && action.fails_with(TwilioErrorView::NotFound)
            },
            (Sms::Finding { event }, SmsOutcome::Found(Ok(Some(ride)))) => match moved_status(
                ride@.status,
                event,
            ) {
                Ok(status) => {
                    &&& next == (Sms::Saving { status })
                    &&& action matches SmsAction::Save(moved)
                    &&& moved@ == (RideView { status: status.code(), ..ride@ })
                },
                Err(e) => next is Done && action.fails_with(TwilioErrorView::Core(e)),
            },
            (Sms::Saving { status }, SmsOutcome::Saved(Ok(_))) => {
                &&& next is Done
                &&& action matches SmsAction::Reply(message)
                &&& message@ == reply_text(status)
            },
            (Sms::Saving { status }, SmsOutcome::Saved(Err(e))) => {
                next is Done && action.fails_with(TwilioErrorView::Core(e@))
            },
            _ => next is Done && action.fails_with(
                TwilioErrorView::BadRequest("unexpected outcome"@),
            ),
        }
    }

    /// Receives a request: asks for its form to be parsed if it proves its
    /// origin, and turns it down as unauthorized if not.
    pub fn receive(config: &TwilioConfig, signature: Option<&str>, body: &[u8]) -> (begun: (
        Sms,
        SmsAction,
    ))
        ensures
            if is_authorized(
                config.auth_token@,
                config.webhook_url@,
                match signature {
                    Some(s) => Some(s@),
                    None => None,
                },
                body@,
            ) {
                begun.0 is Parsing && begun.1 is ParseForm
            } else {
                begun.0 is Done && begun.1.fails_with(TwilioErrorView::Unauthorized)
            },
    {
        match authorize(config, signature, body) {
            Ok(_) => (Sms::Parsing, SmsAction::ParseForm),
            Err(refusal) => (Sms::Done, SmsAction::Fail(refusal)),
        }
    }

    /// Takes the outcome of the last action and says what to do next.
    pub fn advance(self, outcome: SmsOutcome) -> (next: (Sms, SmsAction))
        ensures
            self.steps_to(outcome, next.0, next.1),
    {
        match (self, outcome) {
            (Sms::Parsing, SmsOutcome::Parsed(form)) => match parsed_form(form) {
                Err(refusal) => (Sms::Done, SmsAction::Fail(refusal)),
                Ok(payload) => {
                    let event = event_of(payload.body.as_str());
                    (Sms::Finding { event }, SmsAction::FindByPhone(payload.from))
                },
            },
            (Sms::Finding { event }, SmsOutcome::Found(found)) => match move_ride(found, event) {
                Err(refusal) => (Sms::Done, SmsAction::Fail(refusal)),
                Ok((ride, status)) => (Sms::Saving { status }, SmsAction::Save(ride)),
            },
            (Sms::Saving { status }, SmsOutcome::Saved(saved)) => match reply(saved, status) {
                Err(refusal) => (Sms::Done, SmsAction::Fail(refusal)),
                Ok(message) => (Sms::Done, SmsAction::Reply(message)),
            },
            _ => (
                Sms::Done,
                SmsAction::Fail(TwilioError::BadRequest("unexpected outcome".to_owned())),
            ),
        }
    }

    /// How far the handling has come.
    pub open spec fn stage(self) -> int {
        match self {
            Sms::Parsing => 0,
            Sms::Finding { .. } => 1,
            Sms::Saving { .. } => 2,
            Sms::Done => 3,
        }
    }

    /// The handling of a message ends after three outcomes at most, and it
    /// ends exactly when the rider is answered or the request is refused. A
    /// ride is stored only in a status that the ride status machine allows
    /// after the status that it was found in.
    pub proof fn handling_moves_forward(self, outcome: SmsOutcome, next: Sms, action: SmsAction)
        requires
            self.steps_to(outcome, next, action),
        ensures
            next.stage() > self.stage() || (self is Done && next is Done),
            next is Done <==> (action is Reply || action is Fail),
            action matches SmsAction::Save(moved) ==> (outcome matches SmsOutcome::Found(
                Ok(Some(ride)),
            ) && RideStatus::with_code(ride@.status) matches Some(before)
                && RideStatus::with_code(moved@.status) matches Some(after)
                && RideStatusMachine::allows(before, after)),
    {
        if action is Save {
            let ride = outcome->Found_0->Ok_0->0;
            let event = self->event;
            let before = RideStatus::with_code(ride@.status)->0;
            let after = moved_status(ride@.status, event)->Ok_0;
            RideStatusMachine::event_target_is_allowed(before, event);
            RideStatus::code_round_trips(after);
        }
    }
}


/// Whether entry `at` of `entries` is for `phone`.
pub open spec fn entry_for(entries: Seq<(String, Ride)>, phone: Seq<char>, at: int) -> bool {
    0 <= at < entries.len() && entries[at].0@ == phone
}

/// The position of the entry for `phone`, where there is one.
pub open spec fn position_of(entries: Seq<(String, Ride)>, phone: Seq<char>) -> int {
    choose|at: int| entry_for(entries, phone, at)
}

/// No two entries are for the same phone.
pub open spec fn phones_are_distinct(entries: Seq<(String, Ride)>) -> bool {
    forall|i: int, j: int|
        0 <= i < entries.len() && 0 <= j < entries.len() && #[trigger] entries[i].0@
            == #[trigger] entries[j].0@ ==> i == j
}

/// The rides of a list of entries by phone.
pub open spec fn rides_by_phone(entries: Seq<(String, Ride)>) -> Map<Seq<char>, RideView> {
    Map::new(
        |phone: Seq<char>| exists|at: int| entry_for(entries, phone, at),
        |phone: Seq<char>| entries[position_of(entries, phone)].1@,
    )
}

/// The rides that the webhook acts on, by the phone of the rider. There is at
/// most one ride for a phone.
pub struct InMemoryTwilioRideStore {
    rides: Vec<(String, Ride)>,
}

impl View for InMemoryTwilioRideStore {
    type V = Map<Seq<char>, RideView>;

    closed spec fn view(&self) -> Map<Seq<char>, RideView> {
        rides_by_phone(self.rides@)
    }
}

impl InMemoryTwilioRideStore {
    /// The invariant of the store: one entry for a phone at most.
    pub closed spec fn well_formed(&self) -> bool {
        phones_are_distinct(self.rides@)
    }

    /// An empty store.
    pub fn new() -> (store: Self)
        ensures
            store.well_formed(),
            store@ == Map::<Seq<char>, RideView>::empty(),
    {
        let store = Self { rides: Vec::new() };
        assert(store@ =~= Map::<Seq<char>, RideView>::empty());
        store
    }

    fn position(&self, phone: &str) -> (found: Option<usize>)
        requires
            self.well_formed(),
        ensures
            match found {
                Some(at) => entry_for(self.rides@, phone@, at as int) && position_of(
                    self.rides@,
                    phone@,
                ) == at,
                None => forall|at: int| !entry_for(self.rides@, phone@, at),
            },
    {
        let mut i: usize = 0;
        while i < self.rides.len()
            invariant
                i <= self.rides@.len(),
                phones_are_distinct(self.rides@),
                forall|at: int| 0 <= at < i ==> !entry_for(self.rides@, phone@, at),
            decreases self.rides@.len() - i,
        {
            if text::equal(self.rides[i].0.as_str(), phone) {
                assert(entry_for(self.rides@, phone@, i as int));
                let ghost at = position_of(self.rides@, phone@);
                assert(self.rides@[at].0@ == self.rides@[i as int].0@);
                return Some(i);
            }
            i += 1;
        }
        None
    }

    /// A copy of the ride stored for `phone`, if there is one. The store in
    /// memory never fails.
    pub fn find_by_phone(&self, phone: &str) -> (found: Result<Option<Ride>, CoreError>)
        requires
            self.well_formed(),
        ensures
            found matches Ok(ride) && match ride {
                Some(r) => self@.contains_key(phone@) && r@ == self@[phone@],
                None => !self@.contains_key(phone@),
            },
    {
        match self.position(phone) {
            Some(at) => Ok(Some(self.rides[at].1.clone())),
            None => Ok(None),
        }
    }

    /// Stores a ride for the phone of its rider, in place of the ride that
    /// was stored for that phone. A ride without a phone is refused and the
    /// store stays as it is.
    pub fn save(&mut self, ride: Ride) -> (saved: Result<(), CoreError>)
        requires
            old(self).well_formed(),
        ensures
            final(self).well_formed(),
            match ride@.rider_phone {
                Some(phone) => saved is Ok && final(self)@ == old(self)@.insert(phone, ride@),
                None => final(self)@ == old(self)@ && (saved matches Err(e) && e@
                    == CoreErrorView::InvalidLocation("ride missing phone"@)),
            },
    {
        let phone = match &ride.rider_phone {
            Some(phone) => phone.clone(),
            None => {
                return Err(CoreError::InvalidLocation("ride missing phone".to_owned()));
            },
        };
        let ghost before = self.rides@;
        let ghost key = phone@;
        let ghost stored = ride@;
        let found = self.position(phone.as_str());
        let ghost slot = match found {
            Some(at) => at as int,
            None => before.len() as int,
        };
        match found {
            Some(at) => {
                self.rides.set(at, (phone, ride));
            },
            None => {
                self.rides.push((phone, ride));
            },
        }
        proof {
            let after = self.rides@;
            let expected = rides_by_phone(before).insert(key, stored);
            assert(entry_for(after, key, slot) && after[slot].1@ == stored);
            assert(forall|at: int| 0 <= at < before.len() && at != slot ==> after[at] == before[at]);
            assert forall|i: int, j: int|
                0 <= i < after.len() && 0 <= j < after.len() && #[trigger] after[i].0@
                    == #[trigger] after[j].0@ implies i == j by {
                if i != slot && j != slot {
                    assert(before[i].0@ == before[j].0@);
                } else if i != slot {
                    assert(entry_for(before, key, i));
                    if slot < before.len() {
                        assert(before[i].0@ == before[slot].0@);
                    }
                } else if j != slot {
                    assert(entry_for(before, key, j));
                    if slot < before.len() {
                        assert(before[j].0@ == before[slot].0@);
                    }
                }
            }
            assert forall|other: Seq<char>| #[trigger]
                rides_by_phone(after).contains_key(other) <==> expected.contains_key(other) by {
                if other != key {
                    if exists|at: int| entry_for(after, other, at) {
                        let at = choose|at: int| entry_for(after, other, at);
                        assert(entry_for(before, other, at));
                    }
                    if exists|at: int| entry_for(before, other, at) {
                        let at = choose|at: int| entry_for(before, other, at);
                        assert(entry_for(after, other, at));
                    }
                }
            }
            assert forall|other: Seq<char>|
                rides_by_phone(after).contains_key(other) implies #[trigger] rides_by_phone(
                after,
            )[other] == expected[other] by {
                let at = position_of(after, other);
                assert(entry_for(after, other, at));
                if other != key {
                    assert(entry_for(before, other, at));
                    assert(entry_for(before, other, position_of(before, other)));
                }
            }
            assert(rides_by_phone(after) =~= expected);
        }
        Ok(())
    }
}

impl Default for InMemoryTwilioRideStore {
    fn default() -> (store: Self)
        ensures
            store.well_formed(),
            store@ == Map::<Seq<char>, RideView>::empty(),
    {
        Self::new()
    }
}

} // verus!
