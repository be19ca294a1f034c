//! The bridge: the worker handle, its lifecycle, and the steps of one
//! request/response exchange.
//!
//! Every step takes the bridge by `&mut`, so its owner holds one lock over a
//! whole exchange; the bridge then decides what to do next and the owner does
//! it: launch the worker, write a line, read a line.
use vstd::prelude::*;
use vstd::string::*;

use crate::correlator::{ids_up_to, RequestCorrelator};
use crate::error::BridgeError;
use crate::framing::{decode_response, decodes_to, frame, framed, ReadOutcome};
use crate::json::{
    into_object, is_object, json_object, json_string, json_u64, object_entries, object_value,
    set_field, string_value, u64_value,
};

verus! {

/// The fields of the request that carries `fields` under identifier `id` and
/// operation tag `msg_type`: the caller's fields, with `request_id` and
/// `type` set over any the caller gave.
pub open spec fn request_entries(
    fields: Map<Seq<char>, serde_json::Value>,
    id: u64,
    msg_type: Seq<char>,
) -> Map<Seq<char>, serde_json::Value> {
    fields.insert("request_id"@, json_u64(id)).insert("type"@, json_string(msg_type))
}

/// The bytes written for that request.
pub open spec fn request_line(
    fields: Map<Seq<char>, serde_json::Value>,
    id: u64,
    msg_type: Seq<char>,
) -> Seq<u8> {
    framed(json_object(request_entries(fields, id, msg_type)))
}

/// The fields of a JSON object.
pub open spec fn payload_entries(v: serde_json::Value) -> Map<Seq<char>, serde_json::Value> {
    choose|e: Map<Seq<char>, serde_json::Value>| v == json_object(e)
}

/// Where an exchange stands, and what its owner is to do next.
pub enum Exchange {
    /// Launch the worker, then report with `Event::Launched`.
    Launch { msg_type: String, fields: serde_json::Map<String, serde_json::Value> },
    /// Write `line` to the worker's input and flush it, then report with
    /// `Event::Written`.
    Write { request_id: u64, line: Vec<u8> },
    /// Read one line of the worker's output, then report with
    /// `Event::LineRead`.
    Read { request_id: u64 },
    /// The exchange is over, with this result.
    Done(Result<serde_json::Value, BridgeError>),
}

/// What the owner reports after doing what an exchange asked for.
pub enum Event<H> {
    Launched(Result<H, String>),
    Written(Result<(), String>),
    LineRead(ReadOutcome),
}

/// The event answers the step that the exchange asked for.
pub open spec fn answers<H>(ex: Exchange, ev: Event<H>) -> bool {
    match ex {
        Exchange::Launch { .. } => ev is Launched,
        Exchange::Write { .. } => ev is Written,
        Exchange::Read { .. } => ev is LineRead,
        Exchange::Done(_) => false,
    }
}

/// The request-issuing part of a step from `b0` to `b1` with result `r`: the
/// next identifier is taken and the request line that carries it is to be
/// written; once identifiers run out, the step ends the exchange and takes
/// none.
pub open spec fn issued_request<H>(
    b0: Bridge<H>,
    b1: Bridge<H>,
    msg_type: Seq<char>,
    fields: Map<Seq<char>, serde_json::Value>,
    r: Exchange,
) -> bool {
    if b0.next_id() < u64::MAX {
        let id = b0.next_id() as u64;
        &&& b1.next_id() == b0.next_id() + 1
        &&& b1.issued_ids() == b0.issued_ids().push(id)
        &&& match r {
            Exchange::Write { request_id, line } => request_id == id && line@ == request_line(
                fields,
                id,
                msg_type,
            ),
            _ => false,
        }
    } else {
        &&& r == Exchange::Done(Err(BridgeError::IdsExhausted))
        &&& b1.next_id() == b0.next_id()
        &&& b1.issued_ids() == b0.issued_ids()
    }
}

/// How `send` starts: a payload that is not an object ends it before
/// anything else happens; while another exchange is open the new one is
/// refused; with a running worker the request is issued; with none, the
/// worker is to be launched first. An exchange that does not end at once
/// stays open until it ends.
pub open spec fn begins<H>(
    b0: Bridge<H>,
    b1: Bridge<H>,
    msg_type: Seq<char>,
    payload: serde_json::Value,
    r: Exchange,
) -> bool {
    if !is_object(payload) {
        r matches Exchange::Done(Err(BridgeError::Protocol(_))) && b1 == b0
    } else if b0.in_flight() {
        r == Exchange::Done(Err(BridgeError::ExchangeOpen)) && b1 == b0
    } else if b0.is_running() {
        &&& b1.wf()
        &&& b1.in_flight() == !(r is Done)
        &&& b1.worker() == b0.worker()
        &&& b1.is_starting() == b0.is_starting()
        &&& b1.launches() == b0.launches()
        &&& b1.failed_launches() == b0.failed_launches()
        &&& issued_request(b0, b1, msg_type, payload_entries(payload), r)
    } else if b0.is_starting() {
        r matches Exchange::Done(Err(BridgeError::Launch(_))) && b1 == b0
    } else {
        &&& r matches Exchange::Launch { msg_type: t, fields } && t@ == msg_type && object_entries(
            fields,
        ) == payload_entries(payload)
        &&& b1.wf()
        &&& b1.in_flight()
        &&& b1.worker() is None
        &&& b1.is_starting()
        &&& b1.launches() == b0.launches() + 1
        &&& b1.failed_launches() == b0.failed_launches()
        &&& b1.next_id() == b0.next_id()
        &&& b1.issued_ids() == b0.issued_ids()
    }
}

/// One step of an exchange, from the event that answers it. The exchange
/// stays open until the step that ends it.
pub open spec fn advances<H>(
    b0: Bridge<H>,
    b1: Bridge<H>,
    ex: Exchange,
    ev: Event<H>,
    r: Exchange,
) -> bool {
    match ex {
        Exchange::Launch { msg_type, fields } => match ev {
            Event::Launched(Ok(h)) => {
                &&& b1.wf()
                &&& b1.in_flight() == !(r is Done)
                &&& b1.worker() == Some(h)
                &&& !b1.is_starting()
                &&& b1.launches() == b0.launches()
                &&& b1.failed_launches() == b0.failed_launches()
                &&& issued_request(b0, b1, msg_type@, object_entries(fields), r)
            },
            Event::Launched(Err(e)) => {
                &&& r == Exchange::Done(Err(BridgeError::Launch(e)))
                &&& b1.wf()
                &&& !b1.in_flight()
                &&& b1.worker() is None
                &&& !b1.is_starting()
                &&& b1.launches() == b0.launches()
                &&& b1.failed_launches() == b0.failed_launches() + 1
                &&& b1.next_id() == b0.next_id()
                &&& b1.issued_ids() == b0.issued_ids()
            },
            _ => false,
        },
        Exchange::Write { request_id, line } => b1.wf() && b1.same_but_flight(&b0) && b1.in_flight()
            == !(r is Done) && match ev {
            Event::Written(Ok(_)) => r == Exchange::Read { request_id },
            Event::Written(Err(e)) => r == Exchange::Done(Err(BridgeError::Io(e))),
            _ => false,
        },
        Exchange::Read { request_id } => b1.wf() && b1.same_but_flight(&b0) && b1.in_flight() == !(
        r is Done) && match ev {
            Event::LineRead(o) => r matches Exchange::Done(res) && decodes_to(o, res),
            _ => false,
        },
        Exchange::Done(_) => false,
    }
}

/// The state that one worker process lives in: the optional handle of the
/// running worker and the counter of request identifiers.
///
/// The handle goes from absent to present once and is never replaced. While
/// a launch is underway the bridge is *starting*; at most one launch is
/// underway at a time. While an exchange is open, no other begins: at most
/// one request is outstanding against the worker.
pub struct Bridge<H> {
    worker: Option<H>,
    starting: bool,
    in_flight: bool,
    ids: RequestCorrelator,
    launches: Ghost<nat>,
    failed_launches: Ghost<nat>,
}

impl<H> Bridge<H> {
    /// The worker's handle, once it runs.
    pub closed spec fn worker(&self) -> Option<H> {
        self.worker
    }

    pub open spec fn is_running(&self) -> bool {
        self.worker() is Some
    }

    /// A launch has been asked for and not yet reported.
    pub closed spec fn is_starting(&self) -> bool {
        self.starting
    }

    /// An exchange has begun and not yet ended.
    pub closed spec fn in_flight(&self) -> bool {
        self.in_flight
    }

    /// The request identifiers handed out, in order.
    pub closed spec fn issued_ids(&self) -> Seq<u64> {
        self.ids.issued()
    }

    /// The identifier that the next request gets.
    pub closed spec fn next_id(&self) -> nat {
        self.ids.next_id()
    }

    /// How many launches of the worker the bridge has asked for.
    pub closed spec fn launches(&self) -> nat {
        self.launches@
    }

    /// How many of those launches failed.
    pub closed spec fn failed_launches(&self) -> nat {
        self.failed_launches@
    }

    pub closed spec fn wf(&self) -> bool {
        &&& self.ids.wf()
        &&& !(self.starting && self.worker is Some)
        &&& self.launches@ == self.failed_launches@ + if self.starting || self.worker is Some {
            1nat
        } else {
            0nat
        }
    }

    /// Everything but the handle is the same in both states.
    /// Everything but whether an exchange is open is the same in both
    /// states.
    pub open spec fn same_but_flight(&self, other: &Self) -> bool {
        &&& self.worker() == other.worker()
        &&& self.is_starting() == other.is_starting()
        &&& self.issued_ids() == other.issued_ids()
        &&& self.next_id() == other.next_id()
        &&& self.launches() == other.launches()
        &&& self.failed_launches() == other.failed_launches()
    }

    pub open spec fn same_control(&self, other: &Self) -> bool {
        &&& self.in_flight() == other.in_flight()
        &&& self.is_starting() == other.is_starting()
        &&& self.issued_ids() == other.issued_ids()
        &&& self.next_id() == other.next_id()
        &&& self.launches() == other.launches()
        &&& self.failed_launches() == other.failed_launches()
    }

    /// A bridge with no worker, whose first request gets identifier 1.
    pub fn new() -> (b: Self)
        ensures
            b.wf(),
            b.worker() is None,
            !b.is_starting(),
            !b.in_flight(),
            b.next_id() == 1,
            b.issued_ids() == Seq::<u64>::empty(),
            b.launches() == 0,
            b.failed_launches() == 0,
    {
        Bridge {
            worker: None,
            starting: false,
            in_flight: false,
            ids: RequestCorrelator::new(),
            launches: Ghost(0),
            failed_launches: Ghost(0),
        }
    }

    pub fn is_running_now(&self) -> (r: bool)
        ensures
            r == self.is_running(),
    {
        self.worker.is_some()
    }

    pub fn is_starting_now(&self) -> (r: bool)
        ensures
            r == self.is_starting(),
    {
        self.starting
    }

    /// The worker's handle, for the owner to do the I/O of an exchange on.
    pub fn worker_mut(&mut self) -> (r: Option<&mut H>)
        requires
            old(self).wf(),
        ensures
            final(self).wf(),
            final(self).same_control(old(self)),
            old(self).worker() is None ==> r is None && *final(self) == *old(self),
            old(self).worker() is Some ==> {
                &&& r is Some
                &&& *r->0 == old(self).worker()->0
                &&& final(self).worker() == Some(*final(r->0))
            },
    {
        self.worker.as_mut()
    }

    /// The decision of `ensure_started`: whether the caller is to launch the
    /// worker now. It is to do so only when no worker runs and no launch is
    /// underway; the bridge is then starting until the launch is reported.
    pub fn claim_launch(&mut self) -> (launch: bool)
        requires
            old(self).wf(),
        ensures
            final(self).wf(),
            launch == (old(self).worker() is None && !old(self).is_starting()),
            launch ==> final(self).is_starting() && final(self).launches() == old(self).launches()
                + 1,
            !launch ==> *final(self) == *old(self),
            final(self).worker() == old(self).worker(),
            final(self).in_flight() == old(self).in_flight(),
            final(self).issued_ids() == old(self).issued_ids(),
            final(self).next_id() == old(self).next_id(),
            final(self).failed_launches() == old(self).failed_launches(),
    {
        if self.worker.is_none() && !self.starting {
            self.starting = true;
            self.launches = Ghost(self.launches@ + 1);
            true
        } else {
            false
        }
    }

    /// Takes the outcome of a launch that `claim_launch` asked for: the new
    /// handle is kept for good, or the launch error is handed back and a
    /// later caller may launch again.
    pub fn complete_launch(&mut self, outcome: Result<H, String>) -> (r: Result<(), BridgeError>)
        requires
            old(self).wf(),
            old(self).is_starting(),
        ensures
            final(self).wf(),
            !final(self).is_starting(),
            final(self).in_flight() == old(self).in_flight(),
            final(self).issued_ids() == old(self).issued_ids(),
            final(self).next_id() == old(self).next_id(),
            final(self).launches() == old(self).launches(),
            match outcome {
                Ok(h) => {
                    &&& r is Ok
                    &&& final(self).worker() == Some(h)
                    &&& final(self).failed_launches() == old(self).failed_launches()
                },
                Err(e) => {
                    &&& r == Err::<(), BridgeError>(BridgeError::Launch(e))
                    &&& final(self).worker() is None
                    &&& final(self).failed_launches() == old(self).failed_launches() + 1
                },
            },
    {
        self.starting = false;
        match outcome {
            Ok(h) => {
                self.worker = Some(h);
                Ok(())
            },
            Err(e) => {
                self.failed_launches = Ghost(self.failed_launches@ + 1);
                Err(BridgeError::Launch(e))
            },
        }
    }
    /// Takes the next identifier and builds the line of the request that
    /// carries it.
    fn issue_request(
        &mut self,
        msg_type: &str,
        fields: serde_json::Map<String, serde_json::Value>,
    ) -> (r: Exchange)
        requires
            old(self).wf(),
            old(self).is_running(),
        ensures
            final(self).wf(),
            final(self).worker() == old(self).worker(),
            final(self).is_starting() == old(self).is_starting(),
            final(self).in_flight() == old(self).in_flight(),
            final(self).launches() == old(self).launches(),
            final(self).failed_launches() == old(self).failed_launches(),
            issued_request(*old(self), *final(self), msg_type@, object_entries(fields), r),
    {
        match self.ids.allocate() {
            None => Exchange::Done(Err(BridgeError::IdsExhausted)),
            Some(id) => {
                let mut fields = fields;
                set_field(&mut fields, "request_id", u64_value(id));
                set_field(&mut fields, "type", string_value(msg_type));
                let request = object_value(fields);
                Exchange::Write { request_id: id, line: frame(&request) }
            },
        }
    }

    /// Starts `send(msg_type, payload)`.
    pub fn begin(&mut self, msg_type: &str, payload: serde_json::Value) -> (r: Exchange)
        requires
            old(self).wf(),
        ensures
            final(self).wf(),
            begins(*old(self), *final(self), msg_type@, payload, r),
    {
        match into_object(payload) {
            Err(_) => Exchange::Done(
                Err(BridgeError::Protocol(String::from_str("payload must be a JSON object"))),
            ),
            Ok(fields) => {
                proof {
                    let e = payload_entries(payload);
                    assert(payload == json_object(e));
                }
                if self.in_flight {
                    Exchange::Done(Err(BridgeError::ExchangeOpen))
                } else if self.worker.is_some() {
                    let r = self.issue_request(msg_type, fields);
                    self.in_flight = !matches!(r, Exchange::Done(_));
                    r
                } else if self.starting {
                    Exchange::Done(
                        Err(BridgeError::Launch(String::from_str("worker launch already underway"))),
                    )
                } else {
                    self.claim_launch();
                    self.in_flight = true;
                    Exchange::Launch { msg_type: String::from_str(msg_type), fields }
                }
            },
        }
    }

    /// Whether `advance` takes this event for this exchange now.
    pub fn accepts(&self, ex: &Exchange, ev: &Event<H>) -> (r: bool)
        ensures
            r == (self.in_flight() && answers(*ex, *ev) && (ex is Launch ==> self.is_starting())),
    {
        self.in_flight && match ex {
            Exchange::Launch { .. } => self.starting && matches!(ev, Event::Launched(_)),
            Exchange::Write { .. } => matches!(ev, Event::Written(_)),
            Exchange::Read { .. } => matches!(ev, Event::LineRead(_)),
            Exchange::Done(_) => false,
        }
    }

    /// Takes the event that answers the step `ex` asked for, and says what
    /// comes next.
    pub fn advance(&mut self, ex: Exchange, ev: Event<H>) -> (r: Exchange)
        requires
            old(self).wf(),
            old(self).in_flight(),
            answers(ex, ev),
            ex is Launch ==> old(self).is_starting(),
        ensures
            final(self).wf(),
            advances(*old(self), *final(self), ex, ev, r),
    {
        let r = match ex {
            Exchange::Launch { msg_type, fields } => match ev {
                Event::Launched(outcome) => match self.complete_launch(outcome) {
                    Ok(()) => self.issue_request(msg_type.as_str(), fields),
                    Err(e) => Exchange::Done(Err(e)),
                },
                _ => unreached(),
            },
            Exchange::Write { request_id, line } => match ev {
                Event::Written(Ok(())) => Exchange::Read { request_id },
                Event::Written(Err(e)) => Exchange::Done(Err(BridgeError::Io(e))),
                _ => unreached(),
            },
            Exchange::Read { request_id } => match ev {
                Event::LineRead(o) => Exchange::Done(decode_response(o)),
                _ => unreached(),
            },
            Exchange::Done(_) => unreached(),
        };
        self.in_flight = !matches!(r, Exchange::Done(_));
        r
    }

    /// Request identifiers are dense: after any run of requests, those handed
    /// out are exactly `1` up to the last, each once.
    pub proof fn lemma_request_ids_dense(&self)
        requires
            self.wf(),
        ensures
            self.issued_ids() == ids_up_to((self.next_id() - 1) as nat),
            self.issued_ids().no_duplicates(),
            self.issued_ids().to_set() =~= Set::new(|i: u64| 1 <= i < self.next_id()),
    {
        self.ids.lemma_ids_dense();
    }

    /// A single launch: however many callers have asked for the worker, the
    /// bridge has asked for one launch more than have failed, or none while
    /// no worker runs and none is underway. So unless a launch failed, it has
    /// asked for at most one, and for exactly one once the worker runs.
    pub proof fn lemma_single_launch(&self)
        requires
            self.wf(),
        ensures
            self.launches() == self.failed_launches() + if self.is_running() || self.is_starting() {
                1nat
            } else {
                0nat
            },
            self.failed_launches() == 0 ==> self.launches() <= 1,
            self.failed_launches() == 0 && self.is_running() ==> self.launches() == 1,
    {
    }
}

/// No restart: a failed write or read ends the exchange with an I/O error,
/// closes it and leaves the same worker in place, and the next `send` goes to that worker
/// again without asking for a launch.
pub proof fn lemma_io_failure_keeps_worker<H>(
    b0: Bridge<H>,
    b1: Bridge<H>,
    ex: Exchange,
    ev: Event<H>,
    r1: Exchange,
    b2: Bridge<H>,
    msg_type: Seq<char>,
    payload: serde_json::Value,
    r2: Exchange,
)
    requires
        b0.wf(),
        b0.is_running(),
        ex is Write || ex is Read,
        advances(b0, b1, ex, ev, r1),
        r1 matches Exchange::Done(Err(BridgeError::Io(_))),
        begins(b1, b2, msg_type, payload, r2),
    ensures
        b1.same_but_flight(&b0),
        !b1.in_flight(),
        b2.worker() == b0.worker(),
        !(r2 is Launch),
{
}

/// One request at a time: when `send` finds the worker running, the line it
/// writes carries the next identifier and the operation tag, and the line
/// it then reads is read for that same identifier.
pub proof fn lemma_response_follows_its_request<H>(
    b0: Bridge<H>,
    b1: Bridge<H>,
    msg_type: Seq<char>,
    payload: serde_json::Value,
    x1: Exchange,
    ev: Event<H>,
    b2: Bridge<H>,
    x2: Exchange,
)
    requires
        b0.wf(),
        begins(b0, b1, msg_type, payload, x1),
        x1 is Write,
        advances(b1, b2, x1, ev, x2),
        x2 is Read,
    ensures
        x1 matches Exchange::Write { request_id, line } && {
            &&& request_id == b0.next_id()
            &&& line@ == framed(json_object(request_entries(payload_entries(payload), request_id, msg_type)))
            &&& request_entries(payload_entries(payload), request_id, msg_type)["request_id"@]
                == json_u64(request_id)
            &&& request_entries(payload_entries(payload), request_id, msg_type)["type"@]
                == json_string(msg_type)
        },
        x2 matches Exchange::Read { request_id } && x1 matches Exchange::Write { request_id: id, .. }
            && request_id == id,
        b2.same_but_flight(&b1),
        b1.in_flight() && b2.in_flight(),
{
    reveal_strlit("request_id");
    reveal_strlit("type");
    assert("request_id"@[0] != "type"@[0]);
}

/// The handle is never replaced: once the worker runs, no step of any
/// exchange changes which worker the bridge holds.
pub proof fn lemma_worker_never_replaced<H>(
    b0: Bridge<H>,
    b1: Bridge<H>,
    msg_type: Seq<char>,
    payload: serde_json::Value,
    ex: Exchange,
    ev: Event<H>,
    r: Exchange,
)
    requires
        b0.wf(),
        b0.is_running(),
        begins(b0, b1, msg_type, payload, r) || {
            &&& answers(ex, ev)
            &&& ex is Launch ==> b0.is_starting()
            &&& advances(b0, b1, ex, ev, r)
        },
    ensures
        b1.worker() == b0.worker(),
{
}

/// One request outstanding at a time: while an exchange is open, `send`
/// refuses to begin another, takes no identifier and writes nothing, so no
/// other line reaches the worker between a request and its response.
pub proof fn lemma_one_exchange_at_a_time<H>(
    b0: Bridge<H>,
    b1: Bridge<H>,
    msg_type: Seq<char>,
    payload: serde_json::Value,
    r: Exchange,
)
    requires
        b0.wf(),
        b0.in_flight(),
        is_object(payload),
        begins(b0, b1, msg_type, payload, r),
    ensures
        r == Exchange::Done(Err(BridgeError::ExchangeOpen)),
        b1 == b0,
{
}

/// A write that succeeds leaves the exchange open for the read of its
/// response, under the same identifier.
pub proof fn lemma_write_then_read<H>(
    b0: Bridge<H>,
    b1: Bridge<H>,
    request_id: u64,
    line: Vec<u8>,
    r: Exchange,
)
    requires
        b0.wf(),
        advances(b0, b1, (Exchange::Write { request_id, line }), Event::Written(Ok(())), r),
    ensures
        r == (Exchange::Read { request_id }),
        b1.in_flight(),
        b1.same_but_flight(&b0),
{
}

} // verus!
