use vstd::prelude::*;
use crate::upload::{UploadJob, UploadPhase, transfer_base};
use crate::registry::{
    Registry, Printer, PrinterView, PrinterOption, options_of, has_id,
    ids_unique,
};

verus! {

/// How many client messages one session holds before senders are pushed back.
pub const QUEUE_CAPACITY: usize = 10;

/// The user name that every device accepts on its messaging endpoint.
pub open spec fn device_user() -> Seq<char> {
    "bblp"@
}

/// The topic a device publishes its status on.
pub open spec fn report_topic(id: Seq<char>) -> Seq<char> {
    "device/"@ + id + "/report"@
}

/// The topic the gateway publishes commands for a device on.
pub open spec fn request_topic(id: Seq<char>) -> Seq<char> {
    "device/"@ + id + "/request"@
}

/// The address of a device's messaging endpoint.
pub open spec fn server_uri(ip: Seq<char>) -> Seq<char> {
    "mqtts://"@ + ip + ":8883"@
}

fn topic_for(id: &str, suffix: &str) -> (r: String)
    ensures
        r@ == "device/"@ + id@ + suffix@,
{
    let mut t = String::from_str("device/");
    t.append(id);
    t.append(suffix);
    t
}

pub fn make_report_topic(id: &str) -> (r: String)
    ensures
        r@ == report_topic(id@),
{
    topic_for(id, "/report")
}

pub fn make_request_topic(id: &str) -> (r: String)
    ensures
        r@ == request_topic(id@),
{
    topic_for(id, "/request")
}

/// Errors that callers of the gateway see.
#[derive(Clone, Copy, Debug, PartialEq, Eq, Structural)]
pub enum GatewayError {
    /// The device id is not in the roster.
    NotFound,
    /// No session is open for the device.
    SessionNotFound,
    /// A session for the device is already open; a second one is refused.
    AlreadyConnected,
    /// The session's queue is full; the sender has to wait.
    QueueFull,
}

/// Where an open session stands. A closed session leaves the table altogether.
#[derive(Clone, Copy, Debug, PartialEq, Eq, Structural)]
pub enum SessionStatus {
    /// The transport is being set up; messages may be queued but are not published yet.
    Connecting,
    /// Subscribed to the device; queued messages are published.
    Live,
}

/// One open session: the device it talks to and the client messages not yet published.
pub struct Session {
    device_id: String,
    status: SessionStatus,
    pending: Vec<String>,
}

pub struct SessionView {
    pub device_id: Seq<char>,
    pub status: SessionStatus,
    pub pending: Seq<Seq<char>>,
}

impl View for Session {
    type V = SessionView;

    closed spec fn view(&self) -> SessionView {
        SessionView {
            device_id: self.device_id@,
            status: self.status,
            pending: self.pending@.map_values(|p: String| p@),
        }
    }
}

/// What the transport needs to open a session to one device.
#[derive(Debug)]
pub struct ConnectPlan {
    pub dev_id: String,
    pub server_uri: String,
    pub user_name: String,
    pub password: String,
    pub report_topic: String,
    pub request_topic: String,
}

pub struct ConnectPlanView {
    pub dev_id: Seq<char>,
    pub server_uri: Seq<char>,
    pub user_name: Seq<char>,
    pub password: Seq<char>,
    pub report_topic: Seq<char>,
    pub request_topic: Seq<char>,
}

impl View for ConnectPlan {
    type V = ConnectPlanView;

    open spec fn view(&self) -> ConnectPlanView {
        ConnectPlanView {
            dev_id: self.dev_id@,
            server_uri: self.server_uri@,
            user_name: self.user_name@,
            password: self.password@,
            report_topic: self.report_topic@,
            request_topic: self.request_topic@,
        }
    }
}

pub open spec fn plan_of(p: PrinterView) -> ConnectPlanView {
    ConnectPlanView {
        dev_id: p.id,
        server_uri: server_uri(p.ip),
        user_name: device_user(),
        password: p.password,
        report_topic: report_topic(p.id),
        request_topic: request_topic(p.id),
    }
}

/// One command to publish to a device.
#[derive(Debug)]
pub struct Publish {
    pub topic: String,
    pub payload: String,
}

pub struct PublishView {
    pub topic: Seq<char>,
    pub payload: Seq<char>,
}

impl View for Publish {
    type V = PublishView;

    open spec fn view(&self) -> PublishView {
        PublishView { topic: self.topic@, payload: self.payload@ }
    }
}

/// The position of the session for `d`, or -1 where there is none.
pub open spec fn session_at(s: Seq<SessionView>, d: Seq<char>) -> int
    decreases s.len(),
{
    if s.len() == 0 {
        -1
    } else if s.last().device_id == d {
        s.len() - 1
    } else {
        session_at(s.drop_last(), d)
    }
}

pub open spec fn sessions_unique(s: Seq<SessionView>) -> bool {
    forall|i: int, j: int| 0 <= i < j < s.len() ==> s[i].device_id != s[j].device_id
}

pub open spec fn has_session(s: Seq<SessionView>, d: Seq<char>) -> bool {
    session_at(s, d) >= 0
}

/// The session table after a send, and the answer the sender gets.
pub open spec fn send_step(s: Seq<SessionView>, d: Seq<char>, p: Seq<char>) -> (
    Seq<SessionView>,
    Result<(), GatewayError>,
) {
    let i = session_at(s, d);
    if i < 0 {
        (s, Err(GatewayError::SessionNotFound))
    } else if s[i].pending.len() >= QUEUE_CAPACITY {
        (s, Err(GatewayError::QueueFull))
    } else {
        (s.update(i, SessionView { pending: s[i].pending.push(p), ..s[i] }), Ok(()))
    }
}

/// The session table after the publish loop of `d` takes its next message, and that message.
pub open spec fn publish_step(s: Seq<SessionView>, d: Seq<char>) -> (
    Seq<SessionView>,
    Option<PublishView>,
) {
    let i = session_at(s, d);
    if i < 0 || s[i].status != SessionStatus::Live || s[i].pending.len() == 0 {
        (s, None)
    } else {
        (
            s.update(i, SessionView { pending: s[i].pending.drop_first(), ..s[i] }),
            Some(PublishView { topic: request_topic(d), payload: s[i].pending[0] }),
        )
    }
}

proof fn lemma_session_at_bounds(s: Seq<SessionView>, d: Seq<char>)
    ensures
        -1 <= session_at(s, d) < s.len(),
        session_at(s, d) >= 0 ==> s[session_at(s, d)].device_id == d,
        session_at(s, d) < 0 ==> forall|k: int| 0 <= k < s.len() ==> s[k].device_id != d,
    decreases s.len(),
{
    if s.len() > 0 {
        lemma_session_at_bounds(s.drop_last(), d);
        if s.last().device_id != d {
            assert forall|k: int| 0 <= k < s.len() - 1 implies s[k] == s.drop_last()[k] by {}
        }
    }
}

proof fn lemma_session_at_unique(s: Seq<SessionView>, d: Seq<char>, i: int)
    requires
        sessions_unique(s),
        0 <= i < s.len(),
        s[i].device_id == d,
    ensures
        session_at(s, d) == i,
    decreases s.len(),
{
    if i < s.len() - 1 {
        assert(s.drop_last()[i] == s[i]);
        lemma_session_at_unique(s.drop_last(), d, i);
    }
}

proof fn lemma_session_at_update(s: Seq<SessionView>, d: Seq<char>, i: int, v: SessionView)
    requires
        0 <= i < s.len(),
        v.device_id == s[i].device_id,
    ensures
        session_at(s.update(i, v), d) == session_at(s, d),
        sessions_unique(s) ==> sessions_unique(s.update(i, v)),
    decreases s.len(),
{
    let u = s.update(i, v);
    if i < s.len() - 1 {
        assert(u.drop_last() =~= s.drop_last().update(i, v));
        lemma_session_at_update(s.drop_last(), d, i, v);
    } else {
        assert(u.drop_last() =~= s.drop_last());
    }
}


/// The session table after `ps` are sent to `d`, one after the other.
pub open spec fn send_all(s: Seq<SessionView>, d: Seq<char>, ps: Seq<Seq<char>>) -> Seq<SessionView>
    decreases ps.len(),
{
    if ps.len() == 0 {
        s
    } else {
        send_step(send_all(s, d, ps.drop_last()), d, ps.last()).0
    }
}

/// Whether every one of those sends was accepted.
pub open spec fn all_accepted(s: Seq<SessionView>, d: Seq<char>, ps: Seq<Seq<char>>) -> bool
    decreases ps.len(),
{
    ps.len() == 0 || (all_accepted(s, d, ps.drop_last()) && send_step(
        send_all(s, d, ps.drop_last()),
        d,
        ps.last(),
    ).1 is Ok)
}

/// The session table after the publish loop of `d` runs `n` times, and what it published.
pub open spec fn publish_all(s: Seq<SessionView>, d: Seq<char>, n: nat) -> (
    Seq<SessionView>,
    Seq<PublishView>,
)
    decreases n,
{
    if n == 0 {
        (s, Seq::empty())
    } else {
        let (s1, o) = publish_step(s, d);
        let (s2, rest) = publish_all(s1, d, (n - 1) as nat);
        match o {
            Some(m) => (s2, seq![m] + rest),
            None => (s2, rest),
        }
    }
}

/// The commands that carry `ps` to `d`.
pub open spec fn commands_for(d: Seq<char>, ps: Seq<Seq<char>>) -> Seq<PublishView> {
    ps.map_values(|p: Seq<char>| PublishView { topic: request_topic(d), payload: p })
}

proof fn lemma_send_all(s: Seq<SessionView>, d: Seq<char>, ps: Seq<Seq<char>>)
    requires
        sessions_unique(s),
        has_session(s, d),
        s[session_at(s, d)].pending.len() + ps.len() <= QUEUE_CAPACITY,
    ensures
        ({
            let i = session_at(s, d);
            let t = send_all(s, d, ps);
            &&& sessions_unique(t)
            &&& session_at(t, d) == i
            &&& t.len() == s.len()
            &&& t[i] == SessionView { pending: s[i].pending + ps, ..s[i] }
            &&& all_accepted(s, d, ps)
        }),
    decreases ps.len(),
{
    lemma_session_at_bounds(s, d);
    let i = session_at(s, d);
    if ps.len() == 0 {
        assert(s[i].pending + ps =~= s[i].pending);
    } else {
        let prev = ps.drop_last();
        lemma_send_all(s, d, prev);
        let t0 = send_all(s, d, prev);
        let v = SessionView { pending: t0[i].pending.push(ps.last()), ..t0[i] };
        lemma_session_at_update(t0, d, i, v);
        assert(s[i].pending + prev.push(ps.last()) =~= (s[i].pending + prev).push(ps.last()));
        assert(prev.push(ps.last()) =~= ps);
    }
}

proof fn lemma_publish_all(s: Seq<SessionView>, d: Seq<char>, n: nat)
    requires
        sessions_unique(s),
        has_session(s, d),
        s[session_at(s, d)].status == SessionStatus::Live,
        n <= s[session_at(s, d)].pending.len(),
    ensures
        ({
            let i = session_at(s, d);
            let (t, out) = publish_all(s, d, n);
            &&& sessions_unique(t)
            &&& session_at(t, d) == i
            &&& t[i] == SessionView { pending: s[i].pending.skip(n as int), ..s[i] }
            &&& out == commands_for(d, s[i].pending.take(n as int))
        }),
    decreases n,
{
    lemma_session_at_bounds(s, d);
    let i = session_at(s, d);
    let q = s[i].pending;
    if n == 0 {
        assert(q.skip(0) =~= q);
        assert(commands_for(d, q.take(0)) =~= Seq::<PublishView>::empty());
    } else {
        let v = SessionView { pending: q.drop_first(), ..s[i] };
        let s1 = s.update(i, v);
        lemma_session_at_update(s, d, i, v);
        lemma_publish_all(s1, d, (n - 1) as nat);
        let (t, rest) = publish_all(s1, d, (n - 1) as nat);
        assert(q.drop_first().skip(n - 1) =~= q.skip(n as int));
        let m = PublishView { topic: request_topic(d), payload: q[0] };
        assert(rest == commands_for(d, q.drop_first().take(n - 1)));
        assert(seq![m] + rest =~= commands_for(d, q.take(n as int)));
    }
}

/// Payloads sent to a live session with an empty queue are all accepted, as long as the queue
/// bound allows, and the publish loop then emits exactly one command per payload, each on the
/// device's command topic, in the order they were sent, leaving the queue empty.
pub proof fn lemma_sent_payloads_published_in_order(
    s: Seq<SessionView>,
    d: Seq<char>,
    ps: Seq<Seq<char>>,
)
    requires
        sessions_unique(s),
        has_session(s, d),
        s[session_at(s, d)].status == SessionStatus::Live,
        s[session_at(s, d)].pending.len() == 0,
        ps.len() <= QUEUE_CAPACITY,
    ensures
        all_accepted(s, d, ps),
        publish_all(send_all(s, d, ps), d, ps.len()).1 == commands_for(d, ps),
        has_session(publish_all(send_all(s, d, ps), d, ps.len()).0, d),
        publish_all(send_all(s, d, ps), d, ps.len()).0[session_at(s, d)].pending.len() == 0,
{
    lemma_send_all(s, d, ps);
    let i = session_at(s, d);
    let t = send_all(s, d, ps);
    assert(s[i].pending + ps =~= ps);
    lemma_publish_all(t, d, ps.len());
    assert(ps.take(ps.len() as int) =~= ps);
}

/// Sending to a device without a session is refused with `SessionNotFound`, leaves the table
/// as it was, and so gives the publish loop of that device nothing to emit.
pub proof fn lemma_send_without_session_publishes_nothing(
    s: Seq<SessionView>,
    d: Seq<char>,
    p: Seq<char>,
)
    requires
        !has_session(s, d),
    ensures
        send_step(s, d, p) == (s, Err::<(), GatewayError>(GatewayError::SessionNotFound)),
        publish_step(send_step(s, d, p).0, d).1 is None,
{
}


/// The table entry that a successful connect adds for `d`.
pub open spec fn connecting_session(d: Seq<char>) -> SessionView {
    SessionView { device_id: d, status: SessionStatus::Connecting, pending: Seq::empty() }
}

/// A successful connect registers the device's session before any transport exists, so a
/// second connect for the same device, made before the session is closed, finds it and is
/// refused with `AlreadyConnected` instead of opening a second publisher.
pub proof fn lemma_second_connect_finds_session(s: Seq<SessionView>, d: Seq<char>)
    requires
        !has_session(s, d),
    ensures
        has_session(s.push(connecting_session(d)), d),
        session_at(s.push(connecting_session(d)), d) == s.len(),
{
    assert(s.push(connecting_session(d)).drop_last() =~= s);
}

/// The gateway state: the fixed roster and the table of open sessions.
pub struct Farm {
    registry: Registry,
    sessions: Vec<Session>,
}

pub struct FarmView {
    pub roster: Seq<PrinterView>,
    pub sessions: Seq<SessionView>,
}

impl View for Farm {
    type V = FarmView;

    closed spec fn view(&self) -> FarmView {
        FarmView {
            roster: self.registry@,
            sessions: self.sessions@.map_values(|s: Session| s@),
        }
    }
}

impl Farm {
    /// Roster ids are unique, at most one session per device, and no queue beyond its bound.
    pub open spec fn wf(&self) -> bool {
        &&& ids_unique(self@.roster)
        &&& sessions_unique(self@.sessions)
        &&& forall|k: int| 0 <= k < self@.sessions.len()
            ==> (#[trigger] self@.sessions[k]).pending.len() <= QUEUE_CAPACITY
    }

    /// A gateway over a roster, with no session open.
    pub fn new(registry: Registry) -> (r: Farm)
        requires
            registry.wf(),
        ensures
            r.wf(),
            r@.roster == registry@,
            r@.sessions.len() == 0,
    {
        Farm { registry, sessions: Vec::new() }
    }

    fn find_session(&self, id: &str) -> (r: Option<usize>)
        requires
            self.wf(),
        ensures
            match r {
                Some(i) => i as int == session_at(self@.sessions, id@) && i < self@.sessions.len(),
                None => session_at(self@.sessions, id@) < 0,
            },
    {
        let key = String::from_str(id);
        let mut i: usize = 0;
        while i < self.sessions.len()
            invariant
                self.wf(),
                i <= self.sessions@.len(),
                key@ == id@,
                forall|k: int| 0 <= k < i ==> self@.sessions[k].device_id != id@,
            decreases self.sessions@.len() - i,
        {
            if self.sessions[i].device_id == key {
                proof {
                    lemma_session_at_unique(self@.sessions, id@, i as int);
                }
                return Some(i);
            }
            i = i + 1;
        }
        proof {
            lemma_session_at_bounds(self@.sessions, id@);
        }
        None
    }

    /// One emission of the printer enumeration: the whole roster.
    pub fn get_available_printers(&self) -> (r: Vec<PrinterOption>)
        ensures
            r@.len() == self@.roster.len(),
            forall|k: int| 0 <= k < r@.len() ==> r@[k]@ == options_of(self@.roster)[k],
    {
        self.registry.list()
    }

    /// A copy of the roster record of a device.
    pub fn lookup(&self, id: &str) -> (r: Option<Printer>)
        requires
            self.wf(),
        ensures
            match r {
                Some(p) => exists|i: int|
                    0 <= i < self@.roster.len() && self@.roster[i].id == id@ && p@
                        == self@.roster[i],
                None => !has_id(self@.roster, id@),
            },
    {
        self.registry.lookup(id)
    }


    /// Where the session of a device stands, or `None` where it has none.
    pub fn session_status(&self, dev_id: &str) -> (r: Option<SessionStatus>)
        requires
            self.wf(),
        ensures
            r is None <==> !has_session(self@.sessions, dev_id@),
            r is Some ==> r->0 == self@.sessions[session_at(self@.sessions, dev_id@)].status,
    {
        match self.find_session(dev_id) {
            None => None,
            Some(i) => Some(self.sessions[i].status),
        }
    }

    /// Opens a session for a roster device and says how to reach it. A device that already
    /// has a session is refused rather than given a second one.
    pub fn connect_printer(&mut self, dev_id: &str) -> (r: Result<ConnectPlan, GatewayError>)
        requires
            old(self).wf(),
        ensures
            final(self).wf(),
            final(self)@.roster == old(self)@.roster,
            !has_id(old(self)@.roster, dev_id@) ==> r == Err::<ConnectPlan, GatewayError>(
                GatewayError::NotFound,
            ) && final(self)@.sessions == old(self)@.sessions,
            has_id(old(self)@.roster, dev_id@) && has_session(old(self)@.sessions, dev_id@) ==> r
                == Err::<ConnectPlan, GatewayError>(GatewayError::AlreadyConnected)
                && final(self)@.sessions == old(self)@.sessions,
            has_id(old(self)@.roster, dev_id@) && !has_session(old(self)@.sessions, dev_id@) ==> {
                &&& r is Ok
                &&& exists|i: int|
                    0 <= i < old(self)@.roster.len() && old(self)@.roster[i].id == dev_id@
                        && r->Ok_0@ == plan_of(old(self)@.roster[i])
                &&& final(self)@.sessions == old(self)@.sessions.push(connecting_session(dev_id@))
            },
    {
        let printer = match self.registry.lookup(dev_id) {
            Some(p) => p,
            None => return Err(GatewayError::NotFound),
        };
        if self.find_session(dev_id).is_some() {
            return Err(GatewayError::AlreadyConnected);
        }
        let mut uri = String::from_str("mqtts://");
        uri.append(printer.ip.as_str());
        uri.append(":8883");
        let plan = ConnectPlan {
            dev_id: printer.id.clone(),
            server_uri: uri,
            user_name: String::from_str("bblp"),
            password: printer.password.clone(),
            report_topic: make_report_topic(printer.id.as_str()),
            request_topic: make_request_topic(printer.id.as_str()),
        };
        let ghost before = self@.sessions;
        let session = Session {
            device_id: String::from_str(dev_id),
            status: SessionStatus::Connecting,
            pending: Vec::new(),
        };
        proof {
            lemma_session_at_bounds(before, dev_id@);
            assert(session@.pending =~= Seq::<Seq<char>>::empty());
        }
        self.sessions.push(session);
        proof {
            assert(self@.sessions =~= before.push(session@));
        }
        Ok(plan)
    }

    /// Marks the session of a device live once its transport is up and subscribed.
    pub fn session_established(&mut self, dev_id: &str) -> (r: Result<(), GatewayError>)
        requires
            old(self).wf(),
        ensures
            final(self).wf(),
            final(self)@.roster == old(self)@.roster,
            ({
                let i = session_at(old(self)@.sessions, dev_id@);
                if i < 0 {
                    r == Err::<(), GatewayError>(GatewayError::SessionNotFound)
                        && final(self)@.sessions == old(self)@.sessions
                } else {
                    r is Ok && final(self)@.sessions == old(self)@.sessions.update(
                        i,
                        SessionView { status: SessionStatus::Live, ..old(self)@.sessions[i] },
                    )
                }
            }),
    {
        match self.find_session(dev_id) {
            None => Err(GatewayError::SessionNotFound),
            Some(i) => {
                let ghost before = self@.sessions;
                self.sessions[i].status = SessionStatus::Live;
                proof {
                    let v = SessionView { status: SessionStatus::Live, ..before[i as int] };
                    assert(self@.sessions =~= before.update(i as int, v));
                    lemma_session_at_update(before, dev_id@, i as int, v);
                }
                Ok(())
            },
        }
    }

    /// Retires the session of a device, if it has one; what it still held is dropped.
    pub fn close_session(&mut self, dev_id: &str) -> (r: bool)
        requires
            old(self).wf(),
        ensures
            final(self).wf(),
            final(self)@.roster == old(self)@.roster,
            r == has_session(old(self)@.sessions, dev_id@),
            r ==> final(self)@.sessions == old(self)@.sessions.remove(
                session_at(old(self)@.sessions, dev_id@),
            ),
            !r ==> final(self)@.sessions == old(self)@.sessions,
            !has_session(final(self)@.sessions, dev_id@),
    {
        match self.find_session(dev_id) {
            None => false,
            Some(i) => {
                let ghost before = self@.sessions;
                let _ = self.sessions.remove(i);
                proof {
                    lemma_session_at_bounds(before, dev_id@);
                    let after = before.remove(i as int);
                    assert(self@.sessions =~= after);
                    assert forall|a: int, b: int| 0 <= a < b < after.len() implies
                        after[a].device_id != after[b].device_id by {
                        let ia = if a < i { a } else { a + 1 };
                        let ib = if b < i { b } else { b + 1 };
                        assert(after[a] == before[ia]);
                        assert(after[b] == before[ib]);
                    }
                    assert forall|k: int| 0 <= k < after.len() implies
                        after[k].device_id != dev_id@ by {
                        let ik = if k < i { k } else { k + 1 };
                        assert(after[k] == before[ik]);
                    }
                    lemma_session_at_bounds(after, dev_id@);
                }
                true
            },
        }
    }

    /// Queues a client message for the session of a device.
    pub fn send_message(&mut self, dev_id: &str, payload: String) -> (r: Result<(), GatewayError>)
        requires
            old(self).wf(),
        ensures
            final(self).wf(),
            final(self)@.roster == old(self)@.roster,
            (final(self)@.sessions, r) == send_step(old(self)@.sessions, dev_id@, payload@),
    {
        match self.find_session(dev_id) {
            None => Err(GatewayError::SessionNotFound),
            Some(i) => {
                if self.sessions[i].pending.len() >= QUEUE_CAPACITY {
                    return Err(GatewayError::QueueFull);
                }
                let ghost before = self@.sessions;
                let ghost p = payload@;
                self.sessions[i].pending.push(payload);
                proof {
                    let v = SessionView { pending: before[i as int].pending.push(p), ..before[i as int] };
                    assert(self@.sessions[i as int].pending =~= v.pending);
                    assert(self@.sessions =~= before.update(i as int, v));
                    lemma_session_at_update(before, dev_id@, i as int, v);
                }
                Ok(())
            },
        }
    }

    /// Takes the oldest queued message of a live session, addressed to the device's command
    /// topic. `None` when the session is gone, not live yet, or has nothing queued.
    pub fn next_outgoing(&mut self, dev_id: &str) -> (r: Option<Publish>)
        requires
            old(self).wf(),
        ensures
            final(self).wf(),
            final(self)@.roster == old(self)@.roster,
            final(self)@.sessions == publish_step(old(self)@.sessions, dev_id@).0,
            match (r, publish_step(old(self)@.sessions, dev_id@).1) {
                (Some(m), Some(v)) => m@ == v,
                (None, None) => true,
                _ => false,
            },
    {
        match self.find_session(dev_id) {
            None => None,
            Some(i) => {
                if self.sessions[i].status != SessionStatus::Live || self.sessions[i].pending.len() == 0 {
                    return None;
                }
                let ghost before = self@.sessions;
                let payload = self.sessions[i].pending.remove(0);
                proof {
                    let v = SessionView { pending: before[i as int].pending.drop_first(), ..before[i as int] };
                    assert(self@.sessions[i as int].pending =~= v.pending);
                    assert(self@.sessions =~= before.update(i as int, v));
                    lemma_session_at_update(before, dev_id@, i as int, v);
                }
                Some(Publish { topic: make_request_topic(dev_id), payload })
            },
        }
    }

    /// Prepares an upload of `payload` to `remote_path` on a roster device. Uploads do not
    /// need an open session.
    pub fn upload_file(&self, dev_id: &str, payload: Vec<u8>, remote_path: String) -> (r: Result<
        UploadJob,
        GatewayError,
    >)
        requires
            self.wf(),
        ensures
            !has_id(self@.roster, dev_id@) ==> r == Err::<UploadJob, GatewayError>(
                GatewayError::NotFound,
            ),
            has_id(self@.roster, dev_id@) ==> {
                &&& r is Ok
                &&& exists|i: int|
                    0 <= i < self@.roster.len() && self@.roster[i].id == dev_id@
                        && r->Ok_0.spec_base() == transfer_base(self@.roster[i])
                &&& r->Ok_0.spec_dev_id() == dev_id@
                &&& r->Ok_0.spec_remote_path() == remote_path@
                &&& r->Ok_0.spec_payload() == payload@
                &&& r->Ok_0.spec_phase() == UploadPhase::Start
            },
    {
        match self.registry.lookup(dev_id) {
            None => Err(GatewayError::NotFound),
            Some(p) => Ok(
                UploadJob::new(dev_id, p.password.as_str(), p.ip.as_str(), payload, remote_path),
            ),
        }
    }
}

} // verus!
