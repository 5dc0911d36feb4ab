use vstd::prelude::*;

verus! {

/// Seconds the device-to-client loop waits after a failed receive before it polls again.
pub const RETRY_DELAY_SECS: u64 = 10;

/// What the device side of a session produced.
#[derive(Debug)]
pub enum DeviceEvent {
    /// A status message from the device.
    Message(String),
    /// One receive failed; the subscription may still deliver.
    ReceiveFailed,
    /// The transport reported that the subscription has ended.
    StreamEnd,
}

pub enum DeviceEventView {
    Message(Seq<char>),
    ReceiveFailed,
    StreamEnd,
}

impl View for DeviceEvent {
    type V = DeviceEventView;

    open spec fn view(&self) -> DeviceEventView {
        match self {
            DeviceEvent::Message(p) => DeviceEventView::Message(p@),
            DeviceEvent::ReceiveFailed => DeviceEventView::ReceiveFailed,
            DeviceEvent::StreamEnd => DeviceEventView::StreamEnd,
        }
    }
}

/// A message for the client: device data, or with `connected == false` the end of the session.
#[derive(Debug)]
pub struct RecvMessage {
    pub connected: bool,
    pub dev_id: String,
    pub data: String,
}

pub struct RecvMessageView {
    pub connected: bool,
    pub dev_id: Seq<char>,
    pub data: Seq<char>,
}

impl View for RecvMessage {
    type V = RecvMessageView;

    open spec fn view(&self) -> RecvMessageView {
        RecvMessageView { connected: self.connected, dev_id: self.dev_id@, data: self.data@ }
    }
}

/// The message that tells a client its session with `d` is over.
pub open spec fn sentinel(d: Seq<char>) -> RecvMessageView {
    RecvMessageView { connected: false, dev_id: d, data: Seq::empty() }
}

/// One step of the device-to-client loop: whether it is closed afterwards, and what it
/// hands the client.
pub open spec fn relay_step(closed: bool, d: Seq<char>, ev: DeviceEventView) -> (
    bool,
    Option<RecvMessageView>,
) {
    if closed {
        (true, None)
    } else {
        match ev {
            DeviceEventView::Message(p) => (
                false,
                Some(RecvMessageView { connected: true, dev_id: d, data: p }),
            ),
            DeviceEventView::ReceiveFailed => (false, None),
            DeviceEventView::StreamEnd => (true, Some(sentinel(d))),
        }
    }
}

/// Whether the loop is closed after the events `evs`.
pub open spec fn relay_closed(closed: bool, d: Seq<char>, evs: Seq<DeviceEventView>) -> bool
    decreases evs.len(),
{
    if evs.len() == 0 {
        closed
    } else {
        relay_step(relay_closed(closed, d, evs.drop_last()), d, evs.last()).0
    }
}

/// Everything the loop hands the client over the events `evs`.
pub open spec fn relay_output(closed: bool, d: Seq<char>, evs: Seq<DeviceEventView>) -> Seq<
    RecvMessageView,
>
    decreases evs.len(),
{
    if evs.len() == 0 {
        Seq::empty()
    } else {
        let prev = relay_output(closed, d, evs.drop_last());
        match relay_step(relay_closed(closed, d, evs.drop_last()), d, evs.last()).1 {
            Some(m) => prev.push(m),
            None => prev,
        }
    }
}

pub open spec fn has_end(evs: Seq<DeviceEventView>) -> bool {
    exists|k: int| 0 <= k < evs.len() && evs[k] is StreamEnd
}

/// The device-to-client half of one session.
pub struct DeviceRelay {
    dev_id: String,
    closed: bool,
}

impl DeviceRelay {
    pub closed spec fn spec_dev_id(&self) -> Seq<char> {
        self.dev_id@
    }

    pub closed spec fn spec_closed(&self) -> bool {
        self.closed
    }

    /// A live relay for one device.
    pub fn new(dev_id: &str) -> (r: DeviceRelay)
        ensures
            r.spec_dev_id() == dev_id@,
            !r.spec_closed(),
    {
        DeviceRelay { dev_id: String::from_str(dev_id), closed: false }
    }

    pub fn is_closed(&self) -> (r: bool)
        ensures
            r == self.spec_closed(),
    {
        self.closed
    }

    /// Takes one device event and says what to hand the client, if anything.
    pub fn on_event(&mut self, ev: DeviceEvent) -> (r: Option<RecvMessage>)
        ensures
            final(self).spec_dev_id() == old(self).spec_dev_id(),
            final(self).spec_closed() == relay_step(
                old(self).spec_closed(),
                old(self).spec_dev_id(),
                ev@,
            ).0,
            match (r, relay_step(old(self).spec_closed(), old(self).spec_dev_id(), ev@).1) {
                (Some(m), Some(v)) => m@ == v,
                (None, None) => true,
                _ => false,
            },
    {
        if self.closed {
            return None;
        }
        match ev {
            DeviceEvent::Message(data) => Some(
                RecvMessage { connected: true, dev_id: self.dev_id.clone(), data },
            ),
            DeviceEvent::ReceiveFailed => None,
            DeviceEvent::StreamEnd => {
                self.closed = true;
                Some(RecvMessage { connected: false, dev_id: self.dev_id.clone(), data: String::new() })
            },
        }
    }
}

proof fn lemma_open_run(d: Seq<char>, evs: Seq<DeviceEventView>)
    requires
        !has_end(evs),
    ensures
        !relay_closed(false, d, evs),
        forall|j: int|
            0 <= j < relay_output(false, d, evs).len() ==> (#[trigger] relay_output(
                false,
                d,
                evs,
            )[j]).connected && relay_output(false, d, evs)[j].dev_id == d,
    decreases evs.len(),
{
    if evs.len() > 0 {
        let prev = evs.drop_last();
        assert(!has_end(prev)) by {
            if has_end(prev) {
                let k = choose|k: int| 0 <= k < prev.len() && prev[k] is StreamEnd;
                assert(evs[k] == prev[k]);
            }
        }
        lemma_open_run(d, prev);
        assert(!(evs[evs.len() - 1] is StreamEnd));
        let po = relay_output(false, d, prev);
        let o = relay_output(false, d, evs);
        assert forall|j: int| 0 <= j < o.len() implies (#[trigger] o[j]).connected && o[j].dev_id
            == d by {
            if j < po.len() {
                assert(o[j] == po[j]);
            }
        }
    }
}

proof fn lemma_end_closes(d: Seq<char>, evs: Seq<DeviceEventView>)
    requires
        has_end(evs),
    ensures
        relay_closed(false, d, evs),
    decreases evs.len(),
{
    let prev = evs.drop_last();
    if has_end(prev) {
        lemma_end_closes(d, prev);
    } else {
        let k = choose|k: int| 0 <= k < evs.len() && evs[k] is StreamEnd;
        if k < evs.len() - 1 {
            assert(prev[k] == evs[k]);
        }
    }
}

/// Once the device side ends, the client gets exactly one end-of-session message for the
/// device, it is the last thing the client gets, and every message before it is device data.
pub proof fn lemma_stream_end_yields_one_sentinel(d: Seq<char>, evs: Seq<DeviceEventView>)
    requires
        has_end(evs),
    ensures
        relay_output(false, d, evs).len() > 0,
        relay_output(false, d, evs).last() == sentinel(d),
        forall|j: int|
            0 <= j < relay_output(false, d, evs).len() - 1 ==> (#[trigger] relay_output(
                false,
                d,
                evs,
            )[j]).connected,
    decreases evs.len(),
{
    let prev = evs.drop_last();
    let po = relay_output(false, d, prev);
    let o = relay_output(false, d, evs);
    if has_end(prev) {
        lemma_stream_end_yields_one_sentinel(d, prev);
        lemma_end_closes(d, prev);
        assert(o == po);
    } else {
        lemma_open_run(d, prev);
        assert forall|j: int| 0 <= j < o.len() - 1 implies (#[trigger] o[j]).connected by {
            assert(o[j] == po[j]);
        }
        let k = choose|k: int| 0 <= k < evs.len() && evs[k] is StreamEnd;
        if k < evs.len() - 1 {
            assert(prev[k] == evs[k]);
        }
    }
}

} // verus!
