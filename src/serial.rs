use std::collections::VecDeque;
use vstd::prelude::*;

verus! {

/// Whether the bridge still carries bytes to the device.
#[derive(PartialEq, Eq, Structural, Clone, Copy, Debug)]
pub enum LinkState {
    /// The pump runs and writes what is sent.
    Open,
    /// Closed by the session; nothing more is written.
    Closed,
    /// The device failed; the session is told on its next poll.
    Lost,
}

/// Why a call on the bridge could not be served.
#[derive(PartialEq, Eq, Structural, Clone, Copy, Debug)]
pub enum BridgeError {
    /// The bridge was closed.
    Closed,
    /// The device failed with an error other than "would block".
    LinkLost,
    /// The outbound queue is full.
    Busy,
}

/// What one non-blocking read from the device gave.
pub enum ReadOutcome {
    Data(Vec<u8>),
    WouldBlock,
    Failed,
}

/// What one non-blocking write to the device gave.
#[derive(PartialEq, Eq, Structural, Clone, Copy, Debug)]
pub enum WriteOutcome {
    Written(usize),
    WouldBlock,
    Failed,
}

/// The abstract state of a bridge: both queues front first, their bound, the link state.
pub struct SerialView {
    pub outbound: Seq<Seq<u8>>,
    pub inbound: Seq<Seq<u8>>,
    pub capacity: nat,
    pub state: LinkState,
}

/// The bridge between a session and the pump that owns the device: two
/// bounded queues of byte messages and the link state that stops the pump.
///
/// The queues are plain `VecDeque`s rather than an asynchronous channel: a
/// channel's two ends are drained and filled by different tasks, so no
/// contract on one end could say what the channel holds. Held here, every
/// step that fills or drains a queue is verified, and the caller shares the
/// whole bridge between the session and the pump behind one lock.
pub struct Serial {
    outbound: VecDeque<Vec<u8>>,
    inbound: VecDeque<Vec<u8>>,
    capacity: usize,
    state: LinkState,
}

/// The byte contents of each message, in order.
pub open spec fn messages(q: Seq<Vec<u8>>) -> Seq<Seq<u8>> {
    q.map_values(|m: Vec<u8>| m@)
}

impl SerialView {
    /// The bridge's invariant: queues within their bound, and nothing waits to
    /// be written once the link is no longer open.
    pub open spec fn wf(self) -> bool {
        &&& self.capacity > 0
        &&& self.outbound.len() <= self.capacity
        &&& self.inbound.len() <= self.capacity
        &&& self.state != LinkState::Open ==> self.outbound.len() == 0
    }

    /// What `send` returns.
    pub open spec fn send_result(self, bytes: Seq<u8>) -> Result<(), BridgeError> {
        match self.state {
            LinkState::Closed => Err(BridgeError::Closed),
            LinkState::Lost => Err(BridgeError::LinkLost),
            LinkState::Open => if self.outbound.len() >= self.capacity {
                Err(BridgeError::Busy)
            } else {
                Ok(())
            },
        }
    }

    /// The state after `send`.
    pub open spec fn after_send(self, bytes: Seq<u8>) -> SerialView {
        if self.send_result(bytes) is Ok {
            SerialView { outbound: self.outbound.push(bytes), ..self }
        } else {
            self
        }
    }

    /// The message that the pump is to write next, if any.
    pub open spec fn pending_write(self) -> Option<Seq<u8>> {
        if self.state == LinkState::Open && self.outbound.len() > 0 {
            Some(self.outbound[0])
        } else {
            None
        }
    }

    /// The state after the pump reports how writing the pending message went:
    /// a whole write retires it, a short write or a failure loses the link,
    /// "would block" keeps it for the next try.
    pub open spec fn after_write(self, outcome: WriteOutcome) -> SerialView {
        match self.pending_write() {
            None => self,
            Some(m) => match outcome {
                WriteOutcome::Written(n) => if n >= m.len() {
                    SerialView { outbound: self.outbound.drop_first(), ..self }
                } else {
                    self.lost()
                },
                WriteOutcome::WouldBlock => self,
                WriteOutcome::Failed => self.lost(),
            },
        }
    }

    /// The state once the device has failed; a closed bridge stays closed.
    pub open spec fn lost(self) -> SerialView {
        if self.state == LinkState::Closed {
            self
        } else {
            SerialView { outbound: Seq::empty(), state: LinkState::Lost, ..self }
        }
    }

    /// The state after `close`: closed, whatever it was, with nothing left to write.
    pub open spec fn closed(self) -> SerialView {
        SerialView { outbound: Seq::empty(), state: LinkState::Closed, ..self }
    }

    /// The state after `send` of each message of `sends`, first to last.
    pub open spec fn after_sends(self, sends: Seq<Seq<u8>>) -> SerialView
        decreases sends.len(),
    {
        if sends.len() == 0 {
            self
        } else {
            self.after_sends(sends.drop_last()).after_send(sends.last())
        }
    }

    /// Whether the pump can hand the session another message now.
    pub open spec fn has_room(self) -> bool {
        self.inbound.len() < self.capacity
    }
}

/// Two messages sent one after the other, before the pump writes either,
/// reach the device in the order they were sent.
pub proof fn lemma_writes_keep_order(v: SerialView, a: Seq<u8>, b: Seq<u8>, n: usize)
    requires
        v.wf(),
        v.state == LinkState::Open,
        v.outbound.len() == 0,
        v.capacity >= 2,
        n >= a.len(),
    ensures
        v.send_result(a) is Ok,
        v.after_send(a).send_result(b) is Ok,
        v.after_send(a).after_send(b).pending_write() == Some(a),
        v.after_send(a).after_send(b).after_write(WriteOutcome::Written(n)).pending_write() == Some(
            b,
        ),
{
    let w = v.after_send(a).after_send(b);
    assert(w.outbound =~= seq![a, b]);
    assert(w.after_write(WriteOutcome::Written(n)).outbound =~= seq![b]);
}

/// Once a bridge is closed, every later send fails as closed, and the pump
/// finds nothing to write, whatever the session tries to send.
pub proof fn lemma_closed_bridge_writes_nothing(v: SerialView, sends: Seq<Seq<u8>>, bytes: Seq<u8>)
    requires
        v.wf(),
    ensures
        v.closed().after_sends(sends).send_result(bytes) == Err::<(), BridgeError>(
            BridgeError::Closed,
        ),
        v.closed().after_sends(sends).pending_write() is None,
        v.closed().after_sends(sends) == v.closed(),
    decreases sends.len(),
{
    if sends.len() > 0 {
        lemma_closed_bridge_writes_nothing(v, sends.drop_last(), sends.last());
    }
}

/// A copy of `b`.
fn copy_bytes(b: &Vec<u8>) -> (r: Vec<u8>)
    ensures
        r@ == b@,
{
    let mut r: Vec<u8> = Vec::new();
    let mut i: usize = 0;
    while i < b.len()
        invariant
            i <= b.len(),
            r@ == b@.subrange(0, i as int),
        decreases b.len() - i,
    {
        r.push(b[i]);
        i = i + 1;
        assert(r@ =~= b@.subrange(0, i as int));
    }
    assert(r@ =~= b@);
    r
}

impl View for Serial {
    type V = SerialView;

    closed spec fn view(&self) -> SerialView {
        SerialView {
            outbound: messages(self.outbound@),
            inbound: messages(self.inbound@),
            capacity: self.capacity as nat,
            state: self.state,
        }
    }
}

/// Opens a bridge whose queues each hold at most `capacity` messages.
pub fn new(capacity: usize) -> (r: Serial)
    requires
        capacity > 0,
    ensures
        r@.wf(),
        r@.outbound == Seq::<Seq<u8>>::empty(),
        r@.inbound == Seq::<Seq<u8>>::empty(),
        r@.capacity == capacity,
        r@.state == LinkState::Open,
{
    let r = Serial {
        outbound: VecDeque::new(),
        inbound: VecDeque::new(),
        capacity,
        state: LinkState::Open,
    };
    assert(r@.outbound =~= Seq::<Seq<u8>>::empty());
    assert(r@.inbound =~= Seq::<Seq<u8>>::empty());
    r
}

impl Serial {
    /// The link state.
    pub fn state(&self) -> (r: LinkState)
        ensures
            r == self@.state,
    {
        self.state
    }

    /// Whether the pump is to go on: the bridge is neither closed nor lost.
    pub fn is_running(&self) -> (r: bool)
        ensures
            r == (self@.state == LinkState::Open),
    {
        self.state == LinkState::Open
    }

    /// Number of messages waiting to be written.
    pub fn outbound_len(&self) -> (r: usize)
        ensures
            r == self@.outbound.len(),
    {
        self.outbound.len()
    }

    /// Number of messages waiting for the session.
    pub fn inbound_len(&self) -> (r: usize)
        ensures
            r == self@.inbound.len(),
    {
        self.inbound.len()
    }

    /// Queues `bytes` for the device; refused, with nothing changed, when the
    /// bridge is closed, the link lost, or the queue full.
    pub fn send(&mut self, bytes: Vec<u8>) -> (r: Result<(), BridgeError>)
        requires
            old(self)@.wf(),
        ensures
            final(self)@.wf(),
            r == old(self)@.send_result(bytes@),
            final(self)@ == old(self)@.after_send(bytes@),
    {
        match self.state {
            LinkState::Closed => Err(BridgeError::Closed),
            LinkState::Lost => Err(BridgeError::LinkLost),
            LinkState::Open => {
                if self.outbound.len() >= self.capacity {
                    Err(BridgeError::Busy)
                } else {
                    let ghost b = bytes@;
                    self.outbound.push_back(bytes);
                    assert(self@.outbound =~= old(self)@.outbound.push(b));
                    Ok(())
                }
            },
        }
    }

    /// Takes the oldest message that the pump delivered. Once the inbound
    /// queue is empty, a lost link is reported; otherwise there is nothing yet.
    pub fn receive(&mut self) -> (r: Result<Option<Vec<u8>>, BridgeError>)
        requires
            old(self)@.wf(),
        ensures
            final(self)@.wf(),
            old(self)@.inbound.len() > 0 ==> (r matches Ok(Some(m)) && m@ == old(self)@.inbound[0]
                && final(self)@ == (SerialView {
                inbound: old(self)@.inbound.drop_first(),
                ..old(self)@
            })),
            old(self)@.inbound.len() == 0 ==> final(self)@ == old(self)@ && r == (if old(
                self,
            )@.state == LinkState::Lost {
                Err::<Option<Vec<u8>>, BridgeError>(BridgeError::LinkLost)
            } else {
                Ok(None)
            }),
    {
        match self.inbound.pop_front() {
            Some(m) => {
                assert(self@.inbound =~= old(self)@.inbound.drop_first());
                Ok(Some(m))
            },
            None => {
                if self.state == LinkState::Lost {
                    Err(BridgeError::LinkLost)
                } else {
                    Ok(None)
                }
            },
        }
    }

    /// Stops the pump: nothing queued or sent later reaches the device.
    pub fn close(&mut self)
        requires
            old(self)@.wf(),
        ensures
            final(self)@.wf(),
            final(self)@ == old(self)@.closed(),
    {
        self.outbound.clear();
        self.state = LinkState::Closed;
        assert(self@.outbound =~= Seq::<Seq<u8>>::empty());
    }

    /// Marks the link lost after a device error, dropping what waits to be
    /// written; a bridge already closed stays closed.
    pub fn fail(&mut self)
        requires
            old(self)@.wf(),
        ensures
            final(self)@.wf(),
            final(self)@ == old(self)@.lost(),
    {
        if self.state != LinkState::Closed {
            self.outbound.clear();
            self.state = LinkState::Lost;
            assert(self@.outbound =~= Seq::<Seq<u8>>::empty());
        }
    }

    /// Pump side: hands bytes read from the device to the session as one
    /// message, if the inbound queue has room; says whether it did.
    pub fn deliver(&mut self, bytes: Vec<u8>) -> (r: bool)
        requires
            old(self)@.wf(),
        ensures
            final(self)@.wf(),
            r == old(self)@.has_room(),
            r ==> final(self)@ == (SerialView {
                inbound: old(self)@.inbound.push(bytes@),
                ..old(self)@
            }),
            !r ==> final(self)@ == old(self)@,
    {
        if self.inbound.len() < self.capacity {
            let ghost b = bytes@;
            self.inbound.push_back(bytes);
            assert(self@.inbound =~= old(self)@.inbound.push(b));
            true
        } else {
            false
        }
    }

    /// Pump side: takes in the outcome of one read attempt. Data is delivered
    /// (if there is room, as `deliver` says), "would block" changes nothing,
    /// and a failure loses the link. Returns the data that found no room.
    pub fn on_read(&mut self, outcome: ReadOutcome) -> (r: Option<Vec<u8>>)
        requires
            old(self)@.wf(),
        ensures
            final(self)@.wf(),
            match outcome {
                ReadOutcome::Data(b) => if old(self)@.has_room() {
                    r is None && final(self)@ == (SerialView {
                        inbound: old(self)@.inbound.push(b@),
                        ..old(self)@
                    })
                } else {
                    r == Some(b) && final(self)@ == old(self)@
                },
                ReadOutcome::WouldBlock => r is None && final(self)@ == old(self)@,
                ReadOutcome::Failed => r is None && final(self)@ == old(self)@.lost(),
            },
    {
        match outcome {
            ReadOutcome::Data(b) => {
                if self.inbound.len() < self.capacity {
                    self.deliver(b);
                    None
                } else {
                    Some(b)
                }
            },
            ReadOutcome::WouldBlock => None,
            ReadOutcome::Failed => {
                self.fail();
                None
            },
        }
    }

    /// Pump side: a copy of the message to write next, the oldest one queued,
    /// while the link is open.
    pub fn next_write(&self) -> (r: Option<Vec<u8>>)
        requires
            self@.wf(),
        ensures
            match r {
                Some(m) => self@.pending_write() == Some(m@),
                None => self@.pending_write() is None,
            },
    {
        if self.state == LinkState::Open && self.outbound.len() > 0 {
            Some(copy_bytes(&self.outbound[0]))
        } else {
            None
        }
    }

    /// Pump side: takes in the outcome of writing the message that
    /// `next_write` gave.
    pub fn on_write(&mut self, outcome: WriteOutcome)
        requires
            old(self)@.wf(),
        ensures
            final(self)@.wf(),
            final(self)@ == old(self)@.after_write(outcome),
    {
        if self.state == LinkState::Open && self.outbound.len() > 0 {
            let len = self.outbound[0].len();
            match outcome {
                WriteOutcome::Written(n) => {
                    if n >= len {
                        self.outbound.pop_front();
                        assert(self@.outbound =~= old(self)@.outbound.drop_first());
                    } else {
                        self.fail();
                    }
                },
                WriteOutcome::WouldBlock => {},
                WriteOutcome::Failed => {
                    self.fail();
                },
            }
        }
    }
}

} // verus!
