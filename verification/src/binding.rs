//! The binding state machine.
//!
//! The machine is driven from outside: the caller drains `poll_transmit` and
//! sends what it yields, waits for a datagram or for the deadline of
//! `poll_timeout`, and feeds whichever came first to `handle_input` or
//! `handle_timeout`.

use std::collections::VecDeque;
use vstd::prelude::*;
use crate::address::SocketAddress;
use crate::codec::{is_binding_request, make_binding_request, parse_binding_response, response_address};

verus! {

/// Nanoseconds after which a confirmed binding is probed again.
pub const REFRESH_INTERVAL_NANOS: u64 = 5_000_000_000;

/// A point in time: nanoseconds since an origin that the caller picks once.
#[derive(Clone, Copy, Debug, PartialEq, Eq, Hash)]
pub struct Timestamp {
    pub nanos: u64,
}

impl Timestamp {
    /// The instant one refresh interval after this one, or the last instant
    /// that can be told where that one cannot.
    pub open spec fn refresh_deadline(self) -> Timestamp {
        if self.nanos + REFRESH_INTERVAL_NANOS <= u64::MAX {
            Timestamp { nanos: (self.nanos + REFRESH_INTERVAL_NANOS) as u64 }
        } else {
            Timestamp { nanos: u64::MAX }
        }
    }
}

/// A datagram for the caller to send.
#[derive(Debug, PartialEq, Eq)]
pub struct Transmit {
    pub dst: SocketAddress,
    pub payload: Vec<u8>,
}

/// Where a binding stands.
#[derive(Clone, Copy, Debug, PartialEq, Eq)]
pub enum BindingState {
    /// A request is outstanding and no response to it has come.
    Awaiting,
    /// The server reported `address`; the report came at `at`.
    Bound { address: SocketAddress, at: Timestamp },
}

/// What a binding is, for the purpose of its contracts.
pub struct BindingModel {
    pub server: SocketAddress,
    pub state: BindingState,
    pub pending: Seq<Transmit>,
}

impl BindingModel {
    /// Every datagram that waits to be sent is a binding request for the
    /// server.
    pub open spec fn wf(self) -> bool {
        forall|i: int|
            0 <= i < self.pending.len() ==> {
                &&& (#[trigger] self.pending[i]).dst == self.server
                &&& is_binding_request(self.pending[i].payload@)
            }
    }

    /// A new binding for `server`, with `request` waiting to be sent.
    pub open spec fn initial(server: SocketAddress, request: Vec<u8>) -> BindingModel {
        BindingModel {
            server,
            state: BindingState::Awaiting,
            pending: seq![Transmit { dst: server, payload: request }],
        }
    }

    /// The address that the server reported, while the report stands.
    pub open spec fn public_address(self) -> Option<SocketAddress> {
        match self.state {
            BindingState::Awaiting => None,
            BindingState::Bound { address, .. } => Some(address),
        }
    }

    /// The instant at which the binding wants to be told of the time.
    pub open spec fn deadline(self) -> Option<Timestamp> {
        match self.state {
            BindingState::Awaiting => None,
            BindingState::Bound { at, .. } => Some(at.refresh_deadline()),
        }
    }

    /// Whether at `now` the binding is confirmed and a full refresh interval
    /// has gone by since.
    pub open spec fn refresh_due(self, now: Timestamp) -> bool {
        match self.state {
            BindingState::Awaiting => false,
            BindingState::Bound { at, .. } => now.nanos - at.nanos >= REFRESH_INTERVAL_NANOS,
        }
    }

    /// The binding after a datagram that reports `response`, received at
    /// `now`. A datagram that reports nothing changes nothing.
    pub open spec fn after_response(
        self,
        response: Option<SocketAddress>,
        now: Timestamp,
    ) -> BindingModel {
        match response {
            Some(address) => BindingModel {
                state: BindingState::Bound { address, at: now },
                ..self
            },
            None => self,
        }
    }

    /// The binding after it gave up its address and put `request` ahead of
    /// all that waits to be sent.
    pub open spec fn after_refresh(self, request: Vec<u8>) -> BindingModel {
        BindingModel {
            state: BindingState::Awaiting,
            pending: seq![Transmit { dst: self.server, payload: request }] + self.pending,
            ..self
        }
    }

    /// The binding after it was told that the time is `now`, where `request`
    /// is the probe that it sends if a refresh is due.
    pub open spec fn after_timeout(self, now: Timestamp, request: Vec<u8>) -> BindingModel {
        if self.refresh_due(now) {
            self.after_refresh(request)
        } else {
            self
        }
    }

    /// The datagram that is sent next, if any waits.
    pub open spec fn next_transmit(self) -> Option<Transmit> {
        if self.pending.len() > 0 {
            Some(self.pending[0])
        } else {
            None
        }
    }

    /// The binding after the next datagram was taken from it.
    pub open spec fn after_poll(self) -> BindingModel {
        if self.pending.len() > 0 {
            BindingModel { pending: self.pending.subrange(1, self.pending.len() as int), ..self }
        } else {
            self
        }
    }

    /// The datagram that is handed out is a binding request for the server,
    /// and so is each that stays behind.
    pub proof fn lemma_poll_keeps_wf(self)
        requires
            self.wf(),
        ensures
            self.after_poll().wf(),
            self.next_transmit() matches Some(transmit) ==> transmit.dst == self.server
                && is_binding_request(transmit.payload@),
    {
        let polled = self.after_poll();
        assert forall|i: int| 0 <= i < polled.pending.len() implies {
            &&& (#[trigger] polled.pending[i]).dst == polled.server
            &&& is_binding_request(polled.pending[i].payload@)
        } by {
            if self.pending.len() > 0 {
                assert(polled.pending[i] == self.pending[i + 1]);
            }
        }
    }

    /// A refresh with a binding request leaves nothing but binding requests
    /// for the server in line.
    pub proof fn lemma_refresh_keeps_wf(self, request: Vec<u8>)
        requires
            self.wf(),
            is_binding_request(request@),
        ensures
            self.after_refresh(request).wf(),
    {
        let refreshed = self.after_refresh(request);
        assert forall|i: int| 0 <= i < refreshed.pending.len() implies {
            &&& (#[trigger] refreshed.pending[i]).dst == refreshed.server
            &&& is_binding_request(refreshed.pending[i].payload@)
        } by {
            if i > 0 {
                assert(refreshed.pending[i] == self.pending[i - 1]);
            }
        }
    }
}

/// A STUN binding to one server.
pub struct StunBinding {
    server: SocketAddress,
    state: BindingState,
    buffered_transmits: VecDeque<Transmit>,
}

impl View for StunBinding {
    type V = BindingModel;

    closed spec fn view(&self) -> BindingModel {
        BindingModel {
            server: self.server,
            state: self.state,
            pending: self.buffered_transmits@,
        }
    }
}

impl StunBinding {
    /// Holds of every binding at all times: what waits to be sent is made of
    /// binding requests for the server.
    #[verifier::type_invariant]
    spec fn well_formed(self) -> bool {
        self@.wf()
    }

    /// A binding for `server` whose first datagram is `request`.
    pub fn with_request(server: SocketAddress, request: Vec<u8>) -> (binding: Self)
        requires
            is_binding_request(request@),
        ensures
            binding@ == BindingModel::initial(server, request),
            binding@.wf(),
    {
        let mut buffered_transmits = VecDeque::new();
        buffered_transmits.push_back(Transmit { dst: server, payload: request });
        proof {
            assert(buffered_transmits@ =~= BindingModel::initial(server, request).pending);
        }
        StunBinding { server, state: BindingState::Awaiting, buffered_transmits }
    }

    /// A binding for `server`, with one fresh request waiting to be sent.
    pub fn new(server: SocketAddress) -> (binding: Self)
        ensures
            binding@.wf(),
            binding@.pending.len() == 1,
            binding@ == BindingModel::initial(server, binding@.pending[0].payload),
    {
        Self::with_request(server, make_binding_request())
    }

    /// Takes the next datagram to send, oldest first but for refresh probes,
    /// which go ahead of all others.
    pub fn poll_transmit(&mut self) -> (transmit: Option<Transmit>)
        ensures
            transmit == old(self)@.next_transmit(),
            final(self)@ == old(self)@.after_poll(),
            final(self)@.wf(),
            transmit matches Some(request) ==> request.dst == old(self)@.server
                && is_binding_request(request.payload@),
    {
        proof {
            use_type_invariant(&*self);
        }
        // The queue changes outside the binding and is put back whole.
        let mut queue = VecDeque::new();
        std::mem::swap(&mut self.buffered_transmits, &mut queue);
        let transmit = queue.pop_front();
        proof {
            assert(queue@ =~= old(self)@.after_poll().pending);
            old(self)@.lemma_poll_keeps_wf();
        }
        std::mem::swap(&mut self.buffered_transmits, &mut queue);
        transmit
    }

    /// Records what a received datagram reported: with an address the
    /// binding is confirmed as of `now`, without one nothing changes.
    pub fn handle_response(&mut self, response: Option<SocketAddress>, now: Timestamp)
        ensures
            final(self)@ == old(self)@.after_response(response, now),
            final(self)@.wf(),
    {
        proof {
            use_type_invariant(&*self);
        }
        match response {
            Some(address) => {
                self.state = BindingState::Bound { address, at: now };
            },
            None => {},
        }
    }

    /// Feeds the binding a datagram that arrived at `now`.
    ///
    /// A datagram that is longer than any UDP datagram, that the codec cannot
    /// read, that is no success response of method Binding, or that reports
    /// no mapped address, is dropped. The
    /// transaction identifier of a response is not held against that of the
    /// request.
    pub fn handle_input(&mut self, packet: &[u8], now: Timestamp)
        ensures
            final(self)@ == old(self)@.after_response(response_address(packet@), now),
            final(self)@.wf(),
    {
        let response = parse_binding_response(packet);
        self.handle_response(response, now);
    }

    /// Whether a refresh is due at `now`.
    pub fn refresh_due(&self, now: Timestamp) -> (due: bool)
        ensures
            due == self@.refresh_due(now),
    {
        match self.state {
            BindingState::Awaiting => false,
            BindingState::Bound { at, .. } => now.nanos >= at.nanos && now.nanos - at.nanos
                >= REFRESH_INTERVAL_NANOS,
        }
    }

    /// Gives up the address and puts `request` ahead of all that waits to be
    /// sent.
    pub fn refresh_with(&mut self, request: Vec<u8>)
        requires
            is_binding_request(request@),
        ensures
            final(self)@ == old(self)@.after_refresh(request),
            final(self)@.wf(),
    {
        proof {
            use_type_invariant(&*self);
        }
        // The queue changes outside the binding and is put back whole.
        let mut queue = VecDeque::new();
        std::mem::swap(&mut self.buffered_transmits, &mut queue);
        queue.push_front(Transmit { dst: self.server, payload: request });
        proof {
            assert(queue@ =~= old(self)@.after_refresh(request).pending);
            old(self)@.lemma_refresh_keeps_wf(request);
        }
        std::mem::swap(&mut self.buffered_transmits, &mut queue);
        self.state = BindingState::Awaiting;
    }

    /// Tells the binding that the time is `now`.
    ///
    /// Where the binding is confirmed and the refresh interval has gone by,
    /// it gives up its address and sends a fresh request, ahead of all that
    /// waits; otherwise nothing changes.
    pub fn handle_timeout(&mut self, now: Timestamp)
        ensures
            old(self)@.refresh_due(now) ==> is_binding_request(final(self)@.pending[0].payload@),
            final(self)@ == old(self)@.after_timeout(now, final(self)@.pending[0].payload),
            final(self)@.wf(),
    {
        proof {
            use_type_invariant(&*self);
        }
        if self.refresh_due(now) {
            self.refresh_with(make_binding_request());
        }
    }

    /// The instant at which `handle_timeout` next wants to be called: none
    /// while a request is outstanding, else one refresh interval after the
    /// last confirmation.
    pub fn poll_timeout(&self) -> (deadline: Option<Timestamp>)
        ensures
            deadline == self@.deadline(),
    {
        match self.state {
            BindingState::Awaiting => None,
            BindingState::Bound { at, .. } => {
                let nanos: u64 = if at.nanos <= u64::MAX - REFRESH_INTERVAL_NANOS {
                    at.nanos + REFRESH_INTERVAL_NANOS
                } else {
                    u64::MAX
                };
                Some(Timestamp { nanos })
            },
        }
    }

    /// The address that the server reported, while the report stands.
    pub fn public_address(&self) -> (address: Option<SocketAddress>)
        ensures
            address == self@.public_address(),
    {
        match self.state {
            BindingState::Awaiting => None,
            BindingState::Bound { address, .. } => Some(address),
        }
    }
}

} // verus!
