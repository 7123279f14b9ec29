//! What holds of every binding, stated over its model.

use vstd::prelude::*;
use crate::address::SocketAddress;
use crate::binding::{BindingModel, BindingState, Timestamp, Transmit, REFRESH_INTERVAL_NANOS};
use crate::codec::is_binding_request;

verus! {

/// A new binding has no address, and hands out one datagram, for its server,
/// before it has nothing more to send.
pub proof fn lemma_initial_binding(server: SocketAddress, request: Vec<u8>)
    ensures
        BindingModel::initial(server, request).public_address() is None,
        BindingModel::initial(server, request).deadline() is None,
        BindingModel::initial(server, request).next_transmit() == Some(
            Transmit { dst: server, payload: request },
        ),
        BindingModel::initial(server, request).after_poll().next_transmit() is None,
{
}

/// While a request is outstanding the binding asks for no deadline, and is
/// not moved by the passage of time.
pub proof fn lemma_awaiting_has_no_deadline(binding: BindingModel, now: Timestamp, request: Vec<u8>)
    requires
        binding.state is Awaiting,
    ensures
        binding.deadline() is None,
        binding.after_timeout(now, request) == binding,
{
}

/// A response confirms the address it reports and stamps the binding with
/// the time it came, whatever stood before; what waits to be sent is left
/// alone.
pub proof fn lemma_response_confirms(binding: BindingModel, address: SocketAddress, now: Timestamp)
    ensures
        binding.after_response(Some(address), now).state == (BindingState::Bound {
            address,
            at: now,
        }),
        binding.after_response(Some(address), now).public_address() == Some(address),
        binding.after_response(Some(address), now).deadline() == Some(now.refresh_deadline()),
        binding.after_response(Some(address), now).pending == binding.pending,
        binding.after_response(Some(address), now).server == binding.server,
{
}

/// A second response with the same address keeps the address and moves the
/// time of confirmation to that of the second.
pub proof fn lemma_confirmation_is_idempotent(
    binding: BindingModel,
    address: SocketAddress,
    first: Timestamp,
    second: Timestamp,
)
    ensures
        binding.after_response(Some(address), first).after_response(
            Some(address),
            second,
        ).public_address() == Some(address),
        binding.after_response(Some(address), first).after_response(Some(address), second).state
            == (BindingState::Bound { address, at: second }),
        binding.after_response(Some(address), first).after_response(Some(address), second)
            == binding.after_response(Some(address), second),
{
}

/// Once the refresh interval has gone by since the confirmation, being told
/// of the time makes a binding give up its address and put one request for
/// its server ahead of what waited. A binding that had nothing to send hands
/// out that request, then nothing.
pub proof fn lemma_refresh_sends_one_request(
    binding: BindingModel,
    address: SocketAddress,
    at: Timestamp,
    now: Timestamp,
    request: Vec<u8>,
)
    requires
        binding.state == (BindingState::Bound { address, at }),
        now.nanos >= at.nanos + REFRESH_INTERVAL_NANOS,
    ensures
        binding.refresh_due(now),
        binding.after_timeout(now, request).state is Awaiting,
        binding.after_timeout(now, request).public_address() is None,
        binding.after_timeout(now, request).deadline() is None,
        binding.after_timeout(now, request).next_transmit() == Some(
            Transmit { dst: binding.server, payload: request },
        ),
        binding.after_timeout(now, request).after_poll() == (BindingModel {
            state: BindingState::Awaiting,
            ..binding
        }),
        binding.pending.len() == 0 ==> binding.after_timeout(
            now,
            request,
        ).after_poll().next_transmit() is None,
{
    let refreshed = binding.after_timeout(now, request);
    assert(refreshed.pending.len() == binding.pending.len() + 1);
    assert(refreshed.after_poll().pending =~= binding.pending);
}

/// Before the refresh interval has gone by since the confirmation, being
/// told of the time changes nothing.
pub proof fn lemma_no_early_refresh(
    binding: BindingModel,
    address: SocketAddress,
    at: Timestamp,
    now: Timestamp,
    request: Vec<u8>,
)
    requires
        binding.state == (BindingState::Bound { address, at }),
        now.nanos < at.nanos + REFRESH_INTERVAL_NANOS,
    ensures
        !binding.refresh_due(now),
        binding.after_timeout(now, request) == binding,
{
}

/// The deadline of a confirmed binding is the first instant at which a
/// refresh is due, as long as that instant can be told.
pub proof fn lemma_deadline_is_first_due(
    binding: BindingModel,
    address: SocketAddress,
    at: Timestamp,
    now: Timestamp,
)
    requires
        binding.state == (BindingState::Bound { address, at }),
        at.nanos + REFRESH_INTERVAL_NANOS <= u64::MAX,
    ensures
        binding.deadline() matches Some(deadline) && binding.refresh_due(deadline),
        binding.refresh_due(now) <==> now.nanos >= binding.deadline().unwrap().nanos,
{
}

/// A request is put in line only where a confirmed binding goes back to
/// waiting for an answer: a response adds nothing to send, and neither does
/// the passage of time unless a refresh is due.
pub proof fn lemma_request_only_on_refresh(
    binding: BindingModel,
    response: Option<SocketAddress>,
    now: Timestamp,
    request: Vec<u8>,
)
    ensures
        binding.after_response(response, now).pending == binding.pending,
        binding.after_timeout(now, request).pending != binding.pending ==> binding.state is Bound
            && binding.after_timeout(now, request).state is Awaiting,
        binding.after_timeout(now, request).pending.len() <= binding.pending.len() + 1,
{
}

/// Every transition keeps each waiting datagram a binding request for the
/// server, and what is handed out is one.
pub proof fn lemma_transitions_keep_wf(
    binding: BindingModel,
    response: Option<SocketAddress>,
    now: Timestamp,
    request: Vec<u8>,
)
    requires
        binding.wf(),
        is_binding_request(request@),
    ensures
        binding.after_response(response, now).wf(),
        binding.after_refresh(request).wf(),
        binding.after_timeout(now, request).wf(),
        binding.after_poll().wf(),
        binding.next_transmit() matches Some(transmit) ==> transmit.dst == binding.server
            && is_binding_request(transmit.payload@),
{
    binding.lemma_refresh_keeps_wf(request);
    binding.lemma_poll_keeps_wf();
}

} // verus!
