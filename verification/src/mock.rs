//! Native stand-ins for contracts, and how their answers become call results.

use std::sync::Arc;
use vstd::prelude::*;

use crate::account::AccountId;
use crate::contract_api::{
    ContractExecResult, ContractResult, Event, ExecReturnValue, ReturnFlags, StorageDeposit, Weight,
};

verus! {

/// What a mock answers to one call.
#[derive(Debug, PartialEq, Eq)]
pub struct MockReply {
    /// The bytes returned, or, as the error, the reason for which the mock reverts.
    pub outcome: Result<Vec<u8>, Vec<u8>>,
    /// The payloads of the events that the mock emits, in order.
    pub events: Vec<Vec<u8>>,
}

/// A [`MockReply`] as plain sequences.
pub struct MockReplyView {
    pub outcome: Result<Seq<u8>, Seq<u8>>,
    pub events: Seq<Seq<u8>>,
}

impl View for MockReply {
    type V = MockReplyView;

    open spec fn view(&self) -> MockReplyView {
        MockReplyView {
            outcome: match self.outcome {
                Ok(output) => Ok(output@),
                Err(reason) => Err(reason@),
            },
            events: Seq::new(self.events@.len(), |i: int| self.events@[i]@),
        }
    }
}

impl MockReply {
    /// A successful answer that returns `output` and emits nothing.
    pub fn returning(output: Vec<u8>) -> (reply: MockReply)
        ensures
            reply@ == (MockReplyView { outcome: Ok(output@), events: Seq::empty() }),
    {
        let reply = MockReply { outcome: Ok(output), events: Vec::new() };
        assert(reply@.events =~= Seq::empty());
        reply
    }

    /// A failing answer that reverts with `reason`.
    pub fn reverting(reason: Vec<u8>) -> (reply: MockReply)
        ensures
            reply@ == (MockReplyView { outcome: Err(reason@), events: Seq::empty() }),
    {
        let reply = MockReply { outcome: Err(reason), events: Vec::new() };
        assert(reply@.events =~= Seq::empty());
        reply
    }
}

/// An [`Event`] as plain sequences.
pub enum EventView {
    Instantiated { deployer: AccountId, contract: AccountId },
    Called { caller: AccountId, contract: AccountId },
    ContractEmitted { contract: AccountId, data: Seq<u8> },
    Other(Seq<u8>),
}

impl View for Event {
    type V = EventView;

    open spec fn view(&self) -> EventView {
        match *self {
            Event::Instantiated { deployer, contract } => EventView::Instantiated {
                deployer,
                contract,
            },
            Event::Called { caller, contract } => EventView::Called { caller, contract },
            Event::ContractEmitted { contract, data } => EventView::ContractEmitted {
                contract,
                data: data@,
            },
            Event::Other(encoded) => EventView::Other(encoded@),
        }
    }
}

/// The views of `events`, in order.
pub open spec fn event_views(events: Seq<Event>) -> Seq<EventView> {
    Seq::new(events.len(), |i: int| events[i]@)
}

/// An [`ExecReturnValue`] as plain values.
pub struct ExecReturnView {
    pub flags: ReturnFlags,
    pub data: Seq<u8>,
}

impl View for ExecReturnValue {
    type V = ExecReturnView;

    open spec fn view(&self) -> ExecReturnView {
        ExecReturnView { flags: self.flags, data: self.data@ }
    }
}

/// What a call returns when a mock answered it with `reply`: the output with no flag,
/// or the reason with the revert flag.
pub open spec fn returned(reply: MockReplyView) -> ExecReturnView {
    match reply.outcome {
        Ok(output) => ExecReturnView { flags: ReturnFlags { bits: 0 }, data: output },
        Err(reason) => ExecReturnView { flags: ReturnFlags { bits: 1 }, data: reason },
    }
}

/// Each payload as an event emitted by `contract`.
pub open spec fn emitted_by(contract: AccountId, payloads: Seq<Seq<u8>>) -> Seq<EventView> {
    Seq::new(payloads.len(), |i: int| EventView::ContractEmitted { contract, data: payloads[i] })
}

/// The events of a call that the mock at `contract` answered with `reply`.
///
/// A successful call records what the mock emitted, in the mock's order, and then the
/// call itself, as the engine does for bytecode. A reverted call leaves no event.
pub open spec fn recorded(contract: AccountId, caller: AccountId, reply: MockReplyView) -> Seq<
    EventView,
> {
    match reply.outcome {
        Ok(_) => emitted_by(contract, reply.events).push(EventView::Called { caller, contract }),
        Err(_) => Seq::empty(),
    }
}

/// Whether `result` is the result of a call from `caller` that the mock at `contract`
/// answered with `reply`.
///
/// No bytecode ran, so no weight was used and no storage paid for.
pub open spec fn answers_with(
    result: ContractExecResult,
    contract: AccountId,
    caller: AccountId,
    reply: MockReplyView,
) -> bool {
    &&& result.gas_consumed == Weight::spec_zero()
    &&& result.gas_required == Weight::spec_zero()
    &&& result.storage_deposit == StorageDeposit::Charge(0)
    &&& result.debug_message@ == Seq::<u8>::empty()
    &&& result.result matches Ok(value) && value@ == returned(reply)
    &&& result.events matches Some(events) && event_views(events@) == recorded(
        contract,
        caller,
        reply,
    )
}

/// A call that a mock answered carries the mock's answer and nothing else: where the
/// mock returned bytes, the call succeeded with exactly those bytes; where the mock
/// failed, the call reverted with exactly the mock's reason and left no event.
pub proof fn lemma_result_carries_reply(
    result: ContractExecResult,
    contract: AccountId,
    caller: AccountId,
    reply: MockReplyView,
)
    requires
        answers_with(result, contract, caller, reply),
    ensures
        result.result is Ok,
        reply.outcome matches Ok(output) ==> !result.result->Ok_0.spec_did_revert()
            && result.result->Ok_0.data@ == output,
        reply.outcome matches Err(reason) ==> result.result->Ok_0.spec_did_revert()
            && result.result->Ok_0.data@ == reason && result.events->Some_0@.len() == 0,
{
    assert(0u32 & 1u32 != 1u32) by (bit_vector);
    assert(1u32 & 1u32 == 1u32) by (bit_vector);
    assert(event_views(result.events->Some_0@).len() == result.events->Some_0@.len());
}

/// A call to a mock whose callback can only answer with `reply` gives exactly the
/// result of that reply.
///
/// So a callback that always returns given bytes makes every call succeed with those
/// bytes, whatever the input, and records the call after what the callback emitted; a
/// callback that always fails with a given reason makes every call revert with that
/// reason and record nothing.
pub proof fn lemma_call_gives_what_the_callback_answers<
    F: Fn(&AccountId, &Vec<u8>, u128) -> MockReply,
>(
    mock: ContractMock<F>,
    result: ContractExecResult,
    contract: AccountId,
    caller: AccountId,
    input: Vec<u8>,
    value: u128,
    reply: MockReplyView,
)
    requires
        mock.may_give(result, contract, caller, input, value),
        forall|answer: MockReply| #[trigger]
            mock.may_answer(caller, input, value, answer) ==> answer@ == reply,
    ensures
        answers_with(result, contract, caller, reply),
        result.result is Ok,
        result.events is Some,
        reply.outcome matches Ok(output) ==> {
            &&& !result.result->Ok_0.spec_did_revert()
            &&& result.result->Ok_0.data@ == output
            &&& event_views(result.events->Some_0@) == emitted_by(contract, reply.events).push(
                EventView::Called { caller, contract },
            )
        },
        reply.outcome matches Err(reason) ==> {
            &&& result.result->Ok_0.spec_did_revert()
            &&& result.result->Ok_0.data@ == reason
            &&& result.events->Some_0@.len() == 0
        },
{
    let answer = choose|answer: MockReply| #[trigger]
        mock.may_answer(caller, input, value, answer) && answers_with(
            result,
            contract,
            caller,
            answer@,
        );
    lemma_result_carries_reply(result, contract, caller, reply);
}

/// Turns the answer of the mock at `contract` to a call from `caller` into the result
/// that the engine would give for such a call.
pub fn intercepted(contract: AccountId, caller: AccountId, reply: MockReply) -> (result:
    ContractExecResult)
    ensures
        answers_with(result, contract, caller, reply@),
        result.result matches Ok(value) && (value.did_revert() <==> reply.outcome is Err),
{
    let MockReply { outcome, events: payloads } = reply;
    let ghost payload_views = reply@.events;
    let mut events: Vec<Event> = Vec::new();
    let value = match outcome {
        Ok(output) => {
            let n = payloads.len();
            let mut rest = payloads;
            let mut i: usize = 0;
            proof {
                assert(event_views(events@) =~= emitted_by(contract, payload_views.take(0)));
            }
            while i < n
                invariant
                    i <= n,
                    n == rest@.len(),
                    n == payload_views.len(),
                    events@.len() == i,
                    forall|k: int| i <= k < n ==> (#[trigger] rest@[k])@ == payload_views[k],
                    event_views(events@) == emitted_by(contract, payload_views.take(i as int)),
                decreases n - i,
            {
                let mut data: Vec<u8> = Vec::new();
                let ghost before = event_views(events@);
                std::mem::swap(&mut data, &mut rest[i]);
                events.push(Event::ContractEmitted { contract, data });
                proof {
                    let target = emitted_by(contract, payload_views.take(i + 1));
                    assert forall|k: int| 0 <= k < i + 1 implies event_views(events@)[k]
                        == target[k] by {
                        if k < i {
                            assert(event_views(events@)[k] == before[k]);
                            assert(payload_views.take(i as int)[k] == payload_views[k]);
                        }
                        assert(payload_views.take(i + 1)[k] == payload_views[k]);
                    }
                    assert(event_views(events@) =~= target);
                }
                i = i + 1;
            }
            let ghost emitted = event_views(events@);
            events.push(Event::Called { caller, contract });
            proof {
                assert(payload_views.take(n as int) =~= payload_views);
                assert(event_views(events@) =~= emitted.push(
                    EventView::Called { caller, contract },
                ));
            }
            ExecReturnValue { flags: ReturnFlags::empty(), data: output }
        },
        Err(reason) => {
            proof {
                assert(event_views(events@) =~= Seq::empty());
            }
            ExecReturnValue { flags: ReturnFlags::revert(), data: reason }
        },
    };
    ContractResult {
        gas_consumed: Weight::zero(),
        gas_required: Weight::zero(),
        storage_deposit: StorageDeposit::Charge(0),
        debug_message: Vec::new(),
        result: Ok(value),
        events: Some(events),
    }
}

/// A native stand-in for a contract: a callback from the caller, the input bytes and
/// the transferred value to a [`MockReply`].
///
/// The callback is shared, so a mock can be copied out of the registry and run while
/// nobody holds the registry.
pub struct ContractMock<F> {
    pub callback: Arc<F>,
}

impl<F> Clone for ContractMock<F> {
    fn clone(&self) -> (copy: Self)
        ensures
            copy == *self,
    {
        ContractMock { callback: self.callback.clone() }
    }
}

impl<F: Fn(&AccountId, &Vec<u8>, u128) -> MockReply> ContractMock<F> {
    /// Whether the callback accepts every call.
    pub open spec fn callable(&self) -> bool {
        forall|caller: AccountId, input: Vec<u8>, value: u128|
            #[trigger] self.callback.requires((&caller, &input, value))
    }

    /// Whether the callback may answer `reply` to the given call.
    pub open spec fn may_answer(
        &self,
        caller: AccountId,
        input: Vec<u8>,
        value: u128,
        reply: MockReply,
    ) -> bool {
        self.callback.ensures((&caller, &input, value), reply)
    }

    /// Whether `result` is what a call to this mock at `contract` may give: the
    /// callback may answer the call with some reply, and `result` carries that reply.
    pub open spec fn may_give(
        &self,
        result: ContractExecResult,
        contract: AccountId,
        caller: AccountId,
        input: Vec<u8>,
        value: u128,
    ) -> bool {
        exists|reply: MockReply| #[trigger]
            self.may_answer(caller, input, value, reply) && answers_with(
                result,
                contract,
                caller,
                reply@,
            )
    }

    /// A mock that answers with `callback`.
    pub fn new(callback: F) -> (mock: Self)
        requires
            forall|caller: AccountId, input: Vec<u8>, value: u128|
                #[trigger] callback.requires((&caller, &input, value)),
        ensures
            *mock.callback == callback,
            mock.callable(),
    {
        ContractMock { callback: Arc::new(callback) }
    }

    /// Runs the callback on one call.
    pub fn call(&self, caller: &AccountId, input: &Vec<u8>, value: u128) -> (reply: MockReply)
        requires
            self.callable(),
        ensures
            self.may_answer(*caller, *input, value, reply),
    {
        (self.callback)(caller, input, value)
    }

    /// Answers a call to `contract` with this mock, in the shape of an engine result.
    ///
    /// The result carries what the callback answered: its output, or the revert flag
    /// with its reason.
    pub fn answer(
        &self,
        contract: AccountId,
        caller: AccountId,
        input: &Vec<u8>,
        value: u128,
    ) -> (result: ContractExecResult)
        requires
            self.callable(),
        ensures
            self.may_give(result, contract, caller, *input, value),
    {
        let reply = self.call(&caller, input, value);
        intercepted(contract, caller, reply)
    }
}

} // verus!
