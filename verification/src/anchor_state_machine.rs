//! Anchor-side phase state machine of the multi-anchor AltDS-TWR protocol.
//!
//! The protocol runs in three phases:
//! 1. every anchor sends a Poll message to all tags,
//! 2. every tag sends a Response message to all anchors,
//! 3. every anchor sends a Final message to all tags.
//!
//! The machine's type parameter carries the phase, so each timestamp field
//! is reachable only in the phase that may touch it: the Poll transmit
//! timestamp is recorded on leaving `Idle`, the per-tag Response receive
//! timestamps are written while `WaitingForResponse` and read while
//! `SendingFinal`. The `AnyAnchorSideStateMachine` wrapper erases the phase
//! type so machines in different phases fit one homogeneous collection, and
//! turns a transition attempted in the wrong phase into an error that leaves
//! the machine unchanged.

use vstd::prelude::*;

use crate::TwrError;
use crate::hvec::addr_clone;
use crate::hvec::addr_len;
use crate::hvec::addr_list;
use crate::hvec::addr_new;
use crate::hvec::ts_clone;
use crate::hvec::ts_len;
use crate::hvec::ts_get;
use crate::hvec::ts_list;
use crate::hvec::ts_set;
use crate::hvec::ts_zeroed;

verus! {

/// Mathematical contents of an anchor-side machine, phase left aside.
#[verifier::ext_equal]
pub ghost struct AnchorMachineView {
    pub address: u16,
    pub anchor_addresses: Seq<u16>,
    pub tags: Seq<u16>,
    pub poll_tx_ts: u64,
    pub response_rx_ts: Seq<u64>,
}

impl AnchorMachineView {
    /// Every machine built by `new` keeps one Response slot per tag.
    pub open spec fn wf(self) -> bool {
        self.response_rx_ts.len() == self.tags.len()
    }
}

/// The `Idle` phase: no ranging round in progress.
#[derive(Clone, Copy, Debug)]
pub struct Idle;

/// The `WaitingForResponse` phase: the Poll is out, tag responses arrive.
#[derive(Clone, Copy, Debug)]
pub struct WaitingForResponse;

/// The `SendingFinal` phase: the Final message carries the collected
/// timestamps back to the tags.
#[derive(Clone, Copy, Debug)]
pub struct SendingFinal;

/// One anchor's bookkeeping for one ranging round, tagged by phase.
pub struct AnchorSideStateMachine<STATE> {
    /// This anchor's network address.
    address: u16,
    /// All anchor addresses in the network.
    anchor_addresses: heapless::Vec<u16, 16>,
    /// All participating tag addresses.
    tags: heapless::Vec<u16, 16>,
    /// Transmit timestamp of this anchor's Poll; meaningless while `Idle`.
    poll_tx_ts: u64,
    /// Receive timestamp of each tag's Response, indexed by tag position.
    response_rx_ts: heapless::Vec<u64, 16>,
    /// The phase marker.
    _state: STATE,
}

impl<STATE> View for AnchorSideStateMachine<STATE> {
    type V = AnchorMachineView;

    closed spec fn view(&self) -> AnchorMachineView {
        AnchorMachineView {
            address: self.address,
            anchor_addresses: addr_list(self.anchor_addresses),
            tags: addr_list(self.tags),
            poll_tx_ts: self.poll_tx_ts,
            response_rx_ts: ts_list(self.response_rx_ts),
        }
    }
}

impl<STATE: Copy> Clone for AnchorSideStateMachine<STATE> {
    fn clone(&self) -> (r: Self)
        ensures
            r@ == self@,
    {
        AnchorSideStateMachine {
            address: self.address,
            anchor_addresses: addr_clone(&self.anchor_addresses),
            tags: addr_clone(&self.tags),
            poll_tx_ts: self.poll_tx_ts,
            response_rx_ts: ts_clone(&self.response_rx_ts),
            _state: self._state,
        }
    }
}

impl<STATE> AnchorSideStateMachine<STATE> {
    /// This anchor's network address.
    pub fn address(&self) -> (r: u16)
        ensures
            r == self@.address,
    {
        self.address
    }
}

impl AnchorSideStateMachine<Idle> {
    /// A fresh machine in `Idle`, with one zeroed Response slot per tag.
    pub fn new(address: u16, anchors: heapless::Vec<u16, 16>, tags: heapless::Vec<u16, 16>) -> (r:
        Self)
        ensures
            r@.address == address,
            r@.anchor_addresses == addr_list(anchors),
            r@.tags == addr_list(tags),
            r@.poll_tx_ts == 0,
            r@.response_rx_ts == Seq::new(addr_list(tags).len(), |i: int| 0u64),
            r@.wf(),
    {
        let n = addr_len(&tags);
        let response_rx_ts = ts_zeroed(n);
        AnchorSideStateMachine {
            address,
            anchor_addresses: anchors,
            response_rx_ts,
            tags,
            poll_tx_ts: 0,
            _state: Idle,
        }
    }

    /// Records the Poll transmit timestamp and enters `WaitingForResponse`.
    pub fn waiting_for_response(self, poll_tx_ts: u64) -> (r: AnchorSideStateMachine<
        WaitingForResponse,
    >)
        ensures
            r@ == (AnchorMachineView { poll_tx_ts, ..self@ }),
    {
        AnchorSideStateMachine {
            tags: self.tags,
            poll_tx_ts,
            response_rx_ts: self.response_rx_ts,
            _state: WaitingForResponse,
            address: self.address,
            anchor_addresses: self.anchor_addresses,
        }
    }
}

impl AnchorSideStateMachine<WaitingForResponse> {
    /// Writes the Response receive timestamp of the tag at `tag_idx`.
    ///
    /// An index at or past the number of Response slots is reported as
    /// `IndexOutOfRange` and leaves the machine unchanged.
    pub fn set_response_rx_ts(&mut self, tag_idx: usize, response_rx_ts: u64) -> (r: Result<
        (),
        TwrError,
    >)
        ensures
            tag_idx < old(self)@.response_rx_ts.len() ==> r == Ok::<(), TwrError>(()) && (final(self)@) == (AnchorMachineView {
                response_rx_ts: old(self)@.response_rx_ts.update(tag_idx as int, response_rx_ts),
                ..old(self)@
            }),
            tag_idx >= old(self)@.response_rx_ts.len() ==> r == Err::<(), TwrError>(
                TwrError::IndexOutOfRange,
            ) && *final(self) == *old(self),
    {
        if tag_idx >= ts_len(&self.response_rx_ts) {
            return Err(TwrError::IndexOutOfRange);
        }
        ts_set(&mut self.response_rx_ts, tag_idx, response_rx_ts);
        Ok(())
    }

    /// The recorded Poll transmit timestamp.
    pub fn poll_tx_ts(&self) -> (r: u64)
        ensures
            r == self@.poll_tx_ts,
    {
        self.poll_tx_ts
    }

    /// Carries every recorded timestamp forward into `SendingFinal`.
    pub fn sending_final(self) -> (r: AnchorSideStateMachine<SendingFinal>)
        ensures
            r@ == self@,
    {
        AnchorSideStateMachine {
            tags: self.tags,
            poll_tx_ts: self.poll_tx_ts,
            response_rx_ts: self.response_rx_ts,
            _state: SendingFinal,
            address: self.address,
            anchor_addresses: self.anchor_addresses,
        }
    }
}

impl AnchorSideStateMachine<SendingFinal> {
    /// Ends the round: the Poll transmit timestamp is reset to 0, while the
    /// Response receive timestamps are retained, so the ranging-math consumer
    /// may still read them at the reset. The next round overwrites them.
    pub fn idle(self) -> (r: AnchorSideStateMachine<Idle>)
        ensures
            r@ == (AnchorMachineView { poll_tx_ts: 0, ..self@ }),
    {
        AnchorSideStateMachine {
            tags: self.tags,
            poll_tx_ts: 0,
            response_rx_ts: self.response_rx_ts,
            _state: Idle,
            address: self.address,
            anchor_addresses: self.anchor_addresses,
        }
    }

    /// Reads the Response receive timestamp of the tag at `tag_idx`.
    ///
    /// An index at or past the number of Response slots is reported as
    /// `IndexOutOfRange`.
    pub fn get_response_rx_ts(&self, tag_idx: usize) -> (r: Result<u64, TwrError>)
        ensures
            tag_idx < self@.response_rx_ts.len() ==> r == Ok::<u64, TwrError>(
                self@.response_rx_ts[tag_idx as int],
            ),
            tag_idx >= self@.response_rx_ts.len() ==> r == Err::<u64, TwrError>(
                TwrError::IndexOutOfRange,
            ),
    {
        if tag_idx >= ts_len(&self.response_rx_ts) {
            return Err(TwrError::IndexOutOfRange);
        }
        Ok(ts_get(&self.response_rx_ts, tag_idx))
    }

    /// The recorded Poll transmit timestamp.
    pub fn poll_tx_ts(&self) -> (r: u64)
        ensures
            r == self@.poll_tx_ts,
    {
        self.poll_tx_ts
    }
}

/// The anchor-side machine with its phase erased into a closed sum.
pub enum AnchorSideStateMachineTypeErased {
    Idle(AnchorSideStateMachine<Idle>),
    WaitingForResponse(AnchorSideStateMachine<WaitingForResponse>),
    SendingFinal(AnchorSideStateMachine<SendingFinal>),
}

/// Phase and contents of a type-erased anchor-side machine.
#[verifier::ext_equal]
pub ghost enum AnyAnchorView {
    Idle(AnchorMachineView),
    WaitingForResponse(AnchorMachineView),
    SendingFinal(AnchorMachineView),
}

/// A phase-erased anchor-side machine: one machine whose current phase is
/// discoverable only by probing, so machines in different phases can share a
/// fixed-size homogeneous collection.
pub struct AnyAnchorSideStateMachine {
    state_machine: AnchorSideStateMachineTypeErased,
}

impl View for AnyAnchorSideStateMachine {
    type V = AnyAnchorView;

    closed spec fn view(&self) -> AnyAnchorView {
        match self.state_machine {
            AnchorSideStateMachineTypeErased::Idle(m) => AnyAnchorView::Idle(m@),
            AnchorSideStateMachineTypeErased::WaitingForResponse(m) => (
            AnyAnchorView::WaitingForResponse(m@)),
            AnchorSideStateMachineTypeErased::SendingFinal(m) => AnyAnchorView::SendingFinal(m@),
        }
    }
}

impl AnyAnchorSideStateMachine {
    /// A mutable view of the machine, if it is `Idle`; `None` is the normal
    /// probe result for any other phase, not an error.
    pub fn as_idle_mut(&mut self) -> (r: Option<&mut AnchorSideStateMachine<Idle>>)
        ensures
            old(self)@ is Idle ==> r is Some && old(self)@ == AnyAnchorView::Idle((*r.unwrap())@)
                && final(self)@ == AnyAnchorView::Idle((*final(r.unwrap()))@),
            !(old(self)@ is Idle) ==> r is None && *final(self) == *old(self),
    {
        match &mut self.state_machine {
            AnchorSideStateMachineTypeErased::Idle(m) => Some(m),
            _ => None,
        }
    }

    /// A mutable view of the machine, if it is `WaitingForResponse`.
    pub fn as_waiting_for_response_mut(&mut self) -> (r: Option<
        &mut AnchorSideStateMachine<WaitingForResponse>,
    >)
        ensures
            old(self)@ is WaitingForResponse ==> r is Some && old(self)@
                == AnyAnchorView::WaitingForResponse((*r.unwrap())@) && final(self)@
                == AnyAnchorView::WaitingForResponse((*final(r.unwrap()))@),
            !(old(self)@ is WaitingForResponse) ==> r is None && *final(self) == *old(self),
    {
        match &mut self.state_machine {
            AnchorSideStateMachineTypeErased::WaitingForResponse(m) => Some(m),
            _ => None,
        }
    }

    /// A mutable view of the machine, if it is `SendingFinal`.
    pub fn as_sending_final_mut(&mut self) -> (r: Option<
        &mut AnchorSideStateMachine<SendingFinal>,
    >)
        ensures
            old(self)@ is SendingFinal ==> r is Some && old(self)@ == AnyAnchorView::SendingFinal(
                (*r.unwrap())@,
            ) && final(self)@ == AnyAnchorView::SendingFinal((*final(r.unwrap()))@),
            !(old(self)@ is SendingFinal) ==> r is None && *final(self) == *old(self),
    {
        match &mut self.state_machine {
            AnchorSideStateMachineTypeErased::SendingFinal(m) => Some(m),
            _ => None,
        }
    }

    /// Consumes the wrapper and advances `Idle` to `WaitingForResponse`,
    /// recording the Poll transmit timestamp; any other phase is an error.
    pub fn waiting_for_response(self, poll_tx_ts: u64) -> (r: Result<AnyAnchorSideStateMachine, ()>)
        ensures
            self@ matches AnyAnchorView::Idle(v) ==> r is Ok && r.unwrap()@
                == AnyAnchorView::WaitingForResponse((AnchorMachineView { poll_tx_ts, ..v })),
            !(self@ is Idle) ==> r is Err,
    {
        match self.state_machine {
            AnchorSideStateMachineTypeErased::Idle(m) => Ok(
                AnyAnchorSideStateMachine {
                    state_machine: AnchorSideStateMachineTypeErased::WaitingForResponse(
                        m.waiting_for_response(poll_tx_ts),
                    ),
                },
            ),
            _ => Err(()),
        }
    }

    /// Advances `Idle` to `WaitingForResponse` in place, recording the Poll
    /// transmit timestamp. In any other phase the machine is left unchanged
    /// and the attempt reports an error.
    pub fn to_waiting_for_response(&mut self, poll_tx_ts: u64) -> (r: Result<(), ()>)
        ensures
            old(self)@ matches AnyAnchorView::Idle(v) ==> r == Ok::<(), ()>(()) && final(self)@
                == AnyAnchorView::WaitingForResponse((AnchorMachineView { poll_tx_ts, ..v })),
            !(old(self)@ is Idle) ==> r == Err::<(), ()>(()) && *final(self) == *old(self),
    {
        let mut taken = AnchorSideStateMachineTypeErased::Idle(
            AnchorSideStateMachine::new(0, addr_new(), addr_new()),
        );
        core::mem::swap(&mut self.state_machine, &mut taken);
        match taken {
            AnchorSideStateMachineTypeErased::Idle(m) => {
                self.state_machine = AnchorSideStateMachineTypeErased::WaitingForResponse(
                    m.waiting_for_response(poll_tx_ts),
                );
                Ok(())
            },
            other => {
                self.state_machine = other;
                Err(())
            },
        }
    }

    /// Advances `WaitingForResponse` to `SendingFinal` in place, carrying
    /// every recorded timestamp forward. In any other phase the machine is
    /// left unchanged and the attempt reports an error.
    pub fn to_sending_final(&mut self) -> (r: Result<(), ()>)
        ensures
            old(self)@ matches AnyAnchorView::WaitingForResponse(v) ==> r == Ok::<(), ()>(())
                && final(self)@ == AnyAnchorView::SendingFinal(v),
            !(old(self)@ is WaitingForResponse) ==> r == Err::<(), ()>(()) && *final(self) == *old(self),
    {
        let mut taken = AnchorSideStateMachineTypeErased::Idle(
            AnchorSideStateMachine::new(0, addr_new(), addr_new()),
        );
        core::mem::swap(&mut self.state_machine, &mut taken);
        match taken {
            AnchorSideStateMachineTypeErased::WaitingForResponse(m) => {
                self.state_machine = AnchorSideStateMachineTypeErased::SendingFinal(
                    m.sending_final(),
                );
                Ok(())
            },
            other => {
                self.state_machine = other;
                Err(())
            },
        }
    }

    /// Advances `SendingFinal` back to `Idle` in place, ending the round:
    /// the Poll transmit timestamp is reset to 0 and the Response receive
    /// timestamps are retained. In any other phase the machine is left
    /// unchanged and the attempt reports an error.
    pub fn to_idle(&mut self) -> (r: Result<(), ()>)
        ensures
            old(self)@ matches AnyAnchorView::SendingFinal(v) ==> r == Ok::<(), ()>(()) && final(self)@ == AnyAnchorView::Idle((AnchorMachineView { poll_tx_ts: 0, ..v })),
            !(old(self)@ is SendingFinal) ==> r == Err::<(), ()>(()) && *final(self) == *old(self),
    {
        let mut taken = AnchorSideStateMachineTypeErased::Idle(
            AnchorSideStateMachine::new(0, addr_new(), addr_new()),
        );
        core::mem::swap(&mut self.state_machine, &mut taken);
        match taken {
            AnchorSideStateMachineTypeErased::SendingFinal(m) => {
                self.state_machine = AnchorSideStateMachineTypeErased::Idle(m.idle());
                Ok(())
            },
            other => {
                self.state_machine = other;
                Err(())
            },
        }
    }

}

impl From<AnchorSideStateMachine<Idle>> for AnyAnchorSideStateMachine {
    fn from(state_machine: AnchorSideStateMachine<Idle>) -> (r: Self)
        ensures
            r@ == AnyAnchorView::Idle(state_machine@),
    {
        AnyAnchorSideStateMachine {
            state_machine: AnchorSideStateMachineTypeErased::Idle(state_machine),
        }
    }
}

impl vstd::std_specs::convert::FromSpecImpl<AnchorSideStateMachine<Idle>>
    for AnyAnchorSideStateMachine {
    open spec fn obeys_from_spec() -> bool {
        true
    }

    closed spec fn from_spec(m: AnchorSideStateMachine<Idle>) -> Self {
        AnyAnchorSideStateMachine { state_machine: AnchorSideStateMachineTypeErased::Idle(m) }
    }
}

impl From<AnchorSideStateMachine<WaitingForResponse>> for AnyAnchorSideStateMachine {
    fn from(state_machine: AnchorSideStateMachine<WaitingForResponse>) -> (r: Self)
        ensures
            r@ == AnyAnchorView::WaitingForResponse(state_machine@),
    {
        AnyAnchorSideStateMachine {
            state_machine: AnchorSideStateMachineTypeErased::WaitingForResponse(state_machine),
        }
    }
}

impl vstd::std_specs::convert::FromSpecImpl<AnchorSideStateMachine<WaitingForResponse>>
    for AnyAnchorSideStateMachine {
    open spec fn obeys_from_spec() -> bool {
        true
    }

    closed spec fn from_spec(m: AnchorSideStateMachine<WaitingForResponse>) -> Self {
        AnyAnchorSideStateMachine {
            state_machine: AnchorSideStateMachineTypeErased::WaitingForResponse(m),
        }
    }
}

impl From<AnchorSideStateMachine<SendingFinal>> for AnyAnchorSideStateMachine {
    fn from(state_machine: AnchorSideStateMachine<SendingFinal>) -> (r: Self)
        ensures
            r@ == AnyAnchorView::SendingFinal(state_machine@),
    {
        AnyAnchorSideStateMachine {
            state_machine: AnchorSideStateMachineTypeErased::SendingFinal(state_machine),
        }
    }
}

impl vstd::std_specs::convert::FromSpecImpl<AnchorSideStateMachine<SendingFinal>>
    for AnyAnchorSideStateMachine {
    open spec fn obeys_from_spec() -> bool {
        true
    }

    closed spec fn from_spec(m: AnchorSideStateMachine<SendingFinal>) -> Self {
        AnyAnchorSideStateMachine {
            state_machine: AnchorSideStateMachineTypeErased::SendingFinal(m),
        }
    }
}

/// Fallible conversion of the wrapper into the `Idle` machine; any other
/// phase is an error that drops nothing but the erasure.
impl TryFrom<AnyAnchorSideStateMachine> for AnchorSideStateMachine<Idle> {
    type Error = ();

    fn try_from(v: AnyAnchorSideStateMachine) -> (r: Result<Self, ()>)
        ensures
            v@ matches AnyAnchorView::Idle(m) ==> r is Ok && r.unwrap()@ == m,
            !(v@ is Idle) ==> r is Err,
    {
        match v.state_machine {
            AnchorSideStateMachineTypeErased::Idle(m) => Ok(m),
            _ => Err(()),
        }
    }
}

impl vstd::std_specs::convert::TryFromSpecImpl<AnyAnchorSideStateMachine>
    for AnchorSideStateMachine<Idle> {
    open spec fn obeys_try_from_spec() -> bool {
        true
    }

    closed spec fn try_from_spec(v: AnyAnchorSideStateMachine) -> Result<Self, ()> {
        match v.state_machine {
            AnchorSideStateMachineTypeErased::Idle(m) => Ok(m),
            _ => Err(()),
        }
    }
}

/// Fallible borrow of the machine inside the wrapper, typed to `Idle`;
/// any other phase is an error.
impl<'a> TryFrom<&'a AnyAnchorSideStateMachine> for &'a AnchorSideStateMachine<Idle> {
    type Error = ();

    fn try_from(v: &'a AnyAnchorSideStateMachine) -> (r: Result<Self, ()>)
        ensures
            v@ matches AnyAnchorView::Idle(m) ==> r is Ok && (*r.unwrap())@ == m,
            !(v@ is Idle) ==> r is Err,
    {
        match &v.state_machine {
            AnchorSideStateMachineTypeErased::Idle(m) => Ok(m),
            _ => Err(()),
        }
    }
}

impl<'a> vstd::std_specs::convert::TryFromSpecImpl<&'a AnyAnchorSideStateMachine>
    for &'a AnchorSideStateMachine<Idle> {
    open spec fn obeys_try_from_spec() -> bool {
        true
    }

    closed spec fn try_from_spec(v: &'a AnyAnchorSideStateMachine) -> Result<Self, ()> {
        match &v.state_machine {
            AnchorSideStateMachineTypeErased::Idle(m) => Ok(m),
            _ => Err(()),
        }
    }
}

/// Fallible conversion of the wrapper into the `WaitingForResponse` machine; any other
/// phase is an error that drops nothing but the erasure.
impl TryFrom<AnyAnchorSideStateMachine> for AnchorSideStateMachine<WaitingForResponse> {
    type Error = ();

    fn try_from(v: AnyAnchorSideStateMachine) -> (r: Result<Self, ()>)
        ensures
            v@ matches AnyAnchorView::WaitingForResponse(m) ==> r is Ok && r.unwrap()@ == m,
            !(v@ is WaitingForResponse) ==> r is Err,
    {
        match v.state_machine {
            AnchorSideStateMachineTypeErased::WaitingForResponse(m) => Ok(m),
            _ => Err(()),
        }
    }
}

impl vstd::std_specs::convert::TryFromSpecImpl<AnyAnchorSideStateMachine>
    for AnchorSideStateMachine<WaitingForResponse> {
    open spec fn obeys_try_from_spec() -> bool {
        true
    }

    closed spec fn try_from_spec(v: AnyAnchorSideStateMachine) -> Result<Self, ()> {
        match v.state_machine {
            AnchorSideStateMachineTypeErased::WaitingForResponse(m) => Ok(m),
            _ => Err(()),
        }
    }
}

/// Fallible borrow of the machine inside the wrapper, typed to `WaitingForResponse`;
/// any other phase is an error.
impl<'a> TryFrom<&'a AnyAnchorSideStateMachine> for &'a AnchorSideStateMachine<WaitingForResponse> {
    type Error = ();

    fn try_from(v: &'a AnyAnchorSideStateMachine) -> (r: Result<Self, ()>)
        ensures
            v@ matches AnyAnchorView::WaitingForResponse(m) ==> r is Ok && (*r.unwrap())@ == m,
            !(v@ is WaitingForResponse) ==> r is Err,
    {
        match &v.state_machine {
            AnchorSideStateMachineTypeErased::WaitingForResponse(m) => Ok(m),
            _ => Err(()),
        }
    }
}

impl<'a> vstd::std_specs::convert::TryFromSpecImpl<&'a AnyAnchorSideStateMachine>
    for &'a AnchorSideStateMachine<WaitingForResponse> {
    open spec fn obeys_try_from_spec() -> bool {
        true
    }

    closed spec fn try_from_spec(v: &'a AnyAnchorSideStateMachine) -> Result<Self, ()> {
        match &v.state_machine {
            AnchorSideStateMachineTypeErased::WaitingForResponse(m) => Ok(m),
            _ => Err(()),
        }
    }
}

/// Fallible conversion of the wrapper into the `SendingFinal` machine; any other
/// phase is an error that drops nothing but the erasure.
impl TryFrom<AnyAnchorSideStateMachine> for AnchorSideStateMachine<SendingFinal> {
    type Error = ();

    fn try_from(v: AnyAnchorSideStateMachine) -> (r: Result<Self, ()>)
        ensures
            v@ matches AnyAnchorView::SendingFinal(m) ==> r is Ok && r.unwrap()@ == m,
            !(v@ is SendingFinal) ==> r is Err,
    {
        match v.state_machine {
            AnchorSideStateMachineTypeErased::SendingFinal(m) => Ok(m),
            _ => Err(()),
        }
    }
}

impl vstd::std_specs::convert::TryFromSpecImpl<AnyAnchorSideStateMachine>
    for AnchorSideStateMachine<SendingFinal> {
    open spec fn obeys_try_from_spec() -> bool {
        true
    }

    closed spec fn try_from_spec(v: AnyAnchorSideStateMachine) -> Result<Self, ()> {
        match v.state_machine {
            AnchorSideStateMachineTypeErased::SendingFinal(m) => Ok(m),
            _ => Err(()),
        }
    }
}

/// Fallible borrow of the machine inside the wrapper, typed to `SendingFinal`;
/// any other phase is an error.
impl<'a> TryFrom<&'a AnyAnchorSideStateMachine> for &'a AnchorSideStateMachine<SendingFinal> {
    type Error = ();

    fn try_from(v: &'a AnyAnchorSideStateMachine) -> (r: Result<Self, ()>)
        ensures
            v@ matches AnyAnchorView::SendingFinal(m) ==> r is Ok && (*r.unwrap())@ == m,
            !(v@ is SendingFinal) ==> r is Err,
    {
        match &v.state_machine {
            AnchorSideStateMachineTypeErased::SendingFinal(m) => Ok(m),
            _ => Err(()),
        }
    }
}

impl<'a> vstd::std_specs::convert::TryFromSpecImpl<&'a AnyAnchorSideStateMachine>
    for &'a AnchorSideStateMachine<SendingFinal> {
    open spec fn obeys_try_from_spec() -> bool {
        true
    }

    closed spec fn try_from_spec(v: &'a AnyAnchorSideStateMachine) -> Result<Self, ()> {
        match &v.state_machine {
            AnchorSideStateMachineTypeErased::SendingFinal(m) => Ok(m),
            _ => Err(()),
        }
    }
}

} // verus!
