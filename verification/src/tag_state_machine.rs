//! Tag-side phase state machine of the multi-anchor AltDS-TWR protocol.
//!
//! The tag collects, for every anchor, the Poll transmit and receive
//! timestamps while `WaitingForAnchorPoll`, then its own Response transmit
//! timestamp and the per-anchor Response receive, Final transmit and Final
//! receive timestamps while `WaitingForAnchorFinal`. Each per-anchor setter
//! exists in an index-keyed form (the position in the anchor list) and an
//! address-keyed form (a linear search for the first occurrence of the
//! address, reporting `AddressNotFound` when the address is absent).
//! `AnyTagSideStateMachine` erases the phase type the same way the
//! anchor-side wrapper does.

use vstd::prelude::*;

use crate::TwrError;
use crate::hvec::addr_len;
use crate::hvec::addr_list;
use crate::hvec::addr_new;
use crate::hvec::find_addr;
use crate::hvec::ts_get;
use crate::hvec::ts_len;
use crate::hvec::ts_list;
use crate::hvec::ts_set;
use crate::hvec::ts_zeroed;

verus! {

/// Mathematical contents of a tag-side machine, phase left aside.
#[verifier::ext_equal]
pub ghost struct TagMachineView {
    pub address: u16,
    pub anchors: Seq<u16>,
    pub tags: Seq<u16>,
    pub poll_tx_ts: Seq<u64>,
    pub poll_rx_ts: Seq<u64>,
    pub response_tx_ts: u64,
    pub response_rx_ts: Seq<u64>,
    pub final_tx_ts: Seq<u64>,
    pub final_rx_ts: Seq<u64>,
}

impl TagMachineView {
    /// Every machine built by `new` keeps one slot per anchor in each of the
    /// five per-anchor collections.
    pub open spec fn wf(self) -> bool {
        &&& self.poll_tx_ts.len() == self.anchors.len()
        &&& self.poll_rx_ts.len() == self.anchors.len()
        &&& self.response_rx_ts.len() == self.anchors.len()
        &&& self.final_tx_ts.len() == self.anchors.len()
        &&& self.final_rx_ts.len() == self.anchors.len()
    }
}

/// The `Idle` phase: no ranging round in progress.
#[derive(Clone, Copy, Debug)]
pub struct Idle;

/// The `WaitingForAnchorPoll` phase: anchor Polls arrive.
#[derive(Clone, Copy, Debug)]
pub struct WaitingForAnchorPoll;

/// The `WaitingForAnchorFinal` phase: the Response is out, anchor Finals
/// arrive.
#[derive(Clone, Copy, Debug)]
pub struct WaitingForAnchorFinal;

/// One tag's bookkeeping for one ranging round, tagged by phase.
pub struct TagSideStateMachine<STATE> {
    /// This tag's network address.
    address: u16,
    /// All anchor addresses in the network; the per-anchor collections below
    /// are indexed by position in this list.
    anchors: heapless::Vec<u16, 16>,
    /// All participating tag addresses.
    tags: heapless::Vec<u16, 16>,
    /// Per-anchor Poll transmit timestamps (anchor clock).
    poll_tx_ts: heapless::Vec<u64, 16>,
    /// Per-anchor Poll receive timestamps (tag clock).
    poll_rx_ts: heapless::Vec<u64, 16>,
    /// This tag's Response transmit timestamp (tag clock).
    response_tx_ts: u64,
    /// Per-anchor Response receive timestamps (anchor clock, reported back).
    response_rx_ts: heapless::Vec<u64, 16>,
    /// Per-anchor Final transmit timestamps (anchor clock, from the packet).
    final_tx_ts: heapless::Vec<u64, 16>,
    /// Per-anchor Final receive timestamps (tag clock).
    final_rx_ts: heapless::Vec<u64, 16>,
    /// The phase marker.
    _state: STATE,
}

impl<STATE> View for TagSideStateMachine<STATE> {
    type V = TagMachineView;

    closed spec fn view(&self) -> TagMachineView {
        TagMachineView {
            address: self.address,
            anchors: addr_list(self.anchors),
            tags: addr_list(self.tags),
            poll_tx_ts: ts_list(self.poll_tx_ts),
            poll_rx_ts: ts_list(self.poll_rx_ts),
            response_tx_ts: self.response_tx_ts,
            response_rx_ts: ts_list(self.response_rx_ts),
            final_tx_ts: ts_list(self.final_tx_ts),
            final_rx_ts: ts_list(self.final_rx_ts),
        }
    }
}

impl<STATE> TagSideStateMachine<STATE> {
    /// This tag's network address.
    pub fn address(&self) -> (r: u16)
        ensures
            r == self@.address,
    {
        self.address
    }

    /// The number of per-anchor Poll transmit slots.
    pub fn poll_tx_ts_len(&self) -> (r: usize)
        ensures
            r == self@.poll_tx_ts.len(),
    {
        ts_len(&self.poll_tx_ts)
    }

    /// Reads the Poll transmit timestamp of the anchor at `anchor_idx`.
    pub fn get_poll_tx_ts(&self, anchor_idx: usize) -> (r: Result<u64, TwrError>)
        ensures
            anchor_idx < self@.poll_tx_ts.len() ==> r == Ok::<u64, TwrError>(
                self@.poll_tx_ts[anchor_idx as int],
            ),
            anchor_idx >= self@.poll_tx_ts.len() ==> r == Err::<u64, TwrError>(
                TwrError::IndexOutOfRange,
            ),
    {
        if anchor_idx >= ts_len(&self.poll_tx_ts) {
            return Err(TwrError::IndexOutOfRange);
        }
        Ok(ts_get(&self.poll_tx_ts, anchor_idx))
    }

    /// Reads the Poll receive timestamp of the anchor at `anchor_idx`.
    pub fn get_poll_rx_ts(&self, anchor_idx: usize) -> (r: Result<u64, TwrError>)
        ensures
            anchor_idx < self@.poll_rx_ts.len() ==> r == Ok::<u64, TwrError>(
                self@.poll_rx_ts[anchor_idx as int],
            ),
            anchor_idx >= self@.poll_rx_ts.len() ==> r == Err::<u64, TwrError>(
                TwrError::IndexOutOfRange,
            ),
    {
        if anchor_idx >= ts_len(&self.poll_rx_ts) {
            return Err(TwrError::IndexOutOfRange);
        }
        Ok(ts_get(&self.poll_rx_ts, anchor_idx))
    }

    /// This tag's recorded Response transmit timestamp.
    pub fn response_tx_ts(&self) -> (r: u64)
        ensures
            r == self@.response_tx_ts,
    {
        self.response_tx_ts
    }

    /// Reads the Response receive timestamp of the anchor at `anchor_idx`.
    pub fn get_response_rx_ts(&self, anchor_idx: usize) -> (r: Result<u64, TwrError>)
        ensures
            anchor_idx < self@.response_rx_ts.len() ==> r == Ok::<u64, TwrError>(
                self@.response_rx_ts[anchor_idx as int],
            ),
            anchor_idx >= self@.response_rx_ts.len() ==> r == Err::<u64, TwrError>(
                TwrError::IndexOutOfRange,
            ),
    {
        if anchor_idx >= ts_len(&self.response_rx_ts) {
            return Err(TwrError::IndexOutOfRange);
        }
        Ok(ts_get(&self.response_rx_ts, anchor_idx))
    }

    /// Reads the Final transmit timestamp of the anchor at `anchor_idx`.
    pub fn get_final_tx_ts(&self, anchor_idx: usize) -> (r: Result<u64, TwrError>)
        ensures
            anchor_idx < self@.final_tx_ts.len() ==> r == Ok::<u64, TwrError>(
                self@.final_tx_ts[anchor_idx as int],
            ),
            anchor_idx >= self@.final_tx_ts.len() ==> r == Err::<u64, TwrError>(
                TwrError::IndexOutOfRange,
            ),
    {
        if anchor_idx >= ts_len(&self.final_tx_ts) {
            return Err(TwrError::IndexOutOfRange);
        }
        Ok(ts_get(&self.final_tx_ts, anchor_idx))
    }

    /// Reads the Final receive timestamp of the anchor at `anchor_idx`.
    pub fn get_final_rx_ts(&self, anchor_idx: usize) -> (r: Result<u64, TwrError>)
        ensures
            anchor_idx < self@.final_rx_ts.len() ==> r == Ok::<u64, TwrError>(
                self@.final_rx_ts[anchor_idx as int],
            ),
            anchor_idx >= self@.final_rx_ts.len() ==> r == Err::<u64, TwrError>(
                TwrError::IndexOutOfRange,
            ),
    {
        if anchor_idx >= ts_len(&self.final_rx_ts) {
            return Err(TwrError::IndexOutOfRange);
        }
        Ok(ts_get(&self.final_rx_ts, anchor_idx))
    }
}

impl TagSideStateMachine<Idle> {
    /// A fresh machine in `Idle`, with one zeroed slot per anchor in every
    /// per-anchor collection.
    pub fn new(address: u16, anchors: heapless::Vec<u16, 16>, tags: heapless::Vec<u16, 16>) -> (r:
        Self)
        ensures
            r@.address == address,
            r@.anchors == addr_list(anchors),
            r@.tags == addr_list(tags),
            r@.poll_tx_ts == Seq::new(addr_list(anchors).len(), |i: int| 0u64),
            r@.poll_rx_ts == Seq::new(addr_list(anchors).len(), |i: int| 0u64),
            r@.response_tx_ts == 0,
            r@.response_rx_ts == Seq::new(addr_list(anchors).len(), |i: int| 0u64),
            r@.final_tx_ts == Seq::new(addr_list(anchors).len(), |i: int| 0u64),
            r@.final_rx_ts == Seq::new(addr_list(anchors).len(), |i: int| 0u64),
            r@.wf(),
    {
        let n = addr_len(&anchors);
        TagSideStateMachine {
            address,
            poll_tx_ts: ts_zeroed(n),
            poll_rx_ts: ts_zeroed(n),
            response_rx_ts: ts_zeroed(n),
            final_tx_ts: ts_zeroed(n),
            final_rx_ts: ts_zeroed(n),
            response_tx_ts: 0,
            anchors,
            tags,
            _state: Idle,
        }
    }

    /// Enters `WaitingForAnchorPoll`; every field is carried over.
    pub fn waiting_for_anchor_poll(self) -> (r: TagSideStateMachine<WaitingForAnchorPoll>)
        ensures
            r@ == self@,
    {
        TagSideStateMachine {
            address: self.address,
            anchors: self.anchors,
            tags: self.tags,
            poll_tx_ts: self.poll_tx_ts,
            poll_rx_ts: self.poll_rx_ts,
            response_tx_ts: self.response_tx_ts,
            response_rx_ts: self.response_rx_ts,
            final_tx_ts: self.final_tx_ts,
            final_rx_ts: self.final_rx_ts,
            _state: WaitingForAnchorPoll,
        }
    }
}

impl TagSideStateMachine<WaitingForAnchorPoll> {
    /// Writes the Poll transmit timestamp of the anchor at `anchor_idx`.
    pub fn set_poll_tx_ts_idx(&mut self, anchor_idx: usize, poll_tx_ts: u64) -> (r: Result<
        (),
        TwrError,
    >)
        ensures
            anchor_idx < old(self)@.poll_tx_ts.len() ==> r == Ok::<(), TwrError>(()) && final(self)@
                == (TagMachineView {
                poll_tx_ts: old(self)@.poll_tx_ts.update(anchor_idx as int, poll_tx_ts),
                ..old(self)@
            }),
            anchor_idx >= old(self)@.poll_tx_ts.len() ==> r == Err::<(), TwrError>(
                TwrError::IndexOutOfRange,
            ) && *final(self) == *old(self),
    {
        if anchor_idx >= ts_len(&self.poll_tx_ts) {
            return Err(TwrError::IndexOutOfRange);
        }
        ts_set(&mut self.poll_tx_ts, anchor_idx, poll_tx_ts);
        Ok(())
    }

    /// Writes the Poll transmit timestamp of the anchor whose address is
    /// `anchor_addr`, searching the anchor list for its first occurrence;
    /// an absent address is reported as `AddressNotFound`.
    pub fn set_poll_tx_ts(&mut self, anchor_addr: u16, poll_tx_ts: u64) -> (r: Result<
        (),
        TwrError,
    >)
        ensures
            match old(self)@.anchors.index_of_first(anchor_addr) {
                Option::Some(i) => {
                    if i < old(self)@.poll_tx_ts.len() {
                        r == Ok::<(), TwrError>(()) && final(self)@ == (TagMachineView {
                            poll_tx_ts: old(self)@.poll_tx_ts.update(i, poll_tx_ts),
                            ..old(self)@
                        })
                    } else {
                        r == Err::<(), TwrError>(TwrError::IndexOutOfRange) && *final(self) == *old(self)
                    }
                },
                Option::None => r == Err::<(), TwrError>(TwrError::AddressNotFound) && *final(self)
                    == *old(self),
            },
    {
        match find_addr(&self.anchors, anchor_addr) {
            Some(i) => self.set_poll_tx_ts_idx(i, poll_tx_ts),
            None => Err(TwrError::AddressNotFound),
        }
    }

    /// Writes the Poll receive timestamp of the anchor at `anchor_idx`.
    pub fn set_poll_rx_ts_idx(&mut self, anchor_idx: usize, poll_rx_ts: u64) -> (r: Result<
        (),
        TwrError,
    >)
        ensures
            anchor_idx < old(self)@.poll_rx_ts.len() ==> r == Ok::<(), TwrError>(()) && final(self)@
                == (TagMachineView {
                poll_rx_ts: old(self)@.poll_rx_ts.update(anchor_idx as int, poll_rx_ts),
                ..old(self)@
            }),
            anchor_idx >= old(self)@.poll_rx_ts.len() ==> r == Err::<(), TwrError>(
                TwrError::IndexOutOfRange,
            ) && *final(self) == *old(self),
    {
        if anchor_idx >= ts_len(&self.poll_rx_ts) {
            return Err(TwrError::IndexOutOfRange);
        }
        ts_set(&mut self.poll_rx_ts, anchor_idx, poll_rx_ts);
        Ok(())
    }

    /// Writes the Poll receive timestamp of the anchor whose address is
    /// `anchor_addr`; an absent address is reported as `AddressNotFound`.
    pub fn set_poll_rx_ts(&mut self, anchor_addr: u16, poll_rx_ts: u64) -> (r: Result<
        (),
        TwrError,
    >)
        ensures
            match old(self)@.anchors.index_of_first(anchor_addr) {
                Option::Some(i) => {
                    if i < old(self)@.poll_rx_ts.len() {
                        r == Ok::<(), TwrError>(()) && final(self)@ == (TagMachineView {
                            poll_rx_ts: old(self)@.poll_rx_ts.update(i, poll_rx_ts),
                            ..old(self)@
                        })
                    } else {
                        r == Err::<(), TwrError>(TwrError::IndexOutOfRange) && *final(self) == *old(self)
                    }
                },
                Option::None => r == Err::<(), TwrError>(TwrError::AddressNotFound) && *final(self)
                    == *old(self),
            },
    {
        match find_addr(&self.anchors, anchor_addr) {
            Some(i) => self.set_poll_rx_ts_idx(i, poll_rx_ts),
            None => Err(TwrError::AddressNotFound),
        }
    }

    /// Enters `WaitingForAnchorFinal`; every field is carried over.
    pub fn waiting_for_anchor_final(self) -> (r: TagSideStateMachine<WaitingForAnchorFinal>)
        ensures
            r@ == self@,
    {
        TagSideStateMachine {
            address: self.address,
            anchors: self.anchors,
            tags: self.tags,
            poll_tx_ts: self.poll_tx_ts,
            poll_rx_ts: self.poll_rx_ts,
            response_tx_ts: self.response_tx_ts,
            response_rx_ts: self.response_rx_ts,
            final_tx_ts: self.final_tx_ts,
            final_rx_ts: self.final_rx_ts,
            _state: WaitingForAnchorFinal,
        }
    }
}

impl TagSideStateMachine<WaitingForAnchorFinal> {
    /// Records this tag's Response transmit timestamp.
    pub fn set_response_tx_ts(&mut self, response_tx_ts: u64)
        ensures
            final(self)@ == (TagMachineView { response_tx_ts, ..old(self)@ }),
    {
        self.response_tx_ts = response_tx_ts;
    }

    /// Writes the Response receive timestamp of the anchor at `anchor_idx`.
    pub fn set_response_rx_ts_idx(&mut self, anchor_idx: usize, response_rx_ts: u64) -> (r: Result<
        (),
        TwrError,
    >)
        ensures
            anchor_idx < old(self)@.response_rx_ts.len() ==> r == Ok::<(), TwrError>(()) && final(self)@ == (TagMachineView {
                response_rx_ts: old(self)@.response_rx_ts.update(anchor_idx as int, response_rx_ts),
                ..old(self)@
            }),
            anchor_idx >= old(self)@.response_rx_ts.len() ==> r == Err::<(), TwrError>(
                TwrError::IndexOutOfRange,
            ) && *final(self) == *old(self),
    {
        if anchor_idx >= ts_len(&self.response_rx_ts) {
            return Err(TwrError::IndexOutOfRange);
        }
        ts_set(&mut self.response_rx_ts, anchor_idx, response_rx_ts);
        Ok(())
    }

    /// Writes the Response receive timestamp of the anchor whose address is
    /// `anchor_addr`; an absent address is reported as `AddressNotFound`.
    pub fn set_response_rx_ts(&mut self, anchor_addr: u16, response_rx_ts: u64) -> (r: Result<
        (),
        TwrError,
    >)
        ensures
            match old(self)@.anchors.index_of_first(anchor_addr) {
                Option::Some(i) => {
                    if i < old(self)@.response_rx_ts.len() {
                        r == Ok::<(), TwrError>(()) && final(self)@ == (TagMachineView {
                            response_rx_ts: old(self)@.response_rx_ts.update(i, response_rx_ts),
                            ..old(self)@
                        })
                    } else {
                        r == Err::<(), TwrError>(TwrError::IndexOutOfRange) && *final(self) == *old(self)
                    }
                },
                Option::None => r == Err::<(), TwrError>(TwrError::AddressNotFound) && *final(self)
                    == *old(self),
            },
    {
        match find_addr(&self.anchors, anchor_addr) {
            Some(i) => self.set_response_rx_ts_idx(i, response_rx_ts),
            None => Err(TwrError::AddressNotFound),
        }
    }

    /// Writes the Final transmit timestamp (parsed from the Final message)
    /// of the anchor at `anchor_idx`.
    pub fn set_final_tx_ts_idx(&mut self, anchor_idx: usize, final_tx_ts: u64) -> (r: Result<
        (),
        TwrError,
    >)
        ensures
            anchor_idx < old(self)@.final_tx_ts.len() ==> r == Ok::<(), TwrError>(()) && final(self)@ == (TagMachineView {
                final_tx_ts: old(self)@.final_tx_ts.update(anchor_idx as int, final_tx_ts),
                ..old(self)@
            }),
            anchor_idx >= old(self)@.final_tx_ts.len() ==> r == Err::<(), TwrError>(
                TwrError::IndexOutOfRange,
            ) && *final(self) == *old(self),
    {
        if anchor_idx >= ts_len(&self.final_tx_ts) {
            return Err(TwrError::IndexOutOfRange);
        }
        ts_set(&mut self.final_tx_ts, anchor_idx, final_tx_ts);
        Ok(())
    }

    /// Writes the Final transmit timestamp of the anchor whose address is
    /// `anchor_addr`; an absent address is reported as `AddressNotFound`.
    pub fn set_final_tx_ts(&mut self, anchor_addr: u16, final_tx_ts: u64) -> (r: Result<
        (),
        TwrError,
    >)
        ensures
            match old(self)@.anchors.index_of_first(anchor_addr) {
                Option::Some(i) => {
                    if i < old(self)@.final_tx_ts.len() {
                        r == Ok::<(), TwrError>(()) && final(self)@ == (TagMachineView {
                            final_tx_ts: old(self)@.final_tx_ts.update(i, final_tx_ts),
                            ..old(self)@
                        })
                    } else {
                        r == Err::<(), TwrError>(TwrError::IndexOutOfRange) && *final(self) == *old(self)
                    }
                },
                Option::None => r == Err::<(), TwrError>(TwrError::AddressNotFound) && *final(self)
                    == *old(self),
            },
    {
        match find_addr(&self.anchors, anchor_addr) {
            Some(i) => self.set_final_tx_ts_idx(i, final_tx_ts),
            None => Err(TwrError::AddressNotFound),
        }
    }

    /// Writes the Final receive timestamp (read from the receive timestamp
    /// register) of the anchor at `anchor_idx`.
    pub fn set_final_rx_ts_idx(&mut self, anchor_idx: usize, final_rx_ts: u64) -> (r: Result<
        (),
        TwrError,
    >)
        ensures
            anchor_idx < old(self)@.final_rx_ts.len() ==> r == Ok::<(), TwrError>(()) && final(self)@ == (TagMachineView {
                final_rx_ts: old(self)@.final_rx_ts.update(anchor_idx as int, final_rx_ts),
                ..old(self)@
            }),
            anchor_idx >= old(self)@.final_rx_ts.len() ==> r == Err::<(), TwrError>(
                TwrError::IndexOutOfRange,
            ) && *final(self) == *old(self),
    {
        if anchor_idx >= ts_len(&self.final_rx_ts) {
            return Err(TwrError::IndexOutOfRange);
        }
        ts_set(&mut self.final_rx_ts, anchor_idx, final_rx_ts);
        Ok(())
    }

    /// Writes the Final receive timestamp of the anchor whose address is
    /// `anchor_addr`; an absent address is reported as `AddressNotFound`.
    pub fn set_final_rx_ts(&mut self, anchor_addr: u16, final_rx_ts: u64) -> (r: Result<
        (),
        TwrError,
    >)
        ensures
            match old(self)@.anchors.index_of_first(anchor_addr) {
                Option::Some(i) => {
                    if i < old(self)@.final_rx_ts.len() {
                        r == Ok::<(), TwrError>(()) && final(self)@ == (TagMachineView {
                            final_rx_ts: old(self)@.final_rx_ts.update(i, final_rx_ts),
                            ..old(self)@
                        })
                    } else {
                        r == Err::<(), TwrError>(TwrError::IndexOutOfRange) && *final(self) == *old(self)
                    }
                },
                Option::None => r == Err::<(), TwrError>(TwrError::AddressNotFound) && *final(self)
                    == *old(self),
            },
    {
        match find_addr(&self.anchors, anchor_addr) {
            Some(i) => self.set_final_rx_ts_idx(i, final_rx_ts),
            None => Err(TwrError::AddressNotFound),
        }
    }

    /// Ends the round and returns to `Idle`. Every collected timestamp is
    /// carried over, so the ranging-math consumer may still read them at the
    /// reset; the next round overwrites them.
    pub fn idle(self) -> (r: TagSideStateMachine<Idle>)
        ensures
            r@ == self@,
    {
        TagSideStateMachine {
            address: self.address,
            anchors: self.anchors,
            tags: self.tags,
            poll_tx_ts: self.poll_tx_ts,
            poll_rx_ts: self.poll_rx_ts,
            response_tx_ts: self.response_tx_ts,
            response_rx_ts: self.response_rx_ts,
            final_tx_ts: self.final_tx_ts,
            final_rx_ts: self.final_rx_ts,
            _state: Idle,
        }
    }
}

/// For every address that first occurs at position `idx` of the anchor list,
/// the address-keyed setters and the index-keyed setters agree: the address
/// search resolves to exactly `idx`, so both update the same slot and leave
/// identical machines.
pub proof fn lemma_addr_index_consistent(anchors: Seq<u16>, addr: u16, idx: int)
    requires
        0 <= idx < anchors.len(),
        anchors[idx] == addr,
        forall|j: int| 0 <= j < idx ==> anchors[j] != addr,
    ensures
        anchors.index_of_first(addr) == Some(idx),
{
    anchors.index_of_first_ensures(addr);
    assert(anchors.contains(addr));
    let found = anchors.index_of_first(addr).unwrap();
    if found < idx {
        assert(anchors[found] != addr);
    }
    if idx < found {
        assert(anchors[idx] != addr);
    }
}

/// The tag-side machine with its phase erased into a closed sum.
pub enum AnyTagSideStateMachineErased {
    /// The `Idle` phase.
    Idle(TagSideStateMachine<Idle>),
    /// The `WaitingForAnchorPoll` phase.
    WaitingForAnchorPoll(TagSideStateMachine<WaitingForAnchorPoll>),
    /// The `WaitingForAnchorFinal` phase.
    WaitingForAnchorFinal(TagSideStateMachine<WaitingForAnchorFinal>),
}

/// Phase and contents of a type-erased tag-side machine.
#[verifier::ext_equal]
pub ghost enum AnyTagView {
    Idle(TagMachineView),
    WaitingForAnchorPoll(TagMachineView),
    WaitingForAnchorFinal(TagMachineView),
}

/// A phase-erased tag-side machine, for fixed-size homogeneous collections
/// of tags whose phases differ.
pub struct AnyTagSideStateMachine {
    state_machine: AnyTagSideStateMachineErased,
}

impl View for AnyTagSideStateMachine {
    type V = AnyTagView;

    closed spec fn view(&self) -> AnyTagView {
        match self.state_machine {
            AnyTagSideStateMachineErased::Idle(m) => AnyTagView::Idle(m@),
            AnyTagSideStateMachineErased::WaitingForAnchorPoll(m) => (
            AnyTagView::WaitingForAnchorPoll(m@)),
            AnyTagSideStateMachineErased::WaitingForAnchorFinal(m) => (
            AnyTagView::WaitingForAnchorFinal(m@)),
        }
    }
}

impl AnyTagSideStateMachine {
    /// A mutable view of the machine, if it is `Idle`; `None` is the normal
    /// probe result for any other phase, not an error.
    pub fn as_idle_mut(&mut self) -> (r: Option<&mut TagSideStateMachine<Idle>>)
        ensures
            old(self)@ is Idle ==> r is Some && old(self)@ == AnyTagView::Idle((*r.unwrap())@)
                && final(self)@ == AnyTagView::Idle((*final(r.unwrap()))@),
            !(old(self)@ is Idle) ==> r is None && *final(self) == *old(self),
    {
        match &mut self.state_machine {
            AnyTagSideStateMachineErased::Idle(m) => Some(m),
            _ => None,
        }
    }

    /// A mutable view of the machine, if it is `WaitingForAnchorPoll`.
    pub fn as_waiting_for_anchor_poll_mut(&mut self) -> (r: Option<
        &mut TagSideStateMachine<WaitingForAnchorPoll>,
    >)
        ensures
            old(self)@ is WaitingForAnchorPoll ==> r is Some && old(self)@
                == AnyTagView::WaitingForAnchorPoll((*r.unwrap())@) && final(self)@
                == AnyTagView::WaitingForAnchorPoll((*final(r.unwrap()))@),
            !(old(self)@ is WaitingForAnchorPoll) ==> r is None && *final(self) == *old(self),
    {
        match &mut self.state_machine {
            AnyTagSideStateMachineErased::WaitingForAnchorPoll(m) => Some(m),
            _ => None,
        }
    }

    /// A mutable view of the machine, if it is `WaitingForAnchorFinal`.
    pub fn as_waiting_for_anchor_final_mut(&mut self) -> (r: Option<
        &mut TagSideStateMachine<WaitingForAnchorFinal>,
    >)
        ensures
            old(self)@ is WaitingForAnchorFinal ==> r is Some && old(self)@
                == AnyTagView::WaitingForAnchorFinal((*r.unwrap())@) && final(self)@
                == AnyTagView::WaitingForAnchorFinal((*final(r.unwrap()))@),
            !(old(self)@ is WaitingForAnchorFinal) ==> r is None && *final(self) == *old(self),
    {
        match &mut self.state_machine {
            AnyTagSideStateMachineErased::WaitingForAnchorFinal(m) => Some(m),
            _ => None,
        }
    }

    /// Advances `Idle` to `WaitingForAnchorPoll` in place. In any other phase
    /// the machine is left unchanged and the attempt reports an error.
    pub fn to_waiting_for_anchor_poll(&mut self) -> (r: Result<(), ()>)
        ensures
            old(self)@ matches AnyTagView::Idle(v) ==> r == Ok::<(), ()>(()) && final(self)@
                == AnyTagView::WaitingForAnchorPoll(v),
            !(old(self)@ is Idle) ==> r == Err::<(), ()>(()) && *final(self) == *old(self),
    {
        let mut taken = AnyTagSideStateMachineErased::Idle(
            TagSideStateMachine::new(0, addr_new(), addr_new()),
        );
        core::mem::swap(&mut self.state_machine, &mut taken);
        match taken {
            AnyTagSideStateMachineErased::Idle(m) => {
                self.state_machine = AnyTagSideStateMachineErased::WaitingForAnchorPoll(
                    m.waiting_for_anchor_poll(),
                );
                Ok(())
            },
            other => {
                self.state_machine = other;
                Err(())
            },
        }
    }

    /// Advances `WaitingForAnchorPoll` to `WaitingForAnchorFinal` in place.
    /// In any other phase the machine is left unchanged and the attempt
    /// reports an error.
    pub fn to_waiting_for_anchor_final(&mut self) -> (r: Result<(), ()>)
        ensures
            old(self)@ matches AnyTagView::WaitingForAnchorPoll(v) ==> r == Ok::<(), ()>(())
                && final(self)@ == AnyTagView::WaitingForAnchorFinal(v),
            !(old(self)@ is WaitingForAnchorPoll) ==> r == Err::<(), ()>(()) && *final(self) == *old(self),
    {
        let mut taken = AnyTagSideStateMachineErased::Idle(
            TagSideStateMachine::new(0, addr_new(), addr_new()),
        );
        core::mem::swap(&mut self.state_machine, &mut taken);
        match taken {
            AnyTagSideStateMachineErased::WaitingForAnchorPoll(m) => {
                self.state_machine = AnyTagSideStateMachineErased::WaitingForAnchorFinal(
                    m.waiting_for_anchor_final(),
                );
                Ok(())
            },
            other => {
                self.state_machine = other;
                Err(())
            },
        }
    }

}

impl From<TagSideStateMachine<Idle>> for AnyTagSideStateMachine {
    fn from(state_machine: TagSideStateMachine<Idle>) -> (r: Self)
        ensures
            r@ == AnyTagView::Idle(state_machine@),
    {
        AnyTagSideStateMachine { state_machine: AnyTagSideStateMachineErased::Idle(state_machine) }
    }
}

impl vstd::std_specs::convert::FromSpecImpl<TagSideStateMachine<Idle>> for AnyTagSideStateMachine {
    open spec fn obeys_from_spec() -> bool {
        true
    }

    closed spec fn from_spec(m: TagSideStateMachine<Idle>) -> Self {
        AnyTagSideStateMachine { state_machine: AnyTagSideStateMachineErased::Idle(m) }
    }
}

impl From<TagSideStateMachine<WaitingForAnchorPoll>> for AnyTagSideStateMachine {
    fn from(state_machine: TagSideStateMachine<WaitingForAnchorPoll>) -> (r: Self)
        ensures
            r@ == AnyTagView::WaitingForAnchorPoll(state_machine@),
    {
        AnyTagSideStateMachine {
            state_machine: AnyTagSideStateMachineErased::WaitingForAnchorPoll(state_machine),
        }
    }
}

impl vstd::std_specs::convert::FromSpecImpl<TagSideStateMachine<WaitingForAnchorPoll>>
    for AnyTagSideStateMachine {
    open spec fn obeys_from_spec() -> bool {
        true
    }

    closed spec fn from_spec(m: TagSideStateMachine<WaitingForAnchorPoll>) -> Self {
        AnyTagSideStateMachine {
            state_machine: AnyTagSideStateMachineErased::WaitingForAnchorPoll(m),
        }
    }
}

impl From<TagSideStateMachine<WaitingForAnchorFinal>> for AnyTagSideStateMachine {
    fn from(state_machine: TagSideStateMachine<WaitingForAnchorFinal>) -> (r: Self)
        ensures
            r@ == AnyTagView::WaitingForAnchorFinal(state_machine@),
    {
        AnyTagSideStateMachine {
            state_machine: AnyTagSideStateMachineErased::WaitingForAnchorFinal(state_machine),
        }
    }
}

impl vstd::std_specs::convert::FromSpecImpl<TagSideStateMachine<WaitingForAnchorFinal>>
    for AnyTagSideStateMachine {
    open spec fn obeys_from_spec() -> bool {
        true
    }

    closed spec fn from_spec(m: TagSideStateMachine<WaitingForAnchorFinal>) -> Self {
        AnyTagSideStateMachine {
            state_machine: AnyTagSideStateMachineErased::WaitingForAnchorFinal(m),
        }
    }
}

/// Fallible conversion of the wrapper into the `Idle` machine; any other
/// phase is an error that drops nothing but the erasure.
impl TryFrom<AnyTagSideStateMachine> for TagSideStateMachine<Idle> {
    type Error = ();

    fn try_from(v: AnyTagSideStateMachine) -> (r: Result<Self, ()>)
        ensures
            v@ matches AnyTagView::Idle(m) ==> r is Ok && r.unwrap()@ == m,
            !(v@ is Idle) ==> r is Err,
    {
        match v.state_machine {
            AnyTagSideStateMachineErased::Idle(m) => Ok(m),
            _ => Err(()),
        }
    }
}

impl vstd::std_specs::convert::TryFromSpecImpl<AnyTagSideStateMachine>
    for TagSideStateMachine<Idle> {
    open spec fn obeys_try_from_spec() -> bool {
        true
    }

    closed spec fn try_from_spec(v: AnyTagSideStateMachine) -> Result<Self, ()> {
        match v.state_machine {
            AnyTagSideStateMachineErased::Idle(m) => Ok(m),
            _ => Err(()),
        }
    }
}

/// Fallible borrow of the machine inside the wrapper, typed to `Idle`;
/// any other phase is an error.
impl<'a> TryFrom<&'a AnyTagSideStateMachine> for &'a TagSideStateMachine<Idle> {
    type Error = ();

    fn try_from(v: &'a AnyTagSideStateMachine) -> (r: Result<Self, ()>)
        ensures
            v@ matches AnyTagView::Idle(m) ==> r is Ok && (*r.unwrap())@ == m,
            !(v@ is Idle) ==> r is Err,
    {
        match &v.state_machine {
            AnyTagSideStateMachineErased::Idle(m) => Ok(m),
            _ => Err(()),
        }
    }
}

impl<'a> vstd::std_specs::convert::TryFromSpecImpl<&'a AnyTagSideStateMachine>
    for &'a TagSideStateMachine<Idle> {
    open spec fn obeys_try_from_spec() -> bool {
        true
    }

    closed spec fn try_from_spec(v: &'a AnyTagSideStateMachine) -> Result<Self, ()> {
        match &v.state_machine {
            AnyTagSideStateMachineErased::Idle(m) => Ok(m),
            _ => Err(()),
        }
    }
}

/// Fallible conversion of the wrapper into the `WaitingForAnchorPoll` machine; any other
/// phase is an error that drops nothing but the erasure.
impl TryFrom<AnyTagSideStateMachine> for TagSideStateMachine<WaitingForAnchorPoll> {
    type Error = ();

    fn try_from(v: AnyTagSideStateMachine) -> (r: Result<Self, ()>)
        ensures
            v@ matches AnyTagView::WaitingForAnchorPoll(m) ==> r is Ok && r.unwrap()@ == m,
            !(v@ is WaitingForAnchorPoll) ==> r is Err,
    {
        match v.state_machine {
            AnyTagSideStateMachineErased::WaitingForAnchorPoll(m) => Ok(m),
            _ => Err(()),
        }
    }
}

impl vstd::std_specs::convert::TryFromSpecImpl<AnyTagSideStateMachine>
    for TagSideStateMachine<WaitingForAnchorPoll> {
    open spec fn obeys_try_from_spec() -> bool {
        true
    }

    closed spec fn try_from_spec(v: AnyTagSideStateMachine) -> Result<Self, ()> {
        match v.state_machine {
            AnyTagSideStateMachineErased::WaitingForAnchorPoll(m) => Ok(m),
            _ => Err(()),
        }
    }
}

/// Fallible borrow of the machine inside the wrapper, typed to `WaitingForAnchorPoll`;
/// any other phase is an error.
impl<'a> TryFrom<&'a AnyTagSideStateMachine> for &'a TagSideStateMachine<WaitingForAnchorPoll> {
    type Error = ();

    fn try_from(v: &'a AnyTagSideStateMachine) -> (r: Result<Self, ()>)
        ensures
            v@ matches AnyTagView::WaitingForAnchorPoll(m) ==> r is Ok && (*r.unwrap())@ == m,
            !(v@ is WaitingForAnchorPoll) ==> r is Err,
    {
        match &v.state_machine {
            AnyTagSideStateMachineErased::WaitingForAnchorPoll(m) => Ok(m),
            _ => Err(()),
        }
    }
}

impl<'a> vstd::std_specs::convert::TryFromSpecImpl<&'a AnyTagSideStateMachine>
    for &'a TagSideStateMachine<WaitingForAnchorPoll> {
    open spec fn obeys_try_from_spec() -> bool {
        true
    }

    closed spec fn try_from_spec(v: &'a AnyTagSideStateMachine) -> Result<Self, ()> {
        match &v.state_machine {
            AnyTagSideStateMachineErased::WaitingForAnchorPoll(m) => Ok(m),
            _ => Err(()),
        }
    }
}

/// Fallible conversion of the wrapper into the `WaitingForAnchorFinal` machine; any other
/// phase is an error that drops nothing but the erasure.
impl TryFrom<AnyTagSideStateMachine> for TagSideStateMachine<WaitingForAnchorFinal> {
    type Error = ();

    fn try_from(v: AnyTagSideStateMachine) -> (r: Result<Self, ()>)
        ensures
            v@ matches AnyTagView::WaitingForAnchorFinal(m) ==> r is Ok && r.unwrap()@ == m,
            !(v@ is WaitingForAnchorFinal) ==> r is Err,
    {
        match v.state_machine {
            AnyTagSideStateMachineErased::WaitingForAnchorFinal(m) => Ok(m),
            _ => Err(()),
        }
    }
}

impl vstd::std_specs::convert::TryFromSpecImpl<AnyTagSideStateMachine>
    for TagSideStateMachine<WaitingForAnchorFinal> {
    open spec fn obeys_try_from_spec() -> bool {
        true
    }

    closed spec fn try_from_spec(v: AnyTagSideStateMachine) -> Result<Self, ()> {
        match v.state_machine {
            AnyTagSideStateMachineErased::WaitingForAnchorFinal(m) => Ok(m),
            _ => Err(()),
        }
    }
}

/// Fallible borrow of the machine inside the wrapper, typed to `WaitingForAnchorFinal`;
/// any other phase is an error.
impl<'a> TryFrom<&'a AnyTagSideStateMachine> for &'a TagSideStateMachine<WaitingForAnchorFinal> {
    type Error = ();

    fn try_from(v: &'a AnyTagSideStateMachine) -> (r: Result<Self, ()>)
        ensures
            v@ matches AnyTagView::WaitingForAnchorFinal(m) ==> r is Ok && (*r.unwrap())@ == m,
            !(v@ is WaitingForAnchorFinal) ==> r is Err,
    {
        match &v.state_machine {
            AnyTagSideStateMachineErased::WaitingForAnchorFinal(m) => Ok(m),
            _ => Err(()),
        }
    }
}

impl<'a> vstd::std_specs::convert::TryFromSpecImpl<&'a AnyTagSideStateMachine>
    for &'a TagSideStateMachine<WaitingForAnchorFinal> {
    open spec fn obeys_try_from_spec() -> bool {
        true
    }

    closed spec fn try_from_spec(v: &'a AnyTagSideStateMachine) -> Result<Self, ()> {
        match &v.state_machine {
            AnyTagSideStateMachineErased::WaitingForAnchorFinal(m) => Ok(m),
            _ => Err(()),
        }
    }
}

} // verus!
