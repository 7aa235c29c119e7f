use crate::endpoint::{
    after_read, after_write, read_fits, write_count, write_fits, EndPoint, IoFailure, Readiness,
};
use crate::token::OutgoingToken;
use vstd::prelude::*;

verus! {

/// The two sides of a connection: `Front` faces the client, `Back` the upstream.
#[derive(PartialEq, Eq, Structural, Hash, Debug, Copy, Clone)]
pub enum EndPointType {
    Front,
    Back,
}

impl EndPointType {
    pub open spec fn slot(self) -> int {
        match self {
            EndPointType::Front => 0,
            EndPointType::Back => 1,
        }
    }

    pub open spec fn other(self) -> EndPointType {
        match self {
            EndPointType::Front => EndPointType::Back,
            EndPointType::Back => EndPointType::Front,
        }
    }
}

/// A fixed pair of values, one per side, reached by the side's tag.
pub struct EndPointList<T>(pub [T; 2]);

impl<T> EndPointList<T> {
    pub open spec fn at(&self, end_type: EndPointType) -> T {
        self.0@[end_type.slot()]
    }

    pub fn index(&self, end_type: EndPointType) -> (r: &T)
        ensures
            *r == self.at(end_type),
    {
        match end_type {
            EndPointType::Front => &self.0[0],
            EndPointType::Back => &self.0[1],
        }
    }

    pub fn index_mut(&mut self, end_type: EndPointType) -> (r: &mut T)
        ensures
            *r == old(self).at(end_type),
            final(self).at(end_type) == *final(r),
            final(self).at(end_type.other()) == old(self).at(end_type.other()),
    {
        match end_type {
            EndPointType::Front => &mut self.0[0],
            EndPointType::Back => &mut self.0[1],
        }
    }
}

/// Which endpoints hand their bytes to the peer in the second half of a tick.
#[derive(PartialEq, Eq, Structural, Debug, Copy, Clone)]
pub struct DrainPlan {
    pub front: bool,
    pub back: bool,
}

impl DrainPlan {
    pub open spec fn drains(self, end_type: EndPointType) -> bool {
        match end_type {
            EndPointType::Front => self.front,
            EndPointType::Back => self.back,
        }
    }
}

/// The readiness left after the first half of a tick: readable and
/// writable are consumed, hup and error stay.
pub open spec fn consumed(state: Readiness) -> Readiness {
    Readiness { readable: false, writable: false, ..state }
}

/// The bytes an endpoint holds after the first half of a tick: a read is
/// taken in only when the side was readable.
pub open spec fn absorbed(ep: EndPoint, read: Result<Vec<u8>, IoFailure>) -> Seq<u8> {
    if ep.readiness().readable {
        after_read(ep.pending(), read)
    } else {
        ep.pending()
    }
}

/// The bytes an endpoint holds after the second half of a tick.
pub open spec fn drained(ep: EndPoint, drains: bool, written: Result<usize, IoFailure>) -> Seq<u8> {
    if drains {
        after_write(ep.pending(), ep.has_peer(), written)
    } else {
        ep.pending()
    }
}

/// Whether the second half of a tick moved any byte out of this endpoint.
pub open spec fn sent_from(ep: EndPoint, drains: bool, written: Result<usize, IoFailure>) -> bool {
    drains && write_count(ep.pending(), ep.has_peer(), written) > 0
}

/// A relayed connection: the client-facing and upstream endpoints, each
/// writing what it absorbs to the other, and the upstream side's token.
pub struct Connection {
    points: EndPointList<EndPoint>,
    backend_token: OutgoingToken,
}

impl Connection {
    pub closed spec fn wf(&self) -> bool {
        &&& self.points.at(EndPointType::Front).wf()
        &&& self.points.at(EndPointType::Back).wf()
    }

    pub closed spec fn point(&self, end_type: EndPointType) -> EndPoint {
        self.points.at(end_type)
    }

    pub closed spec fn token(&self) -> OutgoingToken {
        self.backend_token
    }

    /// Neither endpoint of a well-formed connection holds more than its capacity.
    pub proof fn lemma_used_len_bounded(c: &Connection, end_type: EndPointType)
        requires
            c.wf(),
        ensures
            c.point(end_type).pending().len() <= crate::endpoint::BUFFER_SIZE,
    {
        EndPoint::lemma_used_len_bounded(&c.points.at(end_type));
    }

    /// Pairs two fresh endpoints. `front_peer` says whether the upstream
    /// socket could be duplicated as the front side's write handle, and
    /// `back_peer` whether the client socket could be for the back side.
    pub fn new(front_peer: bool, back_peer: bool, outgoing_token: OutgoingToken) -> (r: Connection)
        ensures
            r.wf(),
            r.token() == outgoing_token,
            r.point(EndPointType::Front).pending() == Seq::<u8>::empty(),
            r.point(EndPointType::Back).pending() == Seq::<u8>::empty(),
            r.point(EndPointType::Front).readiness() == Readiness::none(),
            r.point(EndPointType::Back).readiness() == Readiness::none(),
            r.point(EndPointType::Front).has_peer() == front_peer,
            r.point(EndPointType::Back).has_peer() == back_peer,
    {
        let mut front = EndPoint::new();
        let mut backend = EndPoint::new();
        front.set_peer_stream(front_peer);
        backend.set_peer_stream(back_peer);
        Connection { points: EndPointList([front, backend]), backend_token: outgoing_token }
    }

    /// Read-only access to one endpoint.
    pub fn endpoint(&self, end_type: EndPointType) -> (r: &EndPoint)
        requires
            self.wf(),
        ensures
            *r == self.point(end_type),
            r.wf(),
    {
        self.points.index(end_type)
    }

    fn merge(&mut self, end_type: EndPointType, events: Readiness)
        requires
            old(self).wf(),
        ensures
            final(self).wf(),
            final(self).token() == old(self).token(),
            final(self).point(end_type).readiness() == old(self).point(end_type).readiness().union(events),
            final(self).point(end_type).pending() == old(self).point(end_type).pending(),
            final(self).point(end_type).has_peer() == old(self).point(end_type).has_peer(),
            final(self).point(end_type.other()) == old(self).point(end_type.other()),
    {
        let point = self.points.index_mut(end_type);
        let mut state = point.state();
        state.insert(events);
        point.set_state(state);
    }

    /// Adds the poller's flags to the client side's readiness.
    pub fn incoming_ready(&mut self, events: Readiness)
        requires
            old(self).wf(),
        ensures
            final(self).wf(),
            final(self).token() == old(self).token(),
            final(self).point(EndPointType::Front).readiness()
                == old(self).point(EndPointType::Front).readiness().union(events),
            final(self).point(EndPointType::Front).pending() == old(self).point(EndPointType::Front).pending(),
            final(self).point(EndPointType::Front).has_peer() == old(self).point(EndPointType::Front).has_peer(),
            final(self).point(EndPointType::Back) == old(self).point(EndPointType::Back),
    {
        self.merge(EndPointType::Front, events);
    }

    /// Adds the poller's flags to the upstream side's readiness.
    pub fn outgoing_ready(&mut self, events: Readiness)
        requires
            old(self).wf(),
        ensures
            final(self).wf(),
            final(self).token() == old(self).token(),
            final(self).point(EndPointType::Back).readiness()
                == old(self).point(EndPointType::Back).readiness().union(events),
            final(self).point(EndPointType::Back).pending() == old(self).point(EndPointType::Back).pending(),
            final(self).point(EndPointType::Back).has_peer() == old(self).point(EndPointType::Back).has_peer(),
            final(self).point(EndPointType::Front) == old(self).point(EndPointType::Front),
    {
        self.merge(EndPointType::Back, events);
    }

    /// The upstream side hung up or failed.
    pub fn is_outgoing_closed(&self) -> (r: bool)
        ensures
            r == (self.point(EndPointType::Back).readiness().hup
                || self.point(EndPointType::Back).readiness().error),
    {
        self.points.index(EndPointType::Back).state().is_closed()
    }

    /// The client side hung up or failed.
    pub fn is_incoming_closed(&self) -> (r: bool)
        ensures
            r == (self.point(EndPointType::Front).readiness().hup
                || self.point(EndPointType::Front).readiness().error),
    {
        self.points.index(EndPointType::Front).state().is_closed()
    }

    /// First half of a tick for one side: take in its read if it was
    /// readable, consume its readable and writable flags, and report
    /// whether it was writable.
    fn absorb_side(&mut self, end_type: EndPointType, read: Result<Vec<u8>, IoFailure>) -> (writable: bool)
        requires
            old(self).wf(),
            read_fits(old(self).point(end_type).pending(), read),
        ensures
            final(self).wf(),
            final(self).token() == old(self).token(),
            final(self).point(end_type).pending() == absorbed(old(self).point(end_type), read),
            final(self).point(end_type).readiness() == consumed(old(self).point(end_type).readiness()),
            final(self).point(end_type).has_peer() == old(self).point(end_type).has_peer(),
            final(self).point(end_type.other()) == old(self).point(end_type.other()),
            writable == old(self).point(end_type).readiness().writable,
    {
        let point = self.points.index_mut(end_type);
        let mut state = point.state();
        if state.readable {
            point.absorb(read);
            state.readable = false;
        }
        let writable = state.writable;
        state.writable = false;
        point.set_state(state);
        writable
    }

    /// First half of a tick. Each side that was reported readable takes in
    /// the reply to one read of its socket (`front_read`, `back_read`; a
    /// side that was not readable ignores its reply) and loses its readable
    /// flag, full buffer or not. Each side that was reported writable loses
    /// its writable flag, and the other side, whose bytes go to it, is
    /// planned to drain.
    pub fn begin_tick(
        &mut self,
        front_read: Result<Vec<u8>, IoFailure>,
        back_read: Result<Vec<u8>, IoFailure>,
    ) -> (plan: DrainPlan)
        requires
            old(self).wf(),
            read_fits(old(self).point(EndPointType::Front).pending(), front_read),
            read_fits(old(self).point(EndPointType::Back).pending(), back_read),
        ensures
            final(self).wf(),
            final(self).token() == old(self).token(),
            final(self).point(EndPointType::Front).pending()
                == absorbed(old(self).point(EndPointType::Front), front_read),
            final(self).point(EndPointType::Back).pending()
                == absorbed(old(self).point(EndPointType::Back), back_read),
            forall|t: EndPointType| #[trigger] final(self).point(t).readiness()
                == consumed(old(self).point(t).readiness()),
            forall|t: EndPointType| #[trigger] final(self).point(t).has_peer()
                == old(self).point(t).has_peer(),
            plan.front == old(self).point(EndPointType::Back).readiness().writable,
            plan.back == old(self).point(EndPointType::Front).readiness().writable,
    {
        let front_writable = self.absorb_side(EndPointType::Front, front_read);
        let back_writable = self.absorb_side(EndPointType::Back, back_read);
        proof {
            assert forall|t: EndPointType| #[trigger] self.point(t).readiness()
                == consumed(old(self).point(t).readiness()) by {
                match t {
                    EndPointType::Front => {},
                    EndPointType::Back => {},
                }
            }
            assert forall|t: EndPointType| #[trigger] self.point(t).has_peer()
                == old(self).point(t).has_peer() by {
                match t {
                    EndPointType::Front => {},
                    EndPointType::Back => {},
                }
            }
        }
        DrainPlan { front: back_writable, back: front_writable }
    }

    /// Second half of one side: hand it the reply to a write of its bytes
    /// if it is planned to drain.
    fn drain_side(&mut self, end_type: EndPointType, drains: bool, written: Result<usize, IoFailure>) -> (sent: bool)
        requires
            old(self).wf(),
            drains ==> write_fits(old(self).point(end_type).pending(), old(self).point(end_type).has_peer(), written),
        ensures
            final(self).wf(),
            final(self).token() == old(self).token(),
            final(self).point(end_type).pending() == drained(old(self).point(end_type), drains, written),
            final(self).point(end_type).readiness() == old(self).point(end_type).readiness(),
            final(self).point(end_type).has_peer() == old(self).point(end_type).has_peer(),
            final(self).point(end_type.other()) == old(self).point(end_type.other()),
            sent == sent_from(old(self).point(end_type), drains, written),
    {
        if drains {
            let point = self.points.index_mut(end_type);
            point.pipe_to_peer(written) > 0
        } else {
            false
        }
    }

    /// Second half of a tick: each side planned to drain takes the reply to
    /// one write of its unsent bytes to the peer (`front_written`,
    /// `back_written`; a side that is not planned, or had nothing to send
    /// or no peer handle, ignores its reply). Returns whether any byte was
    /// sent.
    pub fn tick(
        &mut self,
        plan: DrainPlan,
        front_written: Result<usize, IoFailure>,
        back_written: Result<usize, IoFailure>,
    ) -> (sent: bool)
        requires
            old(self).wf(),
            plan.front ==> write_fits(
                old(self).point(EndPointType::Front).pending(),
                old(self).point(EndPointType::Front).has_peer(),
                front_written,
            ),
            plan.back ==> write_fits(
                old(self).point(EndPointType::Back).pending(),
                old(self).point(EndPointType::Back).has_peer(),
                back_written,
            ),
        ensures
            final(self).wf(),
            final(self).token() == old(self).token(),
            final(self).point(EndPointType::Front).pending()
                == drained(old(self).point(EndPointType::Front), plan.front, front_written),
            final(self).point(EndPointType::Back).pending()
                == drained(old(self).point(EndPointType::Back), plan.back, back_written),
            forall|t: EndPointType| #[trigger] final(self).point(t).readiness()
                == old(self).point(t).readiness(),
            forall|t: EndPointType| #[trigger] final(self).point(t).has_peer()
                == old(self).point(t).has_peer(),
            sent == (sent_from(old(self).point(EndPointType::Front), plan.front, front_written)
                || sent_from(old(self).point(EndPointType::Back), plan.back, back_written)),
    {
        let front_sent = self.drain_side(EndPointType::Front, plan.front, front_written);
        let back_sent = self.drain_side(EndPointType::Back, plan.back, back_written);
        proof {
            assert forall|t: EndPointType| #[trigger] self.point(t).readiness()
                == old(self).point(t).readiness() by {
                match t {
                    EndPointType::Front => {},
                    EndPointType::Back => {},
                }
            }
            assert forall|t: EndPointType| #[trigger] self.point(t).has_peer()
                == old(self).point(t).has_peer() by {
                match t {
                    EndPointType::Front => {},
                    EndPointType::Back => {},
                }
            }
        }
        front_sent || back_sent
    }

    pub fn outgoing_token(&self) -> (r: OutgoingToken)
        ensures
            r == self.token(),
    {
        self.backend_token
    }
}

} // verus!
