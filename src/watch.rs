use vstd::prelude::*;
use crate::error::EtcdError;
use crate::wire::{Event, WatchCreateRequest};

verus! {

/// The life of a watch subscription.
#[derive(Debug, Clone, Copy, PartialEq, Eq, Structural)]
pub enum WatchState {
    /// Built, the call not yet established.
    Unopened,
    /// The call is established and changes may arrive.
    Open,
    /// The feed has ended, failed or was never established; it does not
    /// resume.
    Closed,
}

/// What the inbound half of the call produced on one poll.
pub enum Inbound {
    /// A batch of zero or more changes, in the order the server sent them.
    Batch(Vec<Event>),
    /// The server closed the stream.
    End,
    /// The stream reported a failure.
    Failed,
}

/// What a poll of the subscription hands to its consumer.
pub enum Delivery {
    Events(Vec<Event>),
    Finished,
    Failed(EtcdError),
}

/// A subscription to the changes of one key.
pub struct Watch {
    key: Vec<u8>,
    state: WatchState,
    create_sent: bool,
}

impl Watch {
    pub closed spec fn key(&self) -> Seq<u8> {
        self.key@
    }

    pub closed spec fn state(&self) -> WatchState {
        self.state
    }

    /// Whether the request that opens the watch has been handed out.
    pub closed spec fn create_sent(&self) -> bool {
        self.create_sent
    }

    /// A subscription to `key`, not yet opened.
    pub fn new(key: Vec<u8>) -> (r: Self)
        ensures
            r.key() == key@,
            r.state() == WatchState::Unopened,
            !r.create_sent(),
    {
        Watch { key, state: WatchState::Unopened, create_sent: false }
    }

    /// The current state.
    pub fn current_state(&self) -> (r: WatchState)
        ensures
            r == self.state(),
    {
        self.state
    }

    /// The next request of the outbound half: the create request for the key
    /// the first time, and nothing after it.
    pub fn next_request(&mut self) -> (r: Option<WatchCreateRequest>)
        ensures
            final(self).key() == old(self).key(),
            final(self).state() == old(self).state(),
            final(self).create_sent(),
            r is Some <==> !old(self).create_sent(),
            r is Some ==> r->0.key@ == old(self).key(),
    {
        if self.create_sent {
            None
        } else {
            self.create_sent = true;
            Some(WatchCreateRequest { key: self.key.clone() })
        }
    }

    /// Records whether the call that carries the subscription was
    /// established. A failed call closes the subscription and is reported as
    /// [`EtcdError::Request`]; a subscription that is not waiting to be
    /// opened is left as it is.
    pub fn opened(&mut self, established: bool) -> (r: Result<(), EtcdError>)
        ensures
            final(self).key() == old(self).key(),
            final(self).create_sent() == old(self).create_sent(),
            old(self).state() != WatchState::Unopened ==> final(self).state() == old(self).state()
                && r is Ok,
            old(self).state() == WatchState::Unopened && established ==> final(self).state()
                == WatchState::Open && r is Ok,
            old(self).state() == WatchState::Unopened && !established ==> final(self).state()
                == WatchState::Closed && r == Err::<(), EtcdError>(EtcdError::Request),
    {
        match self.state {
            WatchState::Unopened => {
                if established {
                    self.state = WatchState::Open;
                    Ok(())
                } else {
                    self.state = WatchState::Closed;
                    Err(EtcdError::Request)
                }
            },
            _ => Ok(()),
        }
    }

    /// Hands one poll of the inbound half to the consumer. An open
    /// subscription passes a batch on unchanged and in order; the end of the
    /// stream or a failure closes it. A subscription that is not open
    /// delivers nothing more.
    pub fn receive(&mut self, item: Inbound) -> (r: Delivery)
        ensures
            final(self).key() == old(self).key(),
            final(self).create_sent() == old(self).create_sent(),
            old(self).state() != WatchState::Open ==> final(self).state() == old(self).state()
                && r is Finished,
            old(self).state() == WatchState::Open ==> match item {
                Inbound::Batch(events) => final(self).state() == WatchState::Open && r is Events
                    && r->Events_0@ == events@,
                Inbound::End => final(self).state() == WatchState::Closed && r is Finished,
                Inbound::Failed => final(self).state() == WatchState::Closed && r is Failed
                    && r->Failed_0 == EtcdError::Stream,
            },
    {
        match self.state {
            WatchState::Open => match item {
                Inbound::Batch(events) => Delivery::Events(events),
                Inbound::End => {
                    self.state = WatchState::Closed;
                    Delivery::Finished
                },
                Inbound::Failed => {
                    self.state = WatchState::Closed;
                    Delivery::Failed(EtcdError::Stream)
                },
            },
            _ => Delivery::Finished,
        }
    }
}

} // verus!
