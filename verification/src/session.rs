//! The shared session, created at most once.
//!
//! A [`UserInstance`] holds the session once there is one. Whoever needs
//! the session asks with [`UserInstance::get`]: the first to ask is told
//! to authenticate, those who ask while that attempt runs are told to wait
//! for it, and once it has succeeded everyone is told that the session is
//! there. [`UserInstance::settle`] ends the attempt. A failure is handed
//! to all who were waiting and is not kept: the next to ask is told to
//! authenticate again.

use vstd::prelude::*;
use crate::error::{Error, ErrorKind};

verus! {

/// What a caller who asked for the session is to do.
#[derive(Clone, Copy, Debug, PartialEq, Eq, Structural)]
pub enum Access {
    /// The session is there: take it.
    Ready,
    /// No session and no attempt under way: authenticate, then settle.
    Authenticate,
    /// An attempt is under way: wait until it is settled.
    Wait,
}

/// The mathematical model of a [`UserInstance`].
pub enum CacheView<S> {
    /// No session, and no attempt to get one is under way.
    Empty,
    /// No session yet; one attempt to get one is under way.
    Initializing,
    /// The session.
    Ready(S),
}

/// What happens to a session cache.
pub enum CacheEvent<S> {
    /// A caller asks for the session.
    Get,
    /// An attempt to authenticate has ended, with the session or without.
    Settled(Result<S, String>),
}

impl<S> CacheView<S> {
    /// The answer to a caller who asks for the session.
    pub open spec fn answer(self) -> Access {
        match self {
            CacheView::Empty => Access::Authenticate,
            CacheView::Initializing => Access::Wait,
            CacheView::Ready(_) => Access::Ready,
        }
    }

    /// The cache after a caller has asked: an empty cache has an attempt
    /// under way from then on.
    pub open spec fn get(self) -> CacheView<S> {
        match self {
            CacheView::Empty => CacheView::Initializing,
            _ => self,
        }
    }

    /// The cache after an attempt has ended: with its session if it
    /// brought one, empty again if not. Without an attempt under way
    /// nothing changes.
    pub open spec fn settle(self, outcome: Result<S, String>) -> CacheView<S> {
        match (self, outcome) {
            (CacheView::Initializing, Ok(session)) => CacheView::Ready(session),
            (CacheView::Initializing, Err(_)) => CacheView::Empty,
            _ => self,
        }
    }

    /// The cache after `event`.
    pub open spec fn step(self, event: CacheEvent<S>) -> CacheView<S> {
        match event {
            CacheEvent::Get => self.get(),
            CacheEvent::Settled(outcome) => self.settle(outcome),
        }
    }

    /// The cache after `events`, one after the other.
    pub open spec fn after(self, events: Seq<CacheEvent<S>>) -> CacheView<S>
        decreases events.len(),
    {
        if events.len() == 0 {
            self
        } else {
            self.after(events.drop_last()).step(events.last())
        }
    }

    /// How many callers were told to authenticate in the course of `events`.
    pub open spec fn authentications(self, events: Seq<CacheEvent<S>>) -> nat
        decreases events.len(),
    {
        if events.len() == 0 {
            0
        } else {
            let before = self.after(events.drop_last());
            self.authentications(events.drop_last()) + if events.last() is Get && before.answer()
                == Access::Authenticate {
                1nat
            } else {
                0nat
            }
        }
    }

    /// How many attempts ended without a session in the course of `events`.
    pub open spec fn failures(self, events: Seq<CacheEvent<S>>) -> nat
        decreases events.len(),
    {
        if events.len() == 0 {
            0
        } else {
            let before = self.after(events.drop_last());
            self.failures(events.drop_last()) + if before is Initializing && events.last() matches CacheEvent::Settled(
                Err(_),
            ) {
                1nat
            } else {
                0nat
            }
        }
    }
}

/// Authentication runs once, and once more for each attempt that failed:
/// from an empty cache, as many callers are told to authenticate as
/// attempts have failed, and one more unless the cache is empty again. So
/// as long as no attempt fails, at most one caller ever authenticates,
/// however many ask.
pub proof fn lemma_authentication_runs_once<S>(events: Seq<CacheEvent<S>>)
    ensures
        CacheView::<S>::Empty.authentications(events) == CacheView::<S>::Empty.failures(events)
            + if CacheView::<S>::Empty.after(events) is Empty {
            0nat
        } else {
            1nat
        },
    decreases events.len(),
{
    if events.len() > 0 {
        lemma_authentication_runs_once(events.drop_last());
    }
}

/// A session that is there stays: nothing that happens afterwards
/// replaces or drops it, and nobody is told to authenticate again.
pub proof fn lemma_session_is_kept<S>(session: S, events: Seq<CacheEvent<S>>)
    ensures
        CacheView::Ready(session).after(events) == CacheView::Ready(session),
        CacheView::Ready(session).authentications(events) == 0,
    decreases events.len(),
{
    if events.len() > 0 {
        lemma_session_is_kept(session, events.drop_last());
    }
}

/// All who ask while an attempt is under way wait for that one attempt:
/// none of them is told to authenticate, and the cache is as it was, so
/// that the one settlement that follows reaches them all alike.
pub proof fn lemma_callers_share_the_attempt<S>(callers: Seq<CacheEvent<S>>)
    requires
        forall|i: int| 0 <= i < callers.len() ==> callers[i] is Get,
    ensures
        CacheView::<S>::Initializing.after(callers) == CacheView::<S>::Initializing,
        CacheView::<S>::Initializing.authentications(callers) == 0,
    decreases callers.len(),
{
    if callers.len() > 0 {
        lemma_callers_share_the_attempt(callers.drop_last());
    }
}

enum Slot<S> {
    Empty,
    Initializing,
    Ready(S),
}

/// The cache of the one shared session.
pub struct UserInstance<S> {
    slot: Slot<S>,
}

impl<S> View for UserInstance<S> {
    type V = CacheView<S>;

    closed spec fn view(&self) -> CacheView<S> {
        match self.slot {
            Slot::Empty => CacheView::Empty,
            Slot::Initializing => CacheView::Initializing,
            Slot::Ready(session) => CacheView::Ready(session),
        }
    }
}

impl<S> Default for UserInstance<S> {
    /// A cache without a session.
    fn default() -> (cache: Self)
        ensures
            cache@ == CacheView::<S>::Empty,
    {
        UserInstance::new()
    }
}

impl<S> UserInstance<S> {
    /// A cache without a session.
    pub fn new() -> (cache: Self)
        ensures
            cache@ == CacheView::<S>::Empty,
    {
        UserInstance { slot: Slot::Empty }
    }

    /// Asks for the session on behalf of one caller and says what that
    /// caller is to do. The caller who is told to authenticate does so and
    /// reports with [`settle`](Self::settle); no other is told so until then.
    pub fn get(&mut self) -> (access: Access)
        ensures
            access == old(self)@.answer(),
            final(self)@ == old(self)@.get(),
    {
        match &self.slot {
            Slot::Empty => {
                self.slot = Slot::Initializing;
                Access::Authenticate
            },
            Slot::Initializing => Access::Wait,
            Slot::Ready(_) => Access::Ready,
        }
    }

    /// The session, if it is there.
    pub fn session(&self) -> (session: Option<&S>)
        ensures
            match self@ {
                CacheView::Ready(kept) => session == Some(&kept),
                _ => session is None,
            },
    {
        match &self.slot {
            Slot::Ready(session) => Some(session),
            _ => None,
        }
    }

    /// Ends the attempt under way with its outcome, and returns what every
    /// caller who was told to authenticate or to wait is to receive: that
    /// the session is there, or the authentication error. A failure is
    /// not kept. `None`, and no change, if no attempt was under way.
    pub fn settle(&mut self, outcome: Result<S, String>) -> (released: Option<Result<(), Error>>)
        ensures
            final(self)@ == old(self)@.settle(outcome),
            match (old(self)@, outcome) {
                (CacheView::Initializing, Ok(_)) => released == Some(Ok::<(), Error>(())),
                (CacheView::Initializing, Err(reason)) => released == Some(
                    Err::<(), Error>(Error { kind: ErrorKind::Authentication, message: reason }),
                ),
                _ => released is None,
            },
    {
        match &self.slot {
            Slot::Initializing => match outcome {
                Ok(session) => {
                    self.slot = Slot::Ready(session);
                    Some(Ok(()))
                },
                Err(reason) => {
                    self.slot = Slot::Empty;
                    Some(Err(Error::new(ErrorKind::Authentication, reason)))
                },
            },
            _ => None,
        }
    }
}

} // verus!
