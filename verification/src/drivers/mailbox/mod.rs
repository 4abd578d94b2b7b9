//! Mailboxes: the channel through which the ARM exchanges words with the VideoCore.
pub mod bcm2835_mbox;

use vstd::prelude::*;

use crate::once_slot::OnceSlot;

verus! {

#[derive(Debug, Clone, Copy, PartialEq, Eq, Structural)]
pub enum MailboxError {
    MailboxFull,
    MailboxEmpty,
    MailboxDisabled,
    MailboxAlreadyExists,
    MailboxNotInitialized,
    MailboxBusy,
}

pub type MailboxResult<T> = Result<T, MailboxError>;

/// A mailbox device that sends and receives 32-bit words.
pub trait Mailbox {
    /// This mailbox may answer whether it has room with `ready`. A mailbox states here what it
    /// does; where it states nothing, any answer may come.
    open spec fn ready_outcome(&self, ready: bool) -> bool {
        true
    }

    /// This mailbox may answer the sending of `data` with `failure` (`None` where it was sent).
    open spec fn send_outcome(&self, data: u32, failure: Option<MailboxError>) -> bool {
        true
    }

    /// This mailbox may answer a receive with `word`.
    open spec fn receive_outcome(&self, word: Option<u32>) -> bool {
        true
    }

    /// Enabling this mailbox may leave it as `after`.
    open spec fn enabled_as(&self, after: &Self) -> bool {
        true
    }

    fn enable(&mut self)
        ensures
            old(self).enabled_as(&*final(self)),
    ;

    fn disable(&mut self);

    /// There is room to send a word.
    fn ready(&self) -> (b: bool)
        ensures
            self.ready_outcome(b),
    ;

    fn send(&mut self, data: u32) -> (r: MailboxResult<()>)
        ensures
            old(self).send_outcome(
                data,
                match r {
                    Ok(_) => None,
                    Err(e) => Some(e),
                },
            ),
    ;

    /// Takes a received word, if one arrived.
    fn receive(&mut self) -> (r: Option<u32>)
        ensures
            old(self).receive_outcome(r),
    ;
}

/// A send may go ahead only when the mailbox has room: `MailboxFull` otherwise.
pub fn check_ready(ready: bool) -> (r: MailboxResult<()>)
    ensures
        r == (if ready {
            Ok::<(), MailboxError>(())
        } else {
            Err::<(), MailboxError>(MailboxError::MailboxFull)
        }),
{
    if !ready {
        return Err(MailboxError::MailboxFull);
    }
    Ok(())
}

/// The system mailbox and whether a user has taken it.
pub struct MailboxClient<M> {
    mbox: M,
    taken: bool,
}

impl<M: Mailbox> MailboxClient<M> {
    pub closed spec fn spec_mbox(&self) -> M {
        self.mbox
    }

    pub closed spec fn spec_taken(&self) -> bool {
        self.taken
    }

    /// A client of `mbox` that nobody has taken yet.
    pub fn new(mbox: M) -> (c: Self)
        ensures
            c.spec_mbox() == mbox,
            !c.spec_taken(),
    {
        MailboxClient { mbox, taken: false }
    }

    /// The mailbox of the client.
    pub fn mailbox(&self) -> (m: &M)
        ensures
            *m == self.spec_mbox(),
    {
        &self.mbox
    }

    /// Sends `data` when the mailbox has room; `MailboxFull` otherwise.
    pub fn send(&mut self, data: u32) -> (r: MailboxResult<()>)
        ensures
            final(self).spec_taken() == old(self).spec_taken(),
            (old(self).spec_mbox().ready_outcome(false) && r == Err::<(), MailboxError>(
                MailboxError::MailboxFull,
            ) && *final(self) == *old(self)) || (old(self).spec_mbox().ready_outcome(true) && old(self).spec_mbox().send_outcome(
                data,
                match r {
                    Ok(_) => None,
                    Err(e) => Some(e),
                },
            )),
    {
        let ready = self.mbox.ready();
        match check_ready(ready) {
            Ok(_) => self.mbox.send(data),
            Err(e) => Err(e),
        }
    }

    /// Takes a received word, if one arrived: what the mailbox answers.
    pub fn receive(&mut self) -> (r: Option<u32>)
        ensures
            final(self).spec_taken() == old(self).spec_taken(),
            old(self).spec_mbox().receive_outcome(r),
    {
        self.mbox.receive()
    }

    /// Marks the client taken and enables the mailbox; `MailboxBusy` when it is taken already.
    pub fn take(&mut self) -> (r: MailboxResult<()>)
        ensures
            r is Ok <==> !old(self).spec_taken(),
            r is Err ==> r == Err::<(), MailboxError>(MailboxError::MailboxBusy) && *final(self)
                == *old(self),
            r is Ok ==> old(self).spec_mbox().enabled_as(&final(self).spec_mbox()),
            final(self).spec_taken(),
    {
        if self.taken {
            return Err(MailboxError::MailboxBusy);
        }
        self.taken = true;
        self.mbox.enable();
        Ok(())
    }
}

/// Registers the system mailbox; `MailboxAlreadyExists` when one is registered.
pub fn register_mailbox<M: Mailbox>(slot: &mut OnceSlot<MailboxClient<M>>, mbox: M) -> (r:
    MailboxResult<()>)
    ensures
        r is Ok <==> old(slot).spec_get() is None,
        r is Ok ==> (final(slot).spec_get() matches Some(c) && c.spec_mbox() == mbox
            && !c.spec_taken()),
        r is Err ==> r == Err::<(), MailboxError>(MailboxError::MailboxAlreadyExists) && final(slot).spec_get() == old(slot).spec_get(),
{
    match slot.set(MailboxClient::new(mbox)) {
        Ok(()) => Ok(()),
        Err(_) => Err(MailboxError::MailboxAlreadyExists),
    }
}

/// What a call of `take_mailbox` may do to the slot holding `before`, leaving `after`, and
/// answer `r`: `MailboxNotInitialized` on an empty slot; otherwise `Ok` exactly when the client
/// was not taken yet, with its mailbox enabled, and `MailboxBusy`, with nothing changed, when
/// it was; the client is taken afterwards either way.
pub open spec fn take_mailbox_answers<M: Mailbox>(
    before: Option<MailboxClient<M>>,
    after: Option<MailboxClient<M>>,
    r: MailboxResult<()>,
) -> bool {
    match before {
        None => r == Err::<(), MailboxError>(MailboxError::MailboxNotInitialized) && after is None,
        Some(c) => {
            &&& (r is Ok <==> !c.spec_taken())
            &&& (r is Err ==> r == Err::<(), MailboxError>(MailboxError::MailboxBusy) && after == before)
            &&& (r is Ok ==> (after matches Some(c2) && c.spec_mbox().enabled_as(&c2.spec_mbox())))
            &&& (after matches Some(c2) && c2.spec_taken())
        },
    }
}

/// The system mailbox is taken at most once: of two calls of `take_mailbox` in a row, the
/// second never succeeds, and on a registered mailbox it answers `MailboxBusy`.
pub proof fn lemma_mailbox_taken_once<M: Mailbox>(
    s0: Option<MailboxClient<M>>,
    s1: Option<MailboxClient<M>>,
    s2: Option<MailboxClient<M>>,
    r1: MailboxResult<()>,
    r2: MailboxResult<()>,
)
    requires
        take_mailbox_answers(s0, s1, r1),
        take_mailbox_answers(s1, s2, r2),
    ensures
        r2 is Err,
        s0 is Some ==> r2 == Err::<(), MailboxError>(MailboxError::MailboxBusy),
        r1 is Ok ==> r2 == Err::<(), MailboxError>(MailboxError::MailboxBusy),
{
}

/// Takes the system mailbox for exclusive use and hands out its client:
/// `MailboxNotInitialized` when none is registered, `MailboxBusy` when it is taken already (see
/// [`take_mailbox_answers`]). What is done through the client handed out stays in the slot.
pub fn take_mailbox<M: Mailbox>(slot: &mut OnceSlot<MailboxClient<M>>) -> (r: MailboxResult<
    &mut MailboxClient<M>,
>)
    ensures
        match r {
            Ok(c) => take_mailbox_answers(old(slot).spec_get(), Some(*c), Ok(()))
                && final(slot).spec_get() == Some(*final(c)),
            Err(e) => take_mailbox_answers(old(slot).spec_get(), final(slot).spec_get(), Err(e)),
        },
{
    match slot.get_mut() {
        Some(client) => match client.take() {
            Ok(()) => Ok(client),
            Err(e) => Err(e),
        },
        None => Err(MailboxError::MailboxNotInitialized),
    }
}

} // verus!
