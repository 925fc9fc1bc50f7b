use crate::task::ServoTask;
use embassy_sync::blocking_mutex::raw::NoopRawMutex;
use embassy_sync::signal::Signal;
use vstd::prelude::*;

verus! {

/// A single-slot mailbox of commands: a send replaces any command not yet
/// received. The slot is an embassy `Signal`; Verus sees it only through
/// [`mailbox_contents`] and the three functions below.
#[verifier::external_body]
pub struct Mailbox {
    slot: Signal<NoopRawMutex, ServoTask>,
}

/// What the mailbox's signal holds: empty, or the one value last signaled.
pub uninterp spec fn mailbox_contents(m: Mailbox) -> Seq<ServoTask>;

/// Relies on `Signal::new`: a new signal holds no value.
#[verifier::external_body]
fn slot_new() -> (r: Mailbox)
    ensures
        mailbox_contents(r) == Seq::<ServoTask>::empty(),
{
    Mailbox { slot: Signal::new() }
}

/// Relies on `Signal::signal`: the state is replaced by the new value, whatever
/// it held before.
#[verifier::external_body]
fn slot_put(m: &mut Mailbox, task: ServoTask)
    ensures
        mailbox_contents(*final(m)) == seq![task],
{
    m.slot.signal(task)
}

/// Relies on `Signal::try_take`: a held value is returned and the signal
/// emptied; an empty signal stays as it is and gives `None`.
#[verifier::external_body]
fn slot_take(m: &mut Mailbox) -> (r: Option<ServoTask>)
    ensures
        mailbox_contents(*old(m)).len() == 0 ==> r is None && mailbox_contents(*final(m))
            == mailbox_contents(*old(m)),
        mailbox_contents(*old(m)).len() > 0 ==> r == Some(mailbox_contents(*old(m))[0])
            && mailbox_contents(*final(m)).len() == 0,
{
    m.slot.try_take()
}

/// The mailbox after a send of `task`.
pub open spec fn after_send(pending: Option<ServoTask>, task: ServoTask) -> Option<ServoTask> {
    Some(task)
}

/// What a receive returns, and the mailbox after it.
pub open spec fn after_receive(pending: Option<ServoTask>) -> (Option<ServoTask>, Option<ServoTask>) {
    (pending, None)
}

impl View for Mailbox {
    type V = Option<ServoTask>;

    closed spec fn view(&self) -> Option<ServoTask> {
        let c = mailbox_contents(*self);
        if c.len() == 0 {
            None
        } else {
            Some(c[0])
        }
    }
}

impl Mailbox {
    /// At most one command waits.
    pub closed spec fn wf(&self) -> bool {
        mailbox_contents(*self).len() <= 1
    }

    pub fn new() -> (r: Mailbox)
        ensures
            r.wf(),
            r@ is None,
    {
        slot_new()
    }

    /// Posts `task`, replacing any command not yet received.
    pub fn send(&mut self, task: ServoTask)
        requires
            old(self).wf(),
        ensures
            final(self).wf(),
            final(self)@ == after_send(old(self)@, task),
    {
        slot_put(self, task)
    }

    /// Takes the waiting command, if any, and leaves the mailbox empty.
    pub fn receive(&mut self) -> (r: Option<ServoTask>)
        requires
            old(self).wf(),
        ensures
            final(self).wf(),
            r == after_receive(old(self)@).0,
            final(self)@ == after_receive(old(self)@).1,
    {
        slot_take(self)
    }
}

/// Last write wins: of two commands sent with no receive between them, the
/// one receive that follows sees only the second, and a further receive sees
/// nothing.
pub proof fn lemma_last_write_wins(pending: Option<ServoTask>, a: ServoTask, b: ServoTask)
    ensures
        after_receive(after_send(after_send(pending, a), b)) == (Some(b), None::<ServoTask>),
        after_receive(after_receive(after_send(after_send(pending, a), b)).1).0 is None,
{
}

} // verus!
