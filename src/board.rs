use vstd::prelude::*;
use crate::event::{InputEvent, KEY_ESC};
use crate::keys::{key_name, key_name_of};
use crossbeam_channel::Receiver;

verus! {

/// The receiving end of a crossbeam channel, carried through opaquely.
#[verifier::external_type_specification]
#[verifier::external_body]
#[verifier::reject_recursive_types(T)]
pub struct ExReceiver<T>(Receiver<T>);

/// How long one wait on the event channel lasts, in milliseconds.
pub const POLL_MILLIS: u64 = 100;

/// What one wait on the event channel brought.
#[derive(Clone, Copy, Debug, PartialEq, Eq, Structural)]
pub enum Received {
    Event(InputEvent),
    Timeout,
    Disconnected,
}

/// What the dispatcher asks its caller to do after an event.
#[derive(Debug)]
pub enum Action {
    /// Nothing to do.
    Nothing,
    /// A key was pressed or repeats: report it, and do nothing else.
    Report { key_name: String, value: i32 },
    /// A key was released: run the macro under its name.
    RunMacro { key_name: String },
}

/// The meaning of an `Action`.
pub enum ActionView {
    Nothing,
    Report { key_name: Seq<char>, value: i32 },
    RunMacro { key_name: Seq<char> },
}

impl View for Action {
    type V = ActionView;

    open spec fn view(&self) -> ActionView {
        match self {
            Action::Nothing => ActionView::Nothing,
            Action::Report { key_name, value } => ActionView::Report { key_name: key_name@, value: *value },
            Action::RunMacro { key_name } => ActionView::RunMacro { key_name: key_name@ },
        }
    }
}

/// The action owed for one input event: a key release runs the key's macro,
/// a press or repeat is only reported, any other event is ignored.
pub open spec fn action_for(ev: InputEvent) -> ActionView {
    if !ev.is_key_spec() {
        ActionView::Nothing
    } else if ev.value == 0 {
        ActionView::RunMacro { key_name: key_name_of(ev.code) }
    } else {
        ActionView::Report { key_name: key_name_of(ev.code), value: ev.value }
    }
}

/// Whether the dispatcher is in its terminal state after `received`, from `quit`.
pub open spec fn quit_after(quit: bool, received: Received) -> bool {
    quit || match received {
        Received::Event(ev) => ev.is_escape_release_spec(),
        Received::Timeout => false,
        Received::Disconnected => true,
    }
}

/// The action owed for one outcome of a wait on the channel.
pub open spec fn action_after(received: Received) -> ActionView {
    match received {
        Received::Event(ev) => action_for(ev),
        _ => ActionView::Nothing,
    }
}

/// Whether a device is one to capture: it has the target vendor and product
/// ids, and escape among its keys.
pub open spec fn qualifies(
    target_vendor: u16,
    target_product: u16,
    vendor: u16,
    product: u16,
    keys: Seq<u16>,
) -> bool {
    vendor == target_vendor && product == target_product && keys.contains(KEY_ESC)
}

/// Relies on `crossbeam_channel::Receiver::recv_timeout`: waits up to the given
/// time for an event. Which outcome comes depends on the producers and on
/// timing, so nothing is stated of it.
#[verifier::external_body]
fn receive(receiver: &Receiver<InputEvent>, millis: u64) -> (r: Received) {
    match receiver.recv_timeout(std::time::Duration::from_millis(millis)) {
        Ok(ev) => Received::Event(ev),
        Err(crossbeam_channel::RecvTimeoutError::Timeout) => Received::Timeout,
        Err(crossbeam_channel::RecvTimeoutError::Disconnected) => Received::Disconnected,
    }
}

/// The dispatcher: the receiving end of the event channel, the quit state and
/// the ids of the device it serves.
pub struct MacroBoard {
    pub receiver: Receiver<InputEvent>,
    pub quit: bool,
    pub vendor: u16,
    pub product: u16,
}

impl MacroBoard {
    /// A running dispatcher for the device with the given ids.
    pub fn new(receiver: Receiver<InputEvent>, vendor: u16, product: u16) -> (r: MacroBoard)
        ensures
            !r.quit,
            r.receiver == receiver,
            r.vendor == vendor,
            r.product == product,
    {
        MacroBoard { receiver, quit: false, vendor, product }
    }

    /// Whether a device with these ids and these supported key codes is one
    /// this dispatcher serves.
    pub fn matches_device(&self, vendor: u16, product: u16, keys: &Vec<u16>) -> (r: bool)
        ensures
            r == qualifies(self.vendor, self.product, vendor, product, keys@),
    {
        if vendor != self.vendor || product != self.product {
            return false;
        }
        let mut i: usize = 0;
        while i < keys.len()
            invariant
                i <= keys@.len(),
                vendor == self.vendor && product == self.product,
                forall|j: int| 0 <= j < i ==> keys@[j] != KEY_ESC,
            decreases keys@.len() - i,
        {
            if keys[i] == KEY_ESC {
                assert(keys@[i as int] == KEY_ESC);
                return true;
            }
            i = i + 1;
        }
        false
    }

    /// Interprets one input event. An escape release ends the dispatcher, in
    /// addition to the action that every key release owes.
    pub fn process_event(&mut self, ev: InputEvent) -> (r: Action)
        ensures
            final(self).quit == (old(self).quit || ev.is_escape_release_spec()),
            final(self).receiver == old(self).receiver,
            final(self).vendor == old(self).vendor,
            final(self).product == old(self).product,
            r@ == action_for(ev),
    {
        if ev.is_escape_release() {
            self.quit = true;
        }
        if !ev.is_key() {
            Action::Nothing
        } else if ev.value == 0 {
            Action::RunMacro { key_name: key_name(ev.code) }
        } else {
            Action::Report { key_name: key_name(ev.code), value: ev.value }
        }
    }

    /// Takes one outcome of a wait on the channel: an event is interpreted, a
    /// timeout changes nothing, and a channel without producers ends the
    /// dispatcher.
    pub fn handle(&mut self, received: Received) -> (r: Action)
        ensures
            final(self).quit == quit_after(old(self).quit, received),
            final(self).receiver == old(self).receiver,
            final(self).vendor == old(self).vendor,
            final(self).product == old(self).product,
            r@ == action_after(received),
    {
        match received {
            Received::Event(ev) => self.process_event(ev),
            Received::Timeout => Action::Nothing,
            Received::Disconnected => {
                self.quit = true;
                Action::Nothing
            },
        }
    }

    /// Waits up to `POLL_MILLIS` for one event and takes what came; returns
    /// that outcome and the action it asks for.
    pub fn process_events(&mut self) -> (r: (Received, Action))
        ensures
            final(self).quit == quit_after(old(self).quit, r.0),
            final(self).receiver == old(self).receiver,
            final(self).vendor == old(self).vendor,
            final(self).product == old(self).product,
            r.1@ == action_after(r.0),
    {
        let received = receive(&self.receiver, POLL_MILLIS);
        let action = self.handle(received);
        (received, action)
    }

    /// Whether the main loop goes on: only while no termination signal was
    /// seen and the dispatcher has not quit.
    pub fn keep_running(&self, terminate: bool) -> (r: bool)
        ensures
            r == (!terminate && !self.quit),
    {
        !terminate && !self.quit
    }
}

/// An escape release ends the dispatcher from any state, and still asks for
/// the escape key's macro like any other release.
pub proof fn lemma_escape_release_quits(quit: bool, ev: InputEvent)
    requires
        ev.is_escape_release_spec(),
    ensures
        quit_after(quit, Received::Event(ev)),
        action_for(ev) == (ActionView::RunMacro { key_name: key_name_of(KEY_ESC) }),
{
}

/// A press or a repeat never asks for a macro, whatever the key: it is only
/// reported, and it leaves the dispatcher's state as it was.
pub proof fn lemma_press_never_runs(quit: bool, ev: InputEvent)
    requires
        ev.value != 0,
    ensures
        !(action_for(ev) is RunMacro),
        quit_after(quit, Received::Event(ev)) == quit,
{
}

/// A channel without producers ends the dispatcher from any state, and asks
/// for nothing.
pub proof fn lemma_disconnect_quits(quit: bool)
    ensures
        quit_after(quit, Received::Disconnected),
        action_after(Received::Disconnected) == ActionView::Nothing,
{
}

} // verus!
