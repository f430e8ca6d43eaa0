//! Remembering that the account has to be stored.

use vstd::prelude::*;

verus! {

/// Says when the account has to be stored. Changes only mark it; a burst of
/// them is stored once, and one store runs at a time.
#[derive(Clone, Debug)]
pub struct SaveScheduler {
    pub profile: String,
    /// Whether something changed since the account was last taken for storing.
    pub dirty: bool,
    /// Whether the account is being stored.
    pub running: bool,
}

/// What a loop that ends has to do before it may.
#[derive(Clone, Copy, Debug, PartialEq, Eq, Structural)]
pub enum ExitStep {
    /// Wait for the store that is running: two at once would write over each
    /// other.
    AwaitStore,
    /// Store the account.
    Store,
    /// Nothing: everything is stored.
    Done,
}

impl SaveScheduler {
    /// The scheduler once something changed.
    pub open spec fn marked(self) -> SaveScheduler {
        SaveScheduler { dirty: true, ..self }
    }

    /// Whether a store can be started.
    pub open spec fn startable(self) -> bool {
        self.dirty && !self.running
    }

    /// The scheduler once a store was asked for.
    pub open spec fn begun(self) -> SaveScheduler {
        if self.startable() {
            SaveScheduler { dirty: false, running: true, ..self }
        } else {
            self
        }
    }

    /// The scheduler once a store has ended.
    pub open spec fn finished(self, stored: bool) -> SaveScheduler {
        SaveScheduler { dirty: self.dirty || !stored, running: false, ..self }
    }

    /// What a loop that ends has to do before it may.
    pub open spec fn at_exit(self) -> ExitStep {
        if self.running {
            ExitStep::AwaitStore
        } else if self.dirty {
            ExitStep::Store
        } else {
            ExitStep::Done
        }
    }

    /// A scheduler for a profile with nothing to store.
    pub fn new(profile: &str) -> (save: Self)
        ensures
            save.profile@ == profile@,
            !save.dirty,
            !save.running,
    {
        SaveScheduler { profile: profile.to_owned(), dirty: false, running: false }
    }

    /// Notes that something changed.
    pub fn mark_dirty(&mut self)
        ensures
            *final(self) == old(self).marked(),
    {
        self.dirty = true;
    }

    /// Whether something waits to be stored.
    pub fn is_pending(&self) -> (pending: bool)
        ensures
            pending == self.dirty,
    {
        self.dirty
    }

    /// Whether the account is being stored.
    pub fn in_flight(&self) -> (running: bool)
        ensures
            running == self.running,
    {
        self.running
    }

    /// Whether the account must be stored before the program ends.
    pub fn needs_flush(&self) -> (needed: bool)
        ensures
            needed == (self.dirty || self.running),
    {
        self.dirty || self.running
    }

    /// Whether a store can be started: something waits and none is running.
    pub fn can_begin(&self) -> (can: bool)
        ensures
            can == self.startable(),
    {
        self.dirty && !self.running
    }

    /// What a loop that ends has to do before it may.
    pub fn exit_step(&self) -> (step: ExitStep)
        ensures
            step == self.at_exit(),
    {
        if self.running {
            ExitStep::AwaitStore
        } else if self.dirty {
            ExitStep::Store
        } else {
            ExitStep::Done
        }
    }

    /// Takes the account for storing, and says whether to. There is nothing to
    /// do while nothing changed or a store is running.
    pub fn begin(&mut self) -> (started: bool)
        ensures
            started == old(self).startable(),
            *final(self) == old(self).begun(),
    {
        if self.can_begin() {
            self.dirty = false;
            self.running = true;
            true
        } else {
            false
        }
    }

    /// Notes that storing has ended. What could not be stored still waits.
    pub fn finish(&mut self, stored: bool)
        ensures
            *final(self) == old(self).finished(stored),
    {
        if !stored {
            self.dirty = true;
        }
        self.running = false;
    }
}

/// No change is lost: what changes while a store runs still waits once it has
/// ended, and so does what could not be stored.
pub proof fn no_change_is_lost(save: SaveScheduler, stored: bool)
    requires
        save.startable(),
    ensures
        save.begun().marked().finished(stored).startable(),
        save.begun().finished(false).startable(),
        !save.begun().finished(true).dirty,
{
}

/// A loop is done exactly when nothing is marked and nothing is being stored.
pub proof fn done_means_stored(save: SaveScheduler)
    ensures
        save.at_exit() == ExitStep::Done <==> !save.dirty && !save.running,
{
}

/// A loop that ends gets done: the wait for a running store is over once that has
/// ended, what is then marked is stored next, and once that went well the loop is
/// done. What could not be stored is never taken for stored.
pub proof fn ending_stores_what_is_marked(save: SaveScheduler, stored: bool)
    ensures
        save.at_exit() == ExitStep::AwaitStore ==> save.finished(stored).at_exit() == (
        if save.dirty || !stored {
            ExitStep::Store
        } else {
            ExitStep::Done
        }),
        save.at_exit() == ExitStep::Store ==> save.startable() && save.begun().finished(
            stored,
        ).at_exit() == (if stored {
            ExitStep::Done
        } else {
            ExitStep::Store
        }),
{
}

/// One store runs at a time: while one does, another cannot be started, whatever
/// changes.
pub proof fn one_store_runs_at_a_time(save: SaveScheduler)
    requires
        save.running,
    ensures
        !save.startable(),
        !save.marked().startable(),
        save.begun() == save,
{
}

/// A store starts exactly when something waits and none runs; starting takes what
/// waits along, and ending one leaves waiting what could not be stored and what
/// changed meanwhile.
pub proof fn a_store_takes_what_waits(save: &mut SaveScheduler, yes: bool, stored: bool)
    ensures
        call_ensures(SaveScheduler::begin, (save,), yes) ==> {
            &&& yes <==> old(save).dirty && !old(save).running
            &&& yes ==> !final(save).dirty && final(save).running
            &&& !yes ==> final(save).dirty == old(save).dirty && final(save).running
                == old(save).running
            &&& final(save).profile == old(save).profile
        },
        call_ensures(SaveScheduler::finish, (save, stored), ()) ==> {
            &&& !final(save).running
            &&& final(save).dirty <==> old(save).dirty || !stored
            &&& final(save).profile == old(save).profile
        },
        call_ensures(SaveScheduler::mark_dirty, (save,), ()) ==> {
            &&& final(save).dirty
            &&& final(save).running == old(save).running
            &&& final(save).profile == old(save).profile
        },
{
}

/// What a scheduler says of itself: whether something waits, whether a store runs,
/// whether one could start, and whether leaving has to wait for either.
pub proof fn a_scheduler_says_how_it_stands(
    save: &SaveScheduler,
    pending: bool,
    running: bool,
    needed: bool,
    can: bool,
    step: ExitStep,
)
    requires
        call_ensures(SaveScheduler::is_pending, (save,), pending),
        call_ensures(SaveScheduler::in_flight, (save,), running),
        call_ensures(SaveScheduler::needs_flush, (save,), needed),
        call_ensures(SaveScheduler::can_begin, (save,), can),
        call_ensures(SaveScheduler::exit_step, (save,), step),
    ensures
        pending == save.dirty,
        running == save.running,
        needed <==> pending || running,
        can <==> pending && !running,
        step is AwaitStore <==> running,
        step is Store <==> can,
        step is Done <==> !needed,
{
}

/// A new scheduler is its profile's, with nothing to store and nothing running.
pub proof fn a_new_scheduler_has_nothing_to_do(profile: &str, save: SaveScheduler)
    requires
        call_ensures(SaveScheduler::new, (profile,), save),
    ensures
        save.profile@ == profile@,
        save.at_exit() is Done,
{
}

} // verus!
