//! The engine's cascading event loop: the triggering event and every event
//! the pay plan modules emit are run through the stack in order, with a hard
//! cap on the number of runs so a self-emitting module cannot loop forever.

use vstd::prelude::*;
use vstd::string::*;
use crate::errors::AppError;

verus! {

/// Most module runs a single cascade may take.
pub const MAX_ITERATIONS: usize = 32;

/// What the cascade asks for next.
#[derive(Debug, Clone, Copy, PartialEq, Eq, Structural)]
pub enum CascadeStep {
    /// Run the stack against the emitted event at this position.
    Run(usize),
    /// Every emitted event has been run.
    Done,
    /// Events remain but the run cap is reached; the cascade aborts.
    Exceeded,
}

/// State of one cascade: the events emitted so far (the trigger first), the
/// ledger entries and state changes collected, and how many events have
/// been run.
pub struct CascadeRun<E, L, C> {
    emitted: Vec<E>,
    ledger: Vec<L>,
    state_changes: Vec<C>,
    processed: usize,
}

impl<E, L, C> CascadeRun<E, L, C> {
    #[verifier::type_invariant]
    spec fn inv(&self) -> bool {
        &&& self.emitted@.len() >= 1
        &&& self.processed <= self.emitted@.len()
        &&& self.processed <= MAX_ITERATIONS
    }

    /// Events emitted so far, the trigger first.
    pub closed spec fn spec_emitted(&self) -> Seq<E> {
        self.emitted@
    }

    /// Ledger entries collected so far.
    pub closed spec fn spec_ledger(&self) -> Seq<L> {
        self.ledger@
    }

    /// State changes collected so far.
    pub closed spec fn spec_state_changes(&self) -> Seq<C> {
        self.state_changes@
    }

    /// Number of events run so far.
    pub closed spec fn spec_processed(&self) -> nat {
        self.processed as nat
    }

    /// What the cascade asks for next.
    pub open spec fn spec_next(&self) -> CascadeStep {
        if self.spec_processed() >= self.spec_emitted().len() {
            CascadeStep::Done
        } else if self.spec_processed() >= MAX_ITERATIONS {
            CascadeStep::Exceeded
        } else {
            CascadeStep::Run(self.spec_processed() as usize)
        }
    }

    /// Start a cascade from its triggering event.
    pub fn new(trigger: E) -> (r: Self)
        ensures
            r.spec_emitted() == seq![trigger],
            r.spec_ledger().len() == 0,
            r.spec_state_changes().len() == 0,
            r.spec_processed() == 0,
    {
        let mut emitted = Vec::new();
        emitted.push(trigger);
        CascadeRun { emitted, ledger: Vec::new(), state_changes: Vec::new(), processed: 0 }
    }

    /// The events emitted so far.
    pub fn emitted(&self) -> (r: &Vec<E>)
        ensures
            r@ == self.spec_emitted(),
    {
        &self.emitted
    }

    /// What the cascade asks for next. Once it is done, every emitted event
    /// has been run; the number of runs never exceeds the cap.
    pub fn next_step(&self) -> (r: CascadeStep)
        ensures
            r == self.spec_next(),
            r is Done ==> self.spec_processed() == self.spec_emitted().len(),
            r is Exceeded ==> self.spec_processed() == MAX_ITERATIONS && MAX_ITERATIONS
                < self.spec_emitted().len(),
            r matches CascadeStep::Run(i) ==> i < self.spec_emitted().len(),
            self.spec_processed() <= MAX_ITERATIONS,
            self.spec_emitted().len() >= 1,
    {
        proof {
            use_type_invariant(self);
        }
        if self.processed >= self.emitted.len() {
            CascadeStep::Done
        } else if self.processed >= MAX_ITERATIONS {
            CascadeStep::Exceeded
        } else {
            CascadeStep::Run(self.processed)
        }
    }

    /// Mark the next event as run and return its position.
    pub fn start_step(&mut self) -> (i: usize)
        requires
            old(self).spec_next() is Run,
        ensures
            old(self).spec_next() == CascadeStep::Run(i),
            final(self).spec_processed() == old(self).spec_processed() + 1,
            final(self).spec_emitted() == old(self).spec_emitted(),
            final(self).spec_ledger() == old(self).spec_ledger(),
            final(self).spec_state_changes() == old(self).spec_state_changes(),
    {
        proof {
            use_type_invariant(&*self);
        }
        let i = self.processed;
        self.processed = self.processed + 1;
        i
    }

    /// Record what one run emitted, in order after what is already there.
    pub fn record(self, emitted: Vec<E>, ledger: Vec<L>, state_changes: Vec<C>) -> (r: Self)
        ensures
            r.spec_emitted() == self.spec_emitted() + emitted@,
            r.spec_ledger() == self.spec_ledger() + ledger@,
            r.spec_state_changes() == self.spec_state_changes() + state_changes@,
            r.spec_processed() == self.spec_processed(),
    {
        proof {
            use_type_invariant(&self);
        }
        let CascadeRun { emitted: mut all_emitted, ledger: mut all_ledger, state_changes: mut all_changes, processed } = self;
        let mut emitted = emitted;
        let mut ledger = ledger;
        let mut state_changes = state_changes;
        all_emitted.append(&mut emitted);
        all_ledger.append(&mut ledger);
        all_changes.append(&mut state_changes);
        CascadeRun { emitted: all_emitted, ledger: all_ledger, state_changes: all_changes, processed }
    }

    /// End the cascade: everything collected when it is done, a conflict
    /// error when the run cap cut it short.
    pub fn finish(self) -> (r: Result<(Vec<E>, Vec<L>, Vec<C>), AppError>)
        requires
            !(self.spec_next() is Run),
        ensures
            self.spec_next() is Done ==> (r matches Ok(t) && t.0@ == self.spec_emitted()
                && t.1@ == self.spec_ledger() && t.2@ == self.spec_state_changes()),
            self.spec_next() is Exceeded ==> (r matches Err(AppError::Conflict(m)) && m@
                == "cascade exceeded 32 iterations; aborting"@),
    {
        proof {
            use_type_invariant(&self);
        }
        if self.processed >= self.emitted.len() {
            Ok((self.emitted, self.ledger, self.state_changes))
        } else {
            Err(AppError::Conflict(String::from_str("cascade exceeded 32 iterations; aborting")))
        }
    }
}

} // verus!
