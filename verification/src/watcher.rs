//! The watcher: the state machine that drives a swap.
//!
//! The watcher owns the bookkeeping for one artifact: the canonical path,
//! the modification time observed at the last successful load, and the
//! identity of the handle currently mapped.  It decides; the host performs.
//! Each `watch` tick the host reads the canonical file's modification time
//! and feeds it in; the watcher answers with the next operation to perform
//! (invoke the unload stage, release-and-load, invoke the reload stage) or
//! with the tick's outcome.  The host reports each operation's result back,
//! so the strict ordering of a swap — unload against the outgoing handle
//! while it is still held, release before load, reload only against the
//! freshly loaded handle — is decided here, where it is proved, and not in
//! the glue that performs the calls.

use vstd::prelude::*;

use crate::errors::IoError;
use crate::errors::LoadError;
use crate::errors::SymbolError;
use crate::errors::WatchError;
use crate::errors::WatchResult;

verus! {

/// Where a `watch` tick stands: between ticks, or inside a swap awaiting
/// the outcome of the operation last handed to the host.
#[derive(Clone, Copy, Debug, PartialEq, Eq, Structural)]
pub enum Phase {
    Idle,
    AwaitUnload,
    AwaitLoad,
    AwaitReload,
}

/// What a successful load produced: the handle now mapped and the
/// modification time of the canonical file, re-read after the copy so it
/// stamps the version actually captured.
#[derive(Clone, Copy, Debug, PartialEq, Eq, Structural)]
pub struct Loaded {
    pub handle: u64,
    pub timestamp: u64,
}

/// The outcome of an operation the host performed, fed back to the watcher.
#[derive(Debug)]
pub enum Event {
    /// The canonical file's modification time was read, or the read failed.
    Polled(Result<u64, IoError>),
    /// The unload stage ran against the outgoing handle, or its entry point
    /// was missing.
    Unloaded(Result<(), SymbolError>),
    /// Copy-then-map finished, or failed at one of its two steps.
    LoadFinished(Result<Loaded, LoadError>),
    /// The reload stage ran against the incoming handle, or its entry point
    /// was missing.
    Reloaded(Result<(), SymbolError>),
}

/// The next operation the host must perform, or the finished tick.
#[derive(Debug)]
pub enum Action {
    /// The tick is over; hand this outcome to the caller.
    Done(WatchResult),
    /// Invoke the unload stage against this handle.  The handle stays held
    /// until the stage has run.
    InvokeUnload { handle: u64 },
    /// Release the named handle if one is held, then copy the canonical
    /// artifact to the shadow path, re-read the modification time, and map
    /// the shadow copy.
    Load { release: Option<u64> },
    /// Invoke the reload stage against this freshly loaded handle.
    InvokeReload { handle: u64 },
}

/// The watcher for one artifact.
pub struct Watcher {
    /// The canonical path of the watched artifact; never mutated.
    pub file_path: String,
    /// Modification time observed at the last successful load; never
    /// decreases.
    pub last_updated: u64,
    /// The handle currently mapped, if any.
    pub lib: Option<u64>,
    /// Where the current tick stands.
    pub phase: Phase,
}

impl Watcher {
    /// The phase always agrees with handle ownership: a swap that has
    /// passed its release point holds no handle, one that has not still
    /// holds the outgoing handle, and one past a successful load holds the
    /// incoming one.
    pub open spec fn wf(&self) -> bool {
        match self.phase {
            Phase::Idle => true,
            Phase::AwaitUnload => self.lib is Some,
            Phase::AwaitLoad => self.lib is None,
            Phase::AwaitReload => self.lib is Some,
        }
    }
}

/// Whether an event answers the operation the watcher is waiting on.
pub open spec fn event_fits(w: Watcher, e: Event) -> bool {
    match e {
        Event::Polled(_) => w.phase is Idle,
        Event::Unloaded(_) => w.phase is AwaitUnload,
        Event::LoadFinished(_) => w.phase is AwaitLoad,
        Event::Reloaded(_) => w.phase is AwaitReload,
    }
}

/// The transition relation of the watcher, as a function: the state after
/// consuming `e`, and the action handed back to the host.  An event that
/// does not answer the awaited operation changes nothing.
pub open spec fn step(w: Watcher, e: Event) -> (Watcher, Action) {
    match e {
        Event::Polled(p) => {
            if !(w.phase is Idle) {
                (w, Action::Done(WatchResult::NoChange))
            } else {
                match p {
                    Result::Ok(t) => {
                        if t <= w.last_updated {
                            (w, Action::Done(WatchResult::NoChange))
                        } else {
                            match w.lib {
                                Option::Some(h) => (
                                    (Watcher {
                                        file_path: w.file_path,
                                        last_updated: w.last_updated,
                                        lib: w.lib,
                                        phase: Phase::AwaitUnload,
                                    }),
                                    (Action::InvokeUnload { handle: h }),
                                ),
                                Option::None => (
                                    (Watcher {
                                        file_path: w.file_path,
                                        last_updated: w.last_updated,
                                        lib: Option::None,
                                        phase: Phase::AwaitLoad,
                                    }),
                                    (Action::Load { release: Option::None }),
                                ),
                            }
                        }
                    },
                    Result::Err(io) => (w, Action::Done(WatchResult::Failed(WatchError::Io(io)))),
                }
            }
        },
        Event::Unloaded(u) => {
            if !(w.phase is AwaitUnload) {
                (w, Action::Done(WatchResult::NoChange))
            } else {
                match u {
                    Result::Ok(_) => (
                        (Watcher {
                            file_path: w.file_path,
                            last_updated: w.last_updated,
                            lib: Option::None,
                            phase: Phase::AwaitLoad,
                        }),
                        (Action::Load { release: w.lib }),
                    ),
                    Result::Err(s) => (
                        (Watcher {
                            file_path: w.file_path,
                            last_updated: w.last_updated,
                            lib: w.lib,
                            phase: Phase::Idle,
                        }),
                        (Action::Done(WatchResult::Failed(WatchError::Symbol(s)))),
                    ),
                }
            }
        },
        Event::LoadFinished(l) => {
            if !(w.phase is AwaitLoad) {
                (w, Action::Done(WatchResult::NoChange))
            } else {
                match l {
                    Result::Ok(ld) => (
                        (Watcher {
                            file_path: w.file_path,
                            last_updated: if ld.timestamp > w.last_updated {
                                ld.timestamp
                            } else {
                                w.last_updated
                            },
                            lib: Option::Some(ld.handle),
                            phase: Phase::AwaitReload,
                        }),
                        (Action::InvokeReload { handle: ld.handle }),
                    ),
                    Result::Err(le) => (
                        (Watcher {
                            file_path: w.file_path,
                            last_updated: w.last_updated,
                            lib: Option::None,
                            phase: Phase::Idle,
                        }),
                        (Action::Done(WatchResult::Failed(WatchError::Load(le)))),
                    ),
                }
            }
        },
        Event::Reloaded(r) => {
            if !(w.phase is AwaitReload) {
                (w, Action::Done(WatchResult::NoChange))
            } else {
                match r {
                    Result::Ok(_) => (
                        (Watcher {
                            file_path: w.file_path,
                            last_updated: w.last_updated,
                            lib: w.lib,
                            phase: Phase::Idle,
                        }),
                        (Action::Done(WatchResult::Updated)),
                    ),
                    Result::Err(s) => (
                        (Watcher {
                            file_path: w.file_path,
                            last_updated: w.last_updated,
                            lib: w.lib,
                            phase: Phase::Idle,
                        }),
                        (Action::Done(WatchResult::Failed(WatchError::Symbol(s)))),
                    ),
                }
            }
        },
    }
}

impl Watcher {
    /// Creates a watcher over an artifact the host has just loaded for the
    /// first time.  `handle` names the mapped shadow copy and
    /// `last_updated` is the canonical file's modification time re-read
    /// after the copy.  The host invokes the init stage against `handle` to
    /// obtain the initial state.
    pub fn new(file_path: String, handle: u64, last_updated: u64) -> (w: Watcher)
        ensures
            w.file_path == file_path,
            w.last_updated == last_updated,
            w.lib == Option::<u64>::Some(handle),
            w.phase is Idle,
            w.wf(),
    {
        Watcher { file_path, last_updated, lib: Option::Some(handle), phase: Phase::Idle }
    }

    /// Consumes the outcome of the operation last handed to the host and
    /// answers with the next one, exactly as `step` describes.  A tick
    /// starts with a `Polled` event and is over when the action is `Done`.
    pub fn watch(&mut self, event: Event) -> (r: Action)
        requires
            old(self).wf(),
            event_fits(*old(self), event),
        ensures
            ((*final(self), r) == step(*old(self), event)),
            final(self).wf(),
            final(self).last_updated >= old(self).last_updated,
            final(self).file_path == old(self).file_path,
    {
        match event {
            Event::Polled(p) => {
                match p {
                    Result::Ok(t) => {
                        if t <= self.last_updated {
                            Action::Done(WatchResult::NoChange)
                        } else {
                            match self.lib {
                                Option::Some(h) => {
                                    self.phase = Phase::AwaitUnload;
                                    Action::InvokeUnload { handle: h }
                                },
                                Option::None => {
                                    self.phase = Phase::AwaitLoad;
                                    Action::Load { release: Option::None }
                                },
                            }
                        }
                    },
                    Result::Err(io) => Action::Done(WatchResult::Failed(WatchError::Io(io))),
                }
            },
            Event::Unloaded(u) => {
                match u {
                    Result::Ok(_) => {
                        let release = self.lib;
                        self.lib = Option::None;
                        self.phase = Phase::AwaitLoad;
                        Action::Load { release }
                    },
                    Result::Err(s) => {
                        self.phase = Phase::Idle;
                        Action::Done(WatchResult::Failed(WatchError::Symbol(s)))
                    },
                }
            },
            Event::LoadFinished(l) => {
                match l {
                    Result::Ok(ld) => {
                        if ld.timestamp > self.last_updated {
                            self.last_updated = ld.timestamp;
                        }
                        self.lib = Option::Some(ld.handle);
                        self.phase = Phase::AwaitReload;
                        Action::InvokeReload { handle: ld.handle }
                    },
                    Result::Err(le) => {
                        self.phase = Phase::Idle;
                        Action::Done(WatchResult::Failed(WatchError::Load(le)))
                    },
                }
            },
            Event::Reloaded(r) => {
                match r {
                    Result::Ok(_) => {
                        self.phase = Phase::Idle;
                        Action::Done(WatchResult::Updated)
                    },
                    Result::Err(s) => {
                        self.phase = Phase::Idle;
                        Action::Done(WatchResult::Failed(WatchError::Symbol(s)))
                    },
                }
            },
        }
    }

    /// The handle the update stage must be invoked against.  The update
    /// stage runs every host tick, so a watcher that holds no handle — the
    /// documented risk window after a failed load — must not be asked for
    /// one; the host checks `lib` first.
    pub fn update(&self) -> (h: u64)
        requires
            self.lib is Some,
        ensures
            self.lib == Option::<u64>::Some(h),
    {
        match self.lib {
            Option::Some(h) => h,
            Option::None => {
                proof {
                    assert(false);
                }
                0
            },
        }
    }

    /// The currently mapped handle, if any.
    pub fn lib(&self) -> (r: Option<u64>)
        ensures
            r == self.lib,
    {
        self.lib
    }
}

/// The state after consuming a whole sequence of events, one `step` at a
/// time.
pub open spec fn run_steps(w: Watcher, es: Seq<Event>) -> Watcher
    decreases es.len(),
{
    if es.len() == 0 {
        w
    } else {
        run_steps(step(w, es[0]).0, es.drop_first())
    }
}

/// No single event lowers the watched timestamp.
pub proof fn lemma_step_monotonic(w: Watcher, e: Event)
    ensures
        step(w, e).0.last_updated >= w.last_updated,
{
}

/// Monotonicity: across any sequence of events — and so across any sequence
/// of `watch` calls — the watched timestamp never decreases.
pub proof fn lemma_run_monotonic(w: Watcher, es: Seq<Event>)
    ensures
        run_steps(w, es).last_updated >= w.last_updated,
    decreases es.len(),
{
    if es.len() > 0 {
        lemma_step_monotonic(w, es[0]);
        lemma_run_monotonic(step(w, es[0]).0, es.drop_first());
    }
}

/// Every step preserves the agreement of phase and handle ownership.
pub proof fn lemma_step_preserves_wf(w: Watcher, e: Event)
    requires
        w.wf(),
    ensures
        step(w, e).0.wf(),
{
}

/// The agreement of phase and handle ownership is an invariant: it holds in
/// every state any sequence of events can reach, so at no point does the
/// watcher hold a second handle before the first is released.
pub proof fn lemma_run_preserves_wf(w: Watcher, es: Seq<Event>)
    requires
        w.wf(),
    ensures
        run_steps(w, es).wf(),
    decreases es.len(),
{
    if es.len() > 0 {
        lemma_step_preserves_wf(w, es[0]);
        lemma_run_preserves_wf(step(w, es[0]).0, es.drop_first());
    }
}

/// A poll of a quiet tick: it succeeded and observed no modification time
/// beyond the watched one.
pub open spec fn quiet_poll(w: Watcher, e: Event) -> bool {
    e matches Event::Polled(Result::Ok(t)) && t <= w.last_updated
}

/// Idempotence, one tick: a quiet poll finishes the tick at once with
/// `NoChange` and mutates nothing.
pub proof fn lemma_watch_idempotent(w: Watcher, t: u64)
    requires
        w.phase is Idle,
        t <= w.last_updated,
    ensures
        step(w, Event::Polled(Result::Ok(t))) == (w, Action::Done(WatchResult::NoChange)),
{
}

/// Idempotence: any number of quiet polls leave the watcher exactly as it
/// was — timestamp, handle and phase included — and every one of them
/// reports `NoChange`.
pub proof fn lemma_quiet_polls_change_nothing(w: Watcher, es: Seq<Event>)
    requires
        w.phase is Idle,
        forall|i: int| 0 <= i < es.len() ==> quiet_poll(w, #[trigger] es[i]),
    ensures
        run_steps(w, es) == w,
        forall|i: int| 0 <= i < es.len() ==> step(w, #[trigger] es[i]).1 == Action::Done(
            WatchResult::NoChange,
        ),
    decreases es.len(),
{
    if es.len() > 0 {
        assert(quiet_poll(w, es[0]));
        assert(step(w, es[0]).0 == w);
        assert forall|i: int| 0 <= i < es.drop_first().len() implies quiet_poll(
            w,
            #[trigger] es.drop_first()[i],
        ) by {
            assert(es.drop_first()[i] == es[i + 1]);
        }
        lemma_quiet_polls_change_nothing(w, es.drop_first());
    }
}

/// Ordering of a successful swap.  The unload stage is invoked while the
/// outgoing handle is still held; the handle is released strictly after the
/// unload stage has run and strictly before the load; the reload stage is
/// invoked only after the load succeeded, against the incoming handle; and
/// only then does the tick report `Updated`.
pub proof fn lemma_swap_ordering(w: Watcher, h0: u64, t: u64, l: Loaded)
    requires
        w.wf(),
        w.phase is Idle,
        w.lib == Option::<u64>::Some(h0),
        t > w.last_updated,
    ensures
        ({
            let (w1, a1) = step(w, Event::Polled(Result::Ok(t)));
            let (w2, a2) = step(w1, Event::Unloaded(Result::Ok(())));
            let (w3, a3) = step(w2, Event::LoadFinished(Result::Ok(l)));
            let (w4, a4) = step(w3, Event::Reloaded(Result::Ok(())));
            &&& a1 == (Action::InvokeUnload { handle: h0 })
            &&& w1.lib == Option::<u64>::Some(h0)
            &&& a2 == (Action::Load { release: Option::<u64>::Some(h0) })
            &&& w2.lib is None
            &&& a3 == (Action::InvokeReload { handle: l.handle })
            &&& w3.lib == Option::<u64>::Some(l.handle)
            &&& a4 == Action::Done(WatchResult::Updated)
            &&& w4.lib == Option::<u64>::Some(l.handle)
            &&& w4.phase is Idle
            &&& w4.last_updated >= w.last_updated
        }),
{
}

/// Rollback on load failure: when the load of a detected change fails, the
/// watcher is left holding no handle at all — never a stale one — the
/// watched timestamp is untouched, so the next poll will see the change
/// again, and the tick reports the load failure.
pub proof fn lemma_load_failure_rollback(w: Watcher, h0: u64, t: u64, le: LoadError)
    requires
        w.wf(),
        w.phase is Idle,
        w.lib == Option::<u64>::Some(h0),
        t > w.last_updated,
    ensures
        ({
            let (w1, a1) = step(w, Event::Polled(Result::Ok(t)));
            let (w2, a2) = step(w1, Event::Unloaded(Result::Ok(())));
            let (w3, a3) = step(w2, Event::LoadFinished(Result::Err(le)));
            &&& w3.lib is None
            &&& w3.phase is Idle
            &&& w3.last_updated == w.last_updated
            &&& a3 == Action::Done(WatchResult::Failed(WatchError::Load(le)))
        }),
{
}

/// Recovery from the failure window: a watcher holding no handle that
/// observes a change loads directly — there is nothing to unload — and a
/// successful load followed by a successful reload reports `Updated`.
pub proof fn lemma_recovery_after_failure(w: Watcher, t: u64, l: Loaded)
    requires
        w.wf(),
        w.phase is Idle,
        w.lib is None,
        t > w.last_updated,
    ensures
        ({
            let (w1, a1) = step(w, Event::Polled(Result::Ok(t)));
            let (w2, a2) = step(w1, Event::LoadFinished(Result::Ok(l)));
            let (w3, a3) = step(w2, Event::Reloaded(Result::Ok(())));
            &&& a1 == (Action::Load { release: Option::<u64>::None })
            &&& a2 == (Action::InvokeReload { handle: l.handle })
            &&& a3 == Action::Done(WatchResult::Updated)
            &&& w3.lib == Option::<u64>::Some(l.handle)
            &&& w3.phase is Idle
        }),
{
}

} // verus!
