//! A model of the runtime behaviour of generated code.
//!
//! A rewritten function never returns a failure: it hands a report to the
//! injected sink, a mutably borrowed handle to a shared queue. The queue,
//! the report and the plugin that registers the queue with the host are
//! modelled here; the host itself (scheduling, resolution, draining) stays
//! outside.

use vstd::prelude::*;
use crate::ast::{FunctionDefV, Mode};
use crate::transform::{RewrittenBody, RewrittenBodyV, spec_transform, valid_input};

verus! {

/// A failure value, type-erased to the common error capability: it can
/// produce display text and may cross concurrency boundaries.
#[derive(Debug)]
pub struct ErrorValue {
    pub message: String,
}

impl View for ErrorValue {
    type V = Seq<char>;

    open spec fn view(&self) -> Seq<char> {
        self.message@
    }
}

impl ErrorValue {
    /// Wraps a concrete failure's display text.
    pub fn new(message: String) -> (r: Self)
        ensures
            r@ == message@,
    {
        ErrorValue { message }
    }

    /// The display text of the failure.
    pub fn display_text(&self) -> (r: &String)
        ensures
            r@ == self@,
    {
        &self.message
    }
}

impl Clone for ErrorValue {
    fn clone(&self) -> (res: Self)
        ensures
            res@ == self@,
    {
        ErrorValue { message: self.message.clone() }
    }
}

/// Spec view of [`SystemErrorEvent`].
#[verifier::ext_equal]
pub struct SystemErrorEventV {
    pub system_name: Seq<char>,
    pub error: Seq<char>,
}

/// The event sent every time a rewritten function's computation results in
/// an error: the name of the originating function and the failure value.
/// Constructed at the moment the failure arm is taken, handed to the sink
/// at once, and not retained by the generated function.
#[derive(Debug)]
pub struct SystemErrorEvent {
    /// Name of the originating function.
    pub system_name: String,
    /// Error produced by the computation.
    pub error: ErrorValue,
}

impl View for SystemErrorEvent {
    type V = SystemErrorEventV;

    open spec fn view(&self) -> SystemErrorEventV {
        SystemErrorEventV { system_name: self.system_name@, error: self.error@ }
    }
}

impl DeepView for SystemErrorEvent {
    type V = SystemErrorEventV;

    open spec fn deep_view(&self) -> SystemErrorEventV {
        self.view()
    }
}

/// The error-report channel: a queue of reports, appended to in the order
/// the originating invocations complete, never reordered or deduplicated.
/// Consumers drain it.
#[derive(Debug)]
pub struct Events {
    pub queue: Vec<SystemErrorEvent>,
}

impl View for Events {
    type V = Seq<SystemErrorEventV>;

    open spec fn view(&self) -> Seq<SystemErrorEventV> {
        self.queue.deep_view()
    }
}

impl Events {
    /// An empty queue.
    pub fn new() -> (r: Self)
        ensures
            r@ == Seq::<SystemErrorEventV>::empty(),
    {
        let r = Events { queue: Vec::new() };
        proof {
            assert(r@ =~~= Seq::<SystemErrorEventV>::empty());
        }
        r
    }

    /// The sink's single operation: appends one report to the queue.
    pub fn send(&mut self, report: SystemErrorEvent)
        ensures
            final(self)@ == old(self)@.push(report@),
    {
        let ghost before = self@;
        self.queue.push(report);
        proof {
            assert(self@ =~~= before.push(report@));
        }
    }

    /// How many reports are queued.
    pub fn len(&self) -> (r: usize)
        ensures
            r == self@.len(),
    {
        self.queue.len()
    }

    /// The report at a position.
    pub fn get(&self, i: usize) -> (r: &SystemErrorEvent)
        requires
            i < self@.len(),
        ensures
            r@ == self@[i as int],
    {
        &self.queue[i]
    }

    /// Empties the queue, handing every queued report out in order.
    pub fn drain(&mut self) -> (r: Vec<SystemErrorEvent>)
        ensures
            final(self)@ == Seq::<SystemErrorEventV>::empty(),
            r.deep_view() == old(self)@,
    {
        let mut taken: Vec<SystemErrorEvent> = Vec::new();
        core::mem::swap(&mut taken, &mut self.queue);
        proof {
            assert(self@ =~~= Seq::<SystemErrorEventV>::empty());
        }
        taken
    }
}

/// The failure a computation's outcome carries, if any: the display text of
/// the error on the failure arm, nothing on the success arm.
pub open spec fn failure_of<T>(outcome: Result<T, ErrorValue>) -> Option<Seq<char>> {
    match outcome {
        Ok(_) => None,
        Err(e) => Some(e@),
    }
}

/// What one invocation of a rewritten body leaves in the queue: unchanged
/// on success, and with exactly one report appended on failure, carrying
/// the body's baked-in report name and the failure's content.
pub open spec fn run_effect(
    body: RewrittenBodyV,
    queue: Seq<SystemErrorEventV>,
    failure: Option<Seq<char>>,
) -> Seq<SystemErrorEventV> {
    match failure {
        None => queue,
        Some(msg) => queue.push(SystemErrorEventV { system_name: body.report_name, error: msg }),
    }
}

impl RewrittenBody {
    /// One invocation of the generated function, given the outcome its
    /// computation produced: branch on the outcome, discard a success, and
    /// on a failure construct the report and send it through the sink.
    pub fn run<T>(&self, outcome: Result<T, ErrorValue>, events: &mut Events)
        ensures
            final(events)@ == run_effect(self@, old(events)@, failure_of(outcome)),
    {
        match outcome {
            Ok(_) => {},
            Err(err) => {
                events.send(SystemErrorEvent {
                    system_name: self.report_name.clone(),
                    error: err,
                });
            },
        }
    }
}

/// A minimal model of the host application the plugin registers with: the
/// slot holding the error-event queue that generated code sends into.
#[derive(Debug)]
pub struct HostApp {
    pub error_events: Option<Events>,
}

/// Plugin to register the error-report event type with the host, once per
/// process lifetime, so the injected sink resolves to a live queue.
#[derive(Debug)]
pub struct FallableSystemPlugin;

impl FallableSystemPlugin {
    /// Registers the event queue: after building, the queue exists; a queue
    /// already registered is kept untouched.
    pub fn build(&self, app: &mut HostApp)
        ensures
            final(app).error_events matches Some(q) && q@ == (match old(app).error_events {
                Some(q0) => q0@,
                None => Seq::<SystemErrorEventV>::empty(),
            }),
    {
        if app.error_events.is_none() {
            app.error_events = Some(Events::new());
        }
    }
}

/// At most one report per invocation: the queue gains exactly one report
/// when the computation failed, none when it succeeded, and the reports
/// already queued are untouched either way.
pub proof fn lemma_at_most_one_report(
    body: RewrittenBodyV,
    queue: Seq<SystemErrorEventV>,
    failure: Option<Seq<char>>,
)
    ensures
        failure is None ==> run_effect(body, queue, failure) == queue,
        failure matches Some(msg) ==> run_effect(body, queue, failure) == queue.push(
            (SystemErrorEventV { system_name: body.report_name, error: msg }),
        ),
        run_effect(body, queue, failure).len() == queue.len() + (
        if failure is Some {
            1int
        } else {
            0int
        }),
        forall|i: int| 0 <= i < queue.len() ==> run_effect(body, queue, failure)[i] == queue[i],
{
}

/// Keep-mode duality: the preserved original keeps the original parameter
/// list, result type and body, so calling it returns the two-arm result
/// unchanged; the rewritten function returns nothing and, on the failure
/// the original would have returned, sends exactly one report carrying that
/// failure's content under the original name.
pub proof fn lemma_keep_mode_duality(
    d: FunctionDefV,
    queue: Seq<SystemErrorEventV>,
    msg: Seq<char>,
)
    requires
        valid_input(d),
    ensures
        spec_transform(d, Mode::Keep).preserved matches Some(p) && {
            &&& p.sig.params == d.sig.params
            &&& p.sig.ret == d.sig.ret
            &&& p.body == d.body
        },
        run_effect(spec_transform(d, Mode::Keep).rewritten.body, queue, Some(msg)) == queue.push(
            (SystemErrorEventV { system_name: d.sig.name, error: msg }),
        ),
        run_effect(spec_transform(d, Mode::Keep).rewritten.body, queue, None) == queue,
{
}

/// Name propagation: whatever the mode, a report sent by a rewritten
/// function carries the original function's declared name, verbatim.
pub proof fn lemma_name_propagation(
    d: FunctionDefV,
    mode: Mode,
    queue: Seq<SystemErrorEventV>,
    msg: Seq<char>,
)
    requires
        valid_input(d),
    ensures
        ({
            let out = run_effect(spec_transform(d, mode).rewritten.body, queue, Some(msg));
            &&& out.len() == queue.len() + 1
            &&& out.last().system_name == d.sig.name
            &&& out.last().error == msg
        }),
{
}

} // verus!
