//! The consumer task: the per-queue engine that receives deliveries, spawns
//! concurrent sub-tasks, and coordinates graceful shutdown and drain.
//!
//! The task's lifecycle is a small state machine over plain values. The
//! unverified shell owns the broker subscription and the async runtime; after
//! every wake-up it reports the event to [`ConsumerTask::step`] and performs
//! the returned [`TaskAction`].

use vstd::prelude::*;

use crate::amqp::Arguments;
use crate::amqp::DeclareOptions;
use crate::amqp::clone_string;
use crate::handler_config::HandlerConfig;

verus! {

/// The phase of a consumer task's lifecycle.
#[derive(Debug, Clone, Copy, PartialEq, Eq, Structural)]
pub enum TaskPhase {
    /// The task accepts new deliveries and spawns a sub-task for each.
    Receiving,
    /// The task no longer accepts deliveries and waits for its outstanding
    /// sub-tasks to finish.
    Draining,
    /// The task has finished.
    Terminated,
}

/// Why a task stopped receiving.
#[derive(Debug, Clone, Copy, PartialEq, Eq, Structural)]
pub enum TaskOutcome {
    /// The process-wide shutdown signal was observed.
    Graceful,
    /// The broker ended the delivery stream: the consumer was cancelled.
    Cancelled,
}

/// An event a consumer task can wake up on.
#[derive(Debug, Clone, Copy, PartialEq, Eq, Structural)]
pub enum TaskEvent {
    /// The shutdown broadcast fired.
    Shutdown,
    /// A previously spawned sub-task finished; `panicked` tells whether it
    /// crashed instead of running to completion.
    SubtaskFinished {
        /// Whether the sub-task crashed.
        panicked: bool,
    },
    /// A delivery arrived; `ok` tells whether it was received intact.
    Delivery {
        /// Whether the delivery was received intact.
        ok: bool,
    },
    /// The broker ended the delivery stream: the consumer was cancelled.
    StreamEnded,
}

/// What the surrounding runtime must do after a step of the machine.
#[derive(Debug, Clone, Copy, PartialEq, Eq, Structural)]
pub enum TaskAction {
    /// Spawn a concurrent sub-task that handles the accepted delivery.
    SpawnSubtask,
    /// Log the failed receipt of a delivery and carry on.
    LogDeliveryError,
    /// Log the crash of a sub-task and carry on: one bad request never
    /// terminates the task.
    LogSubtaskPanic,
    /// Cancel the broker subscription (best-effort) and release the queue's
    /// prefetch capacity.
    CancelConsumer,
    /// Nothing.
    Ignore,
}

/// The state of one consumer task.
#[derive(Debug, Clone, Copy, PartialEq, Eq, Structural)]
pub struct ConsumerTask {
    /// The phase of the lifecycle.
    pub phase: TaskPhase,
    /// How many spawned sub-tasks have not finished yet.
    pub in_flight: usize,
    /// Why the task stopped receiving; `None` while it still receives.
    pub outcome: Option<TaskOutcome>,
}

impl ConsumerTask {
    /// The lifecycle invariant: an outcome exists exactly from the moment the
    /// task stops receiving, a draining task still has work in flight, and a
    /// terminated task has none.
    pub open spec fn inv(self) -> bool {
        &&& (self.phase is Receiving ==> self.outcome is None)
        &&& (self.phase is Draining ==> self.outcome is Some && self.in_flight > 0)
        &&& (self.phase is Terminated ==> self.outcome is Some && self.in_flight == 0)
    }

    /// Which events can reach the machine in a given state: nothing reaches a
    /// terminated task, a sub-task can only finish if one is in flight, and
    /// accepting a delivery must not overflow the in-flight counter.
    pub open spec fn event_enabled(self, ev: TaskEvent) -> bool {
        &&& !(self.phase is Terminated)
        &&& (ev is SubtaskFinished ==> self.in_flight > 0)
        &&& (ev matches TaskEvent::Delivery { ok: true } ==> self.in_flight < usize::MAX)
    }

    /// A freshly started task: receiving, with nothing in flight.
    pub fn new() -> (t: Self)
        ensures
            t == (ConsumerTask { phase: TaskPhase::Receiving, in_flight: 0, outcome: None }),
    {
        ConsumerTask { phase: TaskPhase::Receiving, in_flight: 0, outcome: None }
    }

    /// Advances the machine by one event and returns what the runtime must do.
    pub fn step(&mut self, ev: TaskEvent) -> (a: TaskAction)
        requires
            old(self).inv(),
            old(self).event_enabled(ev),
        ensures
            final(self).inv(),
            (*final(self), a) == step_spec(*old(self), ev),
    {
        match self.phase {
            TaskPhase::Receiving => match ev {
                TaskEvent::Shutdown => {
                    self.outcome = Some(TaskOutcome::Graceful);
                    self.phase = if self.in_flight == 0 { TaskPhase::Terminated } else { TaskPhase::Draining };
                    TaskAction::CancelConsumer
                }
                TaskEvent::StreamEnded => {
                    self.outcome = Some(TaskOutcome::Cancelled);
                    self.phase = if self.in_flight == 0 { TaskPhase::Terminated } else { TaskPhase::Draining };
                    TaskAction::CancelConsumer
                }
                TaskEvent::SubtaskFinished { panicked } => {
                    self.in_flight = self.in_flight - 1;
                    if panicked { TaskAction::LogSubtaskPanic } else { TaskAction::Ignore }
                }
                TaskEvent::Delivery { ok } => {
                    if ok {
                        self.in_flight = self.in_flight + 1;
                        TaskAction::SpawnSubtask
                    } else {
                        TaskAction::LogDeliveryError
                    }
                }
            },
            TaskPhase::Draining => match ev {
                TaskEvent::SubtaskFinished { panicked } => {
                    self.in_flight = self.in_flight - 1;
                    if self.in_flight == 0 {
                        self.phase = TaskPhase::Terminated;
                    }
                    if panicked { TaskAction::LogSubtaskPanic } else { TaskAction::Ignore }
                }
                _ => TaskAction::Ignore,
            },
            TaskPhase::Terminated => TaskAction::Ignore,
        }
    }
}

/// How the task reacts when it stops receiving: it drains if sub-tasks are
/// still in flight, and terminates at once otherwise.
pub open spec fn close_spec(pre: ConsumerTask, outcome: TaskOutcome) -> ConsumerTask {
    ConsumerTask {
        phase: if pre.in_flight == 0 { TaskPhase::Terminated } else { TaskPhase::Draining },
        in_flight: pre.in_flight,
        outcome: Some(outcome),
    }
}

/// The transition relation of the consumer task, as a function from state and
/// event to state and required action.
pub open spec fn step_spec(pre: ConsumerTask, ev: TaskEvent) -> (ConsumerTask, TaskAction) {
    match pre.phase {
        TaskPhase::Receiving => match ev {
            TaskEvent::Shutdown => (close_spec(pre, TaskOutcome::Graceful), TaskAction::CancelConsumer),
            TaskEvent::StreamEnded => (close_spec(pre, TaskOutcome::Cancelled), TaskAction::CancelConsumer),
            TaskEvent::SubtaskFinished { panicked } => (
                ConsumerTask { in_flight: (pre.in_flight - 1) as usize, ..pre },
                if panicked { TaskAction::LogSubtaskPanic } else { TaskAction::Ignore },
            ),
            TaskEvent::Delivery { ok } => if ok {
                (ConsumerTask { in_flight: (pre.in_flight + 1) as usize, ..pre }, TaskAction::SpawnSubtask)
            } else {
                (pre, TaskAction::LogDeliveryError)
            },
        },
        TaskPhase::Draining => match ev {
            TaskEvent::SubtaskFinished { panicked } => (
                ConsumerTask {
                    phase: if pre.in_flight == 1 { TaskPhase::Terminated } else { TaskPhase::Draining },
                    in_flight: (pre.in_flight - 1) as usize,
                    outcome: pre.outcome,
                },
                if panicked { TaskAction::LogSubtaskPanic } else { TaskAction::Ignore },
            ),
            _ => (pre, TaskAction::Ignore),
        },
        TaskPhase::Terminated => (pre, TaskAction::Ignore),
    }
}

/// The state after running a whole sequence of events.
pub open spec fn run_steps(t: ConsumerTask, evs: Seq<TaskEvent>) -> ConsumerTask
    decreases evs.len(),
{
    if evs.len() == 0 {
        t
    } else {
        run_steps(step_spec(t, evs[0]).0, evs.drop_first())
    }
}

/// Every event of the sequence is enabled in the state it meets.
pub open spec fn trace_enabled(t: ConsumerTask, evs: Seq<TaskEvent>) -> bool
    decreases evs.len(),
{
    evs.len() == 0 || {
        &&& t.event_enabled(evs[0])
        &&& trace_enabled(step_spec(t, evs[0]).0, evs.drop_first())
    }
}

/// How many events of the sequence are sub-task completions.
pub open spec fn count_finished(evs: Seq<TaskEvent>) -> int
    decreases evs.len(),
{
    if evs.len() == 0 {
        0
    } else {
        (if evs[0] is SubtaskFinished { 1int } else { 0int }) + count_finished(evs.drop_first())
    }
}

/// The step relation preserves the lifecycle invariant.
pub proof fn lemma_step_preserves_inv(t: ConsumerTask, ev: TaskEvent)
    requires
        t.inv(),
        t.event_enabled(ev),
    ensures
        step_spec(t, ev).0.inv(),
{
}

/// Drain completeness: from the moment a task is draining with `N` sub-tasks
/// in flight, every event only ever leaves `N` minus the number of completed
/// sub-tasks in flight — deliveries arriving after the shutdown signal are
/// not accepted — and the task reaches its terminated phase exactly when all
/// `N` have finished.
pub proof fn lemma_drain_completeness(t: ConsumerTask, evs: Seq<TaskEvent>)
    requires
        t.inv(),
        t.phase is Draining,
        trace_enabled(t, evs),
    ensures
        run_steps(t, evs).in_flight == t.in_flight - count_finished(evs),
        run_steps(t, evs).phase is Terminated <==> count_finished(evs) == t.in_flight,
        run_steps(t, evs).phase is Draining || run_steps(t, evs).phase is Terminated,
        run_steps(t, evs).outcome == t.outcome,
    decreases evs.len(),
{
    if evs.len() > 0 {
        let (t2, _) = step_spec(t, evs[0]);
        lemma_step_preserves_inv(t, evs[0]);
        if t2.phase is Terminated {
            lemma_terminated_stays(t2, evs.drop_first());
        } else {
            lemma_drain_completeness(t2, evs.drop_first());
        }
    }
}

/// A terminated task does not move again: no event is enabled on it, so an
/// enabled trace from it must be empty.
pub proof fn lemma_terminated_stays(t: ConsumerTask, evs: Seq<TaskEvent>)
    requires
        t.phase is Terminated,
        trace_enabled(t, evs),
    ensures
        evs.len() == 0,
        run_steps(t, evs) == t,
        count_finished(evs) == 0,
{
}

/// Failure isolation: while the task is receiving, the crash of one sub-task
/// only removes that sub-task and asks for a log line; the task keeps
/// receiving, so concurrent sibling requests are unaffected.
pub proof fn lemma_panic_isolation(t: ConsumerTask)
    requires
        t.inv(),
        t.phase is Receiving,
        t.in_flight > 0,
    ensures
        ({
            let (t2, a) = step_spec(t, TaskEvent::SubtaskFinished { panicked: true });
            &&& t2.phase is Receiving
            &&& t2.in_flight == t.in_flight - 1
            &&& a is LogSubtaskPanic
        }),
{
}

/// What must be done, in order, to wire one handler's queue up at startup:
/// set the per-consumer prefetch, raise the prefetch-capacity gauge, declare
/// the queue, bind it, and create the consumer.
#[derive(Debug, PartialEq, Eq)]
pub struct SetupPlan {
    /// The per-consumer prefetch to request from the broker.
    pub prefetch: u16,
    /// The name of the queue to declare, bind and consume from.
    pub queue_name: String,
    /// By how much the queue's prefetch-capacity gauge rises when the task
    /// starts.
    pub gauge_increment: u16,
    /// The options of the queue declaration.
    pub options: DeclareOptions,
    /// The arguments of the queue declaration.
    pub arguments: Arguments,
    /// The exchange the queue is bound on.
    pub exchange: String,
    /// The binding key: the handler's routing key.
    pub routing_key: String,
    /// The tag under which the consumer is created.
    pub consumer_tag: String,
    /// Whether the task built from this plan replies to messages.
    pub should_reply: bool,
}

/// How a setup plan realises a registration: the queue is named by the
/// configuration, or by the routing key when the configuration names none;
/// the declaration carries the configured options and arguments; the binding
/// key and the consumer tag are the routing key; and both the requested
/// prefetch and the gauge increment are the configured prefetch.
pub open spec fn plan_matches(f: TaskFactory, r: SetupPlan) -> bool {
    &&& r.prefetch == f.config.prefetch
    &&& r.gauge_increment == f.config.prefetch
    &&& (match f.config.queue {
        Some(q) => r.queue_name == q,
        None => r.queue_name == f.routing_key,
    })
    &&& r.options == f.config.options
    &&& r.arguments.0@ == f.config.arguments.0@
    &&& r.exchange == f.config.exchange
    &&& r.routing_key == f.routing_key
    &&& r.consumer_tag == f.routing_key
    &&& r.should_reply == f.config.should_reply
}

/// A handler's registration: the routing key and the configuration frozen at
/// registration time. Factories are created when a handler is registered and
/// consumed at startup, when each yields the setup of its queue and a fresh
/// [`ConsumerTask`].
#[derive(Debug, PartialEq, Eq)]
pub struct TaskFactory {
    /// The routing key of this handler's consumer task.
    pub routing_key: String,
    /// Configuration for this handler's consumer task.
    pub config: HandlerConfig,
}

impl TaskFactory {
    /// A new task factory around a routing key and a configuration.
    pub fn new(routing_key: String, config: HandlerConfig) -> (r: Self)
        ensures
            r == (TaskFactory { routing_key, config }),
    {
        TaskFactory { routing_key, config }
    }

    /// The routing key of this registration.
    pub fn routing_key(&self) -> (r: &str)
        ensures
            r@ == self.routing_key@,
    {
        self.routing_key.as_str()
    }

    /// Lays the startup of this handler's queue out: the queue is named by
    /// the configuration, or by the routing key when the configuration names
    /// none; the declaration carries the configured options and arguments;
    /// the binding key and the consumer tag are the routing key; and both the
    /// requested prefetch and the gauge increment are the configured
    /// prefetch.
    pub fn build_plan(&self) -> (r: SetupPlan)
        ensures
            plan_matches(*self, r),
    {
        let queue_name: String = match &self.config.queue {
            Some(q) => clone_string(q),
            None => clone_string(&self.routing_key),
        };
        SetupPlan {
            prefetch: self.config.prefetch,
            queue_name,
            gauge_increment: self.config.prefetch,
            options: self.config.options,
            arguments: self.config.arguments.duplicate(),
            exchange: clone_string(&self.config.exchange),
            routing_key: clone_string(&self.routing_key),
            consumer_tag: clone_string(&self.routing_key),
            should_reply: self.config.should_reply,
        }
    }
}

/// Which of the simultaneously ready wake-up sources a receiving task serves.
#[derive(Debug, Clone, Copy, PartialEq, Eq, Structural)]
pub enum WakeSource {
    /// The shutdown broadcast.
    Shutdown,
    /// A finished sub-task.
    Subtask,
    /// The delivery stream.
    Delivery,
}

/// The fixed priority of the task's multi-wait: the shutdown signal is served
/// before finished sub-tasks, and those before new deliveries.
pub fn select_wake_source(shutdown_ready: bool, subtask_ready: bool, delivery_ready: bool) -> (c: Option<
    WakeSource,
>)
    ensures
        c == (if shutdown_ready {
            Some(WakeSource::Shutdown)
        } else if subtask_ready {
            Some(WakeSource::Subtask)
        } else if delivery_ready {
            Some(WakeSource::Delivery)
        } else {
            None::<WakeSource>
        }),
{
    if shutdown_ready {
        Some(WakeSource::Shutdown)
    } else if subtask_ready {
        Some(WakeSource::Subtask)
    } else if delivery_ready {
        Some(WakeSource::Delivery)
    } else {
        None
    }
}

} // verus!
