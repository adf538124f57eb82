//! The central [`App`] struct: the registry of handlers, the startup
//! planning, and the aggregation of the consumer tasks' outcomes.

use vstd::prelude::*;

use crate::error::Error;
use crate::handler_config::HandlerConfig;
use crate::task::SetupPlan;
use crate::task::TaskFactory;
use crate::task::plan_matches;

verus! {

/// The central struct of your application: the handler registrations and the
/// shared application state, held until the app is run.
///
/// The shell that runs the app owns the broker connection and the shutdown
/// broadcast; it asks [`App::setup_handlers`] how to wire each registered
/// handler up, and it never attempts a broker call when that refuses.
#[must_use]
pub struct App<S> {
    /// One task factory per registered handler, in registration order.
    pub handlers: Vec<TaskFactory>,
    /// The state values that users may want to store before running the app,
    /// and then extract in their handlers.
    pub state: S,
}

impl<S> App<S> {
    /// Creates a new app around the given state.
    pub fn new(state: S) -> (r: Self)
        ensures
            r.handlers@ =~= Seq::<TaskFactory>::empty(),
            r.state == state,
    {
        App { handlers: Vec::new(), state }
    }

    /// Registers a new handler for the given routing key with the default
    /// configuration.
    pub fn handler(self, routing_key: String) -> (r: Self)
        ensures
            r.state == self.state,
            r.handlers@.len() == self.handlers@.len() + 1,
            forall|i: int| 0 <= i < self.handlers@.len() ==> r.handlers@[i] == self.handlers@[i],
            r.handlers@.last().routing_key == routing_key,
            r.handlers@.last().config.is_default(),
            r.handlers@.last().config.wf(),
    {
        self.handler_with_config(routing_key, HandlerConfig::new())
    }

    /// Registers a new handler for the given routing key with the given
    /// configuration.
    pub fn handler_with_config(self, routing_key: String, config: HandlerConfig) -> (r: Self)
        ensures
            r.state == self.state,
            r.handlers@ == self.handlers@.push(TaskFactory { routing_key, config }),
    {
        let mut app = self;
        app.handlers.push(TaskFactory::new(routing_key, config));
        app
    }

    /// Plans the startup: one queue setup per registered handler, in
    /// registration order.
    ///
    /// Fails with [`Error::NoHandlers`] exactly when nothing was registered;
    /// the app then never touches the broker at all.
    pub fn setup_handlers(&self) -> (r: Result<Vec<SetupPlan>, Error>)
        ensures
            r is Err <==> self.handlers@.len() == 0,
            self.handlers@.len() == 0 ==> r == Err::<Vec<SetupPlan>, Error>(Error::NoHandlers),
            (r matches Ok(plans) ==> {
                &&& plans@.len() == self.handlers@.len()
                &&& forall|i: int|
                    0 <= i < plans@.len() ==> plan_matches(self.handlers@[i], #[trigger] plans@[i])
            }),
    {
        if self.handlers.len() == 0 {
            return Err(Error::NoHandlers);
        }
        let n: usize = self.handlers.len();
        let mut plans: Vec<SetupPlan> = Vec::new();
        let mut i: usize = 0;
        while i < n
            invariant
                n == self.handlers@.len(),
                0 <= i <= n,
                plans@.len() == i,
                forall|j: int|
                    0 <= j < i ==> plan_matches(self.handlers@[j], #[trigger] plans@[j]),
            decreases n - i,
        {
            plans.push(self.handlers[i].build_plan());
            i = i + 1;
        }
        Ok(plans)
    }
}

impl<S: Default> Default for App<S> {
    /// An app with no handlers around the state type's default value.
    fn default() -> (r: Self)
        ensures
            r.handlers@ =~= Seq::<TaskFactory>::empty(),
    {
        App { handlers: Vec::new(), state: S::default() }
    }
}

/// The error, if any, that the latest-completing failed consumer task
/// reported.
pub open spec fn last_error(s: Seq<Result<(), Error>>) -> Option<Error>
    decreases s.len(),
{
    if s.len() == 0 {
        None
    } else {
        match last_error(s.drop_first()) {
            Some(e) => Some(e),
            None => match s[0] {
                Err(e) => Some(e),
                Ok(_) => None,
            },
        }
    }
}

/// How many consumer tasks reported an error.
pub open spec fn count_errors(s: Seq<Result<(), Error>>) -> int
    decreases s.len(),
{
    if s.len() == 0 {
        0
    } else {
        (if s[0] is Err { 1int } else { 0int }) + count_errors(s.drop_first())
    }
}

/// The number of failed tasks is at most the number of tasks.
proof fn lemma_count_errors_bound(s: Seq<Result<(), Error>>)
    ensures
        0 <= count_errors(s) <= s.len(),
    decreases s.len(),
{
    if s.len() > 0 {
        lemma_count_errors_bound(s.drop_first());
    }
}

/// Aggregates the consumer tasks' outcomes, in their order of completion,
/// into the overall run result.
///
/// The run succeeds exactly when every task shut down gracefully; otherwise
/// the error of the latest-completing failed task is the run's result. Every
/// failed task additionally asks for one shutdown broadcast to the tasks
/// still running, so one queue's loss brings the whole app down in a
/// controlled way; the returned count says how many such broadcasts the
/// shell must have sent.
pub fn aggregate_outcomes(outcomes: Vec<Result<(), Error>>) -> (r: (Result<(), Error>, usize))
    requires
        outcomes@.len() < usize::MAX,
    ensures
        r.0 == (match last_error(outcomes@) {
            None => Ok::<(), Error>(()),
            Some(e) => Err::<(), Error>(e),
        }),
        r.1 == count_errors(outcomes@),
{
    let mut v = outcomes;
    let mut result: Result<(), Error> = Ok(());
    let mut found = false;
    let mut broadcasts: usize = 0;
    proof {
        assert(outcomes@.skip(outcomes@.len() as int) =~= Seq::<Result<(), Error>>::empty());
    }
    while v.len() > 0
        invariant
            outcomes@.len() < usize::MAX,
            v@.len() <= outcomes@.len(),
            v@ == outcomes@.take(v@.len() as int),
            found == (last_error(outcomes@.skip(v@.len() as int)) is Some),
            result == (match last_error(outcomes@.skip(v@.len() as int)) {
                None => Ok::<(), Error>(()),
                Some(e) => Err::<(), Error>(e),
            }),
            broadcasts == count_errors(outcomes@.skip(v@.len() as int)),
        decreases v.len(),
    {
        let ghost pre = v@;
        let item = v.pop().unwrap();
        proof {
            let k = pre.len() as int - 1;
            assert(pre[k] == outcomes@[k]);
            assert(outcomes@.skip(k)[0] == outcomes@[k]);
            assert(outcomes@.skip(k).drop_first() =~= outcomes@.skip(k + 1));
            lemma_count_errors_bound(outcomes@.skip(k));
        }
        match item {
            Ok(_) => {}
            Err(e) => {
                broadcasts = broadcasts + 1;
                if !found {
                    result = Err(e);
                    found = true;
                }
            }
        }
    }
    proof {
        assert(outcomes@.skip(0) =~= outcomes@);
    }
    (result, broadcasts)
}

} // verus!
