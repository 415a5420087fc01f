use crate::problem::Problem;
use crate::solution::Solution;
use crate::state::AlgorithmState;
use crate::termination::TerminationCriteria;
use vstd::prelude::*;

verus! {

/// A search strategy that the solver driver can run: it builds a first state
/// and then advances one generation at a time.
pub trait Metaheuristic<P: Problem> {
    /// The strategy is set up well enough for `initialize` to be called on
    /// `problem`. A strategy that demands nothing accepts every configuration.
    open spec fn configured(&self, problem: &P) -> bool {
        true
    }

    /// The strategy has been initialized on `problem` and can take a step.
    /// `initialize` establishes this and every `step` keeps it.
    open spec fn ready(&self, problem: &P) -> bool {
        true
    }

    /// What `initialize` makes of the strategy: `started` is the strategy
    /// after the call and `state` the state that the call hands out. A
    /// strategy that promises nothing relates all of them.
    open spec fn starts_with(
        &self,
        problem: &P,
        started: &Self,
        state: AlgorithmState<P::Solution>,
    ) -> bool {
        true
    }

    /// What `step` makes of the strategy and of `state`: `next` is the
    /// strategy after the call, `next_state` the state after it, and
    /// `candidate` what the call hands back. A strategy that promises nothing
    /// relates all of them.
    open spec fn advances(
        &self,
        problem: &P,
        state: AlgorithmState<P::Solution>,
        next: &Self,
        next_state: AlgorithmState<P::Solution>,
        candidate: Option<P::Solution>,
    ) -> bool {
        true
    }

    /// Builds the first state of a run, with the starting population or
    /// solution fully evaluated.
    fn initialize(&mut self, problem: &P) -> (state: AlgorithmState<P::Solution>)
        requires
            old(self).configured(problem),
        ensures
            final(self).ready(problem),
            old(self).starts_with(problem, final(self), state),
    ;

    /// Advances the search by one generation and hands back the best solution
    /// found in that generation, if the generation produced any. The step
    /// keeps the count of evaluations; the best solution, the iteration
    /// counter and the start time belong to the driver and are left alone.
    fn step(&mut self, problem: &P, state: &mut AlgorithmState<P::Solution>) -> (candidate: Option<
        P::Solution,
    >)
        requires
            old(self).ready(problem),
        ensures
            final(self).ready(problem),
            final(state).best_solution == old(state).best_solution,
            final(state).iteration_count == old(state).iteration_count,
            final(state).start_time == old(state).start_time,
            old(self).advances(problem, *old(state), final(self), *final(state), candidate),
    ;
}

/// One turn of the driver: the strategy takes a step, which leaves the best
/// solution, the iteration counter and the start time alone, and the driver
/// books the step's candidate.
pub open spec fn is_turn<P: Problem, M: Metaheuristic<P>>(
    problem: &P,
    strategy: M,
    state: AlgorithmState<P::Solution>,
    next_strategy: M,
    next_state: AlgorithmState<P::Solution>,
) -> bool {
    exists|stepped: AlgorithmState<P::Solution>, candidate: Option<P::Solution>|
        {
            &&& #[trigger] strategy.advances(problem, state, &next_strategy, stepped, candidate)
            &&& stepped.best_solution == state.best_solution
            &&& stepped.iteration_count == state.iteration_count
            &&& stepped.start_time == state.start_time
            &&& next_state == stepped.after_step(P::GOAL, candidate)
        }
}

/// The stopping rule lets the run go on from `state`, as far as it is known:
/// a rule that reads more than the state may do anything.
pub open spec fn goes_on<S: Solution, T: TerminationCriteria<S>>(
    termination: &T,
    state: AlgorithmState<S>,
) -> bool {
    state.iteration_count < usize::MAX && (termination.reads_state_only() ==> !termination.stops(
        state,
    ))
}

/// The run ends in `state`, as far as it is known: the stopping rule says so,
/// or the iteration counter can count no further.
pub open spec fn ends<S: Solution, T: TerminationCriteria<S>>(
    termination: &T,
    state: AlgorithmState<S>,
) -> bool {
    state.iteration_count == usize::MAX || (termination.reads_state_only() ==> termination.stops(
        state,
    ))
}

/// `states` and `strategies` record a run of the driver, turn by turn: at
/// each state but the last the stopping rule let the run go on, and a turn
/// led to the next.
pub open spec fn is_run<P: Problem, M: Metaheuristic<P>, T: TerminationCriteria<P::Solution>>(
    problem: &P,
    termination: &T,
    strategies: Seq<M>,
    states: Seq<AlgorithmState<P::Solution>>,
) -> bool {
    &&& states.len() == strategies.len()
    &&& states.len() > 0
    &&& forall|i: int|
        #![trigger states[i]]
        0 <= i < states.len() - 1 ==> goes_on(termination, states[i]) && is_turn(
            problem,
            strategies[i],
            states[i],
            strategies[i + 1],
            states[i + 1],
        )
}

/// In a run the best solution never gets worse: that of any state is not
/// worse, by the goal of the problem, than that of any state before it.
pub proof fn run_never_regresses<
    P: Problem,
    M: Metaheuristic<P>,
    T: TerminationCriteria<P::Solution>,
>(
    problem: &P,
    termination: &T,
    strategies: Seq<M>,
    states: Seq<AlgorithmState<P::Solution>>,
    earlier: int,
    later: int,
)
    requires
        is_run(problem, termination, strategies, states),
        0 <= earlier <= later < states.len(),
    ensures
        P::GOAL.not_worse(
            states[later].best_solution.fitness_value(),
            states[earlier].best_solution.fitness_value(),
        ),
        states[later].iteration_count == states[earlier].iteration_count + (later - earlier),
        states[later].start_time == states[earlier].start_time,
    decreases later - earlier,
{
    if earlier < later {
        run_never_regresses(problem, termination, strategies, states, earlier, later - 1);
        let before = states[later - 1];
        assert(goes_on(termination, before) && is_turn(
            problem,
            strategies[later - 1],
            before,
            strategies[later - 1 + 1],
            states[later - 1 + 1],
        ));
    }
}

/// The generic driver: it runs a metaheuristic on a problem until a
/// termination criterion says stop, and keeps the best solution seen.
pub struct Solver<'a, P, M, T> where
    P: Problem,
    M: Metaheuristic<P>,
    T: TerminationCriteria<P::Solution>,
 {
    problem: &'a P,
    metaheuristic: &'a mut M,
    termination: &'a T,
}

impl<'a, P, M, T> Solver<'a, P, M, T> where
    P: Problem,
    M: Metaheuristic<P>,
    T: TerminationCriteria<P::Solution>,
 {
    /// The problem that the solver works on.
    pub closed spec fn problem(&self) -> &P {
        self.problem
    }

    /// The search strategy, as it stands now.
    pub closed spec fn metaheuristic(&self) -> M {
        *self.metaheuristic
    }

    /// The stopping rule.
    pub closed spec fn termination(&self) -> &T {
        self.termination
    }

    /// A run of this solver from `state` with the strategy as it stands led to
    /// `best` and left the strategy as `last`: there is a record of the run
    /// that begins with the two, ends where the run ends, with `last` as the
    /// strategy, and holds `best` as the best solution of its last state.
    pub open spec fn runs_to(&self, state: AlgorithmState<P::Solution>, last: M, best: P::Solution) -> bool {
        exists|strategies: Seq<M>, states: Seq<AlgorithmState<P::Solution>>|
            {
                &&& #[trigger] is_run(self.problem(), self.termination(), strategies, states)
                &&& strategies[0] == self.metaheuristic()
                &&& states[0] == state
                &&& strategies.last() == last
                &&& ends(self.termination(), states.last())
                &&& best == states.last().best_solution
            }
    }

    /// Puts a problem, a search strategy and a stopping rule together.
    pub fn new(problem: &'a P, metaheuristic: &'a mut M, termination: &'a T) -> (solver: Self)
        ensures
            solver.problem() == problem,
            solver.metaheuristic() == *old(metaheuristic),
            solver.termination() == termination,
    {
        Self { problem, metaheuristic, termination }
    }

    /// Runs the search from a state that the strategy has initialized, and
    /// returns the best solution found.
    ///
    /// Before each generation the stopping rule is asked; a rule that says
    /// stop at once leaves the best solution of `state` as the result. Each
    /// generation's candidate replaces the best solution only when it is
    /// strictly better, so the result is never worse than the best solution
    /// that `state` came with. The run also ends when the iteration counter
    /// can count no further.
    pub fn run_from(&mut self, state: AlgorithmState<P::Solution>) -> (best: P::Solution)
        requires
            old(self).metaheuristic().ready(old(self).problem()),
        ensures
            final(self).metaheuristic().ready(old(self).problem()),
            final(self).problem() == old(self).problem(),
            final(self).termination() == old(self).termination(),
            old(self).runs_to(state, final(self).metaheuristic(), best),
            P::GOAL.not_worse(best.fitness_value(), state.best_solution.fitness_value()),
            ends(old(self).termination(), state) && old(self).termination().reads_state_only()
                ==> best == state.best_solution,
    {
        let ghost given = state;
        let mut state = state;
        let ghost mut strategies: Seq<M> = seq![*self.metaheuristic];
        let ghost mut states: Seq<AlgorithmState<P::Solution>> = seq![state];
        while state.iteration_count < usize::MAX && !self.termination.should_terminate(&state)
            invariant
                self.metaheuristic.ready(self.problem),
                self.problem == old(self).problem,
                self.termination == old(self).termination,
                is_run(self.problem, self.termination, strategies, states),
                strategies[0] == old(self).metaheuristic(),
                states[0] == given,
                strategies.last() == *self.metaheuristic,
                states.last() == state,
            ensures
                ends(self.termination, state),
            decreases usize::MAX - state.iteration_count,
        {
            let candidate = self.metaheuristic.step(self.problem, &mut state);
            state.record_step(P::GOAL, candidate);
            proof {
                states = states.push(state);
                strategies = strategies.push(*self.metaheuristic);
            }
        }
        proof {
            run_never_regresses(
                self.problem,
                self.termination,
                strategies,
                states,
                0,
                states.len() - 1,
            );
            assert(is_run(old(self).problem(), old(self).termination(), strategies, states));
        }
        state.best_solution
    }

    /// Runs the whole search: initializes the strategy, then evolves until the
    /// stopping rule says stop, and returns the best solution found. It is
    /// never worse, by the goal of the problem, than the best solution of the
    /// state that `initialize` produced.
    pub fn run(&mut self) -> (best: P::Solution)
        requires
            old(self).metaheuristic().configured(old(self).problem()),
        ensures
            final(self).metaheuristic().ready(old(self).problem()),
            final(self).problem() == old(self).problem(),
            final(self).termination() == old(self).termination(),
            exists|started: Self, first: AlgorithmState<P::Solution>|
                {
                    &&& #[trigger] old(self).metaheuristic().starts_with(
                        old(self).problem(),
                        &started.metaheuristic(),
                        first,
                    )
                    &&& started.problem() == old(self).problem()
                    &&& started.termination() == old(self).termination()
                    &&& started.runs_to(first, final(self).metaheuristic(), best)
                    &&& P::GOAL.not_worse(best.fitness_value(), first.best_solution.fitness_value())
                },
    {
        let state = self.metaheuristic.initialize(self.problem);
        let ghost started = *self;
        let ghost first = state;
        let best = self.run_from(state);
        assert(old(self).metaheuristic().starts_with(
            old(self).problem(),
            &started.metaheuristic(),
            first,
        ));
        best
    }
}

} // verus!
