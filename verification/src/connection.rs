//! The duplex merger: one ordered sequence out of the items that the input
//! side and the output side of a connection produce.

use vstd::prelude::*;

verus! {

/// An item of the merged sequence, tagged with the side it came from.
#[derive(Debug, PartialEq)]
pub enum Message<T> {
    Input(T),
    Output(T),
}

/// One of the two sides that feed the merger.
#[derive(Clone, Copy, Debug, PartialEq, Eq, Structural)]
pub enum Side {
    Input,
    Output,
}

impl Side {
    /// The other side.
    pub open spec fn opposite(self) -> Side {
        match self {
            Side::Input => Side::Output,
            Side::Output => Side::Input,
        }
    }

    /// The other side.
    pub fn other(self) -> (side: Side)
        ensures
            side == self.opposite(),
    {
        match self {
            Side::Input => Side::Output,
            Side::Output => Side::Input,
        }
    }
}

/// What the merger knows of one side.
#[derive(Clone, Copy, Debug, PartialEq, Eq, Structural)]
pub enum SideState {
    /// It may have an item: it has not been asked since the last item.
    Open,
    /// It was asked in this round and had nothing ready.
    Pending,
    /// It has completed.
    Done,
}

/// What a side answers when it is asked for its next item.
#[derive(Debug, PartialEq)]
pub enum Polled<T, E> {
    Item(T),
    Failure(E),
    Pending,
    Finished,
}

/// What the driver of the merger does next.
#[derive(Clone, Copy, Debug, PartialEq, Eq, Structural)]
pub enum Plan {
    /// Ask this side for its next item and hand the answer to the merger.
    Ask(Side),
    /// Nothing is ready on a side that is still running: wait to be woken.
    Park,
    /// Both sides have completed: the merged sequence ends.
    Finish,
    /// The output side has failed: the merged sequence ends with a failure.
    Abort,
}

/// What the merger makes of an answer.
#[derive(Debug, PartialEq)]
pub enum Step<T> {
    /// The next item of the merged sequence.
    Emit(Message<T>),
    /// No item came of it: go on as the plan says.
    Then(Plan),
}

/// The state of the merger of one connection. It holds no item: what a side
/// hands over is passed on at once.
#[derive(Clone, Copy, Debug, PartialEq, Eq, Structural)]
pub struct DuplexMerger {
    pub input: SideState,
    pub output: SideState,
    /// The side that is asked first.
    pub lead: Side,
    /// The output side has failed.
    pub aborted: bool,
}

impl DuplexMerger {
    /// What is known of `side`.
    pub open spec fn state_of(self, side: Side) -> SideState {
        match side {
            Side::Input => self.input,
            Side::Output => self.output,
        }
    }

    /// The state with `state` noted for `side`.
    pub open spec fn with_state(self, side: Side, state: SideState) -> DuplexMerger {
        match side {
            Side::Input => DuplexMerger { input: state, ..self },
            Side::Output => DuplexMerger { output: state, ..self },
        }
    }

    /// What the driver does next in this state: ask the leading side if it
    /// is open, else the other side if that is open; with no open side, end
    /// if both are done, and wait otherwise.
    pub open spec fn plan(self) -> Plan {
        if self.aborted {
            Plan::Abort
        } else if self.state_of(self.lead) is Open {
            Plan::Ask(self.lead)
        } else if self.state_of(self.lead.opposite()) is Open {
            Plan::Ask(self.lead.opposite())
        } else if self.input is Done && self.output is Done {
            Plan::Finish
        } else {
            Plan::Park
        }
    }

    /// A pending side counts as open again; a side that is done stays done.
    pub open spec fn woken_side(state: SideState) -> SideState {
        match state {
            SideState::Pending => SideState::Open,
            other => other,
        }
    }

    /// The state at the start of a new round: every side that is not done
    /// may be asked again.
    pub open spec fn woken(self) -> DuplexMerger {
        DuplexMerger {
            input: Self::woken_side(self.input),
            output: Self::woken_side(self.output),
            ..self
        }
    }

    /// The state after `side` has handed over an item: a new round begins,
    /// and the other side leads it.
    pub open spec fn after_item(self, side: Side) -> DuplexMerger {
        DuplexMerger { lead: side.opposite(), ..self.woken() }
    }

    /// The state once the driver has taken the plan: waiting ends the round.
    pub open spec fn after_plan(self) -> DuplexMerger {
        if self.plan() is Park {
            self.woken()
        } else {
            self
        }
    }

    /// The merger of a fresh connection: both sides open, the input side
    /// leading.
    pub fn new() -> (merger: Self)
        ensures
            merger == (DuplexMerger {
                input: SideState::Open,
                output: SideState::Open,
                lead: Side::Input,
                aborted: false,
            }),
    {
        DuplexMerger {
            input: SideState::Open,
            output: SideState::Open,
            lead: Side::Input,
            aborted: false,
        }
    }

    fn side(&self, side: Side) -> (state: SideState)
        ensures
            state == self.state_of(side),
    {
        match side {
            Side::Input => self.input,
            Side::Output => self.output,
        }
    }

    fn note(&mut self, side: Side, state: SideState)
        ensures
            *final(self) == old(self).with_state(side, state),
    {
        match side {
            Side::Input => {
                self.input = state;
            },
            Side::Output => {
                self.output = state;
            },
        }
    }

    fn wake(&mut self)
        ensures
            *final(self) == old(self).woken(),
    {
        if self.input == SideState::Pending {
            self.input = SideState::Open;
        }
        if self.output == SideState::Pending {
            self.output = SideState::Open;
        }
    }

    /// Says what to do next. Where that is to wait, the round is over, and
    /// the sides that had nothing ready will be asked again.
    pub fn next(&mut self) -> (plan: Plan)
        ensures
            plan == old(self).plan(),
            *final(self) == old(self).after_plan(),
    {
        if self.aborted {
            Plan::Abort
        } else if self.side(self.lead) == SideState::Open {
            Plan::Ask(self.lead)
        } else if self.side(self.lead.other()) == SideState::Open {
            Plan::Ask(self.lead.other())
        } else if self.input == SideState::Done && self.output == SideState::Done {
            Plan::Finish
        } else {
            self.wake();
            Plan::Park
        }
    }

    /// The state after `side` answered without an item: it is pending, or
    /// done, and the plan of that state has been taken.
    pub open spec fn after_idle(self, side: Side, state: SideState) -> DuplexMerger {
        self.with_state(side, state).after_plan()
    }

    fn idle(&mut self, side: Side, state: SideState) -> (plan: Plan)
        ensures
            plan == old(self).with_state(side, state).plan(),
            *final(self) == old(self).after_idle(side, state),
    {
        self.note(side, state);
        self.next()
    }

    fn emitted(&mut self, side: Side)
        ensures
            *final(self) == old(self).after_item(side),
    {
        self.wake();
        self.lead = side.other();
    }

    /// The step and the state that follow an answer of the input side. An
    /// item is passed on. A failure of this side is passed on as an item of
    /// its own and ends nothing. After a failure of the output side nothing
    /// is passed on any more.
    pub open spec fn input_step<T>(self, polled: Polled<T, T>) -> (Step<T>, DuplexMerger) {
        if self.aborted {
            (Step::Then(Plan::Abort), self)
        } else {
            match polled {
                Polled::Item(item) => (
                    Step::Emit(Message::Input(item)),
                    self.after_item(Side::Input),
                ),
                Polled::Failure(error) => (
                    Step::Emit(Message::Input(error)),
                    self.after_item(Side::Input),
                ),
                Polled::Pending => (
                    Step::Then(self.with_state(Side::Input, SideState::Pending).plan()),
                    self.after_idle(Side::Input, SideState::Pending),
                ),
                Polled::Finished => (
                    Step::Then(self.with_state(Side::Input, SideState::Done).plan()),
                    self.after_idle(Side::Input, SideState::Done),
                ),
            }
        }
    }

    /// The step and the state that follow an answer of the output side. An
    /// item is passed on. A failure of this side ends the merged sequence.
    pub open spec fn output_step<T, E>(self, polled: Polled<T, E>) -> (Step<T>, DuplexMerger) {
        if self.aborted {
            (Step::Then(Plan::Abort), self)
        } else {
            match polled {
                Polled::Item(item) => (
                    Step::Emit(Message::Output(item)),
                    self.after_item(Side::Output),
                ),
                Polled::Failure(_) => (
                    Step::Then(Plan::Abort),
                    DuplexMerger { aborted: true, ..self },
                ),
                Polled::Pending => (
                    Step::Then(self.with_state(Side::Output, SideState::Pending).plan()),
                    self.after_idle(Side::Output, SideState::Pending),
                ),
                Polled::Finished => (
                    Step::Then(self.with_state(Side::Output, SideState::Done).plan()),
                    self.after_idle(Side::Output, SideState::Done),
                ),
            }
        }
    }

    /// Takes the answer of the input side.
    pub fn accept_input<T>(&mut self, polled: Polled<T, T>) -> (step: Step<T>)
        ensures
            (step, *final(self)) == old(self).input_step(polled),
    {
        if self.aborted {
            return Step::Then(Plan::Abort);
        }
        match polled {
            Polled::Item(item) => {
                self.emitted(Side::Input);
                Step::Emit(Message::Input(item))
            },
            Polled::Failure(error) => {
                self.emitted(Side::Input);
                Step::Emit(Message::Input(error))
            },
            Polled::Pending => Step::Then(self.idle(Side::Input, SideState::Pending)),
            Polled::Finished => Step::Then(self.idle(Side::Input, SideState::Done)),
        }
    }

    /// Takes the answer of the output side.
    pub fn accept_output<T, E>(&mut self, polled: Polled<T, E>) -> (step: Step<T>)
        ensures
            (step, *final(self)) == old(self).output_step(polled),
    {
        if self.aborted {
            return Step::Then(Plan::Abort);
        }
        match polled {
            Polled::Item(item) => {
                self.emitted(Side::Output);
                Step::Emit(Message::Output(item))
            },
            Polled::Failure(_) => {
                self.aborted = true;
                Step::Then(Plan::Abort)
            },
            Polled::Pending => Step::Then(self.idle(Side::Output, SideState::Pending)),
            Polled::Finished => Step::Then(self.idle(Side::Output, SideState::Done)),
        }
    }
}


/// What an answer of the input side passes on: the item, or the failure in
/// its place.
pub open spec fn passed_on<T>(answer: Result<T, T>) -> T {
    match answer {
        Ok(item) => item,
        Err(error) => error,
    }
}

/// The merged sequence `done`, followed by what `rest` adds to it.
pub open spec fn followed_by<T>(done: Seq<Message<T>>, rest: Result<Seq<Message<T>>, ()>) -> Result<
    Seq<Message<T>>,
    (),
> {
    match rest {
        Ok(more) => Ok(done + more),
        Err(_) => Err(()),
    }
}

/// The input side is the one to hand over the next item: it has one, and it
/// leads or the output side has none.
pub open spec fn input_goes<T>(
    input: Seq<Result<T, T>>,
    output: Seq<Result<T, ()>>,
    lead: Side,
) -> bool {
    input.len() > 0 && (lead is Input || output.len() == 0)
}

/// The merged sequence of two sides that always have their next answer
/// ready: the sides take turns, beginning with `lead`, and when one has
/// ended the other goes on alone. A failure of the output side ends it all.
pub open spec fn merged<T>(
    input: Seq<Result<T, T>>,
    output: Seq<Result<T, ()>>,
    lead: Side,
) -> Result<Seq<Message<T>>, ()>
    decreases input.len() + output.len(),
{
    if input.len() == 0 && output.len() == 0 {
        Ok(Seq::empty())
    } else if input_goes(input, output, lead) {
        followed_by(
            seq![Message::Input(passed_on(input[0]))],
            merged(input.skip(1), output, Side::Output),
        )
    } else {
        match output[0] {
            Ok(item) => followed_by(
                seq![Message::Output(item)],
                merged(input, output.skip(1), Side::Input),
            ),
            Err(_) => Err(()),
        }
    }
}

/// The same items, last first.
pub(crate) fn reversed<T>(items: Vec<T>) -> (r: Vec<T>)
    ensures
        r@ == items@.reverse(),
{
    let mut items = items;
    let ghost all = items@;
    let mut r: Vec<T> = Vec::new();
    while items.len() > 0
        invariant
            items@.len() + r@.len() == all.len(),
            items@ == all.take(items@.len() as int),
            forall|i: int| 0 <= i < r@.len() ==> r@[i] == all[all.len() - 1 - i],
        decreases items@.len(),
    {
        let ghost before = items@;
        let item = items.pop();
        match item {
            Some(item) => {
                r.push(item);
            },
            None => {},
        }
        assert(items@ =~= all.take(items@.len() as int));
    }
    assert(r@ =~= all.reverse());
    r
}

/// The answer of a side that always has its next answer ready.
fn next_answer<T, E>(waiting: &mut Vec<Result<T, E>>) -> (polled: Polled<T, E>)
    ensures
        old(waiting)@.len() == 0 ==> polled is Finished && final(waiting)@ == old(waiting)@,
        old(waiting)@.len() > 0 ==> final(waiting)@ == old(waiting)@.drop_last() && (
        match old(waiting)@.last() {
            Ok(item) => polled == Polled::<T, E>::Item(item),
            Err(error) => polled == Polled::<T, E>::Failure(error),
        }),
{
    match waiting.pop() {
        Some(Ok(item)) => Polled::Item(item),
        Some(Err(error)) => Polled::Failure(error),
        None => Polled::Finished,
    }
}

/// Merges two sides that always have their next answer ready: `input`'s
/// answers and `output`'s, each in its order, the input side first. Every
/// answer of the input side becomes an item, a failure too; a failure of the
/// output side is the failure of the whole.
pub fn combine_stream<T>(input: Vec<Result<T, T>>, output: Vec<Result<T, ()>>) -> (r: Result<
    Vec<Message<T>>,
    (),
>)
    ensures
        match r {
            Ok(items) => merged(input@, output@, Side::Input) == Ok::<Seq<Message<T>>, ()>(items@),
            Err(_) => merged(input@, output@, Side::Input) is Err,
        },
{
    let ghost whole = merged(input@, output@, Side::Input);
    let mut waiting_in = reversed(input);
    let mut waiting_out = reversed(output);
    let mut items: Vec<Message<T>> = Vec::new();
    let mut merger = DuplexMerger::new();
    let mut plan = merger.next();
    proof {
        assert(waiting_in@.reverse() =~= input@);
        assert(waiting_out@.reverse() =~= output@);
        if whole is Ok {
            assert(items@ + whole.unwrap() =~= whole.unwrap());
        }
    }
    loop
        invariant
            !merger.aborted,
            plan == merger.plan(),
            merger.input != SideState::Pending,
            merger.output != SideState::Pending,
            merger.input is Done ==> waiting_in@.len() == 0,
            merger.output is Done ==> waiting_out@.len() == 0,
            whole == merged(input@, output@, Side::Input),
            whole == followed_by(
                items@,
                merged(waiting_in@.reverse(), waiting_out@.reverse(), merger.lead),
            ),
        decreases
                waiting_in@.len() + waiting_out@.len() + (if merger.input is Done {
                    0int
                } else {
                    1int
                }) + (if merger.output is Done {
                    0int
                } else {
                    1int
                }),
    {
        let ghost rest_in = waiting_in@.reverse();
        let ghost rest_out = waiting_out@.reverse();
        let ghost done = items@;
        let ghost lead = merger.lead;
        match plan {
            Plan::Ask(Side::Input) => {
                let polled = next_answer(&mut waiting_in);
                proof {
                    if rest_in.len() > 0 {
                        assert(waiting_in@.reverse() =~= rest_in.skip(1));
                        assert(input_goes(rest_in, rest_out, lead));
                    } else {
                        assert(waiting_in@.reverse() =~= rest_in);
                    }
                }
                match merger.accept_input(polled) {
                    Step::Emit(message) => {
                        items.push(message);
                        plan = merger.next();
                        proof {
                            let tail = merged(rest_in.skip(1), rest_out, Side::Output);
                            if tail is Ok {
                                assert(items@ + tail.unwrap() =~= done + (seq![message]
                                    + tail.unwrap()));
                            }
                        }
                    },
                    Step::Then(then) => {
                        plan = then;
                    },
                }
            },
            Plan::Ask(Side::Output) => {
                let polled = next_answer(&mut waiting_out);
                proof {
                    if rest_out.len() > 0 {
                        assert(waiting_out@.reverse() =~= rest_out.skip(1));
                        assert(!input_goes(rest_in, rest_out, lead));
                    } else {
                        assert(waiting_out@.reverse() =~= rest_out);
                    }
                }
                match merger.accept_output(polled) {
                    Step::Emit(message) => {
                        items.push(message);
                        plan = merger.next();
                        proof {
                            let tail = merged(rest_in, rest_out.skip(1), Side::Input);
                            if tail is Ok {
                                assert(items@ + tail.unwrap() =~= done + (seq![message]
                                    + tail.unwrap()));
                            }
                        }
                    },
                    Step::Then(then) => {
                        match then {
                            Plan::Abort => {
                                return Err(());
                            },
                            _ => {},
                        }
                        plan = then;
                    },
                }
            },
            Plan::Finish => {
                assert(items@ + Seq::<Message<T>>::empty() =~= items@);
                return Ok(items);
            },
            Plan::Park | Plan::Abort => {
                return Err(());
            },
        }
    }
}

/// The items of a merged sequence that came from the input side, in order.
pub open spec fn inputs_of<T>(items: Seq<Message<T>>) -> Seq<T>
    decreases items.len(),
{
    if items.len() == 0 {
        Seq::empty()
    } else {
        match items[0] {
            Message::Input(item) => seq![item] + inputs_of(items.skip(1)),
            Message::Output(_) => inputs_of(items.skip(1)),
        }
    }
}

/// The items of a merged sequence that came from the output side, in order.
pub open spec fn outputs_of<T>(items: Seq<Message<T>>) -> Seq<T>
    decreases items.len(),
{
    if items.len() == 0 {
        Seq::empty()
    } else {
        match items[0] {
            Message::Input(_) => outputs_of(items.skip(1)),
            Message::Output(item) => seq![item] + outputs_of(items.skip(1)),
        }
    }
}

/// What the answers of the input side pass on, in order.
pub open spec fn all_passed_on<T>(input: Seq<Result<T, T>>) -> Seq<T> {
    input.map_values(|answer: Result<T, T>| passed_on(answer))
}

/// Some answer of the output side is a failure.
pub open spec fn output_fails<T>(output: Seq<Result<T, ()>>) -> bool {
    exists|i: int| 0 <= i < output.len() && (#[trigger] output[i]) is Err
}

/// The items of the answers of an output side, in order.
pub open spec fn all_items<T>(output: Seq<Result<T, ()>>) -> Seq<T> {
    output.map_values(
        |answer: Result<T, ()>|
            match answer {
                Ok(item) => item,
                Err(_) => arbitrary(),
            },
    )
}

/// Error isolation and completion, for sides that are always ready: the
/// merged sequence fails where the output side fails and nowhere else.
/// Where it does not fail it ends only when both sides have ended, and it
/// holds every answer of the input side, failures too, and every item of the
/// output side, each side's in its own order.
pub proof fn merged_keeps_both_sides<T>(
    input: Seq<Result<T, T>>,
    output: Seq<Result<T, ()>>,
    lead: Side,
)
    ensures
        merged(input, output, lead) is Err <==> output_fails(output),
        merged(input, output, lead) matches Ok(items) ==> {
            &&& items.len() == input.len() + output.len()
            &&& inputs_of(items) == all_passed_on(input)
            &&& outputs_of(items) == all_items(output)
        },
    decreases input.len() + output.len(),
{
    if input.len() == 0 && output.len() == 0 {
        assert(inputs_of(Seq::<Message<T>>::empty()) =~= all_passed_on(input));
        assert(outputs_of(Seq::<Message<T>>::empty()) =~= all_items(output));
    } else if input_goes(input, output, lead) {
        let head = Message::Input(passed_on(input[0]));
        let tail = merged(input.skip(1), output, Side::Output);
        merged_keeps_both_sides(input.skip(1), output, Side::Output);
        match tail {
            Ok(rest) => {
                let items = seq![head] + rest;
                assert(items[0] == head);
                assert(items.skip(1) =~= rest);
                assert(inputs_of(items) =~= all_passed_on(input));
                assert(outputs_of(items) =~= all_items(output));
            },
            Err(_) => {},
        }
    } else {
        match output[0] {
            Ok(item) => {
                let head = Message::Output(item);
                let tail = merged(input, output.skip(1), Side::Input);
                merged_keeps_both_sides(input, output.skip(1), Side::Input);
                if output_fails(output.skip(1)) {
                    let i = choose|i: int|
                        0 <= i < output.skip(1).len() && (#[trigger] output.skip(1)[i]) is Err;
                    assert(output[i + 1] is Err);
                }
                if output_fails(output) {
                    let i = choose|i: int| 0 <= i < output.len() && (#[trigger] output[i]) is Err;
                    assert(i > 0);
                    assert(output.skip(1)[i - 1] is Err);
                }
                match tail {
                    Ok(rest) => {
                        let items = seq![head] + rest;
                        assert(items[0] == head);
                        assert(items.skip(1) =~= rest);
                        assert(inputs_of(items) =~= all_passed_on(input));
                        assert(outputs_of(items) =~= all_items(output));
                    },
                    Err(_) => {},
                }
            },
            Err(_) => {
                assert(output[0] is Err);
            },
        }
    }
}

/// Fairness, for sides that are always ready: as long as both sides have
/// answers, the merged sequence takes one from each in turn, the input side
/// first. Neither side waits for more than one item of the other.
pub proof fn sides_take_turns<T>(input: Seq<Result<T, T>>, output: Seq<Result<T, ()>>, k: int)
    requires
        0 <= k < input.len(),
        k < output.len(),
        merged(input, output, Side::Input) is Ok,
    ensures
        merged(input, output, Side::Input) matches Ok(items) ==> {
            &&& 2 * k + 1 < items.len()
            &&& items[2 * k] == Message::Input(passed_on(input[k]))
            &&& output[k] matches Ok(item) && items[2 * k + 1] == Message::Output(item)
        },
    decreases k,
{
    let after_input = merged(input.skip(1), output, Side::Output);
    let after_both = merged(input.skip(1), output.skip(1), Side::Input);
    assert(input_goes(input, output, Side::Input));
    assert(!input_goes(input.skip(1), output, Side::Output));
    assert(after_input is Ok);
    assert(output[0] is Ok);
    assert(after_both is Ok);
    let items = merged(input, output, Side::Input)->Ok_0;
    let rest = after_both->Ok_0;
    let first = Message::Input(passed_on(input[0]));
    let second = Message::Output(output[0]->Ok_0);
    assert(items =~= seq![first] + (seq![second] + rest));
    if k > 0 {
        sides_take_turns(input.skip(1), output.skip(1), k - 1);
        assert(items[2 * k] == rest[2 * (k - 1)]);
        assert(items[2 * k + 1] == rest[2 * (k - 1) + 1]);
    }
}

/// Fairness: whichever side has just handed over an item, the other side is
/// asked next, unless it has completed.
pub proof fn other_side_is_asked_next(merger: DuplexMerger, side: Side)
    requires
        !merger.aborted,
        !(merger.state_of(side.opposite()) is Done),
    ensures
        merger.after_item(side).plan() == Plan::Ask(side.opposite()),
{
}

/// Liveness: the driver is told to wait only when neither side is open, and
/// waiting opens every side that has not completed.
pub proof fn waits_only_with_nothing_to_ask(merger: DuplexMerger)
    requires
        merger.plan() is Park,
    ensures
        !(merger.input is Open),
        !(merger.output is Open),
        merger.input is Pending || merger.output is Pending,
        !(merger.after_plan().input is Pending),
        !(merger.after_plan().output is Pending),
{
}

/// Completion: the merged sequence ends when both sides have completed and
/// not before.
pub proof fn finishes_when_both_sides_are_done(merger: DuplexMerger)
    ensures
        merger.plan() is Finish <==> !merger.aborted && merger.input is Done
            && merger.output is Done,
{
}

/// Error isolation: a failure of the input side is an item of the merged
/// sequence and ends nothing; a failure of the output side ends it, and
/// nothing that arrives later is passed on.
pub proof fn failures_by_side<T, E>(merger: DuplexMerger, error: T, failure: E, later: Polled<T, T>)
    requires
        !merger.aborted,
    ensures
        merger.input_step(Polled::<T, T>::Failure(error)).0 == Step::Emit(Message::Input(error)),
        !merger.input_step(Polled::<T, T>::Failure(error)).1.aborted,
        merger.output_step(Polled::<T, E>::Failure(failure)).0 == Step::<T>::Then(Plan::Abort),
        merger.output_step(Polled::<T, E>::Failure(failure)).1.plan() == Plan::Abort,
        merger.output_step(Polled::<T, E>::Failure(failure)).1.input_step(later) == (
            Step::<T>::Then(Plan::Abort),
            merger.output_step(Polled::<T, E>::Failure(failure)).1,
        ),
{
}

/// Why a sink refused a message.
#[derive(Debug, PartialEq)]
pub struct SinkError(pub String);

/// What a routed sink is doing.
#[derive(Debug, PartialEq)]
pub enum RoutedSinkState<T> {
    Ready,
    Send(Message<T>),
    WaitInput,
    WaitOutput,
}

/// A pair of sinks, one for each side, and the message on its way to one
/// of them.
#[derive(Debug, PartialEq)]
pub struct RoutedSink<T, I, O> {
    input: I,
    output: O,
    state: RoutedSinkState<T>,
}

impl<T, I, O> RoutedSink<T, I, O> {
    /// The sink of the input side.
    pub closed spec fn input_sink(self) -> I {
        self.input
    }

    /// The sink of the output side.
    pub closed spec fn output_sink(self) -> O {
        self.output
    }

    /// What the routed sink is doing.
    pub closed spec fn state(self) -> RoutedSinkState<T> {
        self.state
    }

    /// A routed sink over the two sinks, with nothing to send.
    pub fn new(input: I, output: O) -> (sink: Self)
        ensures
            sink.input_sink() == input,
            sink.output_sink() == output,
            sink.state() == RoutedSinkState::<T>::Ready,
    {
        RoutedSink { input, output, state: RoutedSinkState::Ready }
    }

    /// The same sinks, with `message` as the one to send.
    pub fn send(self, message: Message<T>) -> (sink: Self)
        ensures
            sink.input_sink() == self.input_sink(),
            sink.output_sink() == self.output_sink(),
            sink.state() == RoutedSinkState::Send(message),
    {
        RoutedSink { input: self.input, output: self.output, state: RoutedSinkState::Send(message) }
    }
}

} // verus!
