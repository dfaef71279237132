//! Answers for mocks.

use vstd::prelude::*;
use std::sync::Arc;
use crate::cells::{arc_clone, locked_target, mutex_lock, mutex_new, Locked};
use crate::error::UnconsumedAnswers;

verus! {

/// Queue of answers that a channel holds between a [`AnswersSender`] and the [`Answers`]
/// that it feeds.
#[derive(Debug)]
pub struct AnswersChannel<V> {
    // Kept in reverse, so that the next answer is the last element.
    answers: Vec<V>,
}

impl<V> AnswersChannel<V> {
    /// The answers that have been sent and not handed out yet, the next one first.
    pub closed spec fn pending(&self) -> Seq<V> {
        self.answers@.reverse()
    }

    /// What the consumption check says of a queue that holds `pending` answers: it passes
    /// exactly if none is left, and otherwise reports how many are.
    pub open spec fn consumption(pending: Seq<V>) -> Result<(), UnconsumedAnswers> {
        if pending.len() == 0 {
            Ok(())
        } else {
            Err(UnconsumedAnswers { count: pending.len() as usize })
        }
    }

    /// The answer that the next call gets from a queue that holds `pending`, if any.
    pub open spec fn next_of(pending: Seq<V>) -> Option<V> {
        if pending.len() > 0 {
            Some(pending[0])
        } else {
            None
        }
    }

    /// What is left of `pending` after the next call has been answered from it, or has
    /// found it empty.
    pub open spec fn rest_of(pending: Seq<V>) -> Seq<V> {
        if pending.len() > 0 {
            pending.skip(1)
        } else {
            pending
        }
    }

    /// What is left of `pending` after `calls` calls.
    pub open spec fn after_calls(pending: Seq<V>, calls: nat) -> Seq<V>
        decreases calls,
    {
        if calls == 0 {
            pending
        } else {
            Self::after_calls(Self::rest_of(pending), (calls - 1) as nat)
        }
    }

    /// A channel without pending answers.
    pub fn new() -> (channel: Self)
        ensures
            channel.pending() == Seq::<V>::empty(),
    {
        AnswersChannel { answers: Vec::new() }
    }

    /// Replaces whatever is pending with `values`, which will be handed out in their order
    /// in `values`.
    pub fn replace(&mut self, values: Vec<V>)
        ensures
            final(self).pending() == values@,
    {
        let ghost sent = values@;
        let mut values = values;
        let mut reversed: Vec<V> = Vec::new();
        while values.len() > 0
            invariant
                values@ + reversed@.reverse() == sent,
            decreases values.len(),
        {
            let ghost before = values@;
            let ghost stacked = reversed@;
            let value = values.pop().unwrap();
            reversed.push(value);
            assert(reversed@.reverse() =~= seq![value] + stacked.reverse());
            assert(before =~= values@ + seq![value]);
        }
        assert(reversed@.reverse() =~= sent);
        self.answers = reversed;
    }

    /// Hands out the next pending answer, if there is one.
    pub fn pop(&mut self) -> (answer: Option<V>)
        ensures
            answer == Self::next_of(old(self).pending()),
            final(self).pending() == Self::rest_of(old(self).pending()),
    {
        let answer = self.answers.pop();
        assert(old(self).pending().len() > 0 ==> self.answers@.reverse() =~= old(
            self,
        ).answers@.reverse().skip(1));
        answer
    }

    /// Number of pending answers.
    pub fn remaining(&self) -> (count: usize)
        ensures
            count == self.pending().len(),
    {
        self.answers.len()
    }

    /// Discards the pending answers.
    pub fn clear(&mut self)
        ensures
            final(self).pending() == Seq::<V>::empty(),
    {
        self.answers.clear();
    }

    /// Checks that every answer sent has been handed out.
    pub fn check_consumed(&self) -> (checked: Result<(), UnconsumedAnswers>)
        ensures
            checked == Self::consumption(self.pending()),
            checked matches Err(unconsumed) ==> unconsumed.count == self.pending().len(),
    {
        let count = self.answers.len();
        if count == 0 {
            Ok(())
        } else {
            Err(UnconsumedAnswers { count })
        }
    }
}

/// After `calls` calls, a queue that `sent` were sent to has handed out the first `calls` of
/// them, in the order of sending, and holds the rest.
pub proof fn lemma_channel_hands_out_in_order<V>(sent: Seq<V>, calls: nat)
    requires
        calls <= sent.len(),
    ensures
        AnswersChannel::<V>::after_calls(sent, calls) == sent.skip(calls as int),
        calls < sent.len() ==> AnswersChannel::<V>::next_of(
            AnswersChannel::<V>::after_calls(sent, calls),
        ) == Some(sent[calls as int]),
        calls == sent.len() ==> AnswersChannel::<V>::next_of(
            AnswersChannel::<V>::after_calls(sent, calls),
        ).is_none(),
    decreases calls,
{
    if calls == 0 {
        assert(sent.skip(0) =~= sent);
    } else {
        lemma_channel_hands_out_in_order(sent.skip(1), (calls - 1) as nat);
        assert(sent.skip(1).skip(calls - 1) =~= sent.skip(calls as int));
    }
}

/// The check made when a guard is released, for `sent` answers of which `consumed` were
/// asked for: it passes if all were; if fewer were, it fails and reports exactly how many
/// are left; and after the guard was discarded it passes whatever was left.
pub proof fn lemma_channel_consumption_check<V>(sent: Seq<V>, consumed: nat)
    requires
        consumed <= sent.len() <= usize::MAX,
    ensures
        consumed == sent.len() ==> AnswersChannel::<V>::consumption(
            AnswersChannel::<V>::after_calls(sent, consumed),
        ).is_ok(),
        consumed < sent.len() ==> AnswersChannel::<V>::consumption(
            AnswersChannel::<V>::after_calls(sent, consumed),
        ) == Err::<(), UnconsumedAnswers>(
            UnconsumedAnswers { count: (sent.len() - consumed) as usize },
        ),
        AnswersChannel::<V>::consumption(Seq::<V>::empty()).is_ok(),
{
    lemma_channel_hands_out_in_order(sent, consumed);
}

/// The log after calls made with `contexts`, one call for each and in their order, on top
/// of what `log` held before.
pub open spec fn log_after<Ctx>(log: Seq<Ctx>, contexts: Seq<Ctx>) -> Seq<Ctx>
    decreases contexts.len(),
{
    if contexts.len() == 0 {
        log
    } else {
        log_after(log.push(contexts[0]), contexts.skip(1))
    }
}

/// Calls are recorded in call order behind what was recorded before.
pub proof fn lemma_log_appends<Ctx>(log: Seq<Ctx>, contexts: Seq<Ctx>)
    ensures
        log_after(log, contexts) == log + contexts,
    decreases contexts.len(),
{
    if contexts.len() == 0 {
        assert(log + contexts =~= log);
    } else {
        lemma_log_appends(log.push(contexts[0]), contexts.skip(1));
        assert(log.push(contexts[0]) + contexts.skip(1) =~= log + contexts);
    }
}

/// Taking the calls gives exactly the contexts of the calls made since they were last
/// taken, in call order; taking them again at once gives nothing.
pub proof fn lemma_take_calls_round_trip<Ctx>(contexts: Seq<Ctx>)
    ensures
        log_after(Seq::<Ctx>::empty(), contexts) == contexts,
        log_after(Seq::<Ctx>::empty(), Seq::<Ctx>::empty()) == Seq::<Ctx>::empty(),
{
    lemma_log_appends(Seq::<Ctx>::empty(), contexts);
    assert(Seq::<Ctx>::empty() + contexts =~= contexts);
}

/// Where the answers of an [`Answers`] come from, for sources that do not look at the
/// context of a call.
///
/// A source is asked once per call and may change as it answers. `None` means that the
/// source has run out of answers.
pub trait AnswerSource: Sized {
    /// What the source answers with.
    type Answer;

    /// Whether the source, as it is now, owes an answer.
    spec fn ready(&self) -> bool;

    /// Whether the source, when asked, may give `answer` and become `next`.
    spec fn gives(&self, answer: Option<Self::Answer>, next: &Self) -> bool;

    /// Asks the source for the answer to one call.
    fn next_answer(&mut self) -> (answer: Option<Self::Answer>)
        ensures
            old(self).gives(answer, final(self)),
            old(self).ready() ==> answer.is_some(),
    ;
}

/// Source that answers with given values in their order, whatever the context, and runs out
/// after the last one.
#[derive(Debug)]
pub struct Values<V> {
    queue: AnswersChannel<V>,
}

impl<V> Values<V> {
    /// The answers that are left, the next one first.
    pub closed spec fn upcoming(&self) -> Seq<V> {
        self.queue.pending()
    }

    /// A source that answers with `values`, the first one first.
    pub fn new(values: Vec<V>) -> (source: Self)
        ensures
            source.upcoming() == values@,
    {
        let mut queue = AnswersChannel::new();
        queue.replace(values);
        Values { queue }
    }
}

impl<V> AnswerSource for Values<V> {
    type Answer = V;

    open spec fn ready(&self) -> bool {
        self.upcoming().len() > 0
    }

    open spec fn gives(&self, answer: Option<V>, next: &Self) -> bool {
        &&& answer == AnswersChannel::<V>::next_of(self.upcoming())
        &&& next.upcoming() == AnswersChannel::<V>::rest_of(self.upcoming())
    }

    fn next_answer(&mut self) -> (answer: Option<V>) {
        self.queue.pop()
    }
}

/// Source that answers with clones of one value, whatever the context, and never runs out.
#[derive(Debug)]
pub struct Repeat<V> {
    value: V,
}

impl<V> Repeat<V> {
    /// The value that the answers are cloned from.
    pub closed spec fn value(&self) -> V {
        self.value
    }

    /// A source that answers with clones of `value`.
    pub fn new(value: V) -> (source: Self)
        ensures
            source.value() == value,
    {
        Repeat { value }
    }
}

impl<V: Clone> AnswerSource for Repeat<V> {
    type Answer = V;

    open spec fn ready(&self) -> bool {
        true
    }

    open spec fn gives(&self, answer: Option<V>, next: &Self) -> bool {
        &&& answer matches Some(value)
        &&& cloned(self.value(), value)
        &&& next.value() == self.value()
    }

    fn next_answer(&mut self) -> (answer: Option<V>) {
        Some(self.value.clone())
    }
}

/// Source that computes each answer from the context of the call.
#[derive(Debug)]
#[verifier::reject_recursive_types(F)]
pub struct Function<F> {
    function: F,
}

impl<F> Function<F> {
    /// The function that computes the answers.
    pub closed spec fn function(&self) -> F {
        self.function
    }

    /// A source that answers with what `function` returns.
    pub fn new(function: F) -> (source: Self)
        ensures
            source.function() == function,
    {
        Function { function }
    }
}

/// Whether `queue` is the queue that an access under the lock of `channel` worked on:
/// `*queue` is what the access found, and `*final(queue)` is what it left.
pub closed spec fn locked_queue<V>(
    channel: Arc<parking_lot::Mutex<AnswersChannel<V>>>,
    queue: &mut AnswersChannel<V>,
) -> bool {
    exists|held: &mut Locked<'_, AnswersChannel<V>>|
        call_ensures(mutex_lock::<AnswersChannel<V>>, (&*channel,), *held) && call_ensures(
            locked_target::<AnswersChannel<V>>,
            (held,),
            queue,
        )
}

/// The target of a lock that was taken on `channel` is the queue that the access worked
/// on, with what it found there and what it left there.
proof fn lemma_locked_queue<V>(
    channel: Arc<parking_lot::Mutex<AnswersChannel<V>>>,
    held: Locked<'_, AnswersChannel<V>>,
    found: Seq<V>,
    left: Seq<V>,
)
    requires
        call_ensures(mutex_lock::<AnswersChannel<V>>, (&*channel,), held),
        exists|holder: &mut Locked<'_, AnswersChannel<V>>, queue: &mut AnswersChannel<V>|
            call_ensures(locked_target::<AnswersChannel<V>>, (holder,), queue) && *holder == held
                && queue.pending() == found && final(queue).pending() == left,
    ensures
        exists|queue: &mut AnswersChannel<V>|
            #[trigger] locked_queue(channel, queue) && queue.pending() == found
                && final(queue).pending() == left,
{
    let (holder, queue) = choose|
        holder: &mut Locked<'_, AnswersChannel<V>>,
        queue: &mut AnswersChannel<V>,
    |
        call_ensures(locked_target::<AnswersChannel<V>>, (holder,), queue) && *holder == held
            && queue.pending() == found && final(queue).pending() == left;
    assert(locked_queue(channel, queue));
}

/// Source fed through a channel: it hands out what the [`AnswersSender`] of the same
/// channel has sent, and runs out when nothing is pending.
///
/// What is pending is shared with the sender, so it is no part of this value, and no
/// answer is ever owed: each call answers from the queue as [`AnswersChannel::pop`] finds it.
#[derive(Debug)]
#[verifier::reject_recursive_types(V)]
pub struct Receiver<V> {
    channel: Arc<parking_lot::Mutex<AnswersChannel<V>>>,
}

impl<V> Receiver<V> {
    /// The channel that the source is fed through.
    pub closed spec fn channel(&self) -> Arc<parking_lot::Mutex<AnswersChannel<V>>> {
        self.channel
    }
}

impl<V> AnswerSource for Receiver<V> {
    type Answer = V;

    open spec fn ready(&self) -> bool {
        false
    }

    /// The answer is the next one of the queue that was found under the lock of the
    /// channel, or none if that queue was empty; the source stays on its channel.
    open spec fn gives(&self, answer: Option<V>, next: &Self) -> bool {
        &&& next.channel() == self.channel()
        &&& exists|queue: &mut AnswersChannel<V>|
            locked_queue(self.channel(), queue) && answer == AnswersChannel::<V>::next_of(
                queue.pending(),
            )
    }

    /// Answers with what [`AnswersChannel::pop`] hands out of the shared queue: the answer
    /// is the next one of the queue found under the lock of the channel, and the queue is
    /// left without it.
    fn next_answer(&mut self) -> (answer: Option<V>)
        ensures
            exists|queue: &mut AnswersChannel<V>|
                locked_queue(old(self).channel(), queue) && answer == AnswersChannel::<
                    V,
                >::next_of(queue.pending()) && final(queue).pending() == AnswersChannel::<
                    V,
                >::rest_of(queue.pending()),
    {
        let mut held = mutex_lock(&self.channel);
        let ghost taken = held;
        let queue = locked_target(&mut held);
        let ghost found = queue.pending();
        let answer = queue.pop();
        proof {
            lemma_locked_queue(self.channel(), taken, found, AnswersChannel::<V>::rest_of(found));
        }
        answer
    }
}

/// Sender part of a channel created by [`Answers::channel()`].
#[derive(Debug)]
#[verifier::reject_recursive_types(V)]
pub struct AnswersSender<V> {
    inner: Arc<parking_lot::Mutex<AnswersChannel<V>>>,
}

impl<V> AnswersSender<V> {
    /// The channel that the sender feeds.
    pub closed spec fn channel(&self) -> Arc<parking_lot::Mutex<AnswersChannel<V>>> {
        self.inner
    }

    /// Whether the channel of the sender was made around a queue that held `pending`.
    pub closed spec fn made_with(&self, pending: Seq<V>) -> bool {
        exists|queue: AnswersChannel<V>|
            queue.pending() == pending && call_ensures(
                mutex_new::<AnswersChannel<V>>,
                (queue,),
                *self.inner,
            )
    }

    /// Sends a single value over the channel, in place of whatever was pending. The value
    /// will be used as the next answer.
    ///
    /// The sender stays borrowed by the returned guard, which checks on release that the
    /// value has been used. The guard checks the channel of this sender.
    pub fn send(&mut self, value: V) -> (guard: AnswersGuard<'_, V>)
        ensures
            guard.channel() == old(self).channel(),
            final(self).channel() == old(self).channel(),
            exists|queue: &mut AnswersChannel<V>|
                locked_queue(old(self).channel(), queue) && final(queue).pending() == seq![value],
    {
        let mut values: Vec<V> = Vec::new();
        values.push(value);
        self.send_all(values)
    }

    /// Sends several values over the channel, in place of whatever was pending. The values
    /// will be used as answers in their order in `values`.
    ///
    /// The sender stays borrowed by the returned guard, which checks on release that all
    /// the values have been used. The queue is filled by [`AnswersChannel::replace`], and
    /// the guard checks the channel of this sender.
    pub fn send_all(&mut self, values: Vec<V>) -> (guard: AnswersGuard<'_, V>)
        ensures
            guard.channel() == old(self).channel(),
            final(self).channel() == old(self).channel(),
            exists|queue: &mut AnswersChannel<V>|
                locked_queue(old(self).channel(), queue) && final(queue).pending() == values@,
    {
        let ghost sent = values@;
        let mut held = mutex_lock(&self.inner);
        let ghost taken = held;
        let queue = locked_target(&mut held);
        let ghost found = queue.pending();
        queue.replace(values);
        proof {
            lemma_locked_queue(self.channel(), taken, found, sent);
        }
        AnswersGuard { inner: &self.inner }
    }
}

/// Guard ensuring that answers sent from an [`AnswersSender`] are consumed in time.
///
/// The check is made by [`Self::finish()`] and [`Self::scope()`], with
/// [`AnswersChannel::check_consumed`] on the queue as it is found. A guard that is merely
/// dropped checks nothing.
#[derive(Debug)]
#[must_use]
#[verifier::reject_recursive_types(V)]
pub struct AnswersGuard<'a, V> {
    inner: &'a Arc<parking_lot::Mutex<AnswersChannel<V>>>,
}

impl<V> AnswersGuard<'_, V> {
    /// The channel whose queue the guard checks.
    pub closed spec fn channel(&self) -> Arc<parking_lot::Mutex<AnswersChannel<V>>> {
        *self.inner
    }

    /// Releases the guard, checking that all the answers were consumed: the result is what
    /// [`AnswersChannel::check_consumed`] says of the queue as it is found.
    pub fn finish(self) -> (checked: Result<(), UnconsumedAnswers>)
        ensures
            checked matches Err(unconsumed) ==> unconsumed.count > 0,
            exists|queue: &mut AnswersChannel<V>|
                locked_queue(self.channel(), queue) && checked == AnswersChannel::<
                    V,
                >::consumption(queue.pending()) && final(queue).pending() == queue.pending(),
    {
        let mut held = mutex_lock(self.inner);
        let ghost taken = held;
        let queue = locked_target(&mut held);
        let ghost found = queue.pending();
        let checked = queue.check_consumed();
        proof {
            lemma_locked_queue(self.channel(), taken, found, found);
        }
        checked
    }

    /// Runs `action` and then checks that it consumed all the answers, as
    /// [`Self::finish()`] does: what `action` returned is handed on if the check passes,
    /// and the error of the check is reported otherwise.
    pub fn scope<R, A: FnOnce() -> R>(self, action: A) -> (result: Result<R, UnconsumedAnswers>)
        requires
            call_requires(action, ()),
        ensures
            result matches Ok(returned) ==> call_ensures(action, (), returned),
            result matches Err(unconsumed) ==> unconsumed.count > 0,
            exists|returned: R, checked: Result<(), UnconsumedAnswers>|
                call_ensures(action, (), returned) && call_ensures(Self::finish, (self,), checked)
                    && result == (match checked {
                    Ok(_) => Ok(returned),
                    Err(err) => Err(err),
                }),
    {
        let returned = action();
        let checked = self.finish();
        let result = match checked {
            Ok(()) => Ok(returned),
            Err(err) => Err(err),
        };
        assert(call_ensures(action, (), returned) && call_ensures(Self::finish, (self,), checked)
            && result == (match checked {
            Ok(_) => Ok(returned),
            Err(err) => Err(err),
        }));
        result
    }

    /// Releases this guard discarding any remaining answers with [`AnswersChannel::clear`],
    /// so that nothing is left for a check to find: the queue under the lock of the
    /// channel is left empty.
    pub fn discard(self)
        ensures
            exists|queue: &mut AnswersChannel<V>|
                locked_queue(self.channel(), queue) && final(queue).pending() == Seq::<V>::empty(),
    {
        let mut held = mutex_lock(self.inner);
        let ghost taken = held;
        let queue = locked_target(&mut held);
        let ghost found = queue.pending();
        queue.clear();
        proof {
            lemma_locked_queue(self.channel(), taken, found, Seq::<V>::empty());
        }
    }
}

/// Answers for a function call.
///
/// `Answers` are similar to an iterator, with two additions: an answer may depend on a
/// *context* that the caller provides to [`Self::next_for()`], and the contexts of all calls
/// are recorded and can be retrieved with [`Self::take_calls()`], so that the calls can be
/// checked afterwards.
///
/// `Answers` are meant to be a part of a mock state that one or more mock methods use.
#[derive(Debug)]
pub struct Answers<V, Ctx = (), S = Values<V>> {
    source: S,
    calls: Vec<Ctx>,
    _answer: core::marker::PhantomData<V>,
}

impl<V, Ctx, S> Answers<V, Ctx, S> {
    /// Contexts of the calls recorded since they were last taken, in call order.
    pub closed spec fn calls(&self) -> Seq<Ctx> {
        self.calls@
    }

    /// The source of the answers, as it is now.
    pub closed spec fn source(&self) -> S {
        self.source
    }

    /// Answers that come from `source`, with no call recorded.
    pub fn from_source(source: S) -> (answers: Self)
        ensures
            answers.source() == source,
            answers.calls() == Seq::<Ctx>::empty(),
    {
        Answers { source, calls: Vec::new(), _answer: core::marker::PhantomData }
    }

    /// Takes the contexts of the calls recorded since the last call to this function, or
    /// since creation if it is the first one. The source is not touched.
    pub fn take_calls(&mut self) -> (calls: Vec<Ctx>)
        ensures
            calls@ == old(self).calls(),
            final(self).calls() == Seq::<Ctx>::empty(),
            final(self).source() == old(self).source(),
    {
        let mut calls: Vec<Ctx> = Vec::new();
        core::mem::swap(&mut self.calls, &mut calls);
        calls
    }
}

impl<V, Ctx, S: AnswerSource<Answer = V>> Answers<V, Ctx, S> {
    /// Hands out the next answer of a source that owes one, and records `context`.
    pub fn next_for(&mut self, context: Ctx) -> (answer: V)
        requires
            old(self).source().ready(),
        ensures
            old(self).source().gives(Some(answer), &final(self).source()),
            final(self).calls() == old(self).calls().push(context),
    {
        match self.source.next_answer() {
            Some(answer) => {
                self.calls.push(context);
                answer
            },
            None => vstd::pervasive::unreached(),
        }
    }

    /// Hands out the next answer if the source has one, and records `context` in that
    /// case. If the source has run out, nothing is recorded.
    pub fn try_next_for(&mut self, context: Ctx) -> (answer: Option<V>)
        ensures
            old(self).source().gives(answer, &final(self).source()),
            old(self).source().ready() ==> answer.is_some(),
            answer.is_some() ==> final(self).calls() == old(self).calls().push(context),
            answer.is_none() ==> final(self).calls() == old(self).calls(),
    {
        let answer = self.source.next_answer();
        if answer.is_some() {
            self.calls.push(context);
        }
        answer
    }
}

impl<V, Ctx, F: FnMut(&Ctx) -> V> Answers<V, Ctx, Function<F>> {
    /// Answers based on the provided function.
    pub fn from_fn(function: F) -> (answers: Self)
        ensures
            answers.source().function() == function,
            answers.calls() == Seq::<Ctx>::empty(),
    {
        Answers::from_source(Function::new(function))
    }

    /// Records `context` and then computes the answer to the call from it. The function
    /// must accept the context; whatever the call does to the function, it accepts
    /// afterwards what it accepted before.
    pub fn next_for(&mut self, context: Ctx) -> (answer: V)
        requires
            call_requires(old(self).source().function(), (&context,)),
        ensures
            call_ensures(old(self).source().function(), (&context,), answer),
            final(self).calls() == old(self).calls().push(context),
            forall|later: &Ctx|
                call_requires(old(self).source().function(), (later,)) ==> #[trigger] call_requires(
                    final(self).source().function(),
                    (later,),
                ),
    {
        self.calls.push(context);
        let recorded = self.calls.len() - 1;
        (self.source.function)(&self.calls[recorded])
    }
}

impl<V, Ctx> Answers<V, Ctx, Values<V>> {
    /// Answers with the provided values in their order. Once they are used up, no answer
    /// is owed any more.
    pub fn from_values(values: Vec<V>) -> (answers: Self)
        ensures
            answers.source().upcoming() == values@,
            answers.calls() == Seq::<Ctx>::empty(),
    {
        Answers::from_source(Values::new(values))
    }

    /// Answers with the provided `value` once.
    pub fn from_value_once(value: V) -> (answers: Self)
        ensures
            answers.source().upcoming() == seq![value],
            answers.calls() == Seq::<Ctx>::empty(),
    {
        let mut values: Vec<V> = Vec::new();
        values.push(value);
        Answers::from_values(values)
    }
}

impl<V: Clone, Ctx> Answers<V, Ctx, Repeat<V>> {
    /// Answers with clones of the provided `value` any number of times.
    pub fn from_value(value: V) -> (answers: Self)
        ensures
            answers.source().value() == value,
            answers.calls() == Seq::<Ctx>::empty(),
    {
        Answers::from_source(Repeat::new(value))
    }
}

impl<V, Ctx> Answers<V, Ctx, Receiver<V>> {
    /// Creates `Answers` that receive their answers dynamically via a channel, together
    /// with the sending end of that channel. Nothing is pending at first.
    ///
    /// Unlike with [`Answers::from_values()`], the answers can be provided after the mock
    /// has been set up. Both ends are on one and the same channel, which is made around
    /// an empty queue.
    pub fn channel() -> (ends: (Self, AnswersSender<V>))
        ensures
            ends.0.calls() == Seq::<Ctx>::empty(),
            ends.0.source().channel() == ends.1.channel(),
            ends.1.made_with(Seq::<V>::empty()),
    {
        let queue = AnswersChannel::new();
        let ghost empty = queue;
        let mutex = mutex_new(queue);
        assert(call_ensures(mutex_new::<AnswersChannel<V>>, (empty,), mutex));
        let channel = Arc::new(mutex);
        let sender = AnswersSender { inner: arc_clone(&channel) };
        assert(sender.made_with(Seq::<V>::empty()));
        (Answers::from_source(Receiver { channel }), sender)
    }
}

impl<V, Ctx> Default for Answers<V, Ctx, Values<V>> {
    /// Answers that never owe an answer.
    fn default() -> (answers: Self)
        ensures
            answers.source().upcoming() == Seq::<V>::empty(),
            answers.calls() == Seq::<Ctx>::empty(),
    {
        Answers::from_values(Vec::new())
    }
}

} // verus!
