//! Batching, for a host that would rather wait than make a round trip for
//! every character: a batcher holds characters back and releases them
//! together. It is a part that the host may put in front of the listener or
//! leave out.

use vstd::prelude::*;
use crate::dispatch::answered;
use crate::dispatch::dispatched;
use crate::dispatch::lemma_settled_never_exits;
use crate::dispatch::lemma_settled_stays;
use crate::dispatch::settled;
use crate::keybinds::attempted;
use crate::keybinds::listened;
use crate::keybinds::literal;
use crate::keybinds::translate;
use crate::keybinds::Key;
use crate::keybinds::KeyListener;
use crate::keybinds::ListenerModel;
use crate::keybinds::Settings;
use crate::keybinds::ShouldExit;
use crate::keybinds::Step;
use crate::keybinds::StepModel;
use crate::keybinds::TaskModel;
use crate::retry::limit;
use crate::session::Received;
use crate::text::collect;

verus! {

/// The mathematical value of a [`Batch`].
pub struct BatchModel {
    pub text: Seq<char>,
    pub literal: Option<char>,
    pub exit: bool,
}

/// What a key releases.
#[derive(Debug, PartialEq, Eq)]
pub struct Batch {
    /// The characters to feed as one call, after a mode query. Empty where
    /// none are released.
    pub text: String,
    /// The literal of a control key, to feed after the characters.
    pub literal: Option<char>,
    /// Whether the relay is to stop.
    pub exit: ShouldExit,
}

impl View for Batch {
    type V = BatchModel;

    open spec fn view(&self) -> BatchModel {
        BatchModel { text: self.text@, literal: self.literal, exit: self.exit }
    }
}

/// The mathematical value of a [`Batcher`].
pub struct BatcherModel {
    /// The characters that are held back.
    pub buffer: Seq<char>,
    /// How many characters make a batch. With 0 or 1, none is held back.
    pub threshold: usize,
}

/// Holds characters back until there are enough of them, or until a control
/// key comes.
#[derive(Debug)]
pub struct Batcher {
    buffer: Vec<char>,
    threshold: usize,
}

impl View for Batcher {
    type V = BatcherModel;

    closed spec fn view(&self) -> BatcherModel {
        BatcherModel { buffer: self.buffer@, threshold: self.threshold }
    }
}

/// The batch that releases nothing.
pub open spec fn nothing() -> BatchModel {
    BatchModel { text: Seq::empty(), literal: None, exit: false }
}

/// The batcher and the batch after `key` was pressed.
///
/// The exit sentinel stops the relay and releases nothing. Any other
/// character joins the characters held back, and all of them are released
/// once they are as many as the threshold. A key with a literal releases
/// what is held back together with its literal, so that the characters go
/// first. Any other key releases nothing.
pub open spec fn taken(pre: BatcherModel, key: Key, settings: Settings) -> (BatcherModel, BatchModel) {
    match key {
        Key::Char(c) => if c == settings.exit_sentinel {
            (pre, BatchModel { text: Seq::empty(), literal: None, exit: true })
        } else if pre.buffer.len() + 1 >= pre.threshold {
            (
                BatcherModel { buffer: Seq::empty(), ..pre },
                BatchModel { text: pre.buffer.push(c), literal: None, exit: false },
            )
        } else {
            (BatcherModel { buffer: pre.buffer.push(c), ..pre }, nothing())
        },
        _ => match literal(key, settings.arrows) {
            Some(l) => (
                BatcherModel { buffer: Seq::empty(), ..pre },
                BatchModel { text: pre.buffer, literal: Some(l), exit: false },
            ),
            None => (pre, nothing()),
        },
    }
}

impl Batcher {
    /// A batcher that holds nothing back yet and releases characters
    /// `threshold` at a time.
    pub fn new(threshold: usize) -> (batcher: Batcher)
        ensures
            batcher@ == (BatcherModel { buffer: Seq::empty(), threshold }),
    {
        Batcher { buffer: Vec::new(), threshold }
    }

    /// How many characters are held back.
    pub fn held(&self) -> (r: usize)
        ensures
            r == self@.buffer.len(),
    {
        self.buffer.len()
    }

    /// Takes a key press: see [`taken`].
    pub fn take(&mut self, key: Key, settings: Settings) -> (batch: Batch)
        ensures
            (final(self)@, batch@) == taken(old(self)@, key, settings),
    {
        match key {
            Key::Char(c) => {
                if c == settings.exit_sentinel {
                    Batch { text: String::new(), literal: None, exit: true }
                } else if self.threshold == 0 || self.buffer.len() >= self.threshold - 1 {
                    let mut text = collect(&self.buffer);
                    text.push(c);
                    self.buffer = Vec::new();
                    Batch { text, literal: None, exit: false }
                } else {
                    self.buffer.push(c);
                    Batch { text: String::new(), literal: None, exit: false }
                }
            },
            _ => match translate(key, settings.arrows) {
                Some(l) => {
                    let text = collect(&self.buffer);
                    self.buffer = Vec::new();
                    Batch { text, literal: Some(l), exit: false }
                },
                None => Batch { text: String::new(), literal: None, exit: false },
            },
        }
    }
}

/// A character that is not the sentinel is never lost and never moved: what
/// is released, followed by what is held back afterwards, is what was held
/// back before, followed by the character.
pub proof fn lemma_characters_keep_their_order(pre: BatcherModel, c: char, settings: Settings)
    requires
        c != settings.exit_sentinel,
    ensures
        taken(pre, Key::Char(c), settings).1.text + taken(pre, Key::Char(c), settings).0.buffer
            == pre.buffer.push(c),
        taken(pre, Key::Char(c), settings).1.literal is None,
        !taken(pre, Key::Char(c), settings).1.exit,
{
    let after = taken(pre, Key::Char(c), settings);
    assert(after.1.text + after.0.buffer =~= pre.buffer.push(c));
}

/// With a threshold of 0 or 1 every character is released by itself, at
/// once: a batcher that holds nothing back releases the character alone and
/// goes on holding nothing back.
pub proof fn lemma_no_threshold_holds_nothing_back(pre: BatcherModel, c: char, settings: Settings)
    requires
        c != settings.exit_sentinel,
        pre.threshold <= 1,
        pre.buffer.len() == 0,
    ensures
        taken(pre, Key::Char(c), settings) == (
            pre,
            BatchModel { text: seq![c], literal: None, exit: false },
        ),
{
    assert(pre.buffer =~= Seq::empty());
    assert(pre.buffer.push(c) =~= seq![c]);
}

/// The characters go before a control key: a key with a literal releases
/// everything that is held back, and its literal after it.
pub proof fn lemma_control_key_releases_what_is_held(pre: BatcherModel, key: Key, settings: Settings)
    requires
        literal(key, settings.arrows) is Some,
    ensures
        taken(pre, key, settings).1 == (BatchModel {
            text: pre.buffer,
            literal: literal(key, settings.arrows),
            exit: false,
        }),
        taken(pre, key, settings).0.buffer.len() == 0,
{
}

/// The exit sentinel releases nothing, whatever is held back.
pub proof fn lemma_sentinel_releases_nothing(pre: BatcherModel, settings: Settings)
    ensures
        taken(pre, Key::Char(settings.exit_sentinel), settings) == (
            pre,
            BatchModel { text: Seq::empty(), literal: None, exit: true },
        ),
{
}

/// The listener and the step once the characters of `batch` have been fed,
/// the exchanges having been answered with `first`: a mode query and the
/// feeding of the characters as one call, or nothing where the batch holds
/// no characters.
pub open spec fn flushed(pre: ListenerModel, batch: BatchModel, first: Seq<Received>) -> (
    ListenerModel,
    StepModel,
) {
    if batch.text.len() > 0 {
        settled(attempted(pre, TaskModel::Query(batch.text), 1), first)
    } else {
        (pre, StepModel::Finished(false))
    }
}

/// The listener and the step once `batch` has been dealt with: its characters
/// first, with the exchanges answered by `first`, and its literal after
/// them, with the exchanges answered by `second`, unless the characters
/// could not be fed, in which case the literal is not fed either.
pub open spec fn batched(pre: ListenerModel, batch: BatchModel, first: Seq<Received>, second: Seq<Received>) -> (
    ListenerModel,
    StepModel,
) {
    if batch.exit {
        (pre, StepModel::Finished(true))
    } else {
        let mid = flushed(pre, batch, first);
        if mid.1 != StepModel::Finished(false) {
            mid
        } else {
            match batch.literal {
                Some(l) => settled(attempted(mid.0, TaskModel::Feed(seq![l]), 1), second),
                None => mid,
            }
        }
    }
}

/// Whether `first` and `second` hold what `exchange` may return for the
/// exchanges that `batch` leads to.
pub open spec fn batch_answered<F: Fn(Vec<u8>) -> Received>(
    exchange: F,
    pre: ListenerModel,
    batch: BatchModel,
    first: Seq<Received>,
    second: Seq<Received>,
) -> bool {
    let mid = flushed(pre, batch, first);
    &&& batch.text.len() > 0 ==> answered(exchange, attempted(pre, TaskModel::Query(batch.text), 1), first)
    &&& mid.1 == StepModel::Finished(false) && batch.literal is Some ==> answered(
        exchange,
        attempted(mid.0, TaskModel::Feed(seq![batch.literal->0]), 1),
        second,
    )
}

/// Without a threshold a batcher changes nothing: where it releases every
/// character by itself and holds nothing back, a key is dealt with through
/// it exactly as it is dealt with without it.
pub proof fn lemma_no_threshold_is_plain_dispatch(
    pre: ListenerModel,
    batcher: BatcherModel,
    key: Key,
    first: Seq<Received>,
    second: Seq<Received>,
)
    requires
        batcher.threshold <= 1,
        batcher.buffer.len() == 0,
    ensures
        taken(batcher, key, pre.settings).0 == batcher,
        batched(pre, taken(batcher, key, pre.settings).1, first, second) == dispatched(
            pre,
            key,
            if key is Char {
                first
            } else {
                second
            },
        ),
{
    assert(batcher.buffer =~= Seq::empty());
    match key {
        Key::Char(c) => {
            if c == pre.settings.exit_sentinel {
                lemma_settled_stays(listened(pre, key), first);
            } else {
                assert(batcher.buffer.push(c) =~= seq![c]);
            }
        },
        _ => {
            if literal(key, pre.settings.arrows) is None {
                lemma_settled_stays(listened(pre, key), second);
            }
        },
    }
}

/// The most requests that a key can lead to with a batcher: a query and a
/// feeding for the characters and a feeding for the literal, each attempted
/// as often as the bound allows.
pub open spec fn batched_requests_at_most(retries: u64) -> int {
    3 * limit(retries)
}

impl KeyListener {
    /// Whether the session has ids left for all the requests that a key can
    /// lead to with a batcher.
    pub fn can_dispatch_batched(&self) -> (r: bool)
        ensures
            r == (self@.session.next_id + batched_requests_at_most(self@.settings.retries) < u32::MAX),
    {
        let retries = self.retries();
        let most: u128 = if retries == 0 {
            3
        } else {
            3 * (retries as u128)
        };
        (self.session().message_id() as u128) + most < (u32::MAX as u128)
    }

    /// Deals with a key press through `batcher`: the batcher takes the key,
    /// and what it releases is fed, the characters first and as one call. The
    /// exchanges are made by `exchange`. The step returned is the one that
    /// [`batched`] names for some replies that `exchange` may have given.
    pub fn dispatch_batched<F: Fn(Vec<u8>) -> Received>(
        &mut self,
        batcher: &mut Batcher,
        key: Key,
        exchange: &F,
    ) -> (last: Step)
        requires
            forall|bytes: Vec<u8>| call_requires(*exchange, (bytes,)),
            old(self)@.phase is Idle,
            key != Key::Char(old(self)@.settings.exit_sentinel) ==> old(self)@.session.next_id
                + batched_requests_at_most(old(self)@.settings.retries) < u32::MAX,
        ensures
            !(last@ is Exchange),
            final(self)@.phase is Idle,
            final(self)@.settings == old(self)@.settings,
            final(batcher)@ == taken(old(batcher)@, key, old(self)@.settings).0,
            last@ == StepModel::Finished(true) <==> key == Key::Char(old(self)@.settings.exit_sentinel),
            key == Key::Char(old(self)@.settings.exit_sentinel) ==> final(self)@ == old(self)@,
            exists|first: Seq<Received>, second: Seq<Received>|
                (batch_answered(
                    *exchange,
                    old(self)@,
                    taken(old(batcher)@, key, old(self)@.settings).1,
                    first,
                    second,
                ) && (final(self)@, last@) == batched(
                    old(self)@,
                    taken(old(batcher)@, key, old(self)@.settings).1,
                    first,
                    second,
                )),
    {
        let batch = batcher.take(key, self.settings());
        let ghost pre = self@;
        let ghost model = batch@;
        assert(pre == old(self)@ && model == taken(old(batcher)@, key, old(self)@.settings).1);
        if batch.exit {
            let last = Step::Finished(true);
            assert(batch_answered(*exchange, pre, model, Seq::empty(), Seq::empty()) && (self@, last@) == batched(
                pre,
                model,
                Seq::empty(),
                Seq::empty(),
            ));
            return last;
        }
        let ghost mut first: Seq<Received> = Seq::empty();
        if !batch.text.as_str().is_empty() {
            let step = self.forward(batch.text.as_str());
            let last = self.settle(step, exchange);
            proof {
                let at = attempted(pre, TaskModel::Query(model.text), 1);
                first = choose|script: Seq<Received>|
                    answered(*exchange, at, script) && (self@, last@) == settled(at, script);
                lemma_settled_never_exits(at, first);
            }
            match last {
                Step::Finished(false) => {},
                other => {
                    assert(batch_answered(*exchange, pre, model, first, Seq::empty()) && (self@, other@)
                        == batched(pre, model, first, Seq::empty()));
                    return other;
                },
            }
        }
        let ghost mid = self@;
        assert(flushed(pre, model, first) == (mid, StepModel::Finished(false)));
        match batch.literal {
            Some(l) => {
                let step = self.send_key(l);
                let last = self.settle(step, exchange);
                proof {
                    let at = attempted(mid, TaskModel::Feed(seq![l]), 1);
                    let second = choose|script: Seq<Received>|
                        answered(*exchange, at, script) && (self@, last@) == settled(at, script);
                    lemma_settled_never_exits(at, second);
                    assert(batch_answered(*exchange, pre, model, first, second) && (self@, last@) == batched(
                        pre,
                        model,
                        first,
                        second,
                    ));
                }
                last
            },
            None => {
                let last = Step::Finished(false);
                assert(batch_answered(*exchange, pre, model, first, Seq::empty()) && (self@, last@) == batched(
                    pre,
                    model,
                    first,
                    Seq::empty(),
                ));
                last
            },
        }
    }
}

} // verus!
