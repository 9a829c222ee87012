//! What it means to deal with a key from the press to the end, and what
//! holds of it: the listener's steps are taken one after another, each
//! exchange being answered by the next entry of a script of replies.

use vstd::prelude::*;
use crate::codec::request_model;
use crate::error::Failure;
use crate::keybinds::attempted;
use crate::keybinds::listened;
use crate::keybinds::resumed;
use crate::keybinds::Key;
use crate::keybinds::ListenerModel;
use crate::keybinds::PhaseModel;
use crate::keybinds::StepModel;
use crate::keybinds::TaskModel;
use crate::query::mode_reply;
use crate::msgpack::encoded;
use crate::retry::limit;
use crate::session::feedkeys_method;
use crate::session::feedkeys_params;
use crate::session::get_mode_method;
use crate::session::may_return;
use crate::session::Received;

verus! {

/// The listener and the step once the exchanges asked for from `at` on have
/// been answered with `script`, one entry for each, in order. Entries that
/// are left when no exchange is asked for any more are not used.
pub open spec fn settled(at: (ListenerModel, StepModel), script: Seq<Received>) -> (
    ListenerModel,
    StepModel,
)
    decreases script.len(),
{
    if script.len() == 0 {
        at
    } else {
        let before = settled(at, script.drop_last());
        if before.1 is Exchange {
            resumed(before.0, script.last())
        } else {
            before
        }
    }
}

/// The listener and the step once `key` has been pressed and the exchanges
/// that followed have been answered with `script`.
pub open spec fn dispatched(pre: ListenerModel, key: Key, script: Seq<Received>) -> (
    ListenerModel,
    StepModel,
) {
    settled(listened(pre, key), script)
}

/// Whether each entry of `script` is something that `exchange` may return for
/// the bytes of the exchange that it answers, on the way from `at`.
pub open spec fn answered<F: Fn(Vec<u8>) -> Received>(
    exchange: F,
    at: (ListenerModel, StepModel),
    script: Seq<Received>,
) -> bool
    decreases script.len(),
{
    script.len() == 0 || {
        let before = settled(at, script.drop_last());
        &&& answered(exchange, at, script.drop_last())
        &&& before.1 is Exchange
        &&& may_return(exchange, before.1->Exchange_0, script.last())
    }
}

/// How many more attempts may follow the one that is under way: those that
/// are left to the task and, after a query made for keys, those of the
/// feeding that follows.
pub open spec fn attempts_ahead(listener: ListenerModel) -> int {
    match listener.phase {
        PhaseModel::Idle => 0,
        PhaseModel::Waiting { task, attempt, id } => limit(listener.settings.retries) - attempt + if task is Query {
            limit(listener.settings.retries) as int
        } else {
            0
        },
    }
}

/// The most requests that a key can lead to: a query and a feeding, each
/// attempted as often as the bound allows.
pub open spec fn requests_at_most(retries: u64) -> int {
    2 * limit(retries)
}

/// No reply makes the relay stop: whatever the host hands over, the step that
/// follows does not finish with the flag set.
pub proof fn lemma_reply_never_exits(pre: ListenerModel, received: Received)
    ensures
        resumed(pre, received).1 != StepModel::Finished(true),
{
}

/// What holds of a step that does not stop the relay holds of every step
/// that follows it.
pub proof fn lemma_settled_never_exits(at: (ListenerModel, StepModel), script: Seq<Received>)
    requires
        at.1 != StepModel::Finished(true),
    ensures
        settled(at, script).1 != StepModel::Finished(true),
    decreases script.len(),
{
    if script.len() > 0 {
        lemma_settled_never_exits(at, script.drop_last());
        lemma_reply_never_exits(settled(at, script.drop_last()).0, script.last());
    }
}

/// A step that asks for no exchange is the last one, whatever replies are
/// at hand.
pub proof fn lemma_settled_stays(at: (ListenerModel, StepModel), script: Seq<Received>)
    requires
        !(at.1 is Exchange),
    ensures
        settled(at, script) == at,
    decreases script.len(),
{
    if script.len() > 0 {
        lemma_settled_stays(at, script.drop_last());
    }
}

/// The relay stops for the exit sentinel and for nothing else: in whatever
/// state the listener is, and whatever the remote answers, dealing with a
/// key ends with the flag set exactly when the key is the sentinel.
pub proof fn lemma_exit_only_on_sentinel(pre: ListenerModel, key: Key, script: Seq<Received>)
    ensures
        dispatched(pre, key, script).1 == StepModel::Finished(true) <==> key == Key::Char(
            pre.settings.exit_sentinel,
        ),
{
    if key == Key::Char(pre.settings.exit_sentinel) {
        lemma_settled_stays(listened(pre, key), script);
    } else {
        lemma_settled_never_exits(listened(pre, key), script);
    }
}

/// No step changes how the listener is set.
pub proof fn lemma_settings_stay(at: (ListenerModel, StepModel), script: Seq<Received>)
    ensures
        settled(at, script).0.settings == at.0.settings,
    decreases script.len(),
{
    if script.len() > 0 {
        lemma_settings_stay(at, script.drop_last());
    }
}

/// The listener after the keys of `keys` have been dealt with one after
/// another, the exchanges that followed key `i` having been answered with
/// `scripts[i]`.
pub open spec fn relayed(pre: ListenerModel, keys: Seq<Key>, scripts: Seq<Seq<Received>>) -> ListenerModel
    decreases keys.len(),
{
    if keys.len() == 0 {
        pre
    } else {
        dispatched(relayed(pre, keys.drop_last(), scripts.drop_last()), keys.last(), scripts.last()).0
    }
}

/// A relay keeps its settings, whatever keys it deals with.
pub proof fn lemma_relay_keeps_settings(pre: ListenerModel, keys: Seq<Key>, scripts: Seq<Seq<Received>>)
    ensures
        relayed(pre, keys, scripts).settings == pre.settings,
    decreases keys.len(),
{
    if keys.len() > 0 {
        let before = relayed(pre, keys.drop_last(), scripts.drop_last());
        lemma_relay_keeps_settings(pre, keys.drop_last(), scripts.drop_last());
        lemma_settings_stay(listened(before, keys.last()), scripts.last());
    }
}

/// In a sequence of keys, the relay stops at the exit sentinel and nowhere
/// else: whatever keys came before and whatever the remote answered, dealing
/// with key `i` ends with the flag set exactly when that key is the
/// sentinel. So a sequence without the sentinel never stops the relay.
pub proof fn lemma_relay_stops_only_at_the_sentinel(
    pre: ListenerModel,
    keys: Seq<Key>,
    scripts: Seq<Seq<Received>>,
    i: int,
)
    requires
        0 <= i < keys.len(),
    ensures
        dispatched(relayed(pre, keys.take(i), scripts.take(i)), keys[i], scripts[i]).1 == StepModel::Finished(
            true,
        ) <==> keys[i] == Key::Char(pre.settings.exit_sentinel),
{
    let before = relayed(pre, keys.take(i), scripts.take(i));
    lemma_relay_keeps_settings(pre, keys.take(i), scripts.take(i));
    lemma_exit_only_on_sentinel(before, keys[i], scripts[i]);
}

/// The exit sentinel makes no call: in whatever mode and state the listener
/// is, it stops the relay at once, asks for no exchange, takes no id and
/// leaves the listener as it was.
pub proof fn lemma_sentinel_makes_no_call(pre: ListenerModel, script: Seq<Received>)
    ensures
        listened(pre, Key::Char(pre.settings.exit_sentinel)) == (pre, StepModel::Finished(true)),
        dispatched(pre, Key::Char(pre.settings.exit_sentinel), script) == (pre, StepModel::Finished(true)),
{
    lemma_settled_stays(listened(pre, Key::Char(pre.settings.exit_sentinel)), script);
}

/// The mode is asked for anew before each character: a character key leads
/// to a mode query under the session's next id, and once that query is
/// answered with a mode, the character is fed under the id after it, in the
/// mode just reported and not in the mode that the listener knew before.
pub proof fn lemma_character_is_fed_in_fresh_mode(
    pre: ListenerModel,
    c: char,
    received: Received,
    mode: Seq<char>,
)
    requires
        c != pre.settings.exit_sentinel,
        pre.session.next_id < u32::MAX - 1,
        mode_reply(pre.session.next_id, received) == Ok::<Seq<char>, Failure>(mode),
    ensures
        listened(pre, Key::Char(c)).1 == StepModel::Exchange(
            encoded(request_model(pre.session.next_id, get_mode_method(), Seq::empty())),
        ),
        resumed(listened(pre, Key::Char(c)).0, received).1 == StepModel::Exchange(
            encoded(
                request_model(
                    (pre.session.next_id + 1) as u32,
                    feedkeys_method(),
                    feedkeys_params(seq![c], mode),
                ),
            ),
        ),
        resumed(listened(pre, Key::Char(c)).0, received).0.mode == mode,
{
}

/// Whether the host received no bytes at all: the connection was closed, the
/// read ran out of time, or writing or reading failed.
pub open spec fn is_silent(received: Received) -> bool {
    !(received is Data)
}

/// The failure that a silent reply stands for.
pub open spec fn silence(received: Received) -> Failure {
    match received {
        Received::TimedOut => Failure::TimedOut,
        _ => Failure::Disconnected,
    }
}

/// The listener `pre` after `made` requests more.
pub open spec fn advanced(pre: ListenerModel, made: int) -> ListenerModel {
    ListenerModel {
        session: crate::session::SessionModel { next_id: (pre.session.next_id + made) as u32, ..pre.session },
        ..pre
    }
}

/// Silence is answered by another attempt while attempts are left: after
/// fewer silent replies than the bound allows attempts, the listener has made
/// one request for each of them and one more, each under the next id, and
/// waits for the reply to the last.
pub proof fn lemma_silence_is_retried(pre: ListenerModel, task: TaskModel, script: Seq<Received>)
    requires
        script.len() < limit(pre.settings.retries),
        pre.session.next_id + script.len() < u32::MAX,
        forall|i: int| 0 <= i < script.len() ==> is_silent(#[trigger] script[i]),
    ensures
        settled(attempted(pre, task, 1), script) == attempted(
            advanced(pre, script.len() as int),
            task,
            (script.len() + 1) as u64,
        ),
    decreases script.len(),
{
    if script.len() == 0 {
        assert(advanced(pre, 0) == pre);
    } else {
        let shorter = script.drop_last();
        lemma_silence_is_retried(pre, task, shorter);
        assert(is_silent(script.last()));
        let before = attempted(advanced(pre, shorter.len() as int), task, (shorter.len() + 1) as u64);
        assert(settled(attempted(pre, task, 1), shorter) == before);
        assert(advanced(advanced(pre, shorter.len() as int), 1) == advanced(pre, script.len() as int));
    }
}

/// Steady silence is fatal at the bound: when as many silent replies come as
/// the bound allows attempts, the listener has made exactly that many
/// requests, and the last step is fatal, names the task's operation, counts
/// the attempts and carries the failure of the last reply.
pub proof fn lemma_steady_silence_is_fatal(pre: ListenerModel, task: TaskModel, script: Seq<Received>)
    requires
        script.len() == limit(pre.settings.retries),
        pre.session.next_id + script.len() <= u32::MAX,
        forall|i: int| 0 <= i < script.len() ==> is_silent(#[trigger] script[i]),
    ensures
        settled(attempted(pre, task, 1), script) == (
            ListenerModel { phase: PhaseModel::Idle, ..advanced(pre, script.len() as int) },
            StepModel::Fatal(task.operation(), limit(pre.settings.retries), silence(script.last())),
        ),
{
    let shorter = script.drop_last();
    lemma_silence_is_retried(pre, task, shorter);
    assert(is_silent(script.last()));
}

/// A reply that follows fewer silent ones than the bound allows attempts is
/// read as the reply to the attempt under way: the silence before it has
/// cost one request each and nothing else.
pub proof fn lemma_reply_after_silence(
    pre: ListenerModel,
    task: TaskModel,
    script: Seq<Received>,
    received: Received,
)
    requires
        script.len() < limit(pre.settings.retries),
        pre.session.next_id + script.len() < u32::MAX,
        forall|i: int| 0 <= i < script.len() ==> is_silent(#[trigger] script[i]),
    ensures
        settled(attempted(pre, task, 1), script.push(received)) == resumed(
            attempted(advanced(pre, script.len() as int), task, (script.len() + 1) as u64).0,
            received,
        ),
{
    lemma_silence_is_retried(pre, task, script);
    assert(script.push(received).drop_last() == script);
}

/// The keys that Enter, Esc, Backspace and Tab are forwarded as.
pub open spec fn control_literal(key: Key) -> Seq<char> {
    match key {
        Key::Enter => seq!['\n'],
        Key::Esc => seq!['\x1b'],
        Key::Backspace => seq!['\x08'],
        Key::Tab => seq!['\t'],
        _ => Seq::empty(),
    }
}

/// Enter, Esc, Backspace and Tab are forwarded as their fixed keys, whatever
/// mode the editor has reported and however the listener is set: the step is
/// the feeding of exactly those keys, and no mode query precedes it.
pub proof fn lemma_control_key_is_fed_verbatim(pre: ListenerModel, key: Key)
    requires
        key == Key::Enter || key == Key::Esc || key == Key::Backspace || key == Key::Tab,
    ensures
        listened(pre, key) == attempted(pre, TaskModel::Feed(control_literal(key)), 1),
        listened(pre, key).1 == StepModel::Exchange(
            encoded(
                request_model(
                    pre.session.next_id,
                    feedkeys_method(),
                    feedkeys_params(control_literal(key), pre.mode),
                ),
            ),
        ),
{
}

} // verus!
