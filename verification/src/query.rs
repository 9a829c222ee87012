//! The calls that the relay makes of the editor, and the reading of their
//! replies: the mode out of the answer to a mode query, key mappings out of
//! the answer to a keymap query, and the bare success of keys that were fed.

use vstd::prelude::*;
use crate::error::Failure;
use crate::error::RpcError;
use crate::codec::request_model;
use crate::msgpack::encoded;
use crate::session::feedkeys_method;
use crate::session::feedkeys_params;
use crate::session::get_keymap_method;
use crate::session::get_mode_method;
use crate::session::may_return;
use crate::session::read_reply;
use crate::session::reply_of;
use crate::session::Received;
use crate::session::Session;
use crate::session::SessionModel;
use crate::value::lemma_dictionary_model;
use crate::value::models;
use crate::value::pair_models;
use crate::value::Model;
use crate::value::Object;

verus! {

/// The mathematical value of a [`Keybind`].
pub struct KeybindModel {
    pub lhs: Seq<char>,
    pub rhs: Seq<char>,
    pub mode: Seq<char>,
    pub noremap: bool,
}

/// One key mapping of the editor.
#[derive(Debug, Clone, PartialEq, Eq)]
pub struct Keybind {
    /// The keys that trigger the mapping, without the markup characters.
    pub lhs: Vec<char>,
    /// What the keys expand to.
    pub rhs: String,
    /// The mode in which the mapping holds.
    pub mode: String,
    /// Whether the expansion is exempt from further mapping.
    pub noremap: bool,
}

impl View for Keybind {
    type V = KeybindModel;

    open spec fn view(&self) -> KeybindModel {
        KeybindModel { lhs: self.lhs@, rhs: self.rhs@, mode: self.mode@, noremap: self.noremap }
    }
}

/// The values of a sequence of key mappings, one by one.
pub open spec fn keybind_models(keybinds: Seq<Keybind>) -> Seq<KeybindModel> {
    Seq::new(keybinds.len(), |i: int| keybinds[i]@)
}

/// The string under `key` in `entries`: the value of the first entry whose
/// key is the string `key` and whose value is a string.
pub open spec fn str_in(entries: Seq<(Model, Model)>, key: Seq<char>) -> Option<Seq<char>>
    decreases entries.len(),
{
    if entries.len() == 0 {
        None
    } else {
        match entries[0] {
            (Model::Text(k), Model::Text(v)) if k == key => Some(v),
            _ => str_in(entries.drop_first(), key),
        }
    }
}

/// The flag under `key` in `entries`: the value of the first entry whose key
/// is the string `key` and whose value is a boolean.
pub open spec fn bool_in(entries: Seq<(Model, Model)>, key: Seq<char>) -> Option<bool>
    decreases entries.len(),
{
    if entries.len() == 0 {
        None
    } else {
        match entries[0] {
            (Model::Text(k), Model::Boolean(v)) if k == key => Some(v),
            _ => bool_in(entries.drop_first(), key),
        }
    }
}

/// Whether `c` is one of the characters that mark up a key name: `-`, `<`
/// and `>`.
pub open spec fn is_markup(c: char) -> bool {
    c == '-' || c == '<' || c == '>'
}

/// `lhs` without its markup characters.
pub open spec fn stripped(lhs: Seq<char>) -> Seq<char> {
    lhs.filter(|c: char| !is_markup(c))
}

/// The mode that the result of a mode query reports: the string under
/// `mode`, where the result is a dictionary that has one.
pub open spec fn mode_of(result: Model) -> Option<Seq<char>> {
    match result {
        Model::Dictionary(entries) => str_in(entries, "mode"@),
        _ => None,
    }
}

/// The key mapping that `keymap` describes, if it is a dictionary with
/// strings under `lhs` and `rhs`. The flag under `noremap` counts as `false`
/// where it is missing, and `default_mode` stands in for a missing `mode`.
pub open spec fn keybind_of(keymap: Model, default_mode: Seq<char>) -> Option<KeybindModel> {
    match keymap {
        Model::Dictionary(entries) => match (str_in(entries, "lhs"@), str_in(entries, "rhs"@)) {
            (Some(lhs), Some(rhs)) => Some(
                KeybindModel {
                    lhs: stripped(lhs),
                    rhs,
                    mode: match str_in(entries, "mode"@) {
                        Some(mode) => mode,
                        None => default_mode,
                    },
                    noremap: match bool_in(entries, "noremap"@) {
                        Some(flag) => flag,
                        None => false,
                    },
                },
            ),
            _ => None,
        },
        _ => None,
    }
}

/// The key mappings that the result of a keymap query lists, where it is an
/// array: those of its items that describe one, in their order.
pub open spec fn keybinds_of(result: Model, default_mode: Seq<char>) -> Option<Seq<KeybindModel>> {
    match result {
        Model::Array(items) => Some(items.filter_map(|keymap: Model| keybind_of(keymap, default_mode))),
        _ => None,
    }
}

/// Looks up the string under `key`.
pub fn get_str_from_map<'a>(map: &'a [(Object, Object)], key: &str) -> (r: Option<&'a str>)
    ensures
        match str_in(pair_models(map@), key@) {
            Some(v) => r matches Some(s) && s@ == v,
            None => r is None,
        },
{
    let ghost entries = pair_models(map@);
    assert(entries.skip(0) =~= entries);
    let mut i: usize = 0;
    while i < map.len()
        invariant
            i <= map.len(),
            entries == pair_models(map@),
            str_in(entries, key@) == str_in(entries.skip(i as int), key@),
        decreases map.len() - i,
    {
        let entry = &map[i];
        proof {
            assert(entries.skip(i as int)[0] == entries[i as int]);
            assert(entries.skip(i as int).drop_first() =~= entries.skip(i + 1));
        }
        match (&entry.0, &entry.1) {
            (Object::Text(k), Object::Text(v)) => {
                if k.as_str().eq(key) {
                    return Some(v.as_str());
                }
            },
            _ => {},
        }
        i += 1;
    }
    None
}

/// Looks up the flag under `key`.
pub fn get_bool_from_map(map: &[(Object, Object)], key: &str) -> (r: Option<bool>)
    ensures
        r == bool_in(pair_models(map@), key@),
{
    let ghost entries = pair_models(map@);
    assert(entries.skip(0) =~= entries);
    let mut i: usize = 0;
    while i < map.len()
        invariant
            i <= map.len(),
            entries == pair_models(map@),
            bool_in(entries, key@) == bool_in(entries.skip(i as int), key@),
        decreases map.len() - i,
    {
        let entry = &map[i];
        proof {
            assert(entries.skip(i as int)[0] == entries[i as int]);
            assert(entries.skip(i as int).drop_first() =~= entries.skip(i + 1));
        }
        match (&entry.0, &entry.1) {
            (Object::Text(k), Object::Boolean(v)) => {
                if k.as_str().eq(key) {
                    return Some(*v);
                }
            },
            _ => {},
        }
        i += 1;
    }
    None
}

/// Reads the mode out of the result of a mode query.
pub fn parse_mode(result: &Object) -> (r: Option<String>)
    ensures
        match mode_of(result@) {
            Some(mode) => r matches Some(s) && s@ == mode,
            None => r is None,
        },
{
    match result {
        Object::Dictionary(entries) => {
            proof {
                lemma_dictionary_model(*entries);
            }
            match get_str_from_map(entries.as_slice(), "mode") {
                Some(mode) => Some(mode.to_owned()),
                None => None,
            }
        },
        _ => None,
    }
}

/// Strips the markup characters `-`, `<` and `>` from the left-hand side of
/// a mapping.
pub fn parse_keybind_lhs(lhs: &str) -> (r: Vec<char>)
    ensures
        r@ == stripped(lhs@),
{
    let mut res: Vec<char> = Vec::new();
    for ch in it: lhs.chars()
        invariant
            it.seq() == lhs@,
            res@ == stripped(lhs@.take(it.index())),
    {
        proof {
            reveal(Seq::filter);
            assert(lhs@.take(it.index() + 1).drop_last() == lhs@.take(it.index()));
        }
        if ch != '-' && ch != '<' && ch != '>' {
            res.push(ch);
        }
    }
    assert(lhs@.take(lhs@.len() as int) == lhs@);
    res
}

/// Reads one key mapping out of an item of the result of a keymap query.
pub fn parse_keybind(keymap: &Object, default_mode: &str) -> (r: Option<Keybind>)
    ensures
        match keybind_of(keymap@, default_mode@) {
            Some(keybind) => r matches Some(k) && k@ == keybind,
            None => r is None,
        },
{
    match keymap {
        Object::Dictionary(entries) => {
            proof {
                lemma_dictionary_model(*entries);
            }
            let map = entries.as_slice();
            let lhs = match get_str_from_map(map, "lhs") {
                Some(lhs) => parse_keybind_lhs(lhs),
                None => { return None; },
            };
            let rhs = match get_str_from_map(map, "rhs") {
                Some(rhs) => rhs.to_owned(),
                None => { return None; },
            };
            let noremap = match get_bool_from_map(map, "noremap") {
                Some(flag) => flag,
                None => false,
            };
            let mode = match get_str_from_map(map, "mode") {
                Some(mode) => mode.to_owned(),
                None => default_mode.to_owned(),
            };
            Some(Keybind { lhs, rhs, mode, noremap })
        },
        _ => None,
    }
}

/// Reads the key mappings out of the result of a keymap query. Items that
/// describe no mapping are passed over.
pub fn parse_keybinds(result: &Object, default_mode: &str) -> (r: Option<Vec<Keybind>>)
    ensures
        match keybinds_of(result@, default_mode@) {
            Some(keybinds) => r matches Some(v) && keybind_models(v@) == keybinds,
            None => r is None,
        },
{
    match result {
        Object::Array(keymaps) => {
            let ghost items = models(keymaps@);
            let ghost read = |keymap: Model| keybind_of(keymap, default_mode@);
            proof {
                crate::value::lemma_array_model(*keymaps);
            }
            let mut keybinds: Vec<Keybind> = Vec::new();
            let mut i: usize = 0;
            while i < keymaps.len()
                invariant
                    i <= keymaps.len(),
                    items == models(keymaps@),
                    read == |keymap: Model| keybind_of(keymap, default_mode@),
                    keybind_models(keybinds@) == items.take(i as int).filter_map(read),
                decreases keymaps.len() - i,
            {
                proof {
                    items.lemma_filter_map_take_succ(read, i as int);
                }
                let ghost before = keybinds@;
                match parse_keybind(&keymaps[i], default_mode) {
                    Some(keybind) => {
                        keybinds.push(keybind);
                        assert(keybind_models(keybinds@) =~= keybind_models(before) + seq![keybind@]);
                    },
                    None => {},
                }
                i += 1;
            }
            assert(items.take(keymaps.len() as int) == items);
            Some(keybinds)
        },
        _ => None,
    }
}

/// What the host received means to a mode query numbered `id`: the mode that
/// the result reports, `MalformedResponse` where it reports none, or the
/// failure of the call.
pub open spec fn mode_reply(id: u32, received: Received) -> Result<Seq<char>, Failure> {
    match reply_of(id, received) {
        Ok(result) => match mode_of(result) {
            Some(mode) => Ok(mode),
            None => Err(Failure::MalformedResponse),
        },
        Err(failure) => Err(failure),
    }
}

/// What the host received means to a call numbered `id` that feeds keys:
/// any result is a success, and the failure of the call is its failure.
pub open spec fn feed_reply(id: u32, received: Received) -> Result<(), Failure> {
    match reply_of(id, received) {
        Ok(_) => Ok(()),
        Err(failure) => Err(failure),
    }
}

/// What the host received means to a keymap query numbered `id`: the key
/// mappings that the result lists, `MalformedResponse` where it is no array,
/// or the failure of the call.
pub open spec fn keymap_reply(id: u32, received: Received, default_mode: Seq<char>) -> Result<
    Seq<KeybindModel>,
    Failure,
> {
    match reply_of(id, received) {
        Ok(result) => match keybinds_of(result, default_mode) {
            Some(keybinds) => Ok(keybinds),
            None => Err(Failure::MalformedResponse),
        },
        Err(failure) => Err(failure),
    }
}

/// Whether `r` is the mode or the failure `m`.
pub open spec fn is_mode(r: Result<String, RpcError>, m: Result<Seq<char>, Failure>) -> bool {
    match m {
        Ok(mode) => r matches Ok(s) && s@ == mode,
        Err(failure) => r matches Err(e) && e@ == failure,
    }
}

/// Whether `r` is the success or the failure `m`.
pub open spec fn is_fed(r: Result<(), RpcError>, m: Result<(), Failure>) -> bool {
    match m {
        Ok(_) => r is Ok,
        Err(failure) => r matches Err(e) && e@ == failure,
    }
}

/// Whether `r` holds the key mappings or the failure `m`.
pub open spec fn is_keymap(r: Result<Vec<Keybind>, RpcError>, m: Result<Seq<KeybindModel>, Failure>) -> bool {
    match m {
        Ok(keybinds) => r matches Ok(v) && keybind_models(v@) == keybinds,
        Err(failure) => r matches Err(e) && e@ == failure,
    }
}

/// Reads the reply to the mode query numbered `id`.
pub fn read_mode(id: u32, received: Received) -> (r: Result<String, RpcError>)
    ensures
        is_mode(r, mode_reply(id, received)),
{
    match read_reply(id, received) {
        Ok(result) => match parse_mode(&result) {
            Some(mode) => Ok(mode),
            None => Err(RpcError::MalformedResponse),
        },
        Err(error) => Err(error),
    }
}

/// Reads the reply to the call numbered `id` that fed keys.
pub fn read_fed(id: u32, received: Received) -> (r: Result<(), RpcError>)
    ensures
        is_fed(r, feed_reply(id, received)),
{
    match read_reply(id, received) {
        Ok(_) => Ok(()),
        Err(error) => Err(error),
    }
}

/// Reads the reply to the keymap query numbered `id` that was made for
/// `default_mode`.
pub fn read_keybinds(id: u32, received: Received, default_mode: &str) -> (r: Result<Vec<Keybind>, RpcError>)
    ensures
        is_keymap(r, keymap_reply(id, received, default_mode@)),
{
    match read_reply(id, received) {
        Ok(result) => match parse_keybinds(&result, default_mode) {
            Some(keybinds) => Ok(keybinds),
            None => Err(RpcError::MalformedResponse),
        },
        Err(error) => Err(error),
    }
}

impl Session {
    /// Asks the editor for its mode: the query is made by
    /// [`Session::get_current_mode`], `exchange` writes its bytes and reads
    /// once, and what it returns is read as the reply.
    pub fn get_mode<F: Fn(Vec<u8>) -> Received>(&mut self, exchange: &F) -> (r: Result<String, RpcError>)
        requires
            old(self)@.next_id < u32::MAX,
            forall|bytes: Vec<u8>| call_requires(*exchange, (bytes,)),
        ensures
            final(self)@ == (SessionModel { next_id: (old(self)@.next_id + 1) as u32, ..old(self)@ }),
            exists|received: Received|
                (may_return(
                    *exchange,
                    encoded(request_model(old(self)@.next_id, get_mode_method(), Seq::empty())),
                    received,
                ) && is_mode(r, mode_reply(old(self)@.next_id, received))),
    {
        let pending = self.get_current_mode();
        let received = exchange(pending.bytes);
        let r = read_mode(pending.id, received);
        assert(may_return(*exchange, pending.bytes@, received) && is_mode(r, mode_reply(pending.id, received)));
        r
    }

    /// Feeds `keys` to the editor as typed in `mode`: the call is made by
    /// [`Session::feedkeys`], `exchange` writes its bytes and reads once, and
    /// what it returns is read as the reply. Success is a reply without an
    /// error, whatever its result.
    pub fn feed_keys<F: Fn(Vec<u8>) -> Received>(&mut self, keys: &str, mode: &str, exchange: &F) -> (r: Result<
        (),
        RpcError,
    >)
        requires
            old(self)@.next_id < u32::MAX,
            forall|bytes: Vec<u8>| call_requires(*exchange, (bytes,)),
        ensures
            final(self)@ == (SessionModel { next_id: (old(self)@.next_id + 1) as u32, ..old(self)@ }),
            exists|received: Received|
                (may_return(
                    *exchange,
                    encoded(request_model(old(self)@.next_id, feedkeys_method(), feedkeys_params(keys@, mode@))),
                    received,
                ) && is_fed(r, feed_reply(old(self)@.next_id, received))),
    {
        let pending = self.feedkeys(keys, mode);
        let received = exchange(pending.bytes);
        let r = read_fed(pending.id, received);
        assert(may_return(*exchange, pending.bytes@, received) && is_fed(r, feed_reply(pending.id, received)));
        r
    }

    /// Asks the editor for the key mappings of `mode`: the query is made by
    /// [`Session::get_all_keybinds`], `exchange` writes its bytes and reads
    /// once, and what it returns is read as the reply.
    pub fn get_keymap<F: Fn(Vec<u8>) -> Received>(&mut self, mode: &str, exchange: &F) -> (r: Result<
        Vec<Keybind>,
        RpcError,
    >)
        requires
            old(self)@.next_id < u32::MAX,
            forall|bytes: Vec<u8>| call_requires(*exchange, (bytes,)),
        ensures
            final(self)@ == (SessionModel { next_id: (old(self)@.next_id + 1) as u32, ..old(self)@ }),
            exists|received: Received|
                (may_return(
                    *exchange,
                    encoded(request_model(old(self)@.next_id, get_keymap_method(), seq![Model::Text(mode@)])),
                    received,
                ) && is_keymap(r, keymap_reply(old(self)@.next_id, received, mode@))),
    {
        let pending = self.get_all_keybinds(mode);
        let received = exchange(pending.bytes);
        let r = read_keybinds(pending.id, received, mode);
        assert(may_return(*exchange, pending.bytes@, received) && is_keymap(
            r,
            keymap_reply(pending.id, received, mode@),
        ));
        r
    }
}

} // verus!
