//! Reading a preset's parameters by key.
//!
//! A [`Session`] owns the bag of parameters while a preset is read. Each
//! parameter is taken out under its key, once; the session keeps account of
//! the keys taken so far, so that what a key yields can be stated of the
//! parameters as they stood when the session was opened.

use crate::key::{
    key_named, keys_in, keys_of, lemma_key_named, lemma_keys_in_bounds, lemma_keys_in_grows, Group,
    ParamKey,
};
use crate::number::Number;
use crate::param::{
    first_index, i32_or, lemma_first_index, number_of, number_or, raw_text, switch_or, u32_or,
    views, without, Param, ParamView, PluginParamTree, TreeView,
};
use vstd::prelude::*;

verus! {

/// The number that the parameters hold under `key`, or `default`.
pub open spec fn number_at(params: Seq<ParamView>, key: ParamKey, default: Number) -> Number {
    number_or(raw_text(params, key.id_text()), default)
}

/// The number that the parameters hold under `key`, if they hold one.
pub open spec fn number_if_at(params: Seq<ParamView>, key: ParamKey) -> Option<Number> {
    number_of(raw_text(params, key.id_text()))
}

/// The switch that the parameters hold under `key`, or `default`.
pub open spec fn switch_at(params: Seq<ParamView>, key: ParamKey, default: bool) -> bool {
    switch_or(raw_text(params, key.id_text()), default)
}

/// The unsigned integer that the parameters hold under `key`, or `default`.
pub open spec fn u32_at(params: Seq<ParamView>, key: ParamKey, default: u32) -> u32 {
    u32_or(raw_text(params, key.id_text()), default)
}

/// The signed integer that the parameters hold under `key`, or `default`.
pub open spec fn i32_at(params: Seq<ParamView>, key: ParamKey, default: i32) -> i32 {
    i32_or(raw_text(params, key.id_text()), default)
}

/// Whether two lists of parameters hold the same text under every key.
pub open spec fn same_texts(first: Seq<ParamView>, second: Seq<ParamView>) -> bool {
    forall|key: ParamKey| #[trigger]
        raw_text(first, key.id_text()) == raw_text(second, key.id_text())
}

/// What is left of a list of parameters once the keys in `taken` have each
/// taken the first parameter of their name.
pub open spec fn residue(params: Seq<ParamView>, taken: Set<ParamKey>) -> Seq<ParamView>
    decreases params.len(),
{
    if params.len() == 0 {
        params
    } else {
        let named = key_named(params[0].id);
        if named is Some && taken.contains(named->0) {
            residue(params.drop_first(), taken.remove(named->0))
        } else {
            seq![params[0]] + residue(params.drop_first(), taken)
        }
    }
}

/// The parameters that no key takes: all but the first of each known name.
pub open spec fn unrecognized(params: Seq<ParamView>) -> Seq<ParamView> {
    residue(params, Set::full())
}

/// The text under `id` is that of the head if the head is named `id`, and
/// else that of the rest.
pub proof fn lemma_raw_text_unfolds(params: Seq<ParamView>, id: Seq<char>)
    requires
        params.len() > 0,
    ensures
        raw_text(params, id) == if params[0].id == id {
            params[0].value
        } else {
            raw_text(params.drop_first(), id)
        },
{
    let rest = params.drop_first();
    lemma_first_index(rest, id);
    if params[0].id != id {
        let at = first_index(rest, id);
        if at < rest.len() {
            assert(params[at + 1] == rest[at]);
        }
    }
}

/// Removing the first parameter named `id` removes the head if the head is
/// named `id`, and else removes from the rest.
pub proof fn lemma_without_unfolds(params: Seq<ParamView>, id: Seq<char>)
    requires
        params.len() > 0,
    ensures
        without(params, id) == if params[0].id == id {
            params.drop_first()
        } else {
            seq![params[0]] + without(params.drop_first(), id)
        },
{
    let rest = params.drop_first();
    lemma_first_index(rest, id);
    if params[0].id == id {
        assert(params.remove(0) =~= rest);
    } else {
        let at = first_index(rest, id);
        if at < rest.len() {
            assert(params.remove(at + 1) =~= seq![params[0]] + rest.remove(at));
        } else {
            assert(params =~= seq![params[0]] + rest);
        }
    }
}

/// A list keeps all its parameters while no key has taken any.
pub proof fn lemma_residue_of_none(params: Seq<ParamView>)
    ensures
        residue(params, Set::empty()) == params,
    decreases params.len(),
{
    if params.len() > 0 {
        lemma_residue_of_none(params.drop_first());
        assert(seq![params[0]] + params.drop_first() =~= params);
    }
}

/// The first parameter of a key's name is still there, and still the first
/// of that name, while the key has not been taken.
pub proof fn lemma_residue_keeps(params: Seq<ParamView>, taken: Set<ParamKey>, key: ParamKey)
    requires
        !taken.contains(key),
    ensures
        raw_text(residue(params, taken), key.id_text()) == raw_text(params, key.id_text()),
    decreases params.len(),
{
    let id = key.id_text();
    if params.len() > 0 {
        let rest = params.drop_first();
        let named = key_named(params[0].id);
        lemma_raw_text_unfolds(params, id);
        if named is Some && taken.contains(named->0) {
            if params[0].id == id {
                lemma_key_named(key);
            }
            lemma_residue_keeps(rest, taken.remove(named->0), key);
        } else {
            let kept = residue(rest, taken);
            let left = seq![params[0]] + kept;
            lemma_residue_keeps(rest, taken, key);
            lemma_raw_text_unfolds(left, id);
            assert(left.drop_first() =~= kept);
        }
    }
}

/// Taking one more key removes the first parameter of its name from what
/// was left.
pub proof fn lemma_residue_takes(params: Seq<ParamView>, taken: Set<ParamKey>, key: ParamKey)
    requires
        !taken.contains(key),
    ensures
        without(residue(params, taken), key.id_text()) == residue(params, taken.insert(key)),
    decreases params.len(),
{
    let id = key.id_text();
    if params.len() > 0 {
        let rest = params.drop_first();
        let named = key_named(params[0].id);
        if named is Some && taken.contains(named->0) {
            let other = named->0;
            lemma_residue_takes(rest, taken.remove(other), key);
            assert(taken.insert(key).remove(other) =~= taken.remove(other).insert(key));
        } else {
            let kept = residue(rest, taken);
            let left = seq![params[0]] + kept;
            lemma_without_unfolds(left, id);
            assert(left.drop_first() =~= kept);
            if params[0].id == id {
                lemma_key_named(key);
                assert(taken.insert(key).remove(key) =~= taken);
            } else {
                lemma_residue_takes(rest, taken, key);
                if named is Some {
                    let other = named->0;
                    assert(other.id_text() == params[0].id);
                    assert(other != key);
                }
            }
        }
    } else {
        lemma_first_index(params, id);
    }
}

/// A parameter of unknown name that is put into a list is not seen under any
/// key.
pub proof fn lemma_stranger_is_unseen(
    params: Seq<ParamView>,
    at: int,
    stranger: ParamView,
    key: ParamKey,
)
    requires
        0 <= at <= params.len(),
        key_named(stranger.id) is None,
    ensures
        raw_text(params.insert(at, stranger), key.id_text()) == raw_text(params, key.id_text()),
    decreases params.len(),
{
    let id = key.id_text();
    let longer = params.insert(at, stranger);
    lemma_raw_text_unfolds(longer, id);
    if at == 0 {
        assert(longer.drop_first() =~= params);
    } else {
        let rest = params.drop_first();
        lemma_raw_text_unfolds(params, id);
        lemma_stranger_is_unseen(rest, at - 1, stranger, key);
        assert(longer.drop_first() =~= rest.insert(at - 1, stranger));
    }
}

/// A parameter of unknown name that is put into a list stays in what is
/// left of the list, and nothing else of what is left changes. Returns the
/// place where it stands there.
pub proof fn lemma_stranger_is_left(
    params: Seq<ParamView>,
    taken: Set<ParamKey>,
    at: int,
    stranger: ParamView,
) -> (place: int)
    requires
        0 <= at <= params.len(),
        key_named(stranger.id) is None,
    ensures
        0 <= place <= residue(params, taken).len(),
        residue(params.insert(at, stranger), taken) == residue(params, taken).insert(
            place,
            stranger,
        ),
    decreases params.len(),
{
    let longer = params.insert(at, stranger);
    if at == 0 {
        assert(longer.drop_first() =~= params);
        assert(seq![stranger] + residue(params, taken) =~= residue(params, taken).insert(
            0,
            stranger,
        ));
        0
    } else {
        let rest = params.drop_first();
        let named = key_named(params[0].id);
        assert(longer.drop_first() =~= rest.insert(at - 1, stranger));
        if named is Some && taken.contains(named->0) {
            lemma_stranger_is_left(rest, taken.remove(named->0), at - 1, stranger)
        } else {
            let place = lemma_stranger_is_left(rest, taken, at - 1, stranger);
            let kept = residue(rest, taken);
            assert(seq![params[0]] + kept.insert(place, stranger) =~= (seq![params[0]]
                + kept).insert(place + 1, stranger));
            place + 1
        }
    }
}

/// A bag of parameters that is being read, with the account of what has
/// been taken from it: the keys taken, and the parts of the preset that have
/// been read in full.
pub struct Session {
    tree: PluginParamTree,
    source: Ghost<Seq<ParamView>>,
    taken: Ghost<Set<ParamKey>>,
    done: Ghost<Set<Group>>,
}

impl Session {
    /// The parameters that the session was opened on.
    pub closed spec fn source(self) -> Seq<ParamView> {
        self.source@
    }

    /// The keys that have been taken.
    pub closed spec fn taken(self) -> Set<ParamKey> {
        self.taken@
    }

    /// The parts of the preset that have been read in full.
    pub closed spec fn done(self) -> Set<Group> {
        self.done@
    }

    /// The bag holds what the keys taken so far have left of the parameters
    /// that the session was opened on.
    pub closed spec fn well_formed(self) -> bool {
        self.tree@.params == residue(self.source(), self.taken())
    }

    /// The structural fields of the preset file.
    pub closed spec fn header(self) -> TreeView {
        self.tree@.with_params(Seq::empty())
    }

    /// The session is in order, stands between two parts of the preset, and
    /// has not read `group` yet.
    pub open spec fn ready_for(self, group: Group) -> bool {
        &&& self.well_formed()
        &&& self.taken() == keys_in(self.done())
        &&& !self.done().contains(group)
    }

    /// The session is `before` with `group` read in full as well.
    pub open spec fn follows(self, before: Session, group: Group) -> bool {
        &&& self.well_formed()
        &&& self.source() == before.source()
        &&& self.header() == before.header()
        &&& self.taken() == keys_in(self.done())
        &&& self.done() == before.done().insert(group)
    }

    /// The session is `before` with `key` taken as well.
    pub open spec fn took(self, before: Session, key: ParamKey) -> bool {
        &&& self.well_formed()
        &&& self.source() == before.source()
        &&& self.header() == before.header()
        &&& self.taken() == before.taken().insert(key)
        &&& self.done() == before.done()
    }

    /// Opens a session on a bag of parameters.
    pub fn open(tree: PluginParamTree) -> (session: Session)
        ensures
            session.well_formed(),
            session.header() == tree@.with_params(Seq::empty()),
            session.source() == tree@.params,
            session.taken() == keys_in(session.done()),
            session.done() == Set::<Group>::empty(),
    {
        proof {
            lemma_residue_of_none(tree@.params);
            lemma_keys_in_bounds();
        }
        Session {
            tree,
            source: Ghost(tree@.params),
            taken: Ghost(Set::empty()),
            done: Ghost(Set::empty()),
        }
    }

    /// Notes that `group` has been read in full, once all its keys have
    /// been taken.
    pub fn finish(&mut self, Ghost(group): Ghost<Group>)
        requires
            old(self).well_formed(),
            old(self).taken() == keys_in(old(self).done()).union(keys_of(group)),
        ensures
            final(self).follows(*old(self), group),
    {
        proof {
            lemma_keys_in_grows(self.done@, group);
        }
        self.done = Ghost(self.done@.insert(group));
    }

    /// Takes the parameter of `key` and returns its number, or `default`
    /// where it has none.
    pub fn number(&mut self, key: ParamKey, default: Number) -> (r: Number)
        requires
            old(self).well_formed(),
            !old(self).taken().contains(key),
        ensures
            final(self).took(*old(self), key),
            r == number_at(old(self).source(), key, default),
    {
        proof {
            lemma_residue_keeps(self.source@, self.taken@, key);
            lemma_residue_takes(self.source@, self.taken@, key);
        }
        let r = self.tree.remove_or(key.id(), default);
        self.taken = Ghost(self.taken@.insert(key));
        r
    }

    /// Takes the parameter of `key` and returns its number, if it has one.
    pub fn number_if_any(&mut self, key: ParamKey) -> (r: Option<Number>)
        requires
            old(self).well_formed(),
            !old(self).taken().contains(key),
        ensures
            final(self).took(*old(self), key),
            r == number_if_at(old(self).source(), key),
    {
        proof {
            lemma_residue_keeps(self.source@, self.taken@, key);
            lemma_residue_takes(self.source@, self.taken@, key);
        }
        let found = self.tree.remove(key.id());
        self.taken = Ghost(self.taken@.insert(key));
        match found {
            Some(param) => param.value_into(),
            None => None,
        }
    }

    /// Takes the parameter of `key` and reads it as a switch, or returns
    /// `default` where it has no number.
    pub fn switch(&mut self, key: ParamKey, default: bool) -> (r: bool)
        requires
            old(self).well_formed(),
            !old(self).taken().contains(key),
        ensures
            final(self).took(*old(self), key),
            r == switch_at(old(self).source(), key, default),
    {
        proof {
            lemma_residue_keeps(self.source@, self.taken@, key);
            lemma_residue_takes(self.source@, self.taken@, key);
        }
        let r = self.tree.remove_bool_or(key.id(), default);
        self.taken = Ghost(self.taken@.insert(key));
        r
    }

    /// Takes the parameter of `key` and reads it as an unsigned integer, or
    /// returns `default` where it has no number.
    pub fn unsigned(&mut self, key: ParamKey, default: u32) -> (r: u32)
        requires
            old(self).well_formed(),
            !old(self).taken().contains(key),
        ensures
            final(self).took(*old(self), key),
            r == u32_at(old(self).source(), key, default),
    {
        proof {
            lemma_residue_keeps(self.source@, self.taken@, key);
            lemma_residue_takes(self.source@, self.taken@, key);
        }
        let r = self.tree.remove_u32_or(key.id(), default);
        self.taken = Ghost(self.taken@.insert(key));
        r
    }

    /// Takes the parameter of `key` and reads it as a signed integer, or
    /// returns `default` where it has no number.
    pub fn signed(&mut self, key: ParamKey, default: i32) -> (r: i32)
        requires
            old(self).well_formed(),
            !old(self).taken().contains(key),
        ensures
            final(self).took(*old(self), key),
            r == i32_at(old(self).source(), key, default),
    {
        proof {
            lemma_residue_keeps(self.source@, self.taken@, key);
            lemma_residue_takes(self.source@, self.taken@, key);
        }
        let r = self.tree.remove_i32_or(key.id(), default);
        self.taken = Ghost(self.taken@.insert(key));
        r
    }

    /// Ends the session and hands out the parameters that are left.
    pub fn close(self) -> (left: Vec<Param>)
        requires
            self.well_formed(),
        ensures
            views(left@) == residue(self.source(), self.taken()),
    {
        self.tree.params
    }
}

} // verus!
