//! The raw parameters of a preset and the bag that holds them.
//!
//! A preset file is a flat list of parameters, each an identifier with an
//! optional piece of text. Reading a preset takes the parameters out of the
//! bag one identifier at a time; what is left at the end is what the reader
//! did not recognise.

use crate::model::{Ratio, Time};
use crate::number::{number_of_text, Number};
use vstd::prelude::*;

verus! {

/// One parameter as the file holds it.
#[derive(Debug)]
pub struct Param {
    pub id: String,
    pub value: Option<String>,
}

/// What a [`Param`] holds, as plain text.
pub struct ParamView {
    pub id: Seq<char>,
    pub value: Option<Seq<char>>,
}

impl View for Param {
    type V = ParamView;

    open spec fn view(&self) -> ParamView {
        ParamView {
            id: self.id@,
            value: match self.value {
                Some(text) => Some(text@),
                None => None,
            },
        }
    }
}

/// The number that a parameter's text denotes: none if there is no text, or
/// if the text is not numeric.
pub open spec fn number_of(value: Option<Seq<char>>) -> Option<Number> {
    match value {
        Some(text) => number_of_text(text),
        None => None,
    }
}

/// The number of a parameter, or `default` where it has none.
pub open spec fn number_or(value: Option<Seq<char>>, default: Number) -> Number {
    match number_of(value) {
        Some(number) => number,
        None => default,
    }
}

/// The switch that a parameter stands for, or `default` where it has no
/// number.
pub open spec fn switch_or(value: Option<Seq<char>>, default: bool) -> bool {
    match number_of(value) {
        Some(number) => number.as_switch(),
        None => default,
    }
}

/// The unsigned integer of a parameter, or `default` where it has no number.
pub open spec fn u32_or(value: Option<Seq<char>>, default: u32) -> u32 {
    match number_of(value) {
        Some(number) => number.as_u32(),
        None => default,
    }
}

/// The signed integer of a parameter, or `default` where it has no number.
pub open spec fn i32_or(value: Option<Seq<char>>, default: i32) -> i32 {
    match number_of(value) {
        Some(number) => number.as_i32(),
        None => default,
    }
}

impl Param {
    /// The number that the parameter's text denotes.
    pub fn value_into(&self) -> (r: Option<Number>)
        ensures
            r == number_of(self@.value),
    {
        match &self.value {
            Some(text) => Number::parse(text.as_str()),
            None => None,
        }
    }

    /// The parameter read as a switch: on if its number lies within one
    /// ten-millionth of one.
    pub fn value_bool(&self) -> (r: Option<bool>)
        ensures
            r == match number_of(self@.value) {
                Some(number) => Some(number.as_switch()),
                None => None,
            },
    {
        match self.value_into() {
            Some(number) => Some(number.is_one()),
            None => None,
        }
    }

    /// The parameter read as a signed integer: its number cut off toward
    /// zero.
    pub fn value_i32(&self) -> (r: Option<i32>)
        ensures
            r == match number_of(self@.value) {
                Some(number) => Some(number.as_i32()),
                None => None,
            },
    {
        match self.value_into() {
            Some(number) => Some(number.to_i32()),
            None => None,
        }
    }

    /// The parameter read as an unsigned integer: its number cut off toward
    /// zero.
    pub fn value_u32(&self) -> (r: Option<u32>)
        ensures
            r == match number_of(self@.value) {
                Some(number) => Some(number.as_u32()),
                None => None,
            },
    {
        match self.value_into() {
            Some(number) => Some(number.to_u32()),
            None => None,
        }
    }
}

/// The views of a list of parameters.
pub open spec fn views(params: Seq<Param>) -> Seq<ParamView> {
    params.map_values(|param: Param| param@)
}

/// Where the first parameter named `id` stands in the list, or the list's
/// length if none is so named.
pub open spec fn first_index(params: Seq<ParamView>, id: Seq<char>) -> int
    decreases params.len(),
{
    if params.len() == 0 {
        0
    } else if params[0].id == id {
        0
    } else {
        1 + first_index(params.drop_first(), id)
    }
}

/// The first parameter named `id`, if there is one.
pub open spec fn first_named(params: Seq<ParamView>, id: Seq<char>) -> Option<ParamView> {
    if first_index(params, id) < params.len() {
        Some(params[first_index(params, id)])
    } else {
        None
    }
}

/// The text of the first parameter named `id`: none if there is no such
/// parameter, or if it has no text.
pub open spec fn raw_text(params: Seq<ParamView>, id: Seq<char>) -> Option<Seq<char>> {
    match first_named(params, id) {
        Some(param) => param.value,
        None => None,
    }
}

/// The list without the first parameter named `id`.
pub open spec fn without(params: Seq<ParamView>, id: Seq<char>) -> Seq<ParamView> {
    if first_index(params, id) < params.len() {
        params.remove(first_index(params, id))
    } else {
        params
    }
}

/// The first index is in range, names `id` if it is inside the list, and no
/// parameter before it does.
pub proof fn lemma_first_index(params: Seq<ParamView>, id: Seq<char>)
    ensures
        0 <= first_index(params, id) <= params.len(),
        first_index(params, id) < params.len() ==> params[first_index(params, id)].id == id,
        forall|i: int| 0 <= i < first_index(params, id) ==> (#[trigger] params[i]).id != id,
    decreases params.len(),
{
    if params.len() > 0 && params[0].id != id {
        let rest = params.drop_first();
        lemma_first_index(rest, id);
        assert forall|i: int| 0 <= i < first_index(params, id) implies (#[trigger] params[i]).id
            != id by {
            if i > 0 {
                assert(params[i] == rest[i - 1]);
            }
        }
    }
}

/// An index that names `id` with none before it doing so is the first index.
pub proof fn lemma_first_index_is(params: Seq<ParamView>, id: Seq<char>, at: int)
    requires
        0 <= at <= params.len(),
        at < params.len() ==> params[at].id == id,
        forall|i: int| 0 <= i < at ==> (#[trigger] params[i]).id != id,
    ensures
        first_index(params, id) == at,
{
    lemma_first_index(params, id);
    let first = first_index(params, id);
    if first < at {
        assert(params[first].id != id);
    }
}

/// The structural fields of a preset file and its list of parameters.
#[derive(Debug)]
pub struct PluginParamTree {
    pub scale: u32,
    pub custom_scale: u32,
    pub root_key: u32,
    pub preset_id: Option<i32>,
    pub preset_folder: Option<u32>,
    pub preset_name: String,
    pub preset_info: String,
    pub fx_order0: Option<u32>,
    pub fx_order1: Option<u32>,
    pub fx_order2: Option<u32>,
    pub fx_order3: Option<u32>,
    pub fx_order4: Option<u32>,
    pub fx_order5: Option<u32>,
    pub fx_order6: Option<u32>,
    pub params: Vec<Param>,
}

/// What a [`PluginParamTree`] holds, as plain values.
pub struct TreeView {
    pub scale: u32,
    pub custom_scale: u32,
    pub root_key: u32,
    pub preset_id: Option<i32>,
    pub preset_folder: Option<u32>,
    pub preset_name: Seq<char>,
    pub preset_info: Seq<char>,
    pub fx_order: Seq<Option<u32>>,
    pub params: Seq<ParamView>,
}

impl View for PluginParamTree {
    type V = TreeView;

    open spec fn view(&self) -> TreeView {
        TreeView {
            scale: self.scale,
            custom_scale: self.custom_scale,
            root_key: self.root_key,
            preset_id: self.preset_id,
            preset_folder: self.preset_folder,
            preset_name: self.preset_name@,
            preset_info: self.preset_info@,
            fx_order: seq![
                self.fx_order0,
                self.fx_order1,
                self.fx_order2,
                self.fx_order3,
                self.fx_order4,
                self.fx_order5,
                self.fx_order6,
            ],
            params: views(self.params@),
        }
    }
}

impl TreeView {
    /// The same tree with another list of parameters.
    pub open spec fn with_params(self, params: Seq<ParamView>) -> TreeView {
        TreeView { params, ..self }
    }
}

impl PluginParamTree {
    /// Takes the first parameter named `id` out of the bag and returns it.
    /// Where no parameter is so named the bag stays as it is.
    pub fn remove(&mut self, id: &str) -> (r: Option<Param>)
        ensures
            final(self)@ == old(self)@.with_params(without(old(self)@.params, id@)),
            match r {
                Some(param) => first_named(old(self)@.params, id@) == Some(param@),
                None => first_named(old(self)@.params, id@) is None,
            },
    {
        let wanted: String = id.to_owned();
        let ghost before = self@.params;
        let mut index: usize = 0;
        while index < self.params.len()
            invariant
                index <= self.params.len(),
                *self == *old(self),
                before == views(self.params@),
                wanted@ == id@,
                forall|i: int| 0 <= i < index ==> (#[trigger] before[i]).id != id@,
            decreases self.params.len() - index,
        {
            if self.params[index].id == wanted {
                proof {
                    lemma_first_index_is(before, id@, index as int);
                }
                let param = self.params.remove(index);
                assert(views(self.params@) =~= before.remove(index as int));
                assert(self@ == old(self)@.with_params(without(before, id@)));
                return Some(param);
            }
            index = index + 1;
        }
        proof {
            lemma_first_index_is(before, id@, index as int);
        }
        None
    }

    /// Takes the first parameter named `id` out of the bag and returns its
    /// number, or `default` where the bag has no such parameter or the
    /// parameter has no number.
    pub fn remove_or(&mut self, id: &str, default: Number) -> (r: Number)
        ensures
            final(self)@ == old(self)@.with_params(without(old(self)@.params, id@)),
            r == number_or(raw_text(old(self)@.params, id@), default),
    {
        match self.remove(id) {
            Some(param) => match param.value_into() {
                Some(number) => number,
                None => default,
            },
            None => default,
        }
    }

    /// Takes the first parameter named `id` out of the bag and reads it as a
    /// switch, or returns `default` where the bag has no such parameter or
    /// the parameter has no number.
    pub fn remove_bool_or(&mut self, id: &str, default: bool) -> (r: bool)
        ensures
            final(self)@ == old(self)@.with_params(without(old(self)@.params, id@)),
            r == switch_or(raw_text(old(self)@.params, id@), default),
    {
        match self.remove(id) {
            Some(param) => match param.value_bool() {
                Some(on) => on,
                None => default,
            },
            None => default,
        }
    }

    /// Takes the first parameter named `id` out of the bag and reads its
    /// number as a time in milliseconds, or returns `default` milliseconds
    /// where the bag has no such parameter or the parameter has no number.
    pub fn remove_milliseconds_or(&mut self, id: &str, default: Number) -> (r: Time)
        ensures
            final(self)@ == old(self)@.with_params(without(old(self)@.params, id@)),
            r == (Time { milliseconds: number_or(raw_text(old(self)@.params, id@), default) }),
    {
        Time { milliseconds: self.remove_or(id, default) }
    }

    /// Takes the first parameter named `id` out of the bag and reads its
    /// number as a ratio in percent, or returns `default` percent where the
    /// bag has no such parameter or the parameter has no number.
    pub fn remove_percent_or(&mut self, id: &str, default: Number) -> (r: Ratio)
        ensures
            final(self)@ == old(self)@.with_params(without(old(self)@.params, id@)),
            r == (Ratio { percent: number_or(raw_text(old(self)@.params, id@), default) }),
    {
        Ratio { percent: self.remove_or(id, default) }
    }

    /// Takes the first parameter named `id` out of the bag and reads it as
    /// an unsigned integer, or returns `default` where the bag has no such
    /// parameter or the parameter has no number.
    pub fn remove_u32_or(&mut self, id: &str, default: u32) -> (r: u32)
        ensures
            final(self)@ == old(self)@.with_params(without(old(self)@.params, id@)),
            r == u32_or(raw_text(old(self)@.params, id@), default),
    {
        match self.remove(id) {
            Some(param) => match param.value_u32() {
                Some(number) => number,
                None => default,
            },
            None => default,
        }
    }

    /// Takes the first parameter named `id` out of the bag and reads it as a
    /// signed integer, or returns `default` where the bag has no such
    /// parameter or the parameter has no number.
    pub fn remove_i32_or(&mut self, id: &str, default: i32) -> (r: i32)
        ensures
            final(self)@ == old(self)@.with_params(without(old(self)@.params, id@)),
            r == i32_or(raw_text(old(self)@.params, id@), default),
    {
        match self.remove(id) {
            Some(param) => match param.value_i32() {
                Some(number) => number,
                None => default,
            },
            None => default,
        }
    }
}

} // verus!
