//! The parser of command line options of the form
//! `value,key=value,key=value`.

use crate::config::error::{ConfigError, ConfigErrorView};
use crate::config::text::{find_char, find_from, number_value, parse_number, text_eq};
use vstd::prelude::*;
use vstd::string::StrSliceExecFns;

verus! {

/// A parameter that an option may have, and its value once it was given.
#[derive(Clone, Debug)]
pub struct Param {
    pub key: String,
    pub value: Option<String>,
}

/// A `Param` with its texts as sequences.
pub struct ParamView {
    pub key: Seq<char>,
    pub value: Option<Seq<char>>,
}

impl View for Param {
    type V = ParamView;

    open spec fn view(&self) -> ParamView {
        ParamView {
            key: self.key@,
            value: match self.value {
                Some(v) => Some(v@),
                None => None,
            },
        }
    }
}

/// The parser of one option.
#[derive(Clone, Debug)]
pub struct CmdParser {
    /// Name of the option, for messages.
    pub name: String,
    /// The parameters that the option may have, in the order in which they
    /// were made known.
    pub params: Vec<Param>,
}

/// The parameters with their texts as sequences.
pub open spec fn views(params: Seq<Param>) -> Seq<ParamView> {
    params.map_values(|p: Param| p@)
}

/// Index of the first parameter named `key` at or behind `from`, or the
/// number of parameters where there is none.
pub open spec fn key_index(ps: Seq<ParamView>, key: Seq<char>, from: int) -> int
    decreases ps.len() - from,
{
    if from >= ps.len() {
        ps.len() as int
    } else if ps[from].key == key {
        from
    } else {
        key_index(ps, key, from + 1)
    }
}

/// What `key_index` finds lies between `from` and the end and is named
/// `key` unless it is the end.
pub proof fn lemma_key_index(ps: Seq<ParamView>, key: Seq<char>, from: int)
    requires
        0 <= from <= ps.len(),
    ensures
        from <= key_index(ps, key, from) <= ps.len(),
        key_index(ps, key, from) < ps.len() ==> ps[key_index(ps, key, from)].key == key,
        forall|i: int| from <= i < key_index(ps, key, from) ==> ps[i].key != key,
    decreases ps.len() - from,
{
    if from < ps.len() && ps[from].key != key {
        lemma_key_index(ps, key, from + 1);
    }
}

/// The parameters after `key` was made known: a parameter of that name
/// loses its value, else there is a new one.
pub open spec fn pushed(ps: Seq<ParamView>, key: Seq<char>) -> Seq<ParamView> {
    let i = key_index(ps, key, 0);
    if i < ps.len() {
        ps.update(i, ParamView { key, value: None })
    } else {
        ps.push(ParamView { key, value: None })
    }
}

/// The value that was given for `key`, if the parameter is known and has
/// one.
pub open spec fn raw_value(ps: Seq<ParamView>, key: Seq<char>) -> Option<Seq<char>> {
    let i = key_index(ps, key, 0);
    if i < ps.len() {
        ps[i].value
    } else {
        None
    }
}

/// The key of an item `key=value`, which is taken apart at its first `=`.
/// An item without `=` is a value without a key where it is the first item
/// of the option, and a key with an empty value where it is not.
pub open spec fn item_key(item: Seq<char>, first: bool) -> Seq<char> {
    let eq = find_from(item, '=', 0);
    if eq < item.len() {
        item.subrange(0, eq)
    } else if first {
        Seq::<char>::empty()
    } else {
        item
    }
}

/// The value of an item `key=value`.
pub open spec fn item_value(item: Seq<char>, first: bool) -> Seq<char> {
    let eq = find_from(item, '=', 0);
    if eq < item.len() {
        item.subrange(eq + 1, item.len() as int)
    } else if first {
        item
    } else {
        Seq::<char>::empty()
    }
}

/// What stands before the first `=` of an item, or all of it.
pub open spec fn item_head(item: Seq<char>) -> Seq<char> {
    item.subrange(0, find_from(item, '=', 0))
}

/// The parameters after one item was taken in. An item that begins or ends
/// with `=` is refused, a parameter that has its value already is refused,
/// and a parameter that is not known is refused where `strict` and passed
/// over where not.
pub open spec fn item_taken(
    ps: Seq<ParamView>,
    name: Seq<char>,
    item: Seq<char>,
    first: bool,
    strict: bool,
) -> Result<Seq<ParamView>, ConfigErrorView> {
    let key = item_key(item, first);
    let i = key_index(ps, key, 0);
    if item.len() > 0 && (item[0] == '=' || item.last() == '=') {
        Err(ConfigErrorView::InvalidParam(item, name))
    } else if i < ps.len() {
        if ps[i].value is None {
            Ok(ps.update(i, ParamView { key: ps[i].key, value: Some(item_value(item, first)) }))
        } else {
            Err(ConfigErrorView::FieldRepeat(name, key))
        }
    } else if strict {
        Err(ConfigErrorView::InvalidParam(item_head(item), name))
    } else {
        Ok(ps)
    }
}

/// The parameters after the items of `s` from `start` on were taken in,
/// one after the other; the items are parted by commas.
pub open spec fn items_taken(
    ps: Seq<ParamView>,
    name: Seq<char>,
    s: Seq<char>,
    start: int,
    strict: bool,
) -> Result<Seq<ParamView>, ConfigErrorView>
    decreases s.len() - start,
{
    let end = find_from(s, ',', start);
    if start < 0 || start > s.len() || end < start {
        Ok(ps)
    } else {
        match item_taken(ps, name, s.subrange(start, end), start == 0, strict) {
            Err(e) => Err(e),
            Ok(next) => if end >= s.len() {
                Ok(next)
            } else {
                items_taken(next, name, s, end + 1, strict)
            },
        }
    }
}

/// The parameters after the option `s` was parsed. An option that begins
/// or ends with a comma is refused.
pub open spec fn parsed(ps: Seq<ParamView>, name: Seq<char>, s: Seq<char>, strict: bool) -> Result<
    Seq<ParamView>,
    ConfigErrorView,
> {
    if s.len() > 0 && (s[0] == ',' || s.last() == ',') {
        Err(ConfigErrorView::InvalidParam(s, name))
    } else {
        items_taken(ps, name, s, 0, strict)
    }
}

/// The name under which a parameter is reported: its own, or that of the
/// option for the value without a key.
pub open spec fn field_name(name: Seq<char>, key: Seq<char>) -> Seq<char> {
    if key.len() == 0 {
        name
    } else {
        key
    }
}

/// The number given for `key`: none where the parameter has no value, and
/// a refusal where the value is no decimal number of `max` at most.
pub open spec fn number_given(ps: Seq<ParamView>, name: Seq<char>, key: Seq<char>, max: nat)
    -> Result<Option<nat>, ConfigErrorView> {
    match raw_value(ps, key) {
        None => Ok(None),
        Some(raw) => match number_value(raw, 10, max) {
            Some(n) => Ok(Some(n)),
            None => Err(ConfigErrorView::ConvertValueFailed(field_name(name, key), raw)),
        },
    }
}

/// The switch given for `key`: `on` or `off`.
pub open spec fn switch_given(ps: Seq<ParamView>, name: Seq<char>, key: Seq<char>) -> Result<
    Option<bool>,
    ConfigErrorView,
> {
    match raw_value(ps, key) {
        None => Ok(None),
        Some(raw) => if raw == "on"@ {
            Ok(Some(true))
        } else if raw == "off"@ {
            Ok(Some(false))
        } else {
            Err(ConfigErrorView::ConvertValueFailed(field_name(name, key), raw))
        },
    }
}

fn copy_of(value: &Option<String>) -> (r: Option<String>)
    ensures
        r == *value,
{
    match value {
        Some(v) => Some(v.clone()),
        None => None,
    }
}

impl CmdParser {
    /// The parameters with their texts as sequences.
    pub open spec fn spec_params(&self) -> Seq<ParamView> {
        views(self.params@)
    }

    /// A parser for the option `name` that knows no parameter yet.
    pub fn new(name: &str) -> (parser: CmdParser)
        ensures
            parser.name@ == name@,
            parser.spec_params() == Seq::<ParamView>::empty(),
    {
        let parser = CmdParser { name: name.to_owned(), params: Vec::new() };
        assert(parser.spec_params() =~= Seq::<ParamView>::empty());
        parser
    }

    fn find_key(&self, key: &str) -> (i: usize)
        ensures
            i == key_index(self.spec_params(), key@, 0),
            i <= self.params@.len(),
            i < self.params@.len() ==> self.params@[i as int].key@ == key@,
    {
        let mut i: usize = 0;
        proof {
            lemma_key_index(self.spec_params(), key@, 0);
        }
        while i < self.params.len() && !text_eq(self.params[i].key.as_str(), key)
            invariant
                i <= self.params@.len(),
                key_index(self.spec_params(), key@, 0) == key_index(
                    self.spec_params(),
                    key@,
                    i as int,
                ),
            decreases self.params@.len() - i,
        {
            i = i + 1;
        }
        i
    }

    /// Makes the parameter `param_field` known. The empty name stands for
    /// the value without a key that an option may begin with.
    pub fn push(&mut self, param_field: &str)
        ensures
            final(self).name == old(self).name,
            final(self).spec_params() == pushed(old(self).spec_params(), param_field@),
    {
        let i: usize = self.find_key(param_field);
        let param = Param { key: param_field.to_owned(), value: None };
        if i < self.params.len() {
            self.params[i] = param;
            assert(self.spec_params() =~= pushed(old(self).spec_params(), param_field@));
        } else {
            self.params.push(param);
            assert(self.spec_params() =~= pushed(old(self).spec_params(), param_field@));
        }
    }

    fn take_item(&mut self, item: &str, first: bool, strict: bool) -> (r: Result<(), ConfigError>)
        ensures
            final(self).name == old(self).name,
            match item_taken(old(self).spec_params(), old(self).name@, item@, first, strict) {
                Ok(ps) => r is Ok && final(self).spec_params() == ps,
                Err(e) => r is Err && r->Err_0@ == e && final(self).spec_params() == old(
                    self,
                ).spec_params(),
            },
    {
        let len: usize = item.unicode_len();
        if len > 0 && (item.get_char(0) == '=' || item.get_char(len - 1) == '=') {
            return Err(ConfigError::InvalidParam(item.to_owned(), self.name.clone()));
        }
        let eq: usize = find_char(item, '=', 0);
        let key: &str = if eq < len {
            item.substring_char(0, eq)
        } else if first {
            ""
        } else {
            item
        };
        let value: &str = if eq < len {
            item.substring_char(eq + 1, len)
        } else if first {
            item
        } else {
            ""
        };
        proof {
            reveal_strlit("");
            assert(""@ =~= Seq::<char>::empty());
            assert(key@ == item_key(item@, first));
            assert(value@ == item_value(item@, first));
        }
        let i: usize = self.find_key(key);
        if i < self.params.len() {
            if self.params[i].value.is_none() {
                let known: String = self.params[i].key.clone();
                self.params[i] = Param { key: known, value: Some(value.to_owned()) };
                assert(self.spec_params() =~= old(self).spec_params().update(
                    i as int,
                    ParamView { key: old(self).spec_params()[i as int].key, value: Some(value@) },
                ));
                Ok(())
            } else {
                Err(ConfigError::FieldRepeat(self.name.clone(), key.to_owned()))
            }
        } else if strict {
            Err(ConfigError::InvalidParam(item.substring_char(0, eq).to_owned(), self.name.clone()))
        } else {
            Ok(())
        }
    }

    fn take_items(&mut self, cmd_param: &str, strict: bool) -> (r: Result<(), ConfigError>)
        ensures
            final(self).name == old(self).name,
            match parsed(old(self).spec_params(), old(self).name@, cmd_param@, strict) {
                Ok(ps) => r is Ok && final(self).spec_params() == ps,
                Err(e) => r is Err && r->Err_0@ == e,
            },
    {
        let len: usize = cmd_param.unicode_len();
        if len > 0 && (cmd_param.get_char(0) == ',' || cmd_param.get_char(len - 1) == ',') {
            return Err(ConfigError::InvalidParam(cmd_param.to_owned(), self.name.clone()));
        }
        let mut start: usize = 0;
        loop
            invariant
                start <= len,
                len == cmd_param@.len(),
                self.name == old(self).name,
                parsed(old(self).spec_params(), old(self).name@, cmd_param@, strict) == items_taken(
                    self.spec_params(),
                    self.name@,
                    cmd_param@,
                    start as int,
                    strict,
                ),
            decreases len - start,
        {
            let end: usize = find_char(cmd_param, ',', start);
            let first: bool = start == 0;
            match self.take_item(cmd_param.substring_char(start, end), first, strict) {
                Err(e) => {
                    return Err(e);
                },
                Ok(()) => {},
            }
            if end >= len {
                return Ok(());
            }
            start = end + 1;
        }
    }

    /// Parses the option `cmd_param`: every item gives the parameter that
    /// it names its value. A parameter that is not known is refused.
    pub fn parse(&mut self, cmd_param: &str) -> (r: Result<(), ConfigError>)
        ensures
            final(self).name == old(self).name,
            match parsed(old(self).spec_params(), old(self).name@, cmd_param@, true) {
                Ok(ps) => r is Ok && final(self).spec_params() == ps,
                Err(e) => r is Err && r->Err_0@ == e,
            },
    {
        self.take_items(cmd_param, true)
    }

    /// Parses the option `cmd_param` as `parse` does, but passes over the
    /// parameters that are not known.
    pub fn get_parameters(&mut self, cmd_param: &str) -> (r: Result<(), ConfigError>)
        ensures
            final(self).name == old(self).name,
            match parsed(old(self).spec_params(), old(self).name@, cmd_param@, false) {
                Ok(ps) => r is Ok && final(self).spec_params() == ps,
                Err(e) => r is Err && r->Err_0@ == e,
            },
    {
        self.take_items(cmd_param, false)
    }

    /// The text given for `param_field`, if any.
    pub fn get_value_string(&self, param_field: &str) -> (r: Option<String>)
        ensures
            match r {
                Some(s) => raw_value(self.spec_params(), param_field@) == Some(s@),
                None => raw_value(self.spec_params(), param_field@) is None,
            },
    {
        let i: usize = self.find_key(param_field);
        if i < self.params.len() {
            copy_of(&self.params[i].value)
        } else {
            None
        }
    }

    fn field_msg(&self, param_field: &str) -> (r: String)
        ensures
            r@ == field_name(self.name@, param_field@),
    {
        if param_field.unicode_len() == 0 {
            self.name.clone()
        } else {
            param_field.to_owned()
        }
    }

    /// The decimal number given for `param_field`, `max` at most.
    pub fn get_value_number(&self, param_field: &str, max: u64) -> (r: Result<
        Option<u64>,
        ConfigError,
    >)
        ensures
            match number_given(self.spec_params(), self.name@, param_field@, max as nat) {
                Ok(Some(n)) => r == Ok::<Option<u64>, ConfigError>(Some(n as u64)),
                Ok(None) => r == Ok::<Option<u64>, ConfigError>(None),
                Err(e) => r is Err && r->Err_0@ == e,
            },
    {
        match self.get_value_string(param_field) {
            None => Ok(None),
            Some(raw) => match parse_number(raw.as_str(), 10, max) {
                Some(n) => Ok(Some(n)),
                None => Err(ConfigError::ConvertValueFailed(self.field_msg(param_field), raw)),
            },
        }
    }

    /// The switch given for `param_field`: true for `on`, false for `off`.
    pub fn get_value_switch(&self, param_field: &str) -> (r: Result<Option<bool>, ConfigError>)
        ensures
            match switch_given(self.spec_params(), self.name@, param_field@) {
                Ok(b) => r == Ok::<Option<bool>, ConfigError>(b),
                Err(e) => r is Err && r->Err_0@ == e,
            },
    {
        match self.get_value_string(param_field) {
            None => Ok(None),
            Some(raw) => {
                if text_eq(raw.as_str(), "on") {
                    Ok(Some(true))
                } else if text_eq(raw.as_str(), "off") {
                    Ok(Some(false))
                } else {
                    Err(ConfigError::ConvertValueFailed(self.field_msg(param_field), raw))
                }
            },
        }
    }
}

} // verus!
