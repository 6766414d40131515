//! # Connection settings
//!
//! The network manager describes a connection by a two level dictionary: sections
//! ("connection", "802-11-wireless", ...) holding keys with typed values. This module
//! models such dictionaries with plain values; the bus layer converts them.

use vstd::prelude::*;
use crate::text::str_eq;

verus! {

/// One address entry of an "address-data" list.
#[derive(Debug, PartialEq)]
pub struct AddressEntry {
    pub address: String,
    pub prefix: u32,
}

/// A typed setting value.
#[derive(Debug, PartialEq)]
pub enum SettingValue {
    Str(String),
    Bytes(Vec<u8>),
    Bool(bool),
    Byte(u8),
    UInt(u32),
    StrList(Vec<String>),
    UIntList(Vec<u32>),
    Addresses(Vec<AddressEntry>),
}

/// The mathematical value of a setting.
pub enum ValueView {
    Str(Seq<char>),
    Bytes(Seq<u8>),
    Bool(bool),
    Byte(u8),
    UInt(u32),
    StrList(Seq<Seq<char>>),
    UIntList(Seq<u32>),
    Addresses(Seq<(Seq<char>, u32)>),
}

impl View for SettingValue {
    type V = ValueView;

    open spec fn view(&self) -> ValueView {
        match self {
            SettingValue::Str(s) => ValueView::Str(s@),
            SettingValue::Bytes(b) => ValueView::Bytes(b@),
            SettingValue::Bool(b) => ValueView::Bool(*b),
            SettingValue::Byte(b) => ValueView::Byte(*b),
            SettingValue::UInt(u) => ValueView::UInt(*u),
            SettingValue::StrList(l) => ValueView::StrList(l@.map_values(|s: String| s@)),
            SettingValue::UIntList(l) => ValueView::UIntList(l@),
            SettingValue::Addresses(l) => ValueView::Addresses(
                l@.map_values(|a: AddressEntry| (a.address@, a.prefix)),
            ),
        }
    }
}

/// The map that a list of (key, value) entries denotes: a later entry for a key
/// replaces an earlier one.
pub open spec fn entries_map<V: View>(e: Seq<(String, V)>) -> Map<Seq<char>, V::V>
    decreases e.len(),
{
    if e.len() == 0 {
        Map::empty()
    } else {
        entries_map(e.drop_last()).insert(e.last().0@, e.last().1@)
    }
}

/// The map of a list of entries has finitely many keys.
proof fn lemma_entries_map_finite<V: View>(e: Seq<(String, V)>)
    ensures
        entries_map(e).dom().finite(),
    decreases e.len(),
{
    if e.len() > 0 {
        lemma_entries_map_finite(e.drop_last());
    }
}

/// A dictionary keyed by strings.
#[derive(Debug, PartialEq)]
pub struct Dict<V> {
    entries: Vec<(String, V)>,
}

/// A section of settings: keys to setting values.
pub type VariantMap = Dict<SettingValue>;

/// All sections of a connection's settings.
pub type SettingsMap = Dict<Dict<SettingValue>>;

impl<V: View> View for Dict<V> {
    type V = Map<Seq<char>, V::V>;

    closed spec fn view(&self) -> Map<Seq<char>, V::V> {
        entries_map(self.entries@)
    }
}

/// A dictionary holds finitely many keys.
pub proof fn lemma_dict_finite<V: View>(d: &Dict<V>)
    ensures
        d@.dom().finite(),
{
    lemma_entries_map_finite(d.entries@);
}

impl<V: View> Dict<V> {
    /// An empty dictionary.
    pub fn new() -> (r: Self)
        ensures
            r@ == Map::<Seq<char>, V::V>::empty(),
            r@.dom().finite(),
    {
        Dict { entries: Vec::new() }
    }

    /// Sets `key` to `value`, replacing an earlier value.
    pub fn insert(&mut self, key: String, value: V)
        ensures
            final(self)@ == old(self)@.insert(key@, value@),
            final(self)@.dom().finite(),
            final(self)@.len() == old(self)@.len() + if old(self)@.contains_key(key@) { 0int } else { 1int },
    {
        let ghost k = key@;
        let ghost v = value@;
        proof {
            lemma_entries_map_finite(self.entries@);
        }
        self.entries.push((key, value));
        proof {
            assert(self.entries@.drop_last() =~= old(self).entries@);
            lemma_entries_map_finite(self.entries@);
        }
    }

    /// The value stored for `key`, if any.
    pub fn get(&self, key: &str) -> (r: Option<&V>)
        ensures
            match r {
                Some(v) => self@.contains_key(key@) && self@[key@] == v@,
                None => !self@.contains_key(key@),
            },
    {
        let ghost e = self.entries@;
        let mut i = self.entries.len();
        assert(e.take(i as int) =~= e);
        while i > 0
            invariant
                e == self.entries@,
                i <= e.len(),
                entries_map(e).contains_key(key@) == entries_map(e.take(i as int)).contains_key(key@),
                entries_map(e).contains_key(key@) ==> entries_map(e)[key@] == entries_map(e.take(i as int))[key@],
            decreases i,
        {
            let ghost t = e.take(i as int);
            assert(t.drop_last() =~= e.take(i - 1));
            assert(t.last() == e[i - 1]);
            if str_eq(self.entries[i - 1].0.as_str(), key) {
                return Some(&self.entries[i - 1].1);
            }
            i = i - 1;
        }
        None
    }

    /// The raw entries, in the order they were written; a later entry for a key replaces
    /// an earlier one.
    pub fn entries(&self) -> (r: &Vec<(String, V)>)
        ensures
            entries_map(r@) == self@,
    {
        &self.entries
    }
}

/// A string setting value.
pub fn str_value(s: &str) -> (r: SettingValue)
    ensures
        r@ == ValueView::Str(s@),
{
    SettingValue::Str(crate::text::owned(s))
}

} // verus!
