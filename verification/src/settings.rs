//! The extension's key/value settings, held in a concurrent `DashMap`.
use vstd::prelude::*;
use dashmap::DashMap;
use crate::text::same_text;

verus! {

/// A value that Arma hands to the extension, held as plain data: a number is
/// kept by the bits of its IEEE 754 double.
#[derive(Debug)]
pub enum SettingValue {
    Null,
    Number(u64),
    Array(Vec<SettingValue>),
    Boolean(bool),
    String(String),
    Unknown(String),
}

/// The mathematical content of a value: strings by their characters.
pub enum ValueModel {
    Null,
    Number(u64),
    Array(Seq<ValueModel>),
    Boolean(bool),
    String(Seq<char>),
    Unknown(Seq<char>),
}

/// The content of a value.
pub open spec fn value_model(v: SettingValue) -> ValueModel
    decreases v,
{
    match v {
        SettingValue::Null => ValueModel::Null,
        SettingValue::Number(n) => ValueModel::Number(n),
        SettingValue::Array(items) => ValueModel::Array(
            Seq::new(
                items@.len(),
                |i: int|
                    if 0 <= i < items@.len() {
                        value_model(items@[i])
                    } else {
                        ValueModel::Null
                    },
            ),
        ),
        SettingValue::Boolean(b) => ValueModel::Boolean(b),
        SettingValue::String(s) => ValueModel::String(s@),
        SettingValue::Unknown(s) => ValueModel::Unknown(s@),
    }
}

impl View for SettingValue {
    type V = ValueModel;

    open spec fn view(&self) -> ValueModel {
        value_model(*self)
    }
}

/// A copy of a value with the same content, arrays copied element by element.
pub fn copy_value(v: &SettingValue) -> (r: SettingValue)
    ensures
        r@ == v@,
    decreases v,
{
    match v {
        SettingValue::Null => SettingValue::Null,
        SettingValue::Number(n) => SettingValue::Number(*n),
        SettingValue::Boolean(b) => SettingValue::Boolean(*b),
        SettingValue::String(s) => SettingValue::String(s.clone()),
        SettingValue::Unknown(s) => SettingValue::Unknown(s.clone()),
        SettingValue::Array(items) => {
            let mut out: Vec<SettingValue> = Vec::new();
            let mut i: usize = 0;
            while i < items.len()
                invariant
                    *v == SettingValue::Array(*items),
                    i <= items.len(),
                    out@.len() == i,
                    forall|k: int| 0 <= k < i ==> #[trigger] out@[k]@ == items@[k]@,
                decreases items.len() - i,
            {
                proof {
                    vstd::std_specs::vec::axiom_vec_index_decreases(*items, i as int);
                    assert(*items == (*v)->Array_0);
                    assert(decreases_to!(*v => (*v)->Array_0));
                    assert(decreases_to!(*v => items[i as int]));
                }
                let c = copy_value(&items[i]);
                out.push(c);
                i = i + 1;
            }
            let r = SettingValue::Array(out);
            assert(r@ == v@) by {
                let a = r@->Array_0;
                let b = v@->Array_0;
                assert(a.len() == b.len());
                assert forall|k: int| 0 <= k < a.len() implies a[k] == b[k] by {
                    assert(out@[k]@ == items@[k]@);
                }
                assert(a =~= b);
            }
            r
        },
    }
}

impl Clone for SettingValue {
    fn clone(&self) -> (r: Self)
        ensures
            r@ == self@,
    {
        copy_value(self)
    }
}

#[verifier::external_type_specification]
#[verifier::external_body]
#[verifier::reject_recursive_types(K)]
#[verifier::reject_recursive_types(V)]
#[verifier::reject_recursive_types(S)]
pub struct ExDashMap<K, V, S>(DashMap<K, V, S>);

/// The map that settings are kept in.
pub type SettingMap = DashMap<String, SettingValue>;

/// What a settings map holds: its keys and the content of their values.
pub uninterp spec fn setting_entries(m: SettingMap) -> Map<Seq<char>, ValueModel>;

/// `DashMap::new`: an empty map.
#[verifier::external_body]
fn new_setting_map() -> (map: SettingMap)
    ensures
        setting_entries(map) =~= Map::empty(),
{
    DashMap::new()
}

/// `DashMap::insert`: the key now maps to the value, every other entry stays.
#[verifier::external_body]
fn setting_map_insert(m: &mut SettingMap, key: String, value: SettingValue)
    ensures
        setting_entries(*final(m)) == setting_entries(*old(m)).insert(key@, value@),
{
    m.insert(key, value);
}

/// `DashMap::get`, handing out a copy of the value found under the key.
#[verifier::external_body]
fn setting_map_get(m: &SettingMap, key: &str) -> (r: Option<SettingValue>)
    ensures
        r is Some <==> setting_entries(*m).contains_key(key@),
        r matches Some(v) ==> v@ == setting_entries(*m)[key@],
{
    m.get(key).map(|entry| entry.value().clone())
}

/// The name of the setting that holds the OpenAI API key.
pub open spec fn api_key_name() -> Seq<char> {
    "OPENAI_API_KEY"@
}

/// Whether a setting may be written but never read back by a user.
pub open spec fn is_write_only(key: Seq<char>) -> bool {
    key == api_key_name()
}

/// The settings of the extension.
pub struct Settings {
    inner: SettingMap,
}

impl View for Settings {
    type V = Map<Seq<char>, ValueModel>;

    open spec fn view(&self) -> Map<Seq<char>, ValueModel> {
        self.entries()
    }
}

impl Settings {
    /// The entries of the settings.
    pub closed spec fn entries(&self) -> Map<Seq<char>, ValueModel> {
        setting_entries(self.inner)
    }

    /// The settings a new extension starts with: the API key, taken from
    /// the environment's value where there is one, else empty.
    pub fn from_env_key(env_key: Option<String>) -> (s: Settings)
        ensures
            s@.dom() == set![api_key_name()],
            s@[api_key_name()] == ValueModel::String(match env_key {
                Some(e) => e@,
                None => Seq::<char>::empty(),
            }),
    {
        let mut inner = new_setting_map();
        let key = String::from_str("OPENAI_API_KEY");
        let value = match env_key {
            Some(e) => e,
            None => String::new(),
        };
        setting_map_insert(&mut inner, key, SettingValue::String(value));
        let s = Settings { inner };
        assert(s@.dom() =~= set![api_key_name()]);
        s
    }

    /// Stores a value under a key, replacing any earlier one.
    pub fn set(&mut self, key: String, value: SettingValue)
        ensures
            final(self)@ == old(self)@.insert(key@, value@),
    {
        setting_map_insert(&mut self.inner, key, value);
    }

    /// The value stored under a key, if any.
    pub fn get(&self, key: &str) -> (r: Option<SettingValue>)
        ensures
            r is Some <==> self@.contains_key(key@),
            r matches Some(v) ==> v@ == self@[key@],
    {
        setting_map_get(&self.inner, key)
    }

    /// Reading a key gives the last value written under it, and writing a key
    /// leaves every other key as it was: for settings `after` that a `set` of
    /// `key` to `value` made from `before`, a `get` of `key` finds `value`, and
    /// a `get` of any other key finds what it found before.
    pub proof fn lemma_read_after_write(
        before: Settings,
        after: Settings,
        key: Seq<char>,
        value: ValueModel,
        other: Seq<char>,
    )
        requires
            after@ == before@.insert(key, value),
            other != key,
        ensures
            after@.contains_key(key),
            after@[key] == value,
            after@.contains_key(other) == before@.contains_key(other),
            before@.contains_key(other) ==> after@[other] == before@[other],
    {
    }

    /// A user's request to read a setting: write-only keys are refused,
    /// a missing key is reported, else the value is returned.
    pub fn read_for_user(&self, key: &str) -> (r: Result<SettingValue, String>)
        ensures
            is_write_only(key@) ==> (r matches Err(e) && e@ == "Key "@ + key@ + " is write-only"@),
            !is_write_only(key@) && self@.contains_key(key@) ==> (r matches Ok(v) && v@ == self@[key@]),
            !is_write_only(key@) && !self@.contains_key(key@) ==> (r matches Err(e) && e@ == "Key "@ + key@ + " not found"@),
    {
        if same_text(key, "OPENAI_API_KEY") {
            let mut e = String::from_str("Key ");
            e.append(key);
            e.append(" is write-only");
            return Err(e);
        }
        match self.get(key) {
            Some(v) => Ok(v),
            None => {
                let mut e = String::from_str("Key ");
                e.append(key);
                e.append(" not found");
                Err(e)
            },
        }
    }

    /// The API key that an OpenAI client is built with: the setting must be
    /// present and hold a string.
    pub fn openai_api_key(&self) -> (r: Result<String, String>)
        ensures
            !self@.contains_key(api_key_name()) ==> (r matches Err(e) && e@ == "OPENAI_API_KEY not found"@),
            self@.contains_key(api_key_name()) ==> match self@[api_key_name()] {
                ValueModel::String(k) => r matches Ok(v) && v@ == k,
                _ => r matches Err(e) && e@ == "OPENAI_API_KEY is not a string"@,
            },
    {
        match self.get("OPENAI_API_KEY") {
            None => Err(String::from_str("OPENAI_API_KEY not found")),
            Some(SettingValue::String(k)) => Ok(k),
            Some(_) => Err(String::from_str("OPENAI_API_KEY is not a string")),
        }
    }
}

} // verus!
