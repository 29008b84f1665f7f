//! The context of a read: byte order, base offset, declared count, diagnostic
//! flags, and an open slot for further settings.
//!
//! A context is a value. A field of a record sees what the record was given
//! plus what earlier fields put on top by [`ReadOptions::insert`], which
//! makes a new context and leaves the old one as it was.
use vstd::prelude::*;
use rpds::HashTrieMap;
use crate::endian::{native_is_little, Endian};

verus! {

/// The offset that relative pointers are measured from.
#[derive(Clone, Copy, Debug, PartialEq, Eq, Structural)]
pub struct FileOffset(pub u64);

/// The number of items that a sequence was declared with.
#[derive(Clone, Copy, Debug, PartialEq, Eq, Structural)]
pub struct VecCount(pub usize);

/// Whether reads are kept out of diagnostic output.
#[derive(Clone, Copy, Debug, PartialEq, Eq, Structural)]
pub struct DontOutputTemplate(pub bool);

/// The name under which a read appears in diagnostic output.
#[derive(Clone, Copy, Debug, PartialEq)]
pub struct VariableName(pub Option<&'static str>);

impl Default for FileOffset {
    fn default() -> (r: FileOffset)
        ensures
            r == FileOffset(0),
    {
        FileOffset(0)
    }
}

impl Default for DontOutputTemplate {
    fn default() -> (r: DontOutputTemplate)
        ensures
            r == DontOutputTemplate(false),
    {
        DontOutputTemplate(false)
    }
}

impl Default for VariableName {
    fn default() -> (r: VariableName)
        ensures
            r == VariableName(None),
    {
        VariableName(None)
    }
}

impl From<u64> for FileOffset {
    fn from(val: u64) -> (r: FileOffset)
        ensures
            r == FileOffset(val),
    {
        FileOffset(val)
    }
}

impl vstd::std_specs::convert::FromSpecImpl<u64> for FileOffset {
    open spec fn obeys_from_spec() -> bool {
        true
    }

    open spec fn from_spec(val: u64) -> FileOffset {
        FileOffset(val)
    }
}

/// The kinds of setting that a context can hold.
#[derive(Clone, Copy, Debug, PartialEq, Eq, Structural)]
pub enum OptionKey {
    Endian,
    Count,
    Offset,
    DontOutputTemplate,
    VariableName,
    /// A setting in the open slot, under a tag of the caller's choosing.
    Ext(u64),
}

/// One setting. Its variant says of which kind it is.
#[derive(Clone, Copy, Debug, PartialEq)]
pub enum OptionValue {
    Endian(Endian),
    Count(VecCount),
    Offset(FileOffset),
    DontOutputTemplate(DontOutputTemplate),
    VariableName(VariableName),
    /// A setting in the open slot: its tag, then its value.
    Ext(u64, u64),
}

impl OptionValue {
    /// The kind of the setting.
    pub open spec fn key_spec(self) -> OptionKey {
        match self {
            OptionValue::Endian(_) => OptionKey::Endian,
            OptionValue::Count(_) => OptionKey::Count,
            OptionValue::Offset(_) => OptionKey::Offset,
            OptionValue::DontOutputTemplate(_) => OptionKey::DontOutputTemplate,
            OptionValue::VariableName(_) => OptionKey::VariableName,
            OptionValue::Ext(tag, _) => OptionKey::Ext(tag),
        }
    }

    /// The kind of the setting.
    pub fn key(&self) -> (r: OptionKey)
        ensures
            r == self.key_spec(),
    {
        match self {
            OptionValue::Endian(_) => OptionKey::Endian,
            OptionValue::Count(_) => OptionKey::Count,
            OptionValue::Offset(_) => OptionKey::Offset,
            OptionValue::DontOutputTemplate(_) => OptionKey::DontOutputTemplate,
            OptionValue::VariableName(_) => OptionKey::VariableName,
            OptionValue::Ext(tag, _) => OptionKey::Ext(*tag),
        }
    }
}

/// A context as contracts see it.
pub struct OptionsView {
    pub endian: Endian,
    /// Whether the machine that made the context is little-endian.
    pub native_little: bool,
    pub count: Option<usize>,
    pub offset: u64,
    pub dont_output_to_template: bool,
    pub variable_name: Option<&'static str>,
    pub ext: Map<u64, u64>,
}

impl OptionsView {
    /// The context that a read starts from, on a machine that is
    /// little-endian if `native_little`.
    pub open spec fn initial(native_little: bool) -> OptionsView {
        OptionsView {
            endian: Endian::Native,
            native_little,
            count: None,
            offset: 0,
            dont_output_to_template: false,
            variable_name: None,
            ext: Map::empty(),
        }
    }

    /// Whether numbers are read most significant byte first.
    pub open spec fn big_endian(self) -> bool {
        self.endian.is_big(self.native_little)
    }

    /// The setting of a kind. The built-in kinds give their default where
    /// nothing was set, but for the count, which has none.
    pub open spec fn get(self, key: OptionKey) -> Option<OptionValue> {
        match key {
            OptionKey::Endian => Some(OptionValue::Endian(self.endian)),
            OptionKey::Count => match self.count {
                Some(n) => Some(OptionValue::Count(VecCount(n))),
                None => None,
            },
            OptionKey::Offset => Some(OptionValue::Offset(FileOffset(self.offset))),
            OptionKey::DontOutputTemplate => Some(
                OptionValue::DontOutputTemplate(DontOutputTemplate(self.dont_output_to_template)),
            ),
            OptionKey::VariableName => Some(
                OptionValue::VariableName(VariableName(self.variable_name)),
            ),
            OptionKey::Ext(tag) => if self.ext.contains_key(tag) {
                Some(OptionValue::Ext(tag, self.ext[tag]))
            } else {
                None
            },
        }
    }

    /// The context with one setting put on top.
    pub open spec fn insert(self, value: OptionValue) -> OptionsView {
        match value {
            OptionValue::Endian(e) => OptionsView { endian: e, ..self },
            OptionValue::Count(c) => OptionsView { count: Some(c.0), ..self },
            OptionValue::Offset(o) => OptionsView { offset: o.0, ..self },
            OptionValue::DontOutputTemplate(d) => OptionsView {
                dont_output_to_template: d.0,
                ..self
            },
            OptionValue::VariableName(n) => OptionsView { variable_name: n.0, ..self },
            OptionValue::Ext(tag, v) => OptionsView { ext: self.ext.insert(tag, v), ..self },
        }
    }

    /// The context with the setting of a kind taken away: a built-in kind is
    /// back at its default.
    pub open spec fn remove(self, key: OptionKey) -> OptionsView {
        match key {
            OptionKey::Endian => OptionsView { endian: Endian::Native, ..self },
            OptionKey::Count => OptionsView { count: None, ..self },
            OptionKey::Offset => OptionsView { offset: 0, ..self },
            OptionKey::DontOutputTemplate => OptionsView {
                dont_output_to_template: false,
                ..self
            },
            OptionKey::VariableName => OptionsView { variable_name: None, ..self },
            OptionKey::Ext(tag) => OptionsView { ext: self.ext.remove(tag), ..self },
        }
    }

    /// Whether there was anything to take away: always for a built-in kind.
    pub open spec fn removes(self, key: OptionKey) -> bool {
        match key {
            OptionKey::Ext(tag) => self.ext.contains_key(tag),
            _ => true,
        }
    }

    /// Whether a kind is set. The byte order always is; another built-in kind
    /// is where it differs from its default.
    pub open spec fn contains(self, key: OptionKey) -> bool {
        match key {
            OptionKey::Endian => true,
            OptionKey::Count => self.count is Some,
            OptionKey::Offset => self.offset != 0,
            OptionKey::DontOutputTemplate => self.dont_output_to_template,
            OptionKey::VariableName => self.variable_name is Some,
            OptionKey::Ext(tag) => self.ext.contains_key(tag),
        }
    }
}

/// The persistent map behind the open slot of a context: tags to values.
#[verifier::external_body]
pub struct ExtMap {
    inner: HashTrieMap<u64, u64>,
}

/// What the map behind the open slot holds.
pub uninterp spec fn ext_entries(m: ExtMap) -> Map<u64, u64>;

/// `HashTrieMap::new`: a map that holds nothing.
#[verifier::external_body]
fn ext_new() -> (r: ExtMap)
    ensures
        ext_entries(r) == (Map::<u64, u64>::empty()),
{
    ExtMap { inner: HashTrieMap::new() }
}

/// `HashTrieMap::clone`: a map that holds what this one holds.
#[verifier::external_body]
fn ext_clone(m: &ExtMap) -> (r: ExtMap)
    ensures
        ext_entries(r) == ext_entries(*m),
{
    ExtMap { inner: m.inner.clone() }
}

/// `HashTrieMap::get`: the value under a key, if the map holds the key.
#[verifier::external_body]
fn ext_get(m: &ExtMap, key: u64) -> (r: Option<u64>)
    ensures
        r == (if ext_entries(*m).contains_key(key) {
            Some(ext_entries(*m)[key])
        } else {
            None
        }),
{
    m.inner.get(&key).copied()
}

/// `HashTrieMap::contains_key`: whether the map holds a key.
#[verifier::external_body]
fn ext_contains_key(m: &ExtMap, key: u64) -> (r: bool)
    ensures
        r == ext_entries(*m).contains_key(key),
{
    m.inner.contains_key(&key)
}

/// `HashTrieMap::insert_mut`: afterwards the map holds the value under the
/// key, in place of what it held there, and everything else as before.
#[verifier::external_body]
fn ext_insert_mut(m: &mut ExtMap, key: u64, value: u64)
    ensures
        ext_entries(*final(m)) == ext_entries(*old(m)).insert(key, value),
{
    m.inner.insert_mut(key, value)
}

/// `HashTrieMap::remove_mut`: afterwards the map does not hold the key, and
/// everything else as before; the result says whether it held the key.
#[verifier::external_body]
fn ext_remove_mut(m: &mut ExtMap, key: u64) -> (r: bool)
    ensures
        ext_entries(*final(m)) == ext_entries(*old(m)).remove(key),
        r == ext_entries(*old(m)).contains_key(key),
{
    m.inner.remove_mut(&key)
}

/// The context of a read.
pub struct ReadOptions {
    pub endian: Endian,
    pub count: Option<usize>,
    pub offset: u64,
    pub dont_output_to_template: bool,
    pub variable_name: Option<&'static str>,
    native_little: bool,
    ext: ExtMap,
}

impl View for ReadOptions {
    type V = OptionsView;

    closed spec fn view(&self) -> OptionsView {
        OptionsView {
            endian: self.endian,
            native_little: self.native_little,
            count: self.count,
            offset: self.offset,
            dont_output_to_template: self.dont_output_to_template,
            variable_name: self.variable_name,
            ext: ext_entries(self.ext),
        }
    }
}

impl Default for ReadOptions {
    /// The context that a read starts from: native byte order, no count, base
    /// offset 0, diagnostics on, nothing in the open slot. Which byte order
    /// the machine has is asked here, once.
    fn default() -> (r: ReadOptions)
        ensures
            r@ == OptionsView::initial(r@.native_little),
    {
        ReadOptions {
            endian: Endian::Native,
            count: None,
            offset: 0,
            dont_output_to_template: false,
            variable_name: None,
            native_little: native_is_little(),
            ext: ext_new(),
        }
    }
}

impl Clone for ReadOptions {
    fn clone(&self) -> (r: ReadOptions)
        ensures
            r@ == self@,
    {
        ReadOptions {
            endian: self.endian,
            count: self.count,
            offset: self.offset,
            dont_output_to_template: self.dont_output_to_template,
            variable_name: self.variable_name,
            native_little: self.native_little,
            ext: ext_clone(&self.ext),
        }
    }
}

impl ReadOptions {
    /// The setting of a kind, where there is one.
    pub fn get(&self, key: OptionKey) -> (r: Option<OptionValue>)
        ensures
            r == self@.get(key),
    {
        match key {
            OptionKey::Endian => Some(OptionValue::Endian(self.endian)),
            OptionKey::Count => match self.count {
                Some(n) => Some(OptionValue::Count(VecCount(n))),
                None => None,
            },
            OptionKey::Offset => Some(OptionValue::Offset(FileOffset(self.offset))),
            OptionKey::DontOutputTemplate => Some(
                OptionValue::DontOutputTemplate(DontOutputTemplate(self.dont_output_to_template)),
            ),
            OptionKey::VariableName => Some(
                OptionValue::VariableName(VariableName(self.variable_name)),
            ),
            OptionKey::Ext(tag) => match ext_get(&self.ext, tag) {
                Some(v) => Some(OptionValue::Ext(tag, v)),
                None => None,
            },
        }
    }

    /// Puts a setting into this context.
    pub fn insert_mut(&mut self, value: OptionValue)
        ensures
            final(self)@ == old(self)@.insert(value),
    {
        match value {
            OptionValue::Endian(e) => {
                self.endian = e;
            },
            OptionValue::Count(c) => {
                self.count = Some(c.0);
            },
            OptionValue::Offset(o) => {
                self.offset = o.0;
            },
            OptionValue::DontOutputTemplate(d) => {
                self.dont_output_to_template = d.0;
            },
            OptionValue::VariableName(n) => {
                self.variable_name = n.0;
            },
            OptionValue::Ext(tag, v) => {
                ext_insert_mut(&mut self.ext, tag, v);
            },
        }
    }

    /// A new context: this one with a setting on top. This one stays as it is.
    pub fn insert(&self, value: OptionValue) -> (r: ReadOptions)
        ensures
            r@ == self@.insert(value),
    {
        let mut new = self.clone();
        new.insert_mut(value);
        new
    }

    /// Takes the setting of a kind out of this context, and says whether
    /// there was anything to take.
    pub fn remove_mut(&mut self, key: OptionKey) -> (r: bool)
        ensures
            final(self)@ == old(self)@.remove(key),
            r == old(self)@.removes(key),
    {
        match key {
            OptionKey::Endian => {
                self.endian = Endian::Native;
                true
            },
            OptionKey::Count => {
                self.count = None;
                true
            },
            OptionKey::Offset => {
                self.offset = 0;
                true
            },
            OptionKey::DontOutputTemplate => {
                self.dont_output_to_template = false;
                true
            },
            OptionKey::VariableName => {
                self.variable_name = None;
                true
            },
            OptionKey::Ext(tag) => ext_remove_mut(&mut self.ext, tag),
        }
    }

    /// A new context: this one without the setting of a kind. This one stays
    /// as it is.
    pub fn remove(&self, key: OptionKey) -> (r: ReadOptions)
        ensures
            r@ == self@.remove(key),
    {
        let mut new = self.clone();
        new.remove_mut(key);
        new
    }

    /// Whether a kind is set.
    pub fn contains(&self, key: OptionKey) -> (r: bool)
        ensures
            r == self@.contains(key),
    {
        match key {
            OptionKey::Endian => true,
            OptionKey::Count => self.count.is_some(),
            OptionKey::Offset => self.offset != 0,
            OptionKey::DontOutputTemplate => self.dont_output_to_template,
            OptionKey::VariableName => self.variable_name.is_some(),
            OptionKey::Ext(tag) => ext_contains_key(&self.ext, tag),
        }
    }

    /// The number of items that the next sequence was declared with, if
    /// one was.
    pub fn count(&self) -> (r: Option<usize>)
        ensures
            r == self@.count,
    {
        self.count
    }

    /// Whether numbers are read most significant byte first.
    pub fn big_endian(&self) -> (r: bool)
        ensures
            r == self@.big_endian(),
    {
        match self.endian {
            Endian::Big => true,
            Endian::Little => false,
            Endian::Native => !self.native_little,
        }
    }
}

/// The settings that every read asks for, by name.
pub trait ReadOptionsExt {
    /// The byte order as contracts see it.
    spec fn endian_spec(&self) -> Endian;

    /// The base offset as contracts see it.
    spec fn offset_spec(&self) -> u64;

    /// The flag that keeps reads out of diagnostic output, as contracts see it.
    spec fn dont_output_to_template_spec(&self) -> bool;

    /// The diagnostic name as contracts see it.
    spec fn variable_name_spec(&self) -> Option<&'static str>;

    /// The byte order.
    fn endian(&self) -> (r: Endian)
        ensures
            r == self.endian_spec(),
    ;

    /// The offset that relative pointers are measured from.
    fn offset(&self) -> (r: u64)
        ensures
            r == self.offset_spec(),
    ;

    /// Whether reads are kept out of diagnostic output.
    fn dont_output_to_template(&self) -> (r: bool)
        ensures
            r == self.dont_output_to_template_spec(),
    ;

    /// The name under which a read appears in diagnostic output.
    fn variable_name(&self) -> (r: Option<&'static str>)
        ensures
            r == self.variable_name_spec(),
    ;
}

impl ReadOptionsExt for ReadOptions {
    open spec fn endian_spec(&self) -> Endian {
        self@.endian
    }

    open spec fn offset_spec(&self) -> u64 {
        self@.offset
    }

    open spec fn dont_output_to_template_spec(&self) -> bool {
        self@.dont_output_to_template
    }

    open spec fn variable_name_spec(&self) -> Option<&'static str> {
        self@.variable_name
    }

    fn endian(&self) -> (r: Endian) {
        self.endian
    }

    fn offset(&self) -> (r: u64) {
        self.offset
    }

    fn dont_output_to_template(&self) -> (r: bool) {
        self.dont_output_to_template
    }

    fn variable_name(&self) -> (r: Option<&'static str>) {
        self.variable_name
    }
}

/// Overrides reach forward only. With `child` made from `parent` by
/// [`ReadOptions::insert`]: `child` gives the new setting for its kind and
/// what `parent` gives for every other kind, and `parent` still gives what
/// it gave.
pub proof fn lemma_insert_scoped(parent: OptionsView, value: OptionValue, other: OptionKey)
    requires
        other != value.key_spec(),
    ensures
        parent.insert(value).get(value.key_spec()) == Some(value),
        parent.insert(value).get(other) == parent.get(other),
        parent.insert(value).contains(other) == parent.contains(other),
        parent.insert(value).native_little == parent.native_little,
{
}

} // verus!
