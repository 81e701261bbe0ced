//! The template domain: configurations, parameters, versions, sources and catalogs.
use vstd::prelude::*;

use crate::text::{push_char, str_eq, views};

verus! {

/// What one step of a template does.
#[derive(Debug)]
pub enum TemplateStepAction {
    Render { source: String, destination: String },
    RenderIfAbsent { source: String, destination: String },
    Inject { source: String, destination: String, region: Option<String> },
    RunCommand { command: String, working_directory: Option<String> },
    RenderFolder { source: String, destination: String },
}

/// One step of a template.
#[derive(Debug)]
pub struct TemplateStep {
    pub condition: Option<String>,
    pub action: TemplateStepAction,
}

/// A template configuration (`template.yaml`).
#[derive(Debug)]
pub struct TemplateConfig {
    pub id: Option<String>,
    pub steps: Vec<TemplateStep>,
    /// Generator type to sub-folder, in document order.
    pub generators: Option<Vec<(String, String)>>,
    pub required_modules: Vec<String>,
}

/// The destination of a `render` step.
pub open spec fn render_destination(a: TemplateStepAction) -> Option<Seq<char>> {
    match a {
        TemplateStepAction::Render { destination, .. } => Some(destination@),
        _ => None,
    }
}

/// The path-like text of a step: its destination, or the command of a `run_command` step.
pub open spec fn step_path_text(a: TemplateStepAction) -> Seq<char> {
    match a {
        TemplateStepAction::Render { destination, .. } => destination@,
        TemplateStepAction::RenderIfAbsent { destination, .. } => destination@,
        TemplateStepAction::Inject { destination, .. } => destination@,
        TemplateStepAction::RunCommand { command, .. } => command@,
        TemplateStepAction::RenderFolder { destination, .. } => destination@,
    }
}

/// The first entry of `entries` whose key is `key`, as a position (`entries.len()` if none).
pub open spec fn pair_index(entries: Seq<(String, String)>, key: Seq<char>, i: int) -> int
    decreases entries.len() - i,
{
    if i >= entries.len() {
        entries.len() as int
    } else if entries[i].0@ == key {
        i
    } else {
        pair_index(entries, key, i + 1)
    }
}

/// The value under `key` in a list of string pairs.
pub open spec fn pair_lookup(entries: Seq<(String, String)>, key: Seq<char>) -> Option<Seq<char>> {
    let i = pair_index(entries, key, 0);
    if 0 <= i < entries.len() {
        Some(entries[i].1@)
    } else {
        None
    }
}

/// Looks up `key` in a list of string pairs.
pub fn lookup_pair<'a>(entries: &'a Vec<(String, String)>, key: &str) -> (r: Option<&'a String>)
    ensures
        r is Some == pair_lookup(entries@, key@) is Some,
        r matches Some(v) ==> pair_lookup(entries@, key@) == Some(v@),
{
    let mut i: usize = 0;
    while i < entries.len()
        invariant
            i <= entries@.len(),
            pair_index(entries@, key@, 0) == pair_index(entries@, key@, i as int),
        decreases entries@.len() - i,
    {
        if str_eq(entries[i].0.as_str(), key) {
            return Some(&entries[i].1);
        }
        i = i + 1;
    }
    None
}

/// A JSON value handed in as a template parameter.
#[derive(Debug)]
pub enum ParamValue {
    Null,
    Bool(bool),
    /// A number, kept in its textual form.
    Number(String),
    Str(String),
    Array(Vec<ParamValue>),
    Object(Vec<(String, ParamValue)>),
}

/// The parameters a template is rendered with: named values, in insertion order,
/// each name at most once.
#[derive(Debug)]
pub struct TemplateParameters {
    pub entries: Vec<(String, ParamValue)>,
}

/// Position of the parameter named `key` (`entries.len()` if none).
pub open spec fn param_index(entries: Seq<(String, ParamValue)>, key: Seq<char>, i: int) -> int
    decreases entries.len() - i,
{
    if i >= entries.len() {
        entries.len() as int
    } else if entries[i].0@ == key {
        i
    } else {
        param_index(entries, key, i + 1)
    }
}

/// `after` is `before` with the parameter `key` set: an existing parameter keeps
/// its position, a new one is appended, all others stay as they were.
pub open spec fn params_set_shape(
    before: Seq<(String, ParamValue)>,
    after: Seq<(String, ParamValue)>,
    key: Seq<char>,
) -> bool {
    let i = param_index(before, key, 0);
    &&& after.len() == (if i < before.len() {
        before.len()
    } else {
        before.len() + 1
    })
    &&& after[i].0@ == key
    &&& forall|j: int| 0 <= j < after.len() && j != i ==> after[j] == before[j]
}

/// `after` is `before` with the parameter `key` set to `value`.
pub open spec fn params_set(
    before: Seq<(String, ParamValue)>,
    after: Seq<(String, ParamValue)>,
    key: Seq<char>,
    value: ParamValue,
) -> bool {
    params_set_shape(before, after, key) && after[param_index(before, key, 0)].1 == value
}

/// `after` is `before` with the parameter `key` set to the string `value`.
pub open spec fn params_set_str(
    before: Seq<(String, ParamValue)>,
    after: Seq<(String, ParamValue)>,
    key: Seq<char>,
    value: Seq<char>,
) -> bool {
    &&& params_set_shape(before, after, key)
    &&& after[param_index(before, key, 0)].1 matches ParamValue::Str(s)
    &&& s@ == value
}

/// The text of the string parameter named `key`, if it is set to a string.
pub open spec fn param_str(entries: Seq<(String, ParamValue)>, key: Seq<char>) -> Option<Seq<char>> {
    let i = param_index(entries, key, 0);
    if 0 <= i < entries.len() {
        match entries[i].1 {
            ParamValue::Str(s) => Some(s@),
            _ => None,
        }
    } else {
        None
    }
}

pub proof fn lemma_param_index(entries: Seq<(String, ParamValue)>, key: Seq<char>, i: int)
    requires
        0 <= i <= entries.len(),
    ensures
        i <= param_index(entries, key, i) <= entries.len(),
        param_index(entries, key, i) < entries.len() ==> entries[param_index(entries, key, i)].0@
            == key,
        forall|k: int| i <= k < param_index(entries, key, i) ==> entries[k].0@ != key,
    decreases entries.len() - i,
{
    if i < entries.len() && entries[i].0@ != key {
        lemma_param_index(entries, key, i + 1);
    }
}

/// The value of the parameter named `key`.
pub open spec fn param_lookup(entries: Seq<(String, ParamValue)>, key: Seq<char>) -> Option<ParamValue> {
    let i = param_index(entries, key, 0);
    if 0 <= i < entries.len() {
        Some(entries[i].1)
    } else {
        None
    }
}

/// Two parameter lists have the same names up to position `n`.
proof fn lemma_param_index_same_names(
    a: Seq<(String, ParamValue)>,
    b: Seq<(String, ParamValue)>,
    key: Seq<char>,
    i: int,
    n: int,
)
    requires
        0 <= i <= n,
        n <= a.len(),
        n <= b.len(),
        forall|j: int| 0 <= j < n ==> a[j].0@ == b[j].0@,
        param_index(a, key, i) < n,
    ensures
        param_index(b, key, i) == param_index(a, key, i),
    decreases n - i,
{
    lemma_param_index(a, key, i);
    if i < n && a[i].0@ != key {
        lemma_param_index_same_names(a, b, key, i + 1, n);
    }
}

proof fn lemma_param_index_absent(
    a: Seq<(String, ParamValue)>,
    b: Seq<(String, ParamValue)>,
    key: Seq<char>,
    i: int,
)
    requires
        0 <= i <= a.len(),
        a.len() <= b.len(),
        forall|j: int| 0 <= j < a.len() ==> a[j].0@ == b[j].0@,
        param_index(a, key, i) == a.len(),
    ensures
        param_index(b, key, i) == param_index(b, key, a.len() as int),
    decreases a.len() - i,
{
    if i < a.len() {
        lemma_param_index_absent(a, b, key, i + 1);
    }
}

/// Setting one parameter changes the value of that name only.
pub proof fn lemma_params_set_lookup(
    before: Seq<(String, ParamValue)>,
    after: Seq<(String, ParamValue)>,
    key: Seq<char>,
    other: Seq<char>,
)
    requires
        params_set_shape(before, after, key),
    ensures
        other == key ==> param_lookup(after, other) == Some(after[param_index(before, key, 0)].1),
        other != key ==> param_lookup(after, other) == param_lookup(before, other),
{
    lemma_param_index(before, key, 0);
    lemma_param_index(before, other, 0);
    let i = param_index(before, key, 0);
    let n = before.len() as int;
    assert forall|j: int| 0 <= j < n implies before[j].0@ == after[j].0@ by {
        if j != i {
            assert(after[j] == before[j]);
        }
    }
    if other == key {
        if i < n {
            lemma_param_index_same_names(before, after, key, 0, n);
        } else {
            lemma_param_index_absent(before, after, key, 0);
        }
    } else {
        let o = param_index(before, other, 0);
        if o < n {
            lemma_param_index_same_names(before, after, other, 0, n);
            assert(o != i);
            assert(after[o] == before[o]);
        } else {
            lemma_param_index_absent(before, after, other, 0);
            if i >= n {
                assert(after[n].0@ == key);
                assert(param_index(after, other, n + 1) == after.len());
            }
            assert(param_index(after, other, n) == after.len());
        }
    }
}

/// A parameter set to a text reads back as that text, and every other parameter
/// reads as it did before.
pub proof fn law_set_then_read(
    before: Seq<(String, ParamValue)>,
    after: Seq<(String, ParamValue)>,
    key: Seq<char>,
    value: Seq<char>,
    other: Seq<char>,
)
    requires
        params_set_str(before, after, key, value),
    ensures
        param_str(after, key) == Some(value),
        other != key ==> param_str(after, other) == param_str(before, other),
{
    lemma_params_set_lookup(before, after, key, key);
    lemma_params_set_lookup(before, after, key, other);
    assert(param_str(after, key) == match param_lookup(after, key) {
        Some(ParamValue::Str(s)) => Some(s@),
        _ => None,
    });
    assert(param_str(after, other) == match param_lookup(after, other) {
        Some(ParamValue::Str(s)) => Some(s@),
        _ => None,
    });
    assert(param_str(before, other) == match param_lookup(before, other) {
        Some(ParamValue::Str(s)) => Some(s@),
        _ => None,
    });
}

impl TemplateParameters {
    /// No parameters.
    pub fn new() -> (r: TemplateParameters)
        ensures
            r.entries@.len() == 0,
    {
        TemplateParameters { entries: Vec::new() }
    }

    /// Sets the parameter `key` to `value`; an empty name is refused.
    pub fn insert_value(&mut self, key: String, value: ParamValue) -> (r: Result<(), String>)
        ensures
            key@.len() == 0 ==> r is Err && final(self).entries@ == old(self).entries@,
            r matches Err(m) ==> m@ == "parameter name cannot be empty"@,
            key@.len() > 0 ==> r is Ok && params_set(
                old(self).entries@,
                final(self).entries@,
                key@,
                value,
            ),
    {
        if key.unicode_len() == 0 {
            return Err("parameter name cannot be empty".to_owned());
        }
        let ghost old_entries = self.entries@;
        let ghost k = key@;
        let mut i: usize = 0;
        while i < self.entries.len() && !str_eq(self.entries[i].0.as_str(), key.as_str())
            invariant
                i <= self.entries@.len(),
                self.entries@ == old_entries,
                k == key@,
                param_index(old_entries, k, 0) == param_index(old_entries, k, i as int),
            decreases self.entries@.len() - i,
        {
            i = i + 1;
        }
        proof {
            lemma_param_index(old_entries, k, 0);
        }
        if i < self.entries.len() {
            self.entries.set(i, (key, value));
        } else {
            self.entries.push((key, value));
        }
        Ok(())
    }

    /// Sets the parameter `key` to the string `value`.
    pub fn insert(&mut self, key: &str, value: &str) -> (r: Result<(), String>)
        ensures
            key@.len() == 0 ==> r is Err && final(self).entries@ == old(self).entries@,
            r matches Err(m) ==> m@ == "parameter name cannot be empty"@,
            key@.len() > 0 ==> r is Ok && params_set_str(
                old(self).entries@,
                final(self).entries@,
                key@,
                value@,
            ),
    {
        self.insert_value(key.to_owned(), ParamValue::Str(value.to_owned()))
    }

    /// The text of the string parameter named `key`.
    pub fn get_str(&self, key: &str) -> (r: Option<String>)
        ensures
            r is Some == param_str(self.entries@, key@) is Some,
            r matches Some(s) ==> param_str(self.entries@, key@) == Some(s@),
    {
        let mut i: usize = 0;
        while i < self.entries.len()
            invariant
                i <= self.entries@.len(),
                param_index(self.entries@, key@, 0) == param_index(self.entries@, key@, i as int),
            decreases self.entries@.len() - i,
        {
            if str_eq(self.entries[i].0.as_str(), key) {
                return match &self.entries[i].1 {
                    ParamValue::Str(s) => Some(s.clone()),
                    _ => None,
                };
            }
            i = i + 1;
        }
        None
    }
}

/// The value of the last pair named `key`, if any.
pub open spec fn last_value(pairs: Seq<(Seq<char>, Seq<char>)>, key: Seq<char>) -> Option<Seq<char>>
    decreases pairs.len(),
{
    if pairs.len() == 0 {
        None
    } else if pairs.last().0 == key {
        Some(pairs.last().1)
    } else {
        last_value(pairs.drop_last(), key)
    }
}

/// The views of a list of string pairs.
pub open spec fn pair_views(pairs: Seq<(String, String)>) -> Seq<(Seq<char>, Seq<char>)> {
    pairs.map_values(|p: (String, String)| (p.0@, p.1@))
}

/// `p` holds exactly the string parameters that `pairs` sets, later pairs winning.
pub open spec fn params_from_pairs(p: Seq<(String, ParamValue)>, pairs: Seq<(Seq<char>, Seq<char>)>) -> bool {
    forall|k: Seq<char>|
        #![trigger param_lookup(p, k)]
        param_str(p, k) == last_value(pairs, k) && (param_lookup(p, k) is Some <==> last_value(
            pairs,
            k,
        ) is Some)
}

/// Parameters set from name and value pairs, in order, all with non-empty names.
pub fn string_parameters(pairs: &Vec<(String, String)>) -> (r: TemplateParameters)
    requires
        forall|i: int| 0 <= i < pairs@.len() ==> (#[trigger] pairs@[i]).0@.len() > 0,
    ensures
        params_from_pairs(r.entries@, pair_views(pairs@)),
{
    let mut p = TemplateParameters::new();
    let ghost pv = pair_views(pairs@);
    let mut i: usize = 0;
    while i < pairs.len()
        invariant
            i <= pairs@.len(),
            pv == pair_views(pairs@),
            forall|j: int| 0 <= j < pairs@.len() ==> (#[trigger] pairs@[j]).0@.len() > 0,
            params_from_pairs(p.entries@, pv.take(i as int)),
        decreases pairs@.len() - i,
    {
        let ghost before = p.entries@;
        let key = pairs[i].0.as_str();
        let value = pairs[i].1.as_str();
        assert(pairs@[i as int].0@.len() > 0);
        let _ = p.insert(key, value);
        assert(pv.take(i + 1).drop_last() =~= pv.take(i as int));
        assert(pv.take(i + 1).last() == (key@, value@));
        assert forall|k: Seq<char>| #![trigger param_lookup(p.entries@, k)]
            param_str(p.entries@, k) == last_value(pv.take(i + 1), k) && (param_lookup(p.entries@, k) is Some
                <==> last_value(pv.take(i + 1), k) is Some) by {
            lemma_params_set_lookup(before, p.entries@, key@, k);
            assert(param_str(p.entries@, k) == match param_lookup(p.entries@, k) {
                Some(ParamValue::Str(s)) => Some(s@),
                _ => None,
            });
            assert(param_str(before, k) == match param_lookup(before, k) {
                Some(ParamValue::Str(s)) => Some(s@),
                _ => None,
            });
        }
        i = i + 1;
    }
    assert(pv.take(pairs@.len() as int) =~= pv);
    p
}

/// A version number in semantic-versioning form.
#[derive(Debug)]
pub struct Version {
    pub major: u64,
    pub minor: u64,
    pub patch: u64,
    pub pre: String,
    pub build: String,
}

/// The decimal digits of `n`.
pub open spec fn decimal(n: nat) -> Seq<char>
    decreases n,
{
    if n < 10 {
        seq![((48 + n) as u8) as char]
    } else {
        decimal(n / 10).push(((48 + n % 10) as u8) as char)
    }
}

/// Appends the decimal digits of `n` to `s`.
pub fn push_decimal(s: &mut String, n: u64)
    ensures
        final(s)@ == old(s)@ + decimal(n as nat),
    decreases n,
{
    if n >= 10 {
        push_decimal(s, n / 10);
    }
    let d = (n % 10) as u8;
    push_char(s, (48u8 + d) as char);
    assert(final(s)@ =~= old(s)@ + decimal(n as nat));
}

/// The text of a version: `major.minor.patch`, then `-pre` and `+build` when present.
pub open spec fn version_text(v: Version) -> Seq<char> {
    let core = decimal(v.major as nat) + seq!['.'] + decimal(v.minor as nat) + seq!['.'] + decimal(
        v.patch as nat,
    );
    let with_pre = if v.pre@.len() > 0 {
        core + seq!['-'] + v.pre@
    } else {
        core
    };
    if v.build@.len() > 0 {
        with_pre + seq!['+'] + v.build@
    } else {
        with_pre
    }
}

/// What `semver::Version::parse` returns for `text`: the numbers, pre-release and
/// build metadata on success, the error message on failure.
pub uninterp spec fn semver_parse_result(text: Seq<char>) -> Result<
    (u64, u64, u64, Seq<char>, Seq<char>),
    Seq<char>,
>;

/// Calls `semver::Version::parse`; its result is named `semver_parse_result`.
#[verifier::external_body]
fn semver_parse(text: &str) -> (r: Result<Version, String>)
    ensures
        match r {
            Ok(v) => semver_parse_result(text@) == Ok::<
                (u64, u64, u64, Seq<char>, Seq<char>),
                Seq<char>,
            >((v.major, v.minor, v.patch, v.pre@, v.build@)),
            Err(e) => semver_parse_result(text@) == Err::<
                (u64, u64, u64, Seq<char>, Seq<char>),
                Seq<char>,
            >(e@),
        },
{
    match semver::Version::parse(text) {
        Ok(v) => Ok(
            Version {
                major: v.major,
                minor: v.minor,
                patch: v.patch,
                pre: v.pre.as_str().to_owned(),
                build: v.build.as_str().to_owned(),
            },
        ),
        Err(e) => Err(e.to_string()),
    }
}

impl Version {
    /// Parses a semantic version.
    pub fn parse(text: &str) -> (r: Result<Version, String>)
        ensures
            match r {
                Ok(v) => semver_parse_result(text@) == Ok::<
                    (u64, u64, u64, Seq<char>, Seq<char>),
                    Seq<char>,
                >((v.major, v.minor, v.patch, v.pre@, v.build@)),
                Err(e) => semver_parse_result(text@) == Err::<
                    (u64, u64, u64, Seq<char>, Seq<char>),
                    Seq<char>,
                >(e@),
            },
    {
        semver_parse(text)
    }

    /// The text of the version.
    pub fn to_text(&self) -> (r: String)
        ensures
            r@ == version_text(*self),
    {
        let mut s = String::new();
        push_decimal(&mut s, self.major);
        push_char(&mut s, '.');
        push_decimal(&mut s, self.minor);
        push_char(&mut s, '.');
        push_decimal(&mut s, self.patch);
        if self.pre.unicode_len() > 0 {
            push_char(&mut s, '-');
            s.append(self.pre.as_str());
        }
        if self.build.unicode_len() > 0 {
            push_char(&mut s, '+');
            s.append(self.build.as_str());
        }
        assert(s@ =~= version_text(*self));
        s
    }

    /// A field-by-field copy.
    pub fn copy(&self) -> (r: Version)
        ensures
            r == *self,
    {
        Version {
            major: self.major,
            minor: self.minor,
            patch: self.patch,
            pre: self.pre.clone(),
            build: self.build.clone(),
        }
    }
}

/// The language a template targets.
#[derive(Debug, Clone, Copy, PartialEq, Eq, Structural)]
pub enum Language {
    Neutral,
    Dotnet,
    Go,
    Rust,
}

/// A registered template source.
#[derive(Debug)]
pub struct TemplateSource {
    pub name: String,
    pub url: String,
    pub enabled: bool,
}

impl TemplateSource {
    /// An enabled source.
    pub fn new(name: String, url: String) -> (r: TemplateSource)
        ensures
            r.name == name,
            r.url == url,
            r.enabled,
    {
        TemplateSource { name, url, enabled: true }
    }

    /// A field-by-field copy.
    pub fn copy(&self) -> (r: TemplateSource)
        ensures
            r == *self,
    {
        TemplateSource { name: self.name.clone(), url: self.url.clone(), enabled: self.enabled }
    }
}

/// The metadata of a template.
#[derive(Debug)]
pub struct TemplateMetadata {
    pub id: String,
    pub name: String,
    pub description: String,
    pub version: Version,
    pub language: Language,
    pub tags: Vec<String>,
    pub author: Option<String>,
    pub min_cli_version: Option<Version>,
    pub source_url: Option<String>,
}

/// A template found in a source's cache.
#[derive(Debug)]
pub struct TemplateDescriptor {
    pub metadata: TemplateMetadata,
    pub cache_path: String,
}

/// The templates of one source.
#[derive(Debug)]
pub struct TemplateCatalog {
    pub source_name: String,
    pub templates: Vec<TemplateDescriptor>,
}

} // verus!
