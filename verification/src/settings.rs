//! What the command line lays over the configuration.

use vstd::prelude::*;
use crate::args::{Args, Arguments};
use crate::text::{split_once, split_once_at, texts};

verus! {

/// How a setting meets a value that the configuration already has for its
/// key.
#[derive(Clone, Copy, Debug, PartialEq, Eq, Structural)]
pub enum Layer {
    /// The configuration's value stays.
    Join,
    /// The configuration's value stays; lists are concatenated.
    Adjoin,
    /// The setting's value replaces the configuration's.
    Merge,
}

/// The value of a setting.
#[derive(Debug, PartialEq, Eq)]
pub enum SettingValue {
    Flag(bool),
    List(Vec<String>),
    /// A line `key=value` of a configuration file, to be read as such; the
    /// setting's value is what the line gives its key.
    Line(String),
}

/// The mathematical value of a [`SettingValue`].
pub enum Value {
    Flag(bool),
    List(Seq<Seq<char>>),
    Line(Seq<char>),
}

impl View for SettingValue {
    type V = Value;

    open spec fn view(&self) -> Value {
        match self {
            SettingValue::Flag(b) => Value::Flag(*b),
            SettingValue::List(items) => Value::List(texts(items@)),
            SettingValue::Line(line) => Value::Line(line@),
        }
    }
}

/// One change to the configuration.
#[derive(Debug, PartialEq, Eq)]
pub struct Setting {
    pub key: String,
    pub value: SettingValue,
    pub layer: Layer,
}

/// The mathematical value of a [`Setting`].
pub struct Change {
    pub key: Seq<char>,
    pub value: Value,
    pub layer: Layer,
}

impl View for Setting {
    type V = Change;

    open spec fn view(&self) -> Change {
        Change { key: self.key@, value: self.value@, layer: self.layer }
    }
}

/// The views of a sequence of settings, in order.
pub open spec fn changes(v: Seq<Setting>) -> Seq<Change> {
    v.map_values(|s: Setting| s@)
}

/// What is wrong with the override at the given position among the
/// overrides.
#[derive(Clone, Copy, Debug, PartialEq, Eq, Structural)]
pub enum OptionError {
    /// It holds no `=`.
    MissingEquals(usize),
    /// Nothing stands before its `=`.
    MissingKey(usize),
    /// Nothing stands behind its `=`.
    MissingValue(usize),
}

/// The changes that a command line asks for, and the first override that
/// is ill-formed, if there is one. The changes end before that override.
#[derive(Debug, PartialEq, Eq)]
pub struct Update {
    pub settings: Vec<Setting>,
    pub error: Option<OptionError>,
}

/// The change that the override `option`, at position `at` among the
/// overrides, asks for: its key is what stands before the first `=`, and
/// neither that nor what stands behind it may be empty.
pub open spec fn override_of(option: Seq<char>, at: usize) -> Result<Change, OptionError> {
    match split_once_at(option, '=') {
        None => Err(OptionError::MissingEquals(at)),
        Some((key, value)) => if key.len() == 0 {
            Err(OptionError::MissingKey(at))
        } else if value.len() == 0 {
            Err(OptionError::MissingValue(at))
        } else {
            Ok(Change { key, value: Value::Line(option), layer: Layer::Merge })
        },
    }
}

/// The position of the first ill-formed override at or after `i`, or the
/// number of overrides when there is none.
pub open spec fn first_bad(options: Seq<Seq<char>>, i: int) -> int
    decreases options.len() - i,
{
    if 0 <= i < options.len() && override_of(options[i], i as usize) is Ok {
        first_bad(options, i + 1)
    } else {
        i
    }
}

/// The changes that do not depend on the overrides.
///
/// Read-only mode makes the database read-only. Read-only mode and
/// maintenance mode both switch the startup burst and the listening off.
/// The commands to execute and the testing modes are added to the
/// configuration's own.
pub open spec fn fixed_changes(args: Arguments) -> Seq<Change> {
    let database = if args.read_only {
        seq![Change { key: "rocksdb_read_only"@, value: Value::Flag(true), layer: Layer::Join }]
    } else {
        Seq::empty()
    };
    let quiet = if args.maintenance || args.read_only {
        seq![
            Change { key: "startup_netburst"@, value: Value::Flag(false), layer: Layer::Join },
            Change { key: "listening"@, value: Value::Flag(false), layer: Layer::Join },
        ]
    } else {
        Seq::empty()
    };
    database + quiet + seq![
        Change { key: "admin_execute"@, value: Value::List(args.execute), layer: Layer::Adjoin },
        Change { key: "test"@, value: Value::List(args.test), layer: Layer::Adjoin },
    ]
}

/// The changes of the overrides before position `n`.
pub open spec fn override_changes(options: Seq<Seq<char>>, n: int) -> Seq<Change> {
    Seq::new(n as nat, |k: int| override_of(options[k], k as usize)->Ok_0)
}

/// All changes that the command line asks for, in the order in which they
/// are to be made: the fixed ones, then the overrides up to the first
/// ill-formed one.
pub open spec fn planned_changes(args: Arguments) -> Seq<Change> {
    fixed_changes(args) + override_changes(args.option, first_bad(args.option, 0))
}

/// The error of the first ill-formed override, if there is one.
pub open spec fn planned_error(args: Arguments) -> Option<OptionError> {
    let bad = first_bad(args.option, 0);
    if 0 <= bad < args.option.len() {
        Some(override_of(args.option[bad], bad as usize)->Err_0)
    } else {
        None
    }
}

/// The view of what `read_override` returns.
pub open spec fn change_of(r: Result<Setting, OptionError>) -> Result<Change, OptionError> {
    match r {
        Ok(setting) => Ok(setting@),
        Err(e) => Err(e),
    }
}

/// Reads one override.
pub fn read_override(option: &str, at: usize) -> (r: Result<Setting, OptionError>)
    ensures
        change_of(r) == override_of(option@, at),
{
    let Some((key, value)) = split_once(option, '=') else {
        return Err(OptionError::MissingEquals(at));
    };
    if key.is_empty() {
        return Err(OptionError::MissingKey(at));
    }
    if value.is_empty() {
        return Err(OptionError::MissingValue(at));
    }
    Ok(
        Setting {
            key: key.to_owned(),
            value: SettingValue::Line(option.to_owned()),
            layer: Layer::Merge,
        },
    )
}

fn clone_texts(v: &Vec<String>) -> (out: Vec<String>)
    ensures
        texts(out@) == texts(v@),
{
    let mut out: Vec<String> = Vec::new();
    let mut i: usize = 0;
    while i < v.len()
        invariant
            0 <= i <= v.len(),
            out@.len() == i,
            forall|k: int| 0 <= k < i ==> out@[k]@ == v@[k]@,
        decreases v.len() - i,
    {
        out.push(v[i].clone());
        i += 1;
    }
    assert(texts(out@) =~= texts(v@));
    out
}

fn flag_setting(key: &str, value: bool) -> (r: Setting)
    ensures
        r@ == (Change { key: key@, value: Value::Flag(value), layer: Layer::Join }),
{
    Setting { key: key.to_owned(), value: SettingValue::Flag(value), layer: Layer::Join }
}

fn list_setting(key: &str, items: &Vec<String>) -> (r: Setting)
    ensures
        r@ == (Change { key: key@, value: Value::List(texts(items@)), layer: Layer::Adjoin }),
{
    Setting {
        key: key.to_owned(),
        value: SettingValue::List(clone_texts(items)),
        layer: Layer::Adjoin,
    }
}

fn fixed_settings(args: &Args) -> (out: Vec<Setting>)
    ensures
        changes(out@) == fixed_changes(args@),
{
    let mut out: Vec<Setting> = Vec::new();
    if args.read_only {
        out.push(flag_setting("rocksdb_read_only", true));
    }
    if args.maintenance || args.read_only {
        out.push(flag_setting("startup_netburst", false));
        out.push(flag_setting("listening", false));
    }
    out.push(list_setting("admin_execute", &args.execute));
    out.push(list_setting("test", &args.test));
    assert(changes(out@) =~= fixed_changes(args@));
    out
}

/// Works out what the command line lays over the configuration.
///
/// The changes are to be made in order. Where an override is ill-formed,
/// the changes end before it and the error names it; the caller then has no
/// use for the configuration that the changes have led to.
pub fn update(args: &Args) -> (r: Update)
    ensures
        changes(r.settings@) == planned_changes(args@),
        r.error == planned_error(args@),
{
    let ghost options = texts(args.option@);
    let ghost fixed = fixed_changes(args@);
    let mut settings = fixed_settings(args);
    let mut i: usize = 0;
    while i < args.option.len()
        invariant
            options == texts(args.option@),
            fixed == fixed_changes(args@),
            0 <= i <= args.option@.len(),
            first_bad(options, 0) == first_bad(options, i as int),
            changes(settings@) == fixed + override_changes(options, i as int),
        decreases args.option@.len() - i,
    {
        assert(options[i as int] == args.option@[i as int]@);
        match read_override(args.option[i].as_str(), i) {
            Err(e) => {
                return Update { settings, error: Some(e) };
            },
            Ok(setting) => {
                proof {
                    assert(changes(settings@.push(setting)) =~= changes(settings@).push(setting@));
                    assert(override_changes(options, i + 1) =~= override_changes(
                        options,
                        i as int,
                    ).push(setting@));
                    assert((fixed + override_changes(options, i as int)).push(setting@) =~= fixed
                        + override_changes(options, i + 1));
                }
                settings.push(setting);
            },
        }
        i += 1;
    }
    Update { settings, error: None }
}

} // verus!
