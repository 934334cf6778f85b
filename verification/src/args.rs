//! The server's command line.
//!
//! Arguments are read from left to right. An option is written `--name`,
//! and two of them also `-c` and `-O`. A value follows its option after `=`
//! or as the next argument; after a one-letter option it may also follow
//! directly. An argument of two or more characters that begins with `-` is
//! always read as an option, never as a value. `--` ends the options. The
//! server takes no other arguments. The first argument that breaks a rule
//! ends the reading with an error that names its position.
//!
//! What the command line leaves open is taken from the environment, and
//! else from fixed defaults.

use vstd::prelude::*;
use crate::info::opt_text;
use crate::number::{number, parse_number, parse_truth, truth};
use crate::text::{find_char, same_text, texts, to_chars};
use crate::tokens::opt_str;

verus! {

/// The options of the command line, and the two requests `Help` and
/// `Version`.
#[derive(Clone, Copy, Debug, PartialEq, Eq, Structural)]
pub enum Name {
    Config,
    Override,
    ReadOnly,
    Maintenance,
    Execute,
    Test,
    WorkerThreads,
    GlobalEventInterval,
    KernelEventInterval,
    KernelEventsPerTick,
    WorkerHistogramInterval,
    WorkerHistogramBuckets,
    WorkerAffinity,
    GcOnPark,
    GcMuzzy,
    Help,
    Version,
}

/// How an option takes values.
#[derive(Clone, Copy, Debug, PartialEq, Eq, Structural)]
pub enum Shape {
    /// No value; at most once.
    Flag,
    /// One value each time; any number of times.
    List,
    /// One value, a number of at most the given size, before which a minus
    /// sign may or may not stand where it is zero; at most once.
    Number(u64, bool),
    /// One truth value or none; at most once.
    Switch,
    /// Ends the reading.
    Request,
}

/// Why a command line is not read to its end.
#[derive(Clone, Copy, Debug, PartialEq, Eq, Structural)]
pub enum ArgsError {
    /// The command line asks for the usage text.
    Help,
    /// The command line asks for the version.
    Version,
    /// The argument at this position names no option.
    UnknownArgument(usize),
    /// The argument at this position is no option and no option's value.
    UnexpectedArgument(usize),
    /// The option at this position has a value and takes none.
    UnexpectedValue(usize),
    /// The option at this position takes a value and has none.
    MissingValue(usize),
    /// The option at this position was given before and can be given once.
    Repeated(usize),
    /// The value of the option at this position is not of the kind it takes.
    InvalidValue(usize),
    /// The environment's value for this option is not of the kind it takes.
    InvalidEnvironment(Name),
}

/// What the command line says, with every gap filled.
#[derive(Debug, PartialEq, Eq)]
pub struct Args {
    /// Paths of the configuration files.
    pub config: Option<Vec<String>>,
    /// Configuration overrides, each written `key=value`.
    pub option: Vec<String>,
    /// Run in a stricter read-only maintenance mode.
    pub read_only: bool,
    /// Run in maintenance mode while refusing connections.
    pub maintenance: bool,
    /// Console commands to execute after startup.
    pub execute: Vec<String>,
    /// Functional testing modes.
    pub test: Vec<String>,
    pub worker_threads: usize,
    pub global_event_interval: u32,
    pub kernel_event_interval: u32,
    pub kernel_events_per_tick: usize,
    pub worker_histogram_interval: u64,
    pub worker_histogram_buckets: usize,
    pub worker_affinity: bool,
    pub gc_on_park: Option<bool>,
    pub gc_muzzy: Option<bool>,
}

/// The view of an optional list of strings.
pub open spec fn opt_texts(o: Option<Vec<String>>) -> Option<Seq<Seq<char>>> {
    match o {
        Some(v) => Some(texts(v@)),
        None => None,
    }
}

/// The mathematical value of an [`Args`].
pub struct Arguments {
    pub config: Option<Seq<Seq<char>>>,
    pub option: Seq<Seq<char>>,
    pub read_only: bool,
    pub maintenance: bool,
    pub execute: Seq<Seq<char>>,
    pub test: Seq<Seq<char>>,
    pub worker_threads: usize,
    pub global_event_interval: u32,
    pub kernel_event_interval: u32,
    pub kernel_events_per_tick: usize,
    pub worker_histogram_interval: u64,
    pub worker_histogram_buckets: usize,
    pub worker_affinity: bool,
    pub gc_on_park: Option<bool>,
    pub gc_muzzy: Option<bool>,
}

impl View for Args {
    type V = Arguments;

    open spec fn view(&self) -> Arguments {
        Arguments {
            config: opt_texts(self.config),
            option: texts(self.option@),
            read_only: self.read_only,
            maintenance: self.maintenance,
            execute: texts(self.execute@),
            test: texts(self.test@),
            worker_threads: self.worker_threads,
            global_event_interval: self.global_event_interval,
            kernel_event_interval: self.kernel_event_interval,
            kernel_events_per_tick: self.kernel_events_per_tick,
            worker_histogram_interval: self.worker_histogram_interval,
            worker_histogram_buckets: self.worker_histogram_buckets,
            worker_affinity: self.worker_affinity,
            gc_on_park: self.gc_on_park,
            gc_muzzy: self.gc_muzzy,
        }
    }
}

/// What the environment says of the options that the command line may
/// leave open: for each the text of its variable, if set, and the number of
/// threads that the machine can run at once.
#[derive(Debug, PartialEq, Eq)]
pub struct Environment {
    pub available_parallelism: usize,
    pub worker_threads: Option<String>,
    pub global_event_interval: Option<String>,
    pub kernel_event_interval: Option<String>,
    pub kernel_events_per_tick: Option<String>,
    pub worker_histogram_interval: Option<String>,
    pub worker_histogram_buckets: Option<String>,
    pub worker_affinity: Option<String>,
    pub gc_on_park: Option<String>,
    pub gc_muzzy: Option<String>,
}

/// The mathematical value of an [`Environment`].
pub struct Surroundings {
    pub available_parallelism: usize,
    pub worker_threads: Option<Seq<char>>,
    pub global_event_interval: Option<Seq<char>>,
    pub kernel_event_interval: Option<Seq<char>>,
    pub kernel_events_per_tick: Option<Seq<char>>,
    pub worker_histogram_interval: Option<Seq<char>>,
    pub worker_histogram_buckets: Option<Seq<char>>,
    pub worker_affinity: Option<Seq<char>>,
    pub gc_on_park: Option<Seq<char>>,
    pub gc_muzzy: Option<Seq<char>>,
}

impl View for Environment {
    type V = Surroundings;

    open spec fn view(&self) -> Surroundings {
        Surroundings {
            available_parallelism: self.available_parallelism,
            worker_threads: opt_text(self.worker_threads),
            global_event_interval: opt_text(self.global_event_interval),
            kernel_event_interval: opt_text(self.kernel_event_interval),
            kernel_events_per_tick: opt_text(self.kernel_events_per_tick),
            worker_histogram_interval: opt_text(self.worker_histogram_interval),
            worker_histogram_buckets: opt_text(self.worker_histogram_buckets),
            worker_affinity: opt_text(self.worker_affinity),
            gc_on_park: opt_text(self.gc_on_park),
            gc_muzzy: opt_text(self.gc_muzzy),
        }
    }
}

/// The option with the long name `name`.
pub open spec fn long_option(name: Seq<char>) -> Option<Name> {
    if name == "config"@ {
        Some(Name::Config)
    } else if name == "option"@ {
        Some(Name::Override)
    } else if name == "read-only"@ {
        Some(Name::ReadOnly)
    } else if name == "maintenance"@ {
        Some(Name::Maintenance)
    } else if name == "execute"@ {
        Some(Name::Execute)
    } else if name == "test"@ {
        Some(Name::Test)
    } else if name == "worker-threads"@ {
        Some(Name::WorkerThreads)
    } else if name == "global-event-interval"@ {
        Some(Name::GlobalEventInterval)
    } else if name == "kernel-event-interval"@ {
        Some(Name::KernelEventInterval)
    } else if name == "kernel-events-per-tick"@ {
        Some(Name::KernelEventsPerTick)
    } else if name == "worker-histogram-interval"@ {
        Some(Name::WorkerHistogramInterval)
    } else if name == "worker-histogram-buckets"@ {
        Some(Name::WorkerHistogramBuckets)
    } else if name == "worker-affinity"@ {
        Some(Name::WorkerAffinity)
    } else if name == "gc-on-park"@ {
        Some(Name::GcOnPark)
    } else if name == "gc-muzzy"@ {
        Some(Name::GcMuzzy)
    } else if name == "help"@ {
        Some(Name::Help)
    } else if name == "version"@ {
        Some(Name::Version)
    } else {
        None
    }
}

/// The option with the one-letter name `letter`.
pub open spec fn short_option(letter: char) -> Option<Name> {
    if letter == 'c' {
        Some(Name::Config)
    } else if letter == 'O' {
        Some(Name::Override)
    } else if letter == 'h' {
        Some(Name::Help)
    } else if letter == 'V' {
        Some(Name::Version)
    } else {
        None
    }
}

/// How the option takes values.
pub open spec fn shape_of(name: Name) -> Shape {
    match name {
        Name::Config | Name::Override | Name::Execute | Name::Test => Shape::List,
        Name::ReadOnly | Name::Maintenance => Shape::Flag,
        Name::WorkerThreads | Name::KernelEventsPerTick | Name::WorkerHistogramBuckets => Shape::Number(
            usize::MAX as u64,
            false,
        ),
        Name::GlobalEventInterval | Name::KernelEventInterval => Shape::Number(u32::MAX as u64, true),
        Name::WorkerHistogramInterval => Shape::Number(u64::MAX, false),
        Name::WorkerAffinity | Name::GcOnPark | Name::GcMuzzy => Shape::Switch,
        Name::Help | Name::Version => Shape::Request,
    }
}

/// The argument is read as an option: it begins with `-` and is longer than
/// that.
pub open spec fn is_option(t: Seq<char>) -> bool {
    t.len() >= 2 && t[0] == '-'
}

/// The option that the argument names, if it is read as an option and
/// names one.
pub open spec fn named(t: Seq<char>) -> Option<Name>
    recommends
        is_option(t),
{
    if t[1] == '-' {
        long_option(t.subrange(2, find_char(t, '=', 2)))
    } else {
        short_option(t[1])
    }
}

/// The value that the argument brings for its option: behind the first `=`
/// of `--name=value`; behind the letter of `-cvalue`, less a leading `=`.
pub open spec fn attached(t: Seq<char>) -> Option<Seq<char>>
    recommends
        is_option(t),
{
    if t[1] == '-' {
        let at = find_char(t, '=', 2);
        if at < t.len() {
            Some(t.subrange(at + 1, t.len() as int))
        } else {
            None
        }
    } else if t.len() == 2 {
        None
    } else if t[2] == '=' {
        Some(t.subrange(3, t.len() as int))
    } else {
        Some(t.subrange(2, t.len() as int))
    }
}

/// One option as read from the command line: its name, its value, and
/// whether the value was the next argument.
pub struct Reading {
    pub name: Name,
    pub value: Option<Seq<char>>,
    pub took_next: bool,
}

/// The option at position `i`, with its value.
///
/// A flag takes no value, and neither does `--help` or `--version`. A list
/// option or a number takes the value that the argument brings, or else the
/// next argument, unless that is read as an option. A switch does the same,
/// and goes without a value where there is none to take.
pub open spec fn read_at(tokens: Seq<Seq<char>>, i: int) -> Result<Reading, ArgsError>
    recommends
        0 <= i < tokens.len(),
{
    let t = tokens[i];
    let next_is_value = i + 1 < tokens.len() && !is_option(tokens[i + 1]);
    if !is_option(t) {
        Err(ArgsError::UnexpectedArgument(i as usize))
    } else {
        match named(t) {
            None => Err(ArgsError::UnknownArgument(i as usize)),
            Some(name) => match shape_of(name) {
                Shape::Request => if t[1] == '-' && attached(t) is Some {
                    Err(ArgsError::UnexpectedValue(i as usize))
                } else if name == Name::Help {
                    Err(ArgsError::Help)
                } else {
                    Err(ArgsError::Version)
                },
                Shape::Flag => if attached(t) is Some {
                    Err(ArgsError::UnexpectedValue(i as usize))
                } else {
                    Ok(Reading { name, value: None, took_next: false })
                },
                Shape::Switch => if attached(t) is Some {
                    Ok(Reading { name, value: attached(t), took_next: false })
                } else if next_is_value {
                    Ok(Reading { name, value: Some(tokens[i + 1]), took_next: true })
                } else {
                    Ok(Reading { name, value: None, took_next: false })
                },
                _ => if attached(t) is Some {
                    Ok(Reading { name, value: attached(t), took_next: false })
                } else if next_is_value {
                    Ok(Reading { name, value: Some(tokens[i + 1]), took_next: true })
                } else {
                    Err(ArgsError::MissingValue(i as usize))
                },
            },
        }
    }
}

/// What has been read of a command line so far.
pub struct Draft {
    config_given: bool,
    config: Vec<String>,
    option: Vec<String>,
    read_only: bool,
    maintenance: bool,
    execute: Vec<String>,
    test: Vec<String>,
    worker_threads: Option<u64>,
    global_event_interval: Option<u64>,
    kernel_event_interval: Option<u64>,
    kernel_events_per_tick: Option<u64>,
    worker_histogram_interval: Option<u64>,
    worker_histogram_buckets: Option<u64>,
    worker_affinity: Option<Option<bool>>,
    gc_on_park: Option<Option<bool>>,
    gc_muzzy: Option<Option<bool>>,
}

/// The mathematical value of a [`Draft`]. A number that was given is there
/// with its value; a switch that was given is there with its value, if it
/// had one.
pub struct Sketch {
    pub config: Option<Seq<Seq<char>>>,
    pub option: Seq<Seq<char>>,
    pub read_only: bool,
    pub maintenance: bool,
    pub execute: Seq<Seq<char>>,
    pub test: Seq<Seq<char>>,
    pub worker_threads: Option<u64>,
    pub global_event_interval: Option<u64>,
    pub kernel_event_interval: Option<u64>,
    pub kernel_events_per_tick: Option<u64>,
    pub worker_histogram_interval: Option<u64>,
    pub worker_histogram_buckets: Option<u64>,
    pub worker_affinity: Option<Option<bool>>,
    pub gc_on_park: Option<Option<bool>>,
    pub gc_muzzy: Option<Option<bool>>,
}

impl View for Draft {
    type V = Sketch;

    closed spec fn view(&self) -> Sketch {
        Sketch {
            config: if self.config_given {
                Some(texts(self.config@))
            } else {
                None
            },
            option: texts(self.option@),
            read_only: self.read_only,
            maintenance: self.maintenance,
            execute: texts(self.execute@),
            test: texts(self.test@),
            worker_threads: self.worker_threads,
            global_event_interval: self.global_event_interval,
            kernel_event_interval: self.kernel_event_interval,
            kernel_events_per_tick: self.kernel_events_per_tick,
            worker_histogram_interval: self.worker_histogram_interval,
            worker_histogram_buckets: self.worker_histogram_buckets,
            worker_affinity: self.worker_affinity,
            gc_on_park: self.gc_on_park,
            gc_muzzy: self.gc_muzzy,
        }
    }
}

/// A flag, once more.
pub open spec fn flag_given(seen: bool, at: usize) -> Result<bool, ArgsError> {
    if seen {
        Err(ArgsError::Repeated(at))
    } else {
        Ok(true)
    }
}

/// A number, given as `value`.
pub open spec fn number_given(
    seen: Option<u64>,
    value: Seq<char>,
    max: u64,
    minus_zero: bool,
    at: usize,
) -> Result<
    Option<u64>,
    ArgsError,
> {
    if seen is Some {
        Err(ArgsError::Repeated(at))
    } else {
        match number(value, max, minus_zero) {
            Some(n) => Ok(Some(n)),
            None => Err(ArgsError::InvalidValue(at)),
        }
    }
}

/// A switch, given with `value` or without one.
pub open spec fn switch_given(seen: Option<Option<bool>>, value: Option<Seq<char>>, at: usize) -> Result<
    Option<Option<bool>>,
    ArgsError,
> {
    if seen is Some {
        Err(ArgsError::Repeated(at))
    } else {
        match value {
            None => Ok(Some(None)),
            Some(text) => match truth(text) {
                Some(b) => Ok(Some(Some(b))),
                None => Err(ArgsError::InvalidValue(at)),
            },
        }
    }
}

impl Sketch {
    /// Nothing read yet.
    pub open spec fn empty() -> Sketch {
        Sketch {
            config: None,
            option: Seq::empty(),
            read_only: false,
            maintenance: false,
            execute: Seq::empty(),
            test: Seq::empty(),
            worker_threads: None,
            global_event_interval: None,
            kernel_event_interval: None,
            kernel_events_per_tick: None,
            worker_histogram_interval: None,
            worker_histogram_buckets: None,
            worker_affinity: None,
            gc_on_park: None,
            gc_muzzy: None,
        }
    }

    /// The sketch with one more option read at position `at`.
    ///
    /// A list grows by the value. A flag, a number and a switch are refused
    /// the second time; a number and a switch also when the value is none
    /// of theirs. A list and a number without a value are refused as
    /// missing it.
    pub open spec fn with(self, name: Name, value: Option<Seq<char>>, at: usize) -> Result<
        Sketch,
        ArgsError,
    > {
        if (shape_of(name) is List || shape_of(name) is Number) && value is None {
            Err(ArgsError::MissingValue(at))
        } else {
            self.placed(name, value, at)
        }
    }

    /// The sketch with one more option, which has a value if it takes one.
    pub open spec fn placed(self, name: Name, value: Option<Seq<char>>, at: usize) -> Result<
        Sketch,
        ArgsError,
    >
        recommends
            shape_of(name) is List || shape_of(name) is Number ==> value is Some,
    {
        match name {
            Name::Config => Ok(
                Sketch {
                    config: Some(
                        match self.config {
                            Some(paths) => paths.push(value->0),
                            None => seq![value->0],
                        },
                    ),
                    ..self
                },
            ),
            Name::Override => Ok(Sketch { option: self.option.push(value->0), ..self }),
            Name::Execute => Ok(Sketch { execute: self.execute.push(value->0), ..self }),
            Name::Test => Ok(Sketch { test: self.test.push(value->0), ..self }),
            Name::ReadOnly => match flag_given(self.read_only, at) {
                Ok(b) => Ok(Sketch { read_only: b, ..self }),
                Err(e) => Err(e),
            },
            Name::Maintenance => match flag_given(self.maintenance, at) {
                Ok(b) => Ok(Sketch { maintenance: b, ..self }),
                Err(e) => Err(e),
            },
            Name::WorkerThreads => match number_given(
                self.worker_threads,
                value->0,
                usize::MAX as u64,
                false,
                at,
            ) {
                Ok(n) => Ok(Sketch { worker_threads: n, ..self }),
                Err(e) => Err(e),
            },
            Name::GlobalEventInterval => match number_given(
                self.global_event_interval,
                value->0,
                u32::MAX as u64,
                true,
                at,
            ) {
                Ok(n) => Ok(Sketch { global_event_interval: n, ..self }),
                Err(e) => Err(e),
            },
            Name::KernelEventInterval => match number_given(
                self.kernel_event_interval,
                value->0,
                u32::MAX as u64,
                true,
                at,
            ) {
                Ok(n) => Ok(Sketch { kernel_event_interval: n, ..self }),
                Err(e) => Err(e),
            },
            Name::KernelEventsPerTick => match number_given(
                self.kernel_events_per_tick,
                value->0,
                usize::MAX as u64,
                false,
                at,
            ) {
                Ok(n) => Ok(Sketch { kernel_events_per_tick: n, ..self }),
                Err(e) => Err(e),
            },
            Name::WorkerHistogramInterval => match number_given(
                self.worker_histogram_interval,
                value->0,
                u64::MAX,
                false,
                at,
            ) {
                Ok(n) => Ok(Sketch { worker_histogram_interval: n, ..self }),
                Err(e) => Err(e),
            },
            Name::WorkerHistogramBuckets => match number_given(
                self.worker_histogram_buckets,
                value->0,
                usize::MAX as u64,
                false,
                at,
            ) {
                Ok(n) => Ok(Sketch { worker_histogram_buckets: n, ..self }),
                Err(e) => Err(e),
            },
            Name::WorkerAffinity => match switch_given(self.worker_affinity, value, at) {
                Ok(s) => Ok(Sketch { worker_affinity: s, ..self }),
                Err(e) => Err(e),
            },
            Name::GcOnPark => match switch_given(self.gc_on_park, value, at) {
                Ok(s) => Ok(Sketch { gc_on_park: s, ..self }),
                Err(e) => Err(e),
            },
            Name::GcMuzzy => match switch_given(self.gc_muzzy, value, at) {
                Ok(s) => Ok(Sketch { gc_muzzy: s, ..self }),
                Err(e) => Err(e),
            },
            Name::Help => Err(ArgsError::Help),
            Name::Version => Err(ArgsError::Version),
        }
    }
}

/// The sketch after the arguments from position `i` on have been read.
///
/// `--` ends the options, and an argument after it is refused, as is any
/// argument that is not an option or an option's value.
pub open spec fn scanned(tokens: Seq<Seq<char>>, i: int, sketch: Sketch) -> Result<Sketch, ArgsError>
    decreases tokens.len() - i,
{
    if i < 0 || i >= tokens.len() {
        Ok(sketch)
    } else if tokens[i] == "--"@ {
        if i + 1 < tokens.len() {
            Err(ArgsError::UnexpectedArgument((i + 1) as usize))
        } else {
            Ok(sketch)
        }
    } else {
        match read_at(tokens, i) {
            Err(e) => Err(e),
            Ok(reading) => match sketch.with(reading.name, reading.value, i as usize) {
                Err(e) => Err(e),
                Ok(more) => scanned(
                    tokens,
                    i + 1 + if reading.took_next {
                        1int
                    } else {
                        0int
                    },
                    more,
                ),
            },
        }
    }
}

/// The value of a number: as given; else as the environment has it, which
/// must then be a number of the right size; else the default.
pub open spec fn settled_number(
    given: Option<u64>,
    env: Option<Seq<char>>,
    max: u64,
    minus_zero: bool,
    default: u64,
    name: Name,
) -> Result<u64, ArgsError> {
    match given {
        Some(n) => Ok(n),
        None => match env {
            Some(text) => match number(text, max, minus_zero) {
                Some(n) => Ok(n),
                None => Err(ArgsError::InvalidEnvironment(name)),
            },
            None => Ok(default),
        },
    }
}

/// The value of a switch: as given, and `bare` where it was given without
/// a value; else as the environment has it, which must then be a truth
/// value; else `default`.
pub open spec fn settled_switch(
    given: Option<Option<bool>>,
    env: Option<Seq<char>>,
    bare: Option<bool>,
    default: Option<bool>,
    name: Name,
) -> Result<Option<bool>, ArgsError> {
    match given {
        Some(Some(b)) => Ok(Some(b)),
        Some(None) => Ok(bare),
        None => match env {
            Some(text) => match truth(text) {
                Some(b) => Ok(Some(b)),
                None => Err(ArgsError::InvalidEnvironment(name)),
            },
            None => Ok(default),
        },
    }
}

/// The numbers and switches of a command line, settled one after the other.
pub struct Settled {
    pub worker_threads: Result<u64, ArgsError>,
    pub global_event_interval: Result<u64, ArgsError>,
    pub kernel_event_interval: Result<u64, ArgsError>,
    pub kernel_events_per_tick: Result<u64, ArgsError>,
    pub worker_histogram_interval: Result<u64, ArgsError>,
    pub worker_histogram_buckets: Result<u64, ArgsError>,
    pub worker_affinity: Result<Option<bool>, ArgsError>,
    pub gc_on_park: Result<Option<bool>, ArgsError>,
    pub gc_muzzy: Result<Option<bool>, ArgsError>,
}

impl Settled {
    /// The first error among the settled values, in the order of the fields.
    pub open spec fn first_error(self) -> Option<ArgsError> {
        if self.worker_threads is Err {
            Some(self.worker_threads->Err_0)
        } else if self.global_event_interval is Err {
            Some(self.global_event_interval->Err_0)
        } else if self.kernel_event_interval is Err {
            Some(self.kernel_event_interval->Err_0)
        } else if self.kernel_events_per_tick is Err {
            Some(self.kernel_events_per_tick->Err_0)
        } else if self.worker_histogram_interval is Err {
            Some(self.worker_histogram_interval->Err_0)
        } else if self.worker_histogram_buckets is Err {
            Some(self.worker_histogram_buckets->Err_0)
        } else if self.worker_affinity is Err {
            Some(self.worker_affinity->Err_0)
        } else if self.gc_on_park is Err {
            Some(self.gc_on_park->Err_0)
        } else if self.gc_muzzy is Err {
            Some(self.gc_muzzy->Err_0)
        } else {
            None
        }
    }
}

/// Each number and switch of the sketch, settled against the environment.
///
/// The number of worker threads defaults to what the machine can run at
/// once, the other numbers to 192, 512, 512, 25 and 20. Worker affinity is
/// on by default and where the switch is given bare; the two other switches
/// stay open in both cases.
pub open spec fn settled(sketch: Sketch, env: Surroundings) -> Settled {
    Settled {
        worker_threads: settled_number(
            sketch.worker_threads,
            env.worker_threads,
            usize::MAX as u64,
                false,
            env.available_parallelism as u64,
            Name::WorkerThreads,
        ),
        global_event_interval: settled_number(
            sketch.global_event_interval,
            env.global_event_interval,
            u32::MAX as u64,
                true,
            192,
            Name::GlobalEventInterval,
        ),
        kernel_event_interval: settled_number(
            sketch.kernel_event_interval,
            env.kernel_event_interval,
            u32::MAX as u64,
                true,
            512,
            Name::KernelEventInterval,
        ),
        kernel_events_per_tick: settled_number(
            sketch.kernel_events_per_tick,
            env.kernel_events_per_tick,
            usize::MAX as u64,
                false,
            512,
            Name::KernelEventsPerTick,
        ),
        worker_histogram_interval: settled_number(
            sketch.worker_histogram_interval,
            env.worker_histogram_interval,
            u64::MAX,
                false,
            25,
            Name::WorkerHistogramInterval,
        ),
        worker_histogram_buckets: settled_number(
            sketch.worker_histogram_buckets,
            env.worker_histogram_buckets,
            usize::MAX as u64,
                false,
            20,
            Name::WorkerHistogramBuckets,
        ),
        worker_affinity: settled_switch(
            sketch.worker_affinity,
            env.worker_affinity,
            Some(true),
            Some(true),
            Name::WorkerAffinity,
        ),
        gc_on_park: settled_switch(
            sketch.gc_on_park,
            env.gc_on_park,
            None,
            None,
            Name::GcOnPark,
        ),
        gc_muzzy: settled_switch(sketch.gc_muzzy, env.gc_muzzy, None, None, Name::GcMuzzy),
    }
}

/// The arguments that a sketch stands for in the given environment, or the
/// first error in settling them.
pub open spec fn finished(sketch: Sketch, env: Surroundings) -> Result<Arguments, ArgsError> {
    let s = settled(sketch, env);
    match s.first_error() {
        Some(e) => Err(e),
        None => Ok(
            Arguments {
                config: sketch.config,
                option: sketch.option,
                read_only: sketch.read_only,
                maintenance: sketch.maintenance,
                execute: sketch.execute,
                test: sketch.test,
                worker_threads: s.worker_threads->Ok_0 as usize,
                global_event_interval: s.global_event_interval->Ok_0 as u32,
                kernel_event_interval: s.kernel_event_interval->Ok_0 as u32,
                kernel_events_per_tick: s.kernel_events_per_tick->Ok_0 as usize,
                worker_histogram_interval: s.worker_histogram_interval->Ok_0,
                worker_histogram_buckets: s.worker_histogram_buckets->Ok_0 as usize,
                worker_affinity: s.worker_affinity->Ok_0 == Some(true),
                gc_on_park: s.gc_on_park->Ok_0,
                gc_muzzy: s.gc_muzzy->Ok_0,
            },
        ),
    }
}

/// What a command line says in the given environment: the arguments are
/// read from the first on, and what they leave open is settled.
pub open spec fn parsed(tokens: Seq<Seq<char>>, env: Surroundings) -> Result<Arguments, ArgsError> {
    match scanned(tokens, 0, Sketch::empty()) {
        Err(e) => Err(e),
        Ok(sketch) => finished(sketch, env),
    }
}

/// The view of a result that holds arguments.
pub open spec fn outcome(r: Result<Args, ArgsError>) -> Result<Arguments, ArgsError> {
    match r {
        Ok(args) => Ok(args@),
        Err(e) => Err(e),
    }
}

/// The view of what `read` returns.
pub open spec fn reading_of(r: Result<(Name, Option<&str>, bool), ArgsError>) -> Result<
    Reading,
    ArgsError,
> {
    match r {
        Ok((name, value, took_next)) => Ok(Reading { name, value: opt_str(value), took_next }),
        Err(e) => Err(e),
    }
}

fn long_name(name: &str) -> (r: Option<Name>)
    ensures
        r == long_option(name@),
{
    if same_text(name, "config") {
        Some(Name::Config)
    } else if same_text(name, "option") {
        Some(Name::Override)
    } else if same_text(name, "read-only") {
        Some(Name::ReadOnly)
    } else if same_text(name, "maintenance") {
        Some(Name::Maintenance)
    } else if same_text(name, "execute") {
        Some(Name::Execute)
    } else if same_text(name, "test") {
        Some(Name::Test)
    } else if same_text(name, "worker-threads") {
        Some(Name::WorkerThreads)
    } else if same_text(name, "global-event-interval") {
        Some(Name::GlobalEventInterval)
    } else if same_text(name, "kernel-event-interval") {
        Some(Name::KernelEventInterval)
    } else if same_text(name, "kernel-events-per-tick") {
        Some(Name::KernelEventsPerTick)
    } else if same_text(name, "worker-histogram-interval") {
        Some(Name::WorkerHistogramInterval)
    } else if same_text(name, "worker-histogram-buckets") {
        Some(Name::WorkerHistogramBuckets)
    } else if same_text(name, "worker-affinity") {
        Some(Name::WorkerAffinity)
    } else if same_text(name, "gc-on-park") {
        Some(Name::GcOnPark)
    } else if same_text(name, "gc-muzzy") {
        Some(Name::GcMuzzy)
    } else if same_text(name, "help") {
        Some(Name::Help)
    } else if same_text(name, "version") {
        Some(Name::Version)
    } else {
        None
    }
}

fn short_name(letter: char) -> (r: Option<Name>)
    ensures
        r == short_option(letter),
{
    if letter == 'c' {
        Some(Name::Config)
    } else if letter == 'O' {
        Some(Name::Override)
    } else if letter == 'h' {
        Some(Name::Help)
    } else if letter == 'V' {
        Some(Name::Version)
    } else {
        None
    }
}

fn shape(name: Name) -> (r: Shape)
    ensures
        r == shape_of(name),
{
    match name {
        Name::Config | Name::Override | Name::Execute | Name::Test => Shape::List,
        Name::ReadOnly | Name::Maintenance => Shape::Flag,
        Name::WorkerThreads | Name::KernelEventsPerTick | Name::WorkerHistogramBuckets => Shape::Number(
            usize::MAX as u64,
            false,
        ),
        Name::GlobalEventInterval | Name::KernelEventInterval => Shape::Number(u32::MAX as u64, true),
        Name::WorkerHistogramInterval => Shape::Number(u64::MAX, false),
        Name::WorkerAffinity | Name::GcOnPark | Name::GcMuzzy => Shape::Switch,
        Name::Help | Name::Version => Shape::Request,
    }
}

fn reads_as_option(t: &str) -> (r: bool)
    ensures
        r == is_option(t@),
{
    let chars = to_chars(t);
    chars.len() >= 2 && chars[0] == '-'
}

/// Reads the option at position `i` with its value.
fn read<'a>(tokens: &'a Vec<String>, i: usize) -> (r: Result<(Name, Option<&'a str>, bool), ArgsError>)
    requires
        i < tokens@.len(),
    ensures
        reading_of(r) == read_at(texts(tokens@), i as int),
{
    let t = tokens[i].as_str();
    assert(texts(tokens@)[i as int] == t@);
    let chars = to_chars(t);
    let n = chars.len();
    if n < 2 || chars[0] != '-' {
        return Err(ArgsError::UnexpectedArgument(i));
    }
    let long = chars[1] == '-';
    let (name, value): (Option<Name>, Option<&str>) = if long {
        let mut at: usize = 2;
        while at < n && chars[at] != '='
            invariant
                n == chars@.len(),
                chars@ == t@,
                2 <= at <= n,
                find_char(t@, '=', 2) == find_char(t@, '=', at as int),
            decreases n - at,
        {
            at += 1;
        }
        let name = long_name(t.substring_char(2, at));
        let value = if at < n {
            Some(t.substring_char(at + 1, n))
        } else {
            None
        };
        (name, value)
    } else {
        let name = short_name(chars[1]);
        let value = if n == 2 {
            None
        } else if chars[2] == '=' {
            Some(t.substring_char(3, n))
        } else {
            Some(t.substring_char(2, n))
        };
        (name, value)
    };
    assert(name == named(t@));
    assert(opt_str(value) == attached(t@));
    let Some(name) = name else {
        return Err(ArgsError::UnknownArgument(i));
    };
    let count = tokens.len();
    let next: Option<&str> = if i + 1 < count {
        let u = tokens[i + 1].as_str();
        assert(texts(tokens@)[i + 1] == u@);
        if reads_as_option(u) {
            None
        } else {
            Some(u)
        }
    } else {
        None
    };
    match shape(name) {
        Shape::Request => if long && value.is_some() {
            Err(ArgsError::UnexpectedValue(i))
        } else {
            match name {
                Name::Help => Err(ArgsError::Help),
                _ => Err(ArgsError::Version),
            }
        },
        Shape::Flag => match value {
            Some(_) => Err(ArgsError::UnexpectedValue(i)),
            None => Ok((name, None, false)),
        },
        Shape::Switch => match value {
            Some(v) => Ok((name, Some(v), false)),
            None => match next {
                Some(u) => Ok((name, Some(u), true)),
                None => Ok((name, None, false)),
            },
        },
        _ => match value {
            Some(v) => Ok((name, Some(v), false)),
            None => match next {
                Some(u) => Ok((name, Some(u), true)),
                None => Err(ArgsError::MissingValue(i)),
            },
        },
    }
}

fn give_flag(seen: bool, at: usize) -> (r: Result<bool, ArgsError>)
    ensures
        r == flag_given(seen, at),
{
    if seen {
        Err(ArgsError::Repeated(at))
    } else {
        Ok(true)
    }
}

fn give_number(seen: Option<u64>, value: &str, max: u64, minus_zero: bool, at: usize) -> (r: Result<
    Option<u64>,
    ArgsError,
>)
    ensures
        r == number_given(seen, value@, max, minus_zero, at),
        r matches Ok(Some(n)) ==> n <= max,
{
    if seen.is_some() {
        return Err(ArgsError::Repeated(at));
    }
    match parse_number(value, max, minus_zero) {
        Some(n) => Ok(Some(n)),
        None => Err(ArgsError::InvalidValue(at)),
    }
}

fn give_switch(seen: Option<Option<bool>>, value: Option<&str>, at: usize) -> (r: Result<
    Option<Option<bool>>,
    ArgsError,
>)
    ensures
        r == switch_given(seen, opt_str(value), at),
{
    if seen.is_some() {
        return Err(ArgsError::Repeated(at));
    }
    match value {
        None => Ok(Some(None)),
        Some(text) => match parse_truth(text) {
            Some(b) => Ok(Some(Some(b))),
            None => Err(ArgsError::InvalidValue(at)),
        },
    }
}

fn settle_number(
    given: Option<u64>,
    env: &Option<String>,
    max: u64,
    minus_zero: bool,
    default: u64,
    name: Name,
) -> (r: Result<u64, ArgsError>)
    requires
        given matches Some(n) ==> n <= max,
        default <= max,
    ensures
        r == settled_number(given, opt_text(*env), max, minus_zero, default, name),
        r matches Ok(n) ==> n <= max,
{
    match given {
        Some(n) => Ok(n),
        None => match env {
            Some(text) => match parse_number(text.as_str(), max, minus_zero) {
                Some(n) => Ok(n),
                None => Err(ArgsError::InvalidEnvironment(name)),
            },
            None => Ok(default),
        },
    }
}

fn settle_switch(
    given: Option<Option<bool>>,
    env: &Option<String>,
    bare: Option<bool>,
    default: Option<bool>,
    name: Name,
) -> (r: Result<Option<bool>, ArgsError>)
    ensures
        r == settled_switch(given, opt_text(*env), bare, default, name),
{
    match given {
        Some(Some(b)) => Ok(Some(b)),
        Some(None) => Ok(bare),
        None => match env {
            Some(text) => match parse_truth(text.as_str()) {
                Some(b) => Ok(Some(b)),
                None => Err(ArgsError::InvalidEnvironment(name)),
            },
            None => Ok(default),
        },
    }
}

fn push_text(list: &mut Vec<String>, value: &str)
    ensures
        texts(final(list)@) == texts(old(list)@).push(value@),
{
    let owned = value.to_owned();
    assert(texts(list@.push(owned)) =~= texts(list@).push(value@));
    list.push(owned);
}

impl Draft {
    /// Each number that was given is of the size that its option takes.
    pub closed spec fn wf(&self) -> bool {
        &&& self.worker_threads matches Some(n) ==> n <= usize::MAX
        &&& self.global_event_interval matches Some(n) ==> n <= u32::MAX
        &&& self.kernel_event_interval matches Some(n) ==> n <= u32::MAX
        &&& self.kernel_events_per_tick matches Some(n) ==> n <= usize::MAX
        &&& self.worker_histogram_buckets matches Some(n) ==> n <= usize::MAX
        &&& !self.config_given ==> self.config@.len() == 0
    }

    /// A draft with nothing read.
    pub fn new() -> (r: Self)
        ensures
            r.wf(),
            r@ == Sketch::empty(),
    {
        let r = Draft {
            config_given: false,
            config: Vec::new(),
            option: Vec::new(),
            read_only: false,
            maintenance: false,
            execute: Vec::new(),
            test: Vec::new(),
            worker_threads: None,
            global_event_interval: None,
            kernel_event_interval: None,
            kernel_events_per_tick: None,
            worker_histogram_interval: None,
            worker_histogram_buckets: None,
            worker_affinity: None,
            gc_on_park: None,
            gc_muzzy: None,
        };
        assert(texts(r.option@) =~= Seq::empty());
        assert(texts(r.execute@) =~= Seq::empty());
        assert(texts(r.test@) =~= Seq::empty());
        r
    }

    /// Adds one option read at position `at`.
    pub fn add(&mut self, name: Name, value: Option<&str>, at: usize) -> (r: Result<(), ArgsError>)
        requires
            old(self).wf(),
        ensures
            final(self).wf(),
            match r {
                Ok(()) => old(self)@.with(name, opt_str(value), at) == Ok::<Sketch, ArgsError>(
                    final(self)@,
                ),
                Err(e) => old(self)@.with(name, opt_str(value), at) == Err::<Sketch, ArgsError>(e),
            },
    {
        match shape(name) {
            Shape::List | Shape::Number(_, _) => {
                if value.is_none() {
                    return Err(ArgsError::MissingValue(at));
                }
            },
            _ => {},
        }
        match name {
            Name::Config => {
                let v = value.unwrap();
                proof {
                    if !self.config_given {
                        assert(texts(self.config@).push(v@) =~= seq![v@]);
                    }
                }
                push_text(&mut self.config, v);
                self.config_given = true;
            },
            Name::Override => {
                let v = value.unwrap();
                push_text(&mut self.option, v);
            },
            Name::Execute => {
                let v = value.unwrap();
                push_text(&mut self.execute, v);
            },
            Name::Test => {
                let v = value.unwrap();
                push_text(&mut self.test, v);
            },
            Name::ReadOnly => {
                self.read_only = give_flag(self.read_only, at)?;
            },
            Name::Maintenance => {
                self.maintenance = give_flag(self.maintenance, at)?;
            },
            Name::WorkerThreads => {
                let v = value.unwrap();
                self.worker_threads = give_number(self.worker_threads, v, usize::MAX as u64,
                false, at)?;
            },
            Name::GlobalEventInterval => {
                let v = value.unwrap();
                self.global_event_interval = give_number(
                    self.global_event_interval,
                    v,
                    u32::MAX as u64,
                true,
                    at,
                )?;
            },
            Name::KernelEventInterval => {
                let v = value.unwrap();
                self.kernel_event_interval = give_number(
                    self.kernel_event_interval,
                    v,
                    u32::MAX as u64,
                true,
                    at,
                )?;
            },
            Name::KernelEventsPerTick => {
                let v = value.unwrap();
                self.kernel_events_per_tick = give_number(
                    self.kernel_events_per_tick,
                    v,
                    usize::MAX as u64,
                false,
                    at,
                )?;
            },
            Name::WorkerHistogramInterval => {
                let v = value.unwrap();
                self.worker_histogram_interval = give_number(
                    self.worker_histogram_interval,
                    v,
                    u64::MAX,
                false,
                    at,
                )?;
            },
            Name::WorkerHistogramBuckets => {
                let v = value.unwrap();
                self.worker_histogram_buckets = give_number(
                    self.worker_histogram_buckets,
                    v,
                    usize::MAX as u64,
                false,
                    at,
                )?;
            },
            Name::WorkerAffinity => {
                self.worker_affinity = give_switch(self.worker_affinity, value, at)?;
            },
            Name::GcOnPark => {
                self.gc_on_park = give_switch(self.gc_on_park, value, at)?;
            },
            Name::GcMuzzy => {
                self.gc_muzzy = give_switch(self.gc_muzzy, value, at)?;
            },
            Name::Help => {
                return Err(ArgsError::Help);
            },
            Name::Version => {
                return Err(ArgsError::Version);
            },
        }
        Ok(())
    }

    /// Settles what the command line left open.
    pub fn finish(self, env: &Environment) -> (r: Result<Args, ArgsError>)
        requires
            self.wf(),
        ensures
            outcome(r) == finished(self@, env@),
    {
        let worker_threads = settle_number(
            self.worker_threads,
            &env.worker_threads,
            usize::MAX as u64,
                false,
            env.available_parallelism as u64,
            Name::WorkerThreads,
        )?;
        let global_event_interval = settle_number(
            self.global_event_interval,
            &env.global_event_interval,
            u32::MAX as u64,
                true,
            192,
            Name::GlobalEventInterval,
        )?;
        let kernel_event_interval = settle_number(
            self.kernel_event_interval,
            &env.kernel_event_interval,
            u32::MAX as u64,
                true,
            512,
            Name::KernelEventInterval,
        )?;
        let kernel_events_per_tick = settle_number(
            self.kernel_events_per_tick,
            &env.kernel_events_per_tick,
            usize::MAX as u64,
                false,
            512,
            Name::KernelEventsPerTick,
        )?;
        let worker_histogram_interval = settle_number(
            self.worker_histogram_interval,
            &env.worker_histogram_interval,
            u64::MAX,
                false,
            25,
            Name::WorkerHistogramInterval,
        )?;
        let worker_histogram_buckets = settle_number(
            self.worker_histogram_buckets,
            &env.worker_histogram_buckets,
            usize::MAX as u64,
                false,
            20,
            Name::WorkerHistogramBuckets,
        )?;
        let worker_affinity = settle_switch(
            self.worker_affinity,
            &env.worker_affinity,
            Some(true),
            Some(true),
            Name::WorkerAffinity,
        )?;
        let gc_on_park = settle_switch(
            self.gc_on_park,
            &env.gc_on_park,
            None,
            None,
            Name::GcOnPark,
        )?;
        let gc_muzzy = settle_switch(self.gc_muzzy, &env.gc_muzzy, None, None, Name::GcMuzzy)?;
        let affinity = match worker_affinity {
            Some(true) => true,
            _ => false,
        };
        Ok(
            Args {
                config: if self.config_given {
                    Some(self.config)
                } else {
                    None
                },
                option: self.option,
                read_only: self.read_only,
                maintenance: self.maintenance,
                execute: self.execute,
                test: self.test,
                worker_threads: worker_threads as usize,
                global_event_interval: global_event_interval as u32,
                kernel_event_interval: kernel_event_interval as u32,
                kernel_events_per_tick: kernel_events_per_tick as usize,
                worker_histogram_interval,
                worker_histogram_buckets: worker_histogram_buckets as usize,
                worker_affinity: affinity,
                gc_on_park,
                gc_muzzy,
            },
        )
    }
}

/// Reads a command line: the arguments after the program's name, in the
/// environment `env`.
pub fn parse(args: &Vec<String>, env: &Environment) -> (r: Result<Args, ArgsError>)
    ensures
        outcome(r) == parsed(texts(args@), env@),
{
    let ghost tokens = texts(args@);
    let mut draft = Draft::new();
    let mut i: usize = 0;
    while i < args.len()
        invariant
            tokens == texts(args@),
            0 <= i <= args@.len(),
            draft.wf(),
            scanned(tokens, 0, Sketch::empty()) == scanned(tokens, i as int, draft@),
        decreases args@.len() - i,
    {
        assert(tokens[i as int] == args@[i as int]@);
        if same_text(args[i].as_str(), "--") {
            if i + 1 < args.len() {
                return Err(ArgsError::UnexpectedArgument(i + 1));
            }
            i = args.len();
        } else {
            let (name, value, took_next) = read(args, i)?;
            draft.add(name, value, i)?;
            i = if took_next {
                i + 2
            } else {
                i + 1
            };
        }
    }
    draft.finish(env)
}

} // verus!
