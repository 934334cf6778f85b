use clap::builder::{BoolValueParser, RangedI64ValueParser, RangedU64ValueParser};
use clap::error::ErrorKind;
use clap::{Arg, ArgAction, Command};
use uiaa::args::{parse, Args, ArgsError, Environment};

fn number(name: &'static str, default: &'static str) -> Arg {
    Arg::new(name).long(name).action(ArgAction::Set).default_value(default)
}

fn switch(name: &'static str) -> Arg {
    Arg::new(name)
        .long(name)
        .action(ArgAction::Set)
        .num_args(0..=1)
        .require_equals(false)
        .value_parser(BoolValueParser::new())
}

fn command() -> Command {
    Command::new("server")
        .version("1")
        .arg(Arg::new("config").short('c').long("config").action(ArgAction::Append))
        .arg(Arg::new("option").short('O').long("option").action(ArgAction::Append))
        .arg(Arg::new("read-only").long("read-only").action(ArgAction::SetTrue))
        .arg(Arg::new("maintenance").long("maintenance").action(ArgAction::SetTrue))
        .arg(Arg::new("execute").long("execute").action(ArgAction::Append))
        .arg(Arg::new("test").long("test").action(ArgAction::Append))
        .arg(number("worker-threads", "8").value_parser(RangedU64ValueParser::<usize>::new()))
        .arg(number("global-event-interval", "192").value_parser(RangedI64ValueParser::<u32>::new()))
        .arg(number("kernel-event-interval", "512").value_parser(RangedI64ValueParser::<u32>::new()))
        .arg(number("kernel-events-per-tick", "512").value_parser(RangedU64ValueParser::<usize>::new()))
        .arg(number("worker-histogram-interval", "25").value_parser(RangedU64ValueParser::<u64>::new()))
        .arg(
            number("worker-histogram-buckets", "20")
                .value_parser(RangedU64ValueParser::<usize>::new()),
        )
        .arg(switch("worker-affinity").default_value("true").default_missing_value("true"))
        .arg(switch("gc-on-park"))
        .arg(switch("gc-muzzy"))
}

fn strings(matches: &clap::ArgMatches, name: &str) -> Option<Vec<String>> {
    matches.get_many::<String>(name).map(|values| values.cloned().collect())
}

fn by_clap(line: &[&str]) -> Result<Args, ErrorKind> {
    let mut argv = vec!["server"];
    argv.extend_from_slice(line);
    let m = command().try_get_matches_from(argv).map_err(|e| e.kind())?;
    Ok(Args {
        config: strings(&m, "config"),
        option: strings(&m, "option").unwrap_or_default(),
        read_only: m.get_flag("read-only"),
        maintenance: m.get_flag("maintenance"),
        execute: strings(&m, "execute").unwrap_or_default(),
        test: strings(&m, "test").unwrap_or_default(),
        worker_threads: *m.get_one::<usize>("worker-threads").unwrap(),
        global_event_interval: *m.get_one::<u32>("global-event-interval").unwrap(),
        kernel_event_interval: *m.get_one::<u32>("kernel-event-interval").unwrap(),
        kernel_events_per_tick: *m.get_one::<usize>("kernel-events-per-tick").unwrap(),
        worker_histogram_interval: *m.get_one::<u64>("worker-histogram-interval").unwrap(),
        worker_histogram_buckets: *m.get_one::<usize>("worker-histogram-buckets").unwrap(),
        worker_affinity: *m.get_one::<bool>("worker-affinity").unwrap(),
        gc_on_park: m.get_one::<bool>("gc-on-park").copied(),
        gc_muzzy: m.get_one::<bool>("gc-muzzy").copied(),
    })
}

fn by_library(line: &[&str]) -> Result<Args, ArgsError> {
    let env = Environment {
        available_parallelism: 8,
        worker_threads: None,
        global_event_interval: None,
        kernel_event_interval: None,
        kernel_events_per_tick: None,
        worker_histogram_interval: None,
        worker_histogram_buckets: None,
        worker_affinity: None,
        gc_on_park: None,
        gc_muzzy: None,
    };
    parse(&line.iter().map(|s| s.to_string()).collect(), &env)
}

fn agree(line: &[&str]) {
    let ours = by_library(line);
    let theirs = by_clap(line);
    match (&ours, &theirs) {
        (Ok(a), Ok(b)) => assert_eq!(a, b, "{:?}", line),
        (Err(ArgsError::Help), Err(ErrorKind::DisplayHelp)) => {}
        (Err(ArgsError::Version), Err(ErrorKind::DisplayVersion)) => {}
        (Err(ArgsError::Help), _) | (Err(ArgsError::Version), _) => {
            panic!("{:?}: {:?} against {:?}", line, ours, theirs)
        }
        (Err(_), Err(kind)) => assert!(
            !matches!(kind, ErrorKind::DisplayHelp | ErrorKind::DisplayVersion),
            "{:?}: {:?} against {:?}",
            line,
            ours,
            theirs
        ),
        _ => panic!("{:?}: {:?} against {:?}", line, ours, theirs),
    }
}

#[test]
fn agrees_with_clap_on_accepted_command_lines() {
    let lines: Vec<Vec<&str>> = vec![
        vec![],
        vec!["--"],
        vec!["--read-only"],
        vec!["--maintenance", "--read-only"],
        vec!["-c", "a.toml"],
        vec!["-ca.toml"],
        vec!["-c=a.toml"],
        vec!["-c=="],
        vec!["-c="],
        vec!["--config=a.toml", "--config", "b.toml", "-c", "c.toml"],
        vec!["--config="],
        vec!["--config", ""],
        vec!["--config", "-"],
        vec!["-O", "a=b", "-Oc=d", "--option=e=f", "--option", "g=h"],
        vec!["--execute", "users list", "--execute=server uptime"],
        vec!["--test=smoke", "--test", "bench"],
        vec!["--worker-threads", "3"],
        vec!["--worker-threads=+3"],
        vec!["--worker-threads=003"],
        vec!["--global-event-interval=0"],
        vec!["--global-event-interval", "4294967295"],
        vec!["--kernel-event-interval=+17"],
        vec!["--kernel-events-per-tick=1"],
        vec!["--worker-histogram-interval=18446744073709551615"],
        vec!["--worker-histogram-buckets", "64"],
        vec!["--worker-affinity"],
        vec!["--worker-affinity=false"],
        vec!["--worker-affinity", "false"],
        vec!["--worker-affinity", "--read-only"],
        vec!["--gc-on-park"],
        vec!["--gc-on-park=true"],
        vec!["--gc-on-park", "false", "--gc-muzzy"],
        vec!["--gc-muzzy", "true", "--maintenance"],
        vec!["--read-only", "--"],
        vec!["--gc-muzzy", "--"],
        vec!["--global-event-interval=-0"],
        vec!["--kernel-event-interval=-000"],
        vec!["--config=a=b", "--test=--x", "-O--x", "-c-x", "--execute", "-"],
        vec!["--worker-histogram-interval=+18446744073709551615"],
        vec!["--config=é", "-cü"],
        vec!["-cO"],
        vec!["-Oc"],
        vec!["-c", "a", "-c", "b", "--read-only", "--maintenance", "--test", "t"],
    ];
    for line in &lines {
        assert!(by_library(line).is_ok(), "{:?}: {:?}", line, by_library(line));
        agree(line);
    }
}

#[test]
fn agrees_with_clap_on_refused_command_lines() {
    let lines: Vec<Vec<&str>> = vec![
        vec!["--help"],
        vec!["-h"],
        vec!["--version"],
        vec!["-V"],
        vec!["--read-only", "--help"],
        vec!["--nope"],
        vec!["--conf", "x"],
        vec!["-x"],
        vec!["stray"],
        vec![""],
        vec!["-"],
        vec!["--", "x"],
        vec!["--", "--read-only"],
        vec!["--read-only=true"],
        vec!["--read-only", "--read-only"],
        vec!["--read-only", "true"],
        vec!["--config"],
        vec!["-c"],
        vec!["--config", "--read-only"],
        vec!["--config", "--"],
        vec!["-O", "-c"],
        vec!["--worker-threads"],
        vec!["--worker-threads="],
        vec!["--worker-threads=x"],
        vec!["--worker-threads=1.5"],
        vec!["--worker-threads= 1"],
        vec!["--worker-threads", "-1"],
        vec!["--worker-threads=-1"],
        vec!["--worker-threads=1", "--worker-threads=2"],
        vec!["--global-event-interval=4294967296"],
        vec!["--global-event-interval=-1"],
        vec!["--worker-histogram-interval=18446744073709551616"],
        vec!["--worker-affinity=yes"],
        vec!["--worker-affinity", "yes"],
        vec!["--worker-affinity="],
        vec!["--worker-affinity", "--worker-affinity"],
        vec!["--gc-on-park=1"],
        vec!["--gc-muzzy", "--gc-muzzy=true"],
        vec!["--help=x"],
        vec!["--version=1"],
        vec!["-h=1"],
        vec!["-hV"],
        vec!["-Vh"],
        vec!["-hx"],
        vec!["-xh"],
        vec!["--worker-threads=-0"],
        vec!["--global-event-interval=-1"],
        vec!["--global-event-interval=-"],
        vec!["-c", "-x"],
        vec!["--execute", "-5"],
        vec!["--execute", "--"],
        vec!["--execute", "a", "b"],
        vec!["--worker-affinity", "true", "false"],
        vec!["--worker-affinity", "-"],
        vec!["--gc-on-park", ""],
        vec!["--CONFIG=x"],
        vec!["--read_only"],
        vec!["--nope", "--help"],
        vec!["stray", "--help"],
        vec!["--worker-threads=x", "--help"],
        vec!["--", "--help"],
        vec!["--config", "--help"],
        vec!["--worker-affinity", "--help"],
        vec!["--worker-threads=1_000"],
        vec!["--worker-threads=0x10"],
        vec!["--worker-threads=99999999999999999999999"],
        vec!["--worker-affinity=TRUE"],
        vec!["--option"],
        vec!["--=x"],
        vec!["---config"],
        vec!["-é"],
        vec!["--maintenance="],
        vec!["--maintenance", ""],
        vec!["-V", "--nope"],
        vec!["-", "-h"],
    ];
    for line in &lines {
        assert!(by_library(line).is_err(), "{:?}: {:?}", line, by_library(line));
        agree(line);
    }
}
