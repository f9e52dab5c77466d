//! Command-line settings: the alert sink and the event collector that they
//! call for.
use vstd::prelude::*;

verus! {

/// Where the command line sends alerts.
#[derive(Debug, Clone, Copy, PartialEq, Eq, Structural)]
pub enum AlertOutputType {
    /// Output alerts to stdout
    Stdout,
    /// Output alerts to a file
    File,
    /// Drop all alerts (no output)
    Null,
}

/// Alert output configuration for the CLI.
#[derive(Debug)]
pub struct AlertOutputArgs {
    /// Alert output format
    pub alert_output: AlertOutputType,
    /// Alert output file path (when format is file)
    pub alert_file: Option<String>,
    /// Pretty-print JSON alerts
    pub pretty_alerts: bool,
    /// Additional alert sinks (comma-separated: kafka://host:port/topic,es://host:port/index)
    pub alert_sinks: Vec<String>,
}

impl Default for AlertOutputArgs {
    /// Alerts to stdout, compact, with no additional sinks.
    fn default() -> (r: Self)
        ensures
            r.alert_output == AlertOutputType::Stdout,
            r.alert_file is None,
            !r.pretty_alerts,
            r.alert_sinks@.len() == 0,
    {
        AlertOutputArgs {
            alert_output: AlertOutputType::Stdout,
            alert_file: None,
            pretty_alerts: false,
            alert_sinks: Vec::new(),
        }
    }
}

/// The sink that an alert output configuration calls for.
#[derive(Debug)]
pub enum AlertSinkPlan {
    /// JSON lines on stdout, pretty-printed or not.
    Stdout { pretty: bool },
    /// JSON lines appended to the file at `path`.
    File { path: String },
    /// No sink: alerts are dropped.
    Discard,
}

/// Errors in the alert output settings.
#[derive(Debug, Clone, Copy, PartialEq, Eq, Structural)]
pub enum CliError {
    /// `--alert-output=file` was given without `--alert-file`.
    MissingAlertFile,
}

impl CliError {
    /// The message shown to the user.
    pub fn to_string(&self) -> (r: String)
        ensures
            r@ == "--alert-file required when --alert-output=file"@,
    {
        String::from_str("--alert-file required when --alert-output=file")
    }
}

/// Decides the alert sink for the given settings: stdout (pretty-printed as
/// asked), the given file, or none; file output without a file path is an
/// error.
pub fn plan_alert_sink(config: &AlertOutputArgs) -> (r: Result<AlertSinkPlan, CliError>)
    ensures
        config.alert_output == AlertOutputType::Stdout ==> (r matches Ok(
            AlertSinkPlan::Stdout { pretty },
        ) && pretty == config.pretty_alerts),
        config.alert_output == AlertOutputType::File ==> (match config.alert_file {
            Some(p) => (r matches Ok(AlertSinkPlan::File { path }) && path@ == p@),
            None => r == Err::<AlertSinkPlan, CliError>(CliError::MissingAlertFile),
        }),
        config.alert_output == AlertOutputType::Null ==> r matches Ok(AlertSinkPlan::Discard),
{
    match config.alert_output {
        AlertOutputType::Stdout => Ok(AlertSinkPlan::Stdout { pretty: config.pretty_alerts }),
        AlertOutputType::File => match &config.alert_file {
            Some(p) => Ok(AlertSinkPlan::File { path: p.clone() }),
            None => Err(CliError::MissingAlertFile),
        },
        AlertOutputType::Null => Ok(AlertSinkPlan::Discard),
    }
}

/// The event collector that the command line asks for.
#[derive(Debug)]
pub enum CollectorPlan {
    /// Kernel events from the eBPF programs in the object file at `object`.
    Ebpf { object: String },
    /// Endpoint Security events.
    MacOS,
    /// This many synthetic events.
    Mock { count: usize },
    /// Events replayed from the binary log at `path`.
    Replay { path: String },
}

/// Why no event collector can be chosen.
#[derive(Debug)]
pub enum CollectorPlanError {
    /// The eBPF collector was asked for without an object file.
    MissingEbpfObject,
    /// The replay collector was asked for without a log path.
    MissingReplayLog,
    /// The collector type is none of the known ones.
    UnknownType(String),
}

/// The message shown for a collector choice that failed.
pub open spec fn collector_error_message(e: CollectorPlanError) -> Seq<char> {
    match e {
        CollectorPlanError::MissingEbpfObject => "eBPF collector requires --ebpf-object path"@,
        CollectorPlanError::MissingReplayLog => "Replay collector requires --ebpf-object as log path"@,
        CollectorPlanError::UnknownType(t) => "Unknown collector type: '"@ + t@
            + "'. Use 'ebpf', 'macos', 'mock', or 'replay'"@,
    }
}

impl CollectorPlanError {
    /// The message shown to the user.
    pub fn to_string(&self) -> (r: String)
        ensures
            r@ == collector_error_message(*self),
    {
        match self {
            CollectorPlanError::MissingEbpfObject => String::from_str("eBPF collector requires --ebpf-object path"),
            CollectorPlanError::MissingReplayLog => String::from_str(
                "Replay collector requires --ebpf-object as log path",
            ),
            CollectorPlanError::UnknownType(t) => {
                let mut m = String::from_str("Unknown collector type: '");
                m.append(t.as_str());
                m.append("'. Use 'ebpf', 'macos', 'mock', or 'replay'");
                m
            },
        }
    }
}

/// Number of synthetic events the mock collector produces.
pub const MOCK_EVENT_COUNT: usize = 100;

/// Decides the event collector for a collector type: `ebpf` needs the
/// object file, `replay` uses the same argument as its log path, `mock`
/// produces 100 events, `macos` needs nothing; any other type is an error.
pub fn plan_collector(collector_type: &str, ebpf_object: Option<String>) -> (r: Result<
    CollectorPlan,
    CollectorPlanError,
>)
    ensures
        collector_type@ == "ebpf"@ ==> match ebpf_object {
            Some(p) => (r matches Ok(CollectorPlan::Ebpf { object }) && object == p),
            None => r matches Err(CollectorPlanError::MissingEbpfObject),
        },
        collector_type@ == "macos"@ ==> r matches Ok(CollectorPlan::MacOS),
        collector_type@ == "mock"@ ==> (r matches Ok(CollectorPlan::Mock { count }) && count == MOCK_EVENT_COUNT),
        collector_type@ == "replay"@ ==> match ebpf_object {
            Some(p) => (r matches Ok(CollectorPlan::Replay { path }) && path == p),
            None => r matches Err(CollectorPlanError::MissingReplayLog),
        },
        collector_type@ != "ebpf"@ && collector_type@ != "macos"@ && collector_type@ != "mock"@
            && collector_type@ != "replay"@ ==> (r matches Err(CollectorPlanError::UnknownType(t))
            && t@ == collector_type@),
{
    proof {
        reveal_strlit("ebpf");
        reveal_strlit("macos");
        reveal_strlit("mock");
        reveal_strlit("replay");
        assert("ebpf"@.len() == 4 && "mock"@.len() == 4 && "macos"@.len() == 5 && "replay"@.len() == 6);
        assert("ebpf"@[0] != "mock"@[0]);
        assert("ebpf"@ != "mock"@);
    }
    let t = collector_type.to_owned();
    if t == "ebpf".to_owned() {
        match ebpf_object {
            Some(p) => Ok(CollectorPlan::Ebpf { object: p }),
            None => Err(CollectorPlanError::MissingEbpfObject),
        }
    } else if t == "macos".to_owned() {
        Ok(CollectorPlan::MacOS)
    } else if t == "mock".to_owned() {
        Ok(CollectorPlan::Mock { count: MOCK_EVENT_COUNT })
    } else if t == "replay".to_owned() {
        match ebpf_object {
            Some(p) => Ok(CollectorPlan::Replay { path: p }),
            None => Err(CollectorPlanError::MissingReplayLog),
        }
    } else {
        Err(CollectorPlanError::UnknownType(t))
    }
}

} // verus!
