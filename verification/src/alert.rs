//! Alert records, their severity and the alert output configuration.
use vstd::prelude::*;
use vstd::string::*;

verus! {

/// Alert severity
#[derive(Debug, Clone, Copy, PartialEq, Eq, Structural)]
pub enum Severity {
    Informational,
    Low,
    Medium,
    High,
    Critical,
}

/// The rank of a severity, from `Informational` (0) to `Critical` (4).
pub open spec fn severity_rank(s: Severity) -> nat {
    match s {
        Severity::Informational => 0,
        Severity::Low => 1,
        Severity::Medium => 2,
        Severity::High => 3,
        Severity::Critical => 4,
    }
}

impl Severity {
    /// The rank of this severity, from `Informational` (0) to `Critical` (4).
    pub fn rank(&self) -> (r: u8)
        ensures
            r == severity_rank(*self),
    {
        match self {
            Severity::Informational => 0,
            Severity::Low => 1,
            Severity::Medium => 2,
            Severity::High => 3,
            Severity::Critical => 4,
        }
    }
}

/// Event evidence captured in an alert
#[derive(Debug)]
pub struct EventEvidence {
    /// Event type ID
    pub event_type_id: u16,
    /// Event timestamp
    pub timestamp_ns: u64,
    /// Captured fields
    pub fields: Vec<(String, serde_json::Value)>,
}

/// Alert record
#[derive(Debug)]
pub struct Alert {
    /// Unique alert ID
    pub id: String,
    /// Rule ID that generated this alert
    pub rule_id: String,
    /// Rule name
    pub rule_name: String,
    /// Alert severity
    pub severity: Severity,
    /// Alert timestamp (wall clock)
    pub timestamp_ns: u64,
    /// Alert title/message
    pub title: String,
    /// Alert description
    pub description: Option<String>,
    /// Captured event data (evidence)
    pub events: Vec<EventEvidence>,
    /// Additional context
    pub context: serde_json::Value,
    /// The context member `entity_key`, where it is an unsigned integer that
    /// fits in 64 bits; filled by whoever builds the alert from its context.
    pub entity_key: Option<u64>,
}

impl Alert {
    /// The entity an alert concerns: its context member `entity_key` when that
    /// is an unsigned integer, else 0.
    pub fn extract_entity_key(&self) -> (r: u128)
        ensures
            r == match self.entity_key {
                Some(v) => v as u128,
                None => 0u128,
            },
    {
        match self.entity_key {
            Some(v) => v as u128,
            None => 0,
        }
    }
}

/// Alert output configuration
#[derive(Debug, Clone)]
pub struct AlertOutputConfig {
    /// Output to stdout
    pub stdout: bool,
    /// Output to file
    pub file: Option<String>,
    /// Channel size for alert buffering
    pub channel_size: usize,
}

impl Default for AlertOutputConfig {
    fn default() -> (c: Self)
        ensures
            c.stdout,
            c.file is None,
            c.channel_size == 1000,
    {
        AlertOutputConfig { stdout: true, file: None, channel_size: 1000 }
    }
}

/// Alert errors
#[derive(Debug)]
pub enum AlertError {
    OutputClosed,
    OutputFull,
    SerializationError(String),
    IoError(String),
}

/// The message of each alert error.
pub open spec fn alert_error_message(e: AlertError) -> Seq<char> {
    match e {
        AlertError::OutputClosed => "Alert output is closed"@,
        AlertError::OutputFull => "Alert output is full"@,
        AlertError::SerializationError(m) => "Serialization error: "@ + m@,
        AlertError::IoError(m) => "IO error: "@ + m@,
    }
}

impl AlertError {
    /// The error's message.
    pub fn to_string(&self) -> (r: String)
        ensures
            r@ == alert_error_message(*self),
    {
        match self {
            AlertError::OutputClosed => "Alert output is closed".to_owned(),
            AlertError::OutputFull => "Alert output is full".to_owned(),
            AlertError::SerializationError(m) => {
                let mut s = "Serialization error: ".to_owned();
                s.append(m.as_str());
                s
            },
            AlertError::IoError(m) => {
                let mut s = "IO error: ".to_owned();
                s.append(m.as_str());
                s
            },
        }
    }
}

/// Severities rank in the order they are declared: informational below low,
/// below medium, below high, below critical.
pub proof fn law_severity_order()
    ensures
        severity_rank(Severity::Informational) < severity_rank(Severity::Low),
        severity_rank(Severity::Low) < severity_rank(Severity::Medium),
        severity_rank(Severity::Medium) < severity_rank(Severity::High),
        severity_rank(Severity::High) < severity_rank(Severity::Critical),
{
}

} // verus!
