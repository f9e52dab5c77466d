//! The macOS event collector (Endpoint Security): its platform description,
//! the event types it reports, and whether it is collecting.
use vstd::prelude::*;
use crate::core_platform::{PlatformCapability, PlatformError, PlatformInfo};
use crate::macos_types::EventType;

verus! {

/// The event types the collector reports, in the order it lists them.
pub open spec fn macos_event_types() -> Seq<EventType> {
    seq![
        EventType::ProcessExec,
        EventType::ProcessFork,
        EventType::ProcessExit,
        EventType::FileCreate,
        EventType::FileOpen,
        EventType::FileWrite,
        EventType::FileRename,
        EventType::FileUnlink,
        EventType::ProcessSignal,
        EventType::SetUid,
        EventType::SetGid,
    ]
}

/// The capabilities of the macOS collector.
pub open spec fn macos_capabilities() -> Seq<PlatformCapability> {
    seq![PlatformCapability::ProcessTracing, PlatformCapability::FileTracing, PlatformCapability::InlineBlocking]
}

/// macOS event collector using the Endpoint Security Framework.
pub struct MacOSEventCollector {
    platform_info: PlatformInfo,
    collecting: bool,
}

impl MacOSEventCollector {
    /// The platform the collector describes.
    pub closed spec fn info_spec(&self) -> PlatformInfo {
        self.platform_info
    }

    /// Whether the collector is collecting.
    pub closed spec fn collecting_spec(&self) -> bool {
        self.collecting
    }

    /// A collector for macOS, not yet collecting.
    pub fn new() -> (r: Result<Self, PlatformError>)
        ensures
            r matches Ok(c) && c.info_spec().name@ == "macos"@ && c.info_spec().version@ == "1.0"@
                && c.info_spec().kernel_version@ == "macos"@ && c.info_spec().capabilities@ == macos_capabilities()
                && !c.collecting_spec(),
    {
        let capabilities = vec![
            PlatformCapability::ProcessTracing,
            PlatformCapability::FileTracing,
            PlatformCapability::InlineBlocking,
        ];
        assert(capabilities@ =~= macos_capabilities());
        Ok(
            MacOSEventCollector {
                platform_info: PlatformInfo {
                    name: "macos".to_owned(),
                    version: "1.0".to_owned(),
                    kernel_version: "macos".to_owned(),
                    capabilities,
                },
                collecting: false,
            },
        )
    }

    /// The event types the collector reports.
    pub fn supported_event_types() -> (r: Vec<EventType>)
        ensures
            r@ == macos_event_types(),
    {
        let r = vec![
            EventType::ProcessExec,
            EventType::ProcessFork,
            EventType::ProcessExit,
            EventType::FileCreate,
            EventType::FileOpen,
            EventType::FileWrite,
            EventType::FileRename,
            EventType::FileUnlink,
            EventType::ProcessSignal,
            EventType::SetUid,
            EventType::SetGid,
        ];
        assert(r@ =~= macos_event_types());
        r
    }

    /// The collector's name.
    pub fn name(&self) -> (r: &'static str)
        ensures
            r@ == "macos"@,
    {
        "macos"
    }

    /// The platform the collector describes.
    pub fn platform_info(&self) -> (r: Option<&PlatformInfo>)
        ensures
            r matches Some(p) && *p == self.info_spec(),
    {
        Some(&self.platform_info)
    }

    /// Start collecting.
    pub fn start(&mut self) -> (r: Result<(), PlatformError>)
        ensures
            r is Ok,
            final(self).collecting_spec(),
            final(self).info_spec() == old(self).info_spec(),
    {
        self.collecting = true;
        Ok(())
    }

    /// Stop collecting.
    pub fn stop(&mut self) -> (r: Result<(), PlatformError>)
        ensures
            r is Ok,
            !final(self).collecting_spec(),
            final(self).info_spec() == old(self).info_spec(),
    {
        self.collecting = false;
        Ok(())
    }

    /// Whether the collector is collecting.
    pub fn is_collecting(&self) -> (r: bool)
        ensures
            r == self.collecting_spec(),
    {
        self.collecting
    }
}

} // verus!
