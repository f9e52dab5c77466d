//! Process information enrichment: resolves process ids to process details,
//! keeping what it resolved in a cache.
use std::collections::HashMap;
use vstd::prelude::*;
use vstd::string::*;
use crate::decimal::{decimal, push_decimal};
use crate::macos_types::ProcessInfo;

verus! {

broadcast use vstd::std_specs::hash::group_hash_axioms;

/// The details the provider resolves a process id to: parent 1, user 501,
/// group 20, name `process_<pid>`, executable `/usr/bin/process_<pid>`, no
/// arguments, working directory `/` and start time 0.
pub open spec fn resolved_info(info: ProcessInfo, pid: u32) -> bool {
    &&& info.pid == pid
    &&& info.ppid == 1
    &&& info.uid == 501
    &&& info.gid == 20
    &&& info.name@ == "process_"@ + decimal(pid as nat)
    &&& info.executable@ == "/usr/bin/process_"@ + decimal(pid as nat)
    &&& info.args@.len() == 0
    &&& info.cwd@ == "/"@
    &&& info.start_time_ns == 0
}

/// Provides process information enrichment.
pub struct ProcessInfoProvider {
    cache: HashMap<u32, ProcessInfo>,
}

impl ProcessInfoProvider {
    /// The process ids with cached information.
    pub closed spec fn cached(&self) -> Set<u32> {
        self.cache@.dom()
    }

    /// Every cached entry is what its process id resolves to.
    pub closed spec fn wf(&self) -> bool {
        forall|pid: u32| #[trigger] self.cache@.contains_key(pid) ==> resolved_info(self.cache@[pid], pid)
    }

    /// A provider with an empty cache.
    pub fn new() -> (p: Self)
        ensures
            p.wf(),
            p.cached() == Set::<u32>::empty(),
    {
        let p = ProcessInfoProvider { cache: HashMap::new() };
        assert(p.cached() =~= Set::<u32>::empty());
        p
    }

    /// The number of cached entries.
    pub fn cache_len(&self) -> (n: usize)
        ensures
            n == self.cached().len(),
    {
        self.cache.len()
    }

    /// Get process information for a PID, from the cache, or else resolved
    /// and then cached.
    pub fn get_process_info(&mut self, pid: u32) -> (r: Option<&ProcessInfo>)
        requires
            old(self).wf(),
        ensures
            final(self).wf(),
            final(self).cached() == old(self).cached().insert(pid),
            r matches Some(info) && resolved_info(*info, pid),
    {
        if self.cache.contains_key(&pid) {
            assert(self.cached().insert(pid) =~= self.cached());
            return self.cache.get(&pid);
        }
        match self.query_process_info(pid) {
            Some(info) => {
                self.cache.insert(pid, info);
                assert(self.cached() =~= old(self).cached().insert(pid));
                self.cache.get(&pid)
            },
            None => None,
        }
    }

    /// Resolve a process id to its details.
    fn query_process_info(&self, pid: u32) -> (r: Option<ProcessInfo>)
        ensures
            r matches Some(info) && resolved_info(info, pid),
    {
        let mut name = "process_".to_owned();
        push_decimal(&mut name, pid as u128);
        let mut executable = "/usr/bin/process_".to_owned();
        push_decimal(&mut executable, pid as u128);
        Some(
            ProcessInfo {
                pid,
                ppid: 1,
                uid: 501,
                gid: 20,
                name,
                executable,
                args: Vec::new(),
                cwd: "/".to_owned(),
                start_time_ns: 0,
            },
        )
    }

    /// Get the executable path for a PID.
    pub fn get_executable_path(&mut self, pid: u32) -> (r: Option<String>)
        requires
            old(self).wf(),
        ensures
            final(self).wf(),
            final(self).cached() == old(self).cached().insert(pid),
            r matches Some(path) && path@ == "/usr/bin/process_"@ + decimal(pid as nat),
    {
        match self.get_process_info(pid) {
            Some(info) => Some(info.executable.clone()),
            None => None,
        }
    }

    /// Get the parent PID for a PID.
    pub fn get_parent_pid(&mut self, pid: u32) -> (r: Option<u32>)
        requires
            old(self).wf(),
        ensures
            final(self).wf(),
            final(self).cached() == old(self).cached().insert(pid),
            r == Some(1u32),
    {
        match self.get_process_info(pid) {
            Some(info) => Some(info.ppid),
            None => None,
        }
    }

    /// Clear the process information cache.
    pub fn clear_cache(&mut self)
        ensures
            final(self).wf(),
            final(self).cached() == Set::<u32>::empty(),
    {
        self.cache.clear();
        assert(self.cached() =~= Set::<u32>::empty());
    }

    /// Remove a specific entry from the cache.
    pub fn remove_from_cache(&mut self, pid: u32)
        requires
            old(self).wf(),
        ensures
            final(self).wf(),
            final(self).cached() == old(self).cached().remove(pid),
    {
        self.cache.remove(&pid);
        assert(self.cached() =~= old(self).cached().remove(pid));
    }
}

/// Enumerate all running processes: their ids.
pub fn enumerate_processes() -> (pids: Vec<u32>)
    ensures
        pids@ == seq![1u32, 2u32, 3u32],
{
    let pids = vec![1, 2, 3];
    assert(pids@ =~= seq![1u32, 2u32, 3u32]);
    pids
}

} // verus!
