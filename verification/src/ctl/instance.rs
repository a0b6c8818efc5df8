//! Discovery of the running instances from the entries of the runtime
//! directory.

use crate::error::{HyprError, HyprErrorView};
use crate::text::{
    append_decimal, chars_of, decimal, find_first, find_last, first_index, last_index,
    line_bounds, lines, parse_unsigned, trim_bounds, trimmed, unsigned_value,
};
use vstd::prelude::*;

verus! {

/// A running Hyprland instance.
#[derive(Debug, PartialEq)]
pub struct Instance {
    /// The name of the instance, which is the name of its directory under
    /// the runtime directory.
    pub instance: String,
    /// The time written in the middle of the instance's name.
    pub time: u64,
    /// The process id of the compositor.
    pub pid: u32,
    /// The name of the instance's Wayland socket.
    pub wl_socket: String,
}

/// The mathematical value of an [`Instance`].
pub struct InstanceView {
    pub instance: Seq<char>,
    pub time: u64,
    pub pid: u32,
    pub wl_socket: Seq<char>,
}

impl View for Instance {
    type V = InstanceView;

    open spec fn view(&self) -> InstanceView {
        InstanceView {
            instance: self.instance@,
            time: self.time,
            pid: self.pid,
            wl_socket: self.wl_socket@,
        }
    }
}

impl DeepView for Instance {
    type V = InstanceView;

    open spec fn deep_view(&self) -> InstanceView {
        self@
    }
}

impl Clone for Instance {
    fn clone(&self) -> (r: Self)
        ensures
            r@ == self@,
    {
        Instance {
            instance: self.instance.clone(),
            time: self.time,
            pid: self.pid,
            wl_socket: self.wl_socket.clone(),
        }
    }
}

/// What was read of one child of the runtime directory: its name, and the
/// content of its lock file where that file could be read as text.
#[derive(Debug, PartialEq)]
pub struct RuntimeEntry {
    pub file_name: String,
    pub lock: Option<String>,
}

/// The mathematical value of a [`RuntimeEntry`].
pub struct RuntimeEntryView {
    pub file_name: Seq<char>,
    pub lock: Option<Seq<char>>,
}

impl View for RuntimeEntry {
    type V = RuntimeEntryView;

    open spec fn view(&self) -> RuntimeEntryView {
        RuntimeEntryView {
            file_name: self.file_name@,
            lock: match self.lock {
                Some(content) => Some(content@),
                None => None,
            },
        }
    }
}

impl DeepView for RuntimeEntry {
    type V = RuntimeEntryView;

    open spec fn deep_view(&self) -> RuntimeEntryView {
        self@
    }
}

/// The time that an entry's name carries between its first and its last
/// underscore, where these are two and the text between them is an unsigned
/// number.
pub open spec fn start_time(name: Seq<char>) -> Option<u64> {
    let first = first_index(name, '_');
    let last = last_index(name, '_');
    if first < last {
        match unsigned_value(name.subrange(first + 1, last), u64::MAX as nat) {
            Some(v) => Some(v as u64),
            None => None,
        }
    } else {
        None
    }
}

/// The process id and the Wayland socket name that a lock file states, where
/// it is well formed: two lines, trimmed, of which the first is an unsigned
/// number and the second is not empty.
pub open spec fn lock_record(content: Seq<char>) -> Option<(u32, Seq<char>)> {
    let ls = lines(content);
    if ls.len() == 2 && trimmed(ls[1]).len() > 0 {
        match unsigned_value(trimmed(ls[0]), u32::MAX as nat) {
            Some(pid) => Some((pid as u32, trimmed(ls[1]))),
            None => None,
        }
    } else {
        None
    }
}

/// The instance that an entry describes, where its name and its lock file
/// are both well formed.
pub open spec fn parsed(entry: RuntimeEntryView) -> Option<InstanceView> {
    match (start_time(entry.file_name), entry.lock) {
        (Some(time), Some(content)) => match lock_record(content) {
            Some((pid, wl_socket)) => Some(
                InstanceView { instance: entry.file_name, time, pid, wl_socket },
            ),
            None => None,
        },
        _ => None,
    }
}

/// Reads the time out of an entry's name.
pub fn parse_start_time(name: &str) -> (r: Option<u64>)
    ensures
        r == start_time(name@),
{
    let text = chars_of(name);
    assert(text@.subrange(0, text@.len() as int) =~= text@);
    let first: usize = find_first(&text, 0, text.len(), '_');
    let last: usize = match find_last(&text, '_') {
        Some(last) => last,
        None => {
            return None;
        },
    };
    if last <= first {
        return None;
    }
    parse_unsigned(&text, first + 1, last, u64::MAX)
}

/// Reads the process id and the Wayland socket name out of the content of a
/// lock file.
pub fn parse_lock(content: &str) -> (r: Option<(u32, String)>)
    ensures
        match lock_record(content@) {
            Some((pid, wl_socket)) => r is Some && r.unwrap().0 == pid && r.unwrap().1@
                == wl_socket,
            None => r is None,
        },
{
    let text = chars_of(content);
    let bounds = line_bounds(&text);
    if bounds.len() != 2 {
        return None;
    }
    let (pid_start, pid_end) = trim_bounds(&text, bounds[0].0, bounds[0].1);
    let (name_start, name_end) = trim_bounds(&text, bounds[1].0, bounds[1].1);
    if name_start == name_end {
        return None;
    }
    let pid: u32 = match parse_unsigned(&text, pid_start, pid_end, u32::MAX as u64) {
        Some(pid) => pid as u32,
        None => {
            return None;
        },
    };
    let wl_socket = String::from_str(content.substring_char(name_start, name_end));
    Some((pid, wl_socket))
}

/// Reads one entry of the runtime directory. An entry that is malformed in
/// any way gives `None`.
pub fn parse_instance_entry(entry: &RuntimeEntry) -> (r: Option<Instance>)
    ensures
        match parsed(entry@) {
            Some(v) => r is Some && r.unwrap()@ == v,
            None => r is None,
        },
{
    let time: u64 = match parse_start_time(entry.file_name.as_str()) {
        Some(time) => time,
        None => {
            return None;
        },
    };
    let content: &String = match &entry.lock {
        Some(content) => content,
        None => {
            return None;
        },
    };
    match parse_lock(content.as_str()) {
        Some((pid, wl_socket)) => Some(
            Instance { instance: entry.file_name.clone(), time, pid, wl_socket },
        ),
        None => None,
    }
}

/// The instance that the environment of a process names, given the value of
/// `HYPRLAND_INSTANCE_SIGNATURE` where it is set and the content of that
/// instance's lock file where it could be read: the instance that the two
/// describe as an entry of the runtime directory does, or the error for
/// which there is no default instance.
pub open spec fn environment_instance(
    signature: Option<Seq<char>>,
    lock: Option<Seq<char>>,
) -> Result<InstanceView, HyprErrorView> {
    match signature {
        Some(name) => match parsed(RuntimeEntryView { file_name: name, lock }) {
            Some(instance) => Ok(instance),
            None => Err(
                HyprErrorView::NoDefaultInstance(
                    "The instance named by HYPRLAND_INSTANCE_SIGNATURE is not running"@,
                ),
            ),
        },
        None => Err(
            HyprErrorView::NoDefaultInstance(
                "Could not get socket path! (Is Hyprland running??)"@,
            ),
        ),
    }
}

impl Instance {
    /// The instance that the environment of this process names. `signature`
    /// is the value of `HYPRLAND_INSTANCE_SIGNATURE`, `lock` the content of
    /// the lock file in the directory of that name.
    pub fn from_current_env(signature: Option<String>, lock: Option<String>) -> (r: Result<
        Instance,
        HyprError,
    >)
        ensures
            match environment_instance(
                match signature {
                    Some(name) => Some(name@),
                    None => None,
                },
                match lock {
                    Some(content) => Some(content@),
                    None => None,
                },
            ) {
                Ok(instance) => r is Ok && r.unwrap()@ == instance,
                Err(error) => r is Err && r.unwrap_err()@ == error,
            },
    {
        match signature {
            Some(name) => {
                let entry = RuntimeEntry { file_name: name, lock };
                match parse_instance_entry(&entry) {
                    Some(instance) => Ok(instance),
                    None => Err(
                        HyprError::NoDefaultInstance(
                            String::from_str(
                                "The instance named by HYPRLAND_INSTANCE_SIGNATURE is not running",
                            ),
                        ),
                    ),
                }
            },
            None => Err(
                HyprError::NoDefaultInstance(
                    String::from_str("Could not get socket path! (Is Hyprland running??)"),
                ),
            ),
        }
    }
}

/// [`parsed`] as a function value.
pub open spec fn parse_fn() -> spec_fn(RuntimeEntryView) -> Option<InstanceView> {
    |entry: RuntimeEntryView| parsed(entry)
}

/// The test that the process of an instance is among `live`.
pub open spec fn alive_fn(live: Set<u32>) -> spec_fn(InstanceView) -> bool {
    |candidate: InstanceView| live.contains(candidate.pid)
}

/// The instances that the well-formed entries describe, in the order of the
/// entries.
pub open spec fn candidates_of(entries: Seq<RuntimeEntryView>) -> Seq<InstanceView> {
    entries.filter_map(parse_fn())
}

/// The candidates whose process is among `live`, in their order.
pub open spec fn live_among(candidates: Seq<InstanceView>, live: Set<u32>) -> Seq<InstanceView> {
    candidates.filter(alive_fn(live))
}

/// The instances that discovery finds in a listing of the runtime directory,
/// given the set of the processes that exist: first all candidates, then of
/// these the live ones.
pub open spec fn discovered(entries: Seq<RuntimeEntryView>, live: Set<u32>) -> Seq<InstanceView> {
    live_among(candidates_of(entries), live)
}

/// The name of the lock file in an instance's directory.
pub fn lock_file_name() -> (r: &'static str)
    ensures
        r@ == "hyprland.lock"@,
{
    "hyprland.lock"
}

/// The path whose existence shows that the process `pid` exists.
pub fn process_path(pid: u32) -> (r: String)
    ensures
        r@ == "/proc/"@ + decimal(pid as nat),
{
    let mut path = String::from_str("/proc/");
    append_decimal(&mut path, pid as u128);
    path
}

/// The candidates of a listing: one instance for each well-formed entry.
pub fn candidates(entries: &Vec<RuntimeEntry>) -> (r: Vec<Instance>)
    ensures
        r.deep_view() == candidates_of(entries.deep_view()),
{
    let mut out: Vec<Instance> = Vec::new();
    let mut i: usize = 0;
    while i < entries.len()
        invariant
            i <= entries.len(),
            out.deep_view() == candidates_of(entries.deep_view().take(i as int)),
        decreases entries.len() - i,
    {
        proof {
            entries.deep_view().lemma_filter_map_take_succ(parse_fn(), i as int);
        }
        match parse_instance_entry(&entries[i]) {
            Some(found) => {
                out.push(found);
            },
            None => {},
        }
        i += 1;
    }
    assert(entries.deep_view().take(i as int) =~= entries.deep_view());
    out
}

/// Whether `pid` is among `live_pids`.
pub fn is_live(pid: u32, live_pids: &Vec<u32>) -> (r: bool)
    ensures
        r == live_pids@.to_set().contains(pid),
{
    let mut i: usize = 0;
    while i < live_pids.len()
        invariant
            i <= live_pids.len(),
            forall|j: int| 0 <= j < i ==> live_pids@[j] != pid,
        decreases live_pids.len() - i,
    {
        if live_pids[i] == pid {
            return true;
        }
        i += 1;
    }
    false
}

/// Keeps the candidates whose process is among `live_pids`, in their order.
pub fn retain_live(candidates: Vec<Instance>, live_pids: &Vec<u32>) -> (r: Vec<Instance>)
    ensures
        r.deep_view() == live_among(candidates.deep_view(), live_pids@.to_set()),
{
    let ghost all = candidates.deep_view();
    let ghost alive = alive_fn(live_pids@.to_set());
    let mut out: Vec<Instance> = Vec::new();
    for candidate in it: candidates
        invariant
            all == candidates.deep_view(),
            alive == alive_fn(live_pids@.to_set()),
            it.seq() == candidates@,
            out.deep_view() == all.take(it.index@).filter(alive),
    {
        proof {
            assert(all.take(it.index@ + 1) =~= all.take(it.index@).push(candidate@));
            all.take(it.index@).lemma_filter_push(candidate@, alive);
        }
        if is_live(candidate.pid, live_pids) {
            out.push(candidate);
        }
    }
    assert(all.take(all.len() as int) =~= all);
    out
}

/// Lists the running instances, given what was read of the runtime directory
/// and the ids of the processes that exist. A malformed entry is passed over;
/// only a runtime directory that could not be read fails the call.
pub fn instance_list(listing: Result<Vec<RuntimeEntry>, String>, live_pids: &Vec<u32>) -> (r:
    Result<Vec<Instance>, HyprError>)
    ensures
        match listing {
            Ok(entries) => r is Ok && r.unwrap().deep_view() == discovered(
                entries.deep_view(),
                live_pids@.to_set(),
            ),
            Err(message) => r is Err && r.unwrap_err()@ == HyprErrorView::Discovery(message@),
        },
{
    match listing {
        Ok(entries) => Ok(retain_live(candidates(&entries), live_pids)),
        Err(message) => Err(HyprError::Discovery(message)),
    }
}

/// The candidates of a listing in two parts are those of the first part
/// followed by those of the second.
pub proof fn candidates_distribute(a: Seq<RuntimeEntryView>, b: Seq<RuntimeEntryView>)
    ensures
        candidates_of(a + b) == candidates_of(a) + candidates_of(b),
    decreases b.len(),
{
    if b.len() > 0 {
        candidates_distribute(a, b.drop_last());
        assert((a + b).drop_last() =~= a + b.drop_last());
    }
}

/// Discovery takes each entry by itself: what it finds in a listing in two
/// parts is what it finds in the first part followed by what it finds in the
/// second.
pub proof fn discovery_distributes(
    a: Seq<RuntimeEntryView>,
    b: Seq<RuntimeEntryView>,
    live: Set<u32>,
)
    ensures
        discovered(a + b, live) == discovered(a, live) + discovered(b, live),
{
    candidates_distribute(a, b);
    Seq::filter_distributes_over_add(candidates_of(a), candidates_of(b), alive_fn(live));
}

/// What discovery finds in a listing of one entry: the instance that the
/// entry describes where it is well formed and its process is alive, and
/// nothing otherwise.
pub proof fn discovery_of_one(entry: RuntimeEntryView, live: Set<u32>)
    ensures
        discovered(seq![entry], live) == match parsed(entry) {
            Some(found) => if live.contains(found.pid) {
                seq![found]
            } else {
                Seq::empty()
            },
            None => Seq::empty(),
        },
{
    Seq::lemma_filter_map_singleton(entry, parse_fn());
    if let Some(found) = parsed(entry) {
        Seq::<InstanceView>::empty().lemma_filter_push(found, alive_fn(live));
    }
}

/// A well-formed entry whose process is alive is listed exactly once, at its
/// place among the others, and the instance listed for it has the entry's
/// name, the time written in that name, and the process id and the Wayland
/// socket name that the lock file states.
pub proof fn live_entry_is_listed(
    before: Seq<RuntimeEntryView>,
    entry: RuntimeEntryView,
    after: Seq<RuntimeEntryView>,
    live: Set<u32>,
)
    requires
        parsed(entry) is Some,
        live.contains(parsed(entry).unwrap().pid),
    ensures
        discovered(before + seq![entry] + after, live) == discovered(before, live) + seq![
            parsed(entry).unwrap(),
        ] + discovered(after, live),
        parsed(entry).unwrap().instance == entry.file_name,
        Some(parsed(entry).unwrap().time) == start_time(entry.file_name),
        Some((parsed(entry).unwrap().pid, parsed(entry).unwrap().wl_socket)) == lock_record(
            entry.lock.unwrap(),
        ),
{
    discovery_distributes(before + seq![entry], after, live);
    discovery_distributes(before, seq![entry], live);
    discovery_of_one(entry, live);
}

/// An entry whose process does not exist is not listed, however well formed
/// it is, and the other entries are listed as without it.
pub proof fn dead_entry_is_excluded(
    before: Seq<RuntimeEntryView>,
    entry: RuntimeEntryView,
    after: Seq<RuntimeEntryView>,
    live: Set<u32>,
)
    requires
        parsed(entry) is Some,
        !live.contains(parsed(entry).unwrap().pid),
    ensures
        discovered(before + seq![entry] + after, live) == discovered(before, live) + discovered(
            after,
            live,
        ),
{
    discovery_distributes(before + seq![entry], after, live);
    discovery_distributes(before, seq![entry], live);
    discovery_of_one(entry, live);
}

/// An entry whose lock file is missing, empty, has another number of lines
/// than two, or states no process id is not listed, and the other entries are
/// listed as without it.
pub proof fn malformed_lock_is_excluded(
    before: Seq<RuntimeEntryView>,
    entry: RuntimeEntryView,
    after: Seq<RuntimeEntryView>,
    live: Set<u32>,
)
    requires
        match entry.lock {
            Some(content) => {
                ||| content.len() == 0
                ||| lines(content).len() != 2
                ||| unsigned_value(trimmed(lines(content)[0]), u32::MAX as nat) is None
            },
            None => true,
        },
    ensures
        parsed(entry) is None,
        discovered(before + seq![entry] + after, live) == discovered(before, live) + discovered(
            after,
            live,
        ),
{
    discovery_distributes(before + seq![entry], after, live);
    discovery_distributes(before, seq![entry], live);
    discovery_of_one(entry, live);
}

/// Every instance that discovery lists has a process among the live ones,
/// and is the instance that some entry of the listing describes.
pub proof fn listed_instances_are_live(entries: Seq<RuntimeEntryView>, live: Set<u32>)
    ensures
        forall|i: int|
            0 <= i < discovered(entries, live).len() ==> {
                &&& live.contains((#[trigger] discovered(entries, live)[i]).pid)
                &&& exists|j: int|
                    0 <= j < entries.len() && parsed(entries[j]) == Some(
                        discovered(entries, live)[i],
                    )
            },
{
    let found = discovered(entries, live);
    assert forall|i: int| 0 <= i < found.len() implies {
        &&& live.contains((#[trigger] found[i]).pid)
        &&& exists|j: int| 0 <= j < entries.len() && parsed(entries[j]) == Some(found[i])
    } by {
        candidates_of(entries).lemma_filter_pred(alive_fn(live), i);
        candidates_of(entries).lemma_filter_contains_rev(alive_fn(live), found[i]);
        entries.lemma_filter_map_contains(parse_fn(), found[i]);
    }
}

} // verus!
