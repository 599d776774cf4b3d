//! The coordinator's logic: sandbox layout and per-worker configuration,
//! the control-plane framing, and supervision of the worker pool.

use crate::config::{AgentConfiguration, GameConfigData};
use crate::text::{decimal, decimal_string, lemma_decimal_injective};
use crate::wire::{be_bytes_u32, be_u32, u32_from_be, u32_to_be};
use vstd::prelude::*;

verus! {

/// Index just past the last '/' of `p`, or 0 when it has none.
pub open spec fn name_start(p: Seq<char>) -> int
    decreases p.len(),
{
    if p.len() == 0 {
        0
    } else if p.last() == '/' {
        p.len() as int
    } else {
        name_start(p.drop_last())
    }
}

/// The last component of path `p`: what follows its last '/'.
pub open spec fn file_name(p: Seq<char>) -> Seq<char> {
    p.subrange(name_start(p), p.len() as int)
}

/// `dir` joined with `name` by one '/'.
pub open spec fn joined(dir: Seq<char>, name: Seq<char>) -> Seq<char> {
    dir + seq!['/'] + name
}

/// The scratch directory of worker `index` under `root`.
pub open spec fn worker_dir_of(root: Seq<char>, index: nat) -> Seq<char> {
    joined(root, decimal(index))
}

/// Whether `p` holds ".gba" somewhere.
pub open spec fn has_gba(p: Seq<char>) -> bool {
    exists|i: int| 0 <= i && i + 4 <= p.len() && #[trigger] p.subrange(i, i + 4) == seq!['.', 'g', 'b', 'a']
}

/// The save-data file beside ROM `p`: the extension ("gba" where `p` holds
/// ".gba", else two characters) replaced by "sav".
pub open spec fn save_data_of(p: Seq<char>) -> Option<Seq<char>> {
    let cut: int = if has_gba(p) {
        3
    } else {
        2
    };
    if p.len() < cut {
        None
    } else {
        Some(p.subrange(0, p.len() - cut) + seq!['s', 'a', 'v'])
    }
}

/// The last component of `path`: what follows its last '/'.
pub fn last_component(path: &str) -> (r: String)
    ensures
        r@ == file_name(path@),
{
    let len = path.unicode_len();
    let mut start: usize = len;
    assert(path@.subrange(0, start as int) =~= path@);
    while start > 0 && path.get_char(start - 1) != '/'
        invariant
            start <= len == path@.len(),
            name_start(path@) == name_start(path@.subrange(0, start as int)),
        decreases start,
    {
        assert(path@.subrange(0, start - 1) =~= path@.subrange(0, start as int).drop_last());
        start = start - 1;
    }
    assert(name_start(path@.subrange(0, start as int)) == start as int);
    String::from_str(path.substring_char(start, len))
}

/// `dir` joined with `name` by one '/'.
pub fn join_path(dir: &str, name: &str) -> (r: String)
    ensures
        r@ == joined(dir@, name@),
{
    proof {
        reveal_strlit("/");
    }
    String::from_str(dir).concat("/").concat(name)
}

/// The scratch directory of worker `index`: `root` joined with the decimal index.
pub fn worker_dir(root: &str, index: u64) -> (r: String)
    ensures
        r@ == worker_dir_of(root@, index as nat),
{
    let n = decimal_string(index);
    join_path(root, n.as_str())
}

/// Name of the rendezvous endpoint inside a worker's directory.
pub open spec fn socket_name() -> Seq<char> {
    seq!['m', 'a', 'n', 'a', 'g', 'e', 'r', '.', 's', 'o', 'c', 'k']
}

/// The rendezvous endpoint of the worker whose directory is `dir`.
pub fn rendezvous_path(dir: &str) -> (r: String)
    ensures
        r@ == joined(dir@, socket_name()),
{
    proof {
        reveal_strlit("manager.sock");
    }
    join_path(dir, "manager.sock")
}

/// Distinct workers get distinct scratch directories.
pub proof fn lemma_worker_dirs_distinct(root: Seq<char>, i: nat, j: nat)
    requires
        i != j,
    ensures
        worker_dir_of(root, i) != worker_dir_of(root, j),
{
    if worker_dir_of(root, i) == worker_dir_of(root, j) {
        let a = worker_dir_of(root, i);
        let b = worker_dir_of(root, j);
        let k: int = root.len() as int + 1;
        assert(a.subrange(k, a.len() as int) =~= decimal(i));
        assert(b.subrange(k, b.len() as int) =~= decimal(j));
        lemma_decimal_injective(i, j);
    }
}

proof fn lemma_decimal_has_no_slash(n: nat)
    ensures
        forall|k: int| 0 <= k < decimal(n).len() ==> #[trigger] decimal(n)[k] != '/',
    decreases n,
{
    if n >= 10 {
        lemma_decimal_has_no_slash(n / 10);
        let d = decimal(n);
        assert(d == decimal(n / 10).push(crate::text::digit_char(n % 10)));
        assert forall|k: int| 0 <= k < d.len() implies #[trigger] d[k] != '/' by {
            if k < d.len() - 1 {
                assert(d[k] == decimal(n / 10)[k]);
            }
        }
    }
}

/// The sandboxes of a worker pool, where worker `i` has the configuration
/// `workers[i]` rewritten into `worker_dir_of(root, i)`: each directory is a
/// single non-empty component under `root`, no two workers share one, and
/// each worker's ROM and save state lie directly in its own directory.
pub proof fn lemma_fleet_sandboxes(
    root: Seq<char>,
    template: AgentConfiguration,
    workers: Seq<AgentConfiguration>,
)
    requires
        forall|i: int|
            0 <= i < workers.len() ==> rewritten_into(
                #[trigger] workers[i],
                template,
                worker_dir_of(root, i as nat),
            ),
    ensures
        forall|i: nat, j: nat|
            i < j < workers.len() ==> #[trigger] worker_dir_of(root, i) != #[trigger] worker_dir_of(
                root,
                j,
            ),
        forall|i: nat|
            i < workers.len() ==> {
                let d = #[trigger] worker_dir_of(root, i);
                let name = decimal(i);
                &&& d == root + seq!['/'] + name
                &&& name.len() > 0
                &&& forall|k: int| 0 <= k < name.len() ==> name[k] != '/'
                &&& workers[i as int].game_config_data.rom_path@ == joined(
                    d,
                    file_name(template.game_config_data.rom_path@),
                )
                &&& match workers[i as int].game_config_data.save_state_path {
                    Some(s) => s@ == joined(
                        d,
                        file_name(template.game_config_data.save_state_path.unwrap()@),
                    ),
                    None => template.game_config_data.save_state_path.is_none(),
                }
            },
{
    assert forall|i: nat, j: nat| i < j < workers.len() implies #[trigger] worker_dir_of(root, i)
        != #[trigger] worker_dir_of(root, j) by {
        lemma_worker_dirs_distinct(root, i, j);
    }
    assert forall|i: nat| i < workers.len() implies {
        let d = #[trigger] worker_dir_of(root, i);
        let name = decimal(i);
        &&& d == root + seq!['/'] + name
        &&& name.len() > 0
        &&& forall|k: int| 0 <= k < name.len() ==> name[k] != '/'
        &&& workers[i as int].game_config_data.rom_path@ == joined(
            d,
            file_name(template.game_config_data.rom_path@),
        )
        &&& match workers[i as int].game_config_data.save_state_path {
            Some(s) => s@ == joined(
                d,
                file_name(template.game_config_data.save_state_path.unwrap()@),
            ),
            None => template.game_config_data.save_state_path.is_none(),
        }
    } by {
        crate::text::lemma_decimal_len(i);
        lemma_decimal_has_no_slash(i);
        assert(rewritten_into(workers[i as int], template, worker_dir_of(root, i)));
    }
}

/// Whether `path` holds ".gba" somewhere.
pub fn contains_gba(path: &str) -> (r: bool)
    ensures
        r == has_gba(path@),
{
    let len = path.unicode_len();
    if len < 4 {
        return false;
    }
    let mut i: usize = 0;
    while i <= len - 4
        invariant
            len == path@.len(),
            len >= 4,
            i <= len - 3,
            forall|j: int| 0 <= j < i ==> #[trigger] path@.subrange(j, j + 4) != seq!['.', 'g', 'b', 'a'],
        decreases len - i,
    {
        if path.get_char(i) == '.' && path.get_char(i + 1) == 'g' && path.get_char(i + 2) == 'b'
            && path.get_char(i + 3) == 'a' {
            assert(path@.subrange(i as int, i + 4) =~= seq!['.', 'g', 'b', 'a']);
            return true;
        }
        assert(path@.subrange(i as int, i + 4) != seq!['.', 'g', 'b', 'a']) by {
            let s = path@.subrange(i as int, i + 4);
            if s == seq!['.', 'g', 'b', 'a'] {
                assert(s[0] == path@[i as int]);
                assert(s[1] == path@[i + 1]);
                assert(s[2] == path@[i + 2]);
                assert(s[3] == path@[i + 3]);
            }
        }
        i = i + 1;
    }
    false
}

/// The save-data file beside a ROM (see `save_data_of`); `None` where the
/// ROM path is too short to hold an extension.
pub fn save_data_path(rom_path: &str) -> (r: Option<String>)
    ensures
        match r {
            Some(s) => save_data_of(rom_path@) == Some(s@),
            None => save_data_of(rom_path@).is_none(),
        },
{
    let cut: usize = if contains_gba(rom_path) {
        3
    } else {
        2
    };
    let len = rom_path.unicode_len();
    if len < cut {
        return None;
    }
    proof {
        reveal_strlit("sav");
    }
    Some(String::from_str(rom_path.substring_char(0, len - cut)).concat("sav"))
}

/// The path a file gets inside sandbox `dir`: its last component joined to it.
pub open spec fn sandboxed(dir: Seq<char>, path: Seq<char>) -> Seq<char> {
    joined(dir, file_name(path))
}

/// A path's place in sandbox `dir`, if the path names a file.
pub open spec fn sandboxed_opt(dir: Seq<char>, path: Seq<char>) -> Option<Seq<char>> {
    if file_name(path).len() == 0 {
        None
    } else {
        Some(sandboxed(dir, path))
    }
}

/// `c` is `t` with the game's files in sandbox `dir`, all else unchanged.
pub open spec fn rewritten_into(c: AgentConfiguration, t: AgentConfiguration, dir: Seq<char>) -> bool {
    &&& c.agent_control == t.agent_control
    &&& c.render_condition == t.render_condition
    &&& c.store_observations == t.store_observations
    &&& c.emu_clock_mgr == t.emu_clock_mgr
    &&& c.agent_driver == t.agent_driver
    &&& Some(c.game_config_data.rom_path@) == sandboxed_opt(dir, t.game_config_data.rom_path@)
    &&& match (c.game_config_data.save_state_path, t.game_config_data.save_state_path) {
        (None, None) => true,
        (Some(a), Some(b)) => Some(a@) == sandboxed_opt(dir, b@),
        _ => false,
    }
}

/// Whether every path of `t` names a file, so that it can be sandboxed.
pub open spec fn sandboxable(t: AgentConfiguration) -> bool {
    &&& file_name(t.game_config_data.rom_path@).len() > 0
    &&& match t.game_config_data.save_state_path {
        Some(s) => file_name(s@).len() > 0,
        None => true,
    }
}

/// Where a file goes in sandbox `dir`; `None` if `path` ends in '/' or is empty.
pub fn sandbox_path(dir: &str, path: &str) -> (r: Option<String>)
    ensures
        match r {
            Some(s) => sandboxed_opt(dir@, path@) == Some(s@),
            None => sandboxed_opt(dir@, path@).is_none(),
        },
{
    let name = last_component(path);
    if name.as_str().unicode_len() == 0 {
        None
    } else {
        Some(join_path(dir, name.as_str()))
    }
}

/// The configuration of one worker: `template` with its ROM and save-state
/// paths moved into sandbox `dir`. `None` where a path names no file.
pub fn sandbox_configuration(template: &AgentConfiguration, dir: &str) -> (r: Option<
    AgentConfiguration,
>)
    ensures
        r.is_some() == sandboxable(*template),
        r matches Some(c) ==> rewritten_into(c, *template, dir@),
{
    let rom_path = match sandbox_path(dir, template.game_config_data.rom_path.as_str()) {
        Some(p) => p,
        None => return None,
    };
    let save_state_path = match &template.game_config_data.save_state_path {
        Some(s) => match sandbox_path(dir, s.as_str()) {
            Some(p) => Some(p),
            None => return None,
        },
        None => None,
    };
    Some(
        AgentConfiguration {
            agent_control: template.agent_control,
            render_condition: template.render_condition,
            store_observations: template.store_observations,
            emu_clock_mgr: template.emu_clock_mgr,
            agent_driver: template.agent_driver,
            game_config_data: GameConfigData { rom_path, save_state_path },
        },
    )
}

/// Bytes of the control-plane length prefix.
pub const LENGTH_PREFIX_LEN: usize = 4;

/// The control-plane message that carries `payload`: its length as four
/// big-endian bytes, then the payload.
pub open spec fn framed(payload: Seq<u8>) -> Seq<u8> {
    be_bytes_u32(payload.len() as u32) + payload
}

/// Why a control-plane message could not be read.
#[derive(Clone, Copy, Debug, PartialEq, Eq, Structural)]
pub enum FrameError {
    /// Fewer than four bytes: no length prefix.
    MissingLength,
    /// Fewer payload bytes than the prefix announces.
    ShortPayload,
    /// A payload too long for the length prefix.
    TooLong,
}

/// What reading a control-plane message from `b` yields: the payload that
/// the prefix announces.
pub open spec fn unframed(b: Seq<u8>) -> Result<Seq<u8>, FrameError> {
    if b.len() < LENGTH_PREFIX_LEN {
        Err(FrameError::MissingLength)
    } else {
        let n = be_u32(b.subrange(0, 4));
        if b.len() < 4 + n {
            Err(FrameError::ShortPayload)
        } else {
            Ok(b.subrange(4, 4 + n))
        }
    }
}

/// Frames `payload` as one control-plane message.
pub fn frame_message(payload: &[u8]) -> (r: Result<Vec<u8>, FrameError>)
    ensures
        payload@.len() > u32::MAX ==> r == Err::<Vec<u8>, FrameError>(FrameError::TooLong),
        payload@.len() <= u32::MAX ==> (r matches Ok(m) && m@ == framed(payload@)),
{
    if payload.len() > u32::MAX as usize {
        return Err(FrameError::TooLong);
    }
    let mut m = u32_to_be(payload.len() as u32);
    let mut i: usize = 0;
    while i < payload.len()
        invariant
            i <= payload@.len(),
            m@ == be_bytes_u32(payload@.len() as u32) + payload@.subrange(0, i as int),
        decreases payload@.len() - i,
    {
        m.push(payload[i]);
        proof {
            assert(payload@.subrange(0, i + 1) =~= payload@.subrange(0, i as int).push(payload@[i as int]));
        }
        i = i + 1;
        assert(m@ =~= be_bytes_u32(payload@.len() as u32) + payload@.subrange(0, i as int));
    }
    assert(payload@.subrange(0, i as int) =~= payload@);
    Ok(m)
}

/// The payload length that a four-byte prefix announces.
pub fn message_length(header: &[u8]) -> (r: u32)
    requires
        header@.len() == LENGTH_PREFIX_LEN,
    ensures
        r == be_u32(header@),
{
    u32_from_be(header)
}

/// Reads one control-plane message from `bytes`: the payload that its
/// length prefix announces. Bytes beyond it are not looked at.
pub fn unframe_message(bytes: &[u8]) -> (r: Result<Vec<u8>, FrameError>)
    ensures
        match (r, unframed(bytes@)) {
            (Ok(p), Ok(q)) => p@ == q,
            (Err(e), Err(f)) => e == f,
            _ => false,
        },
{
    if bytes.len() < LENGTH_PREFIX_LEN {
        return Err(FrameError::MissingLength);
    }
    let n = message_length(vstd::slice::slice_subrange(bytes, 0, 4)) as usize;
    if bytes.len() - 4 < n {
        return Err(FrameError::ShortPayload);
    }
    let total = bytes.len();
    let mut p: Vec<u8> = Vec::new();
    let mut i: usize = 0;
    while i < n
        invariant
            i <= n,
            total == bytes@.len(),
            4 + n <= bytes@.len(),
            p@ == bytes@.subrange(4, 4 + i),
        decreases n - i,
    {
        p.push(bytes[4 + i]);
        assert(p@ =~= bytes@.subrange(4, 4 + i + 1));
        i = i + 1;
    }
    Ok(p)
}

/// A payload that a coordinator frames is read back unchanged by a worker.
pub proof fn lemma_framing_round_trip(payload: Seq<u8>)
    requires
        payload.len() <= u32::MAX,
    ensures
        unframed(framed(payload)) == Ok::<Seq<u8>, FrameError>(payload),
{
    let m = framed(payload);
    let n = payload.len() as u32;
    assert(m.subrange(0, 4) =~= be_bytes_u32(n));
    assert(be_u32(be_bytes_u32(n)) == n);
    assert(m.subrange(4, 4 + n) =~= payload);
}

/// The two halves of handing a worker its configuration that this library
/// holds: the framed payload bytes are read back unchanged, and a rewritten
/// configuration agrees with its template everywhere but in the game's paths,
/// which lie in the worker's sandbox. Turning the configuration into payload
/// bytes and back is left to the serializer.
pub proof fn lemma_control_plane_round_trip(
    template: AgentConfiguration,
    worker: AgentConfiguration,
    dir: Seq<char>,
    payload: Seq<u8>,
)
    requires
        rewritten_into(worker, template, dir),
        payload.len() <= u32::MAX,
    ensures
        unframed(framed(payload)) == Ok::<Seq<u8>, FrameError>(payload),
        worker.agent_control == template.agent_control,
        worker.render_condition == template.render_condition,
        worker.store_observations == template.store_observations,
        worker.emu_clock_mgr == template.emu_clock_mgr,
        worker.agent_driver == template.agent_driver,
        worker.game_config_data.rom_path@ == sandboxed(dir, template.game_config_data.rom_path@),
        worker.game_config_data.save_state_path.is_some()
            == template.game_config_data.save_state_path.is_some(),
{
    lemma_framing_round_trip(payload);
}

/// How far the coordinator knows each worker to be.
#[derive(Clone, Copy, Debug, PartialEq, Eq, Structural)]
pub enum WorkerStatus {
    Running,
    Exited { success: bool },
}

/// Supervision state of the worker pool.
#[derive(Clone, Debug)]
pub struct FleetMonitor {
    pub statuses: Vec<WorkerStatus>,
}

/// Every worker has exited.
pub open spec fn all_exited(s: Seq<WorkerStatus>) -> bool {
    forall|i: int| 0 <= i < s.len() ==> !(#[trigger] s[i] matches WorkerStatus::Running)
}

impl FleetMonitor {
    /// `workers` workers, all running.
    pub fn new(workers: usize) -> (r: FleetMonitor)
        ensures
            r.statuses@ == Seq::new(workers as nat, |i: int| WorkerStatus::Running),
    {
        let mut statuses: Vec<WorkerStatus> = Vec::new();
        let mut i: usize = 0;
        while i < workers
            invariant
                i <= workers,
                statuses@ == Seq::new(i as nat, |j: int| WorkerStatus::Running),
            decreases workers - i,
        {
            statuses.push(WorkerStatus::Running);
            i = i + 1;
            assert(statuses@ =~= Seq::new(i as nat, |j: int| WorkerStatus::Running));
        }
        FleetMonitor { statuses }
    }

    /// Records one liveness poll of worker `index`: `None` while it runs,
    /// else whether it exited normally. Returns whether an abnormal exit is
    /// to be reported now; no exit stops the other workers.
    pub fn record_poll(&mut self, index: usize, exit: Option<bool>) -> (report: bool)
        requires
            index < old(self).statuses@.len(),
        ensures
            final(self).statuses@ == match (old(self).statuses@[index as int], exit) {
                (WorkerStatus::Running, Some(ok)) => old(self).statuses@.update(
                    index as int,
                    WorkerStatus::Exited { success: ok },
                ),
                _ => old(self).statuses@,
            },
            report == (old(self).statuses@[index as int] == WorkerStatus::Running && exit
                == Some(false)),
    {
        match (self.statuses[index], exit) {
            (WorkerStatus::Running, Some(ok)) => {
                self.statuses.set(index, WorkerStatus::Exited { success: ok });
                !ok
            },
            _ => false,
        }
    }

    /// Whether worker `index` still runs, as far as the polls tell.
    pub fn is_running(&self, index: usize) -> (r: bool)
        requires
            index < self.statuses@.len(),
        ensures
            r == (self.statuses@[index as int] == WorkerStatus::Running),
    {
        match self.statuses[index] {
            WorkerStatus::Running => true,
            _ => false,
        }
    }

    /// Whether teardown is due: every worker has exited.
    pub fn teardown_due(&self) -> (r: bool)
        ensures
            r == all_exited(self.statuses@),
    {
        let mut i: usize = 0;
        while i < self.statuses.len()
            invariant
                i <= self.statuses@.len(),
                forall|j: int| 0 <= j < i ==> !(#[trigger] self.statuses@[j] matches WorkerStatus::Running),
            decreases self.statuses@.len() - i,
        {
            if let WorkerStatus::Running = self.statuses[i] {
                return false;
            }
            i = i + 1;
        }
        true
    }
}

} // verus!
