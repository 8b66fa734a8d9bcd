//! Spreading a model over several devices and several nodes.
//!
//! The devices of a node are dealt out to pipeline stages; within a stage each device is one rank
//! of a tensor-parallel world. Ranks count on from node to node.

use vstd::prelude::*;
use crate::device::{are_all_cuda, Device};
#[allow(unused_imports)]
use crate::device::all_cuda;
use crate::error::{LoadError, Setting};
use crate::text::parse_usize;
#[allow(unused_imports)]
use crate::text::{failure_in, number_in, parsed};

verus! {

/// The settings of the process environment that steer parallel loading. A variable that is unset,
/// or that is not text, is `None`.
pub struct ParallelEnv {
    /// `MISTRALRS_NO_NCCL`
    pub no_nccl: Option<String>,
    /// `MISTRALRS_PIPELINE_PARALLEL`
    pub pipeline_parallel: Option<String>,
    /// `MISTRALRS_MN_GLOBAL_WORLD_SIZE`
    pub global_world_size: Option<String>,
    /// `MISTRALRS_MN_HEAD_NUM_WORKERS`
    pub head_num_workers: Option<String>,
    /// `MISTRALRS_MN_HEAD_PORT`
    pub head_port: Option<String>,
    /// `MISTRALRS_MN_WORKER_SERVER_ADDR`
    pub worker_server_addr: Option<String>,
    /// `MISTRALRS_MN_WORKER_ID`
    pub worker_id: Option<String>,
}

/// The user has switched NCCL off.
pub open spec fn nccl_refused(env: ParallelEnv) -> bool {
    env.no_nccl matches Some(x) && x@ == "1"@
}

/// NCCL is used: on more than one device, all of them CUDA, unless the user refuses it or the
/// build lacks it.
pub open spec fn nccl_wanted(devices: Seq<Device>, env: ParallelEnv, nccl_built: bool) -> bool {
    &&& all_cuda(devices)
    &&& devices.len() > 1
    &&& !nccl_refused(env)
    &&& nccl_built
}

/// Decides whether to load with NCCL.
pub fn use_nccl(devices: &Vec<Device>, env: &ParallelEnv, nccl_built: bool) -> (r: bool)
    ensures
        r == nccl_wanted(devices@, *env, nccl_built),
{
    let allowed = match &env.no_nccl {
        Some(x) => !(*x == String::from_str("1")),
        None => true,
    };
    are_all_cuda(devices) && devices.len() > 1 && allowed && nccl_built
}

/// How the devices of this node and the other nodes make up one world.
#[derive(Clone, Copy, Debug, PartialEq, Eq, Structural)]
pub struct WorldPlan {
    /// Number of pipeline stages, and of communicator ids.
    pub stages: usize,
    /// Ranks of each stage on this node.
    pub local_world_size: usize,
    /// Ranks of each stage over all nodes.
    pub global_world_size: usize,
}

impl WorldPlan {
    /// More ranks exist than this node has.
    pub open spec fn multi_node(self) -> bool {
        self.global_world_size != self.local_world_size
    }

    pub fn use_multi_node(&self) -> (r: bool)
        ensures
            r == self.multi_node(),
    {
        self.global_world_size != self.local_world_size
    }

    /// What every plan satisfies that was made for `devices` devices.
    pub open spec fn fits(self, devices: nat) -> bool {
        &&& 0 < self.stages <= devices
        &&& self.local_world_size == devices / self.stages as nat
        &&& self.local_world_size <= self.global_world_size
        &&& self.global_world_size % self.local_world_size == 0
        &&& self.multi_node() ==> self.stages == 1
    }
}

/// The number of pipeline stages that is asked for: one unless set.
pub open spec fn stages_in(env: ParallelEnv) -> Option<usize> {
    match env.pipeline_parallel {
        Some(x) => number_in(x@),
        None => Some(1),
    }
}

/// The global world size that is asked for, `local` unless set.
pub open spec fn global_in(env: ParallelEnv, local: usize) -> Option<usize> {
    match env.global_world_size {
        Some(x) => number_in(x@),
        None => Some(local),
    }
}

/// The world sizes can be worked out: the number of stages is a number, and there are not more
/// stages than devices. (More stages than devices only get as far as a global world size that is
/// not a number.)
pub open spec fn world_defined(devices: nat, env: ParallelEnv) -> bool {
    stages_in(env) matches Some(stages) && (stages <= devices || global_in(env, 0) is None)
}

/// The refusal of `text` as the number that `setting` calls for.
pub open spec fn not_a_number(setting: Setting, text: String) -> LoadError {
    LoadError::NotANumber { setting, failure: failure_in(text@) }
}

/// The world that the settings ask for on `devices` devices.
pub open spec fn world_of(devices: nat, env: ParallelEnv) -> Result<WorldPlan, LoadError> {
    let stages = stages_in(env)->0;
    if stages == 0 {
        Err(LoadError::PipelineParallelZero)
    } else {
        let local = (devices / stages as nat) as usize;
        match global_in(env, local) {
            None => Err(not_a_number(Setting::GlobalWorldSize, env.global_world_size->0)),
            Some(global) => if global < local || global % local != 0 {
                Err(LoadError::WorldSize { global, local })
            } else if stages != 1 && global != local {
                Err(LoadError::PipelineParallelAcrossNodes)
            } else {
                Ok(WorldPlan { stages, local_world_size: local, global_world_size: global })
            },
        }
    }
}

fn stages_of(env: &ParallelEnv) -> (r: Option<usize>)
    ensures
        r == stages_in(*env),
{
    match &env.pipeline_parallel {
        Some(x) => parse_usize(x.as_str()).ok(),
        None => Some(1),
    }
}

/// Tests whether `plan_world` can be asked.
pub fn is_world_defined(devices: usize, env: &ParallelEnv) -> (r: bool)
    ensures
        r == world_defined(devices as nat, *env),
{
    match stages_of(env) {
        Some(stages) => stages <= devices || match &env.global_world_size {
            Some(x) => parse_usize(x.as_str()).is_err(),
            None => false,
        },
        None => false,
    }
}

/// Works out the world sizes for a node with `devices` devices.
pub fn plan_world(devices: usize, env: &ParallelEnv) -> (r: Result<WorldPlan, LoadError>)
    requires
        world_defined(devices as nat, *env),
    ensures
        r == world_of(devices as nat, *env),
        r matches Ok(world) ==> world.fits(devices as nat),
{
    let stages = stages_of(env).unwrap();
    if stages == 0 {
        return Err(LoadError::PipelineParallelZero);
    }
    let local: usize = devices / stages;
    let global: usize = match &env.global_world_size {
        Some(x) => match parse_usize(x.as_str()) {
            Ok(global) => global,
            Err(failure) => {
                return Err(LoadError::NotANumber { setting: Setting::GlobalWorldSize, failure });
            },
        },
        None => local,
    };
    proof {
        assert(local >= 1) by (nonlinear_arith)
            requires
                local == devices / stages,
                0 < stages <= devices,
        ;
    }
    if global < local || global % local != 0 {
        return Err(LoadError::WorldSize { global, local });
    }
    if stages != 1 && global != local {
        return Err(LoadError::PipelineParallelAcrossNodes);
    }
    Ok(WorldPlan { stages, local_world_size: local, global_world_size: global })
}

/// How this node comes by the communicator id that all nodes share.
#[derive(Debug)]
pub enum IdExchange {
    /// There is nothing to share.
    Skip,
    /// Listen at `address`, and send the id to the workers.
    Lead { address: String, workers: usize, local_world_size: usize },
    /// Receive the id from the node at `address`.
    Follow { address: String, local_world_size: usize },
}

/// What the ranks of a stage wait for each other with.
#[derive(Debug)]
pub enum BarrierPlan {
    /// A barrier over all nodes, kept by this one at `address`.
    Lead { address: String, workers: usize, local_world_size: usize },
    /// A barrier over all nodes, kept by the node at `address`.
    Follow { address: String, local_world_size: usize },
    /// A barrier among the ranks of this node.
    Local { local_world_size: usize },
}

/// Where a head node listens.
pub open spec fn listen_address(port: Seq<char>) -> Seq<char> {
    "0.0.0.0:"@ + port
}

/// What a head node needs to know: its listening address and its number of workers.
pub open spec fn head_settings(workers: String, env: ParallelEnv) -> Result<
    (Seq<char>, usize),
    LoadError,
> {
    match number_in(workers@) {
        None => Err(not_a_number(Setting::HeadNumWorkers, workers)),
        Some(n) => match env.head_port {
            None => Err(LoadError::NoHeadListener),
            Some(port) => Ok((listen_address(port@), n)),
        },
    }
}

fn read_head_settings(workers: &String, env: &ParallelEnv) -> (r: Result<(String, usize), LoadError>)
    ensures
        match head_settings(*workers, *env) {
            Ok((address, n)) => r matches Ok(got) && got.0@ == address && got.1 == n,
            Err(e) => r == Err::<(String, usize), LoadError>(e),
        },
{
    let n: usize = match parse_usize(workers.as_str()) {
        Ok(n) => n,
        Err(failure) => {
            return Err(LoadError::NotANumber { setting: Setting::HeadNumWorkers, failure });
        },
    };
    match &env.head_port {
        Some(port) => {
            let mut address = String::from_str("0.0.0.0:");
            address.append(port.as_str());
            Ok((address, n))
        },
        None => Err(LoadError::NoHeadListener),
    }
}

/// `r` is the right way to share ids: only across nodes, leading where workers are counted, and
/// following where a server is named.
pub open spec fn is_id_exchange(
    world: WorldPlan,
    env: ParallelEnv,
    r: Result<IdExchange, LoadError>,
) -> bool {
    let local = world.local_world_size;
    if !world.multi_node() {
        r matches Ok(IdExchange::Skip)
    } else if let Some(workers) = env.head_num_workers {
        match head_settings(workers, env) {
            Ok((listen, n)) => r matches Ok(
                IdExchange::Lead { address, workers, local_world_size },
            ) && address@ == listen && workers == n && local_world_size == local,
            Err(e) => r == Err::<IdExchange, LoadError>(e),
        }
    } else if let Some(server) = env.worker_server_addr {
        r == Ok::<IdExchange, LoadError>(
            IdExchange::Follow { address: server, local_world_size: local },
        )
    } else {
        r matches Ok(IdExchange::Skip)
    }
}

/// Decides how the communicator id is shared among the nodes.
pub fn id_exchange(world: &WorldPlan, env: &ParallelEnv) -> (r: Result<IdExchange, LoadError>)
    ensures
        is_id_exchange(*world, *env, r),
{
    let local_world_size: usize = world.local_world_size;
    if !world.use_multi_node() {
        return Ok(IdExchange::Skip);
    }
    if let Some(workers) = &env.head_num_workers {
        match read_head_settings(workers, env) {
            Ok((address, n)) => Ok(
                IdExchange::Lead { address, workers: n, local_world_size },
            ),
            Err(e) => Err(e),
        }
    } else if let Some(server) = &env.worker_server_addr {
        Ok(IdExchange::Follow { address: server.clone(), local_world_size })
    } else {
        Ok(IdExchange::Skip)
    }
}

/// `r` is the right barrier: over the nodes where workers are counted or a server is named,
/// whatever the world sizes, and on this node otherwise.
pub open spec fn is_barrier_plan(
    world: WorldPlan,
    env: ParallelEnv,
    r: Result<BarrierPlan, LoadError>,
) -> bool {
    let local = world.local_world_size;
    if let Some(workers) = env.head_num_workers {
        match head_settings(workers, env) {
            Ok((listen, n)) => r matches Ok(
                BarrierPlan::Lead { address, workers, local_world_size },
            ) && address@ == listen && workers == n && local_world_size == local,
            Err(e) => r == Err::<BarrierPlan, LoadError>(e),
        }
    } else if let Some(server) = env.worker_server_addr {
        r == Ok::<BarrierPlan, LoadError>(
            BarrierPlan::Follow { address: server, local_world_size: local },
        )
    } else {
        r == Ok::<BarrierPlan, LoadError>(BarrierPlan::Local { local_world_size: local })
    }
}

/// Decides what the ranks of each stage wait for each other with.
pub fn barrier_plan(world: &WorldPlan, env: &ParallelEnv) -> (r: Result<BarrierPlan, LoadError>)
    ensures
        is_barrier_plan(*world, *env, r),
{
    let local_world_size: usize = world.local_world_size;
    if let Some(workers) = &env.head_num_workers {
        match read_head_settings(workers, env) {
            Ok((address, n)) => Ok(
                BarrierPlan::Lead { address, workers: n, local_world_size },
            ),
            Err(e) => Err(e),
        }
    } else if let Some(server) = &env.worker_server_addr {
        Ok(BarrierPlan::Follow { address: server.clone(), local_world_size })
    } else {
        Ok(BarrierPlan::Local { local_world_size })
    }
}

/// `groups` deals `devices` out in order, `size` to each.
pub open spec fn is_split(devices: Seq<Device>, size: nat, groups: Seq<Vec<Device>>) -> bool {
    &&& groups.len() * size == devices.len()
    &&& forall|i: int|
        0 <= i < groups.len() ==> (#[trigger] groups[i])@ == devices.subrange(
            i * size,
            (i + 1) * size,
        )
}

/// Deals the devices out to the stages of the plan.
pub fn split_devices(devices: &Vec<Device>, world: &WorldPlan) -> (r: Result<
    Vec<Vec<Device>>,
    LoadError,
>)
    requires
        world.fits(devices@.len()),
    ensures
        match r {
            Ok(groups) => devices@.len() % world.stages as nat == 0 && groups@.len() == world.stages
                && is_split(devices@, world.local_world_size as nat, groups@),
            Err(e) => devices@.len() % world.stages as nat != 0 && e == (LoadError::UnevenStages {
                stages: world.stages,
                devices: devices@.len() as usize,
            }),
        },
{
    let n: usize = devices.len();
    if n % world.stages != 0 {
        return Err(LoadError::UnevenStages { stages: world.stages, devices: n });
    }
    let size: usize = n / world.stages;
    let stages: usize = world.stages;
    proof {
        assert(stages * size == n) by (nonlinear_arith)
            requires
                size == n / stages,
                n % stages == 0,
                0 < stages,
        ;
    }
    let mut groups: Vec<Vec<Device>> = Vec::new();
    let mut start: usize = 0;
    while groups.len() < stages
        invariant
            groups@.len() <= stages,
            stages * size == n,
            n == devices@.len(),
            start == groups@.len() * size,
            forall|i: int|
                0 <= i < groups@.len() ==> (#[trigger] groups@[i])@ == devices@.subrange(
                    i * size,
                    (i + 1) * size,
                ),
        decreases stages - groups@.len(),
    {
        let ghost k = groups@.len() as int;
        proof {
            assert((k + 1) * size <= stages * size) by (nonlinear_arith)
                requires
                    k + 1 <= stages,
                    0 <= size,
            ;
            assert((k + 1) * size == k * size + size) by (nonlinear_arith);
        }
        let mut group: Vec<Device> = Vec::new();
        let mut j: usize = 0;
        while j < size
            invariant
                j <= size,
                start + size <= n,
                n == devices@.len(),
                group@ == devices@.subrange(start as int, start + j),
            decreases size - j,
        {
            group.push(devices[start + j]);
            j = j + 1;
            proof {
                assert(devices@.subrange(start as int, start + j) =~= devices@.subrange(
                    start as int,
                    start + j - 1,
                ).push(devices@[start + j - 1]));
            }
        }
        groups.push(group);
        start = start + size;
    }
    Ok(groups)
}

/// The rank of the first device of this node, where it is settled. A worker comes after the head
/// node and after the workers numbered below it.
pub open spec fn first_rank(world: WorldPlan, env: ParallelEnv) -> Result<int, LoadError> {
    match env.worker_server_addr {
        None => Ok(0),
        Some(_) => match env.worker_id {
            None => Err(LoadError::NoWorkerId),
            Some(id) => match number_in(id@) {
                None => Err(not_a_number(Setting::WorkerId, id)),
                Some(n) => Ok((n + 1) * world.local_world_size),
            },
        },
    }
}

/// Every rank of this node is a machine word.
pub open spec fn ranks_fit(world: WorldPlan, env: ParallelEnv) -> bool {
    first_rank(world, env) matches Ok(first) ==> first + world.local_world_size - 1 <= usize::MAX
}

/// Tests whether `rank_offset` can be asked.
pub fn do_ranks_fit(world: &WorldPlan, env: &ParallelEnv) -> (r: bool)
    requires
        world.local_world_size > 0,
    ensures
        r == ranks_fit(*world, *env),
{
    let local: usize = world.local_world_size;
    if env.worker_server_addr.is_none() {
        return true;
    }
    match &env.worker_id {
        None => true,
        Some(id) => match parse_usize(id.as_str()) {
            Err(_) => true,
            Ok(n) => {
                let room: usize = usize::MAX - (local - 1);
                let most: usize = room / local;
                proof {
                    assert((n + 1) * local <= room <==> n + 1 <= most) by (nonlinear_arith)
                        requires
                            most == room / local,
                            local > 0,
                    ;
                }
                n < most
            },
        },
    }
}

/// Finds the rank of the first device of this node.
pub fn rank_offset(world: &WorldPlan, env: &ParallelEnv) -> (r: Result<usize, LoadError>)
    requires
        world.local_world_size > 0,
        ranks_fit(*world, *env),
    ensures
        match first_rank(*world, *env) {
            Ok(first) => r matches Ok(offset) && offset == first,
            Err(e) => r == Err::<usize, LoadError>(e),
        },
{
    if env.worker_server_addr.is_none() {
        return Ok(0);
    }
    match &env.worker_id {
        None => Err(LoadError::NoWorkerId),
        Some(id) => match parse_usize(id.as_str()) {
            Err(failure) => Err(LoadError::NotANumber { setting: Setting::WorkerId, failure }),
            Ok(n) => {
                let local: usize = world.local_world_size;
                proof {
                    assert(n + 1 <= (n + 1) * local) by (nonlinear_arith)
                        requires
                            local >= 1,
                    ;
                }
                Ok((n + 1) * local)
            },
        },
    }
}

/// The place that a device takes among the ranks of a stage.
#[derive(Clone, Copy, Debug, PartialEq, Eq, Structural)]
pub struct CommSeat {
    /// The stage, which is also the number of the communicator id.
    pub stage: usize,
    pub device: Device,
    /// The rank over all nodes.
    pub rank: usize,
    pub world_size: usize,
}

/// Row `s` of `seats` seats the devices of group `s` in order, from rank `offset` on.
pub open spec fn is_seating(
    groups: Seq<Vec<Device>>,
    offset: int,
    world_size: usize,
    seats: Seq<Vec<CommSeat>>,
) -> bool {
    &&& seats.len() == groups.len()
    &&& forall|s: int|
        0 <= s < seats.len() ==> (#[trigger] seats[s])@.len() == groups[s]@.len()
    &&& forall|s: int, r: int|
        #![trigger seats[s]@[r]]
        0 <= s < seats.len() && 0 <= r < seats[s]@.len() ==> {
            &&& seats[s]@[r].stage == s
            &&& seats[s]@[r].device == groups[s]@[r]
            &&& seats[s]@[r].rank == r + offset
            &&& seats[s]@[r].world_size == world_size
        }
}

/// Seats the devices of each stage.
pub fn seat_ranks(groups: &Vec<Vec<Device>>, offset: usize, world_size: usize) -> (r: Vec<
    Vec<CommSeat>,
>)
    requires
        forall|s: int| 0 <= s < groups@.len() ==> (#[trigger] groups@[s])@.len() + offset
            <= usize::MAX + 1,
    ensures
        is_seating(groups@, offset as int, world_size, r@),
{
    let mut seats: Vec<Vec<CommSeat>> = Vec::new();
    let mut stage: usize = 0;
    while stage < groups.len()
        invariant
            stage <= groups.len(),
            forall|s: int|
                0 <= s < groups@.len() ==> (#[trigger] groups@[s])@.len() + offset
            <= usize::MAX + 1,
            is_seating(groups@.take(stage as int), offset as int, world_size, seats@),
        decreases groups.len() - stage,
    {
        let group: &Vec<Device> = &groups[stage];
        let mut row: Vec<CommSeat> = Vec::new();
        let mut rank: usize = 0;
        while rank < group.len()
            invariant
                rank <= group.len(),
                row@.len() == rank,
                group@.len() + offset <= usize::MAX + 1,
                forall|r: int|
                    0 <= r < rank ==> (#[trigger] row@[r]) == (CommSeat {
                        stage,
                        device: group@[r],
                        rank: (r + offset) as usize,
                        world_size,
                    }),
            decreases group.len() - rank,
        {
            row.push(CommSeat { stage, device: group[rank], rank: rank + offset, world_size });
            rank = rank + 1;
        }
        seats.push(row);
        stage = stage + 1;
    }
    proof {
        assert(groups@.take(stage as int) =~= groups@);
    }
    seats
}

/// `columns` holds the first `width` columns of `rows`, each as a row.
pub open spec fn is_transpose<T>(rows: Seq<Vec<T>>, width: nat, columns: Seq<Vec<T>>) -> bool {
    &&& columns.len() == width
    &&& forall|c: int| 0 <= c < width ==> (#[trigger] columns[c])@.len() == rows.len()
    &&& forall|c: int, s: int|
        #![trigger columns[c]@[s]]
        0 <= c < width && 0 <= s < rows.len() ==> columns[c]@[s] == rows[s]@[c]
}

/// Turns the ranks of each stage into the stages of each rank.
pub fn transpose<T: Copy>(rows: &Vec<Vec<T>>, width: usize) -> (r: Vec<Vec<T>>)
    requires
        forall|s: int| 0 <= s < rows@.len() ==> (#[trigger] rows@[s])@.len() >= width,
    ensures
        is_transpose(rows@, width as nat, r@),
{
    let mut columns: Vec<Vec<T>> = Vec::new();
    let mut c: usize = 0;
    while c < width
        invariant
            c <= width,
            forall|s: int| 0 <= s < rows@.len() ==> (#[trigger] rows@[s])@.len() >= width,
            is_transpose(rows@, c as nat, columns@),
        decreases width - c,
    {
        let mut column: Vec<T> = Vec::new();
        let mut s: usize = 0;
        while s < rows.len()
            invariant
                c < width,
                s <= rows.len(),
                column@.len() == s,
                forall|k: int| 0 <= k < rows@.len() ==> (#[trigger] rows@[k])@.len() >= width,
                forall|k: int| 0 <= k < s ==> (#[trigger] column@[k]) == rows@[k]@[c as int],
            decreases rows.len() - s,
        {
            let row: &Vec<T> = &rows[s];
            column.push(row[c]);
            s = s + 1;
        }
        columns.push(column);
        c = c + 1;
    }
    columns
}

/// Where this node stands in the row of nodes: the head node first, then the workers by number.
pub open spec fn node_number(env: ParallelEnv) -> int {
    match env.worker_server_addr {
        None => 0,
        Some(_) => number_in(env.worker_id->0@)->0 + 1,
    }
}

/// A world that is settled has at least one rank and one stage, divides the whole world evenly,
/// and spans several nodes only with a single stage.
pub proof fn law_settled_world_fits(devices: nat, env: ParallelEnv)
    requires
        devices <= usize::MAX,
        world_defined(devices, env),
        world_of(devices, env) is Ok,
    ensures
        world_of(devices, env)->Ok_0.fits(devices),
        world_of(devices, env)->Ok_0.local_world_size > 0,
{
    let stages = stages_in(env)->0;
    assert(1 <= devices / stages as nat <= devices) by (nonlinear_arith)
        requires
            0 < stages <= devices,
    ;
}

/// No device is lost or moved when the devices are dealt out to the stages: device `i` is the
/// `i % size`-th of group `i / size`.
pub proof fn law_split_keeps_every_device(
    devices: Seq<Device>,
    size: nat,
    groups: Seq<Vec<Device>>,
    i: int,
)
    requires
        is_split(devices, size, groups),
        size > 0,
        0 <= i < devices.len(),
    ensures
        0 <= i / (size as int) < groups.len(),
        groups[i / (size as int)]@.len() == size,
        groups[i / (size as int)]@[i % (size as int)] == devices[i],
{
    let g = i / (size as int);
    assert(0 <= g < groups.len() && g * size + i % (size as int) == i && (g + 1) * size <= groups.len()
        * size && (g + 1) * size == g * size + size) by (nonlinear_arith)
        requires
            g == i / (size as int),
            size > 0,
            0 <= i < groups.len() * size,
    ;
    assert(groups[g]@ == devices.subrange(g * size, (g + 1) * size));
}

/// Turning ranks and stages over twice gives the rows back.
pub proof fn law_transpose_twice<T>(
    rows: Seq<Vec<T>>,
    width: nat,
    columns: Seq<Vec<T>>,
    back: Seq<Vec<T>>,
    s: int,
)
    requires
        forall|k: int| 0 <= k < rows.len() ==> (#[trigger] rows[k])@.len() == width,
        is_transpose(rows, width, columns),
        is_transpose(columns, rows.len(), back),
        0 <= s < rows.len(),
    ensures
        back.len() == rows.len(),
        back[s]@ == rows[s]@,
{
    assert forall|c: int| 0 <= c < width implies back[s]@[c] == rows[s]@[c] by {
        assert(back[s]@[c] == columns[c]@[s]);
    }
    assert(back[s]@ =~= rows[s]@);
}

/// Two nodes never hold the same rank, so long as they are different nodes of one world.
pub proof fn law_nodes_share_no_rank(
    world: WorldPlan,
    one: ParallelEnv,
    other: ParallelEnv,
    i: int,
    j: int,
)
    requires
        first_rank(world, one) is Ok,
        first_rank(world, other) is Ok,
        node_number(one) != node_number(other),
        0 <= i < world.local_world_size,
        0 <= j < world.local_world_size,
    ensures
        first_rank(world, one)->Ok_0 + i != first_rank(world, other)->Ok_0 + j,
{
    let local = world.local_world_size as int;
    let a = node_number(one);
    let b = node_number(other);
    assert(first_rank(world, one)->Ok_0 == a * local) by (nonlinear_arith)
        requires
            first_rank(world, one) is Ok,
            a == node_number(one),
            local == world.local_world_size,
    ;
    assert(first_rank(world, other)->Ok_0 == b * local) by (nonlinear_arith)
        requires
            first_rank(world, other) is Ok,
            b == node_number(other),
            local == world.local_world_size,
    ;
    assert(a * local + i != b * local + j) by (nonlinear_arith)
        requires
            a != b,
            0 <= i < local,
            0 <= j < local,
    ;
}

/// With nothing set in the environment, all devices make one world of one stage.
pub proof fn law_unset_environment_is_one_world(devices: nat, env: ParallelEnv)
    requires
        0 < devices <= usize::MAX,
        env.pipeline_parallel is None,
        env.global_world_size is None,
    ensures
        world_of(devices, env) == Ok::<WorldPlan, LoadError>(
            WorldPlan {
                stages: 1,
                local_world_size: devices as usize,
                global_world_size: devices as usize,
            },
        ),
{
    let local = devices as usize;
    assert(local % local == 0) by (nonlinear_arith)
        requires
            local > 0,
    ;
    assert(devices / 1 == devices);
}

/// NCCL is used for several CUDA devices and not otherwise: one other device, a build without it,
/// or a refusal by the user is enough to go without.
pub proof fn law_nccl_needs_everything(
    devices: Seq<Device>,
    env: ParallelEnv,
    nccl_built: bool,
    i: int,
)
    ensures
        0 <= i < devices.len() && !(devices[i] is Cuda) ==> !nccl_wanted(devices, env, nccl_built),
        devices.len() <= 1 ==> !nccl_wanted(devices, env, nccl_built),
        !nccl_built ==> !nccl_wanted(devices, env, nccl_built),
        env.no_nccl matches Some(x) && x@ == "1"@ ==> !nccl_wanted(devices, env, nccl_built),
        devices.len() > 1 && nccl_built && !(env.no_nccl matches Some(x) && x@ == "1"@) && (forall|
            j: int,
        |
            0 <= j < devices.len() ==> (#[trigger] devices[j]) is Cuda) ==> nccl_wanted(
            devices,
            env,
            nccl_built,
        ),
{
}

/// The world that is settled: as many stages as are asked for, or one; as many ranks on this node
/// as each stage has whole shares of the devices; and as many over all nodes as are asked for, or
/// as this node has, in whole multiples, and with one stage only where there are more.
pub proof fn law_world_shares_out_the_devices(devices: nat, env: ParallelEnv, w: WorldPlan)
    requires
        devices <= usize::MAX,
        world_defined(devices, env),
        world_of(devices, env) == Ok::<WorldPlan, LoadError>(w),
    ensures
        env.pipeline_parallel is None ==> w.stages == 1,
        env.pipeline_parallel matches Some(x) ==> number_in(x@) == Some(w.stages),
        w.stages > 0,
        w.stages * w.local_world_size <= devices < w.stages * w.local_world_size + w.stages,
        w.local_world_size > 0,
        env.global_world_size is None ==> w.global_world_size == w.local_world_size,
        env.global_world_size matches Some(x) ==> number_in(x@) == Some(w.global_world_size),
        w.global_world_size >= w.local_world_size,
        exists|m: int| #[trigger] (m * w.local_world_size) == w.global_world_size,
        w.global_world_size != w.local_world_size ==> w.stages == 1,
        w.multi_node() <==> w.global_world_size != w.local_world_size,
{
    law_settled_world_fits(devices, env);
    let stages = w.stages as nat;
    let local = w.local_world_size as int;
    let global = w.global_world_size as int;
    assert(stages * (devices / stages) <= devices < stages * (devices / stages) + stages)
        by (nonlinear_arith)
        requires
            stages > 0,
    ;
    assert((global / local) * local == global) by (nonlinear_arith)
        requires
            local > 0,
            global % local == 0,
    ;
}

/// A world is refused exactly for no stages, for a global size that is no number, that is smaller
/// than the local size or no multiple of it, or for stages across nodes, in this order.
pub proof fn law_worlds_are_refused_in_order(devices: nat, env: ParallelEnv, stages: usize, local: usize)
    requires
        devices <= usize::MAX,
        stages == (match env.pipeline_parallel {
            Some(x) => number_in(x@)->0,
            None => 1,
        }),
        env.pipeline_parallel matches Some(x) ==> number_in(x@) is Some,
        stages > 0 ==> local == devices / stages as nat,
        env.global_world_size matches Some(x) ==> number_in(x@) is Some ==> stages <= devices,
        env.global_world_size is None ==> stages <= devices,
    ensures
        world_defined(devices, env),
        stages == 0 ==> (world_of(devices, env) matches Err(e) && e is PipelineParallelZero),
        stages > 0 ==> (env.global_world_size matches Some(x) ==> {
            &&& number_in(x@) is None ==> (world_of(devices, env) matches Err(
                LoadError::NotANumber { setting, failure },
            ) && setting is GlobalWorldSize && parsed(x@) == Err::<usize, _>(failure))
            &&& number_in(x@) matches Some(global) ==> {
                &&& global < local || global % local != 0 ==> (world_of(devices, env) matches Err(
                    LoadError::WorldSize { global: g, local: l },
                ) && g == global && l == local)
                &&& global >= local && global % local == 0 && stages != 1 && global != local ==> (
                world_of(devices, env) matches Err(e) && e is PipelineParallelAcrossNodes)
                &&& global >= local && global % local == 0 && (stages == 1 || global == local)
                    ==> world_of(devices, env) is Ok
            }
        }),
        stages > 0 && env.global_world_size is None ==> world_of(devices, env) is Ok,
{
    if stages > 0 && stages <= devices {
        assert(1 <= devices / stages as nat <= devices) by (nonlinear_arith)
            requires
                0 < stages <= devices,
        ;
        assert(local % local == 0) by (nonlinear_arith)
            requires
                local > 0,
        ;
    }
}

/// A head node, which is one that counts its workers, listens on its port on every interface; a
/// worker goes to the server that it is told. Ids are shared only where there are more ranks than
/// this node has, and barriers in any case.
pub proof fn law_nodes_find_each_other(
    world: WorldPlan,
    env: ParallelEnv,
    ids: Result<IdExchange, LoadError>,
    barrier: Result<BarrierPlan, LoadError>,
)
    requires
        is_id_exchange(world, env, ids),
        is_barrier_plan(world, env, barrier),
    ensures
        world.global_world_size == world.local_world_size ==> (ids matches Ok(x) && x is Skip),
        env.head_num_workers matches Some(w) ==> {
            &&& number_in(w@) is None ==> {
                &&& barrier matches Err(LoadError::NotANumber { setting, failure })
                &&& setting is HeadNumWorkers
                &&& parsed(w@) == Err::<usize, _>(failure)
                &&& world.global_world_size != world.local_world_size ==> (ids matches Err(
                    LoadError::NotANumber { setting: s, failure: f },
                ) && s is HeadNumWorkers && f == failure)
            }
            &&& number_in(w@) is Some && env.head_port is None ==> {
                &&& barrier matches Err(e) && e is NoHeadListener
                &&& world.global_world_size != world.local_world_size ==> (ids matches Err(e)
                    && e is NoHeadListener)
            }
            &&& number_in(w@) matches Some(n) ==> (env.head_port matches Some(port) ==> {
                &&& barrier matches Ok(BarrierPlan::Lead { address, workers, local_world_size })
                    && address@ == "0.0.0.0:"@ + port@ && workers == n && local_world_size
                    == world.local_world_size
                &&& world.global_world_size != world.local_world_size ==> (ids matches Ok(
                    IdExchange::Lead { address, workers, local_world_size },
                ) && address@ == "0.0.0.0:"@ + port@ && workers == n && local_world_size
                    == world.local_world_size)
            })
        },
        env.head_num_workers is None ==> (env.worker_server_addr matches Some(server) ==> {
            &&& barrier matches Ok(BarrierPlan::Follow { address, local_world_size }) && address
                == server && local_world_size == world.local_world_size
            &&& world.global_world_size != world.local_world_size ==> (ids matches Ok(
                IdExchange::Follow { address, local_world_size },
            ) && address == server && local_world_size == world.local_world_size)
        }),
        env.head_num_workers is None && env.worker_server_addr is None ==> {
            &&& barrier matches Ok(BarrierPlan::Local { local_world_size }) && local_world_size
                == world.local_world_size
            &&& ids matches Ok(x) && x is Skip
        },
{
}

/// A head node, or one that is alone, begins at rank zero; worker `n` begins behind the head node
/// and the `n` workers before it. A worker must know its number.
pub proof fn law_ranks_count_on_from_node_to_node(world: WorldPlan, env: ParallelEnv)
    ensures
        env.worker_server_addr is None ==> first_rank(world, env) == Ok::<int, LoadError>(0),
        env.worker_server_addr is Some && env.worker_id is None ==> (first_rank(world, env) matches Err(
            e,
        ) && e is NoWorkerId),
        env.worker_server_addr is Some ==> (env.worker_id matches Some(id) ==> {
            &&& number_in(id@) is None ==> (first_rank(world, env) matches Err(
                LoadError::NotANumber { setting, failure },
            ) && setting is WorkerId && parsed(id@) == Err::<usize, _>(failure))
            &&& number_in(id@) matches Some(n) ==> first_rank(world, env) == Ok::<int, LoadError>(
                world.local_world_size + n * world.local_world_size,
            )
        }),
        first_rank(world, env) matches Ok(first) ==> (ranks_fit(world, env) <==> first
            + world.local_world_size <= usize::MAX + 1),
{
    if let Some(id) = env.worker_id {
        if let Some(n) = number_in(id@) {
            let local = world.local_world_size as int;
            assert((n + 1) * local == local + n * local) by (nonlinear_arith);
        }
    }
}

/// A device is seated in the stage of its group, behind those before it in the group, and nowhere
/// else; all share one world.
pub proof fn law_seats_follow_the_groups(
    groups: Seq<Vec<Device>>,
    offset: int,
    world_size: usize,
    seats: Seq<Vec<CommSeat>>,
    s: int,
    r: int,
)
    requires
        is_seating(groups, offset, world_size, seats),
        0 <= s < groups.len(),
        0 <= r < groups[s]@.len(),
    ensures
        seats.len() == groups.len(),
        seats[s]@.len() == groups[s]@.len(),
        seats[s]@[r].stage == s,
        seats[s]@[r].device == groups[s]@[r],
        seats[s]@[r].rank == offset + r,
        seats[s]@[r].world_size == world_size,
{
    assert(seats[s]@.len() == groups[s]@.len());
    assert(seats[s]@[r].rank == r + offset);
}

} // verus!
