//! The replay driver's bookkeeping and decisions: which binaries a replay
//! may instantiate, which instances it has created, and what each top-level
//! event of the trace asks the engine to do.

use vstd::prelude::*;
use crate::checksum::WasmChecksum;
use crate::error::ReplayError;
use crate::events::component_events::{self, RRComponentInstanceId};
use crate::events::core_events::{self, RRModuleInstanceId};
use crate::events::RRFuncArgVals;
use crate::index::{ExportIndex, FuncIndex};
use crate::replay::{leading_skipped, next_item, reaches_stop, ReplayBuffer};
use crate::rr_event::RREvent;
use std::collections::{BTreeMap, VecDeque};
use crate::settings::ReplaySettings;
use vstd::std_specs::convert::FromSpec;

verus! {

// ---------------------------------------------------------------------------
// Binaries by checksum
// ---------------------------------------------------------------------------

/// The value of the `n` bytes of `s` from `start`, read as a big-endian number.
pub open spec fn be_value(s: Seq<u8>, start: int, n: nat) -> nat
    decreases n,
{
    if n == 0 {
        0
    } else {
        be_value(s, start, (n - 1) as nat) * 256 + s[start + n - 1] as nat
    }
}

/// `256` to the power `n`.
pub open spec fn pow256(n: nat) -> nat
    decreases n,
{
    if n == 0 {
        1
    } else {
        pow256((n - 1) as nat) * 256
    }
}

/// The key under which a map keeps the checksum with the bytes `s`: its
/// bytes as four big-endian 64-bit words, which order checksums as their
/// bytes do.
pub open spec fn checksum_key(s: Seq<u8>) -> (u64, u64, u64, u64) {
    (
        be_value(s, 0, 8) as u64,
        be_value(s, 8, 8) as u64,
        be_value(s, 16, 8) as u64,
        be_value(s, 24, 8) as u64,
    )
}

proof fn lemma_pow256_mono(i: nat, j: nat)
    requires
        i <= j,
    ensures
        pow256(i) <= pow256(j),
    decreases j,
{
    if i < j {
        lemma_pow256_mono(i, (j - 1) as nat);
    }
}

proof fn lemma_be_value_bound(s: Seq<u8>, start: int, n: nat)
    ensures
        be_value(s, start, n) < pow256(n),
    decreases n,
{
    if n > 0 {
        lemma_be_value_bound(s, start, (n - 1) as nat);
    }
}

/// Bytes with equal big-endian values are equal.
proof fn lemma_be_value_injective(a: Seq<u8>, b: Seq<u8>, start: int, n: nat)
    requires
        be_value(a, start, n) == be_value(b, start, n),
    ensures
        forall|i: int| start <= i < start + n ==> #[trigger] a[i] == b[i],
    decreases n,
{
    if n > 0 {
        let m = (n - 1) as nat;
        let x = be_value(a, start, m);
        let y = be_value(b, start, m);
        let p = a[start + m] as nat;
        let q = b[start + m] as nat;
        assert(x * 256 + p == y * 256 + q);
        assert(p == q && x == y) by (nonlinear_arith)
            requires
                x * 256 + p == y * 256 + q,
                p < 256,
                q < 256,
        ;
        lemma_be_value_injective(a, b, start, m);
    }
}

/// Checksums with equal keys are equal.
proof fn lemma_checksum_key_injective(a: Seq<u8>, b: Seq<u8>)
    requires
        a.len() == 32,
        b.len() == 32,
        checksum_key(a) == checksum_key(b),
    ensures
        a == b,
{
    assert(pow256(8) == 0x1_0000_0000_0000_0000) by {
        reveal_with_fuel(pow256, 9);
    }
    lemma_be_value_bound(a, 0, 8);
    lemma_be_value_bound(b, 0, 8);
    lemma_be_value_bound(a, 8, 8);
    lemma_be_value_bound(b, 8, 8);
    lemma_be_value_bound(a, 16, 8);
    lemma_be_value_bound(b, 16, 8);
    lemma_be_value_bound(a, 24, 8);
    lemma_be_value_bound(b, 24, 8);
    assert(be_value(a, 0, 8) == be_value(b, 0, 8));
    assert(be_value(a, 8, 8) == be_value(b, 8, 8));
    assert(be_value(a, 16, 8) == be_value(b, 16, 8));
    assert(be_value(a, 24, 8) == be_value(b, 24, 8));
    lemma_be_value_injective(a, b, 0, 8);
    lemma_be_value_injective(a, b, 8, 8);
    lemma_be_value_injective(a, b, 16, 8);
    lemma_be_value_injective(a, b, 24, 8);
    assert(a =~= b);
}

/// The big-endian 64-bit word of the checksum `key` from byte `start`.
fn checksum_word(key: &WasmChecksum, start: usize) -> (r: u64)
    requires
        start + 8 <= 32,
    ensures
        r as nat == be_value(key@, start as int, 8),
{
    proof {
        assert(pow256(8) == 0x1_0000_0000_0000_0000) by {
            reveal_with_fuel(pow256, 9);
        }
    }
    let mut w: u64 = 0;
    let mut i: usize = 0;
    while i < 8
        invariant
            start + 8 <= 32,
            key@.len() == 32,
            i <= 8,
            w as nat == be_value(key@, start as int, i as nat),
            pow256(8) == 0x1_0000_0000_0000_0000,
        decreases 8 - i,
    {
        proof {
            lemma_be_value_bound(key@, start as int, (i + 1) as nat);
            lemma_pow256_mono((i + 1) as nat, 8);
        }
        let b = key.0[start + i];
        assert(key@[start + i] == b);
        w = w * 256 + b as u64;
        i = i + 1;
    }
    w
}

/// The key under which a map keeps the checksum `key`.
fn checksum_key_of(key: &WasmChecksum) -> (r: (u64, u64, u64, u64))
    ensures
        r == checksum_key(key@),
{
    proof {
        assert(pow256(8) == 0x1_0000_0000_0000_0000) by {
            reveal_with_fuel(pow256, 9);
        }
        lemma_be_value_bound(key@, 0, 8);
        lemma_be_value_bound(key@, 8, 8);
        lemma_be_value_bound(key@, 16, 8);
        lemma_be_value_bound(key@, 24, 8);
    }
    (checksum_word(key, 0), checksum_word(key, 8), checksum_word(key, 16), checksum_word(key, 24))
}

/// Binaries (modules or components) kept by their checksum in a `BTreeMap`;
/// adding a binary under a checksum already present replaces it.
pub struct ChecksumMap<V> {
    map: BTreeMap<(u64, u64, u64, u64), V>,
}

impl<V> ChecksumMap<V> {
    /// The binary stored under the checksum `key`.
    pub closed spec fn get_spec(&self, key: Seq<u8>) -> Option<V> {
        if key.len() == 32 && self.map@.contains_key(checksum_key(key)) {
            Some(self.map@[checksum_key(key)])
        } else {
            None
        }
    }

    /// An empty map.
    pub fn new() -> (r: Self)
        ensures
            forall|k: Seq<u8>| r.get_spec(k) is None,
    {
        ChecksumMap { map: BTreeMap::new() }
    }

    /// Stores `value` under the checksum `key`.
    pub fn insert(&mut self, key: WasmChecksum, value: V)
        ensures
            forall|k: Seq<u8>|
                #[trigger] final(self).get_spec(k) == if k == key@ {
                    Some(value)
                } else {
                    old(self).get_spec(k)
                },
    {
        proof {
            broadcast use vstd::laws_cmp::group_laws_cmp;
        }
        let k = checksum_key_of(&key);
        self.map.insert(k, value);
        assert forall|k2: Seq<u8>|
            #[trigger] self.get_spec(k2) == if k2 == key@ {
                Some(value)
            } else {
                old(self).get_spec(k2)
            } by {
            if k2.len() == 32 && k2 != key@ && checksum_key(k2) == checksum_key(key@) {
                lemma_checksum_key_injective(k2, key@);
            }
        }
    }

    /// The binary stored under the checksum `key`.
    pub fn get(&self, key: &WasmChecksum) -> (r: Option<&V>)
        ensures
            r matches Some(v) ==> self.get_spec(key@) == Some(*v),
            r is None ==> self.get_spec(key@) is None,
    {
        proof {
            broadcast use vstd::laws_cmp::group_laws_cmp;
            broadcast use vstd::std_specs::btree::group_btree_axioms;
        }
        let k = checksum_key_of(key);
        self.map.get(&k)
    }
}

// ---------------------------------------------------------------------------
// Instances by identifier
// ---------------------------------------------------------------------------

/// Instances kept by the identifier the trace gives them, in a `BTreeMap`;
/// recording an instance under an identifier already present replaces it.
pub struct InstanceMap<I> {
    map: BTreeMap<u32, I>,
}

impl<I: Copy> InstanceMap<I> {
    /// The instance stored under the identifier `id`.
    pub closed spec fn get_spec(&self, id: u32) -> Option<I> {
        if self.map@.contains_key(id) {
            Some(self.map@[id])
        } else {
            None
        }
    }

    /// An empty map.
    pub fn new() -> (r: Self)
        ensures
            forall|k: u32| r.get_spec(k) is None,
    {
        InstanceMap { map: BTreeMap::new() }
    }

    /// Stores `instance` under the identifier `id`.
    pub fn insert(&mut self, id: u32, instance: I)
        ensures
            forall|k: u32|
                #[trigger] final(self).get_spec(k) == if k == id {
                    Some(instance)
                } else {
                    old(self).get_spec(k)
                },
    {
        proof {
            broadcast use vstd::laws_cmp::group_laws_cmp;
        }
        self.map.insert(id, instance);
    }

    /// The instance stored under the identifier `id`.
    pub fn get(&self, id: u32) -> (r: Option<I>)
        ensures
            r == self.get_spec(id),
    {
        proof {
            broadcast use vstd::laws_cmp::group_laws_cmp;
            broadcast use vstd::std_specs::btree::group_btree_axioms;
        }
        match self.map.get(&id) {
            Some(i) => Some(*i),
            None => None,
        }
    }
}

/// Component instances kept by their trace identifier.
pub struct ComponentInstanceMap<I>(InstanceMap<I>);

impl<I: Copy> ComponentInstanceMap<I> {
    /// The instance recorded under `id`.
    pub closed spec fn instance(&self, id: RRComponentInstanceId) -> Option<I> {
        self.0.get_spec(id.0)
    }

    /// An empty map.
    pub fn new() -> (r: Self)
        ensures
            forall|id: RRComponentInstanceId| r.instance(id) is None,
    {
        ComponentInstanceMap(InstanceMap::new())
    }

    /// Records `instance` under `id`.
    pub fn insert(&mut self, id: RRComponentInstanceId, instance: I)
        ensures
            forall|k: RRComponentInstanceId|
                #[trigger] final(self).instance(k) == if k == id {
                    Some(instance)
                } else {
                    old(self).instance(k)
                },
    {
        self.0.insert(id.0, instance);
        assert forall|k: RRComponentInstanceId|
            #[trigger] self.instance(k) == if k == id {
                Some(instance)
            } else {
                old(self).instance(k)
            } by {
            assert(k.0 == id.0 ==> k == id);
        }
    }

    /// The instance recorded under `id`, or `MissingComponentInstance`.
    pub fn get(&self, id: RRComponentInstanceId) -> (r: Result<I, ReplayError>)
        ensures
            r == match self.instance(id) {
                Some(i) => Ok(i),
                None => Err(ReplayError::MissingComponentInstance(id)),
            },
    {
        match self.0.get(id.0) {
            Some(i) => Ok(i),
            None => Err(ReplayError::MissingComponentInstance(id)),
        }
    }
}

/// Core module instances kept by their trace identifier.
pub struct ModuleInstanceMap<I>(InstanceMap<I>);

impl<I: Copy> ModuleInstanceMap<I> {
    /// The instance recorded under `id`.
    pub closed spec fn instance(&self, id: RRModuleInstanceId) -> Option<I> {
        self.0.get_spec(id.0)
    }

    /// An empty map.
    pub fn new() -> (r: Self)
        ensures
            forall|id: RRModuleInstanceId| r.instance(id) is None,
    {
        ModuleInstanceMap(InstanceMap::new())
    }

    /// Records `instance` under `id`.
    pub fn insert(&mut self, id: RRModuleInstanceId, instance: I)
        ensures
            forall|k: RRModuleInstanceId|
                #[trigger] final(self).instance(k) == if k == id {
                    Some(instance)
                } else {
                    old(self).instance(k)
                },
    {
        self.0.insert(id.0, instance);
        assert forall|k: RRModuleInstanceId|
            #[trigger] self.instance(k) == if k == id {
                Some(instance)
            } else {
                old(self).instance(k)
            } by {
            assert(k.0 == id.0 ==> k == id);
        }
    }

    /// The instance recorded under `id`, or `MissingModuleInstance`.
    pub fn get(&self, id: RRModuleInstanceId) -> (r: Result<I, ReplayError>)
        ensures
            r == match self.instance(id) {
                Some(i) => Ok(i),
                None => Err(ReplayError::MissingModuleInstance(id)),
            },
    {
        match self.0.get(id.0) {
            Some(i) => Ok(i),
            None => Err(ReplayError::MissingModuleInstance(id)),
        }
    }
}

// ---------------------------------------------------------------------------
// The replay environment
// ---------------------------------------------------------------------------

/// The environment necessary to produce a replay: the modules and components
/// a trace may instantiate, kept by checksum, and the replay settings.
pub struct ReplayEnvironment<M, C> {
    modules: ChecksumMap<M>,
    components: ChecksumMap<C>,
    settings: ReplaySettings,
}

impl<M, C> ReplayEnvironment<M, C> {
    /// The module with the checksum `k`.
    pub closed spec fn module(&self, k: Seq<u8>) -> Option<M> {
        self.modules.get_spec(k)
    }

    /// The component with the checksum `k`.
    pub closed spec fn component(&self, k: Seq<u8>) -> Option<C> {
        self.components.get_spec(k)
    }

    /// The replay settings.
    pub closed spec fn replay_settings(&self) -> ReplaySettings {
        self.settings
    }

    /// Construct a new environment with no modules and no components.
    pub fn new(settings: ReplaySettings) -> (r: Self)
        ensures
            r.replay_settings() == settings,
            forall|k: Seq<u8>| r.module(k) is None,
            forall|k: Seq<u8>| r.component(k) is None,
    {
        ReplayEnvironment { modules: ChecksumMap::new(), components: ChecksumMap::new(), settings }
    }

    /// Add a module, whose binary has the checksum `checksum`.
    pub fn add_module(&mut self, checksum: WasmChecksum, module: M)
        ensures
            final(self).replay_settings() == old(self).replay_settings(),
            forall|k: Seq<u8>|
                #[trigger] final(self).module(k) == if k == checksum@ {
                    Some(module)
                } else {
                    old(self).module(k)
                },
            forall|k: Seq<u8>| #[trigger] final(self).component(k) == old(self).component(k),
    {
        self.modules.insert(checksum, module);
    }

    /// Add a component, whose binary has the checksum `checksum`.
    pub fn add_component(&mut self, checksum: WasmChecksum, component: C)
        ensures
            final(self).replay_settings() == old(self).replay_settings(),
            forall|k: Seq<u8>|
                #[trigger] final(self).component(k) == if k == checksum@ {
                    Some(component)
                } else {
                    old(self).component(k)
                },
            forall|k: Seq<u8>| #[trigger] final(self).module(k) == old(self).module(k),
    {
        self.components.insert(checksum, component);
    }

    /// The component with the checksum `checksum`, or `MissingComponent`.
    pub fn get_component(&self, checksum: WasmChecksum) -> (r: Result<&C, ReplayError>)
        ensures
            r matches Ok(c) ==> self.component(checksum@) == Some(*c),
            r is Err ==> self.component(checksum@) is None && r == Err::<&C, ReplayError>(
                ReplayError::MissingComponent(checksum),
            ),
    {
        match self.components.get(&checksum) {
            Some(c) => Ok(c),
            None => Err(ReplayError::MissingComponent(checksum)),
        }
    }

    /// The module with the checksum `checksum`, or `MissingModule`.
    pub fn get_module(&self, checksum: WasmChecksum) -> (r: Result<&M, ReplayError>)
        ensures
            r matches Ok(m) ==> self.module(checksum@) == Some(*m),
            r is Err ==> self.module(checksum@) is None && r == Err::<&M, ReplayError>(
                ReplayError::MissingModule(checksum),
            ),
    {
        match self.modules.get(&checksum) {
            Some(m) => Ok(m),
            None => Err(ReplayError::MissingModule(checksum)),
        }
    }

    /// The replay settings.
    pub fn settings(&self) -> (r: ReplaySettings)
        ensures
            r == self.replay_settings(),
    {
        self.settings
    }
}

// ---------------------------------------------------------------------------
// The host context
// ---------------------------------------------------------------------------

/// The state of a replay that host functions reach: the module instances
/// (core Wasm calls may re-enter other instances) and the instantiation event
/// being replayed, checked against the instantiation the engine performs.
pub struct ReplayHostContext<MI> {
    module_instances: ModuleInstanceMap<MI>,
    current_module_instantiation: Option<core_events::InstantiationEvent>,
    current_component_instantiation: Option<component_events::InstantiationEvent>,
}

impl<MI: Copy> ReplayHostContext<MI> {
    /// The module instance recorded under `id`.
    pub closed spec fn module_instance(&self, id: RRModuleInstanceId) -> Option<MI> {
        self.module_instances.instance(id)
    }

    /// The core instantiation being replayed.
    pub closed spec fn pending_module_instantiation(&self) -> Option<core_events::InstantiationEvent> {
        self.current_module_instantiation
    }

    /// The component instantiation being replayed.
    pub closed spec fn pending_component_instantiation(&self) -> Option<
        component_events::InstantiationEvent,
    > {
        self.current_component_instantiation
    }

    /// A context with no instances and no instantiation under way.
    pub fn new() -> (r: Self)
        ensures
            forall|id: RRModuleInstanceId| r.module_instance(id) is None,
            r.pending_module_instantiation() is None,
            r.pending_component_instantiation() is None,
    {
        ReplayHostContext {
            module_instances: ModuleInstanceMap::new(),
            current_module_instantiation: None,
            current_component_instantiation: None,
        }
    }

    /// Get a module instance from the context's tracking map.
    pub fn get_module_instance(&self, id: RRModuleInstanceId) -> (r: Result<MI, ReplayError>)
        ensures
            r == match self.module_instance(id) {
                Some(i) => Ok(i),
                None => Err(ReplayError::MissingModuleInstance(id)),
            },
    {
        self.module_instances.get(id)
    }

    /// Take the current module instantiation event, leaving `None` in its place.
    pub fn take_current_module_instantiation(&mut self) -> (r: Option<core_events::InstantiationEvent>)
        ensures
            r == old(self).pending_module_instantiation(),
            final(self).pending_module_instantiation() is None,
            final(self).pending_component_instantiation() == old(self).pending_component_instantiation(),
            forall|id: RRModuleInstanceId| #[trigger] final(self).module_instance(id) == old(self).module_instance(id),
    {
        self.current_module_instantiation.take()
    }

    /// Take the current component instantiation event, leaving `None` in its place.
    pub fn take_current_component_instantiation(&mut self) -> (r: Option<
        component_events::InstantiationEvent,
    >)
        ensures
            r == old(self).pending_component_instantiation(),
            final(self).pending_component_instantiation() is None,
            final(self).pending_module_instantiation() == old(self).pending_module_instantiation(),
            forall|id: RRModuleInstanceId| #[trigger] final(self).module_instance(id) == old(self).module_instance(id),
    {
        self.current_component_instantiation.take()
    }
}

// ---------------------------------------------------------------------------
// Top-level events
// ---------------------------------------------------------------------------

/// What a top-level event of the trace asks the engine to do.
pub enum TopLevelStep<CI, MI> {
    /// Instantiate the component of the event's checksum.
    InstantiateComponent(component_events::InstantiationEvent),
    /// Call an exported function of a component instance, with the lowered
    /// arguments replayed from the trace.
    CallComponentFunc { instance: CI, func_index: ExportIndex },
    /// Run `post_return` for an exported function of a component instance.
    PostReturn { instance: CI, func_index: ExportIndex },
    /// Instantiate the module of the event's checksum.
    InstantiateModule(core_events::InstantiationEvent),
    /// Call a function of a core module instance with the recorded arguments.
    CallCoreFunc { instance: MI, func_index: FuncIndex, args: RRFuncArgVals },
}

/// The step for a call of export `func_index` of the component instance
/// recorded under `id`, found as `instance`.
pub open spec fn call_component_plan<CI, MI>(
    instance: Option<CI>,
    id: RRComponentInstanceId,
    func_index: ExportIndex,
) -> Result<TopLevelStep<CI, MI>, ReplayError> {
    match instance {
        Some(i) => Ok(TopLevelStep::CallComponentFunc { instance: i, func_index }),
        None => Err(ReplayError::MissingComponentInstance(id)),
    }
}

/// The step for `post_return` of export `func_index` of the component
/// instance recorded under `id`, found as `instance`.
pub open spec fn post_return_plan<CI, MI>(
    instance: Option<CI>,
    id: RRComponentInstanceId,
    func_index: ExportIndex,
) -> Result<TopLevelStep<CI, MI>, ReplayError> {
    match instance {
        Some(i) => Ok(TopLevelStep::PostReturn { instance: i, func_index }),
        None => Err(ReplayError::MissingComponentInstance(id)),
    }
}

/// The step for the core call `e`, whose module instance was found as `instance`.
pub open spec fn call_core_plan<CI, MI>(
    instance: Option<MI>,
    e: core_events::WasmFuncEntryEvent,
) -> Result<TopLevelStep<CI, MI>, ReplayError> {
    match instance {
        Some(i) => Ok(TopLevelStep::CallCoreFunc { instance: i, func_index: e.func_index, args: e.args }),
        None => Err(ReplayError::MissingModuleInstance(e.instance)),
    }
}

/// A replay under way: its environment, the instances it has created, and
/// the host context the engine's store holds.
pub struct ReplayInstance<M, C, CI, MI> {
    env: ReplayEnvironment<M, C>,
    component_instances: ComponentInstanceMap<CI>,
    module_instances: ModuleInstanceMap<MI>,
    host: ReplayHostContext<MI>,
}

impl<M, C, CI: Copy, MI: Copy> ReplayInstance<M, C, CI, MI> {
    /// The environment of the replay.
    pub closed spec fn environment(&self) -> ReplayEnvironment<M, C> {
        self.env
    }

    /// The component instance created under `id`.
    pub closed spec fn component_instance(&self, id: RRComponentInstanceId) -> Option<CI> {
        self.component_instances.instance(id)
    }

    /// The module instance created under `id`.
    pub closed spec fn module_instance(&self, id: RRModuleInstanceId) -> Option<MI> {
        self.module_instances.instance(id)
    }

    /// The host context.
    pub closed spec fn host_context(&self) -> ReplayHostContext<MI> {
        self.host
    }

    /// A replay of `env` that has created no instance yet.
    pub fn new(env: ReplayEnvironment<M, C>) -> (r: Self)
        ensures
            r.environment() == env,
            forall|id: RRComponentInstanceId| r.component_instance(id) is None,
            forall|id: RRModuleInstanceId| r.module_instance(id) is None,
            forall|id: RRModuleInstanceId| r.host_context().module_instance(id) is None,
            r.host_context().pending_module_instantiation() is None,
            r.host_context().pending_component_instantiation() is None,
    {
        ReplayInstance {
            env,
            component_instances: ComponentInstanceMap::new(),
            module_instances: ModuleInstanceMap::new(),
            host: ReplayHostContext::new(),
        }
    }

    /// The environment of the replay.
    pub fn env(&self) -> (r: &ReplayEnvironment<M, C>)
        ensures
            *r == self.environment(),
    {
        &self.env
    }

    /// The host context, for host functions and instantiation checks.
    pub fn host_mut(&mut self) -> (r: &mut ReplayHostContext<MI>)
        ensures
            *r == old(self).host_context(),
            final(self).host_context() == *final(r),
            final(self).environment() == old(self).environment(),
            forall|id: RRComponentInstanceId| #[trigger] final(self).component_instance(id) == old(self).component_instance(id),
            forall|id: RRModuleInstanceId| #[trigger] final(self).module_instance(id) == old(self).module_instance(id),
    {
        &mut self.host
    }

    /// Records the component instance the engine created under `id`.
    pub fn insert_component_instance(&mut self, id: RRComponentInstanceId, instance: CI)
        ensures
            final(self).environment() == old(self).environment(),
            final(self).host_context() == old(self).host_context(),
            forall|k: RRComponentInstanceId|
                #[trigger] final(self).component_instance(k) == if k == id {
                    Some(instance)
                } else {
                    old(self).component_instance(k)
                },
            forall|k: RRModuleInstanceId| #[trigger] final(self).module_instance(k) == old(self).module_instance(k),
    {
        self.component_instances.insert(id, instance);
    }

    /// Records the module instance the engine created under `id`, in the
    /// replay and in the host context (for re-entrant calls).
    pub fn insert_module_instance(&mut self, id: RRModuleInstanceId, instance: MI)
        ensures
            final(self).environment() == old(self).environment(),
            forall|k: RRModuleInstanceId|
                #[trigger] final(self).module_instance(k) == if k == id {
                    Some(instance)
                } else {
                    old(self).module_instance(k)
                },
            forall|k: RRModuleInstanceId|
                #[trigger] final(self).host_context().module_instance(k) == if k == id {
                    Some(instance)
                } else {
                    old(self).host_context().module_instance(k)
                },
            final(self).host_context().pending_module_instantiation() == old(self).host_context().pending_module_instantiation(),
            final(self).host_context().pending_component_instantiation() == old(self).host_context().pending_component_instantiation(),
            forall|k: RRComponentInstanceId| #[trigger] final(self).component_instance(k) == old(self).component_instance(k),
    {
        self.module_instances.insert(id, instance);
        self.host.module_instances.insert(id, instance);
    }

    /// How planning the top-level event `event` takes the replay from `old`
    /// to `new` with the result `r`.
    ///
    /// Instantiations need the binary of their checksum in the environment,
    /// and become the instantiation under way in the host context; calls and
    /// `post_return` need the instance they name. Any other event is out of
    /// place at the top level. Nothing else changes.
    pub open spec fn planned(
        old: Self,
        new: Self,
        event: RREvent,
        r: Result<TopLevelStep<CI, MI>, ReplayError>,
    ) -> bool {
        &&& new.environment() == old.environment()
        &&& forall|k: RRComponentInstanceId| #[trigger] new.component_instance(k) == old.component_instance(k)
        &&& forall|k: RRModuleInstanceId| #[trigger] new.module_instance(k) == old.module_instance(k)
        &&& forall|k: RRModuleInstanceId| #[trigger] new.host_context().module_instance(k) == old.host_context().module_instance(k)
        &&& match event {
            RREvent::ComponentInstantiation(e) => if old.environment().component(e.component@) is Some {
                &&& r == Ok::<TopLevelStep<CI, MI>, ReplayError>(TopLevelStep::InstantiateComponent(e))
                &&& new.host_context().pending_component_instantiation() == Some(e)
                &&& new.host_context().pending_module_instantiation() == old.host_context().pending_module_instantiation()
            } else {
                &&& r == Err::<TopLevelStep<CI, MI>, ReplayError>(ReplayError::MissingComponent(e.component))
                &&& new.host_context() == old.host_context()
            },
            RREvent::ComponentWasmFuncBegin(e) => {
                &&& new.host_context() == old.host_context()
                &&& r == call_component_plan::<CI, MI>(old.component_instance(e.instance), e.instance, e.func_index)
            },
            RREvent::ComponentPostReturn(e) => {
                &&& new.host_context() == old.host_context()
                &&& r == post_return_plan::<CI, MI>(old.component_instance(e.instance), e.instance, e.func_index)
            },
            RREvent::CoreWasmInstantiation(e) => if old.environment().module(e.module@) is Some {
                &&& r == Ok::<TopLevelStep<CI, MI>, ReplayError>(TopLevelStep::InstantiateModule(e))
                &&& new.host_context().pending_module_instantiation() == Some(e)
                &&& new.host_context().pending_component_instantiation() == old.host_context().pending_component_instantiation()
            } else {
                &&& r == Err::<TopLevelStep<CI, MI>, ReplayError>(ReplayError::MissingModule(e.module))
                &&& new.host_context() == old.host_context()
            },
            RREvent::CoreWasmFuncEntry(e) => {
                &&& new.host_context() == old.host_context()
                &&& r == call_core_plan::<CI, MI>(old.module_instance(e.instance), e)
            },
            _ => {
                &&& new.host_context() == old.host_context()
                &&& r == Err::<TopLevelStep<CI, MI>, ReplayError>(ReplayError::IncorrectEventVariant)
            },
        }
    }

    /// Decides what a top-level event of the trace asks the engine to do.
    ///
    /// Instantiations need the binary of their checksum in the environment,
    /// and become the instantiation under way in the host context; calls and
    /// `post_return` need the instance they name. Any other event is out of
    /// place at the top level.
    pub fn plan_top_level_event(&mut self, event: RREvent) -> (r: Result<TopLevelStep<CI, MI>, ReplayError>)
        ensures
            Self::planned(*old(self), *final(self), event, r),
    {
        match event {
            RREvent::ComponentInstantiation(e) => {
                match self.env.get_component(e.component) {
                    Ok(_) => {
                        self.host.current_component_instantiation = Some(e);
                        Ok(TopLevelStep::InstantiateComponent(e))
                    },
                    Err(x) => Err(x),
                }
            },
            RREvent::ComponentWasmFuncBegin(e) => {
                match self.component_instances.get(e.instance) {
                    Ok(i) => Ok(TopLevelStep::CallComponentFunc { instance: i, func_index: e.func_index }),
                    Err(x) => Err(x),
                }
            },
            RREvent::ComponentPostReturn(e) => {
                match self.component_instances.get(e.instance) {
                    Ok(i) => Ok(TopLevelStep::PostReturn { instance: i, func_index: e.func_index }),
                    Err(x) => Err(x),
                }
            },
            RREvent::CoreWasmInstantiation(e) => {
                match self.env.get_module(e.module) {
                    Ok(_) => {
                        self.host.current_module_instantiation = Some(e);
                        Ok(TopLevelStep::InstantiateModule(e))
                    },
                    Err(x) => Err(x),
                }
            },
            RREvent::CoreWasmFuncEntry(e) => {
                match self.module_instances.get(e.instance) {
                    Ok(i) => Ok(TopLevelStep::CallCoreFunc { instance: i, func_index: e.func_index, args: e.args }),
                    Err(x) => Err(x),
                }
            },
            _ => Err(ReplayError::IncorrectEventVariant),
        }
    }

    /// One turn of running the replay to completion: the next top-level
    /// event of the trace, read from the front of `reads` through `buf`, and
    /// what it asks the engine to do; `None` once the trace has ended.
    pub fn next_top_level_step(
        &mut self,
        buf: &mut ReplayBuffer,
        reads: &mut VecDeque<Result<RREvent, String>>,
    ) -> (r: Result<Option<TopLevelStep<CI, MI>>, ReplayError>)
        requires
            old(buf).exhausted() || reaches_stop(old(reads)@),
        ensures
            final(buf).replay_settings() == old(buf).replay_settings(),
            final(buf).recorded_settings() == old(buf).recorded_settings(),
            old(buf).exhausted() ==> r == Ok::<Option<TopLevelStep<CI, MI>>, ReplayError>(None)
                && final(reads)@ == old(reads)@ && *final(self) == *old(self),
            !old(buf).exhausted() ==> ({
                let k = leading_skipped(old(reads)@);
                &&& final(reads)@ == old(reads)@.skip(k + 1int)
                &&& final(buf).exhausted() == (old(reads)@[k as int] matches Ok(RREvent::Eof))
                &&& match next_item(old(reads)@[k as int]) {
                    None => r == Ok::<Option<TopLevelStep<CI, MI>>, ReplayError>(None)
                        && *final(self) == *old(self),
                    Some(Err(x)) => r == Err::<Option<TopLevelStep<CI, MI>>, ReplayError>(x)
                        && *final(self) == *old(self),
                    Some(Ok(e)) => exists|p: Result<TopLevelStep<CI, MI>, ReplayError>|
                        Self::planned(*old(self), *final(self), e, p) && r == match p {
                            Ok(step) => Ok(Some(step)),
                            Err(x) => Err(x),
                        },
                }
            }),
    {
        match buf.next_in(reads) {
            None => Ok(None),
            Some(Err(x)) => Err(x),
            Some(Ok(e)) => {
                let p = self.plan_top_level_event(e);
                match p {
                    Ok(step) => Ok(Some(step)),
                    Err(x) => Err(x),
                }
            },
        }
    }
}

/// An export of a core module instance, as the engine finds it at an index:
/// a function (with the engine's handle for it) or another kind of item.
pub enum CoreExport<F> {
    /// A function.
    Func(F),
    /// A table.
    Table,
    /// A linear memory.
    Memory,
    /// A global.
    Global,
    /// An exception tag.
    Tag,
}

/// The function a core call of the trace names by `func_index`, given the
/// export the engine found there: it must be a function, or the call is
/// `InvalidCoreFuncIndex`.
pub fn core_export_func<F>(export: CoreExport<F>, func_index: FuncIndex) -> (r: Result<F, ReplayError>)
    ensures
        r == match export {
            CoreExport::Func(f) => Ok::<F, ReplayError>(f),
            _ => Err(ReplayError::InvalidCoreFuncIndex(func_index)),
        },
{
    match export {
        CoreExport::Func(f) => Ok(f),
        _ => Err(ReplayError::InvalidCoreFuncIndex(func_index)),
    }
}

/// A recorded `post_return` replays as `post_return`, never as a call: the
/// step planned for the event a recorder made of it runs `post_return` on
/// the recorded export of the component instance recorded under its
/// identifier, or fails when no such instance was created.
pub proof fn lemma_post_return_replays_as_post_return<M, C, CI: Copy, MI: Copy>(
    old: ReplayInstance<M, C, CI, MI>,
    new: ReplayInstance<M, C, CI, MI>,
    x: component_events::PostReturnEvent,
    r: Result<TopLevelStep<CI, MI>, ReplayError>,
)
    requires
        ReplayInstance::planned(
            old,
            new,
            <RREvent as FromSpec<component_events::PostReturnEvent>>::from_spec(x),
            r,
        ),
    ensures
        r is Ok ==> (r matches Ok(TopLevelStep::PostReturn { instance, func_index }) && func_index
            == x.func_index && old.component_instance(x.instance) == Some(instance)),
        r is Err ==> r == Err::<TopLevelStep<CI, MI>, ReplayError>(
            ReplayError::MissingComponentInstance(x.instance),
        ) && old.component_instance(x.instance) is None,
        new.host_context() == old.host_context(),
{
}

/// A recorded component call replays as a call of the recorded export of
/// the component instance recorded under its identifier.
pub proof fn lemma_component_call_replays_as_call<M, C, CI: Copy, MI: Copy>(
    old: ReplayInstance<M, C, CI, MI>,
    new: ReplayInstance<M, C, CI, MI>,
    x: component_events::WasmFuncBeginEvent,
    r: Result<TopLevelStep<CI, MI>, ReplayError>,
)
    requires
        ReplayInstance::planned(
            old,
            new,
            <RREvent as FromSpec<component_events::WasmFuncBeginEvent>>::from_spec(x),
            r,
        ),
    ensures
        r is Ok ==> (r matches Ok(TopLevelStep::CallComponentFunc { instance, func_index })
            && func_index == x.func_index && old.component_instance(x.instance) == Some(instance)),
        r is Err ==> r == Err::<TopLevelStep<CI, MI>, ReplayError>(
            ReplayError::MissingComponentInstance(x.instance),
        ) && old.component_instance(x.instance) is None,
{
}

/// A recorded core call replays as a call of the recorded function of the
/// module instance recorded under its identifier, with the recorded
/// arguments.
pub proof fn lemma_core_call_replays_as_call<M, C, CI: Copy, MI: Copy>(
    old: ReplayInstance<M, C, CI, MI>,
    new: ReplayInstance<M, C, CI, MI>,
    x: core_events::WasmFuncEntryEvent,
    r: Result<TopLevelStep<CI, MI>, ReplayError>,
)
    requires
        ReplayInstance::planned(
            old,
            new,
            <RREvent as FromSpec<core_events::WasmFuncEntryEvent>>::from_spec(x),
            r,
        ),
    ensures
        r is Ok ==> (r matches Ok(TopLevelStep::CallCoreFunc { instance, func_index, args })
            && func_index == x.func_index && args == x.args && old.module_instance(x.instance)
            == Some(instance)),
        r is Err ==> r == Err::<TopLevelStep<CI, MI>, ReplayError>(
            ReplayError::MissingModuleInstance(x.instance),
        ) && old.module_instance(x.instance) is None,
{
}

/// A recorded instantiation replays as the instantiation of the binary with
/// the recorded checksum, which becomes the instantiation under way; it
/// fails exactly when the environment holds no such binary.
pub proof fn lemma_instantiations_replay_as_recorded<M, C, CI: Copy, MI: Copy>(
    old: ReplayInstance<M, C, CI, MI>,
    new: ReplayInstance<M, C, CI, MI>,
    x: component_events::InstantiationEvent,
    r: Result<TopLevelStep<CI, MI>, ReplayError>,
    old2: ReplayInstance<M, C, CI, MI>,
    new2: ReplayInstance<M, C, CI, MI>,
    y: core_events::InstantiationEvent,
    r2: Result<TopLevelStep<CI, MI>, ReplayError>,
)
    requires
        ReplayInstance::planned(
            old,
            new,
            <RREvent as FromSpec<component_events::InstantiationEvent>>::from_spec(x),
            r,
        ),
        ReplayInstance::planned(
            old2,
            new2,
            <RREvent as FromSpec<core_events::InstantiationEvent>>::from_spec(y),
            r2,
        ),
    ensures
        r is Ok <==> old.environment().component(x.component@) is Some,
        r is Ok ==> r == Ok::<TopLevelStep<CI, MI>, ReplayError>(
            TopLevelStep::InstantiateComponent(x),
        ) && new.host_context().pending_component_instantiation() == Some(x),
        r is Err ==> r == Err::<TopLevelStep<CI, MI>, ReplayError>(
            ReplayError::MissingComponent(x.component),
        ),
        r2 is Ok <==> old2.environment().module(y.module@) is Some,
        r2 is Ok ==> r2 == Ok::<TopLevelStep<CI, MI>, ReplayError>(TopLevelStep::InstantiateModule(y))
            && new2.host_context().pending_module_instantiation() == Some(y),
        r2 is Err ==> r2 == Err::<TopLevelStep<CI, MI>, ReplayError>(
            ReplayError::MissingModule(y.module),
        ),
{
}

} // verus!
