//! Application startup: which capabilities the host registers, and in what
//! order the shell is put together before the event loop takes over.

use vstd::prelude::*;

verus! {

/// The address of the embedded store that receives the migrations.
pub const DATABASE_URL: &'static str = "sqlite:kanflow.db";

/// A capability that the host can register with the application.
#[derive(Clone, Copy, Debug, PartialEq, Eq, Structural)]
pub enum Capability {
    PersistedScope,
    Devtools,
    Store,
    Persistence,
    SingleInstance,
    DeepLink,
    Shell,
    Filesystem,
}

/// Which capabilities an application is started with.
#[derive(Clone, Copy, Debug, PartialEq, Eq, Structural)]
pub struct StartupConfig {
    pub persisted_scope: bool,
    pub devtools: bool,
    pub store: bool,
    pub persistence: bool,
    pub single_instance: bool,
    pub deep_link: bool,
    pub shell: bool,
    pub filesystem: bool,
}

/// One thing that the host does while it starts the application.
#[derive(Clone, Copy, Debug, PartialEq, Eq, Structural)]
pub enum StartupStep {
    /// Register a capability. Registering the persistence capability hands
    /// it the migration registry, which it applies before any command runs.
    Register(Capability),
    /// Build the tray icon with its menu.
    BuildTray,
    /// Register the command surface.
    RegisterCommands,
    /// Hand control to the event loop.
    RunEventLoop,
}

impl StartupConfig {
    /// Whether the configuration asks for `capability`.
    pub open spec fn enables(self, capability: Capability) -> bool {
        match capability {
            Capability::PersistedScope => self.persisted_scope,
            Capability::Devtools => self.devtools,
            Capability::Store => self.store,
            Capability::Persistence => self.persistence,
            Capability::SingleInstance => self.single_instance,
            Capability::DeepLink => self.deep_link,
            Capability::Shell => self.shell,
            Capability::Filesystem => self.filesystem,
        }
    }

    /// The configuration of the application: every capability.
    pub fn application() -> (config: StartupConfig)
        ensures
            forall|capability: Capability| config.enables(capability),
    {
        StartupConfig {
            persisted_scope: true,
            devtools: true,
            store: true,
            persistence: true,
            single_instance: true,
            deep_link: true,
            shell: true,
            filesystem: true,
        }
    }

    /// Whether the configuration asks for `capability`.
    pub fn is_enabled(&self, capability: Capability) -> (enabled: bool)
        ensures
            enabled == self.enables(capability),
    {
        match capability {
            Capability::PersistedScope => self.persisted_scope,
            Capability::Devtools => self.devtools,
            Capability::Store => self.store,
            Capability::Persistence => self.persistence,
            Capability::SingleInstance => self.single_instance,
            Capability::DeepLink => self.deep_link,
            Capability::Shell => self.shell,
            Capability::Filesystem => self.filesystem,
        }
    }
}

/// The capabilities in the order in which they are registered.
pub open spec fn registration_order() -> Seq<Capability> {
    seq![
        Capability::PersistedScope,
        Capability::Devtools,
        Capability::Store,
        Capability::Persistence,
        Capability::SingleInstance,
        Capability::DeepLink,
        Capability::Shell,
        Capability::Filesystem,
    ]
}

/// The registrations that `config` asks for among the first `n`
/// capabilities of the registration order.
pub open spec fn registrations(config: StartupConfig, n: nat) -> Seq<StartupStep>
    decreases n,
{
    if n == 0 || n > registration_order().len() {
        Seq::empty()
    } else {
        let before = registrations(config, (n - 1) as nat);
        let capability = registration_order()[n - 1];
        if config.enables(capability) {
            before.push(StartupStep::Register(capability))
        } else {
            before
        }
    }
}

/// The steps of a startup: the registrations that `config` asks for, in
/// registration order, then the tray, the command surface and the event
/// loop.
pub open spec fn planned(config: StartupConfig) -> Seq<StartupStep> {
    registrations(config, registration_order().len()) + seq![
        StartupStep::BuildTray,
        StartupStep::RegisterCommands,
        StartupStep::RunEventLoop,
    ]
}

/// Among the first `n` capabilities, exactly those that `config` asks for
/// are registered, and nothing but registrations is planned for them.
pub proof fn lemma_registrations(config: StartupConfig, n: nat, step: StartupStep)
    requires
        n <= registration_order().len(),
    ensures
        registrations(config, n).contains(step) <==> exists|k: int|
            0 <= k < n && step == StartupStep::Register(#[trigger] registration_order()[k])
                && config.enables(registration_order()[k]),
        registrations(config, n).len() <= n,
    decreases n,
{
    if n > 0 {
        let before = registrations(config, (n - 1) as nat);
        let capability = registration_order()[n - 1];
        lemma_registrations(config, (n - 1) as nat, step);
        let now = registrations(config, n);
        if config.enables(capability) {
            assert(now == before.push(StartupStep::Register(capability)));
            assert(now[before.len() as int] == StartupStep::Register(capability));
            if now.contains(step) {
                let i = choose|i: int| 0 <= i < now.len() && now[i] == step;
                if i < before.len() {
                    assert(before[i] == step);
                }
            }
            if before.contains(step) {
                let i = choose|i: int| 0 <= i < before.len() && before[i] == step;
                assert(now[i] == step);
            }
        }
    }
}

/// A startup registers exactly the capabilities that its configuration
/// asks for, each before the tray is built and the command surface is
/// registered, and hands control to the event loop as its last step.
pub proof fn lemma_plan_registers_before_it_runs(config: StartupConfig, capability: Capability)
    ensures
        planned(config).contains(StartupStep::Register(capability)) <==> config.enables(
            capability,
        ),
        planned(config).last() == StartupStep::RunEventLoop,
        forall|i: int, j: int|
            0 <= i < planned(config).len() && 0 <= j < planned(config).len() && planned(
                config,
            )[i] is Register && !(planned(config)[j] is Register) ==> i < j,
{
    let n = registration_order().len();
    let head = registrations(config, n);
    let tail = seq![
        StartupStep::BuildTray,
        StartupStep::RegisterCommands,
        StartupStep::RunEventLoop,
    ];
    let plan = planned(config);
    let step = StartupStep::Register(capability);
    lemma_registrations(config, n, step);
    assert(plan == head + tail);
    assert(plan[plan.len() - 1] == tail[2]);
    if config.enables(capability) {
        let k: int = match capability {
            Capability::PersistedScope => 0,
            Capability::Devtools => 1,
            Capability::Store => 2,
            Capability::Persistence => 3,
            Capability::SingleInstance => 4,
            Capability::DeepLink => 5,
            Capability::Shell => 6,
            Capability::Filesystem => 7,
        };
        assert(registration_order()[k] == capability);
        assert(head.contains(step));
        let i = choose|i: int| 0 <= i < head.len() && head[i] == step;
        assert(plan[i] == step);
    }
    if plan.contains(step) {
        let i = choose|i: int| 0 <= i < plan.len() && plan[i] == step;
        if i < head.len() {
            assert(head[i] == step);
            assert(head.contains(step));
        } else {
            assert(plan[i] == tail[i - head.len()]);
        }
    }
    assert forall|i: int, j: int|
        0 <= i < plan.len() && 0 <= j < plan.len() && plan[i] is Register && !(plan[j]
            is Register) implies i < j by {
        if i >= head.len() {
            assert(plan[i] == tail[i - head.len()]);
        }
        if j < head.len() {
            assert(head.contains(head[j]));
            lemma_registrations(config, n, head[j]);
        }
    }
}

/// The steps that the host takes to start the application, in order.
pub fn startup_plan(config: &StartupConfig) -> (plan: Vec<StartupStep>)
    ensures
        plan@ == planned(*config),
{
    let order = [
        Capability::PersistedScope,
        Capability::Devtools,
        Capability::Store,
        Capability::Persistence,
        Capability::SingleInstance,
        Capability::DeepLink,
        Capability::Shell,
        Capability::Filesystem,
    ];
    assert(order@ =~= registration_order());
    let mut plan: Vec<StartupStep> = Vec::new();
    let mut i: usize = 0;
    while i < 8
        invariant
            i <= 8,
            order@ == registration_order(),
            plan@ == registrations(*config, i as nat),
        decreases 8 - i,
    {
        if config.is_enabled(order[i]) {
            plan.push(StartupStep::Register(order[i]));
        }
        i += 1;
    }
    plan.push(StartupStep::BuildTray);
    plan.push(StartupStep::RegisterCommands);
    plan.push(StartupStep::RunEventLoop);
    assert(plan@ =~= planned(*config));
    plan
}

} // verus!
