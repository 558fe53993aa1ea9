//! The schema migration registry: versioned schema changes, the record of
//! the versions a store has already applied, and the migrations that are
//! still pending.

use vstd::prelude::*;

verus! {

/// Direction of a schema change.
#[derive(Clone, Copy, Debug, PartialEq, Eq, Structural)]
pub enum MigrationKind {
    Up,
    Down,
}

/// One versioned schema change: a statement together with its direction.
#[derive(Clone, Copy, Debug, PartialEq, Eq)]
pub struct Migration {
    pub version: i64,
    pub description: &'static str,
    pub sql: &'static str,
    pub kind: MigrationKind,
}

/// Every migration has a smaller version than all that follow it.
pub open spec fn strictly_increasing(ms: Seq<Migration>) -> bool {
    forall|i: int, j: int| 0 <= i < j < ms.len() ==> ms[i].version < ms[j].version
}

/// The versions that occur in a sequence of migrations.
pub open spec fn versions_of(ms: Seq<Migration>) -> Set<int> {
    Set::new(|v: int| exists|i: int| 0 <= i < ms.len() && ms[i].version as int == v)
}

/// The predicate "this migration's version has not been applied".
pub open spec fn not_applied(applied: Set<int>) -> spec_fn(Migration) -> bool {
    |m: Migration| !applied.contains(m.version as int)
}

/// The migrations of `ms` whose version is not in `applied`, in the order
/// in which `ms` holds them.
pub open spec fn pending_of(ms: Seq<Migration>, applied: Set<int>) -> Seq<Migration> {
    ms.filter(not_applied(applied))
}

/// The integers that occur in a sequence of versions.
pub open spec fn version_set(versions: Seq<i64>) -> Set<int> {
    Set::new(|v: int| exists|i: int| 0 <= i < versions.len() && versions[i] as int == v)
}

/// Extending a sequence by one migration extends what is pending by that
/// migration if its version has not been applied, and by nothing otherwise.
pub proof fn lemma_pending_push(ms: Seq<Migration>, m: Migration, applied: Set<int>)
    ensures
        pending_of(ms.push(m), applied) == if applied.contains(m.version as int) {
            pending_of(ms, applied)
        } else {
            pending_of(ms, applied).push(m)
        },
{
    reveal(Seq::filter);
    assert(ms.push(m).drop_last() =~= ms);
}

/// Each pending migration is a registered one whose version has not been
/// applied, and every such migration is pending.
pub proof fn lemma_pending_members(ms: Seq<Migration>, applied: Set<int>, m: Migration)
    ensures
        pending_of(ms, applied).contains(m) <==> ms.contains(m) && !applied.contains(
            m.version as int,
        ),
    decreases ms.len(),
{
    reveal(Seq::filter);
    if ms.len() > 0 {
        let front = ms.drop_last();
        let last = ms.last();
        lemma_pending_members(front, applied, m);
        lemma_pending_push(front, last, applied);
        assert(front.push(last) =~= ms);
        let sub = pending_of(front, applied);
        if ms.contains(m) {
            let i = choose|i: int| 0 <= i < ms.len() && ms[i] == m;
            if i < front.len() {
                assert(front[i] == m);
            }
        }
        if front.contains(m) {
            let i = choose|i: int| 0 <= i < front.len() && front[i] == m;
            assert(ms[i] == m);
        }
        if !applied.contains(last.version as int) {
            assert(sub.push(last)[sub.len() as int] == last);
            if sub.push(last).contains(m) {
                let i = choose|i: int| 0 <= i < sub.push(last).len() && sub.push(last)[i] == m;
                if i < sub.len() {
                    assert(sub[i] == m);
                }
            }
            if sub.contains(m) {
                let i = choose|i: int| 0 <= i < sub.len() && sub[i] == m;
                assert(sub.push(last)[i] == m);
            }
        }
        assert(ms[ms.len() - 1] == last);
    }
}

/// What is pending keeps the order of the registry: where the registered
/// versions increase strictly, so do the pending ones.
pub proof fn lemma_pending_keeps_order(ms: Seq<Migration>, applied: Set<int>)
    requires
        strictly_increasing(ms),
    ensures
        strictly_increasing(pending_of(ms, applied)),
    decreases ms.len(),
{
    reveal(Seq::filter);
    if ms.len() > 0 {
        let front = ms.drop_last();
        let last = ms.last();
        lemma_pending_keeps_order(front, applied);
        lemma_pending_push(front, last, applied);
        assert(front.push(last) =~= ms);
        let sub = pending_of(front, applied);
        if !applied.contains(last.version as int) {
            let all = sub.push(last);
            assert forall|i: int, j: int| 0 <= i < j < all.len() implies all[i].version
                < all[j].version by {
                if j == sub.len() {
                    lemma_pending_members(front, applied, sub[i]);
                    assert(sub.contains(sub[i]));
                    let k = choose|k: int| 0 <= k < front.len() && front[k] == sub[i];
                    assert(ms[k].version < ms[ms.len() - 1].version);
                }
            }
        }
    }
}

/// Nothing is pending exactly when every registered version has been
/// applied.
pub proof fn lemma_pending_empty(ms: Seq<Migration>, applied: Set<int>)
    ensures
        pending_of(ms, applied).len() == 0 <==> versions_of(ms).subset_of(applied),
{
    let pending = pending_of(ms, applied);
    if pending.len() > 0 {
        let m = pending[0];
        assert(pending.contains(m));
        lemma_pending_members(ms, applied, m);
        let i = choose|i: int| 0 <= i < ms.len() && ms[i] == m;
        assert(versions_of(ms).contains(ms[i].version as int));
    }
    if !versions_of(ms).subset_of(applied) {
        let v = choose|v: int| versions_of(ms).contains(v) && !applied.contains(v);
        let i = choose|i: int| 0 <= i < ms.len() && ms[i].version as int == v;
        assert(ms.contains(ms[i]));
        lemma_pending_members(ms, applied, ms[i]);
    }
}

/// Once the first pending migration has been recorded as applied, the
/// pending migrations are the former ones without their first.
pub proof fn lemma_pending_after_first(ms: Seq<Migration>, applied: Set<int>)
    requires
        strictly_increasing(ms),
        pending_of(ms, applied).len() > 0,
    ensures
        pending_of(ms, applied.insert(pending_of(ms, applied)[0].version as int)) == pending_of(
            ms,
            applied,
        ).drop_first(),
    decreases ms.len(),
{
    let pending = pending_of(ms, applied);
    let first = pending[0];
    let after = applied.insert(first.version as int);
    if ms.len() == 0 {
        reveal(Seq::filter);
    } else {
        let front = ms.drop_last();
        let last = ms.last();
        assert(front.push(last) =~= ms);
        lemma_pending_push(front, last, applied);
        lemma_pending_push(front, last, after);
        let sub = pending_of(front, applied);
        if sub.len() > 0 {
            lemma_pending_after_first(front, applied);
            assert(sub.contains(sub[0]));
            lemma_pending_members(front, applied, sub[0]);
            let k = choose|k: int| 0 <= k < front.len() && front[k] == sub[0];
            assert(ms[k].version < ms[ms.len() - 1].version);
            if !applied.contains(last.version as int) {
                assert(sub.drop_first().push(last) =~= sub.push(last).drop_first());
            }
        } else {
            lemma_pending_empty(front, applied);
            assert(versions_of(front).subset_of(after));
            lemma_pending_empty(front, after);
            assert(pending =~= seq![last]);
            assert(pending_of(front, after) =~= pending.drop_first());
        }
    }
}

/// Asking twice for the pending migrations of one applied set gives the
/// same answer, and once every one of them has been recorded as applied,
/// nothing is pending any more.
pub proof fn lemma_pending_is_idempotent(
    ms: Seq<Migration>,
    applied: Set<int>,
    first: Seq<Migration>,
    second: Seq<Migration>,
)
    requires
        strictly_increasing(ms),
        first == pending_of(ms, applied),
        second == pending_of(ms, applied),
    ensures
        first == second,
        pending_of(ms, applied.union(versions_of(first))) == Seq::<Migration>::empty(),
{
    let after = applied.union(versions_of(first));
    assert forall|v: int| versions_of(ms).contains(v) implies after.contains(v) by {
        if !applied.contains(v) {
            let i = choose|i: int| 0 <= i < ms.len() && ms[i].version as int == v;
            assert(ms.contains(ms[i]));
            lemma_pending_members(ms, applied, ms[i]);
            let k = choose|k: int| 0 <= k < first.len() && first[k] == ms[i];
            assert(versions_of(first).contains(first[k].version as int));
        }
    }
    lemma_pending_empty(ms, after);
    assert(pending_of(ms, after) =~= Seq::<Migration>::empty());
}

/// Why a migration was not accepted into a registry.
#[derive(Clone, Copy, Debug, PartialEq, Eq, Structural)]
pub enum RegistryError {
    /// The offered version is not greater than the last registered one.
    VersionNotIncreasing { last: i64, offered: i64 },
}

/// An ordered sequence of migrations with strictly increasing versions.
#[derive(Debug)]
pub struct MigrationRegistry {
    migrations: Vec<Migration>,
}

impl View for MigrationRegistry {
    type V = Seq<Migration>;

    closed spec fn view(&self) -> Seq<Migration> {
        self.migrations@
    }
}

impl MigrationRegistry {
    #[verifier::type_invariant]
    spec fn ordered(&self) -> bool {
        strictly_increasing(self.migrations@)
    }

    /// A registry that holds no migration.
    pub fn new() -> (registry: Self)
        ensures
            registry@ == Seq::<Migration>::empty(),
    {
        MigrationRegistry { migrations: Vec::new() }
    }

    /// Appends `migration` if its version is greater than every registered
    /// one, and leaves the registry as it was otherwise.
    pub fn register(&mut self, migration: Migration) -> (outcome: Result<(), RegistryError>)
        ensures
            strictly_increasing(final(self)@),
            old(self)@.len() == 0 || old(self)@.last().version < migration.version ==> outcome
                is Ok && final(self)@ == old(self)@.push(migration),
            old(self)@.len() > 0 && old(self)@.last().version >= migration.version ==> outcome
                == Err::<(), RegistryError>(
                RegistryError::VersionNotIncreasing {
                    last: old(self)@.last().version,
                    offered: migration.version,
                },
            ) && final(self)@ == old(self)@,
    {
        proof {
            use_type_invariant(&*self);
        }
        let n = self.migrations.len();
        if n > 0 && self.migrations[n - 1].version >= migration.version {
            return Err(
                RegistryError::VersionNotIncreasing {
                    last: self.migrations[n - 1].version,
                    offered: migration.version,
                },
            );
        }
        let mut held: Vec<Migration> = Vec::new();
        std::mem::swap(&mut held, &mut self.migrations);
        held.push(migration);
        self.migrations = held;
        Ok(())
    }

    /// Builds a registry from `migrations`, which must already be in
    /// strictly increasing order of version.
    pub fn from_migrations(migrations: Vec<Migration>) -> (outcome: Result<Self, RegistryError>)
        ensures
            strictly_increasing(migrations@) <==> outcome is Ok,
            outcome matches Ok(registry) ==> registry@ == migrations@,
            outcome matches Err(RegistryError::VersionNotIncreasing { last, offered }) ==> exists|
                k: int,
            |
                0 < k < migrations@.len() && strictly_increasing(migrations@.take(k))
                    && migrations@[k - 1].version == last && migrations@[k].version == offered
                    && last >= offered,
    {
        if migrations.len() == 0 {
            return Ok(MigrationRegistry { migrations });
        }
        let mut k: usize = 1;
        while k < migrations.len()
            invariant
                1 <= k <= migrations@.len(),
                strictly_increasing(migrations@.take(k as int)),
            decreases migrations@.len() - k,
        {
            if migrations[k - 1].version >= migrations[k].version {
                assert(!strictly_increasing(migrations@));
                return Err(
                    RegistryError::VersionNotIncreasing {
                        last: migrations[k - 1].version,
                        offered: migrations[k].version,
                    },
                );
            }
            proof {
                let before = migrations@.take(k as int);
                let after = migrations@.take(k + 1);
                assert forall|i: int, j: int| 0 <= i < j < after.len() implies after[i].version
                    < after[j].version by {
                    if j < k {
                        assert(before[i].version < before[j].version);
                    } else if i < k - 1 {
                        assert(before[i].version < before[k - 1].version);
                    }
                }
            }
            k += 1;
        }
        assert(migrations@.take(migrations@.len() as int) =~= migrations@);
        Ok(MigrationRegistry { migrations })
    }

    /// Every registered migration whose version is not in `applied`,
    /// lowest version first.
    pub fn pending_migrations(&self, applied: &AppliedVersions) -> (pending: Vec<Migration>)
        ensures
            pending@ == pending_of(self@, applied@),
            strictly_increasing(pending@),
    {
        proof {
            use_type_invariant(&*self);
        }
        let mut pending: Vec<Migration> = Vec::new();
        let mut i: usize = 0;
        assert(self.migrations@.take(0) =~= Seq::<Migration>::empty());
        while i < self.migrations.len()
            invariant
                i <= self.migrations@.len(),
                pending@ == pending_of(self.migrations@.take(i as int), applied@),
            decreases self.migrations@.len() - i,
        {
            let migration = self.migrations[i];
            proof {
                lemma_pending_push(self.migrations@.take(i as int), migration, applied@);
                assert(self.migrations@.take(i as int).push(migration) =~= self.migrations@.take(
                    i + 1,
                ));
            }
            if !applied.contains(migration.version) {
                pending.push(migration);
            }
            i += 1;
        }
        proof {
            assert(self.migrations@.take(self.migrations@.len() as int) =~= self.migrations@);
            lemma_pending_keeps_order(self.migrations@, applied@);
        }
        pending
    }

    /// How many migrations are registered.
    pub fn len(&self) -> (n: usize)
        ensures
            n == self@.len(),
    {
        self.migrations.len()
    }

    /// The registered migrations, lowest version first.
    pub fn migrations(&self) -> (all: &Vec<Migration>)
        ensures
            all@ == self@,
            strictly_increasing(all@),
    {
        proof {
            use_type_invariant(&*self);
        }
        &self.migrations
    }
}

/// The versions that a store has recorded as applied. Versions are added
/// and never taken away.
#[derive(Debug)]
pub struct AppliedVersions {
    versions: Vec<i64>,
}

impl View for AppliedVersions {
    type V = Set<int>;

    closed spec fn view(&self) -> Set<int> {
        version_set(self.versions@)
    }
}

impl AppliedVersions {
    /// The record of a store to which nothing has been applied.
    pub fn new() -> (applied: Self)
        ensures
            applied@ == Set::<int>::empty(),
    {
        let applied = AppliedVersions { versions: Vec::new() };
        assert(applied@ =~= Set::<int>::empty());
        applied
    }

    /// The record that holds exactly the given versions; the order and
    /// repetitions in `versions` do not matter.
    pub fn from_versions(versions: Vec<i64>) -> (applied: Self)
        ensures
            applied@ == version_set(versions@),
    {
        AppliedVersions { versions }
    }

    /// Whether `version` has been recorded.
    pub fn contains(&self, version: i64) -> (found: bool)
        ensures
            found == self@.contains(version as int),
    {
        let mut i: usize = 0;
        while i < self.versions.len()
            invariant
                i <= self.versions@.len(),
                forall|k: int| 0 <= k < i ==> self.versions@[k] != version,
            decreases self.versions@.len() - i,
        {
            if self.versions[i] == version {
                return true;
            }
            i += 1;
        }
        false
    }

    /// Records `version` as applied.
    pub fn record(&mut self, version: i64)
        ensures
            final(self)@ == old(self)@.insert(version as int),
    {
        if !self.contains(version) {
            self.versions.push(version);
            proof {
                let before = old(self).versions@;
                let after = self.versions@;
                assert forall|v: int|
                    version_set(after).contains(v) == version_set(before).insert(
                        version as int,
                    ).contains(v) by {
                    if version_set(after).contains(v) {
                        let i = choose|i: int| 0 <= i < after.len() && after[i] as int == v;
                        if i < before.len() {
                            assert(before[i] as int == v);
                        }
                    }
                    if version_set(before).contains(v) {
                        let i = choose|i: int| 0 <= i < before.len() && before[i] as int == v;
                        assert(after[i] as int == v);
                    }
                    if v == version as int {
                        assert(after[before.len() as int] as int == v);
                    }
                }
                assert(self@ =~= old(self)@.insert(version as int));
            }
        } else {
            assert(self@ =~= old(self)@.insert(version as int));
        }
    }

    /// Records the version of every migration in `migrations` as applied.
    pub fn record_all(&mut self, migrations: &Vec<Migration>)
        ensures
            final(self)@ == old(self)@.union(versions_of(migrations@)),
    {
        let mut i: usize = 0;
        assert(self@ =~= old(self)@.union(versions_of(migrations@.take(0))));
        while i < migrations.len()
            invariant
                i <= migrations@.len(),
                self@ == old(self)@.union(versions_of(migrations@.take(i as int))),
            decreases migrations@.len() - i,
        {
            self.record(migrations[i].version);
            proof {
                let done = migrations@.take(i as int);
                let next = migrations@.take(i + 1);
                assert forall|v: int|
                    versions_of(next).contains(v) == versions_of(done).insert(
                        migrations@[i as int].version as int,
                    ).contains(v) by {
                    if versions_of(next).contains(v) {
                        let k = choose|k: int| 0 <= k < next.len() && next[k].version as int == v;
                        if k < i {
                            assert(done[k].version as int == v);
                        }
                    }
                    if versions_of(done).contains(v) {
                        let k = choose|k: int| 0 <= k < done.len() && done[k].version as int == v;
                        assert(next[k].version as int == v);
                    }
                    if v == migrations@[i as int].version as int {
                        assert(next[i as int].version as int == v);
                    }
                }
                assert(self@ =~= old(self)@.union(versions_of(next)));
            }
            i += 1;
        }
        assert(migrations@.take(migrations@.len() as int) =~= migrations@);
    }
}

/// What a migration pass asks its host to do next.
#[derive(Clone, Copy, Debug, PartialEq, Eq)]
pub enum PassStep {
    /// Run this migration's statement in a transaction and report the
    /// outcome.
    Execute(Migration),
    /// Nothing is pending: startup may go on.
    Finished,
    /// The migration with this version failed: startup must stop.
    Aborted { version: i64 },
}

/// The state of a migration pass as plain values.
pub struct PassView {
    pub registry: Seq<Migration>,
    pub applied: Set<int>,
    pub failed: bool,
}

impl PassView {
    /// The migrations that are still to be run.
    pub open spec fn remaining(self) -> Seq<Migration> {
        pending_of(self.registry, self.applied)
    }

    /// A pass fails only on a migration that is still pending.
    pub open spec fn wf(self) -> bool {
        &&& strictly_increasing(self.registry)
        &&& self.failed ==> self.remaining().len() > 0
    }

    /// What the pass asks for in this state.
    pub open spec fn step(self) -> PassStep {
        if self.remaining().len() == 0 {
            PassStep::Finished
        } else if self.failed {
            PassStep::Aborted { version: self.remaining()[0].version }
        } else {
            PassStep::Execute(self.remaining()[0])
        }
    }

    /// The state after the host has reported how the migration it was asked
    /// to run ended. A success records that migration's version; a failure
    /// records nothing and is final. Where no migration was asked for,
    /// the report changes nothing.
    pub open spec fn after_report(self, succeeded: bool) -> PassView {
        if self.failed || self.remaining().len() == 0 {
            self
        } else if succeeded {
            PassView { applied: self.applied.insert(self.remaining()[0].version as int), ..self }
        } else {
            PassView { failed: true, ..self }
        }
    }

    /// The state after the host has reported `n` successes in a row.
    pub open spec fn after_successes(self, n: nat) -> PassView
        decreases n,
    {
        if n == 0 {
            self
        } else {
            self.after_report(true).after_successes((n - 1) as nat)
        }
    }
}

/// A report keeps a pass well formed.
pub proof fn lemma_report_keeps_wf(view: PassView, succeeded: bool)
    requires
        view.wf(),
    ensures
        view.after_report(succeeded).wf(),
{
}

/// While migrations succeed, a pass works through what was pending at its
/// start in order: after `n` successes the first `n` pending versions have
/// been recorded, nothing else has, and the rest is still pending. After as
/// many successes as there were pending migrations the pass has finished.
pub proof fn lemma_successes_work_through_pending(view: PassView, n: nat)
    requires
        view.wf(),
        !view.failed,
        n <= view.remaining().len(),
    ensures
        view.after_successes(n).registry == view.registry,
        !view.after_successes(n).failed,
        view.after_successes(n).applied == view.applied.union(
            versions_of(view.remaining().take(n as int)),
        ),
        view.after_successes(n).remaining() == view.remaining().skip(n as int),
        n == view.remaining().len() ==> view.after_successes(n).step() == PassStep::Finished,
    decreases n,
{
    let pending = view.remaining();
    if n == 0 {
        assert(view.applied.union(versions_of(pending.take(0))) =~= view.applied);
        assert(pending.skip(0) =~= pending);
    } else {
        let next = view.after_report(true);
        lemma_pending_after_first(view.registry, view.applied);
        lemma_successes_work_through_pending(next, (n - 1) as nat);
        let rest = next.remaining();
        assert(rest == pending.drop_first());
        assert(rest.skip(n - 1) =~= pending.skip(n as int));
        let head = pending.take(n as int);
        let tail = rest.take(n - 1);
        let done = versions_of(head);
        let done_rest = versions_of(tail);
        let first = pending[0].version as int;
        assert forall|v: int| done.contains(v) == (v == first || done_rest.contains(v)) by {
            if done.contains(v) {
                let i = choose|i: int| 0 <= i < head.len() && head[i].version as int == v;
                if i > 0 {
                    assert(tail[i - 1].version as int == v);
                }
            }
            if done_rest.contains(v) {
                let i = choose|i: int| 0 <= i < tail.len() && tail[i].version as int == v;
                assert(head[i + 1].version as int == v);
            }
            if v == first {
                assert(head[0].version as int == v);
            }
        }
        assert(next.applied.union(done_rest) =~= view.applied.union(done));
    }
}

/// A failure is final and records nothing: the failed migration stays
/// pending, the pass asks for an abort that names it, and no later report
/// changes the state.
pub proof fn lemma_failure_is_final(view: PassView, later: bool)
    requires
        view.wf(),
        view.step() is Execute,
    ensures
        view.after_report(false).applied == view.applied,
        view.after_report(false).step() == (PassStep::Aborted {
            version: view.remaining()[0].version,
        }),
        view.after_report(false).after_report(later) == view.after_report(false),
{
}

/// One pass over the pending migrations of a registry, made once at
/// startup: the pass names the next migration to run, lowest pending
/// version first, and the host reports how it ended.
#[derive(Debug)]
pub struct MigrationPass {
    registry: MigrationRegistry,
    applied: AppliedVersions,
    failed: bool,
}

impl View for MigrationPass {
    type V = PassView;

    closed spec fn view(&self) -> PassView {
        PassView { registry: self.registry@, applied: self.applied@, failed: self.failed }
    }
}

impl MigrationPass {
    #[verifier::type_invariant]
    spec fn consistent(&self) -> bool {
        self.failed ==> pending_of(self.registry@, self.applied@).len() > 0
    }

    /// Starts a pass over `registry` for a store that has recorded
    /// `applied`.
    pub fn begin(registry: MigrationRegistry, applied: AppliedVersions) -> (pass: Self)
        ensures
            pass@ == (PassView { registry: registry@, applied: applied@, failed: false }),
            pass@.wf(),
    {
        let _ = registry.migrations();
        MigrationPass { registry, applied, failed: false }
    }

    /// What the host is to do next.
    pub fn step(&self) -> (step: PassStep)
        ensures
            self@.wf(),
            step == self@.step(),
    {
        proof {
            use_type_invariant(&*self);
        }
        let _ = self.registry.migrations();
        let pending = self.registry.pending_migrations(&self.applied);
        if pending.len() == 0 {
            PassStep::Finished
        } else if self.failed {
            PassStep::Aborted { version: pending[0].version }
        } else {
            PassStep::Execute(pending[0])
        }
    }

    /// Takes the host's report on the migration that `step` asked for.
    pub fn report(&mut self, succeeded: bool)
        ensures
            final(self)@ == old(self)@.after_report(succeeded),
            final(self)@.wf(),
    {
        proof {
            use_type_invariant(&*self);
        }
        let _ = self.registry.migrations();
        let pending = self.registry.pending_migrations(&self.applied);
        if self.failed || pending.len() == 0 {
            return ;
        }
        if succeeded {
            let mut applied = AppliedVersions::new();
            std::mem::swap(&mut applied, &mut self.applied);
            applied.record(pending[0].version);
            self.applied = applied;
        } else {
            self.failed = true;
        }
    }

    /// The versions recorded as applied so far.
    pub fn applied(&self) -> (applied: &AppliedVersions)
        ensures
            applied@ == self@.applied,
    {
        &self.applied
    }

    /// The registry that this pass runs over.
    pub fn registry(&self) -> (registry: &MigrationRegistry)
        ensures
            registry@ == self@.registry,
    {
        &self.registry
    }
}

} // verus!
