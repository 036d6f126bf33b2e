//! The reconciler: the shallow symlink-mirroring planner and the
//! dangling-link cleanup. Both work on an observed listing — plain values
//! describing what the filesystem showed — and decide exactly which links to
//! create, replace or delete; executing the decisions (and observing the
//! directories in the first place) is the caller's part.

use vstd::prelude::*;

verus! {

/// What a destination directory holds under one name, as observed before
/// reconciliation.
#[derive(Clone, Debug, PartialEq, Eq)]
pub enum DestState {
    /// Nothing is present under the name.
    Vacant,
    /// A real (non-symlink) file or directory occupies the name.
    Occupied,
    /// A symlink whose target resolves; the payload is the link's target.
    LinkTo(String),
    /// A symlink whose target no longer resolves.
    BrokenLink,
}

/// Spec-level form of `DestState`, with the link target as a sequence.
pub enum DestStateSpec {
    Vacant,
    Occupied,
    LinkTo(Seq<char>),
    BrokenLink,
}

impl View for DestState {
    type V = DestStateSpec;

    open spec fn view(&self) -> DestStateSpec {
        match self {
            DestState::Vacant => DestStateSpec::Vacant,
            DestState::Occupied => DestStateSpec::Occupied,
            DestState::LinkTo(t) => DestStateSpec::LinkTo(t@),
            DestState::BrokenLink => DestStateSpec::BrokenLink,
        }
    }
}

/// What the reconciler decides to do about one source entry.
#[derive(Clone, Copy, Debug, PartialEq, Eq, Structural)]
pub enum SyncAction {
    /// An equal link is already in place.
    Skip,
    /// A real file or directory occupies the name: warn, touch nothing.
    Collision,
    /// Nothing occupies the name: create the link.
    Create,
    /// A stale or broken link occupies the name: delete it, then create.
    Replace,
}

/// One source entry together with what the destination holds under its name.
#[derive(Clone, Debug)]
pub struct SyncEntry {
    /// The entry's file name, shared by source and destination.
    pub name: String,
    /// The canonical absolute path of the entry inside the source directory.
    pub source_abs: String,
    /// What the destination directory holds under `name`.
    pub dest_state: DestState,
}

/// Spec-level form of `SyncEntry`.
pub struct SyncEntrySpec {
    pub name: Seq<char>,
    pub source_abs: Seq<char>,
    pub dest_state: DestStateSpec,
}

impl View for SyncEntry {
    type V = SyncEntrySpec;

    open spec fn view(&self) -> SyncEntrySpec {
        SyncEntrySpec { name: self.name@, source_abs: self.source_abs@, dest_state: self.dest_state@ }
    }
}

/// The action the reconciler takes for a source entry resolving to
/// `source_abs` when the destination holds `dest` under the entry's name.
pub open spec fn spec_plan_entry(source_abs: Seq<char>, dest: DestStateSpec) -> SyncAction {
    match dest {
        DestStateSpec::Vacant => SyncAction::Create,
        DestStateSpec::Occupied => SyncAction::Collision,
        DestStateSpec::BrokenLink => SyncAction::Replace,
        DestStateSpec::LinkTo(target) => if target == source_abs {
            SyncAction::Skip
        } else {
            SyncAction::Replace
        },
    }
}

/// Classifies one destination name against the source entry it should mirror.
pub fn plan_entry(source_abs: &String, dest: &DestState) -> (a: SyncAction)
    ensures
        a == spec_plan_entry(source_abs@, dest@),
{
    match dest {
        DestState::Vacant => SyncAction::Create,
        DestState::Occupied => SyncAction::Collision,
        DestState::BrokenLink => SyncAction::Replace,
        DestState::LinkTo(target) => if target.eq(source_abs) {
            SyncAction::Skip
        } else {
            SyncAction::Replace
        },
    }
}

/// Decides, for every entry of the source listing, what the mirror needs.
/// The result is aligned with the input: the action at an index is the
/// verdict on the entry at that index.
pub fn sync(entries: &Vec<SyncEntry>) -> (plan: Vec<SyncAction>)
    ensures
        plan@.len() == entries@.len(),
        forall|i: int| 0 <= i < entries@.len()
            ==> plan@[i] == spec_plan_entry(entries@[i]@.source_abs, entries@[i]@.dest_state),
{
    let mut plan: Vec<SyncAction> = Vec::new();
    let mut idx: usize = 0;
    while idx < entries.len()
        invariant
            idx <= entries@.len(),
            plan@.len() == idx,
            forall|i: int| 0 <= i < idx
                ==> plan@[i] == spec_plan_entry(entries@[i]@.source_abs, entries@[i]@.dest_state),
        decreases entries@.len() - idx,
    {
        let entry = &entries[idx];
        plan.push(plan_entry(&entry.source_abs, &entry.dest_state));
        idx = idx + 1;
    }
    plan
}

/// One destination entry as seen by the cleanup: its name, and whether its
/// existence check (following symlinks) succeeded.
#[derive(Clone, Debug)]
pub struct CleanEntry {
    pub name: String,
    /// Whether the entry resolves to an existing filesystem object. A
    /// non-symlink entry always does; only a dangling symlink does not.
    pub exists: bool,
}

/// The names the cleanup removes from a listing: exactly the entries whose
/// existence check failed, in listing order.
pub open spec fn spec_clean_removals(entries: Seq<CleanEntry>) -> Seq<Seq<char>>
    decreases entries.len(),
{
    if entries.len() == 0 {
        Seq::empty()
    } else if !entries.last().exists {
        spec_clean_removals(entries.drop_last()).push(entries.last().name@)
    } else {
        spec_clean_removals(entries.drop_last())
    }
}

/// Decides which entries the dangling-link cleanup removes: exactly those
/// whose target no longer resolves. Valid entries — real files as well as
/// symlinks whose target exists — are never listed.
pub fn clean(entries: &Vec<CleanEntry>) -> (removals: Vec<String>)
    ensures
        removals@.map_values(|s: String| s@) == spec_clean_removals(entries@),
{
    let mut removals: Vec<String> = Vec::new();
    let mut idx: usize = 0;
    while idx < entries.len()
        invariant
            idx <= entries@.len(),
            removals@.map_values(|s: String| s@) == spec_clean_removals(entries@.take(idx as int)),
        decreases entries@.len() - idx,
    {
        let entry = &entries[idx];
        if !entry.exists {
            removals.push(entry.name.clone());
        }
        idx = idx + 1;
        proof {
            assert(entries@.take(idx as int).drop_last() =~= entries@.take(idx - 1));
            assert(removals@.map_values(|s: String| s@) =~= spec_clean_removals(
                entries@.take(idx as int),
            ));
        }
    }
    proof {
        assert(entries@.take(entries@.len() as int) =~= entries@);
    }
    removals
}

/// One filesystem mutation a pass performs in the destination directory.
#[derive(Clone, Debug, PartialEq, Eq)]
pub enum Mutation {
    /// Remove the entry bearing the name.
    Remove(String),
    /// Create a symlink bearing the first name, pointing at the second path.
    Link(String, String),
}

/// Spec-level form of `Mutation`.
pub enum MutationSpec {
    Remove(Seq<char>),
    Link(Seq<char>, Seq<char>),
}

impl View for Mutation {
    type V = MutationSpec;

    open spec fn view(&self) -> MutationSpec {
        match self {
            Mutation::Remove(name) => MutationSpec::Remove(name@),
            Mutation::Link(name, target) => MutationSpec::Link(name@, target@),
        }
    }
}

/// The mutations the plan calls for on one entry: none when the mirror is
/// already right or a collision is preserved, a create for a vacant name, and
/// a delete followed by a create for a stale or broken link.
pub open spec fn spec_entry_mutations(e: SyncEntrySpec) -> Seq<MutationSpec> {
    match spec_plan_entry(e.source_abs, e.dest_state) {
        SyncAction::Skip => Seq::empty(),
        SyncAction::Collision => Seq::empty(),
        SyncAction::Create => seq![MutationSpec::Link(e.name, e.source_abs)],
        SyncAction::Replace => seq![
            MutationSpec::Remove(e.name),
            MutationSpec::Link(e.name, e.source_abs),
        ],
    }
}

/// All mutations of a mirroring pass over a listing, in listing order.
pub open spec fn spec_sync_mutations(entries: Seq<SyncEntry>) -> Seq<MutationSpec>
    decreases entries.len(),
{
    if entries.len() == 0 {
        Seq::empty()
    } else {
        spec_sync_mutations(entries.drop_last()) + spec_entry_mutations(entries.last()@)
    }
}

/// The mutations one mirroring pass performs: under dry-run none at all — the
/// plan itself, which carries every intended action, is unaffected — and
/// otherwise exactly the deletes and creates the plan calls for, in order.
pub fn sync_mutations(entries: &Vec<SyncEntry>, dry_run: bool) -> (muts: Vec<Mutation>)
    ensures
        dry_run ==> muts@.len() == 0,
        !dry_run ==> muts@.map_values(|m: Mutation| m@) == spec_sync_mutations(entries@),
{
    let mut muts: Vec<Mutation> = Vec::new();
    if dry_run {
        return muts;
    }
    let mut idx: usize = 0;
    while idx < entries.len()
        invariant
            idx <= entries@.len(),
            muts@.map_values(|m: Mutation| m@) == spec_sync_mutations(entries@.take(idx as int)),
        decreases entries@.len() - idx,
    {
        let entry = &entries[idx];
        match plan_entry(&entry.source_abs, &entry.dest_state) {
            SyncAction::Skip => {},
            SyncAction::Collision => {},
            SyncAction::Create => {
                muts.push(Mutation::Link(entry.name.clone(), entry.source_abs.clone()));
            },
            SyncAction::Replace => {
                muts.push(Mutation::Remove(entry.name.clone()));
                muts.push(Mutation::Link(entry.name.clone(), entry.source_abs.clone()));
            },
        }
        idx = idx + 1;
        proof {
            assert(entries@.take(idx as int).drop_last() =~= entries@.take(idx - 1));
            assert(muts@.map_values(|m: Mutation| m@) =~= spec_sync_mutations(
                entries@.take(idx as int),
            ));
        }
    }
    proof {
        assert(entries@.take(entries@.len() as int) =~= entries@);
    }
    muts
}

/// The removals one cleanup performs: under dry-run none at all — the removal
/// list, which carries every intended action, is unaffected — and otherwise
/// exactly the decided removals, in order.
pub fn clean_mutations(removals: &Vec<String>, dry_run: bool) -> (muts: Vec<String>)
    ensures
        dry_run ==> muts@.len() == 0,
        !dry_run ==> muts@ == removals@,
{
    let mut muts: Vec<String> = Vec::new();
    if dry_run {
        return muts;
    }
    let mut idx: usize = 0;
    while idx < removals.len()
        invariant
            idx <= removals@.len(),
            muts@ == removals@.take(idx as int),
        decreases removals@.len() - idx,
    {
        muts.push(removals[idx].clone());
        idx = idx + 1;
        proof {
            assert(muts@ =~= removals@.take(idx as int));
        }
    }
    proof {
        assert(removals@.take(removals@.len() as int) =~= removals@);
    }
    muts
}

// A destination directory is modelled as a map from the names that have an
// entry to that entry's state; a name outside the domain is vacant. A source
// directory is modelled as a map from each entry's name to its canonical
// absolute path. `LinkTo` stands for a symlink whose target resolves; a link
// created to a listed source entry is of this form as long as the source is
// unchanged, since its target was seen to exist when the source was listed.

/// What a destination directory holds under a name: its entry's state, or
/// vacant when it has none.
pub open spec fn dir_state_of(dir: Map<Seq<char>, DestStateSpec>, name: Seq<char>) -> DestStateSpec {
    if dir.dom().contains(name) {
        dir[name]
    } else {
        DestStateSpec::Vacant
    }
}

/// What the destination holds under an entry's name once the planned action
/// ran: an equal link where one was created or replaced, and the prior state
/// where nothing was touched.
pub open spec fn spec_entry_after(source_abs: Seq<char>, dest: DestStateSpec) -> DestStateSpec {
    match spec_plan_entry(source_abs, dest) {
        SyncAction::Skip => dest,
        SyncAction::Collision => dest,
        SyncAction::Create => DestStateSpec::LinkTo(source_abs),
        SyncAction::Replace => DestStateSpec::LinkTo(source_abs),
    }
}

/// The destination directory after dangling-link cleanup: every broken link
/// is gone, every other entry is untouched.
pub open spec fn spec_clean_dir(dir: Map<Seq<char>, DestStateSpec>) -> Map<
    Seq<char>,
    DestStateSpec,
> {
    Map::new(
        |name: Seq<char>| dir.dom().contains(name) && !(dir[name] is BrokenLink),
        |name: Seq<char>| dir[name],
    )
}

/// The destination directory after one mirroring pass: each name a source
/// entry bears holds what the planned action leaves there; every other name
/// is untouched.
pub open spec fn spec_sync_dir(
    sources: Map<Seq<char>, Seq<char>>,
    dir: Map<Seq<char>, DestStateSpec>,
) -> Map<Seq<char>, DestStateSpec> {
    Map::new(
        |name: Seq<char>| sources.dom().contains(name) || dir.dom().contains(name),
        |name: Seq<char>|
            if sources.dom().contains(name) {
                spec_entry_after(sources[name], dir_state_of(dir, name))
            } else {
                dir[name]
            },
    )
}

/// The destination directory after one full resynchronization pass: cleanup
/// first, so that stale links are purged before new ones are considered, then
/// the mirroring of every source entry.
pub open spec fn spec_pass_dir(
    sources: Map<Seq<char>, Seq<char>>,
    dir: Map<Seq<char>, DestStateSpec>,
) -> Map<Seq<char>, DestStateSpec> {
    spec_sync_dir(sources, spec_clean_dir(dir))
}

/// Acting on what an action left behind changes nothing further: the settled
/// state is re-planned as a skip or a preserved collision, and it is a fixed
/// point of the per-entry step.
pub proof fn lemma_entry_after_stable(source_abs: Seq<char>, dest: DestStateSpec)
    ensures
        spec_plan_entry(source_abs, spec_entry_after(source_abs, dest)) == SyncAction::Skip
            || spec_plan_entry(source_abs, spec_entry_after(source_abs, dest))
            == SyncAction::Collision,
        spec_entry_after(source_abs, spec_entry_after(source_abs, dest)) == spec_entry_after(
            source_abs,
            dest,
        ),
{
}

/// A full resynchronization pass on an unchanged source is idempotent: the
/// first pass leaves no dangling link behind, so a second cleanup removes
/// nothing; the second pass plans only skips and preserved collisions, so it
/// performs no mutation; and the directory it produces is the same.
pub proof fn lemma_pass_idempotent(
    sources: Map<Seq<char>, Seq<char>>,
    dir: Map<Seq<char>, DestStateSpec>,
)
    ensures
        forall|n: Seq<char>| #[trigger]
            spec_pass_dir(sources, dir).dom().contains(n) ==> !(spec_pass_dir(sources, dir)[n]
                is BrokenLink),
        spec_clean_dir(spec_pass_dir(sources, dir)) == spec_pass_dir(sources, dir),
        forall|n: Seq<char>| #[trigger]
            sources.dom().contains(n) ==> spec_entry_mutations(
                SyncEntrySpec {
                    name: n,
                    source_abs: sources[n],
                    dest_state: dir_state_of(spec_pass_dir(sources, dir), n),
                },
            ) == Seq::<MutationSpec>::empty(),
        spec_pass_dir(sources, spec_pass_dir(sources, dir)) == spec_pass_dir(sources, dir),
{
    let once = spec_pass_dir(sources, dir);
    assert forall|n: Seq<char>| #[trigger] once.dom().contains(n) implies !(once[n]
        is BrokenLink) by {
        if sources.dom().contains(n) {
            lemma_entry_after_stable(sources[n], dir_state_of(spec_clean_dir(dir), n));
        }
    }
    assert(spec_clean_dir(once) =~= once);
    assert forall|n: Seq<char>| #[trigger] sources.dom().contains(n) implies spec_entry_mutations(
        SyncEntrySpec { name: n, source_abs: sources[n], dest_state: dir_state_of(once, n) },
    ) == Seq::<MutationSpec>::empty() by {
        lemma_entry_after_stable(sources[n], dir_state_of(spec_clean_dir(dir), n));
    }
    assert forall|n: Seq<char>|
        spec_pass_dir(sources, once).dom().contains(n)
            || once.dom().contains(n) implies #[trigger] dir_state_of(
        spec_pass_dir(sources, once),
        n,
    ) == dir_state_of(once, n) by {
        if sources.dom().contains(n) {
            lemma_entry_after_stable(sources[n], dir_state_of(spec_clean_dir(dir), n));
        }
    }
    assert(spec_pass_dir(sources, once) =~= once);
}

/// A listing the pass has already settled plans no mutation: when every
/// entry is re-planned as a skip or a preserved collision, the pass's
/// mutation list is empty.
pub proof fn lemma_settled_listing_mutation_free(entries: Seq<SyncEntry>)
    requires
        forall|i: int|
            0 <= i < entries.len() ==> #[trigger] spec_plan_entry(
                entries[i]@.source_abs,
                entries[i]@.dest_state,
            ) == SyncAction::Skip || spec_plan_entry(
                entries[i]@.source_abs,
                entries[i]@.dest_state,
            ) == SyncAction::Collision,
    ensures
        spec_sync_mutations(entries) == Seq::<MutationSpec>::empty(),
    decreases entries.len(),
{
    if entries.len() > 0 {
        lemma_settled_listing_mutation_free(entries.drop_last());
        assert(spec_plan_entry(
            entries[entries.len() - 1]@.source_abs,
            entries[entries.len() - 1]@.dest_state,
        ) == SyncAction::Skip || spec_plan_entry(
            entries[entries.len() - 1]@.source_abs,
            entries[entries.len() - 1]@.dest_state,
        ) == SyncAction::Collision);
        assert(spec_sync_mutations(entries) =~= Seq::<MutationSpec>::empty());
    }
}

/// Mirror correctness: one pass over an empty destination yields exactly one
/// symlink per source entry, each pointing at that entry's canonical absolute
/// path, and no other entry.
pub proof fn lemma_mirror_correct(sources: Map<Seq<char>, Seq<char>>)
    ensures
        spec_pass_dir(sources, Map::empty()).dom() == sources.dom(),
        forall|n: Seq<char>| #[trigger]
            sources.dom().contains(n) ==> spec_pass_dir(sources, Map::empty())[n]
                == DestStateSpec::LinkTo(sources[n]),
{
    assert(spec_pass_dir(sources, Map::empty()).dom() =~= sources.dom());
}

/// The mirror invariant: after one completed pass, assuming no non-symlink
/// collision, every source entry's name holds a symlink to that entry's
/// canonical absolute path, and no dangling link is left anywhere in the
/// destination.
pub proof fn lemma_mirror_invariant(
    sources: Map<Seq<char>, Seq<char>>,
    dir: Map<Seq<char>, DestStateSpec>,
)
    requires
        forall|n: Seq<char>| #[trigger]
            sources.dom().contains(n) ==> !(dir_state_of(dir, n) is Occupied),
    ensures
        forall|n: Seq<char>| #[trigger]
            sources.dom().contains(n) ==> spec_pass_dir(sources, dir)[n] == DestStateSpec::LinkTo(
                sources[n],
            ),
        forall|n: Seq<char>| #[trigger]
            spec_pass_dir(sources, dir).dom().contains(n) ==> !(spec_pass_dir(sources, dir)[n]
                is BrokenLink),
{
    lemma_pass_idempotent(sources, dir);
}

/// Dangling cleanup is exact: a name survives it with an unchanged entry iff
/// the entry was not a broken link, whether a real file or a valid symlink.
pub proof fn lemma_clean_dir_exact(dir: Map<Seq<char>, DestStateSpec>)
    ensures
        forall|n: Seq<char>| #[trigger]
            spec_clean_dir(dir).dom().contains(n) <==> (dir.dom().contains(n) && !(dir[n]
                is BrokenLink)),
        forall|n: Seq<char>| #[trigger]
            spec_clean_dir(dir).dom().contains(n) ==> spec_clean_dir(dir)[n] == dir[n],
{
}

/// Cleanup removal lists are exact: a name is listed iff some entry of the
/// listing bears it and failed its existence check.
pub proof fn lemma_clean_removals_exact(entries: Seq<CleanEntry>)
    ensures
        forall|n: Seq<char>|
            #[trigger] spec_clean_removals(entries).contains(n) <==> exists|i: int|
                0 <= i < entries.len() && !(#[trigger] entries[i]).exists && entries[i].name@ == n,
    decreases entries.len(),
{
    if entries.len() == 0 {
    } else {
        lemma_clean_removals_exact(entries.drop_last());
        let prefix = entries.drop_last();
        let last = entries.last();
        assert forall|n: Seq<char>| #[trigger] spec_clean_removals(entries).contains(n) implies (
        exists|i: int|
            0 <= i < entries.len() && !(#[trigger] entries[i]).exists && entries[i].name@
                == n) by {
            if !last.exists && n == last.name@ {
                assert(entries[entries.len() - 1] == last);
            } else {
                assert(spec_clean_removals(prefix).contains(n));
                let i = choose|i: int|
                    0 <= i < prefix.len() && !(#[trigger] prefix[i]).exists && prefix[i].name@ == n;
                assert(entries[i] == prefix[i]);
            }
        }
        assert forall|n: Seq<char>|
            exists|i: int|
                0 <= i < entries.len() && !(#[trigger] entries[i]).exists && entries[i].name@
                    == n implies #[trigger] spec_clean_removals(entries).contains(n) by {
            let i = choose|i: int|
                0 <= i < entries.len() && !(#[trigger] entries[i]).exists && entries[i].name@ == n;
            if i < entries.len() - 1 {
                assert(prefix[i] == entries[i]);
                assert(spec_clean_removals(prefix).contains(n));
                let j = choose|j: int| 0 <= j < spec_clean_removals(prefix).len()
                    && spec_clean_removals(prefix)[j] == n;
                if !last.exists {
                    assert(spec_clean_removals(entries)[j] == n);
                } else {
                    assert(spec_clean_removals(entries)[j] == n);
                }
            } else {
                assert(!last.exists && last.name@ == n);
                assert(spec_clean_removals(entries).last() == n);
            }
        }
    }
}

/// Collision preservation: a real (non-symlink) file or directory occupying a
/// source entry's name is only warned about — the plan is a collision, no
/// mutation touches the name, and its entry survives the pass unchanged.
pub proof fn lemma_collision_preserved(e: SyncEntrySpec)
    requires
        e.dest_state is Occupied,
    ensures
        spec_plan_entry(e.source_abs, e.dest_state) == SyncAction::Collision,
        spec_entry_mutations(e) == Seq::<MutationSpec>::empty(),
        spec_entry_after(e.source_abs, e.dest_state) == e.dest_state,
{
}

/// Stale replace: a symlink pointing anywhere but the source entry's
/// canonical path is deleted and re-created pointing there.
pub proof fn lemma_stale_replaced(e: SyncEntrySpec)
    requires
        e.dest_state matches DestStateSpec::LinkTo(target) && target != e.source_abs,
    ensures
        spec_plan_entry(e.source_abs, e.dest_state) == SyncAction::Replace,
        spec_entry_mutations(e) == seq![
            MutationSpec::Remove(e.name),
            MutationSpec::Link(e.name, e.source_abs),
        ],
        spec_entry_after(e.source_abs, e.dest_state) == DestStateSpec::LinkTo(e.source_abs),
{
}

} // verus!
