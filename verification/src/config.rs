//! Configuration data: the global settings, per-folder partial overrides, the
//! merge that produces the effective policy of a pair, and the flattening of
//! the configuration into one link pair per (source, destination) entry.

use vstd::prelude::*;

verus! {

/// What to do when a source or destination directory is unavailable.
#[derive(Clone, Copy, Debug, PartialEq, Eq, Structural)]
pub enum OnMissing {
    Error,
    Warn,
    Ignore,
    Retry,
}

/// A partial override of the global settings: each field, when present,
/// replaces the corresponding global value for one folder.
#[derive(Clone, Copy, Debug)]
pub struct PartialSettings {
    pub on_missing: Option<OnMissing>,
    pub retry_delay: Option<u64>,
    pub liveness_interval: Option<u64>,
}

/// The effective policy of a pair: how to react to missing directories, how
/// long to wait between retries, and how often to probe liveness (if at all).
#[derive(Clone, Copy, Debug)]
pub struct Settings {
    pub on_missing: OnMissing,
    pub retry_delay: u64,
    pub liveness_interval: Option<u64>,
}

impl Settings {
    /// The effective settings after overlaying `partial` onto these defaults:
    /// each overridden field takes the override's value, every other field
    /// keeps the default.
    pub open spec fn spec_apply_partial(self, partial: Option<PartialSettings>) -> Settings {
        match partial {
            None => self,
            Some(p) => Settings {
                on_missing: match p.on_missing {
                    Some(m) => m,
                    None => self.on_missing,
                },
                retry_delay: match p.retry_delay {
                    Some(d) => d,
                    None => self.retry_delay,
                },
                liveness_interval: match p.liveness_interval {
                    Some(i) => Some(i),
                    None => self.liveness_interval,
                },
            },
        }
    }

    /// Overlays a partial override onto these settings.
    pub fn apply_partial(&self, partial: &Option<PartialSettings>) -> (merged: Settings)
        ensures
            merged == self.spec_apply_partial(*partial),
    {
        match partial {
            None => *self,
            Some(p) => Settings {
                on_missing: match p.on_missing {
                    Some(m) => m,
                    None => self.on_missing,
                },
                retry_delay: match p.retry_delay {
                    Some(d) => d,
                    None => self.retry_delay,
                },
                liveness_interval: match p.liveness_interval {
                    Some(i) => Some(i),
                    None => self.liveness_interval,
                },
            },
        }
    }
}

/// One folder declaration: the source paths whose entries are mirrored into
/// the destination the folder is keyed by, and an optional settings override.
#[derive(Clone, Debug)]
pub struct Folder {
    pub inputs: Vec<String>,
    pub settings: Option<PartialSettings>,
}

/// The whole configuration: global settings and the declared folders, each
/// keyed by its destination path. A well-formed configuration names each
/// destination once (`spec_destinations_unique`); the loader gets this from
/// the configuration file, which keys folders by destination.
#[derive(Clone, Debug)]
pub struct Config {
    pub settings: Settings,
    pub folders: Vec<(String, Folder)>,
}

impl Config {
    /// Each destination path is declared at most once.
    pub open spec fn spec_destinations_unique(self) -> bool {
        forall|i: int, j: int|
            0 <= i < j < self.folders@.len() ==> #[trigger] self.folders@[i].0@ != #[trigger] self.folders@[j].0@
    }
}

/// One (source directory, destination directory) mapping to keep mirrored,
/// with the effective policy its supervisor runs under.
#[derive(Clone, Debug)]
pub struct LinkPair {
    pub source: String,
    pub dest: String,
    pub settings: Settings,
}

/// Spec-level form of `LinkPair`.
pub struct LinkPairSpec {
    pub source: Seq<char>,
    pub dest: Seq<char>,
    pub settings: Settings,
}

impl View for LinkPair {
    type V = LinkPairSpec;

    open spec fn view(&self) -> LinkPairSpec {
        LinkPairSpec { source: self.source@, dest: self.dest@, settings: self.settings }
    }
}

/// The pairs one folder declaration yields: one per input path in order,
/// each bound for the folder's destination under the folder's effective
/// settings.
pub open spec fn spec_folder_pairs(
    defaults: Settings,
    dest: Seq<char>,
    inputs: Seq<String>,
    partial: Option<PartialSettings>,
) -> Seq<LinkPairSpec>
    decreases inputs.len(),
{
    if inputs.len() == 0 {
        Seq::empty()
    } else {
        spec_folder_pairs(defaults, dest, inputs.drop_last(), partial).push(
            LinkPairSpec {
                source: inputs.last()@,
                dest: dest,
                settings: defaults.spec_apply_partial(partial),
            },
        )
    }
}

/// The pairs of a list of folder declarations, in declaration order.
pub open spec fn spec_pairs_of(defaults: Settings, folders: Seq<(String, Folder)>) -> Seq<
    LinkPairSpec,
>
    decreases folders.len(),
{
    if folders.len() == 0 {
        Seq::empty()
    } else {
        spec_pairs_of(defaults, folders.drop_last()) + spec_folder_pairs(
            defaults,
            folders.last().0@,
            folders.last().1.inputs@,
            folders.last().1.settings,
        )
    }
}

/// Every pair the configuration declares, in declaration order.
pub open spec fn spec_link_pairs(config: Config) -> Seq<LinkPairSpec> {
    spec_pairs_of(config.settings, config.folders@)
}

/// Mapping a function over a sequence commutes with appending one element.
proof fn lemma_map_values_push<A, B>(s: Seq<A>, x: A, f: spec_fn(A) -> B)
    ensures
        s.push(x).map_values(f) == s.map_values(f).push(f(x)),
{
    assert(s.push(x).map_values(f) =~= s.map_values(f).push(f(x)));
}

/// Flattens the configuration into one link pair per (source, destination)
/// combination declared under each destination key; each pair carries its
/// folder's settings overlaid onto the global defaults. The full set is
/// static for the process lifetime.
pub fn link_pairs(config: &Config) -> (pairs: Vec<LinkPair>)
    ensures
        pairs@.map_values(|p: LinkPair| p@) == spec_link_pairs(*config),
{
    let mut pairs: Vec<LinkPair> = Vec::new();
    let mut fi: usize = 0;
    #[verifier::loop_isolation(false)]
    while fi < config.folders.len()
        invariant
            fi <= config.folders@.len(),
            pairs@.map_values(|p: LinkPair| p@) == spec_pairs_of(
                config.settings,
                config.folders@.take(fi as int),
            ),
        decreases config.folders@.len() - fi,
    {
        let entry = &config.folders[fi];
        let effective = config.settings.apply_partial(&entry.1.settings);
        let ghost prefix = spec_pairs_of(config.settings, config.folders@.take(fi as int));

        let mut ii: usize = 0;
        #[verifier::loop_isolation(false)]
        while ii < entry.1.inputs.len()
            invariant
                ii <= entry.1.inputs@.len(),
                effective == config.settings.spec_apply_partial(entry.1.settings),
                pairs@.map_values(|p: LinkPair| p@) == prefix + spec_folder_pairs(
                    config.settings,
                    entry.0@,
                    entry.1.inputs@.take(ii as int),
                    entry.1.settings,
                ),
            decreases entry.1.inputs@.len() - ii,
        {
            let ghost snap = pairs@;
            pairs.push(
                LinkPair {
                    source: entry.1.inputs[ii].clone(),
                    dest: entry.0.clone(),
                    settings: effective,
                },
            );
            ii = ii + 1;
            proof {
                let x = pairs@.last();
                assert(pairs@ =~= snap.push(x));
                lemma_map_values_push(snap, x, |p: LinkPair| p@);
                let prev = spec_folder_pairs(
                    config.settings,
                    entry.0@,
                    entry.1.inputs@.take(ii - 1),
                    entry.1.settings,
                );
                assert(pairs@.map_values(|p: LinkPair| p@) == (prefix + prev).push(x@));
                assert((prefix + prev).push(x@) =~= prefix + prev.push(x@));
                assert(entry.1.inputs@.take(ii as int).drop_last() =~= entry.1.inputs@.take(
                    ii - 1,
                ));
                assert(entry.1.inputs@.take(ii as int).last() == entry.1.inputs@[ii - 1]);
                assert(spec_folder_pairs(
                    config.settings,
                    entry.0@,
                    entry.1.inputs@.take(ii as int),
                    entry.1.settings,
                ) == prev.push(x@));
            }
        }
        fi = fi + 1;
        proof {
            assert(config.folders@.take(fi as int).drop_last() =~= config.folders@.take(fi - 1));
            assert(entry.1.inputs@.take(entry.1.inputs@.len() as int) =~= entry.1.inputs@);
            assert(config.folders@.take(fi as int).last() == config.folders@[fi - 1]);
            assert(pairs@.map_values(|p: LinkPair| p@) =~= spec_pairs_of(
                config.settings,
                config.folders@.take(fi as int),
            ));
        }
    }
    proof {
        assert(config.folders@.take(config.folders@.len() as int) =~= config.folders@);
    }
    pairs
}

} // verus!
