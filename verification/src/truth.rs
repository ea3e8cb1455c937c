//! The canonical truth hash of a chaos run: an FNV-1a-64 digest of the
//! configuration, the final person views, the committed observations, the
//! per-day completion rows, the activity sites and the kernel counters.
//! Measurement fields (wall-clock time) never enter it, so two runs of the
//! same configuration agree on it.

use vstd::prelude::*;
use vstd::string::StringSliceAdditionalSpecFns;

use crate::actions::{ActionKind, ActionState, SiteKind};
use crate::chaos::ChaosConfig;
use crate::digest::{fnv_fold, fnv_step, law_fold_concatenates, le_bytes, Fnv, FNV_OFFSET};
use crate::entity::EntityId;
use crate::kernel::{KernelMetrics, PersonObservations};

verus! {

/// What the truth hash reads of one person's final view.
#[derive(Clone, Copy, Debug)]
pub struct PersonTruth {
    /// The person's identity.
    pub id: EntityId,
    /// Column of the person's cell.
    pub x: i32,
    /// Row of the person's cell.
    pub y: i32,
    /// The observable action state.
    pub state: ActionState,
    /// The recorded action kind.
    pub action: ActionKind,
    /// Raw hunger.
    pub hunger: i64,
    /// Raw fatigue.
    pub fatigue: i64,
    /// The action target cell, if any.
    pub target: Option<(i32, i32)>,
}

/// What the truth hash reads of one activity site.
#[derive(Clone, Copy, Debug, PartialEq, Eq, Structural)]
pub struct SiteTruth {
    /// Column of the site.
    pub x: i32,
    /// Row of the site.
    pub y: i32,
    /// The site's kind.
    pub kind: SiteKind,
    /// The site's committed Work counter, for Work sites.
    pub work: Option<u64>,
}

/// What the truth hash reads of the kernel's committed observations; the
/// per-person rows are in ascending identity order.
#[derive(Clone, Debug, PartialEq, Eq)]
pub struct TruthObservations {
    /// Successful advance returns observed.
    pub boundary_count: u64,
    /// Per-person observation rows.
    pub persons: Vec<(EntityId, PersonObservations)>,
    /// Sum of live scheduler entries over the boundaries.
    pub queue_depth_sum: u64,
    /// Largest live scheduler entry count.
    pub queue_depth_max: usize,
    /// Sum of scheduler heap nodes over the boundaries.
    pub queue_nodes_sum: u64,
    /// Largest scheduler heap node count.
    pub queue_nodes_max: usize,
}

/// The label folded for an action state.
pub open spec fn state_label(state: ActionState) -> Seq<u8> {
    match state {
        ActionState::Idle => "Idle".spec_bytes(),
        ActionState::Moving { .. } => "Moving".spec_bytes(),
        ActionState::Eating => "Eating".spec_bytes(),
        ActionState::Sleeping => "Sleeping".spec_bytes(),
        ActionState::Working => "Working".spec_bytes(),
    }
}

/// The label folded for an action kind.
pub open spec fn action_label(kind: ActionKind) -> Seq<u8> {
    match kind {
        ActionKind::Move => "Move".spec_bytes(),
        ActionKind::Eat => "Eat".spec_bytes(),
        ActionKind::Sleep => "Sleep".spec_bytes(),
        ActionKind::Work => "Work".spec_bytes(),
        ActionKind::Idle => "Idle".spec_bytes(),
    }
}

/// The label folded for a site kind.
pub open spec fn site_label(kind: SiteKind) -> Seq<u8> {
    match kind {
        SiteKind::Meal => "Meal".spec_bytes(),
        SiteKind::Rest => "Rest".spec_bytes(),
        SiteKind::Work => "Work".spec_bytes(),
    }
}

/// The bytes folded for an action target: a present marker and both
/// coordinates, or an absent marker and the all-ones word.
pub open spec fn target_bytes(target: Option<(i32, i32)>) -> Seq<u8> {
    match target {
        Some(t) => seq![1u8] + le_bytes(t.0 as u64) + le_bytes(t.1 as u64),
        None => seq![0u8] + le_bytes(u64::MAX),
    }
}

/// The bytes folded for one person.
pub open spec fn person_bytes(p: PersonTruth) -> Seq<u8> {
    le_bytes(p.id@) + le_bytes(p.x as u64) + le_bytes(p.y as u64) + state_label(p.state)
        + action_label(p.action) + le_bytes(p.hunger as u64) + le_bytes(p.fatigue as u64)
        + target_bytes(p.target)
}

/// The bytes folded for persons, in order.
pub open spec fn persons_bytes(persons: Seq<PersonTruth>) -> Seq<u8>
    decreases persons.len(),
{
    if persons.len() == 0 {
        Seq::empty()
    } else {
        persons_bytes(persons.drop_last()) + person_bytes(persons.last())
    }
}

/// The bytes folded for one observation row: the identity, then the seven
/// counters in declaration order.
pub open spec fn observation_row_bytes(row: (EntityId, PersonObservations)) -> Seq<u8> {
    le_bytes(row.0@) + le_bytes(row.1.movement_steps) + le_bytes(row.1.movement_phases) + le_bytes(
        row.1.moves,
    ) + le_bytes(row.1.eats) + le_bytes(row.1.sleeps) + le_bytes(row.1.works) + le_bytes(
        row.1.idles,
    )
}

/// The bytes folded for observation rows, in order.
pub open spec fn observation_rows_bytes(rows: Seq<(EntityId, PersonObservations)>) -> Seq<u8>
    decreases rows.len(),
{
    if rows.len() == 0 {
        Seq::empty()
    } else {
        observation_rows_bytes(rows.drop_last()) + observation_row_bytes(rows.last())
    }
}

/// The bytes folded for one site.
pub open spec fn site_bytes(site: SiteTruth) -> Seq<u8> {
    le_bytes(site.x as u64) + le_bytes(site.y as u64) + site_label(site.kind) + match site.work {
        Some(w) => le_bytes(w),
        None => Seq::empty(),
    }
}

/// The bytes folded for sites, in order.
pub open spec fn sites_bytes(sites: Seq<SiteTruth>) -> Seq<u8>
    decreases sites.len(),
{
    if sites.len() == 0 {
        Seq::empty()
    } else {
        sites_bytes(sites.drop_last()) + site_bytes(sites.last())
    }
}

/// The header: the format tag, the configuration and the final instant.
pub open spec fn header_bytes(config: ChaosConfig, now_seconds: i64) -> Seq<u8> {
    "chaos-report-v2".spec_bytes() + le_bytes(config.seed) + le_bytes(config.person_count as u64)
        + le_bytes(config.years) + le_bytes(config.sim_seconds_per_year as u64) + le_bytes(
        now_seconds as u64,
    )
}

/// The persons section: the tag, the row count and, when the kernel could
/// show them, the person views.
pub open spec fn persons_section(row_count: usize, persons: Option<Seq<PersonTruth>>) -> Seq<u8> {
    "persons".spec_bytes() + le_bytes(row_count as u64) + match persons {
        Some(ps) => persons_bytes(ps),
        None => Seq::empty(),
    }
}

/// The observations section, present when the kernel could show them.
pub open spec fn observations_section(observations: Option<TruthObservations>) -> Seq<u8> {
    match observations {
        Some(o) => "observations".spec_bytes() + le_bytes(o.boundary_count)
            + observation_rows_bytes(o.persons@) + le_bytes(o.queue_depth_sum) + le_bytes(
            o.queue_depth_max as u64,
        ) + le_bytes(o.queue_nodes_sum) + le_bytes(o.queue_nodes_max as u64),
        None => Seq::empty(),
    }
}

/// The checkpoints section: the tag and the boundary count, when known.
pub open spec fn checkpoints_section(observations: Option<TruthObservations>) -> Seq<u8> {
    "checkpoints".spec_bytes() + match observations {
        Some(o) => le_bytes(o.boundary_count),
        None => Seq::empty(),
    }
}

/// The days section: the tag and the serialized completion rows, when the
/// rows could be serialized.
pub open spec fn days_section(days: Option<Seq<u8>>) -> Seq<u8> {
    "days".spec_bytes() + match days {
        Some(bytes) => bytes,
        None => Seq::empty(),
    }
}

/// The sites section: the tag and the sites, when the kernel could show them.
pub open spec fn sites_section(sites: Option<Seq<SiteTruth>>) -> Seq<u8> {
    "sites".spec_bytes() + match sites {
        Some(ss) => sites_bytes(ss),
        None => Seq::empty(),
    }
}

/// The kernel counters that close the hash.
pub open spec fn metrics_bytes(metrics: KernelMetrics) -> Seq<u8> {
    le_bytes(metrics.rounds_total) + le_bytes(metrics.transitions_total) + le_bytes(
        metrics.decisions_total,
    ) + le_bytes(metrics.events_total) + le_bytes(metrics.events_digest) + le_bytes(
        metrics.scheduler_queue_depth as u64,
    )
}

/// The whole byte stream behind the truth hash.
pub open spec fn truth_bytes(
    config: ChaosConfig,
    now_seconds: i64,
    row_count: usize,
    persons: Option<Seq<PersonTruth>>,
    observations: Option<TruthObservations>,
    days: Option<Seq<u8>>,
    sites: Option<Seq<SiteTruth>>,
    metrics: KernelMetrics,
) -> Seq<u8> {
    header_bytes(config, now_seconds) + persons_section(row_count, persons) + observations_section(
        observations,
    ) + checkpoints_section(observations) + days_section(days) + sites_section(sites)
        + metrics_bytes(metrics)
}

/// The view of an optional slice.
pub open spec fn opt_seq<T>(value: Option<&[T]>) -> Option<Seq<T>> {
    match value {
        Some(s) => Some(s@),
        None => None,
    }
}

/// The view of an optional observation record.
pub open spec fn opt_observations(value: Option<&TruthObservations>) -> Option<TruthObservations> {
    match value {
        Some(o) => Some(*o),
        None => None,
    }
}

/// Folds the eight little-endian bytes of `value`, keeping `acc` as the run
/// of bytes folded since `start`.
fn fold_word(fnv: &mut Fnv, value: u64, Ghost(start): Ghost<u64>, Ghost(acc): Ghost<Seq<u8>>)
    requires
        old(fnv)@ == fnv_fold(start, acc),
    ensures
        final(fnv)@ == fnv_fold(start, acc + le_bytes(value)),
{
    fnv.u64(value);
    proof {
        law_fold_concatenates(start, acc, le_bytes(value));
    }
}

/// Folds the bytes of `value`, keeping `acc` as the run of bytes folded
/// since `start`.
fn fold_text(fnv: &mut Fnv, value: &str, Ghost(start): Ghost<u64>, Ghost(acc): Ghost<Seq<u8>>)
    requires
        old(fnv)@ == fnv_fold(start, acc),
    ensures
        final(fnv)@ == fnv_fold(start, acc + value.spec_bytes()),
{
    fnv.str(value);
    proof {
        law_fold_concatenates(start, acc, value.spec_bytes());
    }
}

/// Folds one byte, keeping `acc` as the run of bytes folded since `start`.
fn fold_byte(fnv: &mut Fnv, value: u8, Ghost(start): Ghost<u64>, Ghost(acc): Ghost<Seq<u8>>)
    requires
        old(fnv)@ == fnv_fold(start, acc),
    ensures
        final(fnv)@ == fnv_fold(start, acc + seq![value]),
{
    let ghost before = fnv@;
    fnv.byte(value);
    proof {
        let single = seq![value];
        assert(single.drop_last() =~= Seq::<u8>::empty());
        assert(fnv_fold(before, single.drop_last()) == before);
        assert(fnv_fold(before, single) == fnv_step(before, value));
        law_fold_concatenates(start, acc, single);
    }
}

/// Folds one person's view.
fn fold_person(fnv: &mut Fnv, p: &PersonTruth)
    ensures
        final(fnv)@ == fnv_fold(old(fnv)@, person_bytes(*p)),
{
    let ghost start = fnv@;
    assert(fnv@ == fnv_fold(start, Seq::<u8>::empty()));
    fold_word(fnv, p.id.get(), Ghost(start), Ghost(Seq::empty()));
    assert(Seq::<u8>::empty() + le_bytes(p.id@) =~= le_bytes(p.id@));
    let ghost acc = le_bytes(p.id@);
    fold_word(fnv, p.x as u64, Ghost(start), Ghost(acc));
    let ghost acc = acc + le_bytes(p.x as u64);
    fold_word(fnv, p.y as u64, Ghost(start), Ghost(acc));
    let ghost acc = acc + le_bytes(p.y as u64);
    let state_text = match p.state {
        ActionState::Idle => "Idle",
        ActionState::Moving { .. } => "Moving",
        ActionState::Eating => "Eating",
        ActionState::Sleeping => "Sleeping",
        ActionState::Working => "Working",
    };
    assert(state_text.spec_bytes() == state_label(p.state));
    fold_text(fnv, state_text, Ghost(start), Ghost(acc));
    let ghost acc = acc + state_label(p.state);
    let action_text = match p.action {
        ActionKind::Move => "Move",
        ActionKind::Eat => "Eat",
        ActionKind::Sleep => "Sleep",
        ActionKind::Work => "Work",
        ActionKind::Idle => "Idle",
    };
    assert(action_text.spec_bytes() == action_label(p.action));
    fold_text(fnv, action_text, Ghost(start), Ghost(acc));
    let ghost acc = acc + action_label(p.action);
    fold_word(fnv, p.hunger as u64, Ghost(start), Ghost(acc));
    let ghost acc = acc + le_bytes(p.hunger as u64);
    fold_word(fnv, p.fatigue as u64, Ghost(start), Ghost(acc));
    let ghost acc = acc + le_bytes(p.fatigue as u64);
    match p.target {
        Some(t) => {
            fold_byte(fnv, 1u8, Ghost(start), Ghost(acc));
            fold_word(fnv, t.0 as u64, Ghost(start), Ghost(acc + seq![1u8]));
            fold_word(
                fnv,
                t.1 as u64,
                Ghost(start),
                Ghost(acc + seq![1u8] + le_bytes(t.0 as u64)),
            );
            assert(acc + seq![1u8] + le_bytes(t.0 as u64) + le_bytes(t.1 as u64) =~= acc
                + target_bytes(p.target));
        },
        None => {
            fold_byte(fnv, 0u8, Ghost(start), Ghost(acc));
            fold_word(fnv, u64::MAX, Ghost(start), Ghost(acc + seq![0u8]));
            assert(acc + seq![0u8] + le_bytes(u64::MAX) =~= acc + target_bytes(p.target));
        },
    }
}

/// Folds every person's view, in order.
fn fold_persons(fnv: &mut Fnv, persons: &[PersonTruth])
    ensures
        final(fnv)@ == fnv_fold(old(fnv)@, persons_bytes(persons@)),
{
    let ghost start = fnv@;
    let mut i: usize = 0;
    assert(persons@.subrange(0, 0).len() == 0);
    while i < persons.len()
        invariant
            0 <= i <= persons.len(),
            fnv@ == fnv_fold(start, persons_bytes(persons@.subrange(0, i as int))),
        decreases persons.len() - i,
    {
        let ghost before = persons_bytes(persons@.subrange(0, i as int));
        fold_person(fnv, &persons[i]);
        proof {
            law_fold_concatenates(start, before, person_bytes(persons@[i as int]));
            assert(persons@.subrange(0, i as int + 1).drop_last() =~= persons@.subrange(0, i as int));
        }
        i = i + 1;
    }
    assert(persons@.subrange(0, persons@.len() as int) =~= persons@);
}

/// Folds one observation row.
fn fold_observation_row(fnv: &mut Fnv, row: &(EntityId, PersonObservations))
    ensures
        final(fnv)@ == fnv_fold(old(fnv)@, observation_row_bytes(*row)),
{
    let ghost start = fnv@;
    fold_word(fnv, row.0.get(), Ghost(start), Ghost(Seq::empty()));
    assert(Seq::<u8>::empty() + le_bytes(row.0@) =~= le_bytes(row.0@));
    let ghost acc = le_bytes(row.0@);
    fold_word(fnv, row.1.movement_steps, Ghost(start), Ghost(acc));
    let ghost acc = acc + le_bytes(row.1.movement_steps);
    fold_word(fnv, row.1.movement_phases, Ghost(start), Ghost(acc));
    let ghost acc = acc + le_bytes(row.1.movement_phases);
    fold_word(fnv, row.1.moves, Ghost(start), Ghost(acc));
    let ghost acc = acc + le_bytes(row.1.moves);
    fold_word(fnv, row.1.eats, Ghost(start), Ghost(acc));
    let ghost acc = acc + le_bytes(row.1.eats);
    fold_word(fnv, row.1.sleeps, Ghost(start), Ghost(acc));
    let ghost acc = acc + le_bytes(row.1.sleeps);
    fold_word(fnv, row.1.works, Ghost(start), Ghost(acc));
    let ghost acc = acc + le_bytes(row.1.works);
    fold_word(fnv, row.1.idles, Ghost(start), Ghost(acc));
}

/// Folds every observation row, in order.
fn fold_observation_rows(fnv: &mut Fnv, rows: &[(EntityId, PersonObservations)])
    ensures
        final(fnv)@ == fnv_fold(old(fnv)@, observation_rows_bytes(rows@)),
{
    let ghost start = fnv@;
    let mut i: usize = 0;
    while i < rows.len()
        invariant
            0 <= i <= rows.len(),
            fnv@ == fnv_fold(start, observation_rows_bytes(rows@.subrange(0, i as int))),
        decreases rows.len() - i,
    {
        let ghost before = observation_rows_bytes(rows@.subrange(0, i as int));
        fold_observation_row(fnv, &rows[i]);
        proof {
            law_fold_concatenates(start, before, observation_row_bytes(rows@[i as int]));
            assert(rows@.subrange(0, i as int + 1).drop_last() =~= rows@.subrange(0, i as int));
        }
        i = i + 1;
    }
    assert(rows@.subrange(0, rows@.len() as int) =~= rows@);
}

/// Folds one site.
fn fold_site(fnv: &mut Fnv, site: &SiteTruth)
    ensures
        final(fnv)@ == fnv_fold(old(fnv)@, site_bytes(*site)),
{
    let ghost start = fnv@;
    fold_word(fnv, site.x as u64, Ghost(start), Ghost(Seq::empty()));
    assert(Seq::<u8>::empty() + le_bytes(site.x as u64) =~= le_bytes(site.x as u64));
    let ghost acc = le_bytes(site.x as u64);
    fold_word(fnv, site.y as u64, Ghost(start), Ghost(acc));
    let ghost acc = acc + le_bytes(site.y as u64);
    let kind_text = match site.kind {
        SiteKind::Meal => "Meal",
        SiteKind::Rest => "Rest",
        SiteKind::Work => "Work",
    };
    assert(kind_text.spec_bytes() == site_label(site.kind));
    fold_text(fnv, kind_text, Ghost(start), Ghost(acc));
    let ghost acc = acc + site_label(site.kind);
    match site.work {
        Some(w) => {
            fold_word(fnv, w, Ghost(start), Ghost(acc));
        },
        None => {
            assert(acc + Seq::<u8>::empty() =~= acc);
        },
    }
}

/// Folds every site, in order.
fn fold_sites(fnv: &mut Fnv, sites: &[SiteTruth])
    ensures
        final(fnv)@ == fnv_fold(old(fnv)@, sites_bytes(sites@)),
{
    let ghost start = fnv@;
    let mut i: usize = 0;
    while i < sites.len()
        invariant
            0 <= i <= sites.len(),
            fnv@ == fnv_fold(start, sites_bytes(sites@.subrange(0, i as int))),
        decreases sites.len() - i,
    {
        let ghost before = sites_bytes(sites@.subrange(0, i as int));
        fold_site(fnv, &sites[i]);
        proof {
            law_fold_concatenates(start, before, site_bytes(sites@[i as int]));
            assert(sites@.subrange(0, i as int + 1).drop_last() =~= sites@.subrange(0, i as int));
        }
        i = i + 1;
    }
    assert(sites@.subrange(0, sites@.len() as int) =~= sites@);
}

/// Folds the header.
fn fold_header(fnv: &mut Fnv, config: &ChaosConfig, now_seconds: i64)
    ensures
        final(fnv)@ == fnv_fold(old(fnv)@, header_bytes(*config, now_seconds)),
{
    let ghost start = fnv@;
    fold_text(fnv, "chaos-report-v2", Ghost(start), Ghost(Seq::empty()));
    assert(Seq::<u8>::empty() + "chaos-report-v2".spec_bytes() =~= "chaos-report-v2".spec_bytes());
    let ghost acc = "chaos-report-v2".spec_bytes();
    fold_word(fnv, config.seed, Ghost(start), Ghost(acc));
    let ghost acc = acc + le_bytes(config.seed);
    fold_word(fnv, config.person_count as u64, Ghost(start), Ghost(acc));
    let ghost acc = acc + le_bytes(config.person_count as u64);
    fold_word(fnv, config.years, Ghost(start), Ghost(acc));
    let ghost acc = acc + le_bytes(config.years);
    fold_word(fnv, config.sim_seconds_per_year as u64, Ghost(start), Ghost(acc));
    let ghost acc = acc + le_bytes(config.sim_seconds_per_year as u64);
    fold_word(fnv, now_seconds as u64, Ghost(start), Ghost(acc));
}

/// Folds the persons section.
fn fold_persons_section(fnv: &mut Fnv, row_count: usize, persons: Option<&[PersonTruth]>)
    ensures
        final(fnv)@ == fnv_fold(old(fnv)@, persons_section(row_count, opt_seq(persons))),
{
    let ghost start = fnv@;
    fold_text(fnv, "persons", Ghost(start), Ghost(Seq::empty()));
    assert(Seq::<u8>::empty() + "persons".spec_bytes() =~= "persons".spec_bytes());
    let ghost acc = "persons".spec_bytes();
    fold_word(fnv, row_count as u64, Ghost(start), Ghost(acc));
    let ghost acc = acc + le_bytes(row_count as u64);
    match persons {
        Some(ps) => {
            fold_persons(fnv, ps);
            proof {
                law_fold_concatenates(start, acc, persons_bytes(ps@));
            }
        },
        None => {
            assert(acc + Seq::<u8>::empty() =~= acc);
        },
    }
}

/// Folds the observations section.
fn fold_observations_section(fnv: &mut Fnv, observations: Option<&TruthObservations>)
    ensures
        final(fnv)@ == fnv_fold(old(fnv)@, observations_section(opt_observations(observations))),
{
    match observations {
        Some(o) => {
            let ghost start = fnv@;
            fold_text(fnv, "observations", Ghost(start), Ghost(Seq::empty()));
            assert(Seq::<u8>::empty() + "observations".spec_bytes()
                =~= "observations".spec_bytes());
            let ghost acc = "observations".spec_bytes();
            fold_word(fnv, o.boundary_count, Ghost(start), Ghost(acc));
            let ghost acc = acc + le_bytes(o.boundary_count);
            fold_observation_rows(fnv, o.persons.as_slice());
            proof {
                law_fold_concatenates(start, acc, observation_rows_bytes(o.persons@));
            }
            let ghost acc = acc + observation_rows_bytes(o.persons@);
            fold_word(fnv, o.queue_depth_sum, Ghost(start), Ghost(acc));
            let ghost acc = acc + le_bytes(o.queue_depth_sum);
            fold_word(fnv, o.queue_depth_max as u64, Ghost(start), Ghost(acc));
            let ghost acc = acc + le_bytes(o.queue_depth_max as u64);
            fold_word(fnv, o.queue_nodes_sum, Ghost(start), Ghost(acc));
            let ghost acc = acc + le_bytes(o.queue_nodes_sum);
            fold_word(fnv, o.queue_nodes_max as u64, Ghost(start), Ghost(acc));
        },
        None => {
            assert(fnv_fold(fnv@, Seq::<u8>::empty()) == fnv@);
        },
    }
}

/// Folds the checkpoints section.
fn fold_checkpoints_section(fnv: &mut Fnv, observations: Option<&TruthObservations>)
    ensures
        final(fnv)@ == fnv_fold(old(fnv)@, checkpoints_section(opt_observations(observations))),
{
    let ghost start = fnv@;
    fold_text(fnv, "checkpoints", Ghost(start), Ghost(Seq::empty()));
    assert(Seq::<u8>::empty() + "checkpoints".spec_bytes() =~= "checkpoints".spec_bytes());
    let ghost acc = "checkpoints".spec_bytes();
    match observations {
        Some(o) => {
            fold_word(fnv, o.boundary_count, Ghost(start), Ghost(acc));
        },
        None => {
            assert(acc + Seq::<u8>::empty() =~= acc);
        },
    }
}

/// Folds the days section.
fn fold_days_section(fnv: &mut Fnv, days: Option<&[u8]>)
    ensures
        final(fnv)@ == fnv_fold(old(fnv)@, days_section(opt_seq(days))),
{
    let ghost start = fnv@;
    fold_text(fnv, "days", Ghost(start), Ghost(Seq::empty()));
    assert(Seq::<u8>::empty() + "days".spec_bytes() =~= "days".spec_bytes());
    let ghost acc = "days".spec_bytes();
    match days {
        Some(bytes) => {
            let mut i: usize = 0;
            assert(acc + bytes@.subrange(0, 0) =~= acc);
            while i < bytes.len()
                invariant
                    0 <= i <= bytes.len(),
                    fnv@ == fnv_fold(start, acc + bytes@.subrange(0, i as int)),
                decreases bytes.len() - i,
            {
                fold_byte(fnv, bytes[i], Ghost(start), Ghost(acc + bytes@.subrange(0, i as int)));
                assert(acc + bytes@.subrange(0, i as int) + seq![bytes@[i as int]] =~= acc
                    + bytes@.subrange(0, i as int + 1));
                i = i + 1;
            }
            assert(bytes@.subrange(0, bytes@.len() as int) =~= bytes@);
        },
        None => {
            assert(acc + Seq::<u8>::empty() =~= acc);
        },
    }
}

/// Folds the sites section.
fn fold_sites_section(fnv: &mut Fnv, sites: Option<&[SiteTruth]>)
    ensures
        final(fnv)@ == fnv_fold(old(fnv)@, sites_section(opt_seq(sites))),
{
    let ghost start = fnv@;
    fold_text(fnv, "sites", Ghost(start), Ghost(Seq::empty()));
    assert(Seq::<u8>::empty() + "sites".spec_bytes() =~= "sites".spec_bytes());
    let ghost acc = "sites".spec_bytes();
    match sites {
        Some(ss) => {
            fold_sites(fnv, ss);
            proof {
                law_fold_concatenates(start, acc, sites_bytes(ss@));
            }
        },
        None => {
            assert(acc + Seq::<u8>::empty() =~= acc);
        },
    }
}

/// Folds the closing kernel counters.
fn fold_metrics(fnv: &mut Fnv, metrics: &KernelMetrics)
    ensures
        final(fnv)@ == fnv_fold(old(fnv)@, metrics_bytes(*metrics)),
{
    let ghost start = fnv@;
    fold_word(fnv, metrics.rounds_total, Ghost(start), Ghost(Seq::empty()));
    assert(Seq::<u8>::empty() + le_bytes(metrics.rounds_total) =~= le_bytes(metrics.rounds_total));
    let ghost acc = le_bytes(metrics.rounds_total);
    fold_word(fnv, metrics.transitions_total, Ghost(start), Ghost(acc));
    let ghost acc = acc + le_bytes(metrics.transitions_total);
    fold_word(fnv, metrics.decisions_total, Ghost(start), Ghost(acc));
    let ghost acc = acc + le_bytes(metrics.decisions_total);
    fold_word(fnv, metrics.events_total, Ghost(start), Ghost(acc));
    let ghost acc = acc + le_bytes(metrics.events_total);
    fold_word(fnv, metrics.events_digest, Ghost(start), Ghost(acc));
    let ghost acc = acc + le_bytes(metrics.events_digest);
    fold_word(fnv, metrics.scheduler_queue_depth as u64, Ghost(start), Ghost(acc));
}

/// The canonical truth hash: FNV-1a-64 over the header, the person views
/// (when the kernel could show them), the observations, the checkpoint
/// count, the serialized completion rows (when they could be serialized),
/// the activity sites and the kernel counters. `row_count` is the number of
/// completion rows and `days` their serialized bytes.
pub fn truth_hash(
    config: &ChaosConfig,
    now_seconds: i64,
    row_count: usize,
    persons: Option<&[PersonTruth]>,
    observations: Option<&TruthObservations>,
    days: Option<&[u8]>,
    sites: Option<&[SiteTruth]>,
    metrics: &KernelMetrics,
) -> (hash: u64)
    ensures
        hash == fnv_fold(
            FNV_OFFSET,
            truth_bytes(
                *config,
                now_seconds,
                row_count,
                opt_seq(persons),
                opt_observations(observations),
                opt_seq(days),
                opt_seq(sites),
                *metrics,
            ),
        ),
{
    let mut fnv = Fnv::new();
    let ghost start = fnv@;
    let ghost header = header_bytes(*config, now_seconds);
    fold_header(&mut fnv, config, now_seconds);
    let ghost section = persons_section(row_count, opt_seq(persons));
    fold_persons_section(&mut fnv, row_count, persons);
    proof {
        law_fold_concatenates(start, header, section);
    }
    let ghost acc = header + section;
    let ghost section = observations_section(opt_observations(observations));
    fold_observations_section(&mut fnv, observations);
    proof {
        law_fold_concatenates(start, acc, section);
    }
    let ghost acc = acc + section;
    let ghost section = checkpoints_section(opt_observations(observations));
    fold_checkpoints_section(&mut fnv, observations);
    proof {
        law_fold_concatenates(start, acc, section);
    }
    let ghost acc = acc + section;
    let ghost section = days_section(opt_seq(days));
    fold_days_section(&mut fnv, days);
    proof {
        law_fold_concatenates(start, acc, section);
    }
    let ghost acc = acc + section;
    let ghost section = sites_section(opt_seq(sites));
    fold_sites_section(&mut fnv, sites);
    proof {
        law_fold_concatenates(start, acc, section);
    }
    let ghost acc = acc + section;
    let ghost section = metrics_bytes(*metrics);
    fold_metrics(&mut fnv, metrics);
    proof {
        law_fold_concatenates(start, acc, section);
    }
    fnv.finish()
}

} // verus!
