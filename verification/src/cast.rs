//! One cast of a proximity sensor: the hits it meets, in the order in which
//! the engine reports them, and what is recorded of them.

use crate::layers::Layers;
use crate::sensor::{
    CastContext, CastHit, GhostSensor, ProximitySensor, ProximitySensorOutput, SubservientSensor,
    Verdict,
};
use crate::toggle::Toggle;
use vstd::prelude::*;

verus! {

/// What the engine is asked to cast.
#[derive(Clone, Copy, Debug, PartialEq, Eq, Structural)]
pub enum CastKind {
    /// A ray.
    Ray,
    /// The shape that is attached to the sensor.
    Shape,
}

/// Whether a hit ends the cast.
pub open spec fn is_solid(context: CastContext, hit: CastHit) -> bool {
    context.spec_classify(hit) is Solid
}

/// The first index from `start` on whose hit is solid; the number of hits
/// where there is none.
pub open spec fn stop_from(context: CastContext, hits: Seq<CastHit>, start: int) -> int
    decreases hits.len() - start,
{
    if start < 0 || start >= hits.len() {
        hits.len() as int
    } else if is_solid(context, hits[start]) {
        start
    } else {
        stop_from(context, hits, start + 1)
    }
}

/// Where the cast stops: the index of the first solid hit, or the number of
/// hits where none is solid.
pub open spec fn stop_index(context: CastContext, hits: Seq<CastHit>) -> int {
    stop_from(context, hits, 0)
}

/// The records of the ghost platforms among the first `end` hits, in the
/// order of the hits.
pub open spec fn ghosts_before(context: CastContext, hits: Seq<CastHit>, end: int) -> Seq<
    ProximitySensorOutput,
>
    decreases end,
{
    if end <= 0 || end > hits.len() {
        Seq::empty()
    } else {
        let earlier = ghosts_before(context, hits, end - 1);
        match context.spec_classify(hits[end - 1]) {
            Verdict::GhostPlatform(output) => earlier.push(output),
            _ => earlier,
        }
    }
}

/// What a cast records as its output: the first solid hit, if there is one.
pub open spec fn scan_output(context: CastContext, hits: Seq<CastHit>) -> Option<
    ProximitySensorOutput,
> {
    let stop = stop_index(context, hits);
    if stop < hits.len() {
        match context.spec_classify(hits[stop]) {
            Verdict::Solid(output) => Some(output),
            _ => None,
        }
    } else {
        None
    }
}

/// What a cast records of ghost platforms: those that it met before it
/// stopped.
pub open spec fn scan_ghosts(context: CastContext, hits: Seq<CastHit>) -> Seq<
    ProximitySensorOutput,
> {
    ghosts_before(context, hits, stop_index(context, hits))
}

/// `stop_from` lies between `start` and the number of hits, no hit between
/// `start` and it is solid, and the hit at it is, if there is one.
pub proof fn lemma_stop_from(context: CastContext, hits: Seq<CastHit>, start: int)
    requires
        0 <= start <= hits.len(),
    ensures
        start <= stop_from(context, hits, start) <= hits.len(),
        forall|j: int|
            start <= j < stop_from(context, hits, start) ==> !is_solid(context, #[trigger] hits[j]),
        stop_from(context, hits, start) < hits.len() ==> is_solid(
            context,
            hits[stop_from(context, hits, start)],
        ),
    decreases hits.len() - start,
{
    if start < hits.len() && !is_solid(context, hits[start]) {
        lemma_stop_from(context, hits, start + 1);
    }
}

/// An index is where the cast stops if no hit before it is solid and the
/// hit at it is, or it is the number of hits.
pub proof fn lemma_stop_is(context: CastContext, hits: Seq<CastHit>, start: int, k: int)
    requires
        0 <= start <= k <= hits.len(),
        forall|j: int| start <= j < k ==> !is_solid(context, #[trigger] hits[j]),
        k < hits.len() ==> is_solid(context, hits[k]),
    ensures
        stop_from(context, hits, start) == k,
    decreases k - start,
{
    if start < k {
        lemma_stop_is(context, hits, start + 1, k);
    }
}

/// The records of ghost platforms among the first `end` hits do not depend
/// on the hits that follow.
pub proof fn lemma_ghosts_of_prefix(
    context: CastContext,
    hits: Seq<CastHit>,
    longer: Seq<CastHit>,
    end: int,
)
    requires
        0 <= end <= hits.len() <= longer.len(),
        forall|j: int| 0 <= j < end ==> hits[j] == longer[j],
    ensures
        ghosts_before(context, hits, end) == ghosts_before(context, longer, end),
    decreases end,
{
    if end > 0 {
        lemma_ghosts_of_prefix(context, hits, longer, end - 1);
    }
}

/// What a cast has been handed and what it has recorded of it.
struct Progress {
    /// The first solid hit so far.
    output: Option<ProximitySensorOutput>,
    /// The ghost platforms that were met before the cast stopped.
    ghosts: Vec<ProximitySensorOutput>,
    /// Every hit that was handed to the cast, in order.
    history: Ghost<Seq<CastHit>>,
}

/// A cast under way: the hits it has been handed, and what it has recorded
/// of them. What it holds is always what a cast records of those hits.
pub struct Cast {
    context: CastContext,
    progress: Progress,
}

impl Cast {
    #[verifier::type_invariant]
    spec fn recorded(&self) -> bool {
        &&& self.progress.output == scan_output(self.context, self.progress.history@)
        &&& self.progress.ghosts@ == scan_ghosts(self.context, self.progress.history@)
    }

    /// What stays the same for every hit of the cast.
    pub closed spec fn context(&self) -> CastContext {
        self.context
    }

    /// Every hit that was handed to the cast, in order.
    pub closed spec fn history(&self) -> Seq<CastHit> {
        self.progress.history@
    }

    /// A cast that has met nothing yet.
    pub fn begin(context: CastContext) -> (cast: Cast)
        ensures
            cast.context() == context,
            cast.history() == Seq::<CastHit>::empty(),
    {
        Cast {
            context,
            progress: Progress { output: None, ghosts: Vec::new(), history: Ghost(Seq::empty()) },
        }
    }

    /// The entity on whose behalf the cast is made: the engine is asked to
    /// leave it out.
    pub fn owner(&self) -> (owner: u64)
        ensures
            owner == self.context().owner,
    {
        self.context.owner
    }

    /// The first solid hit so far.
    pub fn output(&self) -> (output: Option<ProximitySensorOutput>)
        ensures
            output == scan_output(self.context(), self.history()),
    {
        proof {
            use_type_invariant(self);
        }
        self.progress.output
    }

    /// Hands the next hit to the cast, and says whether the cast goes on.
    /// Once a solid hit is recorded nothing changes it.
    pub fn apply_cast(&mut self, hit: &CastHit) -> (keep_going: bool)
        ensures
            final(self).context() == old(self).context(),
            final(self).history() == old(self).history().push(*hit),
            keep_going == (scan_output(final(self).context(), final(self).history()) is None),
    {
        proof {
            use_type_invariant(&*self);
        }
        let context: CastContext = self.context;
        let ghost before = self.progress.history@;
        let ghost after = before.push(*hit);
        let mut progress = Progress { output: None, ghosts: Vec::new(), history: Ghost(Seq::empty()) };
        core::mem::swap(&mut progress, &mut self.progress);
        progress.history = Ghost(after);
        proof {
            lemma_stop_from(context, before, 0);
            let stop = stop_index(context, before);
            let n = before.len() as int;
            if stop < n {
                lemma_stop_is(context, after, 0, stop);
                lemma_ghosts_of_prefix(context, before, after, stop);
            } else {
                lemma_ghosts_of_prefix(context, before, after, n);
            }
        }
        let mut keep_going: bool = false;
        if progress.output.is_none() {
            let verdict: Verdict = context.classify(hit);
            proof {
                let n = before.len() as int;
                if verdict is Solid {
                    lemma_stop_is(context, after, 0, n);
                } else {
                    lemma_stop_is(context, after, 0, n + 1);
                }
            }
            match verdict {
                Verdict::Solid(output) => {
                    progress.output = Some(output);
                },
                Verdict::GhostPlatform(output) => {
                    progress.ghosts.push(output);
                    keep_going = true;
                },
                _ => {
                    keep_going = true;
                },
            }
        }
        self.progress = progress;
        keep_going
    }
}

/// The entity on whose behalf a sensor probes: the owner that a subservient
/// sensor names, else the entity that carries the sensor.
pub open spec fn spec_resolve_owner(entity: u64, subservient: Option<SubservientSensor>) -> u64 {
    match subservient {
        Some(s) => s.owner_entity,
        None => entity,
    }
}

/// The entity on whose behalf a sensor probes.
#[verifier::when_used_as_spec(spec_resolve_owner)]
pub fn resolve_owner(entity: u64, subservient: Option<SubservientSensor>) -> (owner: u64)
    ensures
        owner == spec_resolve_owner(entity, subservient),
{
    match subservient {
        Some(s) => s.owner_entity,
        None => entity,
    }
}

/// What is cast: the attached shape where there is one, else a ray.
pub open spec fn spec_cast_kind(shape_attached: bool) -> CastKind {
    if shape_attached {
        CastKind::Shape
    } else {
        CastKind::Ray
    }
}

/// What is cast: the attached shape where there is one, else a ray.
#[verifier::when_used_as_spec(spec_cast_kind)]
pub fn cast_kind(shape_attached: bool) -> (kind: CastKind)
    ensures
        kind == spec_cast_kind(shape_attached),
{
    if shape_attached {
        CastKind::Shape
    } else {
        CastKind::Ray
    }
}

/// What stays the same for every hit of the cast of a sensor: the owner is
/// found through the subservient mark, `owner_layers` are the layers of that
/// owner, and the cutoff is the sensor's.
pub open spec fn context_of(
    entity: u64,
    subservient: Option<SubservientSensor>,
    owner_layers: Option<Layers>,
    sensor: ProximitySensor,
) -> CastContext {
    CastContext {
        owner: spec_resolve_owner(entity, subservient),
        layers: owner_layers,
        cutoff: sensor.intersection_match_prevention_cutoff,
    }
}

/// The sensor after a tick in which its cast met `hits`: only its output
/// changes, to the first solid hit, and not even that where the character
/// is disabled.
pub open spec fn sensor_after(
    toggle: Option<Toggle>,
    entity: u64,
    subservient: Option<SubservientSensor>,
    owner_layers: Option<Layers>,
    sensor: ProximitySensor,
    hits: Seq<CastHit>,
) -> ProximitySensor {
    if Toggle::spec_resolve(toggle).spec_senses() {
        ProximitySensor {
            output: scan_output(context_of(entity, subservient, owner_layers, sensor), hits),
            ..sensor
        }
    } else {
        sensor
    }
}

/// The content of a ghost sensor.
pub open spec fn ghost_view(ghost: Option<GhostSensor>) -> Option<Seq<ProximitySensorOutput>> {
    match ghost {
        Some(g) => Some(g.0@),
        None => None,
    }
}

/// The content of a ghost sensor after a tick in which the cast met `hits`:
/// the ghost platforms before the first solid hit, where the character has a
/// ghost sensor and is not disabled.
pub open spec fn ghost_after(
    toggle: Option<Toggle>,
    entity: u64,
    subservient: Option<SubservientSensor>,
    owner_layers: Option<Layers>,
    sensor: ProximitySensor,
    ghost: Option<Seq<ProximitySensorOutput>>,
    hits: Seq<CastHit>,
) -> Option<Seq<ProximitySensorOutput>> {
    if Toggle::spec_resolve(toggle).spec_senses() && ghost is Some {
        Some(scan_ghosts(context_of(entity, subservient, owner_layers, sensor), hits))
    } else {
        ghost
    }
}

/// Starts the cast of a sensor for this tick, or says that there is none:
/// a disabled character does not sense.
pub fn begin_cast(
    toggle: Option<Toggle>,
    entity: u64,
    subservient: Option<SubservientSensor>,
    owner_layers: Option<Layers>,
    sensor: &ProximitySensor,
) -> (cast: Option<Cast>)
    ensures
        cast is Some == Toggle::spec_resolve(toggle).spec_senses(),
        cast matches Some(c) ==> {
            &&& c.context() == context_of(entity, subservient, owner_layers, *sensor)
            &&& c.history() == Seq::<CastHit>::empty()
        },
{
    if !Toggle::resolve(toggle).senses() {
        return None;
    }
    let context = CastContext {
        owner: resolve_owner(entity, subservient),
        layers: owner_layers,
        cutoff: sensor.intersection_match_prevention_cutoff,
    };
    Some(Cast::begin(context))
}

impl Cast {
    /// Ends the cast: the sensor's output becomes the first solid hit, or
    /// nothing, and a ghost sensor holds the ghost platforms that were met
    /// before it.
    pub fn finish(self, sensor: &mut ProximitySensor, ghost: &mut Option<GhostSensor>)
        ensures
            *final(sensor) == (ProximitySensor {
                output: scan_output(self.context(), self.history()),
                ..*old(sensor)
            }),
            ghost_view(*final(ghost)) == if *old(ghost) is Some {
                Some(scan_ghosts(self.context(), self.history()))
            } else {
                None
            },
    {
        proof {
            use_type_invariant(&self);
        }
        sensor.output = self.progress.output;
        if ghost.is_some() {
            *ghost = Some(GhostSensor(self.progress.ghosts));
        }
    }
}

/// One tick of a proximity sensor whose cast met `hits`, in this order.
///
/// The output becomes the first solid hit, or nothing where no hit is
/// solid; a ghost sensor is emptied and then holds the ghost platforms met
/// before that hit. A disabled character keeps both as they were.
pub fn update_proximity_sensor(
    toggle: Option<Toggle>,
    entity: u64,
    subservient: Option<SubservientSensor>,
    owner_layers: Option<Layers>,
    sensor: &mut ProximitySensor,
    ghost: &mut Option<GhostSensor>,
    hits: &Vec<CastHit>,
)
    ensures
        *final(sensor) == sensor_after(
            toggle,
            entity,
            subservient,
            owner_layers,
            *old(sensor),
            hits@,
        ),
        ghost_view(*final(ghost)) == ghost_after(
            toggle,
            entity,
            subservient,
            owner_layers,
            *old(sensor),
            ghost_view(*old(ghost)),
            hits@,
        ),
{
    let mut cast: Cast = match begin_cast(toggle, entity, subservient, owner_layers, sensor) {
        Some(c) => c,
        None => {
            return ;
        },
    };
    let ghost context = cast.context();
    let mut i: usize = 0;
    let mut keep_going: bool = true;
    while keep_going && i < hits.len()
        invariant
            i <= hits@.len(),
            cast.context() == context,
            cast.history() =~= hits@.take(i as int),
            !keep_going ==> scan_output(context, cast.history()) is Some,
        decreases hits@.len() - i,
    {
        keep_going = cast.apply_cast(&hits[i]);
        proof {
            assert(hits@.take(i as int).push(hits@[i as int]) =~= hits@.take(i as int + 1));
        }
        i += 1;
    }
    proof {
        if keep_going {
            assert(hits@.take(i as int) =~= hits@);
        } else {
            lemma_scan_of_prefix(context, hits@, i as int);
        }
    }
    cast.finish(sensor, ghost);
}

/// Once a cast has stopped within the first `n` hits, the hits that follow
/// change nothing.
pub proof fn lemma_scan_of_prefix(context: CastContext, hits: Seq<CastHit>, n: int)
    requires
        0 <= n <= hits.len(),
        scan_output(context, hits.take(n)) is Some,
    ensures
        scan_output(context, hits) == scan_output(context, hits.take(n)),
        scan_ghosts(context, hits) == scan_ghosts(context, hits.take(n)),
{
    let prefix = hits.take(n);
    lemma_stop_from(context, prefix, 0);
    let stop = stop_index(context, prefix);
    assert forall|j: int| 0 <= j < stop implies !is_solid(context, #[trigger] hits[j]) by {
        assert(prefix[j] == hits[j]);
    }
    assert(prefix[stop] == hits[stop]);
    lemma_stop_is(context, hits, 0, stop);
    lemma_ghosts_of_prefix(context, prefix, hits, stop);
}

} // verus!
