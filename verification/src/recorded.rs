//! What holds of every cast, whatever the hits: which hit is recorded, what
//! ghost platforms and held contacts do to it, and what a second tick changes.

use crate::cast::{
    ghost_after, ghosts_before, is_solid, lemma_stop_from, lemma_stop_is, scan_ghosts,
    scan_output, sensor_after, stop_index,
};
use crate::layers::Layers;
use crate::sensor::{
    CastContext, CastHit, ProximitySensor, ProximitySensorOutput, SubservientSensor, Verdict,
};
use crate::toggle::Toggle;
use vstd::prelude::*;

verus! {

/// Whether the hits come nearest first: no hit is strictly nearer than one
/// that comes before it.
pub open spec fn nearest_first(hits: Seq<CastHit>) -> bool {
    forall|i: int, j: int|
        0 <= i < j < hits.len() ==> !(#[trigger] hits[j]).proximity.spec_lt(
            (#[trigger] hits[i]).proximity,
        )
}

/// Every record of a ghost platform among the first `end` hits is the
/// record of one of those hits, and every ghost platform among them has its
/// record there.
pub proof fn lemma_ghosts_before(context: CastContext, hits: Seq<CastHit>, end: int)
    requires
        0 <= end <= hits.len(),
    ensures
        forall|i: int|
            0 <= i < ghosts_before(context, hits, end).len() ==> exists|j: int|
                0 <= j < end && context.spec_classify(#[trigger] hits[j]) == Verdict::GhostPlatform(
                    #[trigger] ghosts_before(context, hits, end)[i],
                ),
        forall|j: int|
            0 <= j < end && context.spec_classify(#[trigger] hits[j]) is GhostPlatform
                ==> ghosts_before(context, hits, end).contains(
                context.spec_classify(hits[j])->GhostPlatform_0,
            ),
    decreases end,
{
    if end > 0 {
        lemma_ghosts_before(context, hits, end - 1);
        let earlier = ghosts_before(context, hits, end - 1);
        let all = ghosts_before(context, hits, end);
        assert forall|i: int| 0 <= i < all.len() implies exists|j: int|
            0 <= j < end && context.spec_classify(#[trigger] hits[j]) == Verdict::GhostPlatform(
                #[trigger] all[i],
            ) by {
            if i < earlier.len() {
                assert(all[i] == earlier[i]);
                let j = choose|j: int|
                    0 <= j < end - 1 && context.spec_classify(#[trigger] hits[j])
                        == Verdict::GhostPlatform(earlier[i]);
                assert(0 <= j < end && context.spec_classify(hits[j]) == Verdict::GhostPlatform(
                    all[i],
                ));
            } else {
                assert(context.spec_classify(hits[end - 1]) == Verdict::GhostPlatform(all[i]));
            }
        }
        assert forall|j: int|
            0 <= j < end && context.spec_classify(#[trigger] hits[j]) is GhostPlatform implies all.contains(
            context.spec_classify(hits[j])->GhostPlatform_0,
        ) by {
            let record = context.spec_classify(hits[j])->GhostPlatform_0;
            if j < end - 1 {
                assert(earlier.contains(record));
                let i = choose|i: int| 0 <= i < earlier.len() && earlier[i] == record;
                assert(all[i] == record);
            } else {
                assert(all[all.len() - 1] == record);
            }
        }
    }
}

/// The output of a cast is the record of the first solid hit: where the hit
/// at `k` is solid and none before it is, the output is that hit's record,
/// with its entity and its proximity.
pub proof fn lemma_output_is_first_solid(context: CastContext, hits: Seq<CastHit>, k: int)
    requires
        0 <= k < hits.len(),
        is_solid(context, hits[k]),
        forall|j: int| 0 <= j < k ==> !is_solid(context, #[trigger] hits[j]),
    ensures
        scan_output(context, hits) == Some(context.spec_classify(hits[k])->Solid_0),
        scan_output(context, hits)->0.entity == hits[k].entity,
        scan_output(context, hits)->0.proximity == hits[k].proximity,
{
    lemma_stop_is(context, hits, 0, k);
}

/// A cast has an output exactly when some hit is solid.
pub proof fn lemma_output_exists(context: CastContext, hits: Seq<CastHit>)
    ensures
        scan_output(context, hits) is Some <==> exists|j: int|
            0 <= j < hits.len() && is_solid(context, #[trigger] hits[j]),
{
    lemma_stop_from(context, hits, 0);
    let stop = stop_index(context, hits);
    if stop < hits.len() {
        assert(is_solid(context, hits[stop]));
    }
}

/// Where the hits come nearest first, no solid hit is strictly nearer than
/// the one that the cast records.
pub proof fn lemma_output_is_nearest_solid(context: CastContext, hits: Seq<CastHit>)
    requires
        nearest_first(hits),
    ensures
        scan_output(context, hits) matches Some(output) ==> forall|j: int|
            0 <= j < hits.len() && is_solid(context, #[trigger] hits[j])
                ==> !hits[j].proximity.spec_lt(output.proximity),
{
    lemma_stop_from(context, hits, 0);
    let stop = stop_index(context, hits);
    if stop < hits.len() {
        lemma_output_is_first_solid(context, hits, stop);
        assert forall|j: int|
            0 <= j < hits.len() && is_solid(context, #[trigger] hits[j]) implies !hits[j].proximity.spec_lt(
            hits[stop].proximity,
        ) by {
            if stop < j {
                assert(!hits[j].proximity.spec_lt(hits[stop].proximity));
            }
        }
    }
}

/// A ghost platform does not stop a cast: where the hit at `ghost` is a
/// ghost platform and the first solid hit comes after it, at `solid`, the
/// output is the record of the solid hit and the ghost platform's record is
/// among the ghosts.
pub proof fn lemma_ghost_does_not_block(
    context: CastContext,
    hits: Seq<CastHit>,
    ghost: int,
    solid: int,
)
    requires
        0 <= ghost < solid < hits.len(),
        context.spec_classify(hits[ghost]) is GhostPlatform,
        is_solid(context, hits[solid]),
        forall|j: int| 0 <= j < solid ==> !is_solid(context, #[trigger] hits[j]),
    ensures
        scan_output(context, hits) == Some(context.spec_classify(hits[solid])->Solid_0),
        scan_ghosts(context, hits).contains(context.spec_classify(hits[ghost])->GhostPlatform_0),
{
    lemma_stop_is(context, hits, 0, solid);
    lemma_ghosts_before(context, hits, solid);
}

/// Ghost platforms never change what a cast records as its output: the
/// output is the same as that of the cast over the hits without them.
pub proof fn lemma_output_ignores_ghosts(context: CastContext, hits: Seq<CastHit>)
    ensures
        scan_output(context, hits) == scan_output(
            context,
            hits.filter(|hit: CastHit| !(context.spec_classify(hit) is GhostPlatform)),
        ),
{
    let keep = |hit: CastHit| !(context.spec_classify(hit) is GhostPlatform);
    let kept = hits.filter(keep);
    lemma_stop_from(context, hits, 0);
    let stop = stop_index(context, hits);
    if stop < hits.len() {
        let head = hits.take(stop);
        let tail = hits.skip(stop);
        assert(hits =~= head + tail);
        Seq::filter_distributes_over_add(head, tail, keep);
        let kept_head = head.filter(keep);
        let kept_tail = tail.filter(keep);
        assert(kept == kept_head + kept_tail);
        assert forall|j: int| 0 <= j < kept_head.len() implies !is_solid(
            context,
            #[trigger] kept[j],
        ) by {
            assert(kept[j] == kept_head[j]);
            assert(kept_head.contains(kept_head[j]));
            head.lemma_filter_contains_rev(keep, kept_head[j]);
            let w = choose|w: int| 0 <= w < head.len() && head[w] == kept_head[j];
            assert(head[w] == hits[w]);
        }
        assert(tail[0] == hits[stop]);
        lemma_filter_keeps_first(tail, keep);
        assert(kept_tail.len() > 0 && kept_tail[0] == hits[stop]);
        assert(kept[kept_head.len() as int] == hits[stop]);
        lemma_stop_is(context, kept, 0, kept_head.len() as int);
    } else {
        assert forall|j: int| 0 <= j < kept.len() implies !is_solid(context, #[trigger] kept[j]) by {
            assert(kept.contains(kept[j]));
            hits.lemma_filter_contains_rev(keep, kept[j]);
            let w = choose|w: int| 0 <= w < hits.len() && hits[w] == kept[j];
            assert(!is_solid(context, hits[w]));
        }
        lemma_stop_is(context, kept, 0, kept.len() as int);
    }
}

/// A filter that keeps the first element of a sequence keeps it first.
proof fn lemma_filter_keeps_first(s: Seq<CastHit>, keep: spec_fn(CastHit) -> bool)
    requires
        s.len() > 0,
        keep(s[0]),
    ensures
        s.filter(keep).len() > 0,
        s.filter(keep)[0] == s[0],
{
    let head = s.take(1);
    let tail = s.skip(1);
    assert(s =~= head + tail);
    Seq::filter_distributes_over_add(head, tail, keep);
    reveal(Seq::filter);
    assert(head.drop_last() =~= Seq::<CastHit>::empty());
    assert(head.drop_last().filter(keep) =~= Seq::<CastHit>::empty());
    assert(head.filter(keep) =~= seq![s[0]]);
}

/// Whether some hit of this entity is taken for a ghost platform.
pub open spec fn met_as_ghost_platform(context: CastContext, hits: Seq<CastHit>, entity: u64) -> bool {
    exists|j: int|
        0 <= j < hits.len() && (#[trigger] hits[j]).entity == entity && context.spec_classify(
            hits[j],
        ) is GhostPlatform
}

/// Every record among the ghosts of a cast carries the entity of a hit
/// that the cast took for a ghost platform.
pub proof fn lemma_ghosts_are_ghost_platforms(context: CastContext, hits: Seq<CastHit>)
    ensures
        forall|i: int|
            0 <= i < scan_ghosts(context, hits).len() ==> met_as_ghost_platform(
                context,
                hits,
                (#[trigger] scan_ghosts(context, hits)[i]).entity,
            ),
{
    lemma_stop_from(context, hits, 0);
    let stop = stop_index(context, hits);
    lemma_ghosts_before(context, hits, stop);
    let ghosts = scan_ghosts(context, hits);
    assert forall|i: int| 0 <= i < ghosts.len() implies met_as_ghost_platform(
        context,
        hits,
        (#[trigger] ghosts[i]).entity,
    ) by {
        let j = choose|j: int|
            0 <= j < stop && context.spec_classify(#[trigger] hits[j]) == Verdict::GhostPlatform(
                ghosts[i],
            );
        assert(hits[j].entity == ghosts[i].entity && context.spec_classify(hits[j])
            is GhostPlatform);
    }
}

/// A collider whose every hit matches a contact that the solver already
/// holds is never recorded, neither as the output nor among the ghosts,
/// wherever its hits stand among the others.
pub proof fn lemma_spurious_is_never_recorded(
    context: CastContext,
    hits: Seq<CastHit>,
    entity: u64,
)
    requires
        forall|j: int|
            0 <= j < hits.len() && (#[trigger] hits[j]).entity == entity ==> hits[j].spec_is_spurious(
                context.owner,
                context.cutoff,
            ),
    ensures
        scan_output(context, hits) matches Some(output) ==> output.entity != entity,
        forall|i: int|
            0 <= i < scan_ghosts(context, hits).len() ==> (#[trigger] scan_ghosts(
                context,
                hits,
            )[i]).entity != entity,
{
    lemma_stop_from(context, hits, 0);
    lemma_ghosts_are_ghost_platforms(context, hits);
}

/// The owner of a sensor is never recorded by its cast, neither as the
/// output nor among the ghosts.
pub proof fn lemma_owner_is_never_recorded(context: CastContext, hits: Seq<CastHit>)
    ensures
        scan_output(context, hits) matches Some(output) ==> output.entity != context.owner,
        forall|i: int|
            0 <= i < scan_ghosts(context, hits).len() ==> (#[trigger] scan_ghosts(
                context,
                hits,
            )[i]).entity != context.owner,
{
    lemma_stop_from(context, hits, 0);
    lemma_ghosts_are_ghost_platforms(context, hits);
}

/// A second tick of a sensor over the same hits, with nothing changed in
/// between, leaves the sensor and the ghost sensor as the first tick left
/// them.
pub proof fn lemma_update_twice(
    toggle: Option<Toggle>,
    entity: u64,
    subservient: Option<SubservientSensor>,
    owner_layers: Option<Layers>,
    sensor: ProximitySensor,
    ghost: Option<Seq<ProximitySensorOutput>>,
    hits: Seq<CastHit>,
)
    ensures
        ({
            let once = sensor_after(toggle, entity, subservient, owner_layers, sensor, hits);
            sensor_after(toggle, entity, subservient, owner_layers, once, hits) == once
        }),
        ({
            let once = sensor_after(toggle, entity, subservient, owner_layers, sensor, hits);
            let ghost_once = ghost_after(
                toggle,
                entity,
                subservient,
                owner_layers,
                sensor,
                ghost,
                hits,
            );
            ghost_after(toggle, entity, subservient, owner_layers, once, ghost_once, hits)
                == ghost_once
        }),
{
}

} // verus!
