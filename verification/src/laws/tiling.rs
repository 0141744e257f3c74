//! Which tiles of a large image are produced, and what becomes of them.
use crate::actions::Action;
use crate::dispatch::dispatched;
use crate::files::FileId;
use crate::laws::controls::picture_size;
use crate::media_tasks::Ctx;
use crate::message::{MediaMessage, Message};
use crate::state::{SharedModel, ViewerModel};
use crate::tiles::{
    exact_landed, first_tiles, in_production, other_claims, production_begun, same_pyramid,
    tile_taken_in, tiled_on_screen, tiles_of, wanted_still, GridModel, TileClaim, TileJob, TileKey,
    TileOutcome, TileSetModel, TileView,
};
use crate::time::{elapsed, Duration, Instant};
use crate::window::Wt;
use vstd::prelude::*;

verus! {

/// Whether `tile` is to be produced: it is not there, and no claim on it is
/// younger than the time a production may take.
pub open spec fn missing(g: GridModel, tile: TileKey, now: Instant, ttl: Duration) -> bool {
    &&& !g.resident.contains(tile)
    &&& forall|i: int|
        0 <= i < g.claims.len() && (#[trigger] g.claims[i]).tile == tile && g.claims[i].since.nanos
            <= now.nanos ==> now.nanos - g.claims[i].since.nanos >= ttl.nanos
    &&& ttl.nanos > 0 ==> forall|i: int|
        0 <= i < g.claims.len() && (#[trigger] g.claims[i]).tile == tile
            ==> g.claims[i].since.nanos <= now.nanos
}

proof fn lemma_missing(g: GridModel, tile: TileKey, now: Instant, ttl: Duration)
    ensures
        missing(g, tile, now, ttl) == g.claimable(tile, now, ttl),
{
    if missing(g, tile, now, ttl) && in_production(g.claims, tile, now, ttl) {
        let i = choose|i: int|
            0 <= i < g.claims.len() && (#[trigger] g.claims[i]).tile == tile && elapsed(
                now,
                g.claims[i].since,
            ).nanos < ttl.nanos;
        assert(g.claims[i].tile == tile);
    }
    if g.claimable(tile, now, ttl) {
        assert forall|i: int|
            0 <= i < g.claims.len() && (#[trigger] g.claims[i]).tile == tile implies elapsed(
            now,
            g.claims[i].since,
        ).nanos >= ttl.nanos by {}
    }
}

proof fn lemma_claim_elsewhere(
    g: GridModel,
    tile: TileKey,
    other: TileKey,
    now: Instant,
    ttl: Duration,
)
    requires
        other != tile,
    ensures
        g.claimed(tile, now).claimable(other, now, ttl) == g.claimable(other, now, ttl),
{
    let rest = other_claims(g.claims, tile);
    let after = g.claimed(tile, now).claims;
    let keep = |c: TileClaim| c.tile != tile;
    if in_production(g.claims, other, now, ttl) {
        let i = choose|i: int|
            0 <= i < g.claims.len() && (#[trigger] g.claims[i]).tile == other && elapsed(
                now,
                g.claims[i].since,
            ).nanos < ttl.nanos;
        g.claims.lemma_filter_contains(keep, i);
        let j = choose|j: int| 0 <= j < rest.len() && rest[j] == g.claims[i];
        assert(after[j] == g.claims[i]);
    }
    if in_production(after, other, now, ttl) {
        let j = choose|j: int|
            0 <= j < after.len() && (#[trigger] after[j]).tile == other && elapsed(
                now,
                after[j].since,
            ).nanos < ttl.nanos;
        assert(after[j] == rest[j]);
        assert(rest.contains(rest[j]));
        g.claims.lemma_filter_contains_rev(keep, rest[j]);
        let i = choose|i: int| 0 <= i < g.claims.len() && g.claims[i] == rest[j];
        assert(g.claims[i].tile == other);
    }
}

/// A demand pass starts exactly the tiles it was asked for that are missing, each
/// of them once, and takes none away.
pub proof fn law_demand_starts_what_is_missing(
    g: GridModel,
    tiles: Seq<TileKey>,
    now: Instant,
    ttl: Duration,
    tile: TileKey,
)
    requires
        ttl.nanos > 0,
    ensures
        ({
            let (after, started) = g.demanded(tiles, now, ttl);
            &&& started.contains(tile) <==> tiles.contains(tile) && missing(g, tile, now, ttl)
            &&& after.resident == g.resident
            &&& started.no_duplicates()
        }),
{
    lemma_missing(g, tile, now, ttl);
    lemma_demanded(g, tiles, now, ttl, tile);
    lemma_started_once(g, tiles, now, ttl);
}

proof fn lemma_demanded(
    g: GridModel,
    tiles: Seq<TileKey>,
    now: Instant,
    ttl: Duration,
    tile: TileKey,
)
    requires
        ttl.nanos > 0,
    ensures
        ({
            let (after, started) = g.demanded(tiles, now, ttl);
            &&& started.contains(tile) <==> tiles.contains(tile) && g.claimable(tile, now, ttl)
            &&& after.claimable(tile, now, ttl) <==> g.claimable(tile, now, ttl)
                && !tiles.contains(tile)
            &&& after.resident == g.resident
        }),
    decreases tiles.len(),
{
    if tiles.len() > 0 {
        let rest = tiles.drop_last();
        let last = tiles.last();
        let (u, before) = g.demanded(rest, now, ttl);
        lemma_demanded(g, rest, now, ttl, tile);
        let (after, started) = g.demanded(tiles, now, ttl);
        assert(tiles.contains(tile) <==> rest.contains(tile) || last == tile) by {
            if tiles.contains(tile) {
                let i = choose|i: int| 0 <= i < tiles.len() && tiles[i] == tile;
                if i < rest.len() {
                    assert(rest[i] == tile);
                }
            }
            if rest.contains(tile) {
                let i = choose|i: int| 0 <= i < rest.len() && rest[i] == tile;
                assert(tiles[i] == tile);
            }
            assert(tiles[tiles.len() - 1] == last);
        }
        if u.claimable(last, now, ttl) {
            assert(started == before.push(last));
            assert(started[before.len() as int] == last);
            if before.contains(tile) {
                let i = choose|i: int| 0 <= i < before.len() && before[i] == tile;
                assert(started[i] == tile);
            }
            if started.contains(tile) && tile != last {
                let i = choose|i: int| 0 <= i < started.len() && started[i] == tile;
                assert(before[i] == tile);
            }
            if tile != last {
                lemma_claim_elsewhere(u, last, tile, now, ttl);
            } else {
                let claims = after.claims;
                assert(claims.last() == (TileClaim { tile, since: now }));
                assert(claims[claims.len() - 1].tile == tile);
                assert(in_production(claims, tile, now, ttl));
            }
        } else {
            assert(started == before);
        }
    }
}

proof fn lemma_started_once(g: GridModel, tiles: Seq<TileKey>, now: Instant, ttl: Duration)
    requires
        ttl.nanos > 0,
    ensures
        g.demanded(tiles, now, ttl).1.no_duplicates(),
    decreases tiles.len(),
{
    if tiles.len() > 0 {
        let rest = tiles.drop_last();
        lemma_started_once(g, rest, now, ttl);
        lemma_demanded(g, rest, now, ttl, tiles.last());
    }
}

/// What a view asks for: where it shows more than fits, the tiles of its level,
/// no more than the limit, from the first on; where the whole image fits, tiles
/// cut at the exact size shown, unless that is what the base texture has or
/// nothing is shown. Tiles cut at another exact size are dropped.
pub proof fn law_view_demands_its_level(
    set: TileSetModel,
    view: TileView,
    limit: usize,
    now: Instant,
    ttl: Duration,
    k: int,
)
    requires
        ttl.nanos > 0,
        0 <= k < set.demanded(view, limit, now, ttl).1.len(),
    ensures
        ({
            let (after, jobs) = set.demanded(view, limit, now, ttl);
            let job = jobs[k];
            &&& exists|i: int|
                0 <= i < limit && i < view.tiles@.len() && #[trigger] view.tiles@[i] == job.tile
            &&& !view.fits ==> {
                &&& job.exact is None
                &&& missing(set.levels, job.tile, now, ttl)
                &&& after.wanted_lod == view.level
                &&& after.exact == set.exact
                &&& after.exact_target == set.exact_target
            }
            &&& view.fits ==> {
                &&& job.exact == Some(view.shown)
                &&& after.exact_target == view.shown
                &&& after.levels == set.levels
                &&& after.wanted_lod == set.wanted_lod
                &&& view.shown != (0u32, 0u32)
                &&& view.base != Some(view.shown)
                &&& set.exact_target == view.shown ==> missing(
                    set.exact,
                    job.tile,
                    now,
                    ttl,
                )
                &&& set.exact_target != view.shown ==> after.exact.resident.len() == 0
            }
        }),
{
    let (after, jobs) = set.demanded(view, limit, now, ttl);
    let wanted = first_tiles(view.tiles@, limit);
    let grid = if view.fits {
        set.exact_for(view.shown).exact
    } else {
        set.levels
    };
    let started = grid.demanded(wanted, now, ttl).1;
    let tile = started[k];
    assert(jobs[k].tile == tile);
    assert(started.contains(tile));
    law_demand_starts_what_is_missing(grid, wanted, now, ttl, tile);
    let i = choose|i: int| 0 <= i < wanted.len() && wanted[i] == tile;
    assert(view.tiles@[i] == tile);
}

/// The pyramid an image's tiles are for: that of its texture, where it is one.
pub open spec fn current_pyramid(s: SharedModel, file: FileId, pyramid: u64) -> bool {
    let minted = s.store.entry(file).minted;
    minted is Some && minted->0.texture.tiled && minted->0.texture.id == pyramid
}

/// A finished tile is there from then on, in the pyramid it was cut for and only
/// while that is the image's; it is under production no longer. A production that
/// was called off is asked for again if the level is still wanted; one that failed
/// is tried again a quarter of a second later.
pub proof fn law_finished_tile_lands(
    before: Wt,
    after: Wt,
    ctx: Ctx,
    file: FileId,
    pyramid: u64,
    tile: TileKey,
    outcome: TileOutcome,
)
    requires
        dispatched(
            before,
            after,
            ctx,
            Message::Media(MediaMessage::TileReady { file, pyramid, tile, outcome }),
        ),
    ensures
        after.w.viewer == before.w.viewer,
        after.s.store == before.s.store,
        !current_pyramid(before.s, file, pyramid) ==> after.s == before.s && after.out
            == before.out,
        current_pyramid(before.s, file, pyramid) ==> {
            let was = tiles_of(before.s.tiles, file, pyramid);
            let set = tiles_of(after.s.tiles, file, pyramid);
            &&& after.s.tiles.contains_key(file)
            &&& after.s.tiles[file].id == pyramid
            &&& set.wanted_lod == was.wanted_lod
            &&& set.exact == was.exact
            &&& set.levels.resident.contains(tile) <==> was.levels.resident.contains(tile)
                || outcome == TileOutcome::Ready
            &&& forall|i: int|
                0 <= i < set.levels.claims.len() ==> (#[trigger] set.levels.claims[i]).tile
                    != tile
            &&& after.out == match outcome {
                TileOutcome::Ready => before.out,
                TileOutcome::Canceled => if was.wanted_lod == tile.lod {
                    before.out.push(Action::DemandTiles)
                } else {
                    before.out
                },
                TileOutcome::Failed => before.out.push(
                    Action::SettleTiles {
                        epoch: before.w.state.value.tile_epoch,
                        delay: Duration { nanos: 250_000_000 },
                    },
                ),
            }
        },
{
    reveal(tile_taken_in);
    assert(current_pyramid(before.s, file, pyramid) == same_pyramid(before.s, file, pyramid));
    if current_pyramid(before.s, file, pyramid) {
        let was = tiles_of(before.s.tiles, file, pyramid);
        let set = tiles_of(after.s.tiles, file, pyramid);
        let keep = |c: TileClaim| c.tile != tile;
        assert forall|i: int| 0 <= i < set.levels.claims.len() implies (
        #[trigger] set.levels.claims[i]).tile != tile by {
            was.levels.claims.lemma_filter_pred(keep, i);
        }
        if outcome == TileOutcome::Ready && !was.levels.resident.contains(tile) {
            assert(set.levels.resident[was.levels.resident.len() as int] == tile);
        }
    }
}

/// A tile cut at an exact size is there from then on if it reached the device and
/// that is still the size shown; it is under production no longer.
pub proof fn law_exact_tile_lands(
    before: Wt,
    after: Wt,
    ctx: Ctx,
    file: FileId,
    pyramid: u64,
    target: (u32, u32),
    tile: TileKey,
    landed: bool,
)
    requires
        dispatched(
            before,
            after,
            ctx,
            Message::Media(
                MediaMessage::ExactReady { file, pyramid, target, tile, landed },
            ),
        ),
    ensures
        after.w.viewer == before.w.viewer,
        after.out == before.out,
        after.s.store == before.s.store,
        !current_pyramid(before.s, file, pyramid) ==> after.s == before.s,
        current_pyramid(before.s, file, pyramid) ==> {
            let was = tiles_of(before.s.tiles, file, pyramid);
            let set = tiles_of(after.s.tiles, file, pyramid);
            &&& set.levels == was.levels
            &&& set.exact_target == was.exact_target
            &&& was.exact_target != target ==> set.exact == was.exact
            &&& was.exact_target == target ==> {
                &&& set.exact.resident.contains(tile) <==> was.exact.resident.contains(tile)
                    || landed
                &&& forall|i: int|
                    0 <= i < set.exact.claims.len() ==> (#[trigger] set.exact.claims[i]).tile
                        != tile
            }
        },
{
    reveal(exact_landed);
    assert(current_pyramid(before.s, file, pyramid) == same_pyramid(before.s, file, pyramid));
    let was = tiles_of(before.s.tiles, file, pyramid);
    if current_pyramid(before.s, file, pyramid) && was.exact_target == target {
        let set = tiles_of(after.s.tiles, file, pyramid);
        let keep = |c: TileClaim| c.tile != tile;
        assert forall|i: int| 0 <= i < set.exact.claims.len() implies (
        #[trigger] set.exact.claims[i]).tile != tile by {
            was.exact.claims.lemma_filter_pred(keep, i);
        }
        if landed && !was.exact.resident.contains(tile) {
            assert(set.exact.resident[was.exact.resident.len() as int] == tile);
        }
    }
}

/// Only the latest rest of the view has its tiles asked for.
pub proof fn law_stale_rest_asks_for_nothing(before: Wt, after: Wt, ctx: Ctx, epoch: u64)
    requires
        dispatched(before, after, ctx, Message::Media(MediaMessage::TilesSettled { epoch })),
    ensures
        after.w.viewer == before.w.viewer,
        after.s == before.s,
        after.out == if epoch == before.w.state.value.tile_epoch {
            before.out.push(Action::DemandTiles)
        } else {
            before.out
        },
{
}

/// The tiles that are on screen: those of an image in the store that is larger
/// than the device takes as one texture and whose texture is cut in tiles.
pub proof fn law_only_large_images_are_tiled(v: ViewerModel, s: SharedModel, max_dim: u32)
    ensures
        ({
            let size = picture_size(v.displayed);
            let (width, height) = size->0;
            let large = size is Some && v.displayed_path is Some && (width > max_dim || height
                > max_dim);
            let entry = s.store.entry(v.displayed_path->0);
            tiled_on_screen(v, s, max_dim) == if large && entry.ram is Some && entry.minted
                is Some && entry.minted->0.texture.tiled {
                Some(entry.minted->0.texture)
            } else {
                None
            }
        }),
{
}

/// A queued production goes ahead while the view still wants it: the same exact
/// size, or the same level with the tile not there yet. One that goes ahead for a
/// level holds its claim from then on; one that does not changes nothing.
pub proof fn law_unwanted_production_is_called_off(
    set: TileSetModel,
    job: TileJob,
    now: Instant,
    ttl: Duration,
)
    requires
        ttl.nanos > 0,
    ensures
        wanted_still(set, job) <==> match job.exact {
            Some(target) => target == set.exact_target,
            None => job.tile.lod == set.wanted_lod && !set.levels.resident.contains(job.tile),
        },
        !wanted_still(set, job) || job.exact is Some ==> production_begun(set, job, now) == set,
        wanted_still(set, job) && job.exact is None ==> {
            let after = production_begun(set, job, now);
            &&& !missing(after.levels, job.tile, now, ttl)
            &&& after.levels.resident == set.levels.resident
            &&& after.exact == set.exact
            &&& after.wanted_lod == set.wanted_lod
        },
{
    if wanted_still(set, job) && job.exact is None {
        let after = production_begun(set, job, now);
        let claims = after.levels.claims;
        assert(claims.last() == (TileClaim { tile: job.tile, since: now }));
        assert(claims[claims.len() - 1].tile == job.tile);
        assert(in_production(claims, job.tile, now, ttl));
        lemma_missing(after.levels, job.tile, now, ttl);
    }
}

} // verus!
