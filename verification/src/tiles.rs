//! Which tiles of a still past the texture limit are wanted, claimed, and
//! resident. The geometry that turns a view into tiles stays outside.
use crate::actions::Action;
use crate::files::FileId;
use crate::state::{Shared, SharedModel, Viewer, ViewerModel};
use crate::store::Texture;
use crate::time::{elapsed, Duration, Instant};
use crate::window::{wt, Window, Wt};
use std::collections::HashMap;
use vstd::prelude::*;

verus! {

/// One tile: its level of detail and its place in that level's grid.
#[derive(Clone, Copy, PartialEq, Eq, Structural, Debug)]
pub struct TileKey {
    pub lod: u32,
    pub col: u32,
    pub row: u32,
}

/// A tile in production, and since when.
#[derive(Clone, Copy, PartialEq, Eq, Structural, Debug)]
pub struct TileClaim {
    pub tile: TileKey,
    pub since: Instant,
}

/// How one tile production ended.
#[derive(Clone, Copy, PartialEq, Eq, Structural, Debug)]
pub enum TileOutcome {
    /// Uploaded and ready to install.
    Ready,
    /// Bailed before the resample: the view moved to another level.
    Canceled,
    /// The resample or upload failed.
    Failed,
}

/// The tiles of one grid: the resident ones, and the ones in production.
pub struct Grid {
    pub resident: Vec<TileKey>,
    pub claims: Vec<TileClaim>,
}

/// What a [`Grid`] holds.
pub struct GridModel {
    pub resident: Seq<TileKey>,
    pub claims: Seq<TileClaim>,
}

impl View for Grid {
    type V = GridModel;

    open spec fn view(&self) -> GridModel {
        GridModel { resident: self.resident@, claims: self.claims@ }
    }
}

/// The claims on other tiles.
pub open spec fn other_claims(claims: Seq<TileClaim>, tile: TileKey) -> Seq<TileClaim> {
    claims.filter(|c: TileClaim| c.tile != tile)
}

/// Whether `tile` is in production and not overdue.
pub open spec fn in_production(
    claims: Seq<TileClaim>,
    tile: TileKey,
    now: Instant,
    ttl: Duration,
) -> bool {
    exists|i: int|
        0 <= i < claims.len() && (#[trigger] claims[i]).tile == tile && elapsed(
            now,
            claims[i].since,
        ).nanos < ttl.nanos
}

impl GridModel {
    /// Whether a demand for `tile` starts a production: it is neither resident
    /// nor in production.
    pub open spec fn claimable(self, tile: TileKey, now: Instant, ttl: Duration) -> bool {
        !self.resident.contains(tile) && !in_production(self.claims, tile, now, ttl)
    }

    pub open spec fn claimed(self, tile: TileKey, now: Instant) -> GridModel {
        GridModel {
            claims: other_claims(self.claims, tile).push(TileClaim { tile, since: now }),
            ..self
        }
    }

    pub open spec fn settled(self, tile: TileKey) -> GridModel {
        GridModel { claims: other_claims(self.claims, tile), ..self }
    }

    pub open spec fn installed(self, tile: TileKey) -> GridModel {
        if self.resident.contains(tile) {
            self
        } else {
            GridModel { resident: self.resident.push(tile), ..self }
        }
    }

    /// The grid after a demand for each of `tiles` in turn, and the ones whose
    /// production that starts.
    pub open spec fn demanded(self, tiles: Seq<TileKey>, now: Instant, ttl: Duration) -> (
        GridModel,
        Seq<TileKey>,
    )
        decreases tiles.len(),
    {
        if tiles.len() == 0 {
            (self, Seq::empty())
        } else {
            let (g, started) = self.demanded(tiles.drop_last(), now, ttl);
            let tile = tiles.last();
            if g.claimable(tile, now, ttl) {
                (g.claimed(tile, now), started.push(tile))
            } else {
                (g, started)
            }
        }
    }
}

impl Grid {
    pub fn new() -> (grid: Grid)
        ensures
            grid@ == (GridModel { resident: Seq::empty(), claims: Seq::empty() }),
    {
        Grid { resident: Vec::new(), claims: Vec::new() }
    }

    /// Whether `tile` is resident.
    pub fn has(&self, tile: TileKey) -> (yes: bool)
        ensures
            yes == self@.resident.contains(tile),
    {
        let mut i: usize = 0;
        while i < self.resident.len()
            invariant
                i <= self.resident@.len(),
                forall|j: int| 0 <= j < i ==> self.resident@[j] != tile,
            decreases self.resident@.len() - i,
        {
            if self.resident[i] == tile {
                return true;
            }
            i = i + 1;
        }
        false
    }

    fn producing(&self, tile: TileKey, now: Instant, ttl: Duration) -> (yes: bool)
        ensures
            yes == in_production(self@.claims, tile, now, ttl),
    {
        let mut i: usize = 0;
        while i < self.claims.len()
            invariant
                i <= self.claims@.len(),
                forall|j: int|
                    0 <= j < i ==> !((#[trigger] self.claims@[j]).tile == tile && elapsed(
                        now,
                        self.claims@[j].since,
                    ).nanos < ttl.nanos),
            decreases self.claims@.len() - i,
        {
            let claim = self.claims[i];
            if claim.tile == tile && now.since(claim.since).nanos < ttl.nanos {
                return true;
            }
            i = i + 1;
        }
        false
    }

    /// Release the claim on `tile`.
    pub fn settle(&mut self, tile: TileKey)
        ensures
            final(self)@ == old(self)@.settled(tile),
    {
        let mut kept: Vec<TileClaim> = Vec::new();
        let mut i: usize = 0;
        let ghost keep = |c: TileClaim| c.tile != tile;
        while i < self.claims.len()
            invariant
                i <= self.claims@.len(),
                kept@ == self.claims@.take(i as int).filter(keep),
                keep == (|c: TileClaim| c.tile != tile),
            decreases self.claims@.len() - i,
        {
            let claim = self.claims[i];
            proof {
                reveal(Seq::filter);
                assert(self.claims@.take(i + 1).drop_last() =~= self.claims@.take(i as int));
                assert(self.claims@.take(i + 1).last() == claim);
            }
            if claim.tile != tile {
                kept.push(claim);
            }
            i = i + 1;
        }
        assert(self.claims@.take(i as int) =~= self.claims@);
        self.claims = kept;
    }

    /// Claim `tile` for production, unless it is resident or in production.
    pub fn try_claim(&mut self, tile: TileKey, now: Instant, ttl: Duration) -> (claimed: bool)
        ensures
            claimed == old(self)@.claimable(tile, now, ttl),
            final(self)@ == if claimed {
                old(self)@.claimed(tile, now)
            } else {
                old(self)@
            },
    {
        if self.has(tile) || self.producing(tile, now, ttl) {
            return false;
        }
        self.settle(tile);
        self.claims.push(TileClaim { tile, since: now });
        true
    }

    /// Restart the clock of the claim on `tile` as its work begins.
    pub fn refresh_claim(&mut self, tile: TileKey, now: Instant)
        ensures
            final(self)@ == old(self)@.claimed(tile, now),
    {
        self.settle(tile);
        self.claims.push(TileClaim { tile, since: now });
    }

    /// Install a produced tile.
    pub fn install(&mut self, tile: TileKey)
        ensures
            final(self)@ == old(self)@.installed(tile),
    {
        if !self.has(tile) {
            self.resident.push(tile);
        }
    }

    /// Demand each of the first `limit` tiles, returning the ones whose
    /// production that starts.
    pub fn demand(
        &mut self,
        tiles: &Vec<TileKey>,
        limit: usize,
        now: Instant,
        ttl: Duration,
    ) -> (started: Vec<TileKey>)
        ensures
            ({
                let wanted = first_tiles(tiles@, limit);
                &&& final(self)@ == old(self)@.demanded(wanted, now, ttl).0
                &&& started@ == old(self)@.demanded(wanted, now, ttl).1
            }),
    {
        let n: usize = if limit < tiles.len() {
            limit
        } else {
            tiles.len()
        };
        let ghost before = self@;
        let ghost wanted = first_tiles(tiles@, limit);
        let mut started: Vec<TileKey> = Vec::new();
        let mut i: usize = 0;
        assert(wanted.take(0) =~= Seq::empty());
        while i < n
            invariant
                i <= n,
                n == wanted.len(),
                n <= tiles@.len(),
                wanted == tiles@.take(n as int),
                self@ == before.demanded(wanted.take(i as int), now, ttl).0,
                started@ == before.demanded(wanted.take(i as int), now, ttl).1,
            decreases n - i,
        {
            let tile = tiles[i];
            if self.try_claim(tile, now, ttl) {
                started.push(tile);
            }
            i = i + 1;
            assert(wanted.take(i as int).drop_last() =~= wanted.take(i - 1));
            assert(wanted.take(i as int).last() == tile);
        }
        assert(wanted.take(i as int) =~= wanted);
        started
    }
}

pub open spec fn first_tiles(tiles: Seq<TileKey>, limit: usize) -> Seq<TileKey> {
    if limit < tiles.len() {
        tiles.take(limit as int)
    } else {
        tiles.take(tiles.len() as int)
    }
}

/// The tile state of one pyramid.
pub struct TileSet {
    /// The level the view wants; queued productions for others bail.
    pub wanted_lod: u32,
    pub levels: Grid,
    /// The size the exact layer is cut for.
    pub exact_target: (u32, u32),
    pub exact: Grid,
}

/// What a [`TileSet`] holds.
pub struct TileSetModel {
    pub wanted_lod: u32,
    pub levels: GridModel,
    pub exact_target: (u32, u32),
    pub exact: GridModel,
}

impl View for TileSet {
    type V = TileSetModel;

    open spec fn view(&self) -> TileSetModel {
        TileSetModel {
            wanted_lod: self.wanted_lod,
            levels: self.levels@,
            exact_target: self.exact_target,
            exact: self.exact@,
        }
    }
}

/// What the current view wants of a tiled still, worked out from its geometry.
pub struct TileView {
    /// Whether the displayed image fits one texture.
    pub fits: bool,
    /// The size the last draw spanned, zero before the first.
    pub shown: (u32, u32),
    /// The size of the base layer.
    pub base: Option<(u32, u32)>,
    /// The level of detail the zoom asks for.
    pub level: u32,
    /// The visible tiles and a margin around them, in draw order: of the exact
    /// layer if the image fits, else of the level.
    pub tiles: Vec<TileKey>,
}

/// A tile to produce.
#[derive(Clone, Copy, PartialEq, Eq, Debug)]
pub struct TileJob {
    pub tile: TileKey,
    /// The size to cut it for, for a tile of the exact layer.
    pub exact: Option<(u32, u32)>,
}

pub open spec fn tile_jobs(tiles: Seq<TileKey>, exact: Option<(u32, u32)>) -> Seq<TileJob> {
    tiles.map_values(|tile: TileKey| TileJob { tile, exact })
}

impl TileSetModel {
    /// The exact layer started over if it was cut for another size.
    pub open spec fn exact_for(self, target: (u32, u32)) -> TileSetModel {
        if self.exact_target == target {
            self
        } else {
            TileSetModel {
                exact_target: target,
                exact: GridModel { resident: Seq::empty(), claims: Seq::empty() },
                ..self
            }
        }
    }

    /// A tile of the exact layer taken in: its claim is released and, if it
    /// landed, it is installed. One cut for another size is dropped.
    pub open spec fn exact_settled(
        self,
        target: (u32, u32),
        tile: TileKey,
        landed: bool,
    ) -> TileSetModel {
        if self.exact_target != target {
            self
        } else {
            TileSetModel {
                exact: if landed {
                    self.exact.settled(tile).installed(tile)
                } else {
                    self.exact.settled(tile)
                },
                ..self
            }
        }
    }

    /// A demand pass: a resting view that fits one texture is served by the
    /// exact layer, unless the base already has the shown size; a larger one by
    /// the tiles of its level.
    pub open spec fn demanded(
        self,
        view: TileView,
        limit: usize,
        now: Instant,
        ttl: Duration,
    ) -> (TileSetModel, Seq<TileJob>) {
        let wanted = first_tiles(view.tiles@, limit);
        if view.fits {
            if view.shown == (0u32, 0u32) || view.base == Some(view.shown) {
                (self, Seq::empty())
            } else {
                let set = self.exact_for(view.shown);
                let (exact, started) = set.exact.demanded(wanted, now, ttl);
                (TileSetModel { exact, ..set }, tile_jobs(started, Some(view.shown)))
            }
        } else {
            let (levels, started) = self.levels.demanded(wanted, now, ttl);
            (
                TileSetModel { wanted_lod: view.level, levels, ..self },
                tile_jobs(started, None),
            )
        }
    }
}

fn jobs_of(tiles: &Vec<TileKey>, exact: Option<(u32, u32)>) -> (jobs: Vec<TileJob>)
    ensures
        jobs@ == tile_jobs(tiles@, exact),
{
    let mut jobs: Vec<TileJob> = Vec::new();
    let mut i: usize = 0;
    while i < tiles.len()
        invariant
            i <= tiles@.len(),
            jobs@ == tile_jobs(tiles@.take(i as int), exact),
        decreases tiles@.len() - i,
    {
        jobs.push(TileJob { tile: tiles[i], exact });
        i = i + 1;
        assert(jobs@ =~= tile_jobs(tiles@.take(i as int), exact));
    }
    assert(tiles@.take(i as int) =~= tiles@);
    jobs
}

impl TileSet {
    pub fn new() -> (set: TileSet)
        ensures
            set@ == no_tiles(),
    {
        TileSet { wanted_lod: 0, levels: Grid::new(), exact_target: (0, 0), exact: Grid::new() }
    }

    /// Start the exact layer over if it was cut for another size.
    pub fn ensure_exact(&mut self, target: (u32, u32))
        ensures
            final(self)@ == old(self)@.exact_for(target),
    {
        if self.exact_target.0 != target.0 || self.exact_target.1 != target.1 {
            self.exact_target = target;
            self.exact = Grid::new();
        }
    }

    /// Request the tiles the current view misses, at most `limit` of them. An
    /// unfinished production older than `ttl` no longer counts.
    pub fn claim_tiles(
        &mut self,
        view: &TileView,
        limit: usize,
        now: Instant,
        ttl: Duration,
    ) -> (jobs: Vec<TileJob>)
        ensures
            final(self)@ == old(self)@.demanded(*view, limit, now, ttl).0,
            jobs@ == old(self)@.demanded(*view, limit, now, ttl).1,
    {
        if view.fits {
            let blank: bool = view.shown.0 == 0 && view.shown.1 == 0;
            let served: bool = match view.base {
                Some(base) => base.0 == view.shown.0 && base.1 == view.shown.1,
                None => false,
            };
            if blank || served {
                return Vec::new();
            }
            self.ensure_exact(view.shown);
            let started = self.exact.demand(&view.tiles, limit, now, ttl);
            jobs_of(&started, Some(view.shown))
        } else {
            self.wanted_lod = view.level;
            let started = self.levels.demand(&view.tiles, limit, now, ttl);
            jobs_of(&started, None)
        }
    }

    /// Whether a queued production of `tile` is still worth its work: the view
    /// wants its level and the tile has not landed meanwhile.
    pub fn still_wanted(&self, tile: TileKey) -> (yes: bool)
        ensures
            yes == (self@.wanted_lod == tile.lod && !self@.levels.resident.contains(tile)),
    {
        self.wanted_lod == tile.lod && !self.levels.has(tile)
    }

    /// A queued production of `tile` reaches the front: its claim's clock starts
    /// over if its work is still wanted.
    pub fn begin_tile(&mut self, tile: TileKey, now: Instant) -> (go: bool)
        ensures
            go == (old(self)@.wanted_lod == tile.lod && !old(self)@.levels.resident.contains(tile)),
            final(self)@ == if go {
                TileSetModel { levels: old(self)@.levels.claimed(tile, now), ..old(self)@ }
            } else {
                old(self)@
            },
    {
        if self.still_wanted(tile) {
            self.levels.refresh_claim(tile, now);
            true
        } else {
            false
        }
    }

    /// Whether a queued production for the exact layer is still for its size.
    pub fn exact_current(&self, target: (u32, u32)) -> (yes: bool)
        ensures
            yes == (self@.exact_target == target),
    {
        self.exact_target.0 == target.0 && self.exact_target.1 == target.1
    }

    /// Take in a tile of the exact layer cut for `target`.
    pub fn settle_exact(&mut self, target: (u32, u32), tile: TileKey, landed: bool)
        ensures
            final(self)@ == old(self)@.exact_settled(target, tile, landed),
    {
        if self.exact_current(target) {
            self.exact.settle(tile);
            if landed {
                self.exact.install(tile);
            }
        }
    }
}

/// The tile state of one tiled texture.
pub struct Pyramid {
    /// The texture's id.
    pub id: u64,
    pub set: TileSet,
}

/// What a [`Pyramid`] holds.
pub struct PyramidModel {
    pub id: u64,
    pub set: TileSetModel,
}

impl View for Pyramid {
    type V = PyramidModel;

    open spec fn view(&self) -> PyramidModel {
        PyramidModel { id: self.id, set: self.set@ }
    }
}

/// The tile state of every image demanded so far: one pyramid per file.
pub struct Pyramids {
    pub map: HashMap<FileId, Pyramid>,
}

pub open spec fn pyramid_models(map: Map<FileId, Pyramid>) -> Map<FileId, PyramidModel> {
    map.map_values(|p: Pyramid| p@)
}

impl View for Pyramids {
    type V = Map<FileId, PyramidModel>;

    open spec fn view(&self) -> Map<FileId, PyramidModel> {
        pyramid_models(self.map@)
    }
}

/// No tiles wanted, claimed, or resident.
pub open spec fn no_tiles() -> TileSetModel {
    TileSetModel {
        wanted_lod: 0,
        levels: GridModel { resident: Seq::empty(), claims: Seq::empty() },
        exact_target: (0, 0),
        exact: GridModel { resident: Seq::empty(), claims: Seq::empty() },
    }
}

/// The tile state of `file`'s pyramid `id`, empty if it is another's.
pub open spec fn tiles_of(
    pyramids: Map<FileId, PyramidModel>,
    file: FileId,
    id: u64,
) -> TileSetModel {
    if pyramids.contains_key(file) && pyramids[file].id == id {
        pyramids[file].set
    } else {
        no_tiles()
    }
}

impl Pyramids {
    pub fn new() -> (pyramids: Pyramids)
        ensures
            pyramids@ == Map::<FileId, PyramidModel>::empty(),
    {
        let pyramids = Pyramids { map: HashMap::new() };
        assert(pyramids@ =~= Map::<FileId, PyramidModel>::empty());
        pyramids
    }

    /// The tile state of `file`'s pyramid `id`, for reading.
    pub fn get(&self, file: FileId, id: u64) -> (set: Option<&TileSet>)
        ensures
            match set {
                Some(set) => self@.contains_key(file) && self@[file].id == id && set@
                    == self@[file].set,
                None => !self@.contains_key(file) || self@[file].id != id,
            },
    {
        match self.map.get(&file) {
            Some(pyramid) => if pyramid.id == id {
                Some(&pyramid.set)
            } else {
                None
            },
            None => None,
        }
    }

    /// Take the tile state of `file`'s pyramid `id` out, to be put back.
    fn take(&mut self, file: FileId, id: u64) -> (set: TileSet)
        ensures
            set@ == tiles_of(old(self)@, file, id),
            final(self)@ == old(self)@.remove(file),
    {
        let ghost before = self.map@;
        let set = match self.map.remove(&file) {
            Some(pyramid) => if pyramid.id == id {
                pyramid.set
            } else {
                TileSet::new()
            },
            None => TileSet::new(),
        };
        assert(self@ =~= pyramid_models(before).remove(file));
        set
    }

    fn put(&mut self, file: FileId, id: u64, set: TileSet)
        ensures
            final(self)@ == old(self)@.insert(file, PyramidModel { id, set: set@ }),
    {
        let ghost before = self.map@;
        let pyramid = Pyramid { id, set };
        let ghost added = pyramid;
        self.map.insert(file, pyramid);
        assert(self@ =~= pyramid_models(before).insert(file, added@));
    }
}

/// The shared state with `file`'s tile state replaced.
pub open spec fn with_tiles(
    s: SharedModel,
    file: FileId,
    id: u64,
    set: TileSetModel,
) -> SharedModel {
    SharedModel { tiles: s.tiles.insert(file, PyramidModel { id, set }), ..s }
}

/// The tiled texture on screen whose tiles may be demanded: that of a still
/// past the texture limit, resident as a pyramid with its pixels.
pub open spec fn tiled_on_screen(v: ViewerModel, s: SharedModel, max_dim: u32) -> Option<Texture> {
    match (v.displayed.original_size(), v.displayed_path) {
        (Some((w, h)), Some(file)) => match s.store.texture(file) {
            Some(texture) if (w > max_dim || h > max_dim) && texture.tiled && s.store.ram(file)
                is Some => Some(texture),
            _ => None,
        },
        _ => None,
    }
}

/// The tile pyramid on screen, if there is one.
pub fn fire_tiles(viewer: &Viewer, shared: &Shared, max_dim: u32) -> (pyramid: Option<Texture>)
    ensures
        pyramid == tiled_on_screen(viewer@, shared@, max_dim),
{
    match (viewer.displayed.original_size(), viewer.displayed_path) {
        (Some((w, h)), Some(file)) => {
            if w <= max_dim && h <= max_dim {
                return None;
            }
            match (shared.store.texture(file), shared.store.ram(file)) {
                (Some(texture), Some(_)) => if texture.tiled {
                    Some(texture)
                } else {
                    None
                },
                _ => None,
            }
        },
        _ => None,
    }
}

/// Whether a production was cut for the pyramid now resident.
pub open spec fn same_pyramid(s: SharedModel, file: FileId, pyramid: u64) -> bool {
    match s.store.texture(file) {
        Some(texture) => texture.id == pyramid && texture.tiled,
        None => false,
    }
}

fn is_pyramid(shared: &Shared, file: FileId, pyramid: u64) -> (yes: bool)
    ensures
        yes == same_pyramid(shared@, file, pyramid),
{
    match shared.store.texture(file) {
        Some(texture) => texture.id == pyramid && texture.tiled,
        None => false,
    }
}

/// Request the tiles the view misses of the pyramid `id` that `file` is resident
/// as, at most `limit` of them.
pub fn demand_tiles(
    shared: &mut Shared,
    file: FileId,
    id: u64,
    view: &TileView,
    limit: usize,
    now: Instant,
    ttl: Duration,
) -> (jobs: Vec<TileJob>)
    ensures
        ({
            let (set, started) = tiles_of(old(shared)@.tiles, file, id).demanded(
                *view,
                limit,
                now,
                ttl,
            );
            &&& final(shared)@ == with_tiles(old(shared)@, file, id, set)
            &&& jobs@ == started
        }),
{
    let ghost before = shared@;
    let mut set = shared.tiles.take(file, id);
    let jobs = set.claim_tiles(view, limit, now, ttl);
    let ghost after = set@;
    shared.tiles.put(file, id, set);
    assert(shared@.tiles =~= before.tiles.insert(file, PyramidModel { id, set: after }));
    jobs
}

/// Whether a queued production is still worth its work.
pub open spec fn wanted_still(set: TileSetModel, job: TileJob) -> bool {
    match job.exact {
        Some(target) => set.exact_target == target,
        None => set.wanted_lod == job.tile.lod && !set.levels.resident.contains(job.tile),
    }
}

/// The tile state once a queued production reaches the front: the claim's clock
/// of a tile of its level starts over as its work begins.
pub open spec fn production_begun(set: TileSetModel, job: TileJob, now: Instant) -> TileSetModel {
    if job.exact is None && wanted_still(set, job) {
        TileSetModel { levels: set.levels.claimed(job.tile, now), ..set }
    } else {
        set
    }
}

/// A queued production reaches the front. `true` if its work is still wanted.
pub fn begin_production(
    shared: &mut Shared,
    file: FileId,
    id: u64,
    job: TileJob,
    now: Instant,
) -> (go: bool)
    ensures
        ({
            let set = tiles_of(old(shared)@.tiles, file, id);
            &&& go == wanted_still(set, job)
            &&& final(shared)@ == with_tiles(
                old(shared)@,
                file,
                id,
                production_begun(set, job, now),
            )
        }),
{
    let ghost before = shared@;
    let mut set = shared.tiles.take(file, id);
    let go: bool = match job.exact {
        Some(target) => set.exact_current(target),
        None => set.begin_tile(job.tile, now),
    };
    let ghost after = set@;
    shared.tiles.put(file, id, set);
    assert(shared@.tiles =~= before.tiles.insert(file, PyramidModel { id, set: after }));
    go
}

/// What a finished production does to the tile state: its claim is released,
/// and a good tile installed. One cut for a pyramid since replaced is dropped.
pub open spec fn tile_landed(
    s: SharedModel,
    file: FileId,
    pyramid: u64,
    tile: TileKey,
    outcome: TileOutcome,
) -> SharedModel {
    if same_pyramid(s, file, pyramid) {
        let set = tiles_of(s.tiles, file, pyramid);
        with_tiles(
            s,
            file,
            pyramid,
            TileSetModel {
                levels: if outcome is Ready {
                    set.levels.settled(tile).installed(tile)
                } else {
                    set.levels.settled(tile)
                },
                ..set
            },
        )
    } else {
        s
    }
}

/// A finished tile production taken in. A canceled tile of the wanted level is
/// demanded again at once, a failed one after a pause.
#[verifier::opaque]
pub open spec fn tile_taken_in(
    t: Wt,
    file: FileId,
    pyramid: u64,
    tile: TileKey,
    outcome: TileOutcome,
) -> Wt {
    let landed = Wt { s: tile_landed(t.s, file, pyramid, tile, outcome), ..t };
    if !same_pyramid(t.s, file, pyramid) {
        landed
    } else {
        match outcome {
            TileOutcome::Ready => landed,
            TileOutcome::Canceled => if tiles_of(t.s.tiles, file, pyramid).wanted_lod
                == tile.lod {
                landed.act(Action::DemandTiles)
            } else {
                landed
            },
            TileOutcome::Failed => landed.act(
                Action::SettleTiles {
                    epoch: t.w.state.value.tile_epoch,
                    delay: Duration { nanos: 250_000_000 },
                },
            ),
        }
    }
}

/// Take in a finished tile production.
pub fn tile_ready(
    win: &Window,
    shared: &mut Shared,
    file: FileId,
    pyramid: u64,
    tile: TileKey,
    outcome: TileOutcome,
    out: &mut Vec<Action>,
)
    ensures
        wt(win@, final(shared)@, final(out)@) == tile_taken_in(
            wt(win@, old(shared)@, old(out)@),
            file,
            pyramid,
            tile,
            outcome,
        ),
{
    proof {
        reveal(tile_taken_in);
    }
    if !is_pyramid(shared, file, pyramid) {
        return ;
    }
    let ghost before = shared@;
    let mut set = shared.tiles.take(file, pyramid);
    set.levels.settle(tile);
    let wanted: bool = set.wanted_lod == tile.lod;
    match outcome {
        TileOutcome::Ready => set.levels.install(tile),
        TileOutcome::Canceled => {
            if wanted {
                out.push(Action::DemandTiles);
            }
        },
        TileOutcome::Failed => out.push(
            Action::SettleTiles {
                epoch: win.state.value.tile_epoch,
                delay: Duration { nanos: 250_000_000 },
            },
        ),
    }
    let ghost after = set@;
    shared.tiles.put(file, pyramid, set);
    assert(shared@.tiles =~= before.tiles.insert(
        file,
        PyramidModel { id: pyramid, set: after },
    ));
}

/// How a tile production ended: bailed before its work, or cut and uploaded, or
/// failed at either.
pub fn tile_outcome(begun: bool, cut: bool, uploaded: bool) -> (outcome: TileOutcome)
    ensures
        outcome == if !begun {
            TileOutcome::Canceled
        } else if cut && uploaded {
            TileOutcome::Ready
        } else {
            TileOutcome::Failed
        },
{
    if !begun {
        TileOutcome::Canceled
    } else if cut && uploaded {
        TileOutcome::Ready
    } else {
        TileOutcome::Failed
    }
}

/// What a finished production for the exact layer does to the tile state. One
/// cut for a pyramid since replaced is dropped.
#[verifier::opaque]
pub open spec fn exact_landed(
    s: SharedModel,
    file: FileId,
    pyramid: u64,
    target: (u32, u32),
    tile: TileKey,
    landed: bool,
) -> SharedModel {
    if same_pyramid(s, file, pyramid) {
        with_tiles(
            s,
            file,
            pyramid,
            tiles_of(s.tiles, file, pyramid).exact_settled(target, tile, landed),
        )
    } else {
        s
    }
}

/// Take in a finished production for the exact layer.
pub fn exact_ready(
    shared: &mut Shared,
    file: FileId,
    pyramid: u64,
    target: (u32, u32),
    tile: TileKey,
    landed: bool,
)
    ensures
        final(shared)@ == exact_landed(old(shared)@, file, pyramid, target, tile, landed),
{
    proof {
        reveal(exact_landed);
    }
    if !is_pyramid(shared, file, pyramid) {
        return ;
    }
    let ghost before = shared@;
    let mut set = shared.tiles.take(file, pyramid);
    set.settle_exact(target, tile, landed);
    let ghost after = set@;
    shared.tiles.put(file, pyramid, set);
    assert(shared@.tiles =~= before.tiles.insert(
        file,
        PyramidModel { id: pyramid, set: after },
    ));
}

proof fn lemma_claimed_keeps(g: GridModel, a: TileKey, b: TileKey, now: Instant, ttl: Duration)
    requires
        ttl.nanos > 0,
        g.resident.contains(a) || in_production(g.claims, a, now, ttl) || a == b,
    ensures
        !g.claimed(b, now).claimable(a, now, ttl),
{
    let claims = g.claimed(b, now).claims;
    let rest = other_claims(g.claims, b);
    if a == b {
        assert(claims[rest.len() as int].tile == a);
    } else if in_production(g.claims, a, now, ttl) {
        let i = choose|i: int|
            0 <= i < g.claims.len() && (#[trigger] g.claims[i]).tile == a && elapsed(
                now,
                g.claims[i].since,
            ).nanos < ttl.nanos;
        g.claims.lemma_filter_contains(|c: TileClaim| c.tile != b, i);
        let j = choose|j: int| 0 <= j < rest.len() && rest[j] == g.claims[i];
        assert(claims[j] == g.claims[i]);
    }
}

/// A demand pass leaves nothing to claim among the tiles it looked at, so an
/// unchanged view starts no production twice.
pub proof fn law_demand_claims_everything(
    g: GridModel,
    tiles: Seq<TileKey>,
    now: Instant,
    ttl: Duration,
    i: int,
)
    requires
        ttl.nanos > 0,
        0 <= i < tiles.len(),
    ensures
        !g.demanded(tiles, now, ttl).0.claimable(tiles[i], now, ttl),
    decreases tiles.len(),
{
    let (before, _) = g.demanded(tiles.drop_last(), now, ttl);
    let last = tiles.last();
    if i < tiles.len() - 1 {
        law_demand_claims_everything(g, tiles.drop_last(), now, ttl, i);
        assert(tiles.drop_last()[i] == tiles[i]);
        if before.claimable(last, now, ttl) {
            lemma_claimed_keeps(before, tiles[i], last, now, ttl);
        }
    } else if before.claimable(last, now, ttl) {
        lemma_claimed_keeps(before, last, last, now, ttl);
    }
}

/// A tile that landed is never produced again.
pub proof fn law_landed_tile_is_not_claimed_again(
    s: SharedModel,
    file: FileId,
    pyramid: u64,
    tile: TileKey,
    now: Instant,
    ttl: Duration,
)
    requires
        same_pyramid(s, file, pyramid),
    ensures
        !tiles_of(
            tile_landed(s, file, pyramid, tile, TileOutcome::Ready).tiles,
            file,
            pyramid,
        ).levels.claimable(tile, now, ttl),
{
    let before = tiles_of(s.tiles, file, pyramid).levels.settled(tile);
    let after = before.installed(tile);
    if !before.resident.contains(tile) {
        assert(after.resident[before.resident.len() as int] == tile);
    }
}

} // verus!
