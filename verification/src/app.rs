//! The whole program: shared state, the open windows, and the routing between
//! them.
use crate::actions::{Action, JobZoom, Lane};
use crate::boot::{new_window, seeded_window};
use crate::config::Config;
use crate::dispatch::{dispatch, dispatched, media_message, update_media};
use crate::files::FileId;
use crate::leases::holds;
use crate::media::{error_text, promote_if_waiting, promoted, waiting_for, MediaError};
use crate::media_tasks::{loaded_shown, set_prefetch_scaler, st, Ctx};
use crate::message::{displays_image, shows_image, MediaMessage, Message, VideoMessage};
use crate::navigation::{open_action, open_path};
use crate::state::{Shared, SharedModel, Span, Status};
use crate::store::{AnimStoreModel, Job, Minted, StoreModel, Texture, Tier};
use crate::time::Instant;
use crate::whole::{hold, whole};
use crate::window::{
    close_session, push_text, session_closed, toasted, wt, Coords, ToastKind, Window, WindowModel,
    WindowState, Wt,
};
use crate::window_events::{settle_tiles, tiles_settling};
use crate::working_set::{in_background, on_timer, reconcile, trim_reconciled, window_models};
use vstd::prelude::*;

verus! {

/// Everything.
pub struct App {
    pub shared: Shared,
    pub windows: Vec<Window>,
}

/// What an [`App`] holds.
pub struct AppModel {
    pub s: SharedModel,
    pub windows: Seq<WindowModel>,
}

impl View for App {
    type V = AppModel;

    open spec fn view(&self) -> AppModel {
        AppModel { s: self.shared@, windows: window_models(self.windows@) }
    }
}

impl AppModel {
    pub open spec fn wf(self) -> bool {
        forall|i: int| 0 <= i < self.windows.len() ==> (#[trigger] self.windows[i]).wf()
    }

    /// The position of the window numbered `id`.
    pub open spec fn find(self, id: u64) -> Option<int> {
        ids_of(self.windows).index_of_first(id)
    }
}

pub open spec fn ids_of(windows: Seq<WindowModel>) -> Seq<u64> {
    windows.map_values(|w: WindowModel| w.state.value.id)
}

/// An action and the window it is for, if it is for one.
#[derive(Clone, Copy, PartialEq, Eq, Structural, Debug)]
pub struct Routed {
    pub window: Option<u64>,
    pub action: Action,
}

/// What reaches the program as a whole.
pub enum Envelope {
    /// A message for the window with this id.
    Win(u64, Message),
    /// A requested window has finished opening.
    Opened(u64),
    /// A window closed.
    Closed(u64),
    /// A later launch wants a window, numbered as given, on a path or empty.
    Forwarded { window: u64, path: Option<FileId> },
    /// The settings were edited outside and parse.
    ConfigReloaded(Config),
    /// The settings were edited outside and no longer parse.
    ConfigInvalid,
    /// The working-set timer of this generation fired.
    TrimWorkingSet(u64),
}

/// `acts` tagged with the window they are for.
pub open spec fn tagged(window: u64, acts: Seq<Action>) -> Seq<Routed> {
    acts.map_values(|action: Action| Routed { window: Some(window), action })
}

fn tag(window: u64, acts: &Vec<Action>, out: &mut Vec<Routed>)
    ensures
        final(out)@ == old(out)@ + tagged(window, acts@),
{
    let mut i: usize = 0;
    assert(out@ =~= old(out)@ + tagged(window, acts@.take(0)));
    while i < acts.len()
        invariant
            i <= acts@.len(),
            out@ == old(out)@ + tagged(window, acts@.take(i as int)),
        decreases acts@.len() - i,
    {
        let action = acts[i];
        out.push(Routed { window: Some(window), action });
        i = i + 1;
        assert(tagged(window, acts@.take(i as int)) =~= tagged(window, acts@.take(i - 1)).push(
            Routed { window: Some(window), action },
        ));
        assert(out@ =~= old(out)@ + tagged(window, acts@.take(i as int)));
    }
    assert(acts@.take(i as int) =~= acts@);
}

fn find_window(windows: &Vec<Window>, id: u64) -> (found: Option<usize>)
    ensures
        match found {
            Some(i) => i < windows@.len() && ids_of(window_models(windows@)).index_of_first(id)
                == Some(i as int),
            None => ids_of(window_models(windows@)).index_of_first(id) is None,
        },
{
    let ghost ids = ids_of(window_models(windows@));
    proof {
        ids.index_of_first_ensures(id);
    }
    let mut i: usize = 0;
    while i < windows.len()
        invariant
            i <= windows@.len(),
            ids == ids_of(window_models(windows@)),
            forall|j: int| 0 <= j < i ==> ids[j] != id,
        decreases windows@.len() - i,
    {
        assert(ids[i as int] == windows@[i as int]@.state.value.id);
        if windows[i].state.value.id == id {
            proof {
                ids.index_of_first_ensures(id);
            }
            return Some(i);
        }
        i = i + 1;
    }
    proof {
        ids.index_of_first_ensures(id);
    }
    None
}

/// The first window that views something.
pub open spec fn first_viewing(windows: Seq<WindowModel>) -> Option<u64>
    decreases windows.len(),
{
    if windows.len() == 0 {
        None
    } else if windows[0].viewer is Some {
        Some(windows[0].state.value.id)
    } else {
        first_viewing(windows.drop_first())
    }
}

fn any_viewing(windows: &Vec<Window>) -> (id: Option<u64>)
    ensures
        id == first_viewing(window_models(windows@)),
{
    let ghost models = window_models(windows@);
    let mut i: usize = 0;
    assert(models.skip(0) =~= models);
    while i < windows.len()
        invariant
            i <= windows@.len(),
            models == window_models(windows@),
            first_viewing(models.skip(i as int)) == first_viewing(models),
        decreases windows@.len() - i,
    {
        assert(models.skip(i as int)[0] == windows@[i as int]@);
        assert(models.skip(i as int).drop_first() =~= models.skip(i + 1));
        if windows[i].viewer().is_some() {
            return Some(windows[i].state.value.id);
        }
        i = i + 1;
    }
    None
}

/// Jobs that belong to no window in particular, run through any that views
/// something.
pub open spec fn shared_jobs(windows: Seq<WindowModel>, jobs: Seq<Job>) -> Seq<Routed> {
    match first_viewing(windows) {
        Some(id) => jobs.map_values(
            |job: Job|
                Routed {
                    window: Some(id),
                    action: Action::RunJob { job, lane: Lane::Prefetch, zoom: JobZoom::Fit },
                },
        ),
        None => Seq::empty(),
    }
}

/// Run store jobs that belong to no particular window through any live one.
fn run_shared_jobs(windows: &Vec<Window>, jobs: &Vec<Job>, out: &mut Vec<Routed>)
    ensures
        final(out)@ == old(out)@ + shared_jobs(window_models(windows@), jobs@),
{
    match any_viewing(windows) {
        Some(id) => {
            let mut i: usize = 0;
            let ghost models = window_models(windows@);
            assert(out@ =~= old(out)@ + shared_jobs(models, jobs@.take(0)));
            while i < jobs.len()
                invariant
                    i <= jobs@.len(),
                    first_viewing(models) == Some(id),
                    out@ == old(out)@ + shared_jobs(models, jobs@.take(i as int)),
                decreases jobs@.len() - i,
            {
                let job = jobs[i];
                let routed = Routed {
                    window: Some(id),
                    action: Action::RunJob { job, lane: Lane::Prefetch, zoom: JobZoom::Fit },
                };
                out.push(routed);
                i = i + 1;
                assert(shared_jobs(models, jobs@.take(i as int)) =~= shared_jobs(
                    models,
                    jobs@.take(i - 1),
                ).push(routed));
                assert(out@ =~= old(out)@ + shared_jobs(models, jobs@.take(i as int)));
            }
            assert(jobs@.take(i as int) =~= jobs@);
        },
        None => {
            assert(out@ =~= old(out)@ + Seq::<Routed>::empty());
        },
    }
}

/// The store's deferred work done: images whose demand fell are fitted to it.
pub open spec fn pumped(a: AppModel) -> (AppModel, Seq<Routed>) {
    let (store, jobs) = a.s.store.pumped(a.s.store.dirty.len());
    let anims = a.s.anims.pumped(a.s.anims.dirty.len());
    (
        AppModel {
            s: SharedModel {
                store: StoreModel { dirty: Seq::empty(), ..store },
                anims: AnimStoreModel { dirty: Seq::empty(), ..anims },
                ..a.s
            },
            ..a
        },
        shared_jobs(a.windows, jobs),
    )
}

/// Settle what dropped leases left over and run the re-uploads that asks for.
fn pump_store(app: &mut App, out: &mut Vec<Routed>)
    ensures
        final(app)@ == pumped(old(app)@).0,
        final(out)@ == old(out)@ + pumped(old(app)@).1,
{
    app.shared.anim_store.pump();
    let jobs = app.shared.store.pump();
    run_shared_jobs(&app.windows, &jobs, out);
}

/// What is left to do for a message whose window is gone: the shared store moves
/// exactly as it would have, the windows waiting for what landed get it, and
/// only the display effects in the closed window are dropped.
pub open spec fn orphaned(a: AppModel, ctx: Ctx, msg: Message) -> (AppModel, Seq<Routed>) {
    let store = a.s.store;
    match msg {
        Message::VideoControls(VideoMessage::Extracted(_, Ok(temp))) => (
            a,
            seq![Routed { window: None, action: Action::DiscardTemp { temp } }],
        ),
        Message::Media(MediaMessage::Decoded { file, ram, .. }) => restored(
            a,
            store.decoded(file, ram).settled(file),
            store.decoded(file, ram).missing_job(file),
        ),
        Message::Media(MediaMessage::TextureReady { file, tier, texture }) => swept_all(
            restored(
                a,
                store.minted(file, Minted { tier, texture }).settled(file),
                store.minted(file, Minted { tier, texture }).missing_job(file),
            ),
            file,
        ),
        Message::Media(MediaMessage::MintFailed { file }) => restored(a, store.idle(file), None),
        Message::Media(MediaMessage::DecodeFailed { file, err, .. }) => if error_text(err)
            is None {
            restored(
                a,
                store.idle(file).settled(file),
                store.idle(file).missing_job(file),
            )
        } else {
            restored(a, store.abandoned(file), None)
        },
        Message::Media(MediaMessage::AnimDecoded { file, .. }) => match first_holding(
            a.windows,
            file,
            0,
        ) {
            Some(i) => inherited(a, i, ctx, msg),
            None => restored(a, store.abandoned(file), None),
        },
        _ => (a, Seq::empty()),
    }
}

/// An image that just became resident shown in every window that waits for it.
pub open spec fn swept_all(r: (AppModel, Seq<Routed>), file: FileId) -> (AppModel, Seq<Routed>) {
    let (a, acts) = r;
    let (windows, more) = swept(
        a.windows,
        a.s,
        file,
        a.windows.len() as int,
        a.windows.len(),
    );
    (AppModel { windows, ..a }, acts + more)
}

/// The place of the first window, from `from` on, that holds `file` as a still.
pub open spec fn first_holding(windows: Seq<WindowModel>, file: FileId, from: int) -> Option<int>
    decreases windows.len() - from,
{
    if from >= windows.len() {
        None
    } else if windows[from].viewer is Some && holds(windows[from].viewer->0.cache, file) {
        Some(from)
    } else {
        first_holding(windows, file, from + 1)
    }
}

/// A decode of a closed window landed in window `i`, which waits for it too.
pub open spec fn inherited(a: AppModel, i: int, ctx: Ctx, msg: Message) -> (
    AppModel,
    Seq<Routed>,
) {
    let id = a.windows[i].state.value.id;
    let t = media_message(
        wt(a.windows[i], a.s, Seq::empty()),
        Ctx { window: id, ..ctx },
        msg->Media_0,
    );
    (
        AppModel { s: t.s, windows: a.windows.update(i, t.w) },
        tagged(id, measured(a.windows[i], t, msg)),
    )
}

pub proof fn lemma_first_holding(windows: Seq<WindowModel>, file: FileId, from: int)
    requires
        0 <= from,
    ensures
        match first_holding(windows, file, from) {
            Some(i) => from <= i < windows.len() && windows[i].viewer is Some,
            None => true,
        },
    decreases windows.len() - from,
{
    if from < windows.len() {
        lemma_first_holding(windows, file, from + 1);
    }
}

fn find_holding(windows: &Vec<Window>, file: FileId) -> (found: Option<usize>)
    ensures
        match found {
            Some(i) => i < windows@.len() && first_holding(window_models(windows@), file, 0)
                == Some(i as int),
            None => first_holding(window_models(windows@), file, 0) is None,
        },
{
    let ghost models = window_models(windows@);
    let mut i: usize = 0;
    while i < windows.len()
        invariant
            i <= windows@.len(),
            models == window_models(windows@),
            first_holding(models, file, 0) == first_holding(models, file, i as int),
        decreases windows@.len() - i,
    {
        assert(models[i as int] == windows@[i as int]@);
        let waits: bool = match windows[i].viewer() {
            Some(viewer) => viewer.cache.holds(file),
            None => false,
        };
        if waits {
            return Some(i);
        }
        i = i + 1;
    }
    None
}

/// Land a decode of a closed window in window `i`.
fn inherit(app: &mut App, i: usize, ctx: Ctx, msg: MediaMessage, out: &mut Vec<Routed>)
    requires
        old(app)@.wf(),
        i < old(app).windows@.len(),
        msg is AnimDecoded,
    ensures
        final(app)@.wf(),
        final(app)@ == inherited(old(app)@, i as int, ctx, Message::Media(msg)).0,
        final(out)@ == old(out)@ + inherited(old(app)@, i as int, ctx, Message::Media(msg)).1,
{
    let ghost before = app@;
    let ghost olds = app.windows@;
    let window: u64 = app.windows[i].state.value.id;
    assert(before.windows[i as int] == olds[i as int]@);
    let mut acts: Vec<Action> = Vec::new();
    assert(acts@ =~= Seq::<Action>::empty());
    update_media(&mut app.windows[i], &mut app.shared, Ctx { window, ..ctx }, msg, &mut acts);
    proof {
        assert(app.windows@ =~= olds.update(i as int, app.windows@[i as int]));
        lemma_models_update(olds, i as int, app.windows@[i as int]);
        assert forall|k: int| 0 <= k < app@.windows.len() implies (#[trigger]
        app@.windows[k]).wf() by {
            if k != i {
                assert(app@.windows[k] == before.windows[k]);
            }
        }
    }
    acts.push(Action::MeasureImageArea { if_moved: false });
    tag(window, &acts, out);
}

/// The store replaced and the job that asks for run through any window.
pub open spec fn restored(a: AppModel, store: StoreModel, job: Option<Job>) -> (
    AppModel,
    Seq<Routed>,
) {
    (
        AppModel { s: SharedModel { store, ..a.s }, ..a },
        match job {
            Some(job) => shared_jobs(a.windows, seq![job]),
            None => Seq::empty(),
        },
    )
}

/// Apply a store completion whose window no longer exists.
fn orphaned_media(app: &mut App, ctx: Ctx, msg: Message, out: &mut Vec<Routed>)
    requires
        old(app)@.wf(),
    ensures
        final(app)@.wf(),
        final(app)@ == orphaned(old(app)@, ctx, msg).0,
        final(out)@ == old(out)@ + orphaned(old(app)@, ctx, msg).1,
{
    let mut landed: Option<FileId> = None;
    assert(out@ + Seq::<Routed>::empty() =~= out@);
    let job: Option<Job> = match msg {
        Message::VideoControls(VideoMessage::Extracted(_, Ok(temp))) => {
            let routed = Routed { window: None, action: Action::DiscardTemp { temp } };
            out.push(routed);
            assert(out@ =~= old(out)@ + seq![routed]);
            return ;
        },
        Message::Media(MediaMessage::Decoded { file, ram, .. }) => app.shared.store.on_decoded(
            file,
            ram,
        ),
        Message::Media(MediaMessage::TextureReady { file, tier, texture }) => {
            landed = Some(file);
            app.shared.store.on_minted(file, tier, texture)
        },
        Message::Media(MediaMessage::MintFailed { file }) => {
            app.shared.store.on_mint_failed(file);
            None
        },
        Message::Media(MediaMessage::DecodeFailed { file, err, .. }) => {
            let retry: bool = match err {
                MediaError::Cancelled => true,
                MediaError::Failed(_) => false,
            };
            app.shared.store.on_decode_failed(file, retry)
        },
        Message::Media(MediaMessage::AnimDecoded { file, frames, thumb, max_dim }) => {
            match find_holding(&app.windows, file) {
                Some(i) => {
                    let msg = MediaMessage::AnimDecoded { file, frames, thumb, max_dim };
                    inherit(app, i, ctx, msg, out);
                    return ;
                },
                None => {
                    app.shared.store.abandon(file);
                    None
                },
            }
        },
        _ => None,
    };
    match job {
        Some(job) => {
            let jobs = vec![job];
            assert(jobs@ =~= seq![job]);
            run_shared_jobs(&app.windows, &jobs, out);
        },
        None => {},
    }
    let ghost mid = app@;
    assert forall|k: int| 0 <= k < mid.windows.len() implies (#[trigger] mid.windows[k]).wf() by {
        assert(mid.windows[k] == old(app)@.windows[k]);
    }
    match landed {
        Some(file) => {
            let all: usize = app.windows.len();
            sweep(&mut app.windows, &app.shared, file, all, out);
            assert(out@ =~= old(out)@ + orphaned(old(app)@, ctx, msg).1);
        },
        None => {},
    }
    assert forall|k: int| 0 <= k < app@.windows.len() implies (#[trigger] app@.windows[k]).wf() by {
        if landed is None {
            assert(app@.windows[k] == old(app)@.windows[k]);
        }
    }
}

/// The other windows shown an image that just became resident, the first `n`
/// of them, if they wait for it.
pub open spec fn swept(
    windows: Seq<WindowModel>,
    s: SharedModel,
    file: FileId,
    skip: int,
    n: nat,
) -> (Seq<WindowModel>, Seq<Routed>)
    decreases n,
{
    if n == 0 {
        (windows, Seq::empty())
    } else {
        let (before, acts) = swept(windows, s, file, skip, (n - 1) as nat);
        let w = windows[n - 1];
        match w.viewer {
            Some(v) if n - 1 != skip => {
                let t = promoted(st(v, s, Seq::empty()), file);
                (
                    before.update(n - 1, WindowModel { viewer: Some(t.v), ..w }),
                    acts + tagged(w.state.value.id, t.out),
                )
            },
            _ => (before, acts),
        }
    }
}

proof fn lemma_swept_rest(
    windows: Seq<WindowModel>,
    s: SharedModel,
    file: FileId,
    skip: int,
    n: nat,
    k: int,
)
    requires
        n <= k < windows.len(),
    ensures
        swept(windows, s, file, skip, n).0.len() == windows.len(),
        swept(windows, s, file, skip, n).0[k] == windows[k],
    decreases n,
{
    if n > 0 {
        lemma_swept_rest(windows, s, file, skip, (n - 1) as nat, k);
    }
}

proof fn lemma_models_update(windows: Seq<Window>, i: int, win: Window)
    requires
        0 <= i < windows.len(),
    ensures
        window_models(windows.update(i, win)) == window_models(windows).update(i, win@),
{
    assert(window_models(windows.update(i, win)) =~= window_models(windows).update(i, win@));
}

/// Show an image that just became resident in every window but `skip` that
/// waits for it.
fn sweep(
    windows: &mut Vec<Window>,
    shared: &Shared,
    file: FileId,
    skip: usize,
    out: &mut Vec<Routed>,
)
    requires
        forall|i: int|
            0 <= i < old(windows)@.len() ==> (#[trigger] window_models(
                old(windows)@,
            )[i]).wf(),
    ensures
        window_models(final(windows)@) == swept(
            window_models(old(windows)@),
            shared@,
            file,
            skip as int,
            old(windows)@.len(),
        ).0,
        final(out)@ == old(out)@ + swept(
            window_models(old(windows)@),
            shared@,
            file,
            skip as int,
            old(windows)@.len(),
        ).1,
        final(windows)@.len() == old(windows)@.len(),
        forall|i: int|
            0 <= i < final(windows)@.len() ==> (#[trigger] window_models(
                final(windows)@,
            )[i]).wf(),
{
    let ghost models = window_models(windows@);
    let n: usize = windows.len();
    let mut i: usize = 0;
    assert(out@ + Seq::<Routed>::empty() =~= out@);
    while i < n
        invariant
            i <= n,
            n == windows@.len(),
            n == models.len(),
            models == window_models(old(windows)@),
            window_models(windows@) == swept(models, shared@, file, skip as int, i as nat).0,
            out@ == old(out)@ + swept(models, shared@, file, skip as int, i as nat).1,
            forall|k: int| 0 <= k < n ==> (#[trigger] window_models(windows@)[k]).wf(),
        decreases n - i,
    {
        let ghost before = windows@;
        proof {
            lemma_swept_rest(models, shared@, file, skip as int, i as nat, i as int);
            assert(window_models(before)[i as int] == before[i as int]@);
        }
        if i != skip {
            let mut acts: Vec<Action> = Vec::new();
            let id: u64 = windows[i].state.value.id;
            let win = &mut windows[i];
            let ghost old_win = *win;
            let viewing: bool = match win.viewer_mut() {
                Some(viewer) => {
                    promote_if_waiting(viewer, shared, file, &mut acts);
                    true
                },
                None => false,
            };
            let ghost new_win = windows@[i as int];
            proof {
                assert(windows@ =~= before.update(i as int, new_win));
                lemma_models_update(before, i as int, new_win);
            }
            if viewing {
                let ghost mid = out@;
                tag(id, &acts, out);
                assert(out@ =~= old(out)@ + swept(
                    models,
                    shared@,
                    file,
                    skip as int,
                    (i + 1) as nat,
                ).1);
            } else {
                assert(window_models(windows@) =~= window_models(before));
            }
        }
        i = i + 1;
    }
}

/// A message for a window routed to it. An image it brings in is shown by the
/// other windows that wait for it, and the image area is measured again when
/// an image goes on screen. A window that is gone leaves only what concerns
/// the shared store.
pub open spec fn window_routed(
    before: AppModel,
    after: AppModel,
    acts: Seq<Routed>,
    ctx: Ctx,
    msg: Message,
) -> bool {
    match before.find(ctx.window) {
        Some(i) => exists|t: Wt|
            #![trigger dispatched(wt(before.windows[i], before.s, Seq::empty()), t, ctx, msg)]
            {
                &&& dispatched(wt(before.windows[i], before.s, Seq::empty()), t, ctx, msg)
                &&& routed_end(before, after, acts, ctx, msg, i, t)
            },
        None => (after, acts) == orphaned(before, ctx, msg),
    }
}

/// Whether one of `acts` changes the viewport.
pub open spec fn relays_out(acts: Seq<Action>) -> bool {
    acts.contains(Action::RecalcViewport) || acts.contains(Action::AdoptMeasuredViewport)
}

/// The actions of a window that handled `msg` as `t`. The image area is measured
/// again when an image goes on screen, and when the viewport moves without a
/// resize, as a chrome toggle makes it.
pub open spec fn measured(before: WindowModel, t: Wt, msg: Message) -> Seq<Action> {
    if shows_image(msg) {
        t.out.push(Action::MeasureImageArea { if_moved: false })
    } else if relays_out(t.out) && t.w.state.value.window_size
        == before.state.value.window_size {
        t.out.push(Action::MeasureImageArea { if_moved: true })
    } else {
        t.out
    }
}

fn asks_to_lay_out(acts: &Vec<Action>) -> (yes: bool)
    ensures
        yes == relays_out(acts@),
{
    let mut i: usize = 0;
    while i < acts.len()
        invariant
            i <= acts@.len(),
            forall|j: int|
                0 <= j < i ==> (#[trigger] acts@[j]) != Action::RecalcViewport && acts@[j]
                    != Action::AdoptMeasuredViewport,
        decreases acts@.len() - i,
    {
        if acts[i] == Action::RecalcViewport || acts[i] == Action::AdoptMeasuredViewport {
            return true;
        }
        i = i + 1;
    }
    false
}

/// What follows once window `i` has handled `msg` as `t`.
pub open spec fn routed_end(
    before: AppModel,
    after: AppModel,
    acts: Seq<Routed>,
    ctx: Ctx,
    msg: Message,
    i: int,
    t: Wt,
) -> bool {
    let own = tagged(ctx.window, measured(before.windows[i], t, msg));
    let windows = before.windows.update(i, t.w);
    match msg {
        Message::Media(MediaMessage::TextureReady { file, .. }) => {
            let (shown, more) = swept(windows, t.s, file, i, windows.len());
            &&& after == (AppModel { s: t.s, windows: shown })
            &&& acts == own + more
        },
        _ => {
            &&& after == (AppModel { s: t.s, windows })
            &&& acts == own
        },
    }
}

fn route_to_window(app: &mut App, ctx: Ctx, msg: Message, out: &mut Vec<Routed>)
    requires
        old(app)@.wf(),
    ensures
        final(app)@.wf(),
        exists|acts: Seq<Routed>|
            #![trigger window_routed(old(app)@, final(app)@, acts, ctx, msg)]
            window_routed(old(app)@, final(app)@, acts, ctx, msg) && final(out)@ == old(out)@
                + acts,
{
    let ghost before = app@;
    let i: usize = match find_window(&app.windows, ctx.window) {
        Some(i) => i,
        None => {
            orphaned_media(app, ctx, msg, out);
            assert(window_routed(before, app@, orphaned(before, ctx, msg).1, ctx, msg));
            return ;
        },
    };
    let measure: bool = displays_image(&msg);
    let size: Coords = app.windows[i].state.value.window_size;
    let fresh: Option<FileId> = match &msg {
        Message::Media(MediaMessage::TextureReady { file, .. }) => Some(*file),
        _ => None,
    };
    let mut acts: Vec<Action> = Vec::new();
    let ghost olds = app.windows@;
    assert(before.windows[i as int] == olds[i as int]@);
    let ghost start = wt(before.windows[i as int], before.s, Seq::empty());
    assert(acts@ =~= Seq::<Action>::empty());
    dispatch(&mut app.windows[i], &mut app.shared, ctx, msg, &mut acts);
    let ghost t = wt(app.windows@[i as int]@, app.shared@, acts@);
    assert(dispatched(start, t, ctx, msg));
    proof {
        assert(app.windows@ =~= olds.update(i as int, app.windows@[i as int]));
        lemma_models_update(olds, i as int, app.windows@[i as int]);
        assert forall|k: int| 0 <= k < app@.windows.len() implies (#[trigger]
        app@.windows[k]).wf() by {
            if k != i {
                assert(app@.windows[k] == before.windows[k]);
            }
        }
    }
    if measure {
        acts.push(Action::MeasureImageArea { if_moved: false });
    } else if asks_to_lay_out(&acts) && app.windows[i].state.value.window_size == size {
        acts.push(Action::MeasureImageArea { if_moved: true });
    }
    tag(ctx.window, &acts, out);
    let ghost own = tagged(ctx.window, acts@);
    let ghost mid = app@;
    match fresh {
        Some(file) => {
            sweep(&mut app.windows, &app.shared, file, i, out);
            let ghost more = swept(mid.windows, mid.s, file, i as int, mid.windows.len()).1;
            assert(out@ =~= old(out)@ + (own + more));
            assert(routed_end(before, app@, own + more, ctx, msg, i as int, t));
            assert(window_routed(before, app@, own + more, ctx, msg));
        },
        None => {
            assert(routed_end(before, app@, own, ctx, msg, i as int, t));
            assert(window_routed(before, app@, own, ctx, msg));
        },
    }
}

/// A window gone, everything it held let go of. The last one ends the program.
#[verifier::opaque]
pub open spec fn window_closed(a: AppModel, id: u64) -> (AppModel, Seq<Routed>) {
    let left = match a.find(id) {
        Some(i) => AppModel {
            s: session_closed(wt(a.windows[i], a.s, Seq::empty())).s,
            windows: a.windows.remove(i),
        },
        None => a,
    };
    (
        left,
        if left.windows.len() == 0 {
            seq![Routed { window: None, action: Action::Exit }]
        } else {
            Seq::empty()
        },
    )
}

fn close_window(app: &mut App, id: u64, out: &mut Vec<Routed>)
    requires
        old(app)@.wf(),
    ensures
        final(app)@.wf(),
        final(app)@ == window_closed(old(app)@, id).0,
        final(out)@ == old(out)@ + window_closed(old(app)@, id).1,
{
    proof {
        reveal(window_closed);
        ids_of(app@.windows).index_of_first_ensures(id);
    }
    let ghost before = app@;
    match find_window(&app.windows, id) {
        Some(i) => {
            let ghost olds = app.windows@;
            let mut win = app.windows.remove(i);
            let ghost t = wt(win@, app.shared@, Seq::empty());
            assert(win@ == before.windows[i as int]);
            close_session(&mut win, &mut app.shared);
            assert(wt(win@, app.shared@, Seq::empty()) == session_closed(t));
            assert(window_models(olds.remove(i as int)) =~= window_models(olds).remove(i as int));
            assert(app@.windows =~= before.windows.remove(i as int));
            assert forall|k: int| 0 <= k < app@.windows.len() implies (#[trigger]
            app@.windows[k]).wf() by {
                if k < i {
                    assert(app@.windows[k] == before.windows[k]);
                } else {
                    assert(app@.windows[k] == before.windows[k + 1]);
                }
            }
        },
        None => {},
    }
    if app.windows.len() == 0 {
        out.push(Routed { window: None, action: Action::Exit });
    }
    assert(out@ =~= old(out)@ + window_closed(before, id).1);
}

/// The saved state replayed onto a freshly opened window: maximized first, then
/// fullscreen, so leaving them unwinds in that order.
pub open spec fn state_replayed(config: Config) -> Seq<Action> {
    let first: Seq<Action> = if config.window_maximized {
        seq![Action::Maximize]
    } else {
        Seq::empty()
    };
    if config.window_fullscreen {
        first.push(Action::SetFullscreen { on: true })
    } else {
        first
    }
}

/// Replay a saved maximized or fullscreen state onto a freshly opened window.
pub fn replay_window_state(maximized: bool, fullscreen: bool) -> (acts: Vec<Action>)
    ensures
        forall|config: Config|
            #![trigger state_replayed(config)]
            config.window_maximized == maximized && config.window_fullscreen == fullscreen
                ==> acts@ == state_replayed(config),
{
    let mut acts: Vec<Action> = Vec::new();
    if maximized {
        acts.push(Action::Maximize);
    }
    assert(acts@ =~= if maximized {
        seq![Action::Maximize]
    } else {
        Seq::empty()
    });
    if fullscreen {
        acts.push(Action::SetFullscreen { on: true });
    }
    acts
}

/// A new window: opened at the saved geometry, brought to the front if `raise`,
/// and set to open its path, if it has one.
#[verifier::opaque]
pub open spec fn window_added(
    a: AppModel,
    window: u64,
    path: Option<FileId>,
    raise: bool,
    now: Instant,
) -> (AppModel, Seq<Routed>) {
    let w = seeded_window(window, a.s.config.value);
    let opened = seq![Action::OpenWindow { window }];
    let asked = (if raise {
        opened.push(Action::FocusWindow)
    } else {
        opened
    }).push(Action::RecalcViewport);
    match path {
        Some(file) => (
            AppModel {
                windows: a.windows.push(
                    WindowModel {
                        state: whole(
                            WindowState { opening_since: Some(now), ..w.state.value },
                        ),
                        ..w
                    },
                ),
                ..a
            },
            tagged(window, asked.push(open_action(a.s, file))),
        ),
        None => (AppModel { windows: a.windows.push(w), ..a }, tagged(window, asked)),
    }
}

/// Open a new window.
pub fn open_new_window(
    app: &mut App,
    window: u64,
    path: Option<FileId>,
    raise: bool,
    now: Instant,
    out: &mut Vec<Routed>,
)
    requires
        old(app)@.wf(),
    ensures
        final(app)@.wf(),
        final(app)@ == window_added(old(app)@, window, path, raise, now).0,
        final(out)@ == old(out)@ + window_added(old(app)@, window, path, raise, now).1,
{
    proof {
        reveal(window_added);
    }
    let ghost before = app@;
    let ghost olds = app.windows@;
    let mut win = new_window(window, &app.shared.config.value);
    let mut acts: Vec<Action> = Vec::new();
    acts.push(Action::OpenWindow { window });
    assert(acts@ =~= seq![Action::OpenWindow { window }]);
    if raise {
        acts.push(Action::FocusWindow);
    }
    acts.push(Action::RecalcViewport);
    match path {
        Some(file) => {
            win.set_state(WindowState { opening_since: Some(now), ..win.state.value });
            open_path(&app.shared, file, &mut acts);
        },
        None => {},
    }
    let ghost added = win;
    app.windows.push(win);
    tag(window, &acts, out);
    assert(window_models(olds.push(added)) =~= window_models(olds).push(added@));
    assert forall|k: int| 0 <= k < app@.windows.len() implies (#[trigger]
    app@.windows[k]).wf() by {
        if k < olds.len() {
            assert(app@.windows[k] == before.windows[k]);
        }
    }
}

/// The first `n` windows laid out anew under changed settings.
pub open spec fn relaid(windows: Seq<WindowModel>, s: SharedModel, n: nat) -> (
    Seq<WindowModel>,
    Seq<Routed>,
)
    decreases n,
{
    if n == 0 {
        (windows, Seq::empty())
    } else {
        let (before, acts) = relaid(windows, s, (n - 1) as nat);
        let w = windows[n - 1];
        let t = tiles_settling(wt(w, s, seq![Action::RecalcViewport]));
        (before.update(n - 1, t.w), acts + tagged(w.state.value.id, t.out))
    }
}

proof fn lemma_relaid_rest(windows: Seq<WindowModel>, s: SharedModel, n: nat, k: int)
    requires
        n <= k < windows.len(),
    ensures
        relaid(windows, s, n).0.len() == windows.len(),
        relaid(windows, s, n).0[k] == windows[k],
    decreases n,
{
    if n > 0 {
        lemma_relaid_rest(windows, s, (n - 1) as nat, k);
    }
}

fn relay_windows(windows: &mut Vec<Window>, shared: &Shared, out: &mut Vec<Routed>)
    requires
        forall|i: int|
            0 <= i < old(windows)@.len() ==> (#[trigger] window_models(
                old(windows)@,
            )[i]).wf(),
    ensures
        window_models(final(windows)@) == relaid(
            window_models(old(windows)@),
            shared@,
            old(windows)@.len(),
        ).0,
        final(out)@ == old(out)@ + relaid(
            window_models(old(windows)@),
            shared@,
            old(windows)@.len(),
        ).1,
        forall|i: int|
            0 <= i < final(windows)@.len() ==> (#[trigger] window_models(
                final(windows)@,
            )[i]).wf(),
{
    let ghost models = window_models(windows@);
    let n: usize = windows.len();
    let mut i: usize = 0;
    assert(out@ + Seq::<Routed>::empty() =~= out@);
    while i < n
        invariant
            i <= n,
            n == windows@.len(),
            n == models.len(),
            models == window_models(old(windows)@),
            window_models(windows@) == relaid(models, shared@, i as nat).0,
            out@ == old(out)@ + relaid(models, shared@, i as nat).1,
            forall|k: int| 0 <= k < n ==> (#[trigger] window_models(windows@)[k]).wf(),
        decreases n - i,
    {
        let ghost before = windows@;
        proof {
            lemma_relaid_rest(models, shared@, i as nat, i as int);
            assert(window_models(before)[i as int] == before[i as int]@);
        }
        let mut acts: Vec<Action> = Vec::new();
        acts.push(Action::RecalcViewport);
        assert(acts@ =~= seq![Action::RecalcViewport]);
        let id: u64 = windows[i].state.value.id;
        let ghost start = wt(models[i as int], shared@, acts@);
        settle_tiles(&mut windows[i], &mut acts);
        let ghost new_win = windows@[i as int];
        assert(wt(new_win@, shared@, acts@) == tiles_settling(start));
        proof {
            assert(windows@ =~= before.update(i as int, new_win));
            lemma_models_update(before, i as int, new_win);
        }
        tag(id, &acts, out);
        assert(out@ =~= old(out)@ + relaid(models, shared@, (i + 1) as nat).1);
        i = i + 1;
    }
}

/// The shared state under other settings.
#[verifier::opaque]
pub open spec fn adopted(s: SharedModel, config: Config) -> SharedModel {
    SharedModel {
        config: whole(config),
        status: whole(
            Status {
                prefetch_gpu_bake: config.resource.value.prefetch_scaler is Gpu,
                ..s.status.value
            },
        ),
        ..s
    }
}

fn adopt(shared: &mut Shared, config: Config)
    ensures
        final(shared)@ == adopted(old(shared)@, config),
{
    proof {
        reveal(adopted);
    }
    let mut status = shared.status.value;
    set_prefetch_scaler(&mut status, config.resource.value.prefetch_scaler);
    shared.status = hold(status);
    shared.config = hold(config);
}

/// Settings edited outside adopted across the whole program. Settings equal to
/// the current ones, as the program's own save brings back, change nothing.
#[verifier::opaque]
pub open spec fn config_adopted(a: AppModel, config: Config) -> (AppModel, Seq<Routed>) {
    if config == a.s.config.value {
        (a, Seq::empty())
    } else {
        let s = adopted(a.s, config);
        let (windows, acts) = relaid(a.windows, s, a.windows.len());
        (
            AppModel { s, windows },
            seq![Routed { window: None, action: Action::AdoptResourceLimits }] + acts,
        )
    }
}

/// Adopt settings edited outside.
fn apply_config(app: &mut App, config: Config, out: &mut Vec<Routed>)
    requires
        old(app)@.wf(),
    ensures
        final(app)@.wf(),
        final(app)@ == config_adopted(old(app)@, config).0,
        final(out)@ == old(out)@ + config_adopted(old(app)@, config).1,
{
    proof {
        reveal(config_adopted);
    }
    assert(out@ + Seq::<Routed>::empty() =~= out@);
    if config == app.shared.config.value {
        return ;
    }
    let first = Routed { window: None, action: Action::AdoptResourceLimits };
    out.push(first);
    adopt(&mut app.shared, config);
    assert forall|i: int| 0 <= i < app.windows@.len() implies (#[trigger] window_models(
        app.windows@,
    )[i]).wf() by {
        assert(old(app)@.windows[i].wf());
    }
    relay_windows(&mut app.windows, &app.shared, out);
    assert(out@ =~= old(out)@ + config_adopted(old(app)@, config).1);
}

/// Where a notice about the whole program goes: the focused window, else the
/// first.
pub open spec fn notice_window(windows: Seq<WindowModel>) -> Option<int> {
    match windows.map_values(|w: WindowModel| w.state.value.focused).index_of_first(true) {
        Some(i) => Some(i),
        None => if windows.len() > 0 {
            Some(0)
        } else {
            None
        },
    }
}

/// The settings found broken reported on one window.
#[verifier::opaque]
pub open spec fn invalid_reported(a: AppModel) -> (AppModel, Seq<Routed>) {
    match notice_window(a.windows) {
        Some(i) => {
            let t = toasted(
                wt(a.windows[i], a.s, Seq::empty()),
                ToastKind::Error,
                "config.toml has a syntax error; keeping the current settings."@,
            );
            (
                AppModel { windows: a.windows.update(i, t.w), ..a },
                tagged(a.windows[i].state.value.id, t.out),
            )
        },
        None => (a, Seq::empty()),
    }
}

fn find_focused(windows: &Vec<Window>) -> (found: Option<usize>)
    ensures
        match found {
            Some(i) => i < windows@.len() && notice_window(window_models(windows@)) == Some(
                i as int,
            ),
            None => notice_window(window_models(windows@)) is None,
        },
{
    let ghost flags = window_models(windows@).map_values(
        |w: WindowModel| w.state.value.focused,
    );
    proof {
        flags.index_of_first_ensures(true);
    }
    let mut i: usize = 0;
    while i < windows.len()
        invariant
            i <= windows@.len(),
            flags == window_models(windows@).map_values(|w: WindowModel| w.state.value.focused),
            forall|j: int| 0 <= j < i ==> !flags[j],
        decreases windows@.len() - i,
    {
        assert(flags[i as int] == windows@[i as int]@.state.value.focused);
        if windows[i].state.value.focused {
            proof {
                flags.index_of_first_ensures(true);
            }
            return Some(i);
        }
        i = i + 1;
    }
    proof {
        flags.index_of_first_ensures(true);
    }
    if windows.len() > 0 {
        Some(0)
    } else {
        None
    }
}

/// Warn that settings edited outside no longer parse.
fn config_invalid_toast(app: &mut App, out: &mut Vec<Routed>)
    requires
        old(app)@.wf(),
    ensures
        final(app)@.wf(),
        final(app)@ == invalid_reported(old(app)@).0,
        final(out)@ == old(out)@ + invalid_reported(old(app)@).1,
{
    proof {
        reveal(invalid_reported);
    }
    assert(out@ + Seq::<Routed>::empty() =~= out@);
    let ghost before = app@;
    let ghost olds = app.windows@;
    match find_focused(&app.windows) {
        Some(i) => {
            let mut acts: Vec<Action> = Vec::new();
            assert(acts@ =~= Seq::<Action>::empty());
            let id: u64 = app.windows[i].state.value.id;
            assert(before.windows[i as int] == olds[i as int]@);
            let ghost start = wt(before.windows[i as int], before.s, acts@);
            push_text(
                &mut app.windows[i],
                ToastKind::Error,
                "config.toml has a syntax error; keeping the current settings.",
                &mut acts,
            );
            let ghost new_win = app.windows@[i as int];
            assert(wt(new_win@, before.s, acts@) == toasted(
                start,
                ToastKind::Error,
                "config.toml has a syntax error; keeping the current settings."@,
            ));
            proof {
                assert(app.windows@ =~= olds.update(i as int, new_win));
                lemma_models_update(olds, i as int, new_win);
                assert forall|k: int| 0 <= k < app@.windows.len() implies (#[trigger]
                app@.windows[k]).wf() by {
                    if k != i {
                        assert(app@.windows[k] == before.windows[k]);
                    }
                }
            }
            tag(id, &acts, out);
        },
        None => {},
    }
}

/// What an envelope comes to, apart from the store's deferred work.
pub open spec fn routed(
    before: AppModel,
    after: AppModel,
    acts: Seq<Routed>,
    envelope: Envelope,
    now: Instant,
    visible: Span,
) -> bool {
    match envelope {
        Envelope::Win(window, msg) => window_routed(
            before,
            after,
            acts,
            Ctx { window, now, visible },
            msg,
        ),
        Envelope::Opened(id) => after == before && acts == tagged(
            id,
            state_replayed(before.s.config.value),
        ),
        Envelope::Closed(id) => (after, acts) == window_closed(before, id),
        Envelope::Forwarded { window, path } => (after, acts) == window_added(
            before,
            window,
            path,
            true,
            now,
        ),
        Envelope::ConfigReloaded(config) => (after, acts) == config_adopted(before, config),
        Envelope::ConfigInvalid => (after, acts) == invalid_reported(before),
        Envelope::TrimWorkingSet(generation) => after == before && acts == if generation
            == before.s.status.value.trim_generation && in_background(
            before.windows,
            before.s.config.value.resource.value.trim_when,
        ) {
            seq![Routed { window: None, action: Action::TrimWorkingSet }]
        } else {
            Seq::empty()
        },
    }
}

/// Route an envelope to the window it names, or handle it for the program as a
/// whole.
fn route(
    app: &mut App,
    envelope: Envelope,
    now: Instant,
    visible: Span,
    out: &mut Vec<Routed>,
)
    requires
        old(app)@.wf(),
    ensures
        final(app)@.wf(),
        exists|acts: Seq<Routed>|
            #![trigger routed(old(app)@, final(app)@, acts, envelope, now, visible)]
            routed(old(app)@, final(app)@, acts, envelope, now, visible) && final(out)@ == old(
                out,
            )@ + acts,
{
    let ghost before = app@;
    match envelope {
        Envelope::Win(window, msg) => {
            let ctx = Ctx { window, now, visible };
            route_to_window(app, ctx, msg, out);
            let ghost acts = choose|acts: Seq<Routed>|
                #![trigger window_routed(before, app@, acts, ctx, msg)]
                window_routed(before, app@, acts, ctx, msg) && out@ == old(out)@ + acts;
            assert(routed(before, app@, acts, envelope, now, visible));
        },
        Envelope::Opened(id) => {
            let config = app.shared.config.value;
            let acts = replay_window_state(config.window_maximized, config.window_fullscreen);
            assert(acts@ == state_replayed(before.s.config.value));
            tag(id, &acts, out);
            assert(routed(before, app@, tagged(id, acts@), envelope, now, visible));
        },
        Envelope::Closed(id) => {
            close_window(app, id, out);
            assert(routed(
                before,
                app@,
                window_closed(before, id).1,
                envelope,
                now,
                visible,
            ));
        },
        Envelope::Forwarded { window, path } => {
            open_new_window(app, window, path, true, now, out);
            assert(routed(
                before,
                app@,
                window_added(before, window, path, true, now).1,
                envelope,
                now,
                visible,
            ));
        },
        Envelope::ConfigReloaded(config) => {
            apply_config(app, config, out);
            assert(routed(
                before,
                app@,
                config_adopted(before, config).1,
                envelope,
                now,
                visible,
            ));
        },
        Envelope::ConfigInvalid => {
            config_invalid_toast(app, out);
            assert(routed(before, app@, invalid_reported(before).1, envelope, now, visible));
        },
        Envelope::TrimWorkingSet(generation) => {
            let mut acts: Vec<Action> = Vec::new();
            on_timer(&app.windows, &app.shared, generation, &mut acts);
            let trim: bool = acts.len() > 0;
            if trim {
                out.push(Routed { window: None, action: Action::TrimWorkingSet });
            }
            let ghost added = if trim {
                seq![Routed { window: None, action: Action::TrimWorkingSet }]
            } else {
                Seq::empty()
            };
            assert(out@ =~= old(out)@ + added);
            assert(routed(before, app@, added, envelope, now, visible));
        },
    }
}

/// The trim re-evaluated, on systems that have one.
pub open spec fn trimmed_app(a: AppModel, trims: bool) -> (AppModel, Seq<Routed>) {
    if trims {
        let (s, acts) = trim_reconciled(a.windows, a.s);
        (
            AppModel { s, ..a },
            acts.map_values(|action: Action| Routed { window: None, action }),
        )
    } else {
        (a, Seq::empty())
    }
}

/// What one turn of the program comes to.
pub open spec fn turned(
    before: AppModel,
    after: AppModel,
    acts: Seq<Routed>,
    envelope: Envelope,
    now: Instant,
    visible: Span,
    trims: bool,
) -> bool {
    exists|mid: AppModel, first: Seq<Routed>|
        #![trigger routed(before, mid, first, envelope, now, visible)]
        {
            &&& routed(before, mid, first, envelope, now, visible)
            &&& after == trimmed_app(pumped(mid).0, trims).0
            &&& acts == first + pumped(mid).1 + trimmed_app(pumped(mid).0, trims).1
        }
}

/// One turn of the program: route the envelope, let the store settle what
/// dropped leases left over, and re-evaluate the working-set trim where the
/// system has one.
pub fn update(
    app: &mut App,
    envelope: Envelope,
    now: Instant,
    visible: Span,
    trims: bool,
) -> (out: Vec<Routed>)
    requires
        old(app)@.wf(),
    ensures
        final(app)@.wf(),
        turned(old(app)@, final(app)@, out@, envelope, now, visible, trims),
{
    let ghost before = app@;
    let mut out: Vec<Routed> = Vec::new();
    route(app, envelope, now, visible, &mut out);
    let ghost mid = app@;
    let ghost first = choose|acts: Seq<Routed>|
        #![trigger routed(before, mid, acts, envelope, now, visible)]
        routed(before, mid, acts, envelope, now, visible) && out@ == Seq::<Routed>::empty() + acts;
    assert(out@ =~= first);
    pump_store(app, &mut out);
    let ghost settled = app@;
    let ghost sofar = out@;
    if trims {
        let mut acts: Vec<Action> = Vec::new();
        reconcile(&app.windows, &mut app.shared, &mut acts);
        let ghost more = trim_reconciled(settled.windows, settled.s).1;
        assert(acts@ =~= more);
        let mut i: usize = 0;
        let ghost tagged_more = more.map_values(
            |action: Action| Routed { window: None, action },
        );
        while i < acts.len()
            invariant
                i <= acts@.len(),
                acts@ == more,
                tagged_more == more.map_values(
                    |action: Action| Routed { window: None, action },
                ),
                out@ == sofar + tagged_more.take(i as int),
            decreases acts@.len() - i,
        {
            out.push(Routed { window: None, action: acts[i] });
            i = i + 1;
            assert(out@ =~= sofar + tagged_more.take(i as int));
        }
        assert(tagged_more.take(i as int) =~= tagged_more);
    }
    assert(out@ =~= first + pumped(mid).1 + trimmed_app(pumped(mid).0, trims).1);
    out
}

/// Windows are independent: what one handles leaves the others as they are,
/// unless a texture landed that they may be waiting for.
pub proof fn law_windows_are_independent(
    before: AppModel,
    after: AppModel,
    acts: Seq<Routed>,
    ctx: Ctx,
    msg: Message,
    i: int,
)
    requires
        window_routed(before, after, acts, ctx, msg),
        before.find(ctx.window) is Some,
        match msg {
            Message::Media(m) => !(m is TextureReady),
            _ => true,
        },
        0 <= i < before.windows.len(),
        before.windows[i].state.value.id != ctx.window,
    ensures
        after.windows.len() == before.windows.len(),
        after.windows[i] == before.windows[i],
{
    let ids = ids_of(before.windows);
    ids.index_of_first_ensures(ctx.window);
    assert(ids[i] == before.windows[i].state.value.id);
}

pub proof fn lemma_swept_at(
    windows: Seq<WindowModel>,
    s: SharedModel,
    file: FileId,
    skip: int,
    n: nat,
    i: int,
)
    requires
        0 <= i < n <= windows.len(),
        i != skip,
        windows[i].viewer is Some,
    ensures
        swept(windows, s, file, skip, n).0.len() == windows.len(),
        swept(windows, s, file, skip, n).0[i].viewer == Some(
            promoted(st(windows[i].viewer->0, s, Seq::empty()), file).v,
        ),
    decreases n,
{
    if i < n - 1 {
        lemma_swept_at(windows, s, file, skip, (n - 1) as nat, i);
    } else {
        lemma_swept_rest(windows, s, file, skip, (n - 1) as nat, i);
    }
}

/// An upload outlives its window: once it lands, every window that waits for the
/// image shows it.
pub proof fn law_orphaned_upload_reaches_waiting_windows(
    a: AppModel,
    ctx: Ctx,
    file: FileId,
    tier: Tier,
    texture: Texture,
    i: int,
)
    requires
        0 <= i < a.windows.len(),
        a.windows[i].viewer is Some,
        waiting_for(a.windows[i].viewer->0) == Some(file),
        a.s.store.minted(file, Minted { tier, texture }).settled(file).ram(file) is Some,
    ensures
        ({
            let msg = Message::Media(MediaMessage::TextureReady { file, tier, texture });
            let after = orphaned(a, ctx, msg).0.windows[i];
            &&& after.viewer is Some
            &&& after.viewer->0.displayed is Full
            &&& after.viewer->0.displayed_path == Some(file)
        }),
{
    reveal(promoted);
    reveal(loaded_shown);
    let store = a.s.store.minted(file, Minted { tier, texture }).settled(file);
    let s = SharedModel { store, ..a.s };
    lemma_swept_at(a.windows, s, file, a.windows.len() as int, a.windows.len(), i);
}

} // verus!
