//! What holds across the windows of the program.
use crate::actions::{Action, JobZoom, Lane};
use crate::app::{
    adopted, config_adopted, first_viewing, ids_of, invalid_reported, lemma_swept_at, measured,
    pumped, relaid, routed, routed_end, tagged, window_added, window_closed, window_routed,
    AppModel, Envelope, Routed,
};
use crate::boot::{booted, PathKind, ProbedPath};
use crate::config::{Config, PrefetchScaler, WorkingSetTrim};
use crate::dispatch::dispatched;
use crate::files::FileId;
use crate::laws::landing::{kept_for, settled_to};
use crate::laws::releasing::law_released_claims_are_gone;
use crate::laws::windows::names_archive;
use crate::leases::{files_of, lemma_holds, want_of};
use crate::media::{promoted, MediaError};
use crate::media_tasks::{loaded_shown, Ctx};
use crate::message::{MediaMessage, Message, VideoMessage};
use crate::state::{DisplayedModel, SharedModel, Span, Status};
use crate::store::{demand, Claim, Entry, Job, RamImage, StoreModel, Texture, Tier};
use crate::time::Instant;
use crate::window::{session_closed, wt, Coords, ToastKind, WindowModel, Wt};
use crate::window_events::tiles_settling;
use crate::working_set::{in_background, trim_reconciled};
use vstd::prelude::*;

verus! {

/// An action for a window.
pub open spec fn to(window: u64, action: Action) -> Routed {
    Routed { window: Some(window), action }
}

/// An action for the program as a whole.
pub open spec fn at_large(action: Action) -> Routed {
    Routed { window: None, action }
}

/// The scan a path is opened with.
pub open spec fn scan_of(s: SharedModel, file: FileId) -> Action {
    if names_archive(s, file) {
        Action::ScanArchive { file }
    } else {
        Action::ScanDirectory { file }
    }
}

/// Whether `w` is an empty window at the saved bounds, waiting for a file since
/// `since` if it is waiting at all.
pub open spec fn starts_fresh(
    w: WindowModel,
    id: u64,
    config: Config,
    since: Option<Instant>,
) -> bool {
    let state = w.state.value;
    &&& w.viewer is None
    &&& w.modal is None
    &&& w.toasts.len() == 0
    &&& state.id == id
    &&& state.focused
    &&& !state.minimized
    &&& state.maximized == config.window_maximized
    &&& state.fullscreen == config.window_fullscreen
    &&& state.window_size == (Coords {
        first: config.window_width,
        second: config.window_height,
    })
    &&& state.restored_size == state.window_size
    &&& config.window_x is Some && config.window_y is Some ==> state.window_pos == (Coords {
        first: config.window_x->0,
        second: config.window_y->0,
    })
    &&& state.restored_pos == state.window_pos
    &&& state.open_menu is None
    &&& !state.context_menu_open
    &&& !state.help_open
    &&& state.opening_since == since
}

/// A path handed on from another launch opens a window of its own, behind the
/// others and raised, which starts opening the path; without a path it stays
/// empty. The other windows are left alone.
pub proof fn law_forwarded_launch_opens_a_window(
    before: AppModel,
    after: AppModel,
    acts: Seq<Routed>,
    window: u64,
    path: Option<FileId>,
    now: Instant,
    visible: Span,
)
    requires
        routed(before, after, acts, Envelope::Forwarded { window, path }, now, visible),
    ensures
        after.s == before.s,
        after.windows.len() == before.windows.len() + 1,
        after.windows.drop_last() == before.windows,
        starts_fresh(
            after.windows.last(),
            window,
            before.s.config.value,
            if path is Some {
                Some(now)
            } else {
                None
            },
        ),
        acts == match path {
            Some(file) => seq![
                to(window, Action::OpenWindow { window }),
                to(window, Action::FocusWindow),
                to(window, Action::RecalcViewport),
                to(window, scan_of(before.s, file)),
            ],
            None => seq![
                to(window, Action::OpenWindow { window }),
                to(window, Action::FocusWindow),
                to(window, Action::RecalcViewport),
            ],
        },
{
    reveal(window_added);
    assert(after.windows.drop_last() =~= before.windows);
    match path {
        Some(file) => {
            assert(acts =~= seq![
                to(window, Action::OpenWindow { window }),
                to(window, Action::FocusWindow),
                to(window, Action::RecalcViewport),
                to(window, scan_of(before.s, file)),
            ]);
        },
        None => {
            assert(acts =~= seq![
                to(window, Action::OpenWindow { window }),
                to(window, Action::FocusWindow),
                to(window, Action::RecalcViewport),
            ]);
        },
    }
}

/// The program starts with its chores and one window, not raised, that opens the
/// path it was given if that is there.
pub proof fn law_start_opens_one_window(
    s: SharedModel,
    window: u64,
    path: Option<ProbedPath>,
    now: Instant,
)
    ensures
        ({
            let (app, acts) = booted(s, window, path, now);
            let there = path is Some && path->0.kind != PathKind::Missing;
            let chores = if s.status.value.disk_store {
                seq![at_large(Action::HousekeepDiskThumbs), at_large(Action::CleanExtractions)]
            } else {
                seq![at_large(Action::CleanExtractions)]
            };
            let opened = seq![
                to(window, Action::OpenWindow { window }),
                to(window, Action::RecalcViewport),
            ];
            &&& app.s == s
            &&& app.windows.len() == 1
            &&& starts_fresh(
                app.windows[0],
                window,
                s.config.value,
                if there {
                    Some(now)
                } else {
                    None
                },
            )
            &&& there ==> acts == chores + opened.push(to(window, scan_of(s, path->0.path)))
            &&& !there ==> acts == chores + opened
        }),
{
    reveal(window_added);
    let (app, acts) = booted(s, window, path, now);
    let there = path is Some && path->0.kind != PathKind::Missing;
    let chores = if s.status.value.disk_store {
        seq![at_large(Action::HousekeepDiskThumbs), at_large(Action::CleanExtractions)]
    } else {
        seq![at_large(Action::CleanExtractions)]
    };
    let opened = seq![
        to(window, Action::OpenWindow { window }),
        to(window, Action::RecalcViewport),
    ];
    if there {
        assert(acts =~= chores + opened.push(to(window, scan_of(s, path->0.path))));
    } else {
        assert(acts =~= chores + opened);
    }
}

/// A window that is up is maximized and put on the whole screen as it was saved,
/// in that order.
pub proof fn law_saved_state_is_replayed(
    before: AppModel,
    after: AppModel,
    acts: Seq<Routed>,
    id: u64,
    now: Instant,
    visible: Span,
)
    requires
        routed(before, after, acts, Envelope::Opened(id), now, visible),
    ensures
        after == before,
        ({
            let config = before.s.config.value;
            let full = to(id, Action::SetFullscreen { on: true });
            let wide = to(id, Action::Maximize);
            acts == if config.window_maximized && config.window_fullscreen {
                seq![wide, full]
            } else if config.window_maximized {
                seq![wide]
            } else if config.window_fullscreen {
                seq![full]
            } else {
                Seq::empty()
            }
        }),
{
    let config = before.s.config.value;
    let full = to(id, Action::SetFullscreen { on: true });
    let wide = to(id, Action::Maximize);
    assert(acts =~= if config.window_maximized && config.window_fullscreen {
        seq![wide, full]
    } else if config.window_maximized {
        seq![wide]
    } else if config.window_fullscreen {
        seq![full]
    } else {
        Seq::empty()
    });
}

/// A closed window goes, and the others stay as they are; with the last one the
/// program ends. What the window held alone is let go of.
pub proof fn law_closed_window_goes(
    before: AppModel,
    after: AppModel,
    acts: Seq<Routed>,
    i: int,
    now: Instant,
    visible: Span,
    c: Claim,
)
    requires
        0 <= i < before.windows.len(),
        ids_of(before.windows).no_duplicates(),
        routed(
            before,
            after,
            acts,
            Envelope::Closed(before.windows[i].state.value.id),
            now,
            visible,
        ),
    ensures
        after.windows == before.windows.remove(i),
        acts == if before.windows.len() == 1 {
            seq![at_large(Action::Exit)]
        } else {
            Seq::empty()
        },
        after.s.config == before.s.config,
        before.windows[i].viewer is Some && c.window == before.windows[i].state.value.id
            && want_of(before.windows[i].viewer->0.cache, c.file) is Some
            ==> !after.s.store.claims.contains(c),
        c.window != before.windows[i].state.value.id ==> (after.s.store.claims.contains(c)
            <==> before.s.store.claims.contains(c)),
{
    reveal(window_closed);
    reveal(session_closed);
    let ids = ids_of(before.windows);
    let id = before.windows[i].state.value.id;
    assert(ids[i] == id);
    ids.index_of_first_ensures(id);
    assert(before.find(id) == Some(i));
    match before.windows[i].viewer {
        Some(v) => {
            law_released_claims_are_gone(before.s.store, id, files_of(v.cache), c);
            lemma_holds(v.cache, c.file);
            if want_of(v.cache, c.file) is Some {
                let k = choose|k: int|
                    0 <= k < v.cache.len() && (#[trigger] v.cache[k]).file == c.file;
                assert(files_of(v.cache)[k] == c.file);
            }
        },
        None => {},
    }
}

/// A reloaded config that differs is taken over as a whole; every window is laid
/// out again and keeps what it shows. One that does not differ changes nothing.
pub proof fn law_reloaded_config_is_taken_over(
    before: AppModel,
    after: AppModel,
    acts: Seq<Routed>,
    config: Config,
    now: Instant,
    visible: Span,
    i: int,
)
    requires
        routed(before, after, acts, Envelope::ConfigReloaded(config), now, visible),
        0 <= i < before.windows.len(),
    ensures
        after.windows.len() == before.windows.len(),
        after.windows[i].viewer == before.windows[i].viewer,
        after.windows[i].modal == before.windows[i].modal,
        after.windows[i].state.value.id == before.windows[i].state.value.id,
        after.s.config.value == config,
        after.s.store == before.s.store,
        after.s.paths == before.s.paths,
        config == before.s.config.value ==> after == before && acts.len() == 0,
        config != before.s.config.value ==> {
            &&& after.s.status.value == (Status {
                prefetch_gpu_bake: config.resource.value.prefetch_scaler == PrefetchScaler::Gpu,
                ..before.s.status.value
            })
            &&& acts.len() > 0
            &&& acts[0] == at_large(Action::AdoptResourceLimits)
            &&& acts.contains(to(before.windows[i].state.value.id, Action::RecalcViewport))
        },
{
    reveal(config_adopted);
    reveal(adopted);
    if config != before.s.config.value {
        let s = adopted(before.s, config);
        lemma_relaid(before.windows, s, before.windows.len(), i);
        let more = relaid(before.windows, s, before.windows.len()).1;
        let x = to(before.windows[i].state.value.id, Action::RecalcViewport);
        let k = choose|k: int| 0 <= k < more.len() && more[k] == x;
        assert(acts[k + 1] == x);
    }
}

proof fn lemma_relaid(windows: Seq<WindowModel>, s: SharedModel, n: nat, i: int)
    requires
        n <= windows.len(),
        0 <= i < windows.len(),
    ensures
        ({
            let (after, acts) = relaid(windows, s, n);
            &&& after.len() == windows.len()
            &&& after[i].viewer == windows[i].viewer
            &&& after[i].modal == windows[i].modal
            &&& after[i].state.value.id == windows[i].state.value.id
            &&& i >= n ==> after[i] == windows[i]
            &&& i < n ==> acts.contains(to(windows[i].state.value.id, Action::RecalcViewport))
        }),
    decreases n,
{
    if n > 0 {
        lemma_relaid(windows, s, (n - 1) as nat, i);
        let (before, acts) = relaid(windows, s, (n - 1) as nat);
        let w = windows[n - 1];
        let t = tiles_settling(wt(w, s, seq![Action::RecalcViewport]));
        let mine = tagged(w.state.value.id, t.out);
        let x = to(windows[i].state.value.id, Action::RecalcViewport);
        if i == n - 1 {
            assert(t.out[0] == Action::RecalcViewport);
            assert(mine[0] == x);
            assert((acts + mine)[acts.len() as int] == x);
        } else if i < n - 1 {
            let k = choose|k: int| 0 <= k < acts.len() && acts[k] == x;
            assert((acts + mine)[k] == x);
        }
    }
}

/// A config that does not parse changes no setting; the window in focus says so,
/// or the first one if none is.
pub proof fn law_broken_config_is_told_once(
    before: AppModel,
    after: AppModel,
    acts: Seq<Routed>,
    now: Instant,
    visible: Span,
    i: int,
)
    requires
        routed(before, after, acts, Envelope::ConfigInvalid, now, visible),
        0 <= i < before.windows.len(),
        before.windows[i].state.value.focused || i == 0,
        forall|k: int|
            0 <= k < before.windows.len() && (before.windows[i].state.value.focused ==> k < i)
                ==> !(#[trigger] before.windows[k]).state.value.focused,
    ensures
        after.s == before.s,
        after.windows.len() == before.windows.len(),
        after.windows[i].toasts.len() == before.windows[i].toasts.len() + 1,
        after.windows[i].toasts.last().kind == ToastKind::Error,
        after.windows[i].viewer == before.windows[i].viewer,
        forall|k: int|
            0 <= k < before.windows.len() && k != i ==> after.windows[k]
                == #[trigger] before.windows[k],
{
    reveal(invalid_reported);
    let focus = before.windows.map_values(|w: WindowModel| w.state.value.focused);
    focus.index_of_first_ensures(true);
    if before.windows[i].state.value.focused {
        assert(focus[i]);
        assert forall|k: int| 0 <= k < i implies !focus[k] by {
            assert(!before.windows[k].state.value.focused);
        }
        assert(focus.index_of_first(true) == Some(i));
    } else {
        assert forall|k: int| 0 <= k < focus.len() implies !focus[k] by {
            assert(!before.windows[k].state.value.focused);
        }
        assert(focus.index_of_first(true) is None);
    }
}

/// Whether the program as a whole is in the background in the way the settings
/// mean.
pub open spec fn all_away(windows: Seq<WindowModel>, trim_when: WorkingSetTrim) -> bool {
    &&& windows.len() > 0
    &&& trim_when != WorkingSetTrim::Never
    &&& forall|i: int|
        0 <= i < windows.len() ==> if trim_when == WorkingSetTrim::AllUnfocused {
            !(#[trigger] windows[i]).state.value.focused
        } else {
            windows[i].state.value.minimized
        }
}

/// The memory is to be trimmed some time after the program went to the
/// background, once for each time it did: the timer is set on the way there, and
/// one set before no longer counts.
pub proof fn law_trim_is_armed_on_the_way_to_the_background(
    windows: Seq<WindowModel>,
    s: SharedModel,
)
    requires
        s.status.value.trim_generation < u64::MAX,
    ensures
        ({
            let resource = s.config.value.resource.value;
            let away = all_away(windows, resource.trim_when);
            let (after, acts) = trim_reconciled(windows, s);
            let next = (s.status.value.trim_generation + 1) as u64;
            &&& after.status.value.trim_armed == away
            &&& after.config == s.config
            &&& after.store == s.store
            &&& after.status.value.trim_generation == if away == s.status.value.trim_armed {
                s.status.value.trim_generation
            } else {
                next
            }
            &&& acts == if away && !s.status.value.trim_armed {
                seq![Action::TrimLater { generation: next, delay: resource.trim_after }]
            } else {
                Seq::empty()
            }
        }),
{
    reveal(trim_reconciled);
    lemma_all_away(windows, s.config.value.resource.value.trim_when);
}

proof fn lemma_all_away(windows: Seq<WindowModel>, trim_when: WorkingSetTrim)
    ensures
        all_away(windows, trim_when) == in_background(windows, trim_when),
{
    if all_away(windows, trim_when) {
        assert forall|i: int| 0 <= i < windows.len() implies if trim_when
            == WorkingSetTrim::AllUnfocused {
            !(#[trigger] windows[i]).state.value.focused
        } else {
            windows[i].state.value.minimized
        } by {}
    }
}

/// The memory is trimmed when the latest timer runs out with the program still in
/// the background, and not otherwise.
pub proof fn law_trim_needs_the_background(
    before: AppModel,
    after: AppModel,
    acts: Seq<Routed>,
    generation: u64,
    now: Instant,
    visible: Span,
)
    requires
        routed(before, after, acts, Envelope::TrimWorkingSet(generation), now, visible),
    ensures
        after == before,
        acts == if generation == before.s.status.value.trim_generation && all_away(
            before.windows,
            before.s.config.value.resource.value.trim_when,
        ) {
            seq![at_large(Action::TrimWorkingSet)]
        } else {
            Seq::empty()
        },
{
    lemma_all_away(before.windows, before.s.config.value.resource.value.trim_when);
}

/// A decode outlives its window: its pixels are kept for as long as anyone asks
/// for them, and the upload they make possible is run for the first window that
/// shows something.
pub proof fn law_orphaned_decode_is_kept(
    before: AppModel,
    after: AppModel,
    acts: Seq<Routed>,
    window: u64,
    file: FileId,
    ram: RamImage,
    now: Instant,
    visible: Span,
)
    requires
        !ids_of(before.windows).contains(window),
        routed(
            before,
            after,
            acts,
            Envelope::Win(
                window,
                Message::Media(MediaMessage::Decoded { file, ram, thumb: None }),
            ),
            now,
            visible,
        ),
    ensures
        after.windows == before.windows,
        ({
            let entry = Entry {
                ram: Some(ram),
                minted: before.s.store.entry(file).minted,
                pending: false,
            };
            let want = demand(before.s.store.claims, file);
            let uploads = want.rank_spec() >= 2 && !(entry.minted is Some && entry.minted->0.tier
                == want);
            &&& settled_to(before.s.store, after.s.store, file, kept_for(entry, want))
            &&& uploads && first_viewing(before.windows) is Some ==> acts == seq![
                to(
                    first_viewing(before.windows)->0,
                    Action::RunJob {
                        job: Job::Upload { file, tier: want },
                        lane: Lane::Prefetch,
                        zoom: JobZoom::Fit,
                    },
                ),
            ]
            &&& !uploads ==> acts.len() == 0
        }),
{
    let ids = ids_of(before.windows);
    ids.index_of_first_ensures(window);
    let entry = Entry {
        ram: Some(ram),
        minted: before.s.store.entry(file).minted,
        pending: false,
    };
    let want = demand(before.s.store.claims, file);
    let landed = before.s.store.decoded(file, ram);
    assert(landed.settled(file).entries =~= before.s.store.entries.insert(
        file,
        kept_for(entry, want),
    ));
    let job = landed.missing_job(file);
    if job is Some && first_viewing(before.windows) is Some {
        assert(acts =~= seq![
            to(
                first_viewing(before.windows)->0,
                Action::RunJob {
                    job: Job::Upload { file, tier: want },
                    lane: Lane::Prefetch,
                    zoom: JobZoom::Fit,
                },
            ),
        ]);
    }
}

/// The first window that shows something is one that does, and none before it
/// does.
pub proof fn law_first_viewing_window(windows: Seq<WindowModel>)
    ensures
        match first_viewing(windows) {
            Some(id) => exists|i: int|
                #![trigger windows[i]]
                0 <= i < windows.len() && windows[i].viewer is Some
                    && windows[i].state.value.id == id && forall|k: int|
                    0 <= k < i ==> (#[trigger] windows[k]).viewer is None,
            None => forall|i: int|
                0 <= i < windows.len() ==> (#[trigger] windows[i]).viewer is None,
        },
    decreases windows.len(),
{
    if windows.len() > 0 {
        if windows[0].viewer is Some {
        } else {
            let rest = windows.drop_first();
            law_first_viewing_window(rest);
            match first_viewing(rest) {
                Some(id) => {
                    let i = choose|i: int|
                        #![trigger rest[i]]
                        0 <= i < rest.len() && rest[i].viewer is Some && rest[i].state.value.id
                            == id && forall|k: int|
                            0 <= k < i ==> (#[trigger] rest[k]).viewer is None;
                    assert(windows[i + 1] == rest[i]);
                    assert forall|k: int| 0 <= k < i + 1 implies (
                    #[trigger] windows[k]).viewer is None by {
                        if k > 0 {
                            assert(rest[k - 1] == windows[k]);
                        }
                    }
                },
                None => {
                    assert forall|i: int| 0 <= i < windows.len() implies (
                    #[trigger] windows[i]).viewer is None by {
                        if i > 0 {
                            assert(rest[i - 1] == windows[i]);
                        }
                    }
                },
            }
        }
    }
}

/// A video extracted for a window that is gone is thrown away.
pub proof fn law_orphaned_extraction_is_discarded(
    before: AppModel,
    after: AppModel,
    acts: Seq<Routed>,
    window: u64,
    file: FileId,
    temp: u64,
    now: Instant,
    visible: Span,
)
    requires
        !ids_of(before.windows).contains(window),
        routed(
            before,
            after,
            acts,
            Envelope::Win(
                window,
                Message::VideoControls(VideoMessage::Extracted(file, Ok(temp))),
            ),
            now,
            visible,
        ),
    ensures
        after == before,
        acts == seq![at_large(Action::DiscardTemp { temp })],
{
    ids_of(before.windows).index_of_first_ensures(window);
}

/// At the end of a turn every image that was let go of and that nobody asks for
/// any more is gone from the store, and no image is left to be looked at.
pub proof fn law_released_images_are_dropped(a: AppModel, k: int)
    requires
        0 <= k < a.s.store.dirty.len(),
        demand(a.s.store.claims, a.s.store.dirty[k]) == Tier::Evicted,
    ensures
        ({
            let after = pumped(a).0.s.store;
            let entry = after.entry(a.s.store.dirty[k]);
            &&& after.dirty.len() == 0
            &&& after.claims == a.s.store.claims
            &&& entry.ram is None
            &&& entry.minted is None
        }),
{
    lemma_pumped(a.s.store, a.s.store.dirty.len(), k);
}

proof fn lemma_pumped(store: StoreModel, n: nat, k: int)
    requires
        n <= store.dirty.len(),
        0 <= k < store.dirty.len(),
        demand(store.claims, store.dirty[k]) == Tier::Evicted,
    ensures
        store.pumped(n).0.claims == store.claims,
        k < n ==> store.pumped(n).0.entry(store.dirty[k]).ram is None && store.pumped(n).0.entry(
            store.dirty[k],
        ).minted is None,
    decreases n,
{
    if n > 0 {
        lemma_pumped(store, (n - 1) as nat, k);
    }
}

/// A picture that came in has the image area measured after everything else its
/// window does; so has a new layout that left the window its size, if it moved
/// anything. Nothing else is measured.
pub proof fn law_new_layouts_are_measured(before: WindowModel, t: Wt, msg: Message)
    ensures
        ({
            let acts = measured(before, t, msg);
            let brought = match msg {
                Message::Media(m) => m is TextureReady || m is Decoded || m is AnimDecoded || m
                    is ViewRotated || m is PromoteCurrent,
                _ => false,
            };
            let laid_out = (t.out.contains(Action::RecalcViewport) || t.out.contains(
                Action::AdoptMeasuredViewport,
            )) && t.w.state.value.window_size == before.state.value.window_size;
            acts == if brought {
                t.out.push(Action::MeasureImageArea { if_moved: false })
            } else if laid_out {
                t.out.push(Action::MeasureImageArea { if_moved: true })
            } else {
                t.out
            }
        }),
{
}

/// A message for a window that is there is handled by that window, and what comes
/// of it goes to that window.
pub proof fn law_message_goes_to_its_window(
    before: AppModel,
    after: AppModel,
    acts: Seq<Routed>,
    i: int,
    msg: Message,
    now: Instant,
    visible: Span,
    k: int,
)
    requires
        0 <= i < before.windows.len(),
        ids_of(before.windows).no_duplicates(),
        match msg {
            Message::Media(m) => !(m is TextureReady),
            _ => true,
        },
        routed(
            before,
            after,
            acts,
            Envelope::Win(before.windows[i].state.value.id, msg),
            now,
            visible,
        ),
        0 <= k < acts.len(),
    ensures
        acts[k].window == Some(before.windows[i].state.value.id),
        ({
            let ctx = Ctx { window: before.windows[i].state.value.id, now, visible };
            exists|t: Wt|
                #![trigger dispatched(wt(before.windows[i], before.s, Seq::empty()), t, ctx, msg)]
                {
                    &&& dispatched(wt(before.windows[i], before.s, Seq::empty()), t, ctx, msg)
                    &&& after.s == t.s
                    &&& after.windows == before.windows.update(i, t.w)
                    &&& acts.len() >= t.out.len()
                    &&& k < t.out.len() ==> acts[k].action == t.out[k]
                }
        }),
{
    let ids = ids_of(before.windows);
    let id = before.windows[i].state.value.id;
    assert(ids[i] == id);
    ids.index_of_first_ensures(id);
    assert(before.find(id) == Some(i));
}

/// A broken file is forgotten by the store even where its window is gone.
pub proof fn law_orphaned_failure_is_forgotten(
    before: AppModel,
    after: AppModel,
    acts: Seq<Routed>,
    window: u64,
    file: FileId,
    err: String,
    exists_on_disk: bool,
    now: Instant,
    visible: Span,
)
    requires
        !ids_of(before.windows).contains(window),
        routed(
            before,
            after,
            acts,
            Envelope::Win(
                window,
                Message::Media(
                    MediaMessage::DecodeFailed {
                        file,
                        err: MediaError::Failed(err),
                        exists: exists_on_disk,
                    },
                ),
            ),
            now,
            visible,
        ),
    ensures
        after.windows == before.windows,
        acts.len() == 0,
        !after.s.store.entries.contains_key(file),
        forall|k: int|
            0 <= k < after.s.store.claims.len() ==> (#[trigger] after.s.store.claims[k]).file
                != file,
{
    ids_of(before.windows).index_of_first_ensures(window);
    let claims = before.s.store.claims;
    let keep = |c: Claim| c.file != file;
    assert forall|k: int| 0 <= k < claims.filter(keep).len() implies (#[trigger] claims.filter(
        keep,
    )[k]).file != file by {
        claims.lemma_filter_pred(keep, k);
    }
}

/// An image that was let go of by one window and is still asked for by another
/// has what it misses run for the first window that shows something.
pub proof fn law_image_still_wanted_is_brought_in(a: AppModel, file: FileId, id: u64)
    requires
        a.s.store.dirty == seq![file],
        !a.s.store.entry(file).pending,
        a.s.store.entry(file).ram is None,
        demand(a.s.store.claims, file) != Tier::Evicted,
        first_viewing(a.windows) == Some(id),
    ensures
        pumped(a).1 == seq![
            to(
                id,
                Action::RunJob {
                    job: Job::Decode { file },
                    lane: Lane::Prefetch,
                    zoom: JobZoom::Fit,
                },
            ),
        ],
        pumped(a).0.s.store.entry(file).pending,
{
    let store = a.s.store;
    assert(store.pumped(0) == (store, Seq::<Job>::empty()));
    assert(store.pumped(1).1 =~= seq![Job::Decode { file }]);
    assert(pumped(a).1 =~= seq![
        to(
            id,
            Action::RunJob {
                job: Job::Decode { file },
                lane: Lane::Prefetch,
                zoom: JobZoom::Fit,
            },
        ),
    ]);
}

/// A texture that lands shows in every window that waits for its image, whichever
/// window it was made for.
pub proof fn law_landed_texture_reaches_every_window(
    before: AppModel,
    after: AppModel,
    acts: Seq<Routed>,
    ctx: Ctx,
    file: FileId,
    tier: Tier,
    texture: Texture,
    k: int,
)
    requires
        window_routed(
            before,
            after,
            acts,
            ctx,
            Message::Media(MediaMessage::TextureReady { file, tier, texture }),
        ),
        before.find(ctx.window) is Some,
        0 <= k < before.windows.len(),
        k != before.find(ctx.window)->0,
        before.windows[k].viewer is Some,
        ({
            let v = before.windows[k].viewer->0;
            (v.displayed is Placeholder && v.displayed_path == Some(file)) || (
            v.displayed is Nothing && v.current() == file)
        }),
        after.s.store.entry(file).ram is Some,
    ensures
        after.windows[k].viewer is Some,
        ({
            let ram = after.s.store.entry(file).ram->0;
            let v = after.windows[k].viewer->0;
            &&& v.displayed == (DisplayedModel::Full {
                original_size: (ram.width, ram.height),
                rotated: None,
            })
            &&& v.displayed_path == Some(file)
            &&& v.pending_since is None
            &&& v.nav == before.windows[k].viewer->0.nav
        }),
{
    let msg = Message::Media(MediaMessage::TextureReady { file, tier, texture });
    let i = before.find(ctx.window)->0;
    ids_of(before.windows).index_of_first_ensures(ctx.window);
    let t = choose|t: Wt|
        #![trigger dispatched(wt(before.windows[i], before.s, Seq::empty()), t, ctx, msg)]
        {
            &&& dispatched(wt(before.windows[i], before.s, Seq::empty()), t, ctx, msg)
            &&& routed_end(before, after, acts, ctx, msg, i, t)
        };
    let windows = before.windows.update(i, t.w);
    lemma_swept_at(windows, t.s, file, i, windows.len(), k);
    reveal(promoted);
    reveal(loaded_shown);
}

} // verus!
