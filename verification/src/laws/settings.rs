//! What the settings dialog and the context menu do.
use crate::actions::Action;
use crate::budget::{
    cache_fitted, first_loose, fitted_leases, law_images_fit_or_are_pinned, lease_costs, total,
};
use crate::config::{with_setting, Config, Setting};
use crate::dispatch::dispatched;
use crate::files::FileId;
use crate::leases::{files_of, want_of, Lease};
use crate::media_tasks::Ctx;
use crate::message::{ContextMenuMessage, Message, SettingsMessage};
use crate::panels::{budget_set, context_message, settings_message};
use crate::paths::Source;
use crate::state::{
    lemma_with_config, with_config, DisplayedModel, SharedModel, Status, ViewerModel,
};
use crate::store::StoreModel;
use crate::thumbs::{thumb_costs, ThumbsModel};
use crate::time::Duration;
use crate::whole::whole;
use crate::window::{ModalModel, ToastKind, ToastModel, Wt};
use vstd::prelude::*;

verus! {

/// Whether `before` takes `msg` from the settings dialog.
pub open spec fn adjusted(before: Wt, after: Wt, ctx: Ctx, msg: SettingsMessage) -> bool {
    dispatched(before, after, ctx, Message::Settings(msg))
}

/// Whether `after` has one toast more than `before`, which expires in four
/// seconds and is the only thing behind the actions `acts`.
pub open spec fn tells(
    before: Wt,
    after: Wt,
    acts: Seq<Action>,
    kind: ToastKind,
    text: Seq<char>,
) -> bool {
    let id = before.w.state.value.next_toast_id;
    &&& after.w.toasts == before.w.toasts.push(ToastModel { id, kind, text })
    &&& after.out == (before.out + acts).push(
        Action::ExpireToast { id, delay: Duration { nanos: 4_000_000_000 } },
    )
}

/// What the settings are after a message of the dialog that changes one.
pub open spec fn readjusted(config: Config, msg: SettingsMessage) -> Option<Config> {
    match msg {
        SettingsMessage::SetPrefetchDepth(depth) => Some(
            Config {
                prefetch_depth: if depth < 1 {
                    1
                } else if depth > 10 {
                    10
                } else {
                    depth
                },
                ..config
            },
        ),
        SettingsMessage::ToggleReadOnly => Some(
            Config { read_only: !config.read_only, ..config },
        ),
        SettingsMessage::ToggleConfirmDelete => Some(
            Config { confirm_delete: !config.confirm_delete, ..config },
        ),
        SettingsMessage::ToggleCrispPixels => Some(
            Config { crisp_pixels: !config.crisp_pixels, ..config },
        ),
        _ => None,
    }
}

/// A setting that is changed in the dialog is saved, and nothing else changes.
pub proof fn law_changed_setting_is_saved(before: Wt, after: Wt, ctx: Ctx, msg: SettingsMessage)
    requires
        adjusted(before, after, ctx, msg),
        readjusted(before.s.config.value, msg) is Some,
    ensures
        after.s.config.value == readjusted(before.s.config.value, msg)->0,
        after.s.status == before.s.status,
        after.s.store == before.s.store,
        after.w.viewer == before.w.viewer,
        after.w.modal == before.w.modal,
        after.w.toasts == before.w.toasts,
        after.out == before.out.push(Action::SaveConfig),
{
    reveal(settings_message);
    let config = before.s.config.value;
    match msg {
        SettingsMessage::SetPrefetchDepth(depth) => {
            let n = readjusted(config, msg)->0.prefetch_depth;
            lemma_with_config(before.s, Setting::PrefetchDepth(n));
            assert(with_setting(config, Setting::PrefetchDepth(n)) == (Config {
                prefetch_depth: n,
                ..config
            })) by {
                reveal(with_setting);
            }
        },
        SettingsMessage::ToggleReadOnly => {
            let on = !config.read_only;
            lemma_with_config(before.s, Setting::ReadOnly(on));
            assert(with_setting(config, Setting::ReadOnly(on)) == (Config {
                read_only: on,
                ..config
            })) by {
                reveal(with_setting);
            }
        },
        SettingsMessage::ToggleConfirmDelete => {
            let on = !config.confirm_delete;
            lemma_with_config(before.s, Setting::ConfirmDelete(on));
            assert(with_setting(config, Setting::ConfirmDelete(on)) == (Config {
                confirm_delete: on,
                ..config
            })) by {
                reveal(with_setting);
            }
        },
        _ => {
            let on = !config.crisp_pixels;
            lemma_with_config(before.s, Setting::CrispPixels(on));
            assert(with_setting(config, Setting::CrispPixels(on)) == (Config {
                crisp_pixels: on,
                ..config
            })) by {
                reveal(with_setting);
            }
        },
    }
}

/// A new image budget is kept between 128 and 4096 megabytes and saved, and the
/// images of an open viewer are fitted to it at once.
pub proof fn law_new_budget_is_kept_to(before: Wt, after: Wt, ctx: Ctx, megabytes: usize)
    requires
        adjusted(before, after, ctx, SettingsMessage::SetCacheBudget(megabytes)),
    ensures
        ({
            let mb: usize = if megabytes < 128 {
                128
            } else if megabytes > 4096 {
                4096
            } else {
                megabytes
            };
            let v = before.w.viewer->0;
            let near = v.nav.around(before.s.config.value.prefetch_depth as nat);
            &&& after.s.config.value == (Config { cache_budget_mb: mb, ..before.s.config.value })
            &&& after.out == before.out.push(Action::SaveConfig)
            &&& before.w.viewer is None ==> after.w.viewer is None && after.s.store
                == before.s.store
            &&& before.w.viewer is Some ==> after.w.viewer is Some && (total(
                lease_costs(after.w.viewer->0.cache, after.s.store),
            ) <= mb * 1024 * 1024 || forall|i: int|
                0 <= i < after.w.viewer->0.cache.len() ==> near.contains(
                    (#[trigger] after.w.viewer->0.cache[i]).file,
                ) || after.w.viewer->0.cache[i].file == v.current())
        }),
{
    reveal(settings_message);
    reveal(budget_set);
    let mb: usize = if megabytes < 128 {
        128
    } else if megabytes > 4096 {
        4096
    } else {
        megabytes
    };
    let config = before.s.config.value;
    lemma_with_config(before.s, Setting::CacheBudgetMb(mb));
    assert(with_setting(config, Setting::CacheBudgetMb(mb)) == (Config {
        cache_budget_mb: mb,
        ..config
    })) by {
        reveal(with_setting);
    }
    if before.w.viewer is Some {
        let s = with_config(before.s, Setting::CacheBudgetMb(mb));
        let v = before.w.viewer->0;
        let near = v.nav.around(config.prefetch_depth as nat);
        law_images_fit_or_are_pinned(
            v,
            s,
            before.w.state.value.id,
            (mb * 1_048_576) as u64,
        );
        assert(after.s.config == s.config) by {
            reveal(cache_fitted);
        }
        let pinned = near.push(v.current());
        let cache = after.w.viewer->0.cache;
        assert forall|i: int|
            0 <= i < cache.len() && pinned.contains(
                (#[trigger] cache[i]).file,
            ) implies near.contains(cache[i].file) || cache[i].file == v.current() by {
            let k = choose|k: int| 0 <= k < pinned.len() && pinned[k] == cache[i].file;
            if k < near.len() {
                assert(near[k] == cache[i].file);
            }
        }
    }
}

/// Fitting to a budget never lets go of a pinned image, and of none at all
/// where the images fit.
pub proof fn law_budget_spares_pinned_images(
    leases: Seq<Lease>,
    store: StoreModel,
    window: u64,
    budget: u64,
    pinned: Seq<FileId>,
    k: int,
)
    requires
        0 <= k < leases.len(),
        pinned.contains(leases[k].file),
    ensures
        fitted_leases(leases, store, window, budget, pinned).0.contains(leases[k]),
        total(lease_costs(leases, store)) <= budget ==> fitted_leases(
            leases,
            store,
            window,
            budget,
            pinned,
        ) == (leases, store),
    decreases leases.len(),
{
    assert(leases.contains(leases[k]));
    if total(lease_costs(leases, store)) > budget {
        match first_loose(files_of(leases), pinned, 0) {
            Some(i) => {
                lemma_loose(files_of(leases), pinned, 0);
                if 0 <= i < leases.len() {
                    assert(i != k);
                    let rest = leases.remove(i);
                    let j = if k < i {
                        k
                    } else {
                        k - 1
                    };
                    assert(rest[j] == leases[k]);
                    law_budget_spares_pinned_images(
                        rest,
                        store.released(window, leases[i].file),
                        window,
                        budget,
                        pinned,
                        j,
                    );
                }
            },
            None => {},
        }
    }
}

proof fn lemma_loose(files: Seq<FileId>, pinned: Seq<FileId>, from: int)
    requires
        0 <= from,
    ensures
        match first_loose(files, pinned, from) {
            Some(i) => from <= i < files.len() && !pinned.contains(files[i]),
            None => true,
        },
    decreases files.len() - from,
{
    if from < files.len() && pinned.contains(files[from]) {
        lemma_loose(files, pinned, from + 1);
    }
}

/// A picture takes four bytes for each of its pixels.
pub proof fn law_picture_takes_four_bytes_a_pixel(
    leases: Seq<Lease>,
    store: StoreModel,
    file: FileId,
)
    requires
        leases.len() == 1,
        leases[0].file == file,
    ensures
        total(lease_costs(leases, store)) == match store.entry(file).ram {
            Some(ram) => 4 * ram.width * ram.height,
            None => 0,
        },
{
    let costs = lease_costs(leases, store);
    assert(costs.drop_last().len() == 0);
    assert(total(costs.drop_last()) == 0);
    match store.entry(file).ram {
        Some(ram) => {
            let (w, h) = (ram.width as int, ram.height as int);
            assert(w * h * 4 == 4 * w * h) by (nonlinear_arith);
            assert(0 <= w * h) by (nonlinear_arith)
                requires
                    0 <= w,
                    0 <= h,
            ;
        },
        None => {},
    }
}

/// Opening the settings puts the dialog up, closes the menu, and measures the
/// disk store afresh.
pub proof fn law_settings_open(before: Wt, after: Wt, ctx: Ctx, registered: bool)
    requires
        adjusted(before, after, ctx, SettingsMessage::OpenSettings(registered)),
    ensures
        after.w.modal == Some(ModalModel::Settings),
        after.w.state.value.open_menu is None,
        after.w.viewer == before.w.viewer,
        after.s.config == before.s.config,
        after.s.status.value == (Status {
            disk_cache_size: None,
            associations_registered: registered,
            ..before.s.status.value
        }),
        after.out == before.out.push(Action::ProbeDiskCache),
{
    reveal(settings_message);
}

/// What the disk store says of itself is noted and nothing else changes.
pub proof fn law_disk_store_is_noted(
    before: Wt,
    sized: Wt,
    swapped: Wt,
    ctx: Ctx,
    bytes: u64,
    present: bool,
)
    requires
        adjusted(before, sized, ctx, SettingsMessage::DiskCacheSize(bytes)),
        adjusted(before, swapped, ctx, SettingsMessage::DiskStoreSwapped(present)),
    ensures
        sized.s == (SharedModel {
            status: whole(Status { disk_cache_size: Some(bytes), ..before.s.status.value }),
            ..before.s
        }),
        swapped.s == (SharedModel {
            status: whole(Status { disk_store: present, ..before.s.status.value }),
            ..before.s
        }),
        sized.w.viewer == before.w.viewer,
        swapped.w.viewer == before.w.viewer,
        sized.out == before.out,
        swapped.out == before.out,
{
    reveal(settings_message);
}

/// Switching the disk thumbnails turns the setting around, drops the store until
/// its successor reports, and measures it afresh.
pub proof fn law_disk_thumbnails_alternate(before: Wt, after: Wt, ctx: Ctx)
    requires
        adjusted(before, after, ctx, SettingsMessage::ToggleDiskThumbs),
    ensures
        after.s.config.value == (Config {
            disk_thumbs: !before.s.config.value.disk_thumbs,
            ..before.s.config.value
        }),
        after.s.status.value == (Status {
            disk_cache_size: None,
            disk_store: false,
            ..before.s.status.value
        }),
        after.w.viewer == before.w.viewer,
        after.out == before.out + seq![
            Action::SwapDiskThumbs { on: !before.s.config.value.disk_thumbs },
            Action::SaveConfig,
            Action::ProbeDiskCache,
        ],
{
    reveal(settings_message);
    let on = !before.s.config.value.disk_thumbs;
    lemma_with_config(before.s, Setting::DiskThumbs(on));
    assert(with_setting(before.s.config.value, Setting::DiskThumbs(on)) == (Config {
        disk_thumbs: on,
        ..before.s.config.value
    })) by {
        reveal(with_setting);
    }
    assert(after.out =~= before.out + seq![
        Action::SwapDiskThumbs { on },
        Action::SaveConfig,
        Action::ProbeDiskCache,
    ]);
}

/// Clearing the disk store clears it and says so, where there is one.
pub proof fn law_disk_store_is_cleared(before: Wt, after: Wt, ctx: Ctx)
    requires
        adjusted(before, after, ctx, SettingsMessage::ClearDiskThumbs),
    ensures
        after.w.viewer == before.w.viewer,
        after.s.config == before.s.config,
        before.s.status.value.disk_store ==> after.s.status.value == (Status {
            disk_cache_size: None,
            ..before.s.status.value
        }) && tells(
            before,
            after,
            seq![Action::ClearDiskThumbs],
            ToastKind::Info,
            "Thumbnail store cleared"@,
        ),
        !before.s.status.value.disk_store ==> after.s == before.s && after.out == before.out
            && after.w.toasts == before.w.toasts,
{
    reveal(settings_message);
    assert(before.out.push(Action::ClearDiskThumbs) =~= before.out + seq![
        Action::ClearDiskThumbs,
    ]);
}

/// The associations are asked to turn around; what the system answers is taken
/// as it is and said to the user, an error as well.
pub proof fn law_associations_follow_the_answer(
    before: Wt,
    asked: Wt,
    answered: Wt,
    ctx: Ctx,
    result: Result<bool, String>,
)
    requires
        adjusted(before, asked, ctx, SettingsMessage::ToggleFileAssociations),
        adjusted(before, answered, ctx, SettingsMessage::AssociationsChanged(result)),
    ensures
        asked.s == before.s,
        asked.w.viewer == before.w.viewer,
        asked.out == before.out.push(
            Action::SetAssociations { on: !before.s.status.value.associations_registered },
        ),
        answered.w.viewer == before.w.viewer,
        answered.w.toasts.len() == before.w.toasts.len() + 1,
        match result {
            Ok(registered) => answered.s.status.value == (Status {
                associations_registered: registered,
                ..before.s.status.value
            }) && answered.w.toasts.last().kind == ToastKind::Info,
            Err(e) => answered.s == before.s && tells(
                before,
                answered,
                Seq::empty(),
                ToastKind::Error,
                "Couldn't update: "@ + e@,
            ),
        },
{
    reveal(settings_message);
    assert(before.out + Seq::<Action>::empty() =~= before.out);
}

/// Whether `before` takes `msg` from the context menu.
pub open spec fn chosen(before: Wt, after: Wt, ctx: Ctx, msg: ContextMenuMessage) -> bool {
    dispatched(before, after, ctx, Message::ContextMenu(msg))
}

/// The file on disk behind what is current: the file itself, or the archive it
/// is in.
pub open spec fn file_on_disk(v: ViewerModel) -> FileId {
    match v.source {
        Source::Fs => v.nav.files[v.nav.cursor],
        Source::Archive(archive) => archive,
    }
}

/// What a choice of the context menu has done with the current file, and what it
/// says of that.
pub open spec fn choice(v: ViewerModel, msg: ContextMenuMessage) -> Option<(Action, Seq<char>)> {
    match msg {
        ContextMenuMessage::CopyFile => Some(
            (Action::CopyFile { file: file_on_disk(v) }, "File copied"@),
        ),
        ContextMenuMessage::CopyFilePath => Some(
            (
                Action::WritePath { source: v.source, file: v.nav.files[v.nav.cursor] },
                "Path copied"@,
            ),
        ),
        ContextMenuMessage::CopyFilename => Some(
            (Action::WriteName { file: v.nav.files[v.nav.cursor] }, "Filename copied"@),
        ),
        _ => None,
    }
}

/// What a choice of the context menu shows of the current file, outside.
pub open spec fn shown_outside(v: ViewerModel, msg: ContextMenuMessage) -> Option<Action> {
    match msg {
        ContextMenuMessage::OpenImageLocation => Some(
            Action::Reveal { file: file_on_disk(v) },
        ),
        ContextMenuMessage::ImageProperties => Some(
            Action::ShowProperties { file: file_on_disk(v) },
        ),
        _ => None,
    }
}

/// A choice of the context menu closes it and concerns the current file: a copy
/// of the file, its path or its name, with a word on it, or its place and
/// properties.
pub proof fn law_context_menu_acts_on_the_current_file(
    before: Wt,
    after: Wt,
    ctx: Ctx,
    msg: ContextMenuMessage,
)
    requires
        chosen(before, after, ctx, msg),
        before.w.viewer is Some,
    ensures
        after.w.viewer == before.w.viewer,
        after.s == before.s,
        match choice(before.w.viewer->0, msg) {
            Some((action, note)) => tells(before, after, seq![action], ToastKind::Info, note)
                && !after.w.state.value.context_menu_open,
            None => true,
        },
        match shown_outside(before.w.viewer->0, msg) {
            Some(action) => after.out == before.out.push(action) && after.w.toasts
                == before.w.toasts && !after.w.state.value.context_menu_open,
            None => true,
        },
        msg is Show ==> after.w.state.value.context_menu_open && after.out == before.out,
        msg is Dismiss ==> !after.w.state.value.context_menu_open && after.out == before.out,
{
    reveal(context_message);
    match choice(before.w.viewer->0, msg) {
        Some((action, note)) => {
            assert(before.out.push(action) =~= before.out + seq![action]);
        },
        None => {},
    }
}

/// The picture on screen is copied where there is one that is sharp: a still in
/// full, an animation that plays, a video with a frame. Otherwise the user is
/// told to wait.
pub proof fn law_only_a_sharp_picture_is_copied(before: Wt, after: Wt, ctx: Ctx)
    requires
        chosen(before, after, ctx, ContextMenuMessage::CopyImage),
        before.w.viewer is Some,
    ensures
        after.w.viewer == before.w.viewer,
        after.s == before.s,
        !after.w.state.value.context_menu_open,
        ({
            let v = before.w.viewer->0;
            let sharp = match v.displayed {
                DisplayedModel::Full { .. } => true,
                DisplayedModel::Animated { .. } => v.anim.active is Some && want_of(
                    v.anim.cache,
                    v.anim.active->0.file,
                ) is Some && before.s.anims.frames.contains_key(v.anim.active->0.file),
                DisplayedModel::Video { .. } => v.video.frame is Some,
                _ => false,
            };
            if sharp {
                after.out == before.out.push(Action::CopyImage) && after.w.toasts
                    == before.w.toasts
            } else {
                tells(
                    before,
                    after,
                    Seq::empty(),
                    ToastKind::Info,
                    "Image is still loading"@,
                )
            }
        }),
{
    reveal(context_message);
    assert(before.out + Seq::<Action>::empty() =~= before.out);
}

/// What came of a copy of the picture is said.
pub proof fn law_finished_copy_is_told(
    before: Wt,
    after: Wt,
    ctx: Ctx,
    result: Result<(), String>,
)
    requires
        chosen(before, after, ctx, ContextMenuMessage::CopyImageFinished(result)),
    ensures
        after.w.viewer == before.w.viewer,
        after.s == before.s,
        match result {
            Ok(_) => tells(before, after, Seq::empty(), ToastKind::Info, "Image copied"@),
            Err(e) => tells(
                before,
                after,
                Seq::empty(),
                ToastKind::Error,
                "Couldn't copy: "@ + e@,
            ),
        },
{
    reveal(context_message);
    assert(before.out + Seq::<Action>::empty() =~= before.out);
}

/// A toast that is dismissed goes, and no other.
pub proof fn law_dismissed_toast_goes(before: Wt, after: Wt, ctx: Ctx, id: u64, other: ToastModel)
    requires
        dispatched(before, after, ctx, Message::DismissToast(id)),
    ensures
        after.w.viewer == before.w.viewer,
        after.s == before.s,
        after.out == before.out,
        other.id != id ==> (after.w.toasts.contains(other) <==> before.w.toasts.contains(other)),
        other.id == id ==> !after.w.toasts.contains(other),
{
    let keep = |t: ToastModel| t.id != id;
    let toasts = before.w.toasts;
    if toasts.contains(other) && other.id != id {
        let i = choose|i: int| 0 <= i < toasts.len() && toasts[i] == other;
        toasts.lemma_filter_contains(keep, i);
    }
    if toasts.filter(keep).contains(other) {
        toasts.lemma_filter_contains_rev(keep, other);
        let kept = toasts.filter(keep);
        let k = choose|k: int| 0 <= k < kept.len() && kept[k] == other;
        toasts.lemma_filter_pred(keep, k);
    }
}

/// A thumbnail takes four bytes for each pixel of the preview itself.
pub proof fn law_thumbnail_takes_four_bytes_a_pixel(thumbs: ThumbsModel)
    requires
        thumbs.list.len() == 1,
    ensures
        thumbs.bytes() == 4 * thumbs.list[0].thumb.size.0 * thumbs.list[0].thumb.size.1,
{
    let costs = thumb_costs(thumbs.list);
    assert(costs.drop_last().len() == 0);
    assert(total(costs.drop_last()) == 0);
    let (w, h) = (thumbs.list[0].thumb.size.0 as int, thumbs.list[0].thumb.size.1 as int);
    assert(w * h * 4 == 4 * w * h) by (nonlinear_arith);
    assert(0 <= w * h) by (nonlinear_arith)
        requires
            0 <= w,
            0 <= h,
    ;
}

} // verus!
