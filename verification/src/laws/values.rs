//! What holds of paths, texts, times and plans.
use crate::config::EvictConfig;
use crate::files::FileId;
use crate::jobs::{after_poll, after_try, plan_for, MintPlan, Patience, Upload, UploadStep};
use crate::laws::controls::picture_size;
use crate::laws::filing::lemma_last_where;
use crate::paths::{
    archive_extensions, at_root, dir_part, extension_part, is_separator, last_where, listed, lower,
    media_extensions, name_part, path_text, same_ignoring_case, sibling_text, video_extensions,
    PathStyle, Source,
};
use crate::state::SharedModel;
use crate::store::{Texture, Tier};
use crate::text::{copied_text, decimal_text, digit, name_text};
use crate::time::{elapsed, later, Duration, Instant};
use crate::view::{plan_of, title_text, TitleParts};
use crate::window::WindowModel;
use vstd::prelude::*;

verus! {

/// Whether `c` separates the parts of a path.
pub open spec fn separates(c: char, style: PathStyle) -> bool {
    c == '/' || style == PathStyle::Windows && c == '\\'
}

/// A file's name is what is behind the last separator of its path: it holds none,
/// and the path is some directory followed by it.
pub proof fn law_name_is_behind_the_last_separator(path: Seq<char>, style: PathStyle)
    ensures
        ({
            let name = name_part(path, style);
            let k = path.len() - name.len();
            &&& 0 <= k
            &&& path == path.take(k) + name
            &&& k > 0 ==> separates(path[k - 1], style)
            &&& forall|i: int| 0 <= i < name.len() ==> !separates(#[trigger] name[i], style)
        }),
{
    let p = |c: char| is_separator(c, style);
    lemma_last_where(path, p);
    let name = name_part(path, style);
    let k = path.len() - name.len();
    assert(path =~= path.take(k) + name);
    assert forall|i: int| 0 <= i < name.len() implies !separates(#[trigger] name[i], style) by {
        assert(!p(path[k + i]));
    }
}

/// A path is its directory, a separator and its name; a directory that is a root
/// ends in the separator itself, and a bare name has no directory.
pub proof fn law_path_is_directory_and_name(path: Seq<char>, style: PathStyle)
    ensures
        ({
            let dir = dir_part(path, style);
            let name = name_part(path, style);
            let n = dir.len() as int;
            ||| dir.len() == 0 && path == name
            ||| n < path.len() && separates(path[n], style) && path == dir.push(path[n]) + name
            ||| n > 0 && separates(dir.last(), style) && path == dir + name && (n == 1 || n == 3
                && style == PathStyle::Windows && dir[1] == ':')
        }),
{
    let p = |c: char| is_separator(c, style);
    lemma_last_where(path, p);
    let dir = dir_part(path, style);
    let name = name_part(path, style);
    let i = last_where(path, p);
    if i < 0 {
        assert(path =~= name);
    } else if at_root(path, i, style) {
        assert(path =~= dir + name);
    } else {
        assert(path =~= dir.push(path[i]) + name);
    }
}

/// A sibling is in the same directory, under the name it was given.
pub proof fn law_sibling_shares_the_directory(
    path: Seq<char>,
    name: Seq<char>,
    style: PathStyle,
)
    requires
        forall|i: int| 0 <= i < name.len() ==> !separates(#[trigger] name[i], style),
    ensures
        name_part(sibling_text(path, name, style), style) == name,
        dir_part(sibling_text(path, name, style), style) == dir_part(path, style),
{
    let p = |c: char| is_separator(c, style);
    lemma_last_where(path, p);
    let i = last_where(path, p);
    let to = sibling_text(path, name, style);
    lemma_last_where(to, p);
    let j = last_where(to, p);
    assert forall|k: int| i < k < to.len() implies !p(#[trigger] to[k]) by {
        assert(to[k] == name[k - i - 1]);
        assert(!separates(name[k - i - 1], style));
    }
    if i >= 0 {
        assert(to[i] == path[i]);
        assert(p(to[i]));
    }
    assert(j == i);
    assert(name_part(to, style) =~= name);
    if i >= 0 {
        assert(at_root(to, i, style) == at_root(path, i, style));
        assert(to.subrange(0, i + 1) =~= path.subrange(0, i + 1));
        assert(to.subrange(0, i) =~= path.subrange(0, i));
    }
}

/// An extension is what is behind the last dot of a name, if there is something
/// before that dot.
pub proof fn law_extension_is_behind_the_last_dot(name: Seq<char>)
    ensures
        match extension_part(name) {
            Some(ext) => {
                let k = name.len() - ext.len() - 1;
                &&& k > 0
                &&& name == name.take(k) + seq!['.'] + ext
                &&& forall|i: int| 0 <= i < ext.len() ==> (#[trigger] ext[i]) != '.'
            },
            None => forall|i: int| 0 < i < name.len() ==> (#[trigger] name[i]) != '.',
        },
{
    let p = |c: char| c == '.';
    lemma_last_where(name, p);
    match extension_part(name) {
        Some(ext) => {
            let k = name.len() - ext.len() - 1;
            assert(name =~= name.take(k) + seq!['.'] + ext);
            assert forall|i: int| 0 <= i < ext.len() implies (#[trigger] ext[i]) != '.' by {
                assert(!p(name[k + 1 + i]));
            }
        },
        None => {
            assert forall|i: int| 0 < i < name.len() implies (#[trigger] name[i]) != '.' by {
                assert(!p(name[i]));
            }
        },
    }
}

/// What a name is does not depend on the case of its extension.
pub proof fn law_extensions_ignore_case(a: Seq<char>, b: Seq<char>, list: Seq<&str>)
    requires
        same_ignoring_case(a, b),
    ensures
        listed(a, list) == listed(b, list),
{
    if listed(a, list) {
        let k = choose|k: int| 0 <= k < list.len() && same_ignoring_case(a, (#[trigger] list[k])@);
        assert forall|i: int| 0 <= i < b.len() implies lower(#[trigger] b[i]) == lower(
            list[k]@[i],
        ) by {
            assert(lower(a[i]) == lower(b[i]));
        }
        assert(same_ignoring_case(b, list[k]@));
    }
    if listed(b, list) {
        let k = choose|k: int| 0 <= k < list.len() && same_ignoring_case(b, (#[trigger] list[k])@);
        assert forall|i: int| 0 <= i < a.len() implies lower(#[trigger] a[i]) == lower(
            list[k]@[i],
        ) by {
            assert(lower(a[i]) == lower(b[i]));
        }
        assert(same_ignoring_case(a, list[k]@));
    }
}

/// The capitals are the small letters' counterparts, and nothing else has one.
pub proof fn law_case_pairs_the_letters(c: char)
    ensures
        'A' <= c <= 'Z' ==> lower(c) as int == c as int + 32,
        !('A' <= c <= 'Z') ==> lower(c) == c,
        lower(lower(c)) == lower(c),
{
    if 'A' <= c <= 'Z' {
        let n = (c as u32 + 32) as u8;
        assert(97 <= n <= 122);
        assert((n as char) as int == n as int);
    }
}

/// A name is that of a video by its extension, in either case of its letters.
pub proof fn law_videos_by_extension(ext: Seq<char>)
    ensures
        listed(ext, video_extensions()) <==> {
            ||| same_ignoring_case(ext, "mp4"@)
            ||| same_ignoring_case(ext, "mkv"@)
            ||| same_ignoring_case(ext, "webm"@)
            ||| same_ignoring_case(ext, "mov"@)
            ||| same_ignoring_case(ext, "avi"@)
        },
{
    let list = video_extensions();
    assert(list.len() == 5);
    assert(list[0] == "mp4" && list[1] == "mkv" && list[2] == "webm" && list[3] == "mov"
        && list[4] == "avi");
}

/// A name is that of an archive by its extension, in either case of its letters.
pub proof fn law_archives_by_extension(ext: Seq<char>)
    ensures
        listed(ext, archive_extensions()) <==> {
            ||| same_ignoring_case(ext, "zip"@)
            ||| same_ignoring_case(ext, "cbz"@)
            ||| same_ignoring_case(ext, "tar"@)
            ||| same_ignoring_case(ext, "gz"@)
            ||| same_ignoring_case(ext, "tgz"@)
            ||| same_ignoring_case(ext, "7z"@)
            ||| same_ignoring_case(ext, "cb7"@)
            ||| same_ignoring_case(ext, "rar"@)
            ||| same_ignoring_case(ext, "cbr"@)
        },
{
    let list = archive_extensions();
    assert(list.len() == 9);
    assert(list[0] == "zip" && list[1] == "cbz" && list[2] == "tar" && list[3] == "gz" && list[4]
        == "tgz" && list[5] == "7z" && list[6] == "cb7" && list[7] == "rar" && list[8] == "cbr");
}

/// A name can be listed by its extension, in either case of its letters: every
/// video can, and the images below.
pub proof fn law_media_by_extension(ext: Seq<char>)
    ensures
        listed(ext, media_extensions()) <==> {
            ||| listed(ext, video_extensions())
            ||| same_ignoring_case(ext, "png"@)
            ||| same_ignoring_case(ext, "jpg"@)
            ||| same_ignoring_case(ext, "jpeg"@)
            ||| same_ignoring_case(ext, "gif"@)
            ||| same_ignoring_case(ext, "webp"@)
            ||| same_ignoring_case(ext, "bmp"@)
            ||| same_ignoring_case(ext, "tif"@)
            ||| same_ignoring_case(ext, "tiff"@)
            ||| same_ignoring_case(ext, "ico"@)
            ||| same_ignoring_case(ext, "avif"@)
        },
{
    law_videos_by_extension(ext);
    let list = media_extensions();
    assert(list.len() == 15);
    assert(list[0] == "png" && list[1] == "jpg" && list[2] == "jpeg" && list[3] == "gif"
        && list[4] == "webp" && list[5] == "bmp" && list[6] == "tif" && list[7] == "tiff"
        && list[8] == "ico" && list[9] == "avif" && list[10] == "mp4" && list[11] == "mkv"
        && list[12] == "webm" && list[13] == "mov" && list[14] == "avi");
}

/// The digit a character stands for.
pub open spec fn digit_value(c: char) -> int {
    c as int - '0' as int
}

/// The number that decimal digits stand for.
pub open spec fn number_of(text: Seq<char>) -> int
    decreases text.len(),
{
    if text.len() == 0 {
        0
    } else {
        number_of(text.drop_last()) * 10 + digit_value(text.last())
    }
}

/// A number in decimal reads back as that number, and has no leading zero.
pub proof fn law_decimal_reads_back(n: nat)
    ensures
        number_of(decimal_text(n)) == n,
        decimal_text(n).len() > 0,
        forall|i: int|
            0 <= i < decimal_text(n).len() ==> '0' <= (#[trigger] decimal_text(n)[i]) <= '9',
        n > 0 ==> decimal_text(n)[0] != '0',
    decreases n,
{
    if n < 10 {
        let one = seq![digit(n as int)];
        assert(one.drop_last() =~= Seq::<char>::empty());
        assert(number_of(one.drop_last()) == 0);
    } else {
        law_decimal_reads_back(n / 10);
        let head = decimal_text(n / 10);
        let last = digit((n % 10) as int);
        assert(decimal_text(n) == head.push(last));
        assert(head.push(last).drop_last() =~= head);
        assert forall|i: int| 0 <= i < decimal_text(n).len() implies '0' <= (
        #[trigger] decimal_text(n)[i]) <= '9' by {
            if i < head.len() {
                assert(decimal_text(n)[i] == head[i]);
            }
        }
        assert(decimal_text(n)[0] == head[0]);
    }
}

/// The path that is copied of an entry of an archive goes through the archive.
pub proof fn law_copied_path_goes_through_the_archive(
    s: SharedModel,
    file: FileId,
    archive: FileId,
)
    ensures
        copied_text(s, Source::Fs, file) == path_text(s.paths, file),
        ({
            let text = copied_text(s, Source::Archive(archive), file);
            let outer = path_text(s.paths, archive);
            &&& text.take(outer.len() as int) == outer
            &&& text.len() == outer.len() + 1 + path_text(s.paths, file).len()
            &&& text[outer.len() as int] == '/'
            &&& text.skip(outer.len() as int + 1) == path_text(s.paths, file)
        }),
{
    reveal_strlit("/");
    let text = copied_text(s, Source::Archive(archive), file);
    let outer = path_text(s.paths, archive);
    assert(text.take(outer.len() as int) =~= outer);
    assert(text.skip(outer.len() as int + 1) =~= path_text(s.paths, file));
}

/// What is some time after an instant has that time elapsed since it; nothing has
/// elapsed since an instant to come.
pub proof fn law_elapsed_undoes_later(at: Instant, by: Duration, now: Instant)
    requires
        at.nanos + by.nanos <= u128::MAX,
    ensures
        elapsed(later(at, by), at) == by,
        now.nanos <= at.nanos ==> elapsed(now, at).nanos == 0,
        now.nanos >= at.nanos ==> at.nanos + elapsed(now, at).nanos == now.nanos,
{
}

/// A dynamic delay grows with the decode it saves, by the factor; a fixed one does
/// not, and without a measured decode nothing is evicted dynamically.
pub proof fn law_dynamic_delay_scales(cfg: EvictConfig, a: Duration, b: Duration)
    ensures
        a.nanos <= b.nanos && cfg.evict_ram is Dynamic ==> cfg.delay_spec(Some(a))->0.nanos
            <= cfg.delay_spec(Some(b))->0.nanos,
        cfg.evict_ram is Dynamic ==> cfg.delay_spec(Some(a)) is Some && cfg.delay_spec(None)
            is None,
        cfg.evict_ram is Dynamic && cfg.dynamic_base.nanos + a.nanos * cfg.dynamic_factor
            <= u64::MAX ==> cfg.delay_spec(Some(a))->0.nanos == cfg.dynamic_base.nanos + a.nanos
            * cfg.dynamic_factor,
        cfg.evict_ram is Never ==> cfg.delay_spec(Some(a)) is None && cfg.delay_spec(None)
            is None,
        cfg.evict_ram is Fixed ==> cfg.delay_spec(Some(a)) == cfg.delay_spec(None)
            && cfg.delay_spec(None) is Some,
{
    let f = cfg.dynamic_factor as int;
    assert(a.nanos <= b.nanos ==> a.nanos * f <= b.nanos * f) by (nonlinear_arith)
        requires
            0 <= f,
    ;
}

/// An image is uploaded as one texture where it is wanted in full and fits the
/// device, in tiles where it is wanted in full and does not, and scaled down where
/// less is wanted. A texture that is there already is used for the latter two.
pub proof fn law_upload_plan_fits_the_device(
    tier: Tier,
    width: u32,
    height: u32,
    max_dim: u32,
    resident: Option<Texture>,
)
    ensures
        ({
            let plan = plan_for(tier, width, height, max_dim, resident);
            let fits = width <= max_dim && height <= max_dim;
            &&& plan is Whole <==> tier == Tier::Full && fits
            &&& tier == Tier::Full && !fits ==> plan == match resident {
                Some(base) => MintPlan::TiledOver { base },
                None => MintPlan::TiledScaled,
            }
            &&& tier != Tier::Full ==> plan == match resident {
                Some(from) => MintPlan::Rendered { from },
                None => MintPlan::Scaled,
            }
        }),
{
}

/// An upload that is waited for is polled at its pace until it is ready or the
/// patience runs out, and is then tried; a texture ends it at once, and a failure
/// after the last try.
pub proof fn law_upload_waits_then_tries(
    patience: Patience,
    n: u32,
    ready: bool,
    got: Option<Texture>,
)
    requires
        n < u32::MAX,
    ensures
        ({
            let (polled, next) = after_poll(Upload::Waiting { polled: n }, patience, ready);
            &&& !ready && n + 1 < patience.polls ==> polled == (Upload::Waiting {
                polled: (n + 1) as u32,
            }) && next == UploadStep::PollAfter(patience.poll_every)
            &&& ready ==> polled == (Upload::Trying { tried: 0 }) && next == UploadStep::TryAfter(
                Duration { nanos: 0 },
            )
            &&& !ready && n + 1 >= patience.polls ==> polled == (Upload::Trying { tried: 0 })
                && next == UploadStep::TryAfter(patience.poll_every)
        }),
        ({
            let (tried, next) = after_try(Upload::Trying { tried: n }, patience, got);
            &&& got is Some ==> tried == (Upload::Done { texture: got }) && next
                == UploadStep::Report(got)
            &&& got is None && n + 1 >= patience.tries ==> tried == (Upload::Done {
                texture: None,
            }) && next == UploadStep::Report(None)
            &&& got is None && n + 1 < patience.tries ==> tried == (Upload::Trying {
                tried: (n + 1) as u32,
            }) && next == UploadStep::TryAfter(patience.retry_after)
        }),
{
}

/// The part of the window that is drawn follows the settings, fullscreen and what
/// is open in it, each by itself.
pub proof fn law_view_follows_the_settings(w: WindowModel, s: SharedModel, now: Instant)
    ensures
        ({
            let plan = plan_of(w, s, now);
            let config = s.config.value;
            let state = w.state.value;
            let v = w.viewer->0;
            let open = w.viewer is Some;
            let bare = state.fullscreen;
            let waited = open && v.pending_since is Some && now.nanos
                >= v.pending_since->0.nanos + 150_000_000;
            let waiting = Some(
                Duration { nanos: (now.nanos - v.pending_since->0.nanos) as u128 },
            );
            &&& plan.toolbar == (config.show_toolbar && !bare)
            &&& plan.filmstrip == (open && !bare && config.show_filmstrip)
            &&& plan.footer == (open && !bare && config.show_footer)
            &&& plan.info_panel == (open && !bare && config.show_info)
            &&& plan.info_fields == (plan.info_panel && v.exif == Some(v.current()))
            &&& plan.slider is Some <==> open && !bare && config.show_slider
            &&& plan.slider is Some ==> plan.slider->0 == match v.slider_drag {
                Some(drag) => drag.target,
                None => v.nav.cursor as usize,
            }
            &&& plan.footer_spinner == if plan.footer && waited {
                waiting
            } else {
                None
            }
            &&& plan.center_spinner == if waited && v.displayed is Nothing {
                waiting
            } else {
                None
            }
            &&& plan.bubble == if open && v.slider_drag is Some && v.slider_drag->0.bubble {
                Some(v.slider_drag->0.target)
            } else {
                None
            }
            &&& plan.dropdown == state.open_menu
            &&& plan.context_menu == state.context_menu_open
            &&& plan.backdrop is DismissContextMenu <==> state.context_menu_open
            &&& plan.backdrop is Inert <==> !state.context_menu_open && state.open_menu is None
            &&& plan.content is DropPrompt <==> !open
            &&& plan.content is EmptyViewport <==> open && v.displayed is Nothing
            &&& plan.content is Blur <==> open && v.displayed is Placeholder
            &&& plan.content is Still <==> open && v.displayed is Full
            &&& plan.content is Animation <==> open && v.displayed is Animated
            &&& plan.content is Video <==> open && v.displayed is Video
            &&& plan.content is ErrorMessage <==> open && v.displayed is Error
            &&& plan.crisp == (config.crisp_pixels && open && (v.displayed is Full
                || v.displayed is Animated || v.displayed is Video))
            &&& plan.dimensions == if open {
                picture_size(v.displayed)
            } else {
                None
            }
        }),
{
}

/// The title of a window starts with the name of its file, and is that alone
/// where the footer says the rest.
pub proof fn law_title_starts_with_the_name(w: WindowModel, s: SharedModel, parts: TitleParts)
    requires
        w.viewer is Some,
    ensures
        ({
            let name = name_text(s, w.viewer->0.current());
            let text = title_text(w, s, parts);
            &&& text.len() >= name.len()
            &&& text.take(name.len() as int) == name
            &&& s.config.value.show_footer ==> text == name
            &&& !s.config.value.show_footer ==> text.len() > name.len() + parts.position@.len()
                + parts.size@.len()
        }),
{
    reveal_strlit("  |  ");
    let name = name_text(s, w.viewer->0.current());
    let text = title_text(w, s, parts);
    assert(text.take(name.len() as int) =~= name);
}

} // verus!
