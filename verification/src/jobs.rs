//! How one store job is carried out: what a decode reports back, and how an
//! upload waits, retries, and gives up.
use crate::files::FileId;
use crate::media::MediaError;
use crate::message::MediaMessage;
use crate::state::Thumb;
use crate::store::{AnimFrames, RamImage, Texture, Tier};
use crate::time::Duration;
use vstd::prelude::*;

verus! {

/// What reading and decoding a file gave.
pub enum DecodeResult {
    Still { width: u32, height: u32, preview: Option<Thumb> },
    /// An animation, by the delay after each of its frames.
    Animated { width: u32, height: u32, delays: Vec<Duration>, thumb: Option<Thumb> },
    Nothing { err: MediaError },
}

/// The message a finished decode is reported as. What came of it carries the
/// time it took.
pub fn decode_message(
    file: FileId,
    result: DecodeResult,
    took: Duration,
    exists: bool,
    max_dim: Option<u32>,
) -> (msg: MediaMessage)
    ensures
        msg == match result {
            DecodeResult::Still { width, height, preview } => MediaMessage::Decoded {
                file,
                ram: RamImage { width, height, decode_time: Some(took) },
                thumb: preview,
            },
            DecodeResult::Animated { width, height, delays, thumb } => MediaMessage::AnimDecoded {
                file,
                frames: AnimFrames { width, height, delays, decode_time: Some(took) },
                thumb,
                max_dim,
            },
            DecodeResult::Nothing { err } => MediaMessage::DecodeFailed { file, err, exists },
        },
{
    let decode_time: Option<Duration> = Some(took);
    match result {
        DecodeResult::Still { width, height, preview } => MediaMessage::Decoded {
            file,
            ram: RamImage { width, height, decode_time },
            thumb: preview,
        },
        DecodeResult::Animated { width, height, delays, thumb } => MediaMessage::AnimDecoded {
            file,
            frames: AnimFrames { width, height, delays, decode_time },
            thumb,
            max_dim,
        },
        DecodeResult::Nothing { err } => MediaMessage::DecodeFailed { file, err, exists },
    }
}

/// How a texture for a tier is made.
#[derive(Clone, Copy, PartialEq, Eq, Structural, Debug)]
pub enum MintPlan {
    /// A tile pyramid over a base already at hand.
    TiledOver { base: Texture },
    /// A tile pyramid over a base scaled down first.
    TiledScaled,
    /// The pixels as they are.
    Whole,
    /// A copy rendered from a texture already at hand, scaled down from the
    /// pixels where that fails.
    Rendered { from: Texture },
    /// A copy scaled down from the pixels.
    Scaled,
}

pub open spec fn plan_for(
    tier: Tier,
    width: u32,
    height: u32,
    max_dim: u32,
    resident: Option<Texture>,
) -> MintPlan {
    if tier is Full {
        if width > max_dim || height > max_dim {
            match resident {
                Some(base) => MintPlan::TiledOver { base },
                None => MintPlan::TiledScaled,
            }
        } else {
            MintPlan::Whole
        }
    } else {
        match resident {
            Some(from) => MintPlan::Rendered { from },
            None => MintPlan::Scaled,
        }
    }
}

/// How the texture of an image for `tier` is made: past the device's limit a
/// full one is a tile pyramid, and what is already resident is built on.
pub fn mint_plan(
    tier: Tier,
    width: u32,
    height: u32,
    max_dim: u32,
    resident: Option<Texture>,
) -> (plan: MintPlan)
    ensures
        plan == plan_for(tier, width, height, max_dim, resident),
{
    if tier == Tier::Full {
        if width > max_dim || height > max_dim {
            match resident {
                Some(base) => MintPlan::TiledOver { base },
                None => MintPlan::TiledScaled,
            }
        } else {
            MintPlan::Whole
        }
    } else {
        match resident {
            Some(from) => MintPlan::Rendered { from },
            None => MintPlan::Scaled,
        }
    }
}

/// Whether a target of this size leaves nothing to scale down: it covers both
/// axes of the image.
pub fn covers(target: (u32, u32), size: (u32, u32)) -> (yes: bool)
    ensures
        yes == (target.0 >= size.0 && target.1 >= size.1),
{
    target.0 >= size.0 && target.1 >= size.1
}

/// How patient an upload is.
#[derive(Clone, Copy, PartialEq, Eq, Structural, Debug)]
pub struct Patience {
    /// Polls for the upload thread to exist.
    pub polls: u32,
    pub poll_every: Duration,
    /// Attempts once it does.
    pub tries: u32,
    pub retry_after: Duration,
}

/// The patience of a still's upload.
pub open spec fn still_patience_spec() -> Patience {
    Patience {
        polls: 3750,
        poll_every: Duration { nanos: 16_000_000 },
        tries: 30,
        retry_after: Duration { nanos: 16_000_000 },
    }
}

/// The patience of an animation frame's upload.
pub open spec fn frame_patience_spec() -> Patience {
    Patience {
        polls: 3750,
        poll_every: Duration { nanos: 16_000_000 },
        tries: 50,
        retry_after: Duration { nanos: 10_000_000 },
    }
}

pub fn still_patience() -> (p: Patience)
    ensures
        p == still_patience_spec(),
{
    Patience {
        polls: 3750,
        poll_every: Duration { nanos: 16_000_000 },
        tries: 30,
        retry_after: Duration { nanos: 16_000_000 },
    }
}

pub fn frame_patience() -> (p: Patience)
    ensures
        p == frame_patience_spec(),
{
    Patience {
        polls: 3750,
        poll_every: Duration { nanos: 16_000_000 },
        tries: 50,
        retry_after: Duration { nanos: 10_000_000 },
    }
}

/// Where an upload stands.
#[derive(Clone, Copy, PartialEq, Eq, Structural, Debug)]
pub enum Upload {
    /// So many polls found no upload thread yet.
    Waiting { polled: u32 },
    /// So many attempts failed.
    Trying { tried: u32 },
    Done { texture: Option<Texture> },
}

/// What the surrounding program does next for an upload.
#[derive(Clone, Copy, PartialEq, Eq, Structural, Debug)]
pub enum UploadStep {
    /// Sleep, then poll again.
    PollAfter(Duration),
    /// Attempt the upload, after this long.
    TryAfter(Duration),
    /// Report the outcome.
    Report(Option<Texture>),
}

/// What a poll for the upload thread leads to. One that found it, or the last
/// one allowed, goes on to the first attempt.
pub open spec fn after_poll(upload: Upload, patience: Patience, ready: bool) -> (
    Upload,
    UploadStep,
) {
    match upload {
        Upload::Waiting { polled } => if ready || polled + 1 >= patience.polls {
            (
                Upload::Trying { tried: 0 },
                UploadStep::TryAfter(
                    if ready {
                        Duration { nanos: 0 }
                    } else {
                        patience.poll_every
                    },
                ),
            )
        } else {
            (
                Upload::Waiting { polled: (polled + 1) as u32 },
                UploadStep::PollAfter(patience.poll_every),
            )
        },
        Upload::Trying { .. } => (upload, UploadStep::TryAfter(Duration { nanos: 0 })),
        Upload::Done { texture } => (upload, UploadStep::Report(texture)),
    }
}

/// Take in a poll for the upload thread.
pub fn polled(upload: Upload, patience: Patience, ready: bool) -> (next: (Upload, UploadStep))
    ensures
        next == after_poll(upload, patience, ready),
{
    match upload {
        Upload::Waiting { polled } => {
            if ready {
                (Upload::Trying { tried: 0 }, UploadStep::TryAfter(Duration { nanos: 0 }))
            } else if polled >= patience.polls || polled + 1 >= patience.polls {
                (Upload::Trying { tried: 0 }, UploadStep::TryAfter(patience.poll_every))
            } else {
                (
                    Upload::Waiting { polled: polled + 1 },
                    UploadStep::PollAfter(patience.poll_every),
                )
            }
        },
        Upload::Trying { .. } => (upload, UploadStep::TryAfter(Duration { nanos: 0 })),
        Upload::Done { texture } => (upload, UploadStep::Report(texture)),
    }
}

/// What an attempt leads to: success is reported, a failure is tried again
/// until the attempts are used up.
pub open spec fn after_try(upload: Upload, patience: Patience, got: Option<Texture>) -> (
    Upload,
    UploadStep,
) {
    match upload {
        Upload::Trying { tried } => if got is Some || tried + 1 >= patience.tries {
            (Upload::Done { texture: got }, UploadStep::Report(got))
        } else {
            (
                Upload::Trying { tried: (tried + 1) as u32 },
                UploadStep::TryAfter(patience.retry_after),
            )
        },
        Upload::Waiting { .. } => (upload, UploadStep::PollAfter(Duration { nanos: 0 })),
        Upload::Done { texture } => (upload, UploadStep::Report(texture)),
    }
}

/// Take in an attempt at the upload.
pub fn tried(upload: Upload, patience: Patience, got: Option<Texture>) -> (next: (
    Upload,
    UploadStep,
))
    ensures
        next == after_try(upload, patience, got),
{
    match upload {
        Upload::Trying { tried } => {
            if got.is_some() || tried >= patience.tries || tried + 1 >= patience.tries {
                (Upload::Done { texture: got }, UploadStep::Report(got))
            } else {
                (
                    Upload::Trying { tried: tried + 1 },
                    UploadStep::TryAfter(patience.retry_after),
                )
            }
        },
        Upload::Waiting { .. } => (upload, UploadStep::PollAfter(Duration { nanos: 0 })),
        Upload::Done { texture } => (upload, UploadStep::Report(texture)),
    }
}

/// The message a still's upload is reported as.
pub fn upload_message(file: FileId, tier: Tier, outcome: Option<Texture>) -> (msg: MediaMessage)
    ensures
        msg == match outcome {
            Some(texture) => MediaMessage::TextureReady { file, tier, texture },
            None => MediaMessage::MintFailed { file },
        },
{
    match outcome {
        Some(texture) => MediaMessage::TextureReady { file, tier, texture },
        None => MediaMessage::MintFailed { file },
    }
}

/// How many more steps an upload can take.
pub open spec fn steps_left(upload: Upload, patience: Patience) -> int {
    match upload {
        Upload::Waiting { polled } => patience.tries + 1 + if patience.polls > polled {
            patience.polls - polled
        } else {
            1
        },
        Upload::Trying { tried } => if patience.tries > tried {
            patience.tries - tried
        } else {
            1
        },
        Upload::Done { .. } => 0,
    }
}

/// An upload always ends: whatever comes back, each step leaves fewer.
pub proof fn law_uploads_end(
    upload: Upload,
    patience: Patience,
    ready: bool,
    got: Option<Texture>,
)
    ensures
        upload is Waiting ==> steps_left(after_poll(upload, patience, ready).0, patience)
            < steps_left(upload, patience),
        upload is Trying ==> steps_left(after_try(upload, patience, got).0, patience)
            < steps_left(upload, patience),
        upload is Trying && got is Some ==> after_try(upload, patience, got).1
            == UploadStep::Report(got),
{
}

} // verus!
