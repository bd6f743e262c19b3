use vstd::prelude::*;

use crate::outcome::Outcome;
use crate::picture::{png_header_gives, resample_fits, Picture};
use crate::planner::{align, is_aligned_pair, plan};

verus! {

/// What the caller does next with one dropped file.
#[derive(Debug)]
pub enum Action {
    /// Open and decode the file at `path`, then hand the result to
    /// `after_decode`.
    Decode { path: String },
    /// Overwrite the file at `path` with `png`, then hand the result to
    /// `after_write`.
    Write { path: String, png: Vec<u8> },
    /// Processing is over; log the outcome.
    Report(Outcome),
}

/// The first step for a dropped item: `path` is the path as a string, or
/// `None` when the host gave none that can be used; `repr` is how the host's
/// value is shown in that case.
pub fn receive(path: Option<String>, repr: String) -> (r: Action)
    ensures
        match path {
            Some(p) => r == Action::Decode { path: p },
            None => r == Action::Report(Outcome::PathUnreadable { repr }),
        },
{
    match path {
        Some(p) => Action::Decode { path: p },
        None => Action::Report(Outcome::PathUnreadable { repr }),
    }
}

/// A decoded picture needs no resampling, or can be resampled to its aligned
/// dimensions.
pub open spec fn aligned_or_resamplable(p: Picture) -> bool {
    let (w, h) = (p.width() as int, p.height() as int);
    is_aligned_pair(w, h) || resample_fits(w, h, align(w), align(h))
}

/// Whether `after_decode` may be given `picture`: it is aligned already, or
/// its resampling to aligned dimensions fits in memory.
pub fn can_rewrite(picture: &Picture) -> (r: bool)
    ensures
        r == aligned_or_resamplable(*picture),
{
    let target = plan(picture.width(), picture.height());
    !target.changed || picture.fits_resample(target.width, target.height)
}

/// The step after decoding the file at `path`: `decoded` is the decoded
/// picture, or the decoder's message.
///
/// An aligned picture is reported as such and nothing is written. Any other is
/// resampled to its aligned dimensions and encoded as PNG, to be written back
/// to the same path. The encoder fails only on 32-bit float samples, which PNG
/// cannot hold; that is reported as a failed save.
pub fn after_decode(path: String, decoded: Result<Picture, String>) -> (r: Action)
    requires
        decoded matches Ok(p) ==> aligned_or_resamplable(p),
    ensures
        match decoded {
            Err(m) => r == Action::Report(Outcome::DecodeFailed { path, message: m }),
            Ok(p) => if is_aligned_pair(p.width() as int, p.height() as int) {
                r == Action::Report(Outcome::AlreadyAligned { path })
            } else {
                (r is Write <==> !p.float_samples()) && match r {
                    Action::Write { path: target, png } => target == path && png_header_gives(
                        png@,
                        align(p.width() as int),
                        align(p.height() as int),
                    ),
                    Action::Report(Outcome::SaveFailed { path: target, message: _ }) => target
                        == path,
                    _ => false,
                }
            },
        },
{
    match decoded {
        Err(message) => Action::Report(Outcome::DecodeFailed { path, message }),
        Ok(picture) => {
            let target = plan(picture.width(), picture.height());
            if !target.changed {
                Action::Report(Outcome::AlreadyAligned { path })
            } else {
                let resized = picture.resample(target.width, target.height);
                match resized.encode_png() {
                    Ok(png) => Action::Write { path, png },
                    Err(message) => Action::Report(Outcome::SaveFailed { path, message }),
                }
            }
        },
    }
}

/// A file rewritten to aligned dimensions is aligned: dropped again, it is
/// left as it is.
pub proof fn lemma_rewrite_settles(width: int, height: int)
    ensures
        is_aligned_pair(align(width), align(height)),
{
}

/// The last step after overwriting the file at `path`: `written` is the
/// result of the write, with the system's message on failure.
pub fn after_write(path: String, written: Result<(), String>) -> (r: Outcome)
    ensures
        match written {
            Ok(()) => r == Outcome::Resized { path },
            Err(m) => r == Outcome::SaveFailed { path, message: m },
        },
{
    match written {
        Ok(()) => Outcome::Resized { path },
        Err(message) => Outcome::SaveFailed { path, message },
    }
}

} // verus!
