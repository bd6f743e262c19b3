use vstd::prelude::*;
use vstd::string::*;

verus! {

/// The fate of one dropped file.
#[derive(Clone, Debug, PartialEq, Eq)]
pub enum Outcome {
    /// The host gave no usable path; `repr` is how it showed what it had.
    PathUnreadable { repr: String },
    /// The file at `path` could not be opened or decoded.
    DecodeFailed { path: String, message: String },
    /// The resampled image could not be encoded or written back to `path`.
    SaveFailed { path: String, message: String },
    /// Both dimensions were already multiples of four; nothing was written.
    AlreadyAligned { path: String },
    /// The image was resampled and written back to `path` as PNG.
    Resized { path: String },
}

impl Outcome {
    /// The line of text that reports this outcome.
    pub open spec fn spec_text(&self) -> Seq<char> {
        match self {
            Outcome::PathUnreadable { repr } => "Could not parse path: "@ + repr@,
            Outcome::DecodeFailed { path, message } => path@ + ": processing failed - "@
                + message@,
            Outcome::SaveFailed { path, message } => path@ + ": failed to save resized image - "@
                + message@,
            Outcome::AlreadyAligned { path } => path@
                + ": no resizing needed (already multiple of 4)"@,
            Outcome::Resized { path } => path@ + ": resized successfully"@,
        }
    }

    /// Renders the outcome as one line of text.
    pub fn text(&self) -> (r: String)
        ensures
            r@ == self.spec_text(),
    {
        match self {
            Outcome::PathUnreadable { repr } => {
                let s = String::from_str("Could not parse path: ");
                s.concat(repr.as_str())
            },
            Outcome::DecodeFailed { path, message } => {
                let s = path.clone().concat(": processing failed - ");
                s.concat(message.as_str())
            },
            Outcome::SaveFailed { path, message } => {
                let s = path.clone().concat(": failed to save resized image - ");
                s.concat(message.as_str())
            },
            Outcome::AlreadyAligned { path } => {
                path.clone().concat(": no resizing needed (already multiple of 4)")
            },
            Outcome::Resized { path } => path.clone().concat(": resized successfully"),
        }
    }
}

} // verus!
