//! One entry of the image list and its processing status.

use vstd::prelude::*;
use vstd::string::StringExecFns;
use rand::seq::SliceRandom;

verus! {

/// Where an image stands in the processing pipeline.
#[derive(Debug, PartialEq, Eq)]
pub enum ImageStatus {
    Queued,
    Converting,
    Completed,
    Error(String),
}

/// Visual weight a status is drawn with; one per kind of status.
#[derive(Debug, Clone, Copy, PartialEq, Eq, Structural)]
pub enum StatusTone {
    Gray,
    Yellow,
    Green,
    Red,
}

impl Clone for ImageStatus {
    fn clone(&self) -> (res: Self)
        ensures
            res == *self,
    {
        match self {
            ImageStatus::Queued => ImageStatus::Queued,
            ImageStatus::Converting => ImageStatus::Converting,
            ImageStatus::Completed => ImageStatus::Completed,
            ImageStatus::Error(message) => ImageStatus::Error(message.clone()),
        }
    }
}

impl Default for ImageStatus {
    fn default() -> (res: Self)
        ensures
            res == ImageStatus::Queued,
    {
        ImageStatus::Queued
    }
}

impl ImageStatus {
    /// The text shown for this status.
    pub open spec fn label_spec(self) -> Seq<char> {
        match self {
            ImageStatus::Queued => "Queued"@,
            ImageStatus::Converting => "Converting"@,
            ImageStatus::Completed => "Completed"@,
            ImageStatus::Error(message) => "Error: "@ + message@,
        }
    }

    /// The tone this status is drawn with.
    pub open spec fn tone_spec(self) -> StatusTone {
        match self {
            ImageStatus::Queued => StatusTone::Gray,
            ImageStatus::Converting => StatusTone::Yellow,
            ImageStatus::Completed => StatusTone::Green,
            ImageStatus::Error(_) => StatusTone::Red,
        }
    }

    /// Renders the status as display text.
    pub fn label(&self) -> (text: String)
        ensures
            text@ == self.label_spec(),
    {
        match self {
            ImageStatus::Queued => String::from_str("Queued"),
            ImageStatus::Converting => String::from_str("Converting"),
            ImageStatus::Completed => String::from_str("Completed"),
            ImageStatus::Error(message) => {
                let mut text = String::from_str("Error: ");
                text.append(message.as_str());
                text
            },
        }
    }

    /// Picks the tone for drawing this status.
    pub fn tone(&self) -> (tone: StatusTone)
        ensures
            tone == self.tone_spec(),
    {
        match self {
            ImageStatus::Queued => StatusTone::Gray,
            ImageStatus::Converting => StatusTone::Yellow,
            ImageStatus::Completed => StatusTone::Green,
            ImageStatus::Error(_) => StatusTone::Red,
        }
    }
}

/// Two statuses share a tone exactly when they are of the same kind, so
/// the four kinds are told apart on screen.
pub proof fn lemma_tone_distinguishes_kinds(a: ImageStatus, b: ImageStatus)
    ensures
        a.tone_spec() == b.tone_spec() <==> {
            ||| (a is Queued && b is Queued)
            ||| (a is Converting && b is Converting)
            ||| (a is Completed && b is Completed)
            ||| (a is Error && b is Error)
        },
{
}

/// The text that `bytesize::ByteSize` displays for a byte count.
pub uninterp spec fn byte_size_text(bytes: u64) -> Seq<char>;

/// Formats a byte count through the `Display` impl of
/// `bytesize::ByteSize`.
///
/// Trusted: the text is a function of the count alone; the contract
/// gives it its name and says nothing else of it.
#[verifier::external_body]
fn format_byte_size(bytes: u64) -> (text: String)
    ensures
        text@ == byte_size_text(bytes),
{
    bytesize::ByteSize(bytes).to_string()
}

/// Draws one of the candidates with `rand::seq::SliceRandom::choose`,
/// fed by `rand::thread_rng()`.
///
/// Trusted: an empty slice gives `None`, any other gives a copy of one
/// of its elements; which one is left open. The generator is seeded from
/// the operating system and stops the program if that source fails.
#[verifier::external_body]
fn choose_status(candidates: &Vec<ImageStatus>) -> (picked: Option<ImageStatus>)
    ensures
        candidates@.len() == 0 ==> picked is None,
        candidates@.len() > 0 ==> picked is Some && candidates@.contains(picked->0),
{
    candidates.choose(&mut rand::thread_rng()).cloned()
}

impl ImageStatus {
    /// Whether this is one of the three statuses an entry can start in.
    pub open spec fn is_initial(self) -> bool {
        self is Queued || self is Converting || self is Completed
    }

    /// The drawn status, or `Queued` when nothing was drawn.
    pub fn picked_or_queued(picked: Option<ImageStatus>) -> (status: ImageStatus)
        ensures
            status == (match picked {
                Some(s) => s,
                None => ImageStatus::Queued,
            }),
    {
        match picked {
            Some(s) => s,
            None => ImageStatus::Queued,
        }
    }

    /// A status drawn at random among `Queued`, `Converting` and
    /// `Completed`.
    pub fn random() -> (status: ImageStatus)
        ensures
            status.is_initial(),
    {
        let mut candidates: Vec<ImageStatus> = Vec::new();
        candidates.push(ImageStatus::Queued);
        candidates.push(ImageStatus::Converting);
        candidates.push(ImageStatus::Completed);
        let picked = choose_status(&candidates);
        ImageStatus::picked_or_queued(picked)
    }
}

/// One image of the list: where it is, how it is shown, and how far its
/// processing has come.
#[derive(Debug)]
pub struct ImageInfo {
    pub path: String,
    pub filename: String,
    pub size: String,
    pub status: ImageStatus,
}

impl Clone for ImageInfo {
    fn clone(&self) -> (res: Self)
        ensures
            res == *self,
    {
        ImageInfo {
            path: self.path.clone(),
            filename: self.filename.clone(),
            size: self.size.clone(),
            status: self.status.clone(),
        }
    }
}

impl Default for ImageInfo {
    fn default() -> (info: Self)
        ensures
            info.path@ == Seq::<char>::empty(),
            info.filename@ == Seq::<char>::empty(),
            info.size@ == Seq::<char>::empty(),
            info.status == ImageStatus::Queued,
    {
        ImageInfo {
            path: String::new(),
            filename: String::new(),
            size: String::new(),
            status: ImageStatus::Queued,
        }
    }
}

impl ImageInfo {
    /// An entry made of the four given parts.
    pub fn from_parts(path: String, filename: String, size: String, status: ImageStatus) -> (info:
        ImageInfo)
        ensures
            info == (ImageInfo { path, filename, size, status }),
    {
        ImageInfo { path, filename, size, status }
    }

    /// A queued entry for the file at `path`, whose last component is
    /// `filename` and which holds `bytes` bytes. The size is shown as
    /// `bytesize` formats it.
    pub fn new(path: String, filename: String, bytes: u64) -> (info: ImageInfo)
        ensures
            info.path == path,
            info.filename == filename,
            info.size@ == byte_size_text(bytes),
            info.status == ImageStatus::Queued,
    {
        let size = format_byte_size(bytes);
        ImageInfo::from_parts(path, filename, size, ImageStatus::Queued)
    }
}

} // verus!
