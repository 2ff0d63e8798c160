//! Clipboard contents and the messages that carry them.

use vstd::prelude::*;
use vstd::string::StrSliceExecFns;
use vstd::string::StringExecFns;

verus! {

/// Kind of a clipboard item.
#[derive(Debug, Clone, Copy, PartialEq, Eq, Structural)]
pub enum ClipType {
    /// Plain text.
    Text,
    /// Rich text.
    Rich,
    /// An image.
    Img,
    /// A list of file paths, one per line.
    Files,
}

/// One clipboard item.
#[derive(Debug, Clone, PartialEq)]
pub struct ClipData {
    /// Kind of the item.
    pub ty: ClipType,
    /// Its bytes.
    pub data: Vec<u8>,
    /// Milliseconds since the epoch at which it was taken.
    pub ts: u64,
    /// Whether `data` is compressed.
    pub compress: bool,
}

/// A clipboard request.
#[derive(Debug, Clone, PartialEq)]
pub enum Clipboard {
    /// Replace the peer's clipboard content.
    Update { data: ClipData, force: bool },
    /// Ask for content of the given kinds, changed since the given time.
    Get { types: Option<Vec<ClipType>>, since: Option<u64> },
    /// Clear the peer's clipboard.
    Clear,
}

/// A clipboard response.
#[derive(Debug, Clone, PartialEq)]
pub enum ClipboardResponse {
    /// The content asked for.
    Data { items: Vec<ClipData> },
    /// The clipboard was cleared.
    Cleared,
}

/// The current time in milliseconds since the epoch, by
/// `std::time::SystemTime::now`. Nothing is claimed of the value: it is
/// whatever the system clock says.
#[verifier::external_body]
pub(crate) fn current_millis() -> (r: u64) {
    let since_epoch = std::time::SystemTime::now().duration_since(std::time::UNIX_EPOCH);
    since_epoch.map(|d| d.as_millis() as u64).unwrap_or(0)
}

/// `paths` joined by line feeds.
pub open spec fn spec_join_lines(paths: Seq<String>) -> Seq<char>
    decreases paths.len(),
{
    if paths.len() == 0 {
        Seq::empty()
    } else if paths.len() == 1 {
        paths[0]@
    } else {
        spec_join_lines(paths.drop_last()) + seq!['\n'] + paths.last()@
    }
}

impl ClipData {
    /// An item taken at `ts`.
    pub fn with_timestamp(ty: ClipType, data: Vec<u8>, ts: u64, compress: bool) -> (r: Self)
        ensures
            r.ty == ty,
            r.data == data,
            r.ts == ts,
            r.compress == compress,
    {
        ClipData { ty, data, ts, compress }
    }

    /// An item taken now, by the system clock.
    pub fn new(ty: ClipType, data: Vec<u8>, compress: bool) -> (r: Self)
        ensures
            r.ty == ty,
            r.data == data,
            r.compress == compress,
    {
        ClipData { ty, data, ts: current_millis(), compress }
    }

    /// Plain text, as its UTF-8 bytes, taken now.
    pub fn text(text: &str) -> (r: Self)
        ensures
            r.ty == ClipType::Text,
            r.data@ == vstd::utf8::encode_utf8(text@),
            !r.compress,
    {
        Self::new(ClipType::Text, text.as_bytes_vec(), false)
    }

    /// A list of files: the paths joined by line feeds, as UTF-8 bytes,
    /// taken now.
    pub fn files(paths: Vec<String>) -> (r: Self)
        ensures
            r.ty == ClipType::Files,
            r.data@ == vstd::utf8::encode_utf8(spec_join_lines(paths@)),
            !r.compress,
    {
        let mut joined = String::new();
        let mut i: usize = 0;
        while i < paths.len()
            invariant
                i <= paths.len(),
                joined@ == spec_join_lines(paths@.subrange(0, i as int)),
            decreases paths.len() - i,
        {
            let ghost done = paths@.subrange(0, i as int);
            let ghost next = paths@.subrange(0, i + 1);
            assert(next.drop_last() =~= done);
            assert(next.last() == paths@[i as int]);
            if i > 0 {
                joined.append("\n");
                proof {
                    reveal_strlit("\n");
                    assert("\n"@ =~= seq!['\n']);
                }
            } else {
                assert(joined@ =~= Seq::<char>::empty());
                assert(joined@ + paths@[0]@ =~= paths@[0]@);
            }
            joined.append(paths[i].as_str());
            i += 1;
        }
        assert(paths@.subrange(0, paths@.len() as int) =~= paths@);
        Self::new(ClipType::Files, joined.as_str().as_bytes_vec(), false)
    }

    /// An image, marked compressed, taken now.
    pub fn image(data: Vec<u8>) -> (r: Self)
        ensures
            r.ty == ClipType::Img,
            r.data == data,
            r.compress,
    {
        Self::new(ClipType::Img, data, true)
    }
}

} // verus!
