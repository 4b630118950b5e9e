use vstd::prelude::*;
use crate::wide::{
    convert_to_wchar_t, fixed_buffer, lemma_utf16_of_prefix, truncated, utf16_of, zero_padded,
};

verus! {

/// Capacity, in UTF-16 units, of the balloon's body buffer.
pub const TEXT_LEN: usize = 256;

/// Capacity, in UTF-16 units, of the balloon's title buffer.
pub const TITLE_LEN: usize = 64;

/// A 128-bit globally unique identifier, in the Windows field layout.
#[derive(Clone, Copy, Debug, PartialEq, Eq)]
pub struct Guid {
    pub data1: u32,
    pub data2: u16,
    pub data3: u16,
    pub data4: [u8; 8],
}

/// What a shell balloon notification carries besides its fixed flags:
/// the body and title as zero-padded UTF-16 buffers, and the identifier
/// that keeps it apart from every earlier balloon.
#[derive(Debug, PartialEq, Eq)]
pub struct BalloonRequest {
    pub info: Vec<u16>,
    pub info_title: Vec<u16>,
    pub guid: Guid,
}

/// The abstract content of a `BalloonRequest`.
pub struct BalloonView {
    pub info: Seq<u16>,
    pub info_title: Seq<u16>,
    pub guid: Guid,
}

impl View for BalloonRequest {
    type V = BalloonView;

    open spec fn view(&self) -> BalloonView {
        BalloonView { info: self.info@, info_title: self.info_title@, guid: self.guid }
    }
}

/// A text placed in a buffer of `capacity` units: its UTF-16 encoding,
/// cut after `capacity` units, then zeros.
pub open spec fn buffer_of(text: Seq<char>, capacity: nat) -> Seq<u16> {
    zero_padded(truncated(utf16_of(text), capacity), capacity)
}

/// The balloon for `text` and `title` under identifier `guid`.
pub open spec fn balloon_of(text: Seq<char>, title: Seq<char>, guid: Guid) -> BalloonView {
    BalloonView {
        info: buffer_of(text, TEXT_LEN as nat),
        info_title: buffer_of(title, TITLE_LEN as nat),
        guid,
    }
}

impl BalloonRequest {
    pub open spec fn wf(&self) -> bool {
        &&& self.info.len() == TEXT_LEN
        &&& self.info_title.len() == TITLE_LEN
    }

    /// Builds the balloon for `text` and `title` under the fresh identifier `guid`.
    ///
    /// The body keeps its first `TEXT_LEN` units and the title its first
    /// `TITLE_LEN` units; what lies beyond is dropped without error. The whole
    /// kept body is copied into its buffer, not only its first `TITLE_LEN`
    /// units.
    pub fn new(text: &str, title: &str, guid: Guid) -> (r: BalloonRequest)
        ensures
            r@ == balloon_of(text@, title@, guid),
            r.wf(),
    {
        let info_vec = convert_to_wchar_t(text, TEXT_LEN);
        let info_title_vec = convert_to_wchar_t(title, TITLE_LEN);
        let info = fixed_buffer(&info_vec, TEXT_LEN);
        let info_title = fixed_buffer(&info_title_vec, TITLE_LEN);
        BalloonRequest { info, info_title, guid }
    }
}

/// Two balloons for the same body and title under different identifiers are
/// different requests, so the shell treats the second as a new balloon.
pub proof fn lemma_fresh_identifier_distinct_balloon(
    text: Seq<char>,
    title: Seq<char>,
    g1: Guid,
    g2: Guid,
)
    requires
        g1 != g2,
    ensures
        balloon_of(text, title, g1) != balloon_of(text, title, g2),
{
    assert(balloon_of(text, title, g1).guid != balloon_of(text, title, g2).guid);
}

/// A balloon depends on nothing but its arguments: two balloons for the same
/// body and title carry the same buffers, whatever identifiers they have.
pub proof fn lemma_repeat_balloon_same_content(
    text: Seq<char>,
    title: Seq<char>,
    g1: Guid,
    g2: Guid,
)
    ensures
        balloon_of(text, title, g1).info == balloon_of(text, title, g2).info,
        balloon_of(text, title, g1).info_title == balloon_of(text, title, g2).info_title,
        g1 == g2 ==> balloon_of(text, title, g1) == balloon_of(text, title, g2),
{
}

/// Once a body fills its buffer, whatever follows it is dropped: appending
/// more text leaves the body buffer as it was.
pub proof fn lemma_excess_text_dropped(text: Seq<char>, extra: Seq<char>, title: Seq<char>, guid: Guid)
    requires
        utf16_of(text).len() >= TEXT_LEN,
    ensures
        balloon_of(text + extra, title, guid) == balloon_of(text, title, guid),
{
    let whole = text + extra;
    lemma_utf16_of_prefix(whole, text.len() as int);
    assert(whole.take(text.len() as int) =~= text);
    assert(whole.skip(text.len() as int) =~= extra);
    let n = TEXT_LEN as int;
    assert((utf16_of(text) + utf16_of(extra)).take(n) =~= utf16_of(text).take(n));
    assert(truncated(utf16_of(whole), TEXT_LEN as nat) == truncated(utf16_of(text), TEXT_LEN as nat));
    assert(buffer_of(whole, TEXT_LEN as nat) == buffer_of(text, TEXT_LEN as nat));
}

} // verus!
