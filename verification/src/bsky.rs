//! Records and views of the `app.bsky` lexicons: embedded images, feed views and
//! thread gates, and the collection of known records.

use vstd::prelude::*;

verus! {

/// A reference to a blob stored by a personal data server.
pub struct BlobRef {
    /// The content identifier of the blob.
    pub cid: String,
    pub mime_type: String,
    pub size: u64,
}

/// A set of images embedded in a record (eg, a post).
pub struct MainData {
    pub images: Vec<Image>,
}

pub type Main = MainData;

/// width:height represents an aspect ratio. It may be approximate, and may not
/// correspond to absolute dimensions in any given unit. Neither side is zero.
pub struct AspectRatioData {
    height: u64,
    width: u64,
}

impl AspectRatioData {
    #[verifier::type_invariant]
    spec fn nonzero(&self) -> bool {
        self.height != 0 && self.width != 0
    }

    /// The height.
    pub closed spec fn spec_height(&self) -> u64 {
        self.height
    }

    /// The width.
    pub closed spec fn spec_width(&self) -> u64 {
        self.width
    }

    /// The ratio `width:height`, where neither is zero.
    pub fn new(height: u64, width: u64) -> (r: Option<Self>)
        ensures
            (height != 0 && width != 0) == r is Some,
            r matches Some(a) ==> a.spec_height() == height && a.spec_width() == width,
    {
        if height != 0 && width != 0 {
            Some(AspectRatioData { height, width })
        } else {
            None
        }
    }

    /// The height, which is not zero.
    pub fn height(&self) -> (r: u64)
        ensures
            r == self.spec_height(),
            r != 0,
    {
        proof { use_type_invariant(self); }
        self.height
    }

    /// The width, which is not zero.
    pub fn width(&self) -> (r: u64)
        ensures
            r == self.spec_width(),
            r != 0,
    {
        proof { use_type_invariant(self); }
        self.width
    }
}

pub type AspectRatio = AspectRatioData;

/// An embedded image.
pub struct ImageData {
    /// Alt text description of the image, for accessibility.
    pub alt: String,
    pub aspect_ratio: Option<AspectRatio>,
    pub image: BlobRef,
}

pub type Image = ImageData;

/// A view of embedded images.
pub struct ViewData {
    pub images: Vec<ViewImage>,
}

pub type View = ViewData;

/// A view of one embedded image.
pub struct ViewImageData {
    /// Alt text description of the image, for accessibility.
    pub alt: String,
    pub aspect_ratio: Option<AspectRatio>,
    /// Fully-qualified URL where a large version of the image can be fetched.
    pub fullsize: String,
    /// Fully-qualified URL where a thumbnail of the image can be fetched.
    pub thumb: String,
}

pub type ViewImage = ViewImageData;

/// A thread gate: who may reply to a post.
pub struct Record {
    pub allow: Option<Vec<RecordAllowItem>>,
    pub created_at: String,
    pub post: String,
}

/// Allow replies from actors you follow.
pub struct FollowingRule {}

/// Allow replies from actors on a list.
pub struct ListRule {
    pub list: String,
}

/// Allow replies from actors mentioned in your post.
pub struct MentionRule {}

/// A rule of a thread gate.
pub enum RecordAllowItem {
    MentionRule(Box<MentionRule>),
    FollowingRule(Box<FollowingRule>),
    ListRule(Box<ListRule>),
}

/// The records that are known.
pub enum KnownRecord {
    AppBskyFeedThreadgate(Box<Record>),
}

impl From<Record> for KnownRecord {
    /// The known record of a thread gate.
    fn from(record: Record) -> (r: Self) {
        KnownRecord::AppBskyFeedThreadgate(Box::new(record))
    }
}

impl vstd::std_specs::convert::FromSpecImpl<Record> for KnownRecord {
    open spec fn obeys_from_spec() -> bool {
        true
    }

    open spec fn from_spec(v: Record) -> Self {
        KnownRecord::AppBskyFeedThreadgate(Box::new(v))
    }
}

/// The basic view of a profile.
pub struct ProfileViewBasic {
    pub did: String,
    pub handle: String,
    pub display_name: Option<String>,
    pub avatar: Option<String>,
}

/// A label on a record or an account.
pub struct Label {
    pub src: String,
    pub uri: String,
    pub cid: Option<String>,
    pub val: String,
    pub neg: Option<bool>,
    pub cts: String,
}

/// A post in a feed.
pub struct FeedViewPost {
    pub post: PostView,
    pub reason: Option<Box<FeedViewPostReasonEnum>>,
    pub reply: Option<ReplyRef>,
}

/// A post that could not be found.
pub struct NotFoundPost {
    pub not_found: bool,
    pub uri: String,
}

/// The view of a post.
pub struct PostView {
    pub author: ProfileViewBasic,
    pub cid: String,
    pub embed: Option<Box<PostViewEmbedEnum>>,
    pub indexed_at: String,
    pub labels: Option<Vec<Label>>,
    pub like_count: Option<i32>,
    pub record: KnownRecord,
    pub reply_count: Option<i32>,
    pub repost_count: Option<i32>,
    pub uri: String,
    pub viewer: Option<ViewerState>,
}

/// Why a post is in a feed: someone reposted it.
pub struct ReasonRepost {
    pub by: ProfileViewBasic,
    pub indexed_at: String,
}

/// The posts that a post replies to.
pub struct ReplyRef {
    pub parent: PostView,
    pub root: PostView,
}

/// A post in a thread, with its parent and replies.
pub struct ThreadViewPost {
    pub parent: Option<Box<ThreadViewPostParentEnum>>,
    pub post: PostView,
    pub replies: Option<Vec<ThreadViewPostRepliesItem>>,
}

/// What the viewer did with a post.
pub struct ViewerState {
    pub like: Option<String>,
    pub repost: Option<String>,
}

/// Why a post is in a feed.
pub enum FeedViewPostReasonEnum {
    ReasonRepost(ReasonRepost),
}

/// What a post embeds.
pub enum PostViewEmbedEnum {
    AppBskyEmbedImagesView(View),
}

/// The parent of a post in a thread.
pub enum ThreadViewPostParentEnum {
    ThreadViewPost(ThreadViewPost),
    NotFoundPost(NotFoundPost),
}

/// A reply to a post in a thread.
pub enum ThreadViewPostRepliesItem {
    ThreadViewPost(ThreadViewPost),
    NotFoundPost(NotFoundPost),
}

} // verus!
