//! The content directory that tokens are issued for: who owns channels
//! and persons, what videos and playlists belong to, and the counters
//! that give out their ids.
use vstd::prelude::*;

verus! {

/// An identifier that counts up from one.
pub trait NumericIdentifier: Copy {
    /// The number that the identifier stands for.
    spec fn number(&self) -> nat;

    /// The first identifier.
    fn one() -> (r: Self)
        ensures
            r.number() == 1,
    ;
}

impl NumericIdentifier for u64 {
    open spec fn number(&self) -> nat {
        *self as nat
    }

    fn one() -> (r: u64) {
        1
    }
}

/// The owner of a channel: the actor that can update, delete or transfer
/// the channel and its contents.
#[derive(Clone, Copy, Debug, PartialEq, Eq)]
pub enum ChannelOwner<MemberId, CuratorGroupId, DAOId> {
    /// A member owns the channel.
    Member(MemberId),
    /// A curator group owns the channel.
    CuratorGroup(CuratorGroupId),
    /// A DAO owns the channel.
    Dao(DAOId),
}

/// A category that channels can belong to.
#[derive(Clone, Copy, Debug, PartialEq, Eq, Default)]
pub struct ChannelCategory {}

/// A category that videos can belong to.
#[derive(Clone, Copy, Debug, PartialEq, Eq, Default)]
pub struct VideoCategory {}

/// A video, which belongs to a channel and may be part of a series.
#[derive(Clone, Copy, Debug, PartialEq, Eq)]
pub struct Video<ChannelId, SeriesId> {
    pub in_channel: ChannelId,
    /// The series that the video is an episode of, if any.
    pub in_series: Option<SeriesId>,
    /// Whether the curators have censored the video.
    pub is_censored: bool,
}

/// An ordered collection of videos.
#[derive(Clone, Copy, Debug, PartialEq, Eq)]
pub struct Playlist<ChannelId> {
    /// The channel that the playlist belongs to.
    pub in_channel: ChannelId,
}

/// The actor that creates, updates or deletes a person.
#[derive(Clone, Copy, Debug, PartialEq, Eq)]
pub enum PersonActor<MemberId, CuratorId> {
    Member(MemberId),
    Curator(CuratorId),
}

/// The actor that may update or delete a person.
#[derive(Clone, Copy, Debug, PartialEq, Eq)]
pub enum PersonController<MemberId> {
    /// A member controls the person.
    Member(MemberId),
    /// Any curator controls the person.
    Curators,
}

/// A real person that may be associated with a video.
#[derive(Clone, Copy, Debug, PartialEq, Eq)]
pub struct Person<MemberId> {
    /// Who can update or delete the person.
    pub controlled_by: PersonController<MemberId>,
}

/// What a forum thread of a channel is created with.
#[derive(Clone, Copy, Debug, PartialEq, Eq)]
pub struct ThreadCreationParameters<Digest, ChannelId> {
    pub title_hash: Digest,
    pub text_hash: Digest,
    pub post_mutable: bool,
    pub channel_id: ChannelId,
}

/// What a forum post is created with.
#[derive(Clone, Copy, Debug, PartialEq, Eq)]
pub struct PostCreationParameters<Digest, ThreadId> {
    pub text_hash: Digest,
    pub mutable: bool,
    pub thread_id: ThreadId,
}

/// What of a forum post is changed.
#[derive(Clone, Copy, Debug, PartialEq, Eq)]
pub struct PostUpdateParameters<Digest> {
    pub text_hash: Option<Digest>,
    pub mutable: Option<bool>,
}

/// A change to the set of moderators of a channel's forum.
#[derive(Clone, Copy, Debug, PartialEq, Eq)]
pub enum ModSetOperation {
    AddModerator,
    RemoveModerator,
}

/// The counters that give out the ids of the content directory.
#[derive(Clone, Copy, Debug, PartialEq, Eq)]
pub struct Module {
    pub next_channel_category_id: u64,
    pub next_video_category_id: u64,
    pub next_video_id: u64,
    pub next_channel_id: u64,
    pub next_playlist_id: u64,
    pub next_series_id: u64,
    pub next_person_id: u64,
    pub next_channel_ownership_transfer_request_id: u64,
}

impl<MemberId, CuratorGroupId, DAOId> ChannelOwner<MemberId, CuratorGroupId, DAOId> {
    /// Whether a member owns the channel.
    pub fn is_member(&self) -> (r: bool)
        ensures
            r == (*self is Member),
    {
        match self {
            ChannelOwner::Member(_) => true,
            _ => false,
        }
    }
}

impl Module {
    /// Whether every counter stands at the first id.
    pub open spec fn fresh(self) -> bool {
        &&& self.next_channel_category_id == 1
        &&& self.next_video_category_id == 1
        &&& self.next_video_id == 1
        &&& self.next_channel_id == 1
        &&& self.next_playlist_id == 1
        &&& self.next_series_id == 1
        &&& self.next_person_id == 1
        &&& self.next_channel_ownership_transfer_request_id == 1
    }

    /// Sets every counter to the first id.
    pub fn on_runtime_upgrade(&mut self)
        ensures
            final(self).fresh(),
    {
        self.next_channel_category_id = u64::one();
        self.next_video_category_id = u64::one();
        self.next_video_id = u64::one();
        self.next_channel_id = u64::one();
        self.next_playlist_id = u64::one();
        self.next_series_id = u64::one();
        self.next_person_id = u64::one();
        self.next_channel_ownership_transfer_request_id = u64::one();
    }
}

} // verus!
