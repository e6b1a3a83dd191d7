//! The connection to the server: the wire format, the answers that the
//! connection task gives, and the decisions that it takes.

pub mod message;
pub mod task;

use crate::network::message::records_view;
use crate::network::message::AchievementRecord;
use crate::network::message::AchievementRecordView;
use crate::network::message::DataHash;
use vstd::prelude::*;

verus! {

/// The answer to a bloop.
#[derive(Debug, PartialEq, Eq)]
pub enum BloopResponse {
    Accepted { achievements: Vec<AchievementRecord> },
    Throttled,
    Rejected,
}

/// What the answer to a bloop holds.
pub enum BloopResponseView {
    Accepted { achievements: Seq<AchievementRecordView> },
    Throttled,
    Rejected,
}

impl View for BloopResponse {
    type V = BloopResponseView;

    open spec fn view(&self) -> BloopResponseView {
        match *self {
            BloopResponse::Accepted { achievements } => BloopResponseView::Accepted {
                achievements: records_view(achievements@),
            },
            BloopResponse::Throttled => BloopResponseView::Throttled,
            BloopResponse::Rejected => BloopResponseView::Rejected,
        }
    }
}

/// The answer to a request for the audio of an achievement.
#[derive(Debug, PartialEq, Eq)]
pub enum AudioResponse {
    Data(Vec<u8>),
    NotFound,
    Disconnected,
}

/// What the answer to a request for audio holds.
pub enum AudioResponseView {
    Data(Seq<u8>),
    NotFound,
    Disconnected,
}

impl View for AudioResponse {
    type V = AudioResponseView;

    open spec fn view(&self) -> AudioResponseView {
        match *self {
            AudioResponse::Data(data) => AudioResponseView::Data(data@),
            AudioResponse::NotFound => AudioResponseView::NotFound,
            AudioResponse::Disconnected => AudioResponseView::Disconnected,
        }
    }
}

/// The answer to a preload check.
#[derive(Debug, PartialEq, Eq)]
pub enum PreloadCheckResponse {
    Match,
    Mismatch { audio_manifest_hash: DataHash, achievements: Vec<AchievementRecord> },
}

/// What the answer to a preload check holds.
pub enum PreloadCheckResponseView {
    Match,
    Mismatch { audio_manifest_hash: Seq<u8>, achievements: Seq<AchievementRecordView> },
}

impl View for PreloadCheckResponse {
    type V = PreloadCheckResponseView;

    open spec fn view(&self) -> PreloadCheckResponseView {
        match *self {
            PreloadCheckResponse::Match => PreloadCheckResponseView::Match,
            PreloadCheckResponse::Mismatch { audio_manifest_hash, achievements } => {
                PreloadCheckResponseView::Mismatch {
                    audio_manifest_hash: audio_manifest_hash@,
                    achievements: records_view(achievements@),
                }
            },
        }
    }
}

} // verus!
