//! What the engine keeps on disk: the configuration cards and the hash of
//! the audio manifest that was last taken over.

use crate::hardware::nfc::NfcUid;
use crate::network::message::hash_opt_view;
use crate::network::message::DataHash;
use vstd::prelude::*;

verus! {

/// What the engine keeps on disk. The configuration cards are a set: they
/// are held in a list in which no card stands twice, so that membership is
/// decided by comparing the bytes of the identifiers, and what `contains` and
/// `insert` do is proved rather than left to a hash.
#[derive(Debug, PartialEq, Eq)]
pub struct EngineState {
    audio_manifest_hash: Option<DataHash>,
    config_nfc_uids: Vec<NfcUid>,
}

/// What the kept state of the engine holds.
pub struct EngineStateView {
    /// The hash of the audio manifest that was last taken over.
    pub audio_manifest_hash: Option<Seq<u8>>,
    /// The configuration cards, each once.
    pub config_nfc_uids: Seq<NfcUid>,
}

impl EngineStateView {
    /// No card is kept twice.
    pub open spec fn wf(self) -> bool {
        self.config_nfc_uids.no_duplicates()
    }

    /// The state with `nfc_uid` among the cards; a card that is kept already
    /// is not kept again.
    pub open spec fn with_card(self, nfc_uid: NfcUid) -> EngineStateView {
        if self.config_nfc_uids.contains(nfc_uid) {
            self
        } else {
            EngineStateView { config_nfc_uids: self.config_nfc_uids.push(nfc_uid), ..self }
        }
    }

    /// The state with each of `cards` among its cards, taken in their order.
    pub open spec fn with_cards(self, cards: Seq<NfcUid>) -> EngineStateView
        decreases cards.len(),
    {
        if cards.len() == 0 {
            self
        } else {
            self.with_cards(cards.drop_last()).with_card(cards.last())
        }
    }

    /// The state with `nfc_uid` as its only card.
    pub open spec fn with_only_card(self, nfc_uid: NfcUid) -> EngineStateView {
        EngineStateView { config_nfc_uids: seq![nfc_uid], ..self }
    }

    /// The state with `hash` as the manifest hash.
    pub open spec fn with_manifest(self, hash: Option<Seq<u8>>) -> EngineStateView {
        EngineStateView { audio_manifest_hash: hash, ..self }
    }
}

impl View for EngineState {
    type V = EngineStateView;

    closed spec fn view(&self) -> EngineStateView {
        EngineStateView {
            audio_manifest_hash: hash_opt_view(self.audio_manifest_hash),
            config_nfc_uids: self.config_nfc_uids@,
        }
    }
}

impl Default for EngineState {
    /// No manifest and no configuration card.
    fn default() -> (state: Self)
        ensures
            state@.audio_manifest_hash is None,
            state@.config_nfc_uids.len() == 0,
            state@.wf(),
    {
        EngineState { audio_manifest_hash: None, config_nfc_uids: Vec::new() }
    }
}

impl EngineState {
    /// The state with this manifest hash and these cards; a card that is
    /// named more than once is kept once, at its first place.
    pub fn new(audio_manifest_hash: Option<DataHash>, cards: Vec<NfcUid>) -> (state: Self)
        ensures
            state@ == (EngineStateView {
                audio_manifest_hash: hash_opt_view(audio_manifest_hash),
                config_nfc_uids: Seq::empty(),
            }).with_cards(cards@),
            state@.wf(),
    {
        let mut state = EngineState { audio_manifest_hash, config_nfc_uids: Vec::new() };
        let ghost start = state@;
        let mut i: usize = 0;
        while i < cards.len()
            invariant
                i <= cards@.len(),
                state@.wf(),
                state@ == start.with_cards(cards@.take(i as int)),
            decreases cards@.len() - i,
        {
            state.insert(cards[i]);
            proof {
                let next = cards@.take(i + 1);
                assert(next.drop_last() =~= cards@.take(i as int));
                assert(next.last() == cards@[i as int]);
            }
            i += 1;
        }
        assert(cards@.take(i as int) =~= cards@);
        state
    }

    /// The hash of the audio manifest that was last taken over.
    pub fn audio_manifest_hash(&self) -> (hash: &Option<DataHash>)
        ensures
            hash_opt_view(*hash) == self@.audio_manifest_hash,
    {
        &self.audio_manifest_hash
    }

    /// The configuration cards.
    pub fn config_nfc_uids(&self) -> (cards: &Vec<NfcUid>)
        ensures
            cards@ == self@.config_nfc_uids,
    {
        &self.config_nfc_uids
    }

    /// Whether no configuration card is kept.
    pub fn has_no_cards(&self) -> (none: bool)
        ensures
            none == (self@.config_nfc_uids.len() == 0),
    {
        self.config_nfc_uids.len() == 0
    }

    /// Whether `nfc_uid` is a configuration card.
    pub fn contains(&self, nfc_uid: &NfcUid) -> (found: bool)
        ensures
            found == self@.config_nfc_uids.contains(*nfc_uid),
    {
        let mut i: usize = 0;
        while i < self.config_nfc_uids.len()
            invariant
                i <= self.config_nfc_uids@.len(),
                forall|j: int| 0 <= j < i ==> self.config_nfc_uids@[j] != *nfc_uid,
            decreases self.config_nfc_uids@.len() - i,
        {
            if self.config_nfc_uids[i].same_as(nfc_uid) {
                return true;
            }
            i += 1;
        }
        false
    }

    /// Makes `nfc_uid` a configuration card.
    pub fn insert(&mut self, nfc_uid: NfcUid)
        ensures
            final(self)@ == old(self)@.with_card(nfc_uid),
            old(self)@.wf() ==> final(self)@.wf(),
    {
        if !self.contains(&nfc_uid) {
            self.config_nfc_uids.push(nfc_uid);
        }
    }

    /// Makes `nfc_uid` the only configuration card.
    pub fn reset_to(&mut self, nfc_uid: NfcUid)
        ensures
            final(self)@ == old(self)@.with_only_card(nfc_uid),
            final(self)@.wf(),
    {
        let mut cards = Vec::new();
        cards.push(nfc_uid);
        self.config_nfc_uids = cards;
        assert(self.config_nfc_uids@ =~= seq![nfc_uid]);
    }

    /// Takes `hash` over as the manifest hash.
    pub fn set_audio_manifest_hash(&mut self, hash: Option<DataHash>)
        ensures
            final(self)@ == old(self)@.with_manifest(hash_opt_view(hash)),
    {
        self.audio_manifest_hash = hash;
    }
}

} // verus!
