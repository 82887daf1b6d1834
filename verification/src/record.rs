//! The key record: what the two artifacts hold, or that they are absent.

use crate::artifact::Artifact;
use crate::keys::public_pem_of;
use crate::keys::is_framed;
use crate::keys::Keypair;
use crate::keys::KeypairText;
use vstd::prelude::*;

verus! {

/// The text of an artifact that may be absent.
pub open spec fn text_of(slot: Option<String>) -> Option<Seq<char>> {
    match slot {
        Some(text) => Some(text@),
        None => None,
    }
}

/// What a [`KeyRecord`] holds, as plain text.
pub struct RecordText {
    pub private: Option<Seq<char>>,
    pub public: Option<Seq<char>>,
}

impl RecordText {
    /// The record with neither artifact.
    pub open spec fn empty() -> RecordText {
        RecordText { private: None, public: None }
    }

    /// The record that holds exactly the two texts of `pair`.
    pub open spec fn of(pair: KeypairText) -> RecordText {
        RecordText { private: Some(pair.private), public: Some(pair.public) }
    }

    /// The text of `artifact`, if it is there.
    pub open spec fn slot(self, artifact: Artifact) -> Option<Seq<char>> {
        match artifact {
            Artifact::Private => self.private,
            Artifact::Public => self.public,
        }
    }

    /// Whether `artifact` is there.
    pub open spec fn is_present(self, artifact: Artifact) -> bool {
        self.slot(artifact) is Some
    }

    /// The artifact that stands in the way of provisioning without force:
    /// the first one that exists, the private artifact being looked at
    /// first.
    pub open spec fn conflict(self) -> Option<Artifact> {
        if self.private is Some {
            Some(Artifact::Private)
        } else if self.public is Some {
            Some(Artifact::Public)
        } else {
            None
        }
    }

    /// Both artifacts are there, and the public text is the one derived from
    /// the private text.
    pub open spec fn is_paired(self) -> bool {
        &&& self.private matches Some(private)
        &&& self.public matches Some(public)
        &&& public_pem_of(private) == Some(public)
    }

    /// Both artifacts are there, each with the shape of the PEM text of its
    /// kind and with LF line endings throughout.
    pub open spec fn is_framed(self) -> bool {
        &&& self.private matches Some(private)
        &&& self.public matches Some(public)
        &&& is_framed(private, Artifact::Private)
        &&& is_framed(public, Artifact::Public)
    }
}

/// The two artifacts of the key record as they stand: the text of each, or
/// `None` where the artifact does not exist.
///
/// A record has no invariant of its own. Whatever is found on disk is a
/// record, also one half without the other.
#[derive(Clone, Debug, PartialEq, Eq)]
pub struct KeyRecord {
    pub private: Option<String>,
    pub public: Option<String>,
}

impl View for KeyRecord {
    type V = RecordText;

    open spec fn view(&self) -> RecordText {
        RecordText { private: text_of(self.private), public: text_of(self.public) }
    }
}

impl KeyRecord {
    /// The record of a directory in which nothing was provisioned yet.
    pub fn empty() -> (record: KeyRecord)
        ensures
            record@ == RecordText::empty(),
    {
        KeyRecord { private: None, public: None }
    }

    /// The record with the given artifacts.
    pub fn new(private: Option<String>, public: Option<String>) -> (record: KeyRecord)
        ensures
            record@.private == text_of(private),
            record@.public == text_of(public),
    {
        KeyRecord { private, public }
    }

    /// Whether `artifact` is there.
    pub fn is_present(&self, artifact: Artifact) -> (found: bool)
        ensures
            found == self@.is_present(artifact),
    {
        match artifact {
            Artifact::Private => self.private.is_some(),
            Artifact::Public => self.public.is_some(),
        }
    }

    /// The text of `artifact`, if it exists.
    pub fn text(&self, artifact: Artifact) -> (text: Option<&str>)
        ensures
            text is Some <==> self@.is_present(artifact),
            text matches Some(t) ==> self@.slot(artifact) == Some(t@),
    {
        let slot = match artifact {
            Artifact::Private => &self.private,
            Artifact::Public => &self.public,
        };
        match slot {
            Some(text) => Some(text.as_str()),
            None => None,
        }
    }

    /// Looks for an artifact that already exists, the private one first.
    ///
    /// The check only reads: it takes the record by shared reference and
    /// cannot create or change an artifact.
    pub fn conflict(&self) -> (found: Option<Artifact>)
        ensures
            found == self@.conflict(),
            self@.is_present(Artifact::Private) ==> found == Some(Artifact::Private),
            !self@.is_present(Artifact::Private) && self@.is_present(Artifact::Public) ==> found == Some(
                Artifact::Public,
            ),
            found is None <==> self@ == RecordText::empty(),
    {
        if self.is_present(Artifact::Private) {
            Some(Artifact::Private)
        } else if self.is_present(Artifact::Public) {
            Some(Artifact::Public)
        } else {
            None
        }
    }

    /// Overwrites both artifacts with the texts of `pair`, whatever the
    /// record held before.
    pub fn store(&mut self, pair: Keypair)
        ensures
            final(self)@ == RecordText::of(pair@),
            final(self)@.is_paired(),
            final(self)@.is_framed(),
    {
        let (private, public) = pair.into_texts();
        self.private = Some(private);
        self.public = Some(public);
    }
}

} // verus!
