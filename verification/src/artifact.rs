//! The two files that together make up a provisioned keypair.

use vstd::prelude::*;

verus! {

/// One half of the on-disk key record.
///
/// The order of the variants is the order in which the artifacts are checked
/// and written: the private key always comes first.
#[derive(Clone, Copy, Debug, PartialEq, Eq, Structural)]
pub enum Artifact {
    /// The PEM text of the RSA private key.
    Private,
    /// The PEM text of the matching RSA public key.
    Public,
}

impl Artifact {
    /// Where the artifact lives, relative to the working directory.
    pub open spec fn spec_path(self) -> Seq<char> {
        match self {
            Artifact::Private => "./private.txt"@,
            Artifact::Public => "./public.txt"@,
        }
    }

    /// The line that tells the operator which artifact stood in the way.
    pub open spec fn spec_notice(self) -> Seq<char> {
        match self {
            Artifact::Private => "Private key already exists"@,
            Artifact::Public => "Public key already exists"@,
        }
    }

    /// The fixed path of this artifact.
    pub fn path(self) -> (p: &'static str)
        ensures
            p@ == self.spec_path(),
    {
        match self {
            Artifact::Private => "./private.txt",
            Artifact::Public => "./public.txt",
        }
    }

    /// The diagnostic printed when this artifact blocks provisioning.
    pub fn notice(self) -> (line: &'static str)
        ensures
            line@ == self.spec_notice(),
    {
        match self {
            Artifact::Private => "Private key already exists",
            Artifact::Public => "Public key already exists",
        }
    }
}

} // verus!
