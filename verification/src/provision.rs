//! Provisioning: the one operation that creates or replaces the keypair.

use crate::artifact::Artifact;
use crate::keys::public_pem_of;
use crate::keys::Keypair;
use crate::keys::KeypairText;
use crate::keys::ProvisionError;
use crate::record::KeyRecord;
use crate::record::RecordText;
use vstd::prelude::*;

verus! {

/// How a provisioning that did not fail ended.
#[derive(Clone, Copy, Debug, PartialEq, Eq, Structural)]
pub enum ProvisionResult {
    /// A fresh keypair was generated and both artifacts now hold it.
    Provisioned,
    /// Nothing was touched, because the named artifact already exists.
    AlreadyProvisioned(Artifact),
}

impl ProvisionResult {
    /// The line the operator reads after `generate`.
    pub open spec fn spec_message(self) -> Seq<char> {
        match self {
            ProvisionResult::Provisioned => "Generated keypair"@,
            ProvisionResult::AlreadyProvisioned(_) => "Keypair already exists"@,
        }
    }

    /// Whether a keypair was generated.
    pub fn generated(self) -> (yes: bool)
        ensures
            yes == (self is Provisioned),
    {
        match self {
            ProvisionResult::Provisioned => true,
            ProvisionResult::AlreadyProvisioned(_) => false,
        }
    }

    /// The line to print for this outcome.
    pub fn message(self) -> (line: &'static str)
        ensures
            line@ == self.spec_message(),
    {
        match self {
            ProvisionResult::Provisioned => "Generated keypair",
            ProvisionResult::AlreadyProvisioned(_) => "Keypair already exists",
        }
    }
}

/// What a generation, successful or not, looks like as plain text.
pub open spec fn generated_text(generated: Result<Keypair, ProvisionError>) -> Result<
    KeypairText,
    ProvisionError,
> {
    match generated {
        Ok(pair) => Ok(pair@),
        Err(e) => Err(e),
    }
}

/// The record and the report after the outcome of a generation has been
/// installed: a fresh pair replaces both artifacts, whatever they held; a
/// failure leaves the record as it was and is handed on.
pub open spec fn installed(
    before: RecordText,
    generated: Result<KeypairText, ProvisionError>,
) -> (RecordText, Result<ProvisionResult, ProvisionError>) {
    match generated {
        Ok(pair) => (RecordText::of(pair), Ok(ProvisionResult::Provisioned)),
        Err(e) => (before, Err(e)),
    }
}

/// The steps that provisioning may take from `before`: the relation between
/// the record before, the flag, the record after and the report.
///
/// Without force an existing artifact ends the operation at once, the record
/// untouched. Otherwise a generation is attempted. If it succeeds the record
/// holds a paired and framed keypair; if it fails the record is untouched.
pub open spec fn provisions(
    before: RecordText,
    force: bool,
    after: RecordText,
    result: Result<ProvisionResult, ProvisionError>,
) -> bool {
    if !force && before.conflict() is Some {
        &&& result == Ok::<ProvisionResult, ProvisionError>(
            ProvisionResult::AlreadyProvisioned(before.conflict().unwrap()),
        )
        &&& after == before
    } else {
        match result {
            Ok(outcome) => {
                &&& outcome == ProvisionResult::Provisioned
                &&& after.is_paired()
                &&& after.is_framed()
            },
            Err(_) => after == before,
        }
    }
}

/// Installs the outcome of a generation in the record.
///
/// This is the part of provisioning that comes after the key generator has
/// answered, for every answer it can give.
pub fn install(record: &mut KeyRecord, generated: Result<Keypair, ProvisionError>) -> (result:
    Result<ProvisionResult, ProvisionError>)
    ensures
        (final(record)@, result) == installed(old(record)@, generated_text(generated)),
        generated is Ok ==> final(record)@.is_paired() && final(record)@.is_framed(),
{
    match generated {
        Ok(pair) => {
            record.store(pair);
            Ok(ProvisionResult::Provisioned)
        },
        Err(e) => Err(e),
    }
}

/// Provisions the keypair.
///
/// Without `force`, the private artifact and then the public artifact are
/// looked for, and the first one found ends the operation: the record is
/// left as it is and the report names that artifact. With `force`, or where
/// neither artifact exists, a fresh key is generated, its public half is
/// derived, and both artifacts are overwritten with the new texts.
///
/// Whether the generation succeeds is up to the random source and the `rsa`
/// crate. If it fails, the error is returned and the record is left as it is.
pub fn keypair(record: &mut KeyRecord, force: bool) -> (result: Result<
    ProvisionResult,
    ProvisionError,
>)
    ensures
        provisions(old(record)@, force, final(record)@, result),
        !force && old(record)@.is_present(Artifact::Private) ==> result == Ok::<
            ProvisionResult,
            ProvisionError,
        >(ProvisionResult::AlreadyProvisioned(Artifact::Private)),
        !force && !old(record)@.is_present(Artifact::Private) && old(record)@.is_present(
            Artifact::Public,
        ) ==> result == Ok::<ProvisionResult, ProvisionError>(
            ProvisionResult::AlreadyProvisioned(Artifact::Public),
        ),
        force ==> !(result matches Ok(ProvisionResult::AlreadyProvisioned(_))),
        result == Ok::<ProvisionResult, ProvisionError>(ProvisionResult::Provisioned)
            ==> final(record)@.is_paired() && final(record)@.is_framed(),
        result != Ok::<ProvisionResult, ProvisionError>(ProvisionResult::Provisioned)
            ==> final(record)@ == old(record)@,
{
    if !force {
        match record.conflict() {
            Some(found) => {
                return Ok(ProvisionResult::AlreadyProvisioned(found));
            },
            None => {},
        }
    }
    let generated = Keypair::generate();
    install(record, generated)
}

/// Provisioning without force is idempotent. Take two calls in a row, the
/// first of which did not fail: the first call leaves every artifact that
/// existed as it was, the second call reports `AlreadyProvisioned`, and the
/// record after the second call is the record before it.
pub proof fn lemma_provision_is_idempotent(
    start: RecordText,
    first: Result<ProvisionResult, ProvisionError>,
    between: RecordText,
    second: Result<ProvisionResult, ProvisionError>,
    end: RecordText,
)
    requires
        provisions(start, false, between, first),
        first is Ok,
        provisions(between, false, end, second),
    ensures
        forall|artifact: Artifact|
            start.is_present(artifact) ==> between.slot(artifact) == start.slot(artifact),
        second matches Ok(ProvisionResult::AlreadyProvisioned(_)),
        end == between,
{
}

/// Provisioning with force never stops at an existing artifact. Whatever
/// the record held, a call that does not fail reports `Provisioned` and
/// leaves a paired and framed keypair in the record; a call that fails
/// leaves the record as it was.
pub proof fn lemma_force_always_provisions(
    before: RecordText,
    after: RecordText,
    result: Result<ProvisionResult, ProvisionError>,
)
    requires
        provisions(before, true, after, result),
    ensures
        !(result matches Ok(ProvisionResult::AlreadyProvisioned(_))),
        result is Ok ==> result == Ok::<ProvisionResult, ProvisionError>(
            ProvisionResult::Provisioned,
        ) && after.is_paired() && after.is_framed(),
        result is Err ==> after == before,
{
}

/// A fresh pair replaces both artifacts. After it is installed, each
/// artifact holds the text of the fresh pair and nothing of what it held
/// before, so an artifact has changed exactly where the fresh text differs
/// from the old one.
pub proof fn lemma_fresh_pair_replaces_both(before: RecordText, fresh: KeypairText)
    ensures
        installed(before, Ok(fresh)).1 == Ok::<ProvisionResult, ProvisionError>(
            ProvisionResult::Provisioned,
        ),
        forall|artifact: Artifact| #[trigger]
            installed(before, Ok(fresh)).0.slot(artifact) == Some(fresh.text(artifact)),
        forall|artifact: Artifact|
            (#[trigger] installed(before, Ok(fresh)).0.slot(artifact) != before.slot(artifact))
                <==> before.slot(artifact) != Some(fresh.text(artifact)),
{
}

/// After `Provisioned`, the public artifact is the public half of the key in
/// the private artifact, under either value of the flag.
pub proof fn lemma_provisioned_is_paired(
    before: RecordText,
    force: bool,
    after: RecordText,
    result: Result<ProvisionResult, ProvisionError>,
)
    requires
        provisions(before, force, after, result),
        result == Ok::<ProvisionResult, ProvisionError>(ProvisionResult::Provisioned),
    ensures
        after.is_paired(),
        after.private is Some,
        after.public is Some,
        public_pem_of(after.private.unwrap()) == after.public,
{
}

} // verus!
