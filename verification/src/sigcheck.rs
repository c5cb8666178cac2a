use vstd::prelude::*;

use crate::errors::DiceError;
use crate::record::SignatureEntry;
use crate::record::SignatureEntryView;
use crate::record::views_of;

verus! {

/// What signature verification returns for a record's entries: exactly one
/// entry must be present, marked as platform-checked, bound to the house
/// authority's public key, and bound to the very signature bytes supplied
/// for resolution — failing with the distinct error of the first violated
/// check. Only the signer and the signature bytes are checked against the
/// record: the message the house signed is not compared with the bet's own
/// identifying fields.
pub open spec fn verify_spec(
    entries: Seq<SignatureEntryView>,
    house_key: Seq<u8>,
    sig: Seq<u8>,
) -> Result<(), DiceError> {
    if entries.len() != 1 {
        Err(DiceError::SignatureCountInvalid)
    } else if !entries[0].is_verifiable {
        Err(DiceError::SignatureNotVerifiable)
    } else if entries[0].public_key != Some(house_key) {
        Err(DiceError::SignerMismatch)
    } else if entries[0].signature != Some(sig) {
        Err(DiceError::SignatureMismatch)
    } else {
        Ok(())
    }
}

/// Byte-for-byte equality of two byte vectors.
pub fn bytes_eq(a: &Vec<u8>, b: &Vec<u8>) -> (r: bool)
    ensures
        r == (a@ == b@),
{
    if a.len() != b.len() {
        return false;
    }
    let mut i: usize = 0;
    while i < a.len()
        invariant
            i <= a@.len(),
            a@.len() == b@.len(),
            forall|j: int| 0 <= j < i ==> a@[j] == b@[j],
        decreases a@.len() - i,
    {
        if a[i] != b[i] {
            return false;
        }
        i = i + 1;
    }
    proof {
        assert(a@ =~= b@);
    }
    true
}

/// Confirms that the co-submitted verification record vouches for the
/// supplied signature: exactly one entry, checked by the platform, signed
/// by the house authority, over these very signature bytes. Any violation
/// is reported as the distinct error of the first check that failed.
pub fn verify_ed25519_signature(
    entries: &Vec<SignatureEntry>,
    house_key: &Vec<u8>,
    sig: &Vec<u8>,
) -> (r: Result<(), DiceError>)
    ensures
        r == verify_spec(views_of(entries@), house_key@, sig@),
{
    proof {
        assert(views_of(entries@).len() == entries@.len());
        if entries@.len() == 1 {
            assert(views_of(entries@)[0] == entries@[0]@);
        }
    }
    if entries.len() != 1 {
        return Err(DiceError::SignatureCountInvalid);
    }
    let entry = &entries[0];
    if !entry.is_verifiable {
        return Err(DiceError::SignatureNotVerifiable);
    }
    match &entry.public_key {
        None => {
            return Err(DiceError::SignerMismatch);
        },
        Some(key) => {
            if !bytes_eq(key, house_key) {
                return Err(DiceError::SignerMismatch);
            }
        },
    }
    match &entry.signature {
        None => {
            return Err(DiceError::SignatureMismatch);
        },
        Some(bound_sig) => {
            if !bytes_eq(bound_sig, sig) {
                return Err(DiceError::SignatureMismatch);
            }
        },
    }
    Ok(())
}

/// A record that carries any number of entries other than one — two, say,
/// or none — is rejected for its count, before anything else is looked at.
pub proof fn lemma_entry_count_rejected(
    entries: Seq<SignatureEntryView>,
    house_key: Seq<u8>,
    sig: Seq<u8>,
)
    requires
        entries.len() != 1,
    ensures
        verify_spec(entries, house_key, sig) == Err::<(), DiceError>(
            DiceError::SignatureCountInvalid,
        ),
{
}

/// A correctly verified signature from a key other than the house
/// authority's is rejected as a signer mismatch.
pub proof fn lemma_foreign_signer_rejected(
    entries: Seq<SignatureEntryView>,
    house_key: Seq<u8>,
    sig: Seq<u8>,
)
    requires
        entries.len() == 1,
        entries[0].is_verifiable,
        entries[0].public_key != Some(house_key),
    ensures
        verify_spec(entries, house_key, sig) == Err::<(), DiceError>(DiceError::SignerMismatch),
{
}

} // verus!
