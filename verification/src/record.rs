use vstd::prelude::*;

use vstd::bytes::spec_u16_from_le_bytes;
use vstd::bytes::u16_from_le_bytes;
use vstd::slice::slice_subrange;
use vstd::slice::slice_to_vec;

use crate::errors::DiceError;

verus! {

/// Length of an ed25519 public key, in bytes.
pub const PUBKEY_LEN: usize = 32;

/// Length of an ed25519 signature, in bytes.
pub const SIGNATURE_LEN: usize = 64;

/// Bytes of the record header: the entry count and one byte of padding.
pub const RECORD_HEADER_LEN: usize = 2;

/// Bytes of one entry's offset table: seven little-endian 16-bit fields.
pub const ENTRY_TABLE_LEN: usize = 14;

/// The offset-table value that points into the record's own instruction
/// rather than into another one of the batch.
pub const OWN_INSTRUCTION_IX: u16 = 0xFFFF;

/// One signature entry read out of the platform's signature-verification
/// record: whether the platform actually checked it, and the public key and
/// signature bytes the check was bound to, where the record carries them
/// itself.
#[derive(Debug, PartialEq, Eq)]
pub struct SignatureEntry {
    pub is_verifiable: bool,
    pub public_key: Option<Vec<u8>>,
    pub signature: Option<Vec<u8>>,
}

/// The mathematical image of a `SignatureEntry`.
pub ghost struct SignatureEntryView {
    pub is_verifiable: bool,
    pub public_key: Option<Seq<u8>>,
    pub signature: Option<Seq<u8>>,
}

impl View for SignatureEntry {
    type V = SignatureEntryView;

    open spec fn view(&self) -> SignatureEntryView {
        SignatureEntryView {
            is_verifiable: self.is_verifiable,
            public_key: match self.public_key {
                Some(k) => Some(k@),
                None => None,
            },
            signature: match self.signature {
                Some(s) => Some(s@),
                None => None,
            },
        }
    }
}

/// The views of a sequence of entries.
pub open spec fn views_of(entries: Seq<SignatureEntry>) -> Seq<SignatureEntryView> {
    entries.map_values(|e: SignatureEntry| e@)
}

/// The little-endian 16-bit value at `off`.
pub open spec fn u16_at(data: Seq<u8>, off: int) -> u16
    recommends
        0 <= off,
        off + 2 <= data.len(),
{
    spec_u16_from_le_bytes(data.subrange(off, off + 2))
}

/// A record is well formed when it holds its two header bytes and one whole
/// offset table for each entry its count byte announces.
pub open spec fn record_wf(data: Seq<u8>) -> bool {
    &&& data.len() >= RECORD_HEADER_LEN
    &&& data.len() >= RECORD_HEADER_LEN + ENTRY_TABLE_LEN * (data[0] as int)
}

/// How many entries the record announces.
pub open spec fn record_entry_count(data: Seq<u8>) -> int
    recommends
        data.len() >= 1,
{
    data[0] as int
}

/// The bytes `[off, off + len)` of the record, where they lie inside it.
pub open spec fn field_at(data: Seq<u8>, off: int, len: int) -> Option<Seq<u8>> {
    if 0 <= off && off + len <= data.len() {
        Some(data.subrange(off, off + len))
    } else {
        None
    }
}

/// The entry the `i`-th offset table describes. An instruction-index field
/// of `OWN_INSTRUCTION_IX` binds that field to the record's own
/// instruction; an entry is verifiable exactly when its signature, key and
/// message all point at the record itself, for those are the bytes the
/// platform checked when it accepted the record. A bound field whose
/// offset runs past the record's end is absent.
pub open spec fn entry_spec(data: Seq<u8>, i: int) -> SignatureEntryView
    recommends
        record_wf(data),
        0 <= i < record_entry_count(data),
{
    let base = RECORD_HEADER_LEN + ENTRY_TABLE_LEN * i;
    let signature_offset = u16_at(data, base);
    let signature_ix = u16_at(data, base + 2);
    let public_key_offset = u16_at(data, base + 4);
    let public_key_ix = u16_at(data, base + 6);
    let message_ix = u16_at(data, base + 12);
    SignatureEntryView {
        is_verifiable: signature_ix == OWN_INSTRUCTION_IX && public_key_ix == OWN_INSTRUCTION_IX
            && message_ix == OWN_INSTRUCTION_IX,
        public_key: if public_key_ix == OWN_INSTRUCTION_IX {
            field_at(data, public_key_offset as int, PUBKEY_LEN as int)
        } else {
            None
        },
        signature: if signature_ix == OWN_INSTRUCTION_IX {
            field_at(data, signature_offset as int, SIGNATURE_LEN as int)
        } else {
            None
        },
    }
}

/// All entries of a well-formed record.
pub open spec fn record_entries_spec(data: Seq<u8>) -> Seq<SignatureEntryView>
    recommends
        record_wf(data),
{
    Seq::new(record_entry_count(data) as nat, |i: int| entry_spec(data, i))
}

/// Reads the little-endian 16-bit field at `off`.
fn read_u16(data: &Vec<u8>, off: usize) -> (r: u16)
    requires
        off + 2 <= data@.len(),
    ensures
        r == u16_at(data@, off as int),
{
    let total: usize = data.len();
    proof {
        assert(off + 2 <= total);
    }
    u16_from_le_bytes(slice_subrange(data.as_slice(), off, off + 2))
}

/// Copies the bytes `[off, off + len)` out of the record, where they lie
/// inside it.
fn read_field(data: &Vec<u8>, off: u16, len: usize) -> (r: Option<Vec<u8>>)
    requires
        len <= SIGNATURE_LEN,
    ensures
        match r {
            Some(v) => field_at(data@, off as int, len as int) == Some(v@),
            None => field_at(data@, off as int, len as int) is None,
        },
{
    if (off as usize) + len <= data.len() {
        Some(slice_to_vec(slice_subrange(data.as_slice(), off as usize, (off as usize) + len)))
    } else {
        None
    }
}

/// Parses the platform's signature-verification record: a count byte, one
/// byte of padding, `count` offset tables of fourteen bytes each, and the
/// key, signature and message bytes the tables point into. A record too
/// short to hold its own tables is rejected as unavailable.
pub fn parse_verification_record(data: &Vec<u8>) -> (r: Result<Vec<SignatureEntry>, DiceError>)
    ensures
        match r {
            Ok(entries) => {
                &&& record_wf(data@)
                &&& views_of(entries@) == record_entries_spec(data@)
            },
            Err(e) => {
                &&& !record_wf(data@)
                &&& e == DiceError::VerificationRecordUnavailable
            },
        },
{
    if data.len() < RECORD_HEADER_LEN {
        return Err(DiceError::VerificationRecordUnavailable);
    }
    let count = data[0] as usize;
    if (data.len() - RECORD_HEADER_LEN) / ENTRY_TABLE_LEN < count {
        proof {
            assert(!record_wf(data@)) by (nonlinear_arith)
                requires
                    data@.len() >= 2,
                    count == data@[0] as int,
                    (data@.len() - 2) / 14 < count,
            ;
        }
        return Err(DiceError::VerificationRecordUnavailable);
    }
    proof {
        assert(2 + 14 * count <= data@.len()) by (nonlinear_arith)
            requires
                data@.len() >= 2,
                (data@.len() - 2) / 14 >= count,
        ;
    }
    let mut entries: Vec<SignatureEntry> = Vec::new();
    let mut i: usize = 0;
    while i < count
        invariant
            record_wf(data@),
            count == record_entry_count(data@),
            2 + 14 * count <= data@.len(),
            i <= count,
            entries@.len() == i as int,
            forall|j: int| 0 <= j < i ==> (#[trigger] entries@[j])@ == entry_spec(data@, j),
        decreases count - i,
    {
        let base = RECORD_HEADER_LEN + ENTRY_TABLE_LEN * i;
        let signature_offset = read_u16(data, base);
        let signature_ix = read_u16(data, base + 2);
        let public_key_offset = read_u16(data, base + 4);
        let public_key_ix = read_u16(data, base + 6);
        let message_ix = read_u16(data, base + 12);
        let public_key = if public_key_ix == OWN_INSTRUCTION_IX {
            read_field(data, public_key_offset, PUBKEY_LEN)
        } else {
            None
        };
        let signature = if signature_ix == OWN_INSTRUCTION_IX {
            read_field(data, signature_offset, SIGNATURE_LEN)
        } else {
            None
        };
        let entry = SignatureEntry {
            is_verifiable: signature_ix == OWN_INSTRUCTION_IX && public_key_ix == OWN_INSTRUCTION_IX
                && message_ix == OWN_INSTRUCTION_IX,
            public_key,
            signature,
        };
        proof {
            assert(entry@ == entry_spec(data@, i as int));
        }
        entries.push(entry);
        i = i + 1;
    }
    proof {
        assert(views_of(entries@) =~= record_entries_spec(data@));
    }
    Ok(entries)
}

} // verus!
