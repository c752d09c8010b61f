//! Extraction and reinsertion of the XOR-obfuscated firmware window inside the
//! vendor installer image.
use vstd::prelude::*;
use crate::text::{dec_text, push_dec, push_str};

verus! {

/// Byte offset of the firmware window inside the installer.
pub const SN8_OFFSET: usize = 472208;

/// Length in bytes of the firmware window.
pub const SN8_SIZE: usize = 24576;

/// Key that every byte of the window is XOR-ed with.
pub const XOR_KEY: u8 = 0x5A;

/// The window of `installer`, decoded.
pub open spec fn spec_extract(installer: Seq<u8>) -> Seq<u8>
    recommends
        installer.len() >= SN8_OFFSET + SN8_SIZE,
{
    Seq::new(SN8_SIZE as nat, |i: int| installer[SN8_OFFSET + i] ^ XOR_KEY)
}

/// `installer` with its window replaced by the first `SN8_SIZE` bytes of `fw`, encoded.
pub open spec fn spec_reinsert(fw: Seq<u8>, installer: Seq<u8>) -> Seq<u8>
    recommends
        installer.len() >= SN8_OFFSET + SN8_SIZE,
        fw.len() >= SN8_SIZE,
{
    Seq::new(
        installer.len(),
        |i: int|
            if SN8_OFFSET <= i < SN8_OFFSET + SN8_SIZE {
                fw[i - SN8_OFFSET] ^ XOR_KEY
            } else {
                installer[i]
            },
    )
}

/// Why an installer or firmware image was refused: the required and the actual length.
#[derive(Clone, Copy, Debug, PartialEq, Eq, Structural)]
pub enum SizeError {
    InstallerTooSmall { need: usize, have: usize },
    FirmwareTooSmall { need: usize, have: usize },
}

fn extract_fw(installer: &[u8]) -> (r: Result<Vec<u8>, SizeError>)
    ensures
        installer@.len() < SN8_OFFSET + SN8_SIZE <==> r is Err,
        r matches Err(e) ==> e == (SizeError::InstallerTooSmall {
            need: (SN8_OFFSET + SN8_SIZE) as usize,
            have: installer@.len() as usize,
        }),
        r matches Ok(fw) ==> fw@ == spec_extract(installer@),
{
    if installer.len() < SN8_OFFSET + SN8_SIZE {
        return Err(SizeError::InstallerTooSmall { need: SN8_OFFSET + SN8_SIZE, have: installer.len() });
    }
    let mut out: Vec<u8> = Vec::with_capacity(SN8_SIZE);
    let mut i: usize = 0;
    while i < SN8_SIZE
        invariant
            i <= SN8_SIZE,
            installer@.len() >= SN8_OFFSET + SN8_SIZE,
            out@ == spec_extract(installer@).subrange(0, i as int),
        decreases SN8_SIZE - i,
    {
        out.push(installer[SN8_OFFSET + i] ^ XOR_KEY);
        i = i + 1;
    }
    assert(out@ =~= spec_extract(installer@));
    Ok(out)
}

fn reinsert_fw(fw_plain: &[u8], original_installer: &[u8]) -> (r: Result<Vec<u8>, SizeError>)
    ensures
        r is Ok <==> fw_plain@.len() >= SN8_SIZE && original_installer@.len() >= SN8_OFFSET
            + SN8_SIZE,
        fw_plain@.len() < SN8_SIZE ==> r == Err::<Vec<u8>, SizeError>(
            SizeError::FirmwareTooSmall { need: SN8_SIZE, have: fw_plain@.len() as usize },
        ),
        fw_plain@.len() >= SN8_SIZE && original_installer@.len() < SN8_OFFSET + SN8_SIZE ==> r
            == Err::<Vec<u8>, SizeError>(
            SizeError::InstallerTooSmall {
                need: (SN8_OFFSET + SN8_SIZE) as usize,
                have: original_installer@.len() as usize,
            },
        ),
        r matches Ok(v) ==> v@ == spec_reinsert(fw_plain@, original_installer@),
{
    if fw_plain.len() < SN8_SIZE {
        return Err(SizeError::FirmwareTooSmall { need: SN8_SIZE, have: fw_plain.len() });
    }
    if original_installer.len() < SN8_OFFSET + SN8_SIZE {
        return Err(
            SizeError::InstallerTooSmall {
                need: SN8_OFFSET + SN8_SIZE,
                have: original_installer.len(),
            },
        );
    }
    let mut out: Vec<u8> = Vec::with_capacity(original_installer.len());
    let mut i: usize = 0;
    let n = original_installer.len();
    while i < n
        invariant
            i <= n,
            n == original_installer@.len(),
            n >= SN8_OFFSET + SN8_SIZE,
            fw_plain@.len() >= SN8_SIZE,
            out@ == spec_reinsert(fw_plain@, original_installer@).subrange(0, i as int),
        decreases n - i,
    {
        let b = if SN8_OFFSET <= i && i < SN8_OFFSET + SN8_SIZE {
            fw_plain[i - SN8_OFFSET] ^ XOR_KEY
        } else {
            original_installer[i]
        };
        out.push(b);
        i = i + 1;
    }
    assert(out@ =~= spec_reinsert(fw_plain@, original_installer@));
    Ok(out)
}

impl SizeError {
    /// The human-readable text of the error.
    pub open spec fn spec_message(&self) -> Seq<char> {
        match self {
            SizeError::InstallerTooSmall { need, have } => "Installer too small: need "@
                + dec_text(*need as nat) + " bytes, have "@ + dec_text(*have as nat) + " bytes"@,
            SizeError::FirmwareTooSmall { need, have } => "fw_plain too small: need "@ + dec_text(
                *need as nat,
            ) + " bytes, have "@ + dec_text(*have as nat) + " bytes"@,
        }
    }

    /// The human-readable text of the error.
    pub fn message(&self) -> (r: String)
        ensures
            r@ == self.spec_message(),
    {
        let mut s = String::new();
        match self {
            SizeError::InstallerTooSmall { need, have } => {
                push_str(&mut s, "Installer too small: need ");
                push_dec(&mut s, *need);
                push_str(&mut s, " bytes, have ");
                push_dec(&mut s, *have);
                push_str(&mut s, " bytes");
            },
            SizeError::FirmwareTooSmall { need, have } => {
                push_str(&mut s, "fw_plain too small: need ");
                push_dec(&mut s, *need);
                push_str(&mut s, " bytes, have ");
                push_dec(&mut s, *have);
                push_str(&mut s, " bytes");
            },
        }
        s
    }
}

/// Extract and decrypt the SN8 firmware from an installer image.
pub fn extract_fw_from_installer_to_vec(installer: &[u8]) -> (r: Result<Vec<u8>, String>)
    ensures
        r is Ok <==> installer@.len() >= SN8_OFFSET + SN8_SIZE,
        r matches Ok(fw) ==> fw@ == spec_extract(installer@),
        r matches Err(m) ==> m@ == (SizeError::InstallerTooSmall {
            need: (SN8_OFFSET + SN8_SIZE) as usize,
            have: installer@.len() as usize,
        }).spec_message(),
{
    match extract_fw(installer) {
        Ok(v) => Ok(v),
        Err(e) => Err(e.message()),
    }
}

/// Build a new installer image: a copy of `original_installer` whose firmware window
/// holds the first `SN8_SIZE` bytes of `fw_plain`, encrypted.
pub fn build_installer_with_fw(fw_plain: &[u8], original_installer: &[u8]) -> (r: Result<
    Vec<u8>,
    String,
>)
    ensures
        r is Ok <==> fw_plain@.len() >= SN8_SIZE && original_installer@.len() >= SN8_OFFSET
            + SN8_SIZE,
        r matches Ok(v) ==> v@ == spec_reinsert(fw_plain@, original_installer@),
        r matches Err(m) ==> m@ == (if fw_plain@.len() < SN8_SIZE {
            SizeError::FirmwareTooSmall { need: SN8_SIZE, have: fw_plain@.len() as usize }
        } else {
            SizeError::InstallerTooSmall {
                need: (SN8_OFFSET + SN8_SIZE) as usize,
                have: original_installer@.len() as usize,
            }
        }).spec_message(),
{
    match reinsert_fw(fw_plain, original_installer) {
        Ok(v) => Ok(v),
        Err(e) => Err(e.message()),
    }
}

/// Reinserting what was extracted and extracting again gives back the first extraction.
pub proof fn lemma_extract_reinsert_extract(installer: Seq<u8>)
    requires
        installer.len() >= SN8_OFFSET + SN8_SIZE,
    ensures
        spec_reinsert(spec_extract(installer), installer).len() == installer.len(),
        spec_extract(spec_reinsert(spec_extract(installer), installer)) == spec_extract(installer),
{
    let fw = spec_extract(installer);
    let re = spec_reinsert(fw, installer);
    assert forall|i: int| 0 <= i < SN8_SIZE implies #[trigger] spec_extract(re)[i] == fw[i] by {
        let b = installer[SN8_OFFSET + i];
        assert((b ^ XOR_KEY) ^ XOR_KEY == b) by (bit_vector);
    }
    assert(spec_extract(re) =~= fw);
}

} // verus!
