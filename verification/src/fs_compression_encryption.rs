use vstd::prelude::*;
use vstd::string::*;
use crate::paths::{join, join_path};

verus! {

/// Metadata generated when a part of a file is encrypted and compressed
#[derive(Debug)]
pub struct EncryptionPart {
    /// Segment identifier for the part of the file
    pub segment: (u64, u64),
    /// Where the encrypted and compressed part or file is located
    pub encrypted_file_path: String,
    /// The key used to encrypt the part or file
    pub key: [u8; 32],
    /// The size after compression and encryption
    pub size_after: u64,
    /// The cipher used to encrypt the file
    pub cipher_info: String,
    /// The compression used to compress the file
    pub compression_info: String,
}

/// Metadata generated when a file is compressed and encrypted
#[derive(Debug)]
pub struct EncryptionMetadata {
    /// The parts of the file that were encrypted and associated metadata
    pub encrypted_pieces: Option<Vec<EncryptionPart>>,
    /// The cipher used to encrypt the file
    pub cipher_info: String,
    /// The compression used to compress the file
    pub compression_info: String,
}

impl EncryptionPart {
    /// The record of one part compressed with GZIP and encrypted: `size_after` bytes were
    /// written to `encrypted_file_path`.
    pub fn gzip_part(segment: (u64, u64), encrypted_file_path: String, key: [u8; 32], size_after: u64, cipher_info: String) -> (res: EncryptionPart)
        ensures
            res.segment == segment,
            res.encrypted_file_path@ == encrypted_file_path@,
            res.key == key,
            res.size_after == size_after,
            res.cipher_info@ == cipher_info@,
            res.compression_info@ == "GZIP"@,
    {
        EncryptionPart {
            segment,
            encrypted_file_path,
            key,
            size_after,
            cipher_info,
            compression_info: String::from_str("GZIP"),
        }
    }
}

/// Where one part of a file is read from and written to.
pub struct CopyPlan {
    /// The byte range of the part in the original file
    pub segment: (u64, u64),
    /// The original file
    pub source: String,
    /// The file that receives the compressed and encrypted part
    pub destination: String,
}

/// Plans the copy of part `part` of the file `file_name` under `original_root`, from the
/// partition guidelines: for each part, its byte range and the file it goes to.
pub fn copy_plan(original_root: &str, file_name: &str, guidelines: &Vec<((u64, u64), String)>, part: u32) -> (res: CopyPlan)
    requires
        (part as int) < guidelines@.len(),
    ensures
        res.segment == guidelines@[part as int].0,
        res.destination@ == guidelines@[part as int].1@,
        res.source@ == join(original_root@, file_name@),
{
    let i = part as usize;
    let (segment, destination) = &guidelines[i];
    CopyPlan { segment: *segment, source: join_path(original_root, file_name), destination: destination.clone() }
}

} // verus!
