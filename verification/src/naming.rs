//! The on-disk file name of a chunk's data file.

use vstd::prelude::*;

use crate::text::{dec_digits, u64_to_dec};

verus! {

/// The file name derived from a chunk's identifier and optional suffix:
/// the decimal identifier, then `-` and the suffix when one is set, then
/// the fixed extension.
pub open spec fn chunk_file_name_text(id: u64, suffix: Option<Seq<char>>) -> Seq<char> {
    let stem = match suffix {
        Option::Some(s) => dec_digits(id as nat) + "-"@ + s,
        Option::None => dec_digits(id as nat),
    };
    stem + ".chunk.parquet"@
}

/// The view of an optional string.
pub open spec fn opt_str_view(s: Option<String>) -> Option<Seq<char>> {
    match s {
        Option::Some(s) => Option::Some(s@),
        Option::None => Option::None,
    }
}

/// Computes the on-disk file name of a chunk's data file.
pub fn chunk_file_name(id: u64, suffix: &Option<String>) -> (r: String)
    ensures
        r@ == chunk_file_name_text(id, opt_str_view(*suffix)),
{
    let mut out = u64_to_dec(id);
    match suffix {
        Option::Some(s) => {
            out.append("-");
            out.append(s.as_str());
        },
        Option::None => {},
    }
    out.append(".chunk.parquet");
    proof {
        assert(out@ =~= chunk_file_name_text(id, opt_str_view(*suffix)));
    }
    out
}

/// Law: the file name is a pure function of the identifier and the suffix
/// text — equal inputs yield equal names.
pub proof fn lemma_file_name_functional(
    id1: u64,
    suffix1: Option<Seq<char>>,
    id2: u64,
    suffix2: Option<Seq<char>>,
)
    requires
        id1 == id2,
        suffix1 == suffix2,
    ensures
        chunk_file_name_text(id1, suffix1) == chunk_file_name_text(id2, suffix2),
{
}

} // verus!
