use vstd::prelude::*;
use crate::text::{decimal_text, u128_decimal};

verus! {

broadcast use vstd::array::group_array_axioms;

} // verus!

verus! {

/// The tag under which the head is stored.
pub fn head_tag() -> (tag: String)
    ensures
        tag@ == seq!['h', 'e', 'a', 'd'],
{
    let tag = String::from_str("head");
    proof {
        reveal_strlit("head");
    }
    tag
}

/// The tag naming the block the chain holds at `height`: the height in decimal.
pub fn height_tag(height: u128) -> (tag: String)
    ensures
        tag@ == decimal_text(height as nat),
{
    u128_decimal(height)
}

/// The prefix of the tags under which checked blocks wait to be confirmed.
pub open spec fn temp_prefix() -> Seq<char> {
    seq!['t', 'e', 'm', 'p', '_']
}

/// The tag under which a checked block at `height` waits to be confirmed:
/// `temp_` followed by the height in decimal.
pub fn temp_tag(height: u128) -> (tag: String)
    ensures
        tag@ == temp_prefix() + decimal_text(height as nat),
{
    let mut tag = String::from_str("temp_");
    proof {
        reveal_strlit("temp_");
    }
    let digits = u128_decimal(height);
    tag.append(digits.as_str());
    tag
}

/// The prefix of all waiting tags, cleared once a new head is set.
pub fn temp_tag_prefix() -> (prefix: String)
    ensures
        prefix@ == temp_prefix(),
{
    let prefix = String::from_str("temp_");
    proof {
        reveal_strlit("temp_");
    }
    prefix
}

/// The UTF-8 bytes of `.tmp.so`.
pub open spec fn tmp_library_suffix() -> Seq<u8> {
    seq![46u8, 116u8, 109u8, 112u8, 46u8, 115u8, 111u8]
}

/// Whether a file name is that of a temporary copy of the game library:
/// its bytes end in `.tmp.so`.
pub fn is_tmp_library(file_name: &str) -> (tmp: bool)
    ensures
        tmp == ({
            let n = vstd::utf8::encode_utf8(file_name@);
            n.len() >= 7 && n.subrange(n.len() - 7, n.len() as int) == tmp_library_suffix()
        }),
{
    // the bytes of ".tmp.so"
    let suffix: [u8; 7] = [46u8, 116u8, 109u8, 112u8, 46u8, 115u8, 111u8];
    let name: &[u8] = file_name.as_bytes();
    proof {
        assert(suffix@ =~= tmp_library_suffix());
    }
    if name.len() < 7 {
        return false;
    }
    let start = name.len() - 7;
    let mut i: usize = 0;
    while i < 7
        invariant
            0 <= i <= 7,
            start + 7 == name@.len(),
            name@.len() <= usize::MAX,
            name@ == vstd::utf8::encode_utf8(file_name@),
            suffix@ == tmp_library_suffix(),
            forall|j: int| 0 <= j < i ==> name@[start + j] == suffix@[j],
        decreases 7 - i,
    {
        if name[start + i] != suffix[i] {
            proof {
                assert(name@.subrange(start as int, name@.len() as int)[i as int] != tmp_library_suffix()[i as int]);
            }
            return false;
        }
        i += 1;
    }
    proof {
        assert(name@.subrange(start as int, name@.len() as int) =~= tmp_library_suffix());
    }
    true
}

} // verus!
