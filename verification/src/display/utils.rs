//! Recognising the DRM card device among the entries of `/dev/dri`.

use vstd::prelude::*;

verus! {

/// The ASCII bytes of `card`.
pub open spec fn card_prefix() -> Seq<u8> {
    seq![0x63u8, 0x61u8, 0x72u8, 0x64u8]
}

/// A file name that names a DRM card: its bytes begin with `card`.
pub open spec fn is_card_name(name: Seq<u8>) -> bool {
    name.len() >= 4 && name.take(4) == card_prefix()
}

/// Whether the directory entry with the given file name is a DRM card.
pub fn is_drm_card_name(name: &[u8]) -> (card: bool)
    ensures
        card == is_card_name(name@),
        card == (name@.len() >= 4 && name@[0] == 0x63 && name@[1] == 0x61 && name@[2] == 0x72
            && name@[3] == 0x64),
{
    if name.len() < 4 {
        return false;
    }
    // 'c', 'a', 'r', 'd'
    let card: bool = name[0] == 0x63 && name[1] == 0x61 && name[2] == 0x72 && name[3] == 0x64;
    assert(card == (name@.take(4) =~= card_prefix()));
    card
}

/// Entry `i` of the directory listing is a card and every entry before it was
/// read and is not a card, so a scan in order stops at it.
pub open spec fn first_card_at(entries: Seq<Option<Vec<u8>>>, i: int) -> bool {
    &&& 0 <= i < entries.len()
    &&& entries[i] matches Some(name) && is_card_name(name@)
    &&& forall|j: int| 0 <= j < i ==> (#[trigger] entries[j] matches Some(name) && !is_card_name(name@))
}

/// Scans the entries of `/dev/dri` in order (`None` marks an entry that could
/// not be read) and gives the index of the first card, or `None` if an
/// unreadable entry comes first or there is no card.
pub fn select_drm_card(entries: &Vec<Option<Vec<u8>>>) -> (found: Option<usize>)
    ensures
        found matches Some(i) ==> first_card_at(entries@, i as int),
        found is None ==> forall|i: int| !first_card_at(entries@, i),
{
    let mut i: usize = 0;
    while i < entries.len()
        invariant
            i <= entries@.len(),
            forall|j: int| 0 <= j < i ==> (#[trigger] entries@[j] matches Some(name) && !is_card_name(name@)),
        decreases entries@.len() - i,
    {
        match &entries[i] {
            None => {
                assert forall|k: int| !first_card_at(entries@, k) by {
                    if first_card_at(entries@, k) && k > i {
                        assert(entries@[i as int] is Some);
                    }
                }
                return None;
            },
            Some(name) => {
                if is_drm_card_name(name.as_slice()) {
                    return Some(i);
                }
            },
        }
        i = i + 1;
    }
    None
}

} // verus!
