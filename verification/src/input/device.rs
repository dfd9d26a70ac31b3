//! Recognising the mouse among the input devices under `/dev/input`.

use vstd::prelude::*;

verus! {

/// `needle` occurs in `hay` as a run of consecutive elements.
pub open spec fn has_run(hay: Seq<u8>, needle: Seq<u8>) -> bool {
    exists|i: int| 0 <= i && i + needle.len() <= hay.len() && #[trigger] hay.subrange(i, i + needle.len()) == needle
}

/// The ASCII bytes of `event`.
pub open spec fn event_word() -> Seq<u8> {
    seq![0x65u8, 0x76u8, 0x65u8, 0x6eu8, 0x74u8]
}

/// The ASCII bytes of `mouse`.
pub open spec fn mouse_word() -> Seq<u8> {
    seq![0x6du8, 0x6fu8, 0x75u8, 0x73u8, 0x65u8]
}

/// The string `str::to_lowercase` makes of `s`.
pub uninterp spec fn lowercase(s: Seq<char>) -> Seq<char>;

/// Lower-cases `s` with `str::to_lowercase`.
/// Trusted: the result is `lowercase` of the argument's characters (the
/// conversion depends on the string alone). What the lower-case form of each
/// character is, is left unsaid.
#[verifier::external_body]
fn to_lowercase(s: &str) -> (lower: String)
    ensures
        lower@ == lowercase(s@),
{
    s.to_lowercase()
}

/// Whether `needle` occurs in `hay`, checked at every start position in turn.
pub fn contains_run(hay: &[u8], needle: &[u8]) -> (found: bool)
    ensures
        found == has_run(hay@, needle@),
{
    if needle.len() > hay.len() {
        return false;
    }
    if needle.len() == 0 {
        assert(hay@.subrange(0int, 0int + needle@.len()) =~= needle@);
        return true;
    }
    let hay_len: usize = hay.len();
    let last: usize = hay.len() - needle.len();
    let mut i: usize = 0;
    while i <= last
        invariant
            hay_len == hay@.len(),
            needle@.len() >= 1,
            last == hay@.len() - needle@.len(),
            i <= last + 1,
            forall|j: int| 0 <= j < i ==> #[trigger] hay@.subrange(j, j + needle@.len()) != needle@,
        decreases last + 1 - i,
    {
        let mut k: usize = 0;
        let mut same: bool = true;
        while k < needle.len()
            invariant
                i <= last,
                hay_len == hay@.len(),
                last == hay@.len() - needle@.len(),
                k <= needle@.len(),
                same == (forall|m: int| 0 <= m < k ==> hay@[i + m] == needle@[m]),
            decreases needle@.len() - k,
        {
            if hay[i + k] != needle[k] {
                same = false;
            }
            k = k + 1;
        }
        if same {
            assert(hay@.subrange(i as int, i + needle@.len()) =~= needle@);
            return true;
        }
        assert(hay@.subrange(i as int, i + needle@.len()) != needle@) by {
            let m = choose|m: int| 0 <= m < needle@.len() && hay@[i + m] != needle@[m];
            assert(hay@.subrange(i as int, i + needle@.len())[m] != needle@[m]);
        }
        i = i + 1;
    }
    assert forall|j: int| 0 <= j && j + needle@.len() <= hay@.len() implies #[trigger] hay@.subrange(j, j + needle@.len()) != needle@ by {
        assert(j < i);
    }
    false
}

/// Whether the device node at `path` is an event device: its path contains
/// `event`.
pub fn is_event_node(path: &str) -> (event: bool)
    ensures
        event == has_run(vstd::utf8::encode_utf8(path@), event_word()),
{
    // "event"
    let word: [u8; 5] = [0x65, 0x76, 0x65, 0x6e, 0x74];
    assert(word@ =~= event_word());
    contains_run(path.as_bytes(), &word)
}

/// Whether a device with the given name (none when the device reports none)
/// is a mouse: its name, lower-cased, contains `mouse`.
pub fn is_mouse_name(name: Option<&str>) -> (mouse: bool)
    ensures
        mouse == has_run(
            vstd::utf8::encode_utf8(
                lowercase(
                    match name {
                        Some(n) => n@,
                        None => Seq::<char>::empty(),
                    },
                ),
            ),
            mouse_word(),
        ),
{
    proof {
        reveal_strlit("");
    }
    let text: &str = match name {
        Some(n) => n,
        None => "",
    };
    assert(text@ == match name {
        Some(n) => n@,
        None => Seq::<char>::empty(),
    });
    let lower: String = to_lowercase(text);
    // "mouse"
    let word: [u8; 5] = [0x6d, 0x6f, 0x75, 0x73, 0x65];
    assert(word@ =~= mouse_word());
    contains_run(lower.as_str().as_bytes(), &word)
}

} // verus!
