use vstd::prelude::*;

verus! {

/// The ASCII code of the space character, the delimiter the scanner looks for.
pub const SPACE_BYTE: u8 = 32;

/// The bytes a text buffer occupies in memory: the UTF-8 encoding of its
/// characters. The scanner works on these bytes, so its result is a byte
/// offset, not a character offset.
pub open spec fn text_bytes(s: Seq<char>) -> Seq<u8> {
    vstd::utf8::encode_utf8(s)
}

/// The offset of the first space byte of `bytes`, or `bytes.len()` when no
/// byte is a space.
pub open spec fn first_space(bytes: Seq<u8>) -> int
    decreases bytes.len(),
{
    if bytes.len() == 0 {
        0
    } else if bytes[0] == SPACE_BYTE {
        0
    } else {
        1 + first_space(bytes.drop_first())
    }
}

/// What it means for `i` to be the scanner's answer on `bytes`: an offset no
/// greater than the length, pointing at a space byte unless it is the length,
/// with no space byte anywhere before it. When `i` is the length, the last
/// clause says the buffer holds no space at all.
pub open spec fn is_word_boundary(bytes: Seq<u8>, i: int) -> bool {
    &&& 0 <= i <= bytes.len()
    &&& i < bytes.len() ==> bytes[i] == SPACE_BYTE
    &&& forall|j: int| 0 <= j < i ==> bytes[j] != SPACE_BYTE
}

/// For every byte sequence, `first_space` picks a word boundary: an offset
/// within bounds that names the first space when one exists, and the length
/// when none does.
pub proof fn lemma_first_space_is_boundary(bytes: Seq<u8>)
    ensures
        is_word_boundary(bytes, first_space(bytes)),
    decreases bytes.len(),
{
    if bytes.len() == 0 {
    } else if bytes[0] == SPACE_BYTE {
    } else {
        let rest = bytes.drop_first();
        lemma_first_space_is_boundary(rest);
        let i = first_space(bytes);
        assert forall|j: int| 0 <= j < i implies bytes[j] != SPACE_BYTE by {
            if j > 0 {
                assert(bytes[j] == rest[j - 1]);
            }
        }
        if i < bytes.len() {
            assert(bytes[i] == rest[i - 1]);
        }
    }
}

/// Scanning decides a unique answer: two word boundaries of the same byte
/// sequence are equal. Together with the scanner's contract, this says that
/// scanning an unchanged buffer twice yields the same offset both times.
pub proof fn lemma_word_boundary_unique(bytes: Seq<u8>, i1: int, i2: int)
    requires
        is_word_boundary(bytes, i1),
        is_word_boundary(bytes, i2),
    ensures
        i1 == i2,
{
    if i1 < i2 {
        assert(bytes[i1] == SPACE_BYTE);
    }
    if i2 < i1 {
        assert(bytes[i2] == SPACE_BYTE);
    }
}

/// Scans the buffer's bytes in order from offset 0 and returns the offset of
/// the first space byte, or the buffer's byte length when it holds none.
/// Defined for every input; the empty buffer gives 0.
pub fn first_word(s: &String) -> (i: usize)
    ensures
        i == first_space(text_bytes(s@)),
        is_word_boundary(text_bytes(s@), i as int),
{
    let bytes: &[u8] = s.as_str().as_bytes();
    let n: usize = bytes.len();
    let mut i: usize = 0;
    while i < n
        invariant
            bytes@ == text_bytes(s@),
            n == bytes@.len(),
            i <= n,
            forall|j: int| 0 <= j < i ==> bytes@[j] != SPACE_BYTE,
        decreases n - i,
    {
        if bytes[i] == SPACE_BYTE {
            proof {
                lemma_first_space_is_boundary(text_bytes(s@));
                lemma_word_boundary_unique(
                    text_bytes(s@),
                    first_space(text_bytes(s@)),
                    i as int,
                );
            }
            return i;
        }
        i = i + 1;
    }
    proof {
        lemma_first_space_is_boundary(text_bytes(s@));
        lemma_word_boundary_unique(text_bytes(s@), first_space(text_bytes(s@)), i as int);
    }
    i
}

} // verus!
