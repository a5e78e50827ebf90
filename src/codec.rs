use vstd::prelude::*;

verus! {

/// The word that two bytes form, low byte first.
pub open spec fn word_of(lo: u8, hi: u8) -> u16 {
    (lo as int + 256 * hi as int) as u16
}

/// The words of a byte stream: byte `2i` is the low half of word `i`, byte `2i + 1`
/// its high half; a trailing odd byte is dropped.
pub open spec fn decode_spec(bytes: Seq<u8>) -> Seq<u16> {
    Seq::new(bytes.len() / 2, |i: int| word_of(bytes[2 * i], bytes[2 * i + 1]))
}

/// The little-endian byte stream of a word sequence, two bytes per word.
pub open spec fn encode_spec(words: Seq<u16>) -> Seq<u8> {
    Seq::new(
        2 * words.len(),
        |j: int|
            if j % 2 == 0 {
                (words[j / 2] % 256) as u8
            } else {
                (words[j / 2] / 256) as u8
            },
    )
}

/// Interprets two bytes as a little-endian word.
pub fn from_little_endian(bytes: [u8; 2]) -> (r: u16)
    ensures
        r == word_of(bytes@[0], bytes@[1]),
        r as int == bytes@[0] as int + 256 * bytes@[1] as int,
{
    (bytes[0] as u16) + 256 * (bytes[1] as u16)
}

/// Turns a little-endian byte stream into its words.
pub fn decode(bin: &Vec<u8>) -> (r: Vec<u16>)
    ensures
        r@ == decode_spec(bin@),
        r@.len() == bin@.len() / 2,
{
    let n: usize = bin.len();
    let decoded_size: usize = n / 2;
    let mut buffer: Vec<u16> = Vec::with_capacity(decoded_size);
    let mut i: usize = 0;
    while i < decoded_size
        invariant
            n == bin@.len(),
            decoded_size == n / 2,
            i <= decoded_size,
            buffer@ == decode_spec(bin@).take(i as int),
        decreases decoded_size - i,
    {
        assert(2 * i + 1 < bin@.len());
        let bytes: [u8; 2] = [bin[2 * i], bin[2 * i + 1]];
        let w = from_little_endian(bytes);
        buffer.push(w);
        i = i + 1;
        assert(buffer@ =~= decode_spec(bin@).take(i as int));
    }
    assert(buffer@ =~= decode_spec(bin@));
    buffer
}

/// Turns a little-endian byte slice into its words.
pub fn parse_bytecode(bytecode: &[u8]) -> (r: Vec<u16>)
    ensures
        r@ == decode_spec(bytecode@),
{
    let bin: Vec<u8> = vstd::slice::slice_to_vec(bytecode);
    decode(&bin)
}

/// A word splits back into the two bytes it was formed from.
proof fn lemma_word_bytes(lo: u8, hi: u8)
    ensures
        word_of(lo, hi) % 256 == lo,
        word_of(lo, hi) / 256 == hi,
{
    let w: int = lo as int + 256 * hi as int;
    assert(0 <= w < 65536) by (nonlinear_arith)
        requires w == lo as int + 256 * hi as int, 0 <= lo < 256, 0 <= hi < 256;
    assert(w % 256 == lo && w / 256 == hi) by (nonlinear_arith)
        requires w == lo as int + 256 * hi as int, 0 <= lo < 256, 0 <= hi < 256;
}

/// Decoding an even-length byte stream and writing each word back as two
/// little-endian bytes gives the original stream.
pub proof fn lemma_decode_round_trip(bytes: Seq<u8>)
    requires
        bytes.len() % 2 == 0,
    ensures
        encode_spec(decode_spec(bytes)) == bytes,
{
    let words = decode_spec(bytes);
    let back = encode_spec(words);
    assert forall|j: int| 0 <= j < bytes.len() implies #[trigger] back[j] == bytes[j] by {
        let i = j / 2;
        assert(0 <= i < words.len());
        assert(words[i] == word_of(bytes[2 * i], bytes[2 * i + 1]));
        lemma_word_bytes(bytes[2 * i], bytes[2 * i + 1]);
        if j % 2 == 0 {
            assert(j == 2 * i);
        } else {
            assert(j == 2 * i + 1);
        }
    }
    assert(back =~= bytes);
}

} // verus!
