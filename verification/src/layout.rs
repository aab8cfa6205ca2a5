//! Words and bytes.
//!
//! Everything the device reads is a sequence of 32-bit words, and a buffer
//! holds the four bytes of each word with the least significant byte first.
//! A buffer of records of one size holds them one after the other without
//! gaps.

use vstd::arithmetic::div_mod::{
    lemma_fundamental_div_mod_converse_div, lemma_fundamental_div_mod_converse_mod,
};
use vstd::prelude::*;

verus! {

/// The four bytes of a word, least significant first.
pub open spec fn word_bytes(w: u32) -> Seq<u8> {
    seq![
        (w % 256) as u8,
        ((w / 256) % 256) as u8,
        ((w / 65536) % 256) as u8,
        (w / 16777216) as u8,
    ]
}

/// The word whose four bytes stand at `at` and the three places after it.
pub open spec fn word_at(bytes: Seq<u8>, at: int) -> u32 {
    (bytes[at] + 256 * bytes[at + 1] + 65536 * bytes[at + 2] + 16777216 * bytes[at + 3]) as u32
}

/// The bytes of a sequence of words: byte `k` is byte `k % 4` of word `k / 4`.
pub open spec fn bytes_of_words(words: Seq<u32>) -> Seq<u8> {
    Seq::new(4 * words.len(), |k: int| word_bytes(words[k / 4])[k % 4])
}

/// The words that a sequence of bytes holds, an incomplete last word left
/// out: word `i` stands at byte `4 * i`.
pub open spec fn words_of_bytes(bytes: Seq<u8>) -> Seq<u32> {
    Seq::new(bytes.len() / 4, |i: int| word_at(bytes, 4 * i))
}

/// Records of `size` words each, one after the other: word `k` of the result
/// is word `k % size` of record `k / size`.
pub open spec fn packed(records: Seq<Seq<u32>>, size: nat) -> Seq<u32> {
    Seq::new(records.len() * size, |k: int| records[k / size as int][k % size as int])
}

/// Whether each record of the sequence has `size` words.
pub open spec fn all_of_size(records: Seq<Seq<u32>>, size: nat) -> bool {
    forall|i: int| 0 <= i < records.len() ==> (#[trigger] records[i]).len() == size
}

/// Reading the bytes of a word gives the word back.
pub proof fn lemma_word_round_trip(w: u32)
    ensures
        word_bytes(w).len() == 4,
        word_at(word_bytes(w), 0) == w,
{
}

/// Writing the word that four bytes hold gives the four bytes back.
pub proof fn lemma_bytes_round_trip(bytes: Seq<u8>, at: int)
    requires
        0 <= at,
        at + 4 <= bytes.len(),
    ensures
        word_bytes(word_at(bytes, at)) == bytes.subrange(at, at + 4),
{
    lemma_digits(bytes[at] as int, bytes[at + 1] as int, bytes[at + 2] as int, bytes[at + 3] as int);
    assert(word_bytes(word_at(bytes, at)) =~= bytes.subrange(at, at + 4));
}

/// Four digits in base 256 are found again in the number they make.
proof fn lemma_digits(b0: int, b1: int, b2: int, b3: int)
    requires
        0 <= b0 < 256,
        0 <= b1 < 256,
        0 <= b2 < 256,
        0 <= b3 < 256,
    ensures
        0 <= b0 + 256 * b1 + 65536 * b2 + 16777216 * b3 < 0x1_0000_0000,
        (b0 + 256 * b1 + 65536 * b2 + 16777216 * b3) % 256 == b0,
        ((b0 + 256 * b1 + 65536 * b2 + 16777216 * b3) / 256) % 256 == b1,
        ((b0 + 256 * b1 + 65536 * b2 + 16777216 * b3) / 65536) % 256 == b2,
        (b0 + 256 * b1 + 65536 * b2 + 16777216 * b3) / 16777216 == b3,
{
    let w = b0 + 256 * b1 + 65536 * b2 + 16777216 * b3;
    assert(w == 256 * (b1 + 256 * b2 + 65536 * b3) + b0);
    assert(w / 256 == b1 + 256 * b2 + 65536 * b3);
    assert(w == 65536 * (b2 + 256 * b3) + (b0 + 256 * b1));
    assert(w / 65536 == b2 + 256 * b3);
    assert(w == 16777216 * b3 + (b0 + 256 * b1 + 65536 * b2));
    assert(w / 16777216 == b3);
}

/// The word at byte `4 * i` of the bytes of a sequence of words is word `i`.
pub proof fn lemma_word_in_bytes(words: Seq<u32>, i: int)
    requires
        0 <= i < words.len(),
    ensures
        bytes_of_words(words).len() == 4 * words.len(),
        word_at(bytes_of_words(words), 4 * i) == words[i],
        bytes_of_words(words).subrange(4 * i, 4 * i + 4) == word_bytes(words[i]),
{
    let b = bytes_of_words(words);
    assert(b[4 * i] == word_bytes(words[i])[0]);
    assert(b[4 * i + 1] == word_bytes(words[i])[1]);
    assert(b[4 * i + 2] == word_bytes(words[i])[2]);
    assert(b[4 * i + 3] == word_bytes(words[i])[3]);
    lemma_word_round_trip(words[i]);
    assert(b.subrange(4 * i, 4 * i + 4) =~= word_bytes(words[i]));
}

/// Words survive the way through bytes and back.
pub proof fn lemma_words_round_trip(words: Seq<u32>)
    ensures
        words_of_bytes(bytes_of_words(words)) == words,
{
    let back = words_of_bytes(bytes_of_words(words));
    assert(back.len() == words.len());
    assert forall|i: int| 0 <= i < words.len() implies back[i] == words[i] by {
        lemma_word_in_bytes(words, i);
    }
    assert(back =~= words);
}

/// Bytes that make whole words survive the way through words and back.
pub proof fn lemma_whole_bytes_round_trip(bytes: Seq<u8>)
    requires
        bytes.len() % 4 == 0,
    ensures
        bytes_of_words(words_of_bytes(bytes)) == bytes,
{
    let words = words_of_bytes(bytes);
    let back = bytes_of_words(words);
    assert(back.len() == bytes.len());
    assert forall|k: int| 0 <= k < bytes.len() implies back[k] == bytes[k] by {
        let i = k / 4;
        lemma_bytes_round_trip(bytes, 4 * i);
        assert(bytes.subrange(4 * i, 4 * i + 4)[k % 4] == bytes[k]);
    }
    assert(back =~= bytes);
}

/// The bytes of two sequences of words, one after the other, are the bytes
/// of the two sequences joined.
pub proof fn lemma_bytes_of_joined_words(a: Seq<u32>, b: Seq<u32>)
    ensures
        bytes_of_words(a + b) == bytes_of_words(a) + bytes_of_words(b),
{
    let joined = bytes_of_words(a + b);
    let parts = bytes_of_words(a) + bytes_of_words(b);
    assert(joined.len() == parts.len());
    assert forall|k: int| 0 <= k < joined.len() implies joined[k] == parts[k] by {
        if k >= 4 * a.len() {
            assert((k - 4 * a.len()) / 4 == k / 4 - a.len());
            assert((k - 4 * a.len()) % 4 == k % 4);
        }
    }
    assert(joined =~= parts);
}

/// In a buffer of records of `size` words, word `j` of record `i` is word
/// `size * i + j` of the buffer.
pub proof fn lemma_word_of_record(records: Seq<Seq<u32>>, size: nat, i: int, j: int)
    requires
        0 <= i < records.len(),
        0 <= j < size,
    ensures
        0 <= size * i + j < packed(records, size).len(),
        packed(records, size).len() == records.len() * size,
        packed(records, size)[size * i + j] == records[i][j],
{
    let k = size * i + j;
    assert(size * i == i * size) by (nonlinear_arith);
    assert(0 <= size * i) by (nonlinear_arith)
        requires
            0 <= i,
            0 <= size,
    ;
    assert(size * i + size <= records.len() * size) by (nonlinear_arith)
        requires
            i + 1 <= records.len(),
            0 <= size,
    ;
    lemma_fundamental_div_mod_converse_div(k, size as int, i, j);
    lemma_fundamental_div_mod_converse_mod(k, size as int, i, j);
}

/// Appending a record to the records appends its words to the buffer.
pub proof fn lemma_packed_push(records: Seq<Seq<u32>>, size: nat, record: Seq<u32>)
    requires
        0 < size,
        all_of_size(records, size),
        record.len() == size,
    ensures
        packed(records.push(record), size) == packed(records, size) + record,
        all_of_size(records.push(record), size),
{
    let n = records.len() as int;
    let more = records.push(record);
    let whole = packed(more, size);
    let parts = packed(records, size) + record;
    assert((n + 1) * size == n * size + size) by (nonlinear_arith);
    assert(whole.len() == parts.len());
    assert forall|k: int| 0 <= k < whole.len() implies whole[k] == parts[k] by {
        let s = size as int;
        vstd::arithmetic::div_mod::lemma_fundamental_div_mod(k, s);
        let q = k / s;
        let r = k % s;
        assert(0 <= r < s);
        assert(k == s * q + r);
        assert(0 <= q <= n) by (nonlinear_arith)
            requires
                0 <= k < n * s + s,
                k == s * q + r,
                0 <= r < s,
                0 < s,
        ;
        if q < n {
            assert(k < n * s) by (nonlinear_arith)
                requires
                    k == s * q + r,
                    r < s,
                    q + 1 <= n,
                    0 < s,
            ;
        } else {
            assert(k - n * s == r) by (nonlinear_arith)
                requires
                    k == s * q + r,
                    q == n,
            ;
        }
    }
    assert(whole =~= parts);
}

/// Appends the four bytes of a word.
pub fn push_word(out: &mut Vec<u8>, w: u32)
    ensures
        final(out)@ == old(out)@ + word_bytes(w),
{
    out.push((w % 256) as u8);
    out.push(((w / 256) % 256) as u8);
    out.push(((w / 65536) % 256) as u8);
    out.push((w / 16777216) as u8);
    assert(out@ =~= old(out)@ + word_bytes(w));
}

/// The word at byte `at`.
pub fn read_word(bytes: &[u8], at: usize) -> (w: u32)
    requires
        at + 4 <= bytes@.len(),
    ensures
        w == word_at(bytes@, at as int),
{
    let b0: u32 = bytes[at] as u32;
    let b1: u32 = bytes[at + 1] as u32;
    let b2: u32 = bytes[at + 2] as u32;
    let b3: u32 = bytes[at + 3] as u32;
    b0 + 256 * b1 + 65536 * b2 + 16777216 * b3
}

/// The bytes of a sequence of words.
pub fn words_to_bytes(words: &Vec<u32>) -> (bytes: Vec<u8>)
    ensures
        bytes@ == bytes_of_words(words@),
        bytes@.len() == 4 * words@.len(),
{
    let mut bytes: Vec<u8> = Vec::new();
    let mut i: usize = 0;
    assert(bytes@ =~= bytes_of_words(words@.take(0)));
    while i < words.len()
        invariant
            i <= words.len(),
            bytes@ == bytes_of_words(words@.take(i as int)),
        decreases words.len() - i,
    {
        push_word(&mut bytes, words[i]);
        proof {
            let done = words@.take(i as int);
            lemma_bytes_of_joined_words(done, seq![words@[i as int]]);
            assert(bytes_of_words(seq![words@[i as int]]) =~= word_bytes(words@[i as int]));
            assert(done + seq![words@[i as int]] =~= words@.take(i + 1));
        }
        i += 1;
    }
    assert(words@.take(i as int) =~= words@);
    bytes
}

/// The words that the bytes hold, where the bytes make whole words.
pub fn bytes_to_words(bytes: &[u8]) -> (words: Option<Vec<u32>>)
    ensures
        words is Some <==> bytes@.len() % 4 == 0,
        words matches Some(w) ==> w@ == words_of_bytes(bytes@),
{
    if bytes.len() % 4 != 0 {
        return None;
    }
    let count: usize = bytes.len() / 4;
    let mut words: Vec<u32> = Vec::new();
    let mut i: usize = 0;
    while i < count
        invariant
            i <= count,
            bytes@.len() == 4 * count,
            bytes@.len() <= usize::MAX,
            words@.len() == i,
            forall|j: int| 0 <= j < i ==> words@[j] == word_at(bytes@, 4 * j),
        decreases count - i,
    {
        words.push(read_word(bytes, 4 * i));
        i += 1;
    }
    assert(words@ =~= words_of_bytes(bytes@));
    Some(words)
}

} // verus!
