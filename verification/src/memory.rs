//! Text in the tracee's memory: which words to fetch for it, and how the text
//! is put together from the words that were fetched.

use crate::words::{lemma_le_bytes_len, push_word_bytes, word_bytes};
use vstd::prelude::*;
use vstd::utf8::*;

verus! {

/// The size of a machine word in bytes.
pub const WORD_SIZE: u64 = 8;

/// The number of words that are fetched for a text of `byte_count` bytes: as
/// many as cover the bytes, and one more.
pub open spec fn words_needed(byte_count: nat) -> nat {
    (byte_count + 7) / 8 + 1
}

/// The address of the word with the given index in a run of words that
/// starts at `address`; addresses wrap round at the end of the address space.
pub open spec fn address_of_word(address: u64, index: u64) -> u64 {
    ((address + 8 * index) % 0x1_0000_0000_0000_0000) as u64
}

/// The bytes of the words, one word after the other.
pub open spec fn words_bytes(words: Seq<u64>) -> Seq<u8>
    decreases words.len(),
{
    if words.len() == 0 {
        Seq::empty()
    } else {
        words_bytes(words.drop_last()) + word_bytes(words.last())
    }
}

/// The first `len` bytes of `bytes`, with zeros where `bytes` ends before.
pub open spec fn resized(bytes: Seq<u8>, len: nat) -> Seq<u8> {
    Seq::new(
        len,
        |i: int|
            if i < bytes.len() {
                bytes[i]
            } else {
                0u8
            },
    )
}

/// The bytes of a text of `byte_count` bytes that starts where the first of
/// the words starts.
pub open spec fn text_bytes(words: Seq<u64>, byte_count: nat) -> Seq<u8> {
    resized(words_bytes(words), byte_count)
}

/// The text that `String::from_utf8_lossy` makes of the bytes.
pub uninterp spec fn utf8_lossy(bytes: Seq<u8>) -> Seq<char>;

/// The text that `{:?}` makes of a string: quoted, with escapes.
pub uninterp spec fn debug_quoted(text: Seq<char>) -> Seq<char>;

/// Calls `String::from_utf8_lossy`, which decodes the bytes as UTF-8 and puts
/// U+FFFD for what is not. Trusted: the result is a function of the bytes,
/// and bytes that are UTF-8 decode to the text that they encode.
#[verifier::external_body]
fn decode_lossy(bytes: &Vec<u8>) -> (text: String)
    ensures
        text@ == utf8_lossy(bytes@),
        valid_utf8(bytes@) ==> text@ == decode_utf8(bytes@),
{
    String::from_utf8_lossy(bytes).into_owned()
}

/// Formats the text with `{:?}`. Trusted: the result is a function of the
/// text.
#[verifier::external_body]
fn quote(text: &String) -> (quoted: String)
    ensures
        quoted@ == debug_quoted(text@),
{
    format!("{:?}", text)
}

/// The number of words to fetch for a text of `byte_count` bytes.
pub fn word_count(byte_count: u64) -> (count: u64)
    ensures
        count == words_needed(byte_count as nat),
{
    let full: u64 = byte_count / WORD_SIZE;
    if byte_count % WORD_SIZE == 0 {
        full + 1
    } else {
        full + 2
    }
}

/// The address at which to fetch the word with the given index: eight bytes
/// on for each word before it.
pub fn word_address(address: u64, index: u64) -> (at: u64)
    ensures
        at == address_of_word(address, index),
        address + 8 * index <= u64::MAX ==> at == address + 8 * index,
{
    let wide: u128 = address as u128 + 8 * (index as u128);
    (wide % 0x1_0000_0000_0000_0000) as u64
}

/// Puts the bytes of a text together from the words fetched for it: the
/// bytes of the words in order, cut or filled with zeros to `byte_count`.
pub fn assemble_text_bytes(words: &Vec<u64>, byte_count: u64) -> (bytes: Vec<u8>)
    ensures
        bytes@ == text_bytes(words@, byte_count as nat),
{
    let mut all: Vec<u8> = Vec::new();
    let mut i: usize = 0;
    assert(words@.take(0) =~= Seq::<u64>::empty());
    while i < words.len() && (all.len() as u64) < byte_count
        invariant
            i <= words.len(),
            all@ == words_bytes(words@.take(i as int)),
        decreases words.len() - i,
    {
        assert(words@.take(i + 1).drop_last() =~= words@.take(i as int));
        push_word_bytes(&mut all, words[i]);
        i = i + 1;
    }
    proof {
        lemma_words_bytes_prefix(words@, i as nat);
    }
    let mut bytes: Vec<u8> = Vec::new();
    while (bytes.len() as u64) < byte_count
        invariant
            bytes.len() <= byte_count,
            bytes@ == text_bytes(words@, bytes.len() as nat),
            i <= words.len(),
            all@ == words_bytes(words@.take(i as int)),
            all@ == words_bytes(words@).take(all.len() as int),
            all.len() <= words_bytes(words@).len(),
            i == words.len() || all.len() >= byte_count,
        decreases byte_count - bytes.len(),
    {
        let at: usize = bytes.len();
        let byte: u8 = if at < all.len() {
            all[at]
        } else {
            0
        };
        let ghost before = bytes@;
        proof {
            if i == words.len() {
                assert(words@.take(i as int) =~= words@);
            }
            assert(byte == text_bytes(words@, (at + 1) as nat)[at as int]);
        }
        bytes.push(byte);
        assert(bytes@ =~= text_bytes(words@, bytes.len() as nat)) by {
            assert(bytes@ == before.push(byte));
            assert(before == text_bytes(words@, at as nat));
        }
    }
    bytes
}

/// The bytes of the first words are the first bytes of all the words.
pub proof fn lemma_words_bytes_prefix(words: Seq<u64>, count: nat)
    requires
        count <= words.len(),
    ensures
        words_bytes(words.take(count as int)).len() == 8 * count,
        words_bytes(words).len() == 8 * words.len(),
        words_bytes(words.take(count as int)) == words_bytes(words).take(8 * (count as int)),
    decreases words.len(),
{
    if words.len() == 0 {
        assert(words.take(count as int) =~= words);
        assert(words_bytes(words).take(0) =~= words_bytes(words));
    } else {
        let shorter = words.drop_last();
        lemma_le_bytes_len(words.last() as nat, 8);
        if count == words.len() {
            lemma_words_bytes_prefix(shorter, (count - 1) as nat);
            assert(shorter.take(count - 1) =~= shorter);
            assert(words.take(count as int) =~= words);
            assert(words_bytes(words).take(8 * (count as int)) =~= words_bytes(words));
        } else {
            lemma_words_bytes_prefix(shorter, count);
            assert(shorter.take(count as int) =~= words.take(count as int));
            assert(words_bytes(words).take(8 * (count as int)) =~= words_bytes(shorter).take(
                8 * (count as int),
            ));
        }
    }
}

/// Renders the text that the bytes hold: decoded as UTF-8, with U+FFFD for
/// what is not, then quoted.
pub fn render_text(bytes: &Vec<u8>) -> (text: String)
    ensures
        text@ == debug_quoted(utf8_lossy(bytes@)),
        valid_utf8(bytes@) ==> text@ == debug_quoted(decode_utf8(bytes@)),
{
    let decoded: String = decode_lossy(bytes);
    quote(&decoded)
}

/// The printable form of a text of `byte_count` bytes in the tracee's memory,
/// given the words fetched from where it starts: its bytes decoded as UTF-8,
/// with U+FFFD for what is not, then quoted.
pub fn read_text(words: &Vec<u64>, byte_count: u64) -> (text: String)
    ensures
        text@ == debug_quoted(utf8_lossy(text_bytes(words@, byte_count as nat))),
        valid_utf8(text_bytes(words@, byte_count as nat)) ==> text@ == debug_quoted(
            decode_utf8(text_bytes(words@, byte_count as nat)),
        ),
{
    let bytes: Vec<u8> = assemble_text_bytes(words, byte_count);
    render_text(&bytes)
}

/// What lies in memory is what is read: where each word holds the eight
/// bytes of memory at its place, the bytes of a text are the first bytes of
/// that memory.
pub proof fn lemma_text_bytes_of_memory(memory: Seq<u8>, words: Seq<u64>, byte_count: nat)
    requires
        memory.len() == 8 * words.len(),
        forall|i: int|
            0 <= i < words.len() ==> word_bytes(#[trigger] words[i]) == memory.subrange(
                8 * i,
                8 * i + 8,
            ),
        byte_count <= memory.len(),
    ensures
        text_bytes(words, byte_count) == memory.take(byte_count as int),
{
    lemma_words_bytes_of_memory(memory, words);
    assert(text_bytes(words, byte_count) =~= memory.take(byte_count as int));
}

/// Where each word holds the eight bytes of memory at its place, the bytes of
/// the words are that memory.
pub proof fn lemma_words_bytes_of_memory(memory: Seq<u8>, words: Seq<u64>)
    requires
        memory.len() == 8 * words.len(),
        forall|i: int|
            0 <= i < words.len() ==> word_bytes(#[trigger] words[i]) == memory.subrange(
                8 * i,
                8 * i + 8,
            ),
    ensures
        words_bytes(words) == memory,
    decreases words.len(),
{
    if words.len() == 0 {
        assert(words_bytes(words) =~= memory);
    } else {
        let shorter = words.drop_last();
        let head = memory.take(8 * (shorter.len() as int));
        assert forall|i: int| 0 <= i < shorter.len() implies word_bytes(#[trigger] shorter[i])
            == head.subrange(8 * i, 8 * i + 8) by {
            assert(shorter[i] == words[i]);
            assert(head.subrange(8 * i, 8 * i + 8) =~= memory.subrange(8 * i, 8 * i + 8));
        }
        lemma_words_bytes_of_memory(head, shorter);
        let last = words.len() - 1;
        assert(word_bytes(words[last]) == memory.subrange(8 * last, 8 * last + 8));
        assert(words_bytes(words) =~= memory);
    }
}

/// The words that are fetched for a text always cover it: nothing of the text
/// is filled in.
pub proof fn lemma_words_needed_cover(words: Seq<u64>, byte_count: nat)
    requires
        words.len() == words_needed(byte_count),
    ensures
        byte_count + 8 <= 8 * words.len(),
        text_bytes(words, byte_count) == words_bytes(words).take(byte_count as int),
{
    lemma_words_bytes_prefix(words, words.len());
    assert(text_bytes(words, byte_count) =~= words_bytes(words).take(byte_count as int));
}

} // verus!
