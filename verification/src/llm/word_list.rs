//! Lists of token words flattened the way the executor's C ABI takes them:
//! all tokens in order, and the offset where each word starts.

use vstd::prelude::*;

verus! {

/// The tokens of every word, in order.
pub open spec fn flatten(words: Seq<Seq<i32>>) -> Seq<i32>
    decreases words.len(),
{
    if words.len() == 0 {
        Seq::empty()
    } else {
        flatten(words.drop_last()) + words.last()
    }
}

/// The offsets of a non-empty word list: zero, then the token count after
/// each word. An empty list has no offsets at all.
pub open spec fn word_offsets(words: Seq<Seq<i32>>) -> Seq<usize> {
    if words.len() == 0 {
        Seq::empty()
    } else {
        Seq::new(words.len() + 1, |k: int| flatten(words.take(k)).len() as usize)
    }
}

/// `tokens` and `offsets` encode `words`.
pub open spec fn word_list_encodes(words: Seq<Seq<i32>>, tokens: Seq<i32>, offsets: Seq<usize>) -> bool {
    tokens == flatten(words) && offsets == word_offsets(words)
}

/// The words of owned token vectors.
pub open spec fn owned_words(words: Seq<Vec<i32>>) -> Seq<Seq<i32>> {
    words.map_values(|w: Vec<i32>| w@)
}

/// The words of borrowed token slices.
pub open spec fn borrowed_words(words: Seq<&[i32]>) -> Seq<Seq<i32>> {
    words.map_values(|w: &[i32]| w@)
}

/// A flattened word list.
#[derive(Clone, Debug)]
pub struct WordListBuffer {
    pub tokens: Vec<i32>,
    pub offsets: Vec<usize>,
}

/// Flattening a list extended by one word appends the word's tokens.
proof fn lemma_flatten_take(words: Seq<Seq<i32>>, k: int)
    requires
        0 <= k < words.len(),
    ensures
        flatten(words.take(k + 1)) == flatten(words.take(k)) + words[k],
{
    assert(words.take(k + 1).drop_last() =~= words.take(k));
}

impl WordListBuffer {
    /// Flattens borrowed token slices: their tokens in order and, for a
    /// non-empty list, the offset of each word followed by the total token
    /// count.
    pub fn from_slices(pieces: &[&[i32]]) -> (r: Self)
        requires
            flatten(borrowed_words(pieces@)).len() <= usize::MAX,
        ensures
            word_list_encodes(borrowed_words(pieces@), r.tokens@, r.offsets@),
    {
        let ghost words = borrowed_words(pieces@);
        if pieces.len() == 0 {
            return WordListBuffer { tokens: Vec::new(), offsets: Vec::new() };
        }
        let mut tokens: Vec<i32> = Vec::new();
        let mut offsets: Vec<usize> = Vec::new();
        offsets.push(0);
        assert(words.take(0) =~= Seq::<Seq<i32>>::empty());
        let mut k: usize = 0;
        while k < pieces.len()
            invariant
                words == borrowed_words(pieces@),
                flatten(words).len() <= usize::MAX,
                k <= pieces@.len(),
                tokens@ == flatten(words.take(k as int)),
                offsets@.len() == k + 1,
                forall|j: int| 0 <= j <= k ==> #[trigger] offsets@[j] == flatten(words.take(j)).len() as usize,
            decreases pieces@.len() - k,
        {
            let word = pieces[k];
            assert(word@ == words[k as int]);
            let mut i: usize = 0;
            let ghost start = tokens@;
            while i < word.len()
                invariant
                    tokens@ == start + word@.subrange(0, i as int),
                    i <= word@.len(),
                decreases word@.len() - i,
            {
                tokens.push(word[i]);
                assert(word@.subrange(0, i + 1) =~= word@.subrange(0, i as int).push(word@[i as int]));
                i = i + 1;
            }
            proof {
                assert(word@.subrange(0, word@.len() as int) =~= word@);
                lemma_flatten_take(words, k as int);
                lemma_flatten_prefix_len(words, k + 1);
            }
            offsets.push(tokens.len());
            k = k + 1;
        }
        proof {
            assert(words.take(words.len() as int) =~= words);
            assert(offsets@ =~= word_offsets(words));
        }
        WordListBuffer { tokens, offsets }
    }

    /// Flattens owned token vectors.
    pub fn from_owned(words: &[Vec<i32>]) -> (r: Self)
        requires
            flatten(owned_words(words@)).len() <= usize::MAX,
        ensures
            word_list_encodes(owned_words(words@), r.tokens@, r.offsets@),
    {
        let mut pieces: Vec<&[i32]> = Vec::new();
        let mut k: usize = 0;
        while k < words.len()
            invariant
                k <= words@.len(),
                pieces@.len() == k,
                forall|j: int| 0 <= j < k ==> (#[trigger] pieces@[j])@ == words@[j]@,
            decreases words@.len() - k,
        {
            pieces.push(words[k].as_slice());
            k = k + 1;
        }
        assert(borrowed_words(pieces@) =~= owned_words(words@));
        Self::from_slices(pieces.as_slice())
    }

    /// The number of tokens.
    pub fn token_count(&self) -> (r: usize)
        ensures
            r == self.tokens@.len(),
    {
        self.tokens.len()
    }

    /// The number of offsets.
    pub fn offset_count(&self) -> (r: usize)
        ensures
            r == self.offsets@.len(),
    {
        self.offsets.len()
    }
}

/// The token count of a prefix of the words never shrinks as the prefix
/// grows, and is bounded by the total.
proof fn lemma_flatten_prefix_len(words: Seq<Seq<i32>>, k: int)
    requires
        0 <= k <= words.len(),
    ensures
        flatten(words.take(k)).len() <= flatten(words).len(),
    decreases words.len() - k,
{
    if k < words.len() {
        lemma_flatten_take(words, k);
        lemma_flatten_prefix_len(words, k + 1);
    } else {
        assert(words.take(k) =~= words);
    }
}

/// Every word can be read back from the flattened list: word `k` is the
/// tokens between offsets `k` and `k + 1`.
pub proof fn lemma_word_list_recovers_words(words: Seq<Seq<i32>>, k: int)
    requires
        0 <= k < words.len(),
        flatten(words).len() <= usize::MAX,
    ensures
        flatten(words).subrange(word_offsets(words)[k] as int, word_offsets(words)[k + 1] as int) == words[k],
{
    lemma_flatten_take(words, k);
    lemma_flatten_prefix_len(words, k + 1);
    lemma_flatten_is_prefix(words, k + 1);
    let before = flatten(words.take(k));
    let through = flatten(words.take(k + 1));
    assert(through.subrange(before.len() as int, through.len() as int) =~= words[k]);
    assert(flatten(words).subrange(before.len() as int, through.len() as int) =~= through.subrange(
        before.len() as int,
        through.len() as int,
    ));
}

/// Flattening a prefix of the words gives a prefix of the flattened list.
proof fn lemma_flatten_is_prefix(words: Seq<Seq<i32>>, k: int)
    requires
        0 <= k <= words.len(),
    ensures
        flatten(words.take(k)).len() <= flatten(words).len(),
        flatten(words).subrange(0, flatten(words.take(k)).len() as int) == flatten(words.take(k)),
    decreases words.len() - k,
{
    if k < words.len() {
        lemma_flatten_take(words, k);
        lemma_flatten_is_prefix(words, k + 1);
        let a = flatten(words.take(k));
        let b = flatten(words.take(k + 1));
        assert(b.subrange(0, a.len() as int) =~= a);
        assert(flatten(words).subrange(0, a.len() as int) =~= b.subrange(0, a.len() as int));
    } else {
        assert(words.take(k) =~= words);
        assert(flatten(words).subrange(0, flatten(words).len() as int) =~= flatten(words));
    }
}

} // verus!
