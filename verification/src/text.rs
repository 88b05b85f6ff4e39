//! Lists of strings as lists of texts.

use vstd::prelude::*;

verus! {

/// The text of each string of `list`, in order.
pub open spec fn texts(list: Seq<String>) -> Seq<Seq<char>> {
    Seq::new(list.len(), |i: int| list[i]@)
}

/// The texts of a list with one more string are the texts of the list with
/// one more text.
pub proof fn lemma_texts_push(list: Seq<String>, last: String)
    ensures
        texts(list.push(last)) == texts(list).push(last@),
{
    assert(texts(list.push(last)) =~= texts(list).push(last@));
}

/// Appends a copy of each string of `more` to `list`.
pub fn append_all(list: &mut Vec<String>, more: &Vec<String>)
    ensures
        texts(final(list)@) == texts(old(list)@) + texts(more@),
{
    let ghost list0 = list@;
    let mut i: usize = 0;
    while i < more.len()
        invariant
            i <= more@.len(),
            texts(list@) == texts(list0) + texts(more@.take(i as int)),
        decreases more@.len() - i,
    {
        let copy = more[i].clone();
        proof {
            lemma_texts_push(list@, copy);
            lemma_texts_push(more@.take(i as int), more@[i as int]);
            assert(more@.take(i + 1) == more@.take(i as int).push(more@[i as int]));
        }
        list.push(copy);
        assert(texts(list@) == texts(list0) + texts(more@.take(i + 1)));
        i += 1;
    }
    assert(more@.take(more@.len() as int) == more@);
}

} // verus!
