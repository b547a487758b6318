use vstd::prelude::*;
use crate::text::{chars_of, is_whitespace, push_char, unicode_white_space};
use crate::trade::joined_words;

verus! {

/// Splitting a text at white space, read from the left: the words completed so far and the
/// word still being read.
pub open spec fn split_state(s: Seq<char>) -> (Seq<Seq<char>>, Seq<char>)
    decreases s.len(),
{
    if s.len() == 0 {
        (Seq::empty(), Seq::empty())
    } else {
        let (done, cur) = split_state(s.drop_last());
        if unicode_white_space(s.last()) {
            if cur.len() > 0 { (done.push(cur), Seq::empty()) } else { (done, cur) }
        } else {
            (done, cur.push(s.last()))
        }
    }
}

/// The words of a text, as `str::split_whitespace` gives them: the maximal runs of
/// characters that are not white space, in order.
pub open spec fn words_of(s: Seq<char>) -> Seq<Seq<char>> {
    let (done, cur) = split_state(s);
    if cur.len() > 0 { done.push(cur) } else { done }
}

/// The words of a text, split at white space.
pub fn split_words(s: &str) -> (r: Vec<String>)
    ensures
        r.deep_view() == words_of(s@),
{
    let cs = chars_of(s);
    let mut done: Vec<String> = Vec::new();
    let mut cur = String::new();
    let mut i: usize = 0;
    while i < cs.len()
        invariant
            cs@ == s@,
            0 <= i <= cs@.len(),
            (done.deep_view(), cur@) == split_state(s@.subrange(0, i as int)),
        decreases cs@.len() - i,
    {
        proof {
            assert(s@.subrange(0, i + 1).drop_last() =~= s@.subrange(0, i as int));
            assert(s@.subrange(0, i + 1).last() == cs@[i as int]);
        }
        let c = cs[i];
        if is_whitespace(c) {
            if cur.unicode_len() > 0 {
                let ghost before = done.deep_view();
                let word = cur;
                cur = String::new();
                let ghost w = word@;
                done.push(word);
                assert(done.deep_view() =~= before.push(w));
            }
        } else {
            push_char(&mut cur, c);
        }
        i = i + 1;
    }
    assert(s@.subrange(0, cs@.len() as int) =~= s@);
    if cur.unicode_len() > 0 {
        let ghost before = done.deep_view();
        let ghost w = cur@;
        done.push(cur);
        assert(done.deep_view() =~= before.push(w));
    }
    done
}

/// The words of the recovery phrase shown for writing down; none without a phrase.
pub fn recovery_words(seed: &Option<String>) -> (r: Vec<String>)
    ensures
        r.deep_view() == match seed {
            Some(p) => words_of(p@),
            None => Seq::<Seq<char>>::empty(),
        },
{
    match seed {
        Some(p) => split_words(p.as_str()),
        None => {
            let r: Vec<String> = Vec::new();
            assert(r.deep_view() =~= Seq::<Seq<char>>::empty());
            r
        },
    }
}

/// A word: not empty, and without white space.
pub open spec fn is_word(w: Seq<char>) -> bool {
    w.len() > 0 && forall|j: int| 0 <= j < w.len() ==> !unicode_white_space(#[trigger] w[j])
}

proof fn lemma_split_state_clean(s: Seq<char>)
    ensures
        forall|i: int| 0 <= i < split_state(s).0.len() ==> is_word(#[trigger] split_state(s).0[i]),
        forall|j: int| 0 <= j < split_state(s).1.len() ==> !unicode_white_space(#[trigger] split_state(s).1[j]),
    decreases s.len(),
{
    if s.len() > 0 {
        lemma_split_state_clean(s.drop_last());
        let (done, cur) = split_state(s.drop_last());
        if !unicode_white_space(s.last()) {
            let c2 = cur.push(s.last());
            assert forall|j: int| 0 <= j < c2.len() implies !unicode_white_space(#[trigger] c2[j]) by {
                if j < cur.len() {
                    assert(c2[j] == cur[j]);
                }
            }
        } else if cur.len() > 0 {
            let d2 = done.push(cur);
            assert forall|i: int| 0 <= i < d2.len() implies is_word(#[trigger] d2[i]) by {
                if i < done.len() {
                    assert(d2[i] == done[i]);
                } else {
                    assert(d2[i] == cur);
                }
            }
        }
    }
}

/// Every word a text splits into is non-empty and holds no white space.
pub proof fn law_words_are_words(s: Seq<char>)
    ensures
        forall|i: int| 0 <= i < words_of(s).len() ==> is_word(#[trigger] words_of(s)[i]),
{
    lemma_split_state_clean(s);
    let (done, cur) = split_state(s);
    if cur.len() > 0 {
        let d2 = done.push(cur);
        assert forall|i: int| 0 <= i < d2.len() implies is_word(#[trigger] d2[i]) by {
            if i < done.len() {
                assert(d2[i] == done[i]);
            }
        }
    }
}

proof fn lemma_split_append_word(x: Seq<char>, y: Seq<char>)
    requires
        forall|j: int| 0 <= j < y.len() ==> !unicode_white_space(#[trigger] y[j]),
    ensures
        split_state(x + y) == (split_state(x).0, split_state(x).1 + y),
    decreases y.len(),
{
    if y.len() == 0 {
        assert(x + y =~= x);
        assert(split_state(x).1 + y =~= split_state(x).1);
    } else {
        let y0 = y.drop_last();
        assert forall|j: int| 0 <= j < y0.len() implies !unicode_white_space(#[trigger] y0[j]) by {
            assert(y0[j] == y[j]);
        }
        lemma_split_append_word(x, y0);
        assert((x + y).drop_last() =~= x + y0);
        assert((x + y).last() == y[y.len() - 1]);
        assert(!unicode_white_space(y[y.len() - 1]));
        assert((split_state(x).1 + y0).push(y.last()) =~= split_state(x).1 + y);
    }
}

proof fn lemma_split_after_space(x: Seq<char>)
    ensures
        split_state(x + seq![' ']) == (words_of(x), Seq::<char>::empty()),
{
    assert((x + seq![' ']).drop_last() =~= x);
    assert((x + seq![' ']).last() == ' ');
}

/// Writing words out joined by single spaces and splitting the text again gives the same
/// words back, for words that are non-empty and free of white space.
pub proof fn law_split_joined_words(ws: Seq<Seq<char>>)
    requires
        forall|i: int| 0 <= i < ws.len() ==> is_word(#[trigger] ws[i]),
    ensures
        words_of(joined_words(ws)) == ws,
    decreases ws.len(),
{
    if ws.len() == 0 {
        assert(words_of(Seq::<char>::empty()) =~= ws);
    } else {
        let init = ws.drop_last();
        let w = ws.last();
        assert forall|i: int| 0 <= i < init.len() implies is_word(#[trigger] init[i]) by {
            assert(init[i] == ws[i]);
        }
        assert(is_word(ws[ws.len() - 1]));
        law_split_joined_words(init);
        let head = joined_words(init);
        if head.len() == 0 {
            assert(words_of(head) == Seq::<Seq<char>>::empty());
            assert(init.len() == 0);
            lemma_split_append_word(Seq::<char>::empty(), w);
            assert(Seq::<char>::empty() + w =~= w);
            assert(ws =~= seq![w]);
            assert(words_of(w) =~= seq![w]);
        } else {
            let spaced = head + " "@;
            assert(" "@ =~= seq![' ']) by {
                reveal_strlit(" ");
            }
            lemma_split_after_space(head);
            lemma_split_append_word(spaced, w);
            assert(Seq::<char>::empty() + w =~= w);
            assert(words_of(spaced + w) =~= init.push(w));
            assert(init.push(w) =~= ws);
        }
    }
}

} // verus!
