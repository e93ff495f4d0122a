//! Splitting source text into prompts.
//!
//! A prompt list is built from raw text by cutting it at separator
//! characters and dropping the empty pieces, so every prompt is a
//! non-empty run of non-separator characters.  Word splitting cuts at
//! blanks and line breaks; line splitting cuts at line breaks only; text
//! mode keeps the whole text as a single prompt.

use vstd::prelude::*;

verus! {

/// The separators for word splitting: blank, tab and line-break
/// characters.
pub open spec fn is_word_sep(c: char) -> bool {
    c == ' ' || c == '\n' || c == '\t' || c == '\r'
}

/// The separators for line splitting: line-break characters.
pub open spec fn is_line_sep(c: char) -> bool {
    c == '\n' || c == '\r'
}

/// The separator set in use: word separators when `words` is set, line
/// separators otherwise.
pub open spec fn is_sep(words: bool, c: char) -> bool {
    if words {
        is_word_sep(c)
    } else {
        is_line_sep(c)
    }
}

/// The tokens of `s` under the chosen separators, carrying the token
/// built so far (`cur`) and the tokens already complete (`acc`).  A
/// separator closes the current token if it is non-empty; the final
/// partial token is kept the same way.  Empty tokens never appear.
pub open spec fn split_acc(
    s: Seq<char>,
    words: bool,
    cur: Seq<char>,
    acc: Seq<Seq<char>>,
) -> Seq<Seq<char>>
    decreases s.len(),
{
    if s.len() == 0 {
        if cur.len() > 0 {
            acc.push(cur)
        } else {
            acc
        }
    } else if is_sep(words, s[0]) {
        if cur.len() > 0 {
            split_acc(s.drop_first(), words, Seq::empty(), acc.push(cur))
        } else {
            split_acc(s.drop_first(), words, cur, acc)
        }
    } else {
        split_acc(s.drop_first(), words, cur.push(s[0]), acc)
    }
}

/// The maximal non-empty runs of non-separator characters of `s`, in
/// order.
pub open spec fn split_spec(s: Seq<char>, words: bool) -> Seq<Seq<char>> {
    split_acc(s, words, Seq::empty(), Seq::empty())
}

/// Whether every token in the list is non-empty.
pub open spec fn all_nonempty(ts: Seq<Seq<char>>) -> bool {
    forall|k: int| 0 <= k < ts.len() ==> ts[k].len() > 0
}

/// Pushing a non-empty token onto a list of non-empty tokens keeps them
/// all non-empty.
proof fn lemma_all_nonempty_push(acc: Seq<Seq<char>>, cur: Seq<char>)
    requires
        all_nonempty(acc),
        cur.len() > 0,
    ensures
        all_nonempty(acc.push(cur)),
{
    let r = acc.push(cur);
    assert forall|k: int| 0 <= k < r.len() implies r[k].len() > 0 by {
        if k < acc.len() {
            assert(r[k] == acc[k]);
        } else {
            assert(r[k] == cur);
        }
    }
}

/// Every token that splitting yields is non-empty, provided the tokens
/// already accumulated are.
proof fn lemma_split_acc_tokens_nonempty(
    s: Seq<char>,
    words: bool,
    cur: Seq<char>,
    acc: Seq<Seq<char>>,
)
    requires
        all_nonempty(acc),
    ensures
        all_nonempty(split_acc(s, words, cur, acc)),
    decreases s.len(),
{
    if s.len() == 0 {
        if cur.len() > 0 {
            lemma_all_nonempty_push(acc, cur);
        }
    } else if is_sep(words, s[0]) {
        if cur.len() > 0 {
            lemma_all_nonempty_push(acc, cur);
            lemma_split_acc_tokens_nonempty(s.drop_first(), words, Seq::empty(), acc.push(cur));
        } else {
            lemma_split_acc_tokens_nonempty(s.drop_first(), words, cur, acc);
        }
    } else {
        lemma_split_acc_tokens_nonempty(s.drop_first(), words, cur.push(s[0]), acc);
    }
}

/// Law: every prompt that splitting yields is a non-empty character
/// sequence, for every input text and either separator set.
pub proof fn lemma_split_tokens_nonempty(s: Seq<char>, words: bool)
    ensures
        all_nonempty(split_spec(s, words)),
{
    lemma_split_acc_tokens_nonempty(s, words, Seq::empty(), Seq::empty());
}

/// Whether `c` is a separator under the chosen set.
fn is_sep_char(words: bool, c: char) -> (r: bool)
    ensures
        r == is_sep(words, c),
{
    if words {
        c == ' ' || c == '\n' || c == '\t' || c == '\r'
    } else {
        c == '\n' || c == '\r'
    }
}

/// Split `s` at the chosen separators into its non-empty tokens.
pub fn split_str(s: &str, words: bool) -> (r: Vec<String>)
    ensures
        r.deep_view() == split_spec(s@, words),
        all_nonempty(r.deep_view()),
{
    let n = s.unicode_len();
    let mut acc: Vec<String> = Vec::new();
    let mut cur: String = String::new();
    let mut i: usize = 0;
    proof {
        assert(s@.skip(0) =~= s@);
        assert(acc.deep_view() =~= Seq::<Seq<char>>::empty());
    }
    while i < n
        invariant
            i <= n,
            n == s@.len(),
            split_acc(s@.skip(i as int), words, cur@, acc.deep_view()) == split_spec(s@, words),
        decreases n - i,
    {
        let ghost prev_acc = acc.deep_view();
        let ghost rest = s@.skip(i as int);
        let c = s.get_char(i);
        proof {
            assert(rest[0] == s@[i as int]);
            assert(rest.drop_first() =~= s@.skip(i as int + 1));
        }
        if is_sep_char(words, c) {
            if !cur.as_str().is_empty() {
                acc.push(cur);
                cur = String::new();
                proof {
                    assert(acc.deep_view() =~= prev_acc.push(acc[acc.len() - 1]@));
                }
            }
        } else {
            cur.push(c);
        }
        i = i + 1;
    }
    proof {
        assert(s@.skip(n as int) =~= Seq::<char>::empty());
    }
    let ghost prev_acc = acc.deep_view();
    if !cur.as_str().is_empty() {
        acc.push(cur);
        proof {
            assert(acc.deep_view() =~= prev_acc.push(acc[acc.len() - 1]@));
        }
    }
    proof {
        lemma_split_tokens_nonempty(s@, words);
    }
    acc
}

/// The manner in which source text is cut into prompts.
#[derive(Clone, Copy, PartialEq, Eq, Structural, Debug)]
pub enum Split {
    Words,
    Lines,
    Text,
}

impl Split {
    /// Cut the given text into prompts under this splitting mode.  Word
    /// and line splitting keep only the non-empty pieces; text mode
    /// keeps the whole text as one prompt.
    pub fn into_prompts(&self, content: String) -> (r: Vec<String>)
        ensures
            *self == Split::Words ==> r.deep_view() == split_spec(content@, true),
            *self == Split::Lines ==> r.deep_view() == split_spec(content@, false),
            *self == Split::Text ==> r.deep_view() == seq![content@],
            *self != Split::Text ==> all_nonempty(r.deep_view()),
    {
        match self {
            Split::Words => split_str(content.as_str(), true),
            Split::Lines => split_str(content.as_str(), false),
            Split::Text => {
                let ghost cv = content@;
                let mut v: Vec<String> = Vec::new();
                v.push(content);
                proof {
                    assert(v.deep_view() =~= seq![cv]);
                }
                v
            },
        }
    }
}

} // verus!
