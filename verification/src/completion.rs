//! Tab-completion support for an interactive shell: a simple recursive trie
//! over whitespace-delimited tokens, built from a static declaration of what
//! each command accepts.
//!
//! A line of input is handed over as a stack of words, pushed in reverse, so
//! that popping yields the words in line order and the final, partial word is
//! popped last. Traversal descends the trie by the completed words and offers
//! the labels that extend the word being typed.

use vstd::prelude::*;
use vstd::string::StrSliceExecFns;

verus! {

/// A trie over command words: each branch pairs a word with the subtree of
/// what may follow it.
pub struct CompletionTree {
    pub branches: Vec<(String, CompletionTree)>,
}

/// The character sequences of a sequence of strings.
pub open spec fn string_views(ss: Seq<String>) -> Seq<Seq<char>> {
    ss.map_values(|s: String| s@)
}

/// The first branch of `bs` labelled `w`, if any.
pub open spec fn spec_find_branch(bs: Seq<(String, CompletionTree)>, w: Seq<char>) -> Option<
    CompletionTree,
>
    decreases bs.len(),
{
    if bs.len() == 0 {
        None
    } else if bs[0].0@ == w {
        Some(bs[0].1)
    } else {
        spec_find_branch(bs.drop_first(), w)
    }
}

/// The labels among `labels` that the partial word `w` is a prefix of, in
/// order.
pub open spec fn spec_completions(labels: Seq<Seq<char>>, w: Seq<char>) -> Seq<Seq<char>>
    decreases labels.len(),
{
    if labels.len() == 0 {
        Seq::empty()
    } else {
        spec_completions(labels.drop_last(), w) + (if w.is_prefix_of(labels.last()) {
            seq![labels.last()]
        } else {
            Seq::empty()
        })
    }
}

impl CompletionTree {
    /// The labels of this node's branches, in order.
    pub open spec fn labels(self) -> Seq<Seq<char>> {
        self.branches@.map_values(|b: (String, CompletionTree)| b.0@)
    }

    /// What traversal offers for a word stack: with no words, every label
    /// here; with one word — the word being typed — the labels it begins;
    /// otherwise descend along the first branch matching the next word, and
    /// offer nothing if none matches.
    pub open spec fn spec_traverse(self, words: Seq<Seq<char>>) -> Seq<Seq<char>>
        decreases words.len(),
    {
        if words.len() == 0 {
            self.labels()
        } else if words.len() == 1 {
            spec_completions(self.labels(), words.last())
        } else {
            match spec_find_branch(self.branches@, words.last()) {
                Some(sub) => sub.spec_traverse(words.drop_last()),
                None => Seq::empty(),
            }
        }
    }

    pub fn new(branches: Vec<(String, CompletionTree)>) -> (t: Self)
        ensures
            t.branches@ == branches@,
    {
        CompletionTree { branches }
    }

    /// The tree that offers nothing.
    pub fn empty() -> (t: Self)
        ensures
            t.branches@ == Seq::<(String, CompletionTree)>::empty(),
    {
        CompletionTree { branches: Vec::new() }
    }

    /// An empty subtree for a word that nothing may follow. Subtrees here are
    /// built eagerly, so this is the empty tree under its caller-facing name.
    pub fn lazy_empty() -> (t: Self)
        ensures
            t.branches@ == Seq::<(String, CompletionTree)>::empty(),
    {
        CompletionTree::empty()
    }

    /// Walk the trie by the words on the stack (topmost first) and offer the
    /// completions of the final, partial word.
    #[verifier::loop_isolation(false)]
    pub fn traverse(self, words: Vec<String>) -> (r: Vec<String>)
        ensures
            string_views(r@) == self.spec_traverse(string_views(words@)),
    {
        let ghost target = self.spec_traverse(string_views(words@));
        let mut cur = self;
        let mut stack = words;
        while stack.len() > 1
            invariant
                cur.spec_traverse(string_views(stack@)) == target,
            decreases stack@.len(),
        {
            let ghost pre_words = stack@;
            let w = match stack.pop() {
                Some(w) => w,
                None => {
                    return Vec::new();  // unreachable: the stack holds at least two words
                },
            };
            proof {
                assert(string_views(pre_words).drop_last() =~= string_views(stack@));
                assert(string_views(pre_words).last() == w@);
            }
            let mut idx: usize = 0;
            let mut found = false;
            while idx < cur.branches.len() && !found
                invariant
                    idx <= cur.branches@.len(),
                    !found ==> forall|j: int| 0 <= j < idx ==> cur.branches@[j].0@ != w@,
                    found ==> idx < cur.branches@.len() && cur.branches@[idx as int].0@ == w@
                        && (forall|j: int| 0 <= j < idx ==> cur.branches@[j].0@ != w@),
                decreases cur.branches@.len() - idx + (if found {
                    0int
                } else {
                    1int
                }),
            {
                if string_eq(&cur.branches[idx].0, &w) {
                    found = true;
                } else {
                    idx = idx + 1;
                }
            }
            if !found {
                proof {
                    lemma_find_branch_none(cur.branches@, w@);
                    assert(string_views(pre_words).len() > 1);
                    assert(cur.spec_traverse(string_views(pre_words)) == Seq::<Seq<char>>::empty());
                }
                let r: Vec<String> = Vec::new();
                proof {
                    assert(target == Seq::<Seq<char>>::empty());
                    assert(string_views(r@) =~= Seq::<Seq<char>>::empty());
                }
                return r;
            }
            proof {
                lemma_find_branch_index(cur.branches@, w@, idx as int);
            }
            let pair = cur.branches.remove(idx);
            cur = pair.1;
        }
        if stack.len() == 0 {
            let mut out: Vec<String> = Vec::new();
            let mut i: usize = 0;
            while i < cur.branches.len()
                invariant
                    i <= cur.branches@.len(),
                    out@.len() == i,
                    forall|j: int| 0 <= j < i ==> out@[j]@ == cur.branches@[j].0@,
                decreases cur.branches@.len() - i,
            {
                out.push(cur.branches[i].0.clone());
                i = i + 1;
            }
            proof {
                assert(string_views(stack@) =~= Seq::<Seq<char>>::empty());
                assert(string_views(out@) =~= cur.labels());
            }
            out
        } else {
            let ghost pre_words = stack@;
            let w = match stack.pop() {
                Some(w) => w,
                None => {
                    return Vec::new();  // unreachable: the stack holds exactly one word
                },
            };
            proof {
                assert(string_views(pre_words).len() == 1);
                assert(string_views(pre_words).last() == w@);
            }
            let mut out: Vec<String> = Vec::new();
            let mut i: usize = 0;
            while i < cur.branches.len()
                invariant
                    i <= cur.branches@.len(),
                    string_views(out@) == spec_completions(
                        cur.branches@.subrange(0, i as int).map_values(
                            |b: (String, CompletionTree)| b.0@,
                        ),
                        w@,
                    ),
                decreases cur.branches@.len() - i,
            {
                proof {
                    let all = cur.branches@.subrange(0, i + 1).map_values(
                        |b: (String, CompletionTree)| b.0@,
                    );
                    assert(all.drop_last() =~= cur.branches@.subrange(0, i as int).map_values(
                        |b: (String, CompletionTree)| b.0@,
                    ));
                    assert(all.last() == cur.branches@[i as int].0@);
                }
                if str_is_prefix(w.as_str(), cur.branches[i].0.as_str()) {
                    out.push(cur.branches[i].0.clone());
                }
                i = i + 1;
                proof {
                    assert(string_views(out@) =~= spec_completions(
                        cur.branches@.subrange(0, i as int).map_values(
                            |b: (String, CompletionTree)| b.0@,
                        ),
                        w@,
                    ));
                }
            }
            proof {
                assert(cur.branches@.subrange(0, cur.branches@.len() as int) =~= cur.branches@);
                assert(cur.branches@.map_values(|b: (String, CompletionTree)| b.0@)
                    =~= cur.labels());
            }
            out
        }
    }
}

/// Whether two strings hold the same characters.
pub fn string_eq(a: &String, b: &String) -> (r: bool)
    ensures
        r == (a@ == b@),
{
    *a == *b
}

/// Whether `p` is a prefix of `s`, by characters.
pub fn str_is_prefix(p: &str, s: &str) -> (r: bool)
    ensures
        r == p@.is_prefix_of(s@),
{
    let pl = p.unicode_len();
    let sl = s.unicode_len();
    if pl > sl {
        return false;
    }
    let mut i: usize = 0;
    while i < pl
        invariant
            i <= pl,
            pl == p@.len() <= s@.len(),
            forall|j: int| 0 <= j < i ==> p@[j] == s@[j],
        decreases pl - i,
    {
        if p.get_char(i) != s.get_char(i) {
            return false;
        }
        i = i + 1;
    }
    proof {
        assert(p@ =~= s@.subrange(0, p@.len() as int));
    }
    true
}

/// The first branch of `bs` labelled `w` is the one at the first matching
/// index.
proof fn lemma_find_branch_index(bs: Seq<(String, CompletionTree)>, w: Seq<char>, i: int)
    requires
        0 <= i < bs.len(),
        bs[i].0@ == w,
        forall|j: int| 0 <= j < i ==> bs[j].0@ != w,
    ensures
        spec_find_branch(bs, w) == Some(bs[i].1),
    decreases i,
{
    if i > 0 {
        lemma_find_branch_index(bs.drop_first(), w, i - 1);
    }
}

/// With no branch labelled `w`, the search finds nothing.
proof fn lemma_find_branch_none(bs: Seq<(String, CompletionTree)>, w: Seq<char>)
    requires
        forall|j: int| 0 <= j < bs.len() ==> bs[j].0@ != w,
    ensures
        spec_find_branch(bs, w) is None,
    decreases bs.len(),
{
    if bs.len() > 0 {
        lemma_find_branch_none(bs.drop_first(), w);
    }
}

/// A command vocabulary declares, per type, the completion trie of the words
/// that spell one of its values.
pub trait ReplCompletion {
    fn completion_tree() -> CompletionTree;
}

/// As [`ReplCompletion`], for vocabularies that depend on runtime state.
pub trait ReplCompletionStateful {
    fn completion_tree(&self) -> CompletionTree;
}

impl ReplCompletion for u8 {
    /// A raw byte is typed freely: nothing to offer.
    fn completion_tree() -> CompletionTree {
        CompletionTree::empty()
    }
}

} // verus!
