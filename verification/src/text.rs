use vstd::prelude::*;

verus! {

/// The characters of `s`, in order.
pub fn chars_of(s: &str) -> (out: Vec<char>)
    ensures
        out@ == s@,
{
    let mut out: Vec<char> = Vec::new();
    for c in it: s.chars()
        invariant
            out@ == it.seq().take(it.index() as int),
    {
        out.push(c);
    }
    out
}

/// Whether the characters `text` spell out exactly `word`.
pub fn spells(text: &[char], word: &str) -> (same: bool)
    ensures
        same == (text@ == word@),
{
    let w = chars_of(word);
    if text.len() != w.len() {
        return false;
    }
    let mut i: usize = 0;
    while i < text.len()
        invariant
            text@.len() == w@.len(),
            w@ == word@,
            i <= text@.len(),
            forall|j: int| 0 <= j < i ==> text@[j] == w@[j],
        decreases text@.len() - i,
    {
        if text[i] != w[i] {
            return false;
        }
        i = i + 1;
    }
    assert(text@ =~= w@);
    true
}

} // verus!
