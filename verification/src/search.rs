//! The search engine: a case-insensitive substring scan over the plain
//! text of every buffer line, producing the ordered match list that
//! navigation and highlighting use. Case folding is ASCII-only: letters
//! `A` to `Z` compare equal to their lower-case forms, every other
//! character compares exactly.

use vstd::prelude::*;

use crate::style::StyledChar;

verus! {

/// ASCII case folding: upper-case letters map to lower case, everything
/// else to itself.
pub open spec fn fold_char(c: char) -> char {
    match c {
        'A' => 'a',
        'B' => 'b',
        'C' => 'c',
        'D' => 'd',
        'E' => 'e',
        'F' => 'f',
        'G' => 'g',
        'H' => 'h',
        'I' => 'i',
        'J' => 'j',
        'K' => 'k',
        'L' => 'l',
        'M' => 'm',
        'N' => 'n',
        'O' => 'o',
        'P' => 'p',
        'Q' => 'q',
        'R' => 'r',
        'S' => 's',
        'T' => 't',
        'U' => 'u',
        'V' => 'v',
        'W' => 'w',
        'X' => 'x',
        'Y' => 'y',
        'Z' => 'z',
        _ => c,
    }
}

pub fn fold_char_exec(c: char) -> (r: char)
    ensures
        r == fold_char(c),
{
    match c {
        'A' => 'a',
        'B' => 'b',
        'C' => 'c',
        'D' => 'd',
        'E' => 'e',
        'F' => 'f',
        'G' => 'g',
        'H' => 'h',
        'I' => 'i',
        'J' => 'j',
        'K' => 'k',
        'L' => 'l',
        'M' => 'm',
        'N' => 'n',
        'O' => 'o',
        'P' => 'p',
        'Q' => 'q',
        'R' => 'r',
        'S' => 's',
        'T' => 't',
        'U' => 'u',
        'V' => 'v',
        'W' => 'w',
        'X' => 'x',
        'Y' => 'y',
        'Z' => 'z',
        _ => c,
    }
}

/// Whether the term occurs in the line's text at position `j`, comparing
/// case-insensitively.
pub open spec fn is_match_at(line: Seq<StyledChar>, term: Seq<char>, j: int) -> bool {
    &&& 0 <= j
    &&& j + term.len() <= line.len()
    &&& forall|k: int|
        0 <= k && k < term.len() ==> fold_char((#[trigger] line[j + k]).ch) == fold_char(term[k])
}

fn match_at(line: &Vec<StyledChar>, term: &Vec<char>, j: usize) -> (b: bool)
    requires
        j + term@.len() <= line@.len(),
    ensures
        b == is_match_at(line@, term@, j as int),
{
    let n = line.len();
    let mut k: usize = 0;
    while k < term.len()
        invariant
            k <= term@.len(),
            n == line@.len(),
            j + term@.len() <= n,
            forall|k2: int|
                0 <= k2 && k2 < k ==> fold_char((#[trigger] line@[j + k2]).ch) == fold_char(
                    term@[k2],
                ),
        decreases term@.len() - k,
    {
        proof {
            assert(j + k < line@.len());
        }
        let lc = line[j + k].ch;
        let tc = crate::text::char_at(term, k);
        if fold_char_exec(lc) != fold_char_exec(tc) {
            return false;
        }
        k = k + 1;
    }
    true
}

/// The match positions within one line, in ascending order, sound and
/// complete for `is_match_at`.
pub fn line_match_starts(line: &Vec<StyledChar>, term: &Vec<char>) -> (res: Vec<usize>)
    requires
        term@.len() >= 1,
    ensures
        forall|k: int|
            0 <= k && k < res@.len() ==> is_match_at(line@, term@, #[trigger] res@[k] as int),
        forall|j: int| is_match_at(line@, term@, j) ==> res@.contains(j as usize),
        forall|k1: int, k2: int|
            0 <= k1 && k1 < k2 && k2 < res@.len() ==> res@[k1] < res@[k2],
{
    let mut res: Vec<usize> = Vec::new();
    if term.len() > line.len() {
        proof {
            assert(forall|j: int| is_match_at(line@, term@, j) ==> false);
        }
        return res;
    }
    let n = line.len();
    let last = n - term.len();
    let mut j: usize = 0;
    while j <= last
        invariant
            j <= last + 1,
            n == line@.len(),
            last == line@.len() - term@.len(),
            term@.len() >= 1,
            forall|k: int|
                0 <= k && k < res@.len() ==> is_match_at(line@, term@, #[trigger] res@[k] as int),
            forall|j2: int| 0 <= j2 && j2 < j && is_match_at(line@, term@, j2) ==> res@.contains(
                j2 as usize,
            ),
            forall|k1: int, k2: int|
                0 <= k1 && k1 < k2 && k2 < res@.len() ==> res@[k1] < res@[k2],
            forall|k: int| 0 <= k && k < res@.len() ==> res@[k] < j,
            last < line@.len(),
        decreases last + 1 - j,
    {
        if match_at(line, term, j) {
            let ghost pre = res@;
            res.push(j);
            proof {
                assert(res@[res@.len() - 1] == j);
                assert(res@.contains(j));
                assert forall|j2: int|
                    0 <= j2 && j2 < j + 1 && is_match_at(line@, term@, j2) implies res@.contains(
                    j2 as usize,
                ) by {
                    if j2 < j {
                        assert(pre.contains(j2 as usize));
                        let idx = choose|idx: int|
                            0 <= idx < pre.len() && pre[idx] == j2 as usize;
                        assert(res@[idx] == j2 as usize);
                    } else {
                        assert(res@.last() == j2 as usize);
                    }
                }
            }
        }
        j = j + 1;
    }
    proof {
        assert forall|j2: int| is_match_at(line@, term@, j2) implies res@.contains(
            j2 as usize,
        ) by {
            assert(0 <= j2 && j2 <= last);
        }
    }
    res
}

} // verus!
