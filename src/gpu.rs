//! Reading the one-line GPU query report: `usage, temperature, power`.
use vstd::prelude::*;
use crate::text::{chars_of, trim_chars, trimmed};

verus! {

/// Splitting on the two-character separator `", "`, read left to right: the
/// pieces that are complete, and the piece still being read.
pub open spec fn list_state(s: Seq<char>) -> (Seq<Seq<char>>, Seq<char>)
    decreases s.len(),
{
    if s.len() == 0 {
        (Seq::empty(), Seq::empty())
    } else {
        let (done, cur) = list_state(s.drop_last());
        if s.last() == ' ' && cur.len() > 0 && cur.last() == ',' {
            (done.push(cur.drop_last()), Seq::empty())
        } else {
            (done, cur.push(s.last()))
        }
    }
}

/// The pieces of `s` between occurrences of `", "`.
pub open spec fn list_items(s: Seq<char>) -> Seq<Seq<char>> {
    list_state(s).0.push(list_state(s).1)
}

/// The text of field `i` of a GPU report, without surrounding whitespace;
/// empty where the report has fewer fields.
pub open spec fn gpu_field(report: Seq<char>, i: int) -> Seq<char> {
    let items = list_items(report);
    if i < items.len() {
        trimmed(items[i])
    } else {
        Seq::empty()
    }
}

/// Splits `s` at each `", "`.
pub fn split_list(s: &Vec<char>) -> (r: Vec<Vec<char>>)
    ensures
        r.deep_view() == list_items(s@),
{
    let mut done: Vec<Vec<char>> = Vec::new();
    let mut cur: Vec<char> = Vec::new();
    let mut i: usize = 0;
    while i < s.len()
        invariant
            i <= s@.len(),
            list_state(s@.take(i as int)) == (done.deep_view(), cur@),
        decreases s.len() - i,
    {
        let c = s[i];
        let ghost prev = s@.take(i as int);
        assert(s@.take(i + 1).drop_last() =~= prev);
        let n = cur.len();
        if c == ' ' && n > 0 && cur[n - 1] == ',' {
            let mut piece = cur;
            piece.pop();
            assert(piece.deep_view() =~= piece@);
            done.push(piece);
            cur = Vec::new();
            assert(done.deep_view() =~= list_state(prev).0.push(piece@));
        } else {
            cur.push(c);
        }
        i = i + 1;
    }
    assert(s@.take(i as int) =~= s@);
    let ghost before = done.deep_view();
    assert(cur.deep_view() =~= cur@);
    done.push(cur);
    assert(done.deep_view() =~= before.push(list_state(s@).1));
    done
}

/// The texts of a GPU report's usage, temperature and power fields, in that
/// order, each without surrounding whitespace; a field the report lacks is empty.
pub fn gpu_fields(report: &str) -> (r: Vec<Vec<char>>)
    ensures
        r.len() == 3,
        forall|i: int| 0 <= i < 3 ==> (#[trigger] r@[i])@ == gpu_field(report@, i),
{
    let chars = chars_of(report);
    let items = split_list(&chars);
    let mut r: Vec<Vec<char>> = Vec::new();
    let mut i: usize = 0;
    while i < 3
        invariant
            i <= 3,
            r.len() == i,
            items.deep_view() == list_items(report@),
            forall|k: int| 0 <= k < i ==> (#[trigger] r@[k])@ == gpu_field(report@, k),
        decreases 3 - i,
    {
        if i < items.len() {
            assert(items.deep_view()[i as int] == items@[i as int]@);
            r.push(trim_chars(&items[i]));
        } else {
            r.push(Vec::new());
        }
        i = i + 1;
    }
    r
}

} // verus!
