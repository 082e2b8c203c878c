//! Picking the process that uses the most CPU.
use vstd::prelude::*;

verus! {

/// One entry of a process snapshot: its name, and its CPU usage in
/// hundredths of a percent.
#[derive(Debug, Clone)]
pub struct ProcessLoad {
    pub name: String,
    pub usage: u64,
}

/// Entry `i` of `s` has the strictly highest CPU usage seen up to it and no
/// entry uses more: the first of the heaviest entries.
pub open spec fn is_first_heaviest(s: Seq<ProcessLoad>, i: int) -> bool {
    &&& 0 <= i < s.len()
    &&& s[i].usage > 0
    &&& forall|j: int| 0 <= j < s.len() ==> #[trigger] s[j].usage <= s[i].usage
    &&& forall|j: int| 0 <= j < i ==> #[trigger] s[j].usage < s[i].usage
}

/// The name of the first process whose CPU usage is the highest of the
/// snapshot and above zero; empty where no process uses any CPU.
pub fn get_heaviest_process(processes: &Vec<ProcessLoad>) -> (r: String)
    ensures
        (forall|j: int| 0 <= j < processes@.len() ==> #[trigger] processes@[j].usage == 0)
            ==> r@ == Seq::<char>::empty(),
        (exists|j: int| 0 <= j < processes@.len() && #[trigger] processes@[j].usage > 0) ==> exists|
            i: int,
        | is_first_heaviest(processes@, i) && r@ == processes@[i].name@,
{
    let mut best: Option<usize> = None;
    let mut max_usage: u64 = 0;
    let mut k: usize = 0;
    while k < processes.len()
        invariant
            k <= processes@.len(),
            forall|j: int| 0 <= j < k ==> #[trigger] processes@[j].usage <= max_usage,
            match best {
                None => max_usage == 0,
                Some(b) => {
                    &&& b < k
                    &&& max_usage == processes@[b as int].usage
                    &&& max_usage > 0
                    &&& forall|j: int| 0 <= j < b ==> #[trigger] processes@[j].usage < max_usage
                },
            },
        decreases processes.len() - k,
    {
        let usage = processes[k].usage;
        if usage > max_usage {
            max_usage = usage;
            best = Some(k);
        }
        k = k + 1;
    }
    match best {
        None => String::new(),
        Some(b) => {
            assert(is_first_heaviest(processes@, b as int));
            processes[b].name.clone()
        },
    }
}

} // verus!
