use vstd::prelude::*;

verus! {

/// The executable base name of the target process.
pub const TARGET_PROCESS: &'static str = "StarCraft";

/// One row of the process table: an identifier and the base name of its executable,
/// where it has one.
#[derive(Clone, Debug)]
pub struct ProcessEntry {
    pub pid: u32,
    pub exe_name: Option<String>,
}

pub open spec fn is_named(e: ProcessEntry, target: Seq<char>) -> bool {
    match e.exe_name {
        Some(n) => n@ == target,
        None => false,
    }
}

/// The identifier of the first entry whose executable base name is exactly `target`.
pub fn find_target_pid(entries: &Vec<ProcessEntry>, target: &String) -> (r: Option<u32>)
    ensures
        r is None <==> forall|i: int| 0 <= i < entries@.len() ==> !is_named(
            #[trigger] entries@[i],
            target@,
        ),
        r is Some ==> exists|i: int|
            0 <= i < entries@.len() && is_named(#[trigger] entries@[i], target@) && entries@[i].pid
                == r->Some_0 && forall|j: int| 0 <= j < i ==> !is_named(#[trigger] entries@[j], target@),
{
    let mut i: usize = 0;
    while i < entries.len()
        invariant
            i <= entries@.len(),
            forall|j: int| 0 <= j < i ==> !is_named(#[trigger] entries@[j], target@),
        decreases entries.len() - i,
    {
        let e = &entries[i];
        match &e.exe_name {
            Some(n) => {
                if n.eq(target) {
                    return Some(e.pid);
                }
            },
            None => {},
        }
        i = i + 1;
    }
    None
}

} // verus!
