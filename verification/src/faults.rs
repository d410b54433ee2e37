//! Findings of checks that are made one after another.

use vstd::prelude::*;

verus! {

/// The first fault of a sequence of findings.
pub open spec fn first_fault(findings: Seq<Option<Seq<char>>>) -> Option<Seq<char>>
    decreases findings.len(),
{
    if findings.len() == 0 {
        None
    } else if findings[0] is Some {
        findings[0]
    } else {
        first_fault(findings.drop_first())
    }
}

pub proof fn lemma_first_fault_at(findings: Seq<Option<Seq<char>>>, i: int)
    requires
        0 <= i <= findings.len(),
        forall|k: int| 0 <= k < i ==> (#[trigger] findings[k]) is None,
    ensures
        i < findings.len() && findings[i] is Some ==> first_fault(findings) == findings[i],
        i == findings.len() ==> first_fault(findings) is None,
    decreases findings.len(),
{
    if i > 0 {
        assert(findings[0] is None);
        lemma_first_fault_at(findings.drop_first(), i - 1);
    }
}

/// Where there is no fault, no finding is one.
pub proof fn lemma_no_fault(findings: Seq<Option<Seq<char>>>)
    requires
        first_fault(findings) is None,
    ensures
        forall|i: int| 0 <= i < findings.len() ==> (#[trigger] findings[i]) is None,
    decreases findings.len(),
{
    if findings.len() > 0 {
        lemma_no_fault(findings.drop_first());
        assert forall|i: int| 0 <= i < findings.len() implies (#[trigger] findings[i]) is None by {
            if i > 0 {
                assert(findings.drop_first()[i - 1] == findings[i]);
            }
        }
    }
}

/// Nothing is at fault exactly if no finding is a fault.
pub proof fn lemma_no_fault_of_all(findings: Seq<Option<Seq<char>>>)
    ensures
        first_fault(findings) is None <==> forall|i: int|
            0 <= i < findings.len() ==> #[trigger] findings[i] is None,
    decreases findings.len(),
{
    if findings.len() > 0 {
        let rest = findings.drop_first();
        lemma_no_fault_of_all(rest);
        if findings[0] is None {
            if first_fault(rest) is None {
                assert forall|i: int| 0 <= i < findings.len() implies #[trigger] findings[i]
                    is None by {
                    if i > 0 {
                        assert(rest[i - 1] == findings[i]);
                    }
                }
            } else {
                let i = choose|i: int| 0 <= i < rest.len() && !(#[trigger] rest[i] is None);
                assert(findings[i + 1] == rest[i]);
            }
        }
    }
}

/// The text of a finding, where there is one.
pub open spec fn fault_text(r: Result<(), String>) -> Option<Seq<char>> {
    match r {
        Ok(_) => None,
        Err(e) => Some(e@),
    }
}

/// A finding for one condition.
pub fn check(ok: bool, fault: &str) -> (r: Result<(), String>)
    ensures
        fault_text(r) == if ok {
            None
        } else {
            Some(fault@)
        },
{
    if ok {
        Ok(())
    } else {
        Err(fault.to_owned())
    }
}

/// The first fault that the findings hold.
pub fn first_of(findings: Vec<Result<(), String>>) -> (r: Result<(), String>)
    ensures
        fault_text(r) == first_fault(
            findings@.map_values(|f: Result<(), String>| fault_text(f)),
        ),
{
    let ghost all = findings@.map_values(|f: Result<(), String>| fault_text(f));
    let mut i: usize = 0;
    while i < findings.len()
        invariant
            i <= findings@.len(),
            all == findings@.map_values(|f: Result<(), String>| fault_text(f)),
            forall|k: int| 0 <= k < i ==> (#[trigger] all[k]) is None,
        decreases findings.len() - i,
    {
        match &findings[i] {
            Err(e) => {
                proof {
                    lemma_first_fault_at(all, i as int);
                }
                return Err(e.clone());
            },
            Ok(_) => {
                assert(all[i as int] is None);
            },
        }
        i += 1;
    }
    proof {
        lemma_first_fault_at(all, i as int);
    }
    Ok(())
}

} // verus!
