//! Finding the base of the PCI Express configuration space.

use vstd::prelude::*;

verus! {

/// The base of the configuration space of one PCI segment group: the physical address
/// at which the configuration of bus 0, device 0, function 0 of that segment starts.
#[derive(Clone, Copy, Debug, PartialEq, Eq, Structural)]
pub struct EcamBase {
    pub segment: u16,
    pub address: u64,
}

/// What to do after a segment was asked for.
#[derive(Clone, Copy, Debug, PartialEq, Eq, Structural)]
pub enum ScanStep {
    /// The segment has a configuration space: the search ends with it.
    Found(EcamBase),
    /// The segment has none: this one is asked for next.
    Ask(u16),
    /// The last segment has none: the search ends with nothing.
    NotFound,
}

/// Decides how the search goes on once `segment` was asked for and `answer` came back.
pub fn scan_step(segment: u16, answer: Option<u64>) -> (step: ScanStep)
    ensures
        step == match answer {
            Some(address) => ScanStep::Found(EcamBase { segment, address }),
            None => if segment < u16::MAX {
                ScanStep::Ask((segment + 1) as u16)
            } else {
                ScanStep::NotFound
            },
        },
{
    match answer {
        Some(address) => ScanStep::Found(EcamBase { segment, address }),
        None => {
            if segment < u16::MAX {
                ScanStep::Ask(segment + 1)
            } else {
                ScanStep::NotFound
            }
        },
    }
}

/// Asks for the configuration space of each segment group in turn, from 0 upwards, and
/// stops at the first that has one.
///
/// `lookup` gives, for a segment group, the physical address at which the configuration of
/// its bus 0, device 0, function 0 starts, if the platform's tables describe one. The
/// result is what `lookup` answered: an address for the segment found and nothing for
/// every segment before it, or nothing for any segment at all. That the first segment
/// with a configuration space is the one that the kernel's devices sit on is an
/// assumption of this search, not a fact about the platform.
pub fn locate_ecam<F: Fn(u16) -> Option<u64>>(lookup: F) -> (found: Option<EcamBase>)
    requires
        forall|segment: u16| call_requires(lookup, (segment,)),
    ensures
        match found {
            Some(base) => {
                &&& call_ensures(lookup, (base.segment,), Some(base.address))
                &&& forall|segment: u16|
                    segment < base.segment ==> call_ensures(lookup, (segment,), None::<u64>)
            },
            None => forall|segment: u16| call_ensures(lookup, (segment,), None::<u64>),
        },
{
    let mut segment: u16 = 0;
    loop
        invariant
            forall|s: u16| call_requires(lookup, (s,)),
            forall|s: u16| s < segment ==> call_ensures(lookup, (s,), None::<u64>),
        decreases u16::MAX - segment,
    {
        let answer = lookup(segment);
        match scan_step(segment, answer) {
            ScanStep::Found(base) => {
                return Some(base);
            },
            ScanStep::Ask(next) => {
                segment = next;
            },
            ScanStep::NotFound => {
                return None;
            },
        }
    }
}

/// What a lookup with these answers gives for a segment.
pub open spec fn answer_at(answers: spec_fn(u16) -> Option<u64>, segment: u16) -> Option<u64> {
    answers(segment)
}

/// Whether `base` is the first configuration space that a lookup with these answers finds.
pub open spec fn is_first_answer(answers: spec_fn(u16) -> Option<u64>, base: EcamBase) -> bool {
    &&& answer_at(answers, base.segment) == Some(base.address)
    &&& forall|segment: u16| segment < base.segment ==> answer_at(answers, segment) is None
}

/// The search finds what the tables hold: where the lookup answers each segment in one
/// way only, the result is the first segment with an answer and that answer, and it is
/// nothing exactly if no segment has one.
pub proof fn lemma_locate_ecam_first<F: Fn(u16) -> Option<u64>>(
    lookup: F,
    answers: spec_fn(u16) -> Option<u64>,
    found: Option<EcamBase>,
)
    requires
        forall|segment: u16, answer: Option<u64>|
            call_ensures(lookup, (segment,), answer) ==> answer == answer_at(answers, segment),
        match found {
            Some(base) => {
                &&& call_ensures(lookup, (base.segment,), Some(base.address))
                &&& forall|segment: u16|
                    segment < base.segment ==> call_ensures(lookup, (segment,), None::<u64>)
            },
            None => forall|segment: u16| call_ensures(lookup, (segment,), None::<u64>),
        },
    ensures
        match found {
            Some(base) => is_first_answer(answers, base),
            None => forall|segment: u16| answer_at(answers, segment) is None,
        },
        forall|other: EcamBase| is_first_answer(answers, other) ==> found == Some(other),
{
    match found {
        Some(base) => {
            assert forall|segment: u16| segment < base.segment implies answer_at(
                answers,
                segment,
            ) is None by {
                assert(call_ensures(lookup, (segment,), None::<u64>));
            }
            assert forall|other: EcamBase| is_first_answer(answers, other) implies found == Some(
                other,
            ) by {
                if other.segment < base.segment {
                    assert(answer_at(answers, other.segment) is None);
                } else if base.segment < other.segment {
                    assert(answer_at(answers, base.segment) is None);
                }
            }
        },
        None => {
            assert forall|segment: u16| answer_at(answers, segment) is None by {
                assert(call_ensures(lookup, (segment,), None::<u64>));
            }
        },
    }
}

} // verus!
