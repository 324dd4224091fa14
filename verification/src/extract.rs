//! The annotation extractor: finds, for a member, the first annotation
//! carrying a requested marker, and decodes its payload to the expected
//! literal type. Extra or unrecognized markers are ignored, never rejected.

use vstd::prelude::*;

use crate::model::{Annotation, Literal, Member};

verus! {

/// The first annotation in `anns` whose marker is `marker`, if any.
pub open spec fn spec_find_annotation(anns: Seq<Annotation>, marker: Seq<char>) -> Option<
    Annotation,
>
    decreases anns.len(),
{
    if anns.len() == 0 {
        None
    } else if anns[0].marker@ == marker {
        Some(anns[0])
    } else {
        spec_find_annotation(anns.drop_first(), marker)
    }
}

/// The integer payload of `a`, if it carries one.
pub open spec fn spec_int_payload(a: Annotation) -> Option<u64> {
    match a.payload {
        Some(Literal::Int(n)) => Some(n),
        _ => None,
    }
}

/// The integer payload of the first annotation of `m` whose marker is
/// `marker`: `None` where no such annotation exists or its payload is not
/// an integer literal.
pub open spec fn spec_member_code(m: Member, marker: Seq<char>) -> Option<u64> {
    match spec_find_annotation(m.annotations@, marker) {
        Some(a) => spec_int_payload(a),
        None => None,
    }
}

/// Returns the first annotation of `m` whose marker is `marker`.
pub fn find_annotation<'a>(m: &'a Member, marker: &String) -> (r: Option<&'a Annotation>)
    ensures
        match r {
            Some(a) => spec_find_annotation(m.annotations@, marker@) == Some(*a),
            None => spec_find_annotation(m.annotations@, marker@) is None,
        },
{
    let n: usize = m.annotations.len();
    let mut i: usize = 0;
    proof {
        assert(m.annotations@.skip(0) =~= m.annotations@);
    }
    while i < n
        invariant
            i <= n,
            n == m.annotations@.len(),
            spec_find_annotation(m.annotations@, marker@) == spec_find_annotation(
                m.annotations@.skip(i as int),
                marker@,
            ),
        decreases n - i,
    {
        if m.annotations[i].marker == *marker {
            return Some(&m.annotations[i]);
        }
        proof {
            assert(m.annotations@.skip(i as int).drop_first() =~= m.annotations@.skip(
                i as int + 1,
            ));
        }
        i = i + 1;
    }
    proof {
        assert(m.annotations@.skip(n as int) =~= Seq::<Annotation>::empty());
    }
    None
}

/// Returns the integer payload of the first `marker` annotation of `m`.
pub fn member_code(m: &Member, marker: &String) -> (r: Option<u64>)
    ensures
        r == spec_member_code(*m, marker@),
{
    match find_annotation(m, marker) {
        Some(a) => match &a.payload {
            Some(Literal::Int(n)) => Some(*n),
            _ => None,
        },
        None => None,
    }
}

/// The rate of the first member carrying an integer `rate` annotation, if
/// any member does.
pub open spec fn spec_find_rate(members: Seq<Member>) -> Option<u64>
    decreases members.len(),
{
    if members.len() == 0 {
        None
    } else if spec_member_code(members[0], "rate"@) is Some {
        spec_member_code(members[0], "rate"@)
    } else {
        spec_find_rate(members.drop_first())
    }
}

/// Scans `members` in declaration order for the first one carrying an
/// integer `rate` annotation and returns its rate.
pub fn find_rate(members: &Vec<Member>) -> (r: Option<u64>)
    ensures
        r == spec_find_rate(members@),
{
    let rate_marker: String = "rate".to_owned();
    let n: usize = members.len();
    let mut i: usize = 0;
    proof {
        assert(members@.skip(0) =~= members@);
    }
    while i < n
        invariant
            i <= n,
            n == members@.len(),
            rate_marker@ == "rate"@,
            spec_find_rate(members@) == spec_find_rate(members@.skip(i as int)),
        decreases n - i,
    {
        match member_code(&members[i], &rate_marker) {
            Some(rate) => {
                return Some(rate);
            },
            None => {
                proof {
                    assert(members@.skip(i as int).drop_first() =~= members@.skip(i as int + 1));
                }
                i = i + 1;
            },
        }
    }
    proof {
        assert(members@.skip(n as int) =~= Seq::<Member>::empty());
    }
    None
}

} // verus!
