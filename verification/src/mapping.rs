//! Code mappings: building the variant/status-code association from an
//! annotated enum declaration, the total forward and partial reverse
//! lookups over it, and the totality and round-trip laws.

use vstd::prelude::*;

use crate::extract::{member_code, spec_member_code};
use crate::model::{CodeMapping, DeclKind, Entry, GenError, Member, TypeDeclaration};

verus! {

/// The `give` code of a member: the integer payload of its first `give`
/// annotation.
pub open spec fn spec_give_code(m: Member) -> Option<u64> {
    spec_member_code(m, "give"@)
}

/// Whether every member carries an integer `give` code.
pub open spec fn all_members_coded(members: Seq<Member>) -> bool {
    forall|i: int| 0 <= i < members.len() ==> spec_give_code(#[trigger] members[i]) is Some
}

/// Whether entry `e` binds member `m`'s identifier to `m`'s `give` code.
pub open spec fn entry_matches(e: Entry, m: Member) -> bool {
    &&& e.variant@ == m.identifier@
    &&& Some(e.code) == spec_give_code(m)
}

/// Whether `entries` binds, in declaration order, each member of `members`
/// to its own `give` code.
pub open spec fn mapping_matches(entries: Seq<Entry>, members: Seq<Member>) -> bool {
    &&& entries.len() == members.len()
    &&& forall|i: int|
        0 <= i < members.len() ==> entry_matches(#[trigger] entries[i], #[trigger] members[i])
}

/// Builds the code mapping of an enum declaration: one entry per variant,
/// in declaration order, each bound to the variant's `give` code. Rejects
/// a non-enum declaration and any variant without an integer `give` code.
pub fn build_mapping(decl: &TypeDeclaration) -> (r: Result<CodeMapping, GenError>)
    ensures
        r is Ok <==> decl.kind == DeclKind::Enum && all_members_coded(decl.members@),
        r matches Ok(m) ==> mapping_matches(m.entries@, decl.members@),
        r matches Err(e) ==> e == (if decl.kind != DeclKind::Enum {
            GenError::UnsupportedShape
        } else {
            GenError::MissingAnnotation
        }),
{
    match decl.kind {
        DeclKind::Enum => {},
        DeclKind::Struct => {
            return Err(GenError::UnsupportedShape);
        },
    }
    let give_marker: String = "give".to_owned();
    let n: usize = decl.members.len();
    let mut entries: Vec<Entry> = Vec::new();
    let mut i: usize = 0;
    while i < n
        invariant
            i <= n,
            n == decl.members@.len(),
            decl.kind == DeclKind::Enum,
            give_marker@ == "give"@,
            entries@.len() == i,
            forall|j: int|
                0 <= j < i ==> entry_matches(
                    #[trigger] entries@[j],
                    #[trigger] decl.members@[j],
                ),
        decreases n - i,
    {
        match member_code(&decl.members[i], &give_marker) {
            Some(code) => {
                entries.push(Entry { variant: decl.members[i].identifier.clone(), code });
            },
            None => {
                proof {
                    assert(spec_give_code(decl.members@[i as int]) is None);
                    assert(!all_members_coded(decl.members@));
                }
                return Err(GenError::MissingAnnotation);
            },
        }
        i = i + 1;
    }
    proof {
        assert forall|j: int| 0 <= j < decl.members@.len() implies spec_give_code(
            #[trigger] decl.members@[j],
        ) is Some by {
            assert(entry_matches(entries@[j], decl.members@[j]));
        }
    }
    Ok(CodeMapping { entries })
}

/// The code bound to `variant`: the code of the first entry whose variant
/// identifier is `variant`, if any.
pub open spec fn spec_lookup_code(entries: Seq<Entry>, variant: Seq<char>) -> Option<u64>
    decreases entries.len(),
{
    if entries.len() == 0 {
        None
    } else if entries[0].variant@ == variant {
        Some(entries[0].code)
    } else {
        spec_lookup_code(entries.drop_first(), variant)
    }
}

/// The variant bound to `code`: the identifier of the first entry whose
/// code is `code`, if any.
pub open spec fn spec_lookup_variant(entries: Seq<Entry>, code: u64) -> Option<Seq<char>>
    decreases entries.len(),
{
    if entries.len() == 0 {
        None
    } else if entries[0].code == code {
        Some(entries[0].variant@)
    } else {
        spec_lookup_variant(entries.drop_first(), code)
    }
}

/// Looks `variant` up in the mapping, first entry wins.
pub fn lookup_code(m: &CodeMapping, variant: &String) -> (r: Option<u64>)
    ensures
        r == spec_lookup_code(m.entries@, variant@),
{
    let n: usize = m.entries.len();
    let mut i: usize = 0;
    proof {
        assert(m.entries@.skip(0) =~= m.entries@);
    }
    while i < n
        invariant
            i <= n,
            n == m.entries@.len(),
            spec_lookup_code(m.entries@, variant@) == spec_lookup_code(
                m.entries@.skip(i as int),
                variant@,
            ),
        decreases n - i,
    {
        if m.entries[i].variant == *variant {
            return Some(m.entries[i].code);
        }
        proof {
            assert(m.entries@.skip(i as int).drop_first() =~= m.entries@.skip(i as int + 1));
        }
        i = i + 1;
    }
    proof {
        assert(m.entries@.skip(n as int) =~= Seq::<Entry>::empty());
    }
    None
}

/// Looks `code` up in the mapping, first entry wins. Absence is reported
/// explicitly: the caller decides whether it is fatal.
pub fn lookup_variant(m: &CodeMapping, code: u64) -> (r: Option<String>)
    ensures
        match r {
            Some(v) => spec_lookup_variant(m.entries@, code) == Some(v@),
            None => spec_lookup_variant(m.entries@, code) is None,
        },
{
    let n: usize = m.entries.len();
    let mut i: usize = 0;
    proof {
        assert(m.entries@.skip(0) =~= m.entries@);
    }
    while i < n
        invariant
            i <= n,
            n == m.entries@.len(),
            spec_lookup_variant(m.entries@, code) == spec_lookup_variant(
                m.entries@.skip(i as int),
                code,
            ),
        decreases n - i,
    {
        if m.entries[i].code == code {
            return Some(m.entries[i].variant.clone());
        }
        proof {
            assert(m.entries@.skip(i as int).drop_first() =~= m.entries@.skip(i as int + 1));
        }
        i = i + 1;
    }
    proof {
        assert(m.entries@.skip(n as int) =~= Seq::<Entry>::empty());
    }
    None
}

/// The forward conversion: total over the variants of the mapping, so the
/// caller must name one of them.
pub fn forward(m: &CodeMapping, variant: &String) -> (r: u64)
    requires
        spec_lookup_code(m.entries@, variant@) is Some,
    ensures
        Some(r) == spec_lookup_code(m.entries@, variant@),
{
    match lookup_code(m, variant) {
        Some(code) => code,
        None => {
            proof {
                assert(false);
            }
            0
        },
    }
}

/// The reverse conversion: partial, defined only on codes present in the
/// mapping.
pub fn reverse(m: &CodeMapping, code: u64) -> (r: String)
    requires
        spec_lookup_variant(m.entries@, code) is Some,
    ensures
        Some(r@) == spec_lookup_variant(m.entries@, code),
{
    match lookup_variant(m, code) {
        Some(variant) => variant,
        None => {
            proof {
                assert(false);
            }
            String::new()
        },
    }
}

/// Pairwise-distinct variant identifiers.
pub open spec fn unique_variants(entries: Seq<Entry>) -> bool {
    forall|i: int, j: int|
        0 <= i < j < entries.len() ==> (#[trigger] entries[i]).variant@ != (
        #[trigger] entries[j]).variant@
}

/// Pairwise-distinct status codes.
pub open spec fn unique_codes(entries: Seq<Entry>) -> bool {
    forall|i: int, j: int|
        0 <= i < j < entries.len() ==> (#[trigger] entries[i]).code != (#[trigger] entries[j]).code
}

/// Totality law: the forward conversion is defined for every variant of
/// the mapping, and, where variant identifiers are unique, returns that
/// variant's own code.
pub proof fn lemma_forward_total(entries: Seq<Entry>, i: int)
    requires
        0 <= i < entries.len(),
    ensures
        spec_lookup_code(entries, entries[i].variant@) is Some,
        unique_variants(entries) ==> spec_lookup_code(entries, entries[i].variant@) == Some(
            entries[i].code,
        ),
    decreases entries.len(),
{
    if entries[0].variant@ == entries[i].variant@ {
        if unique_variants(entries) && i != 0 {
            assert(entries[0].variant@ != entries[i].variant@);
        }
    } else {
        let d = entries.drop_first();
        lemma_forward_total(d, i - 1);
        if unique_variants(entries) {
            assert forall|x: int, y: int| 0 <= x < y < d.len() implies (
            #[trigger] d[x]).variant@ != (#[trigger] d[y]).variant@ by {
                assert(entries[x + 1].variant@ != entries[y + 1].variant@);
            }
        }
    }
}

/// Totality over a declaration: in a mapping built from an enum's own
/// member list, the forward conversion is defined for every member's
/// identifier.
pub proof fn lemma_mapping_total_for_decl(entries: Seq<Entry>, members: Seq<Member>, i: int)
    requires
        mapping_matches(entries, members),
        0 <= i < members.len(),
    ensures
        spec_lookup_code(entries, members[i].identifier@) is Some,
{
    assert(entry_matches(entries[i], members[i]));
    lemma_forward_total(entries, i);
}

/// The reverse of a unique code is the variant bound to it.
pub proof fn lemma_reverse_of_code(entries: Seq<Entry>, i: int)
    requires
        unique_codes(entries),
        0 <= i < entries.len(),
    ensures
        spec_lookup_variant(entries, entries[i].code) == Some(entries[i].variant@),
    decreases entries.len(),
{
    if entries[0].code == entries[i].code {
        if i != 0 {
            assert(entries[0].code != entries[i].code);
        }
    } else {
        let d = entries.drop_first();
        assert forall|x: int, y: int| 0 <= x < y < d.len() implies (#[trigger] d[x]).code != (
        #[trigger] d[y]).code by {
            assert(entries[x + 1].code != entries[y + 1].code);
        }
        lemma_reverse_of_code(d, i - 1);
    }
}

/// Round-trip law: where both the variant identifiers and the codes of a
/// mapping are unique, converting a variant forward to its code and that
/// code back again yields the same variant.
pub proof fn lemma_round_trip(entries: Seq<Entry>, i: int)
    requires
        unique_variants(entries),
        unique_codes(entries),
        0 <= i < entries.len(),
    ensures
        spec_lookup_code(entries, entries[i].variant@) is Some,
        spec_lookup_variant(
            entries,
            spec_lookup_code(entries, entries[i].variant@).unwrap(),
        ) == Some(entries[i].variant@),
{
    lemma_forward_total(entries, i);
    lemma_reverse_of_code(entries, i);
}

} // verus!
