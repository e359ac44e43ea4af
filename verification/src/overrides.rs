//! Member overrides: which members are left out, and which versions apply
//! to the members that stay.

use crate::guard::{guard_text, push_guard};
use crate::model::{MemberOverride, MemberOverrideModel, VersionModel};
use vstd::prelude::*;

verus! {

/// Whether some override of the given member name asks to leave the member out.
pub open spec fn member_ignored(overrides: Seq<MemberOverrideModel>, name: Seq<char>) -> bool {
    exists|i: int|
        #![trigger overrides[i]]
        0 <= i < overrides.len() && overrides[i].name == name && overrides[i].ignore
}

/// The deprecation version (`deprecation` set) or the version (`deprecation`
/// clear) that one override record carries.
pub open spec fn override_version(record: MemberOverrideModel, deprecation: bool) -> Option<VersionModel> {
    if deprecation {
        record.deprecated_version
    } else {
        record.version
    }
}

/// The version that applies to a member: that of the first override, in
/// configuration order, which carries the member's name and has one.
pub open spec fn first_version(
    overrides: Seq<MemberOverrideModel>,
    name: Seq<char>,
    deprecation: bool,
) -> Option<VersionModel>
    decreases overrides.len(),
{
    if overrides.len() == 0 {
        None
    } else if overrides[0].name == name && override_version(overrides[0], deprecation) is Some {
        override_version(overrides[0], deprecation)
    } else {
        first_version(overrides.skip(1), name, deprecation)
    }
}

/// The guard lines ahead of a member's constant: the deprecation guard, then
/// the version guard.
pub open spec fn member_guard_text(overrides: Seq<MemberOverrideModel>, name: Seq<char>) -> Seq<
    char,
> {
    guard_text(first_version(overrides, name, true)) + guard_text(
        first_version(overrides, name, false),
    )
}

/// Among overrides of the same member, the one that stands first decides
/// the version: what follows is looked at only where what stands before has
/// no version for the member.
pub proof fn lemma_first_version_prefers_earlier(
    earlier: Seq<MemberOverrideModel>,
    later: Seq<MemberOverrideModel>,
    name: Seq<char>,
    deprecation: bool,
)
    ensures
        first_version(earlier + later, name, deprecation) == match first_version(
            earlier,
            name,
            deprecation,
        ) {
            Some(version) => Some(version),
            None => first_version(later, name, deprecation),
        },
    decreases earlier.len(),
{
    if earlier.len() == 0 {
        assert(earlier + later =~= later);
    } else {
        assert((earlier + later)[0] == earlier[0]);
        assert((earlier + later).skip(1) =~= earlier.skip(1) + later);
        lemma_first_version_prefers_earlier(earlier.skip(1), later, name, deprecation);
    }
}

/// A member is left out as soon as one override of its name says so,
/// wherever that override stands.
pub proof fn lemma_ignored_anywhere(
    earlier: Seq<MemberOverrideModel>,
    later: Seq<MemberOverrideModel>,
    name: Seq<char>,
)
    ensures
        member_ignored(earlier + later, name) == (member_ignored(earlier, name) || member_ignored(
            later,
            name,
        )),
{
    let all = earlier + later;
    if member_ignored(earlier, name) {
        let i = choose|i: int|
            #![trigger earlier[i]]
            0 <= i < earlier.len() && earlier[i].name == name && earlier[i].ignore;
        assert(all[i] == earlier[i]);
    }
    if member_ignored(later, name) {
        let i = choose|i: int|
            #![trigger later[i]]
            0 <= i < later.len() && later[i].name == name && later[i].ignore;
        assert(all[earlier.len() + i] == later[i]);
    }
    if member_ignored(all, name) {
        let i = choose|i: int|
            #![trigger all[i]]
            0 <= i < all.len() && all[i].name == name && all[i].ignore;
        if i < earlier.len() {
            assert(earlier[i] == all[i]);
        } else {
            assert(later[i - earlier.len()] == all[i]);
        }
    }
}

/// A member that no override names is emitted, and without a guard.
pub proof fn lemma_member_without_override(overrides: Seq<MemberOverrideModel>, name: Seq<char>)
    requires
        forall|i: int| 0 <= i < overrides.len() ==> (#[trigger] overrides[i]).name != name,
    ensures
        !member_ignored(overrides, name),
        first_version(overrides, name, true) is None,
        first_version(overrides, name, false) is None,
        member_guard_text(overrides, name) == Seq::<char>::empty(),
    decreases overrides.len(),
{
    if overrides.len() > 0 {
        let rest = overrides.skip(1);
        assert forall|i: int| 0 <= i < rest.len() implies (#[trigger] rest[i]).name != name by {
            assert(rest[i] == overrides[i + 1]);
        }
        lemma_member_without_override(rest, name);
    }
    assert(member_guard_text(overrides, name) =~= Seq::<char>::empty());
}

/// Tells whether some override of the given member name asks to leave the
/// member out.
pub fn is_ignored(overrides: &Vec<MemberOverride>, name: &String) -> (ignored: bool)
    ensures
        ignored == member_ignored(overrides.deep_view(), name@),
{
    let mut i: usize = 0;
    while i < overrides.len()
        invariant
            i <= overrides.len(),
            forall|j: int|
                #![trigger overrides.deep_view()[j]]
                0 <= j < i ==> !(overrides.deep_view()[j].name == name@
                    && overrides.deep_view()[j].ignore),
        decreases overrides.len() - i,
    {
        if overrides[i].name == *name && overrides[i].ignore {
            assert(overrides.deep_view()[i as int].name == name@);
            return true;
        }
        i = i + 1;
    }
    false
}

/// Finds the version that applies to a member and writes its guard.
fn push_first_guard(
    out: &mut String,
    overrides: &Vec<MemberOverride>,
    name: &String,
    deprecation: bool,
)
    ensures
        final(out)@ == old(out)@ + guard_text(
            first_version(overrides.deep_view(), name@, deprecation),
        ),
{
    let ghost all = overrides.deep_view();
    assert(all.skip(0) =~= all);
    let mut i: usize = 0;
    while i < overrides.len()
        invariant
            i <= overrides.len(),
            all == overrides.deep_view(),
            *out == *old(out),
            first_version(all, name@, deprecation) == first_version(
                all.skip(i as int),
                name@,
                deprecation,
            ),
        decreases overrides.len() - i,
    {
        let record = &overrides[i];
        proof {
            assert(all.skip(i as int).skip(1) =~= all.skip(i + 1));
        }
        if record.name == *name {
            let found = if deprecation {
                &record.deprecated_version
            } else {
                &record.version
            };
            if found.is_some() {
                push_guard(out, found);
                return ;
            }
        }
        i = i + 1;
    }
}

/// Writes the guard lines ahead of a member's constant.
pub fn member_guard(overrides: &Vec<MemberOverride>, name: &String) -> (guard: String)
    ensures
        guard@ == member_guard_text(overrides.deep_view(), name@),
{
    let mut guard = String::new();
    push_first_guard(&mut guard, overrides, name, true);
    push_first_guard(&mut guard, overrides, name, false);
    guard
}

} // verus!
