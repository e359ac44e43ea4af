//! The constants of an emitted type: the members that stay, with their names
//! in upper case and their values as 32-bit patterns.

use crate::literal::{bits_text, decimal_text, member_bits, parse_i64, parsed_value, wrapped_bits};
use crate::model::{MemberDescriptor, MemberModel, MemberOverride, MemberOverrideModel};
use crate::overrides::{is_ignored, member_guard, member_guard_text, member_ignored};
use crate::text::joined;
use vstd::prelude::*;

verus! {

/// Why a fragment could not be produced.
#[derive(Clone, Copy, Debug, PartialEq, Eq)]
pub enum EmitError {
    /// The value of the member at this position in the descriptor is not a
    /// signed decimal literal of 64 bits. A type with a member missing would
    /// be silently wrong, so nothing is produced.
    MalformedValue { member: usize },
}

/// One constant of the emitted type.
#[derive(Clone, Debug, PartialEq, Eq)]
pub struct Constant {
    /// The member's name in upper case.
    pub name: String,
    /// The member's value as an unsigned 32-bit pattern.
    pub bits: u32,
    /// The guard lines ahead of the constant.
    pub guard: String,
}

/// The mathematical content of a [`Constant`].
pub struct ConstantModel {
    pub name: Seq<char>,
    pub bits: u32,
    pub guard: Seq<char>,
}

impl View for Constant {
    type V = ConstantModel;

    open spec fn view(&self) -> ConstantModel {
        ConstantModel { name: self.name@, bits: self.bits, guard: self.guard@ }
    }
}

impl DeepView for Constant {
    type V = ConstantModel;

    open spec fn deep_view(&self) -> ConstantModel {
        self@
    }
}

/// The upper-case form of a text: what `str::to_uppercase` of the standard
/// library returns for it, by the case mappings of Unicode. It has no
/// definition here; contracts only name it.
pub uninterp spec fn uppercase_text(text: Seq<char>) -> Seq<char>;

/// Whether the member at a position is emitted and has a value that is no
/// literal.
pub open spec fn malformed_at(
    members: Seq<MemberModel>,
    overrides: Seq<MemberOverrideModel>,
    i: int,
) -> bool {
    &&& 0 <= i < members.len()
    &&& !member_ignored(overrides, members[i].name)
    &&& parsed_value(members[i].value) is None
}

/// Every member that is emitted has a literal for its value.
pub open spec fn none_malformed(
    members: Seq<MemberModel>,
    overrides: Seq<MemberOverrideModel>,
) -> bool {
    forall|i: int| !malformed_at(members, overrides, i)
}

/// The member at the position is the first that is emitted and has a value
/// that is no literal.
pub open spec fn first_malformed(
    members: Seq<MemberModel>,
    overrides: Seq<MemberOverrideModel>,
    at: int,
) -> bool {
    &&& malformed_at(members, overrides, at)
    &&& forall|i: int| 0 <= i < at ==> !malformed_at(members, overrides, i)
}

/// The test that keeps the members which no override ignores.
pub open spec fn kept(overrides: Seq<MemberOverrideModel>) -> spec_fn(MemberModel) -> bool {
    |member: MemberModel| !member_ignored(overrides, member.name)
}

/// The constant that a member becomes.
pub open spec fn constant_of(member: MemberModel, overrides: Seq<MemberOverrideModel>) -> ConstantModel
    recommends
        parsed_value(member.value) is Some,
{
    ConstantModel {
        name: uppercase_text(member.name),
        bits: wrapped_bits(parsed_value(member.value).unwrap()),
        guard: member_guard_text(overrides, member.name),
    }
}

/// The constants of the emitted type: one for each member that no override
/// ignores, in the order of the members.
pub open spec fn constants_of(
    members: Seq<MemberModel>,
    overrides: Seq<MemberOverrideModel>,
) -> Seq<ConstantModel> {
    members.filter(kept(overrides)).map_values(
        |member: MemberModel| constant_of(member, overrides),
    )
}

/// The lines of one constant.
pub open spec fn constant_text(constant: ConstantModel) -> Seq<char> {
    constant.guard + "\t\tconst "@ + constant.name + " = "@ + decimal_text(constant.bits as nat)
        + ";\n"@
}

/// The piece that each constant adds to the declaration.
pub open spec fn constant_part() -> spec_fn(ConstantModel) -> Seq<char> {
    |constant: ConstantModel| constant_text(constant)
}

/// The lines of all constants, in order.
pub open spec fn constants_text(constants: Seq<ConstantModel>) -> Seq<char> {
    joined(constants, constant_part())
}

/// The constants follow the members one by one: a member that an override
/// ignores adds nothing, any other member adds its constant at the end. So
/// the constants are those of the members that are not ignored, in the order
/// of the members.
pub proof fn lemma_constants_follow_members(
    members: Seq<MemberModel>,
    member: MemberModel,
    overrides: Seq<MemberOverrideModel>,
)
    ensures
        constants_of(Seq::empty(), overrides) == Seq::<ConstantModel>::empty(),
        constants_of(members.push(member), overrides) == if member_ignored(
            overrides,
            member.name,
        ) {
            constants_of(members, overrides)
        } else {
            constants_of(members, overrides).push(constant_of(member, overrides))
        },
        constants_of(members, overrides).len() <= members.len(),
{
    reveal(Seq::filter);
    members.lemma_filter_push(member, kept(overrides));
    members.lemma_filter_len(kept(overrides));
}

/// Puts a text in upper case by calling `str::to_uppercase` of the standard
/// library. The contract is taken on trust: the call returns
/// `uppercase_text` of its argument, which says no more than that the result
/// depends on the argument alone. What the upper-case form of a given text
/// is, the contract leaves open.
#[verifier::external_body]
fn to_uppercase(text: &str) -> (upper: String)
    ensures
        upper@ == uppercase_text(text@),
{
    text.to_uppercase()
}

/// Makes the constant of a member whose value has been read and whose name
/// has been put in upper case.
pub fn make_constant(
    upper_name: String,
    value: i64,
    overrides: &Vec<MemberOverride>,
    name: &String,
) -> (constant: Constant)
    ensures
        constant@ == (ConstantModel {
            name: upper_name@,
            bits: wrapped_bits(value),
            guard: member_guard_text(overrides.deep_view(), name@),
        }),
{
    Constant { name: upper_name, bits: member_bits(value), guard: member_guard(overrides, name) }
}

/// Chooses and converts the members of a type: those that no override
/// ignores become constants, in the order of the members. Fails at the first
/// of them whose value is no literal.
pub fn emitted_constants(
    members: &Vec<MemberDescriptor>,
    overrides: &Vec<MemberOverride>,
) -> (result: Result<Vec<Constant>, EmitError>)
    ensures
        match result {
            Ok(constants) => {
                &&& none_malformed(members.deep_view(), overrides.deep_view())
                &&& constants.deep_view() == constants_of(
                    members.deep_view(),
                    overrides.deep_view(),
                )
            },
            Err(EmitError::MalformedValue { member }) => first_malformed(
                members.deep_view(),
                overrides.deep_view(),
                member as int,
            ),
        },
{
    let ghost all = members.deep_view();
    let ghost records = overrides.deep_view();
    let mut constants: Vec<Constant> = Vec::new();
    let mut i: usize = 0;
    proof {
        reveal(Seq::filter);
    }
    while i < members.len()
        invariant
            i <= members.len(),
            all == members.deep_view(),
            records == overrides.deep_view(),
            forall|j: int| 0 <= j < i ==> !malformed_at(all, records, j),
            constants.deep_view() == constants_of(all.take(i as int), records),
        decreases members.len() - i,
    {
        let member = &members[i];
        proof {
            assert(all.take(i + 1) =~= all.take(i as int).push(all[i as int]));
            all.take(i as int).lemma_filter_push(all[i as int], kept(records));
        }
        if !is_ignored(overrides, &member.name) {
            match parse_i64(member.value.as_str()) {
                Some(value) => {
                    let upper = to_uppercase(member.name.as_str());
                    let constant = make_constant(upper, value, overrides, &member.name);
                    let ghost before = constants.deep_view();
                    constants.push(constant);
                    assert(constants.deep_view() =~= before.push(constant@));
                },
                None => {
                    return Err(EmitError::MalformedValue { member: i });
                },
            }
        }
        i = i + 1;
    }
    assert(all.take(i as int) =~= all);
    Ok(constants)
}

/// Writes the lines of one constant.
pub fn render_constant(constant: &Constant) -> (text: String)
    ensures
        text@ == constant_text(constant@),
{
    let mut text = constant.guard.clone();
    text.append("\t\tconst ");
    text.append(constant.name.as_str());
    text.append(" = ");
    let digits = bits_text(constant.bits);
    text.append(digits.as_str());
    text.append(";\n");
    text
}

} // verus!
