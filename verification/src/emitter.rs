//! The type emitter: one flag type descriptor to its source fragment.

use crate::blocks::{
    block_part, blocks_text, declaration_text, from_native_block, from_native_text,
    from_value_block, from_value_optional_block, from_value_optional_text, from_value_text,
    render_blocks, set_value_block, set_value_text, static_type_block, static_type_text,
    to_native_block, to_native_text, type_declaration, Block, BlockKind, BlockModel,
};
use crate::constants::{
    constants_of, emitted_constants, first_malformed, none_malformed, EmitError,
};
use crate::guard::{guard_text, push_guard};
use crate::model::{FlagTypeDescriptor, FlagTypeModel, TypeOverride, TypeOverrideModel};
use crate::text::{joined, lemma_joined_add, lemma_joined_four, lemma_joined_three};
use vstd::prelude::*;

verus! {

/// The guard lines ahead of every block of a type: the deprecation guard,
/// then the version guard.
pub open spec fn type_guard_text(descriptor: FlagTypeModel) -> Seq<char> {
    guard_text(descriptor.deprecated_version) + guard_text(descriptor.version)
}

/// The blocks of a fragment.
///
/// Three come for every type: the declaration and the two native
/// conversions. A type with a registration function gets four more: the
/// accessor of the runtime type handle and the three conversions between the
/// type and dynamic values. Every block stands under the type's own guard,
/// because a guard covers one declaration only.
pub open spec fn blocks_of(
    descriptor: FlagTypeModel,
    overrides: TypeOverrideModel,
    safety_asserts: bool,
) -> Seq<BlockModel> {
    let guard = type_guard_text(descriptor);
    let name = descriptor.name;
    let native_name = descriptor.native_name;
    let always = seq![
        BlockModel {
            kind: BlockKind::TypeDeclaration,
            guard,
            body: declaration_text(
                name,
                overrides.must_use,
                constants_of(descriptor.members, overrides.members),
            ),
        },
        BlockModel { kind: BlockKind::ToNative, guard, body: to_native_text(name, native_name) },
        BlockModel {
            kind: BlockKind::FromNative,
            guard,
            body: from_native_text(name, native_name, safety_asserts),
        },
    ];
    match descriptor.registration {
        None => always,
        Some(registration) => always + seq![
            BlockModel {
                kind: BlockKind::StaticType,
                guard,
                body: static_type_text(name, registration),
            },
            BlockModel {
                kind: BlockKind::FromValueOptional,
                guard,
                body: from_value_optional_text(name),
            },
            BlockModel {
                kind: BlockKind::FromValue,
                guard,
                body: from_value_text(name, native_name),
            },
            BlockModel { kind: BlockKind::SetValue, guard, body: set_value_text(name) },
        ],
    }
}

/// The source fragment of a type.
pub open spec fn fragment_text(
    descriptor: FlagTypeModel,
    overrides: TypeOverrideModel,
    safety_asserts: bool,
) -> Seq<char> {
    blocks_text(blocks_of(descriptor, overrides, safety_asserts))
}

/// The kinds of block that only a type with a registration function gets.
pub open spec fn is_registration_kind(kind: BlockKind) -> bool {
    kind is StaticType || kind is FromValueOptional || kind is FromValue || kind is SetValue
}

/// Whether exactly one of the blocks is of the kind.
pub open spec fn exactly_one(blocks: Seq<BlockModel>, kind: BlockKind) -> bool {
    exists|i: int|
        0 <= i < blocks.len() && (#[trigger] blocks[i]).kind == kind && forall|j: int|
            0 <= j < blocks.len() && (#[trigger] blocks[j]).kind == kind ==> j == i
}

/// Every block of a fragment stands under the guard of its type.
pub proof fn lemma_blocks_guarded(
    descriptor: FlagTypeModel,
    overrides: TypeOverrideModel,
    safety_asserts: bool,
)
    ensures
        forall|i: int|
            0 <= i < blocks_of(descriptor, overrides, safety_asserts).len() ==> (#[trigger] blocks_of(
                descriptor,
                overrides,
                safety_asserts,
            )[i]).guard == type_guard_text(descriptor),
{
}

/// The kinds of a run of blocks, in order.
pub open spec fn kinds_of(blocks: Seq<BlockModel>) -> Seq<BlockKind> {
    blocks.map_values(|block: BlockModel| block.kind)
}

/// A type without a registration function gets the declaration and the two
/// native conversions, in this order, and none of the blocks that serve the
/// runtime type system.
pub proof fn lemma_blocks_without_registration(
    descriptor: FlagTypeModel,
    overrides: TypeOverrideModel,
    safety_asserts: bool,
)
    requires
        descriptor.registration is None,
    ensures
        kinds_of(blocks_of(descriptor, overrides, safety_asserts)) == seq![
            BlockKind::TypeDeclaration,
            BlockKind::ToNative,
            BlockKind::FromNative,
        ],
        forall|i: int|
            0 <= i < blocks_of(descriptor, overrides, safety_asserts).len()
                ==> !is_registration_kind(
                (#[trigger] blocks_of(descriptor, overrides, safety_asserts)[i]).kind,
            ),
{
    let kinds = kinds_of(blocks_of(descriptor, overrides, safety_asserts));
    assert(kinds =~= seq![BlockKind::TypeDeclaration, BlockKind::ToNative, BlockKind::FromNative]);
}

/// The blocks that only a type with a registration function gets, written
/// out: each under the guard of the type.
pub open spec fn registration_text(descriptor: FlagTypeModel) -> Seq<char> {
    let guard = type_guard_text(descriptor);
    match descriptor.registration {
        None => Seq::empty(),
        Some(registration) => (guard + static_type_text(descriptor.name, registration)) + (guard
            + from_value_optional_text(descriptor.name)) + (guard + from_value_text(
            descriptor.name,
            descriptor.native_name,
        )) + (guard + set_value_text(descriptor.name)),
    }
}

/// A fragment written out in full: the declaration, the conversion to the
/// native counterpart, the conversion from it, and for a type with a
/// registration function the four blocks that serve the runtime type
/// system. Ahead of every one of them stands the guard of the type.
pub proof fn lemma_fragment_sequence(
    descriptor: FlagTypeModel,
    overrides: TypeOverrideModel,
    safety_asserts: bool,
)
    ensures
        fragment_text(descriptor, overrides, safety_asserts) == (type_guard_text(descriptor)
            + declaration_text(
            descriptor.name,
            overrides.must_use,
            constants_of(descriptor.members, overrides.members),
        )) + (type_guard_text(descriptor) + to_native_text(
            descriptor.name,
            descriptor.native_name,
        )) + (type_guard_text(descriptor) + from_native_text(
            descriptor.name,
            descriptor.native_name,
            safety_asserts,
        )) + registration_text(descriptor),
{
    let blocks = blocks_of(descriptor, overrides, safety_asserts);
    let part = block_part();
    let always = seq![blocks[0], blocks[1], blocks[2]];
    lemma_joined_three(blocks[0], blocks[1], blocks[2], part);
    match descriptor.registration {
        None => {
            assert(blocks =~= always);
            assert(joined(always, part) + Seq::<char>::empty() =~= joined(always, part));
        },
        Some(registration) => {
            let more = seq![blocks[3], blocks[4], blocks[5], blocks[6]];
            lemma_joined_four(blocks[3], blocks[4], blocks[5], blocks[6], part);
            assert(blocks =~= always + more);
            lemma_joined_add(always, more, part);
        },
    }
}

/// Seven blocks whose kinds are the seven kinds, each in its place, hold
/// every kind exactly once.
proof fn lemma_one_of_each(blocks: Seq<BlockModel>)
    requires
        blocks.len() == 7,
        blocks[0].kind == BlockKind::TypeDeclaration,
        blocks[1].kind == BlockKind::ToNative,
        blocks[2].kind == BlockKind::FromNative,
        blocks[3].kind == BlockKind::StaticType,
        blocks[4].kind == BlockKind::FromValueOptional,
        blocks[5].kind == BlockKind::FromValue,
        blocks[6].kind == BlockKind::SetValue,
    ensures
        forall|kind: BlockKind| exactly_one(blocks, kind),
{
    assert forall|kind: BlockKind| exactly_one(blocks, kind) by {
        let at: int = match kind {
            BlockKind::TypeDeclaration => 0,
            BlockKind::ToNative => 1,
            BlockKind::FromNative => 2,
            BlockKind::StaticType => 3,
            BlockKind::FromValueOptional => 4,
            BlockKind::FromValue => 5,
            BlockKind::SetValue => 6,
        };
        assert(blocks[at].kind == kind);
    }
}

/// A type with a registration function gets every kind of block exactly
/// once: after the declaration and the two native conversions come one
/// accessor of the runtime type handle, which calls the registration
/// function, and one each of the three conversions between the type and
/// dynamic values.
pub proof fn lemma_blocks_with_registration(
    descriptor: FlagTypeModel,
    overrides: TypeOverrideModel,
    safety_asserts: bool,
)
    requires
        descriptor.registration is Some,
    ensures
        kinds_of(blocks_of(descriptor, overrides, safety_asserts)) == seq![
            BlockKind::TypeDeclaration,
            BlockKind::ToNative,
            BlockKind::FromNative,
            BlockKind::StaticType,
            BlockKind::FromValueOptional,
            BlockKind::FromValue,
            BlockKind::SetValue,
        ],
        forall|kind: BlockKind|
            exactly_one(blocks_of(descriptor, overrides, safety_asserts), kind),
        blocks_of(descriptor, overrides, safety_asserts)[3].body == static_type_text(
            descriptor.name,
            descriptor.registration.unwrap(),
        ),
{
    let blocks = blocks_of(descriptor, overrides, safety_asserts);
    assert(kinds_of(blocks) =~= seq![
        BlockKind::TypeDeclaration,
        BlockKind::ToNative,
        BlockKind::FromNative,
        BlockKind::StaticType,
        BlockKind::FromValueOptional,
        BlockKind::FromValue,
        BlockKind::SetValue,
    ]);
    lemma_one_of_each(blocks);
}

/// Writes the guard lines that stand ahead of every block of a type.
pub fn type_guard(descriptor: &FlagTypeDescriptor) -> (guard: String)
    ensures
        guard@ == type_guard_text(descriptor@),
{
    let mut guard = String::new();
    push_guard(&mut guard, &descriptor.deprecated_version);
    push_guard(&mut guard, &descriptor.version);
    guard
}

/// Puts a declaration under a copy of the type's guard.
fn guarded(kind: BlockKind, guard: &String, body: String) -> (block: Block)
    ensures
        block@ == (BlockModel { kind, guard: guard@, body: body@ }),
{
    Block { kind, guard: guard.clone(), body }
}

/// Renders a descriptor under its override record into blocks.
///
/// Fails, with nothing produced, exactly when an emitted member has a value
/// that is no literal; the error names the first such member.
pub fn flag_blocks(
    descriptor: &FlagTypeDescriptor,
    overrides: &TypeOverride,
    safety_asserts: bool,
) -> (result: Result<Vec<Block>, EmitError>)
    ensures
        match result {
            Ok(blocks) => {
                &&& none_malformed(descriptor@.members, overrides@.members)
                &&& blocks.deep_view() == blocks_of(descriptor@, overrides@, safety_asserts)
            },
            Err(EmitError::MalformedValue { member }) => first_malformed(
                descriptor@.members,
                overrides@.members,
                member as int,
            ),
        },
{
    let constants = match emitted_constants(&descriptor.members, &overrides.members) {
        Ok(constants) => constants,
        Err(error) => {
            return Err(error);
        },
    };
    let guard = type_guard(descriptor);
    let name = descriptor.name.as_str();
    let native_name = descriptor.native_name.as_str();
    let mut blocks: Vec<Block> = Vec::new();
    blocks.push(
        guarded(
            BlockKind::TypeDeclaration,
            &guard,
            type_declaration(name, overrides.must_use, &constants),
        ),
    );
    blocks.push(guarded(BlockKind::ToNative, &guard, to_native_block(name, native_name)));
    blocks.push(
        guarded(
            BlockKind::FromNative,
            &guard,
            from_native_block(name, native_name, safety_asserts),
        ),
    );
    match &descriptor.registration {
        Some(registration) => {
            blocks.push(
                guarded(
                    BlockKind::StaticType,
                    &guard,
                    static_type_block(name, registration.as_str()),
                ),
            );
            blocks.push(
                guarded(BlockKind::FromValueOptional, &guard, from_value_optional_block(name)),
            );
            blocks.push(
                guarded(BlockKind::FromValue, &guard, from_value_block(name, native_name)),
            );
            blocks.push(guarded(BlockKind::SetValue, &guard, set_value_block(name)));
        },
        None => {},
    }
    assert(blocks.deep_view() =~= blocks_of(descriptor@, overrides@, safety_asserts));
    Ok(blocks)
}

/// Renders a descriptor under its override record into a complete source
/// fragment: the type declaration with its constants, the conversions to and
/// from the native counterpart and, for a type with a registration function,
/// the runtime type accessor and the conversions to and from dynamic values.
///
/// Fails, with nothing produced, exactly when an emitted member has a value
/// that is no literal; the error names the first such member.
pub fn generate_flags(
    descriptor: &FlagTypeDescriptor,
    overrides: &TypeOverride,
    safety_asserts: bool,
) -> (result: Result<String, EmitError>)
    ensures
        match result {
            Ok(text) => {
                &&& none_malformed(descriptor@.members, overrides@.members)
                &&& text@ == fragment_text(descriptor@, overrides@, safety_asserts)
            },
            Err(EmitError::MalformedValue { member }) => first_malformed(
                descriptor@.members,
                overrides@.members,
                member as int,
            ),
        },
{
    match flag_blocks(descriptor, overrides, safety_asserts) {
        Ok(blocks) => Ok(render_blocks(&blocks)),
        Err(error) => Err(error),
    }
}

} // verus!
