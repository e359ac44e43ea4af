//! The blocks of a fragment and their text.

use crate::constants::{constant_part, constants_text, render_constant, Constant, ConstantModel};
use crate::text::{joined, lemma_joined_empty, lemma_joined_take};
use vstd::prelude::*;

verus! {

/// The parts that a fragment is made of.
#[derive(Clone, Copy, Debug, PartialEq, Eq)]
pub enum BlockKind {
    /// The type with its constants.
    TypeDeclaration,
    /// The conversion to the native counterpart.
    ToNative,
    /// The conversion from the native counterpart.
    FromNative,
    /// The accessor of the runtime type handle.
    StaticType,
    /// The extraction of an optional instance from a dynamic value.
    FromValueOptional,
    /// The extraction of an instance from a dynamic value.
    FromValue,
    /// The storing of an instance into a dynamic value.
    SetValue,
}

/// One block of a fragment: a declaration under its own guard.
#[derive(Clone, Debug, PartialEq, Eq)]
pub struct Block {
    pub kind: BlockKind,
    /// The guard lines ahead of the declaration.
    pub guard: String,
    /// The declaration, with the blank line that ends it.
    pub body: String,
}

/// The mathematical content of a [`Block`].
pub struct BlockModel {
    pub kind: BlockKind,
    pub guard: Seq<char>,
    pub body: Seq<char>,
}

impl View for Block {
    type V = BlockModel;

    open spec fn view(&self) -> BlockModel {
        BlockModel { kind: self.kind, guard: self.guard@, body: self.body@ }
    }
}

impl DeepView for Block {
    type V = BlockModel;

    open spec fn deep_view(&self) -> BlockModel {
        self@
    }
}

/// The declaration of the type with its constants.
pub open spec fn declaration_text(
    name: Seq<char>,
    must_use: bool,
    constants: Seq<ConstantModel>,
) -> Seq<char> {
    "bitflags! {\n"@ + (if must_use {
        "    #[must_use]\n"@
    } else {
        Seq::empty()
    }) + "    pub struct "@ + name + ": u32 {\n"@ + constants_text(constants)
        + "    }\n}\n\n"@
}

/// The conversion to the native counterpart.
pub open spec fn to_native_text(name: Seq<char>, native_name: Seq<char>) -> Seq<char> {
    "#[doc(hidden)]\nimpl ToGlib for "@ + name + " {\n    type GlibType = ffi::"@ + native_name
        + ";\n\n    fn to_glib(&self) -> ffi::"@ + native_name + " {\n        ffi::"@
        + native_name + "::from_bits_truncate(self.bits())\n    }\n}\n\n"@
}

/// The conversion from the native counterpart. With `safety_asserts` it
/// first runs the initialization check.
pub open spec fn from_native_text(
    name: Seq<char>,
    native_name: Seq<char>,
    safety_asserts: bool,
) -> Seq<char> {
    "#[doc(hidden)]\nimpl FromGlib<ffi::"@ + native_name + "> for "@ + name
        + " {\n    fn from_glib(value: ffi::"@ + native_name + ") -> "@ + name + " {\n        "@
        + (if safety_asserts {
        "skip_assert_initialized!();\n\t\t"@
    } else {
        Seq::empty()
    }) + name + "::from_bits_truncate(value.bits())\n    }\n}\n\n"@
}

/// The accessor of the runtime type handle, which calls the registration
/// function.
pub open spec fn static_type_text(name: Seq<char>, registration: Seq<char>) -> Seq<char> {
    "impl StaticType for "@ + name
        + " {\n    fn static_type() -> Type {\n        unsafe { from_glib(ffi::"@ + registration
        + "()) }\n    }\n}\n\n"@
}

/// The extraction of an optional instance from a dynamic value; it always
/// yields an instance.
pub open spec fn from_value_optional_text(name: Seq<char>) -> Seq<char> {
    "impl<'a> FromValueOptional<'a> for "@ + name
        + " {\n    unsafe fn from_value_optional(value: &Value) -> Option<Self> {\n        Some(FromValue::from_value(value))\n    }\n}\n\n"@
}

/// The extraction of an instance from a dynamic value.
pub open spec fn from_value_text(name: Seq<char>, native_name: Seq<char>) -> Seq<char> {
    "impl<'a> FromValue<'a> for "@ + name
        + " {\n    unsafe fn from_value(value: &Value) -> Self {\n        from_glib(ffi::"@
        + native_name
        + "::from_bits_truncate(gobject_ffi::g_value_get_flags(value.to_glib_none().0)))\n    }\n}\n\n"@
}

/// The storing of an instance into a dynamic value.
pub open spec fn set_value_text(name: Seq<char>) -> Seq<char> {
    "impl SetValue for "@ + name
        + " {\n    unsafe fn set_value(value: &mut Value, this: &Self) {\n        gobject_ffi::g_value_set_flags(value.to_glib_none_mut().0, this.to_glib().bits())\n    }\n}\n\n"@
}

/// The text of one block: its guard, then its declaration.
pub open spec fn block_text(block: BlockModel) -> Seq<char> {
    block.guard + block.body
}

/// The piece that each block adds to a fragment.
pub open spec fn block_part() -> spec_fn(BlockModel) -> Seq<char> {
    |block: BlockModel| block_text(block)
}

/// The text of a run of blocks.
pub open spec fn blocks_text(blocks: Seq<BlockModel>) -> Seq<char> {
    joined(blocks, block_part())
}

/// Writes the declaration of the type with its constants.
pub fn type_declaration(name: &str, must_use: bool, constants: &Vec<Constant>) -> (body: String)
    ensures
        body@ == declaration_text(name@, must_use, constants.deep_view()),
{
    let mut body = String::from_str("bitflags! {\n");
    if must_use {
        body.append("    #[must_use]\n");
    }
    body.append("    pub struct ");
    body.append(name);
    body.append(": u32 {\n");
    let ghost head = body@;
    let mut i: usize = 0;
    proof {
        lemma_joined_empty(constant_part());
    }
    while i < constants.len()
        invariant
            i <= constants.len(),
            body@ == head + constants_text(constants.deep_view().take(i as int)),
        decreases constants.len() - i,
    {
        let line = render_constant(&constants[i]);
        proof {
            lemma_joined_take(constants.deep_view(), i as int, constant_part());
        }
        body.append(line.as_str());
        i = i + 1;
    }
    assert(constants.deep_view().take(i as int) =~= constants.deep_view());
    body.append("    }\n}\n\n");
    body
}

/// Writes the conversion to the native counterpart.
pub fn to_native_block(name: &str, native_name: &str) -> (body: String)
    ensures
        body@ == to_native_text(name@, native_name@),
{
    let mut body = String::from_str("#[doc(hidden)]\nimpl ToGlib for ");
    body.append(name);
    body.append(" {\n    type GlibType = ffi::");
    body.append(native_name);
    body.append(";\n\n    fn to_glib(&self) -> ffi::");
    body.append(native_name);
    body.append(" {\n        ffi::");
    body.append(native_name);
    body.append("::from_bits_truncate(self.bits())\n    }\n}\n\n");
    body
}

/// Writes the conversion from the native counterpart.
pub fn from_native_block(name: &str, native_name: &str, safety_asserts: bool) -> (body: String)
    ensures
        body@ == from_native_text(name@, native_name@, safety_asserts),
{
    let mut body = String::from_str("#[doc(hidden)]\nimpl FromGlib<ffi::");
    body.append(native_name);
    body.append("> for ");
    body.append(name);
    body.append(" {\n    fn from_glib(value: ffi::");
    body.append(native_name);
    body.append(") -> ");
    body.append(name);
    body.append(" {\n        ");
    if safety_asserts {
        body.append("skip_assert_initialized!();\n\t\t");
    }
    body.append(name);
    body.append("::from_bits_truncate(value.bits())\n    }\n}\n\n");
    body
}

/// Writes the accessor of the runtime type handle.
pub fn static_type_block(name: &str, registration: &str) -> (body: String)
    ensures
        body@ == static_type_text(name@, registration@),
{
    let mut body = String::from_str("impl StaticType for ");
    body.append(name);
    body.append(" {\n    fn static_type() -> Type {\n        unsafe { from_glib(ffi::");
    body.append(registration);
    body.append("()) }\n    }\n}\n\n");
    body
}

/// Writes the extraction of an optional instance from a dynamic value.
pub fn from_value_optional_block(name: &str) -> (body: String)
    ensures
        body@ == from_value_optional_text(name@),
{
    let mut body = String::from_str("impl<'a> FromValueOptional<'a> for ");
    body.append(name);
    body.append(
        " {\n    unsafe fn from_value_optional(value: &Value) -> Option<Self> {\n        Some(FromValue::from_value(value))\n    }\n}\n\n",
    );
    body
}

/// Writes the extraction of an instance from a dynamic value.
pub fn from_value_block(name: &str, native_name: &str) -> (body: String)
    ensures
        body@ == from_value_text(name@, native_name@),
{
    let mut body = String::from_str("impl<'a> FromValue<'a> for ");
    body.append(name);
    body.append(
        " {\n    unsafe fn from_value(value: &Value) -> Self {\n        from_glib(ffi::",
    );
    body.append(native_name);
    body.append(
        "::from_bits_truncate(gobject_ffi::g_value_get_flags(value.to_glib_none().0)))\n    }\n}\n\n",
    );
    body
}

/// Writes the storing of an instance into a dynamic value.
pub fn set_value_block(name: &str) -> (body: String)
    ensures
        body@ == set_value_text(name@),
{
    let mut body = String::from_str("impl SetValue for ");
    body.append(name);
    body.append(
        " {\n    unsafe fn set_value(value: &mut Value, this: &Self) {\n        gobject_ffi::g_value_set_flags(value.to_glib_none_mut().0, this.to_glib().bits())\n    }\n}\n\n",
    );
    body
}

/// Writes blocks out, one after the other.
pub fn render_blocks(blocks: &Vec<Block>) -> (text: String)
    ensures
        text@ == blocks_text(blocks.deep_view()),
{
    let mut text = String::new();
    let mut i: usize = 0;
    proof {
        lemma_joined_empty(block_part());
    }
    while i < blocks.len()
        invariant
            i <= blocks.len(),
            text@ == blocks_text(blocks.deep_view().take(i as int)),
        decreases blocks.len() - i,
    {
        proof {
            lemma_joined_take(blocks.deep_view(), i as int, block_part());
        }
        text.append(blocks[i].guard.as_str());
        text.append(blocks[i].body.as_str());
        i = i + 1;
    }
    assert(blocks.deep_view().take(i as int) =~= blocks.deep_view());
    text
}

} // verus!
