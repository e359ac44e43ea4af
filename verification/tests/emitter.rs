use flags_codegen::blocks::{
    from_native_block, from_value_block, from_value_optional_block, render_blocks,
    set_value_block, static_type_block, to_native_block, type_declaration, Block, BlockKind,
};
use flags_codegen::constants::{
    emitted_constants, make_constant, render_constant, Constant, EmitError,
};
use flags_codegen::emitter::{flag_blocks, generate_flags, type_guard};
use flags_codegen::overrides::{is_ignored, member_guard};
use flags_codegen::model::{
    FlagTypeDescriptor, MemberDescriptor, MemberOverride, TypeOverride, Version,
};

fn member(name: &str, value: &str) -> MemberDescriptor {
    MemberDescriptor { name: name.to_string(), value: value.to_string() }
}

fn flags(registration: Option<&str>) -> FlagTypeDescriptor {
    FlagTypeDescriptor {
        name: "Flags".to_string(),
        native_name: "MyFlags".to_string(),
        version: None,
        deprecated_version: None,
        registration: registration.map(|name| name.to_string()),
        members: vec![member("A", "1"), member("B", "2")],
    }
}

fn no_overrides() -> TypeOverride {
    TypeOverride { generate: true, must_use: false, members: Vec::new() }
}

fn record(name: &str) -> MemberOverride {
    MemberOverride {
        name: name.to_string(),
        ignore: false,
        deprecated_version: None,
        version: None,
    }
}

fn ignore(name: &str) -> MemberOverride {
    MemberOverride { ignore: true, ..record(name) }
}

fn guard(line: &str) -> Option<Version> {
    Some(Version { guard: Some(line.to_string()) })
}

fn silent() -> Option<Version> {
    Some(Version { guard: None })
}

const DECLARATION: &str = "bitflags! {
    pub struct Flags: u32 {
\t\tconst A = 1;
\t\tconst B = 2;
    }
}

";

const TO_NATIVE: &str = "#[doc(hidden)]
impl ToGlib for Flags {
    type GlibType = ffi::MyFlags;

    fn to_glib(&self) -> ffi::MyFlags {
        ffi::MyFlags::from_bits_truncate(self.bits())
    }
}

";

const FROM_NATIVE: &str = "#[doc(hidden)]
impl FromGlib<ffi::MyFlags> for Flags {
    fn from_glib(value: ffi::MyFlags) -> Flags {
        Flags::from_bits_truncate(value.bits())
    }
}

";

const FROM_NATIVE_CHECKED: &str = "#[doc(hidden)]
impl FromGlib<ffi::MyFlags> for Flags {
    fn from_glib(value: ffi::MyFlags) -> Flags {
        skip_assert_initialized!();
\t\tFlags::from_bits_truncate(value.bits())
    }
}

";

const STATIC_TYPE: &str = "impl StaticType for Flags {
    fn static_type() -> Type {
        unsafe { from_glib(ffi::my_flags_get_type()) }
    }
}

";

const FROM_VALUE_OPTIONAL: &str = "impl<'a> FromValueOptional<'a> for Flags {
    unsafe fn from_value_optional(value: &Value) -> Option<Self> {
        Some(FromValue::from_value(value))
    }
}

";

const FROM_VALUE: &str = "impl<'a> FromValue<'a> for Flags {
    unsafe fn from_value(value: &Value) -> Self {
        from_glib(ffi::MyFlags::from_bits_truncate(gobject_ffi::g_value_get_flags(value.to_glib_none().0)))
    }
}

";

const SET_VALUE: &str = "impl SetValue for Flags {
    unsafe fn set_value(value: &mut Value, this: &Self) {
        gobject_ffi::g_value_set_flags(value.to_glib_none_mut().0, this.to_glib().bits())
    }
}

";

fn kinds(blocks: &[Block]) -> Vec<BlockKind> {
    blocks.iter().map(|block| block.kind).collect()
}

#[test]
fn plain_type_gets_declaration_and_native_conversions() {
    let text = generate_flags(&flags(None), &no_overrides(), false).unwrap();
    assert_eq!(text, format!("{}{}{}", DECLARATION, TO_NATIVE, FROM_NATIVE));
}

#[test]
fn plain_type_gets_no_registration_block() {
    let blocks = flag_blocks(&flags(None), &no_overrides(), false).unwrap();
    assert_eq!(
        kinds(&blocks),
        vec![BlockKind::TypeDeclaration, BlockKind::ToNative, BlockKind::FromNative]
    );
    let text = render_blocks(&blocks);
    assert!(!text.contains("StaticType"));
    assert!(!text.contains("FromValueOptional"));
    assert!(!text.contains("FromValue"));
    assert!(!text.contains("SetValue"));
    assert!(!text.contains("gobject_ffi"));
}

#[test]
fn ignored_member_is_left_out() {
    let overrides =
        TypeOverride { generate: true, must_use: false, members: vec![ignore("B")] };
    let text = generate_flags(&flags(None), &overrides, false).unwrap();
    let declaration = "bitflags! {
    pub struct Flags: u32 {
\t\tconst A = 1;
    }
}

";
    assert_eq!(text, format!("{}{}{}", declaration, TO_NATIVE, FROM_NATIVE));
    assert!(!text.contains("const B"));
}

#[test]
fn registered_type_gets_accessor_and_value_conversions() {
    let descriptor = flags(Some("my_flags_get_type"));
    let text = generate_flags(&descriptor, &no_overrides(), false).unwrap();
    assert_eq!(
        text,
        format!(
            "{}{}{}{}{}{}{}",
            DECLARATION,
            TO_NATIVE,
            FROM_NATIVE,
            STATIC_TYPE,
            FROM_VALUE_OPTIONAL,
            FROM_VALUE,
            SET_VALUE
        )
    );
    assert!(text.contains("from_glib(ffi::my_flags_get_type())"));
    assert_eq!(text.matches("ffi::MyFlags::from_bits_truncate").count(), 2);
}

#[test]
fn registered_type_gets_every_kind_of_block_once() {
    let blocks = flag_blocks(&flags(Some("my_flags_get_type")), &no_overrides(), true).unwrap();
    assert_eq!(
        kinds(&blocks),
        vec![
            BlockKind::TypeDeclaration,
            BlockKind::ToNative,
            BlockKind::FromNative,
            BlockKind::StaticType,
            BlockKind::FromValueOptional,
            BlockKind::FromValue,
            BlockKind::SetValue,
        ]
    );
    assert_eq!(blocks[3].body, STATIC_TYPE);
    assert_eq!(blocks[4].body, FROM_VALUE_OPTIONAL);
    assert_eq!(blocks[5].body, FROM_VALUE);
    assert_eq!(blocks[6].body, SET_VALUE);
    let text = render_blocks(&blocks);
    assert_eq!(text.matches("impl StaticType for Flags").count(), 1);
    assert_eq!(text.matches("impl<'a> FromValueOptional<'a> for Flags").count(), 1);
    assert_eq!(text.matches("impl<'a> FromValue<'a> for Flags").count(), 1);
    assert_eq!(text.matches("impl SetValue for Flags").count(), 1);
}

#[test]
fn every_block_stands_under_the_guard_of_the_type() {
    let mut descriptor = flags(Some("my_flags_get_type"));
    descriptor.version = guard("#[cfg(feature = \"v2_4\")]");
    descriptor.deprecated_version = guard("#[cfg_attr(feature = \"v2_8\", deprecated)]");
    let lines = "#[cfg_attr(feature = \"v2_8\", deprecated)]\n#[cfg(feature = \"v2_4\")]\n";
    assert_eq!(type_guard(&descriptor), lines);
    let blocks = flag_blocks(&descriptor, &no_overrides(), false).unwrap();
    assert_eq!(blocks.len(), 7);
    for block in &blocks {
        assert_eq!(block.guard, lines);
    }
    let text = generate_flags(&descriptor, &no_overrides(), false).unwrap();
    assert_eq!(
        text,
        format!(
            "{g}{}{g}{}{g}{}{g}{}{g}{}{g}{}{g}{}",
            DECLARATION,
            TO_NATIVE,
            FROM_NATIVE,
            STATIC_TYPE,
            FROM_VALUE_OPTIONAL,
            FROM_VALUE,
            SET_VALUE,
            g = lines
        )
    );
}

#[test]
fn version_without_guard_writes_nothing() {
    let mut descriptor = flags(None);
    descriptor.version = silent();
    descriptor.deprecated_version = silent();
    assert_eq!(type_guard(&descriptor), "");
    let text = generate_flags(&descriptor, &no_overrides(), false).unwrap();
    assert_eq!(text, format!("{}{}{}", DECLARATION, TO_NATIVE, FROM_NATIVE));
}

#[test]
fn only_one_guard_of_the_type_may_be_there() {
    let mut descriptor = flags(None);
    descriptor.version = guard("#[cfg(v)]");
    assert_eq!(type_guard(&descriptor), "#[cfg(v)]\n");
    descriptor.version = None;
    descriptor.deprecated_version = guard("#[deprecated]");
    assert_eq!(type_guard(&descriptor), "#[deprecated]\n");
}

#[test]
fn must_use_marks_the_type() {
    let overrides = TypeOverride { generate: true, must_use: true, members: Vec::new() };
    let text = generate_flags(&flags(None), &overrides, false).unwrap();
    let declaration = "bitflags! {
    #[must_use]
    pub struct Flags: u32 {
\t\tconst A = 1;
\t\tconst B = 2;
    }
}

";
    assert_eq!(text, format!("{}{}{}", declaration, TO_NATIVE, FROM_NATIVE));
}

#[test]
fn safety_asserts_check_before_the_conversion() {
    let text = generate_flags(&flags(None), &no_overrides(), true).unwrap();
    assert_eq!(text, format!("{}{}{}", DECLARATION, TO_NATIVE, FROM_NATIVE_CHECKED));
    assert_eq!(from_native_block("Flags", "MyFlags", true), FROM_NATIVE_CHECKED);
    assert_eq!(from_native_block("Flags", "MyFlags", false), FROM_NATIVE);
}

#[test]
fn member_names_are_written_in_upper_case() {
    let mut descriptor = flags(None);
    descriptor.members = vec![member("read_only", "1"), member("Hidden", "2"), member("ß", "4")];
    let constants = emitted_constants(&descriptor.members, &Vec::new()).unwrap();
    let names: Vec<&str> = constants.iter().map(|constant| constant.name.as_str()).collect();
    assert_eq!(names, vec!["READ_ONLY", "HIDDEN", "SS"]);
    let text = generate_flags(&descriptor, &no_overrides(), false).unwrap();
    assert!(text.contains("\t\tconst READ_ONLY = 1;\n\t\tconst HIDDEN = 2;\n\t\tconst SS = 4;\n"));
    assert!(!text.contains("read_only"));
}

#[test]
fn member_values_are_cut_down_to_32_bits() {
    let mut descriptor = flags(None);
    descriptor.members = vec![
        member("ALL", "-1"),
        member("HIGH", "2147483648"),
        member("LOW", "-2147483648"),
        member("OVER", "4294967296"),
        member("MIXED", "4294967298"),
        member("TOP", "9223372036854775807"),
        member("BOTTOM", "-9223372036854775808"),
        member("PLUS", "+8"),
    ];
    let constants = emitted_constants(&descriptor.members, &Vec::new()).unwrap();
    let bits: Vec<u32> = constants.iter().map(|constant| constant.bits).collect();
    assert_eq!(bits, vec![4294967295, 2147483648, 2147483648, 0, 2, 4294967295, 0, 8]);
    let text = generate_flags(&descriptor, &no_overrides(), false).unwrap();
    assert!(text.contains(
        "\t\tconst ALL = 4294967295;\n\t\tconst HIGH = 2147483648;\n\t\tconst LOW = 2147483648;\n\t\tconst OVER = 0;\n\t\tconst MIXED = 2;\n\t\tconst TOP = 4294967295;\n\t\tconst BOTTOM = 0;\n\t\tconst PLUS = 8;\n"
    ));
}

#[test]
fn members_keep_their_order() {
    let mut descriptor = flags(None);
    descriptor.members = vec![
        member("d", "8"),
        member("a", "1"),
        member("c", "4"),
        member("b", "2"),
        member("e", "16"),
    ];
    let overrides = vec![ignore("c"), record("b"), ignore("zz"), ignore("d")];
    let constants = emitted_constants(&descriptor.members, &overrides).unwrap();
    let names: Vec<&str> = constants.iter().map(|constant| constant.name.as_str()).collect();
    assert_eq!(names, vec!["A", "B", "E"]);
    let bits: Vec<u32> = constants.iter().map(|constant| constant.bits).collect();
    assert_eq!(bits, vec![1, 2, 16]);
}

#[test]
fn type_without_members_is_declared_empty() {
    let mut descriptor = flags(None);
    descriptor.members = Vec::new();
    assert_eq!(emitted_constants(&descriptor.members, &Vec::new()), Ok(Vec::new()));
    assert_eq!(
        type_declaration("Flags", false, &Vec::new()),
        "bitflags! {\n    pub struct Flags: u32 {\n    }\n}\n\n"
    );
    let mut all_ignored = flags(None);
    all_ignored.members = vec![member("A", "1"), member("A", "x")];
    assert_eq!(emitted_constants(&all_ignored.members, &vec![ignore("A")]), Ok(Vec::new()));
}

#[test]
fn ignore_takes_any_override_of_the_name() {
    let overrides = vec![record("A"), record("B"), ignore("A")];
    assert!(is_ignored(&overrides, &"A".to_string()));
    assert!(!is_ignored(&overrides, &"B".to_string()));
    assert!(!is_ignored(&overrides, &"C".to_string()));
    assert!(!is_ignored(&overrides, &"a".to_string()));
    assert!(!is_ignored(&Vec::new(), &"A".to_string()));
}

#[test]
fn member_guards_come_from_the_first_override_that_has_one() {
    let overrides = vec![
        MemberOverride { version: guard("\t\t#[cfg(other)]"), ..record("B") },
        record("A"),
        MemberOverride { deprecated_version: guard("\t\t#[deprecated_2]"), ..record("A") },
        MemberOverride {
            deprecated_version: guard("\t\t#[deprecated_3]"),
            version: guard("\t\t#[cfg(v3)]"),
            ..record("A")
        },
        MemberOverride { version: guard("\t\t#[cfg(v4)]"), ..record("A") },
    ];
    assert_eq!(member_guard(&overrides, &"A".to_string()), "\t\t#[deprecated_2]\n\t\t#[cfg(v3)]\n");
    let constant = make_constant("A".to_string(), 1, &overrides, &"A".to_string());
    assert_eq!(constant.guard, "\t\t#[deprecated_2]\n\t\t#[cfg(v3)]\n");
    assert_eq!(
        render_constant(&constant),
        "\t\t#[deprecated_2]\n\t\t#[cfg(v3)]\n\t\tconst A = 1;\n"
    );
    let other = make_constant("B".to_string(), 2, &overrides, &"B".to_string());
    assert_eq!(other.guard, "\t\t#[cfg(other)]\n");
    let none = make_constant("C".to_string(), 4, &overrides, &"C".to_string());
    assert_eq!(none.guard, "");
}

#[test]
fn first_version_wins_even_without_a_guard() {
    let overrides = vec![
        MemberOverride { version: silent(), ..record("A") },
        MemberOverride { version: guard("\t\t#[cfg(late)]"), ..record("A") },
    ];
    let constant = make_constant("A".to_string(), 1, &overrides, &"A".to_string());
    assert_eq!(constant.guard, "");
}

#[test]
fn member_guards_stand_ahead_of_their_constant() {
    let overrides = TypeOverride {
        generate: true,
        must_use: false,
        members: vec![MemberOverride {
            deprecated_version: guard("\t\t#[cfg_attr(feature = \"v3_2\", deprecated)]"),
            version: guard("\t\t#[cfg(feature = \"v3_0\")]"),
            ..record("B")
        }],
    };
    let text = generate_flags(&flags(None), &overrides, false).unwrap();
    let declaration = "bitflags! {
    pub struct Flags: u32 {
\t\tconst A = 1;
\t\t#[cfg_attr(feature = \"v3_2\", deprecated)]
\t\t#[cfg(feature = \"v3_0\")]
\t\tconst B = 2;
    }
}

";
    assert_eq!(text, format!("{}{}{}", declaration, TO_NATIVE, FROM_NATIVE));
}

#[test]
fn make_constant_wraps_the_value() {
    let constant = make_constant("X".to_string(), -1, &Vec::new(), &"x".to_string());
    assert_eq!(
        constant,
        Constant { name: "X".to_string(), bits: 4294967295, guard: String::new() }
    );
    assert_eq!(render_constant(&constant), "\t\tconst X = 4294967295;\n");
}

#[test]
fn malformed_value_fails_the_type() {
    let mut descriptor = flags(Some("my_flags_get_type"));
    descriptor.members = vec![member("A", "1"), member("B", "0x2"), member("C", "")];
    assert_eq!(
        generate_flags(&descriptor, &no_overrides(), false),
        Err(EmitError::MalformedValue { member: 1 })
    );
    assert_eq!(
        flag_blocks(&descriptor, &no_overrides(), false),
        Err(EmitError::MalformedValue { member: 1 })
    );
    assert_eq!(
        emitted_constants(&descriptor.members, &Vec::new()),
        Err(EmitError::MalformedValue { member: 1 })
    );
}

#[test]
fn value_out_of_64_bits_fails_the_type() {
    let mut descriptor = flags(None);
    descriptor.members = vec![member("A", "9223372036854775808")];
    assert_eq!(
        generate_flags(&descriptor, &no_overrides(), false),
        Err(EmitError::MalformedValue { member: 0 })
    );
}

#[test]
fn malformed_value_of_an_ignored_member_is_not_read() {
    let mut descriptor = flags(None);
    descriptor.members = vec![member("A", "one"), member("B", "2"), member("C", "three")];
    let overrides =
        TypeOverride { generate: true, must_use: false, members: vec![ignore("A")] };
    assert_eq!(
        generate_flags(&descriptor, &overrides, false),
        Err(EmitError::MalformedValue { member: 2 })
    );
    let both = TypeOverride {
        generate: true,
        must_use: false,
        members: vec![ignore("A"), ignore("C")],
    };
    let text = generate_flags(&descriptor, &both, false).unwrap();
    assert!(text.contains("    pub struct Flags: u32 {\n\t\tconst B = 2;\n    }\n"));
}

#[test]
fn blocks_are_written_with_the_given_names() {
    assert_eq!(to_native_block("Flags", "MyFlags"), TO_NATIVE);
    assert_eq!(static_type_block("Flags", "my_flags_get_type"), STATIC_TYPE);
    assert_eq!(from_value_optional_block("Flags"), FROM_VALUE_OPTIONAL);
    assert_eq!(from_value_block("Flags", "MyFlags"), FROM_VALUE);
    assert_eq!(set_value_block("Flags"), SET_VALUE);
    assert_eq!(
        to_native_block("WindowFlags", "GtkWindowFlags"),
        "#[doc(hidden)]\nimpl ToGlib for WindowFlags {\n    type GlibType = ffi::GtkWindowFlags;\n\n    fn to_glib(&self) -> ffi::GtkWindowFlags {\n        ffi::GtkWindowFlags::from_bits_truncate(self.bits())\n    }\n}\n\n"
    );
}

#[test]
fn render_blocks_writes_guard_then_body() {
    let blocks = vec![
        Block { kind: BlockKind::ToNative, guard: "g1\n".to_string(), body: "b1\n\n".to_string() },
        Block { kind: BlockKind::FromNative, guard: String::new(), body: "b2\n\n".to_string() },
    ];
    assert_eq!(render_blocks(&blocks), "g1\nb1\n\nb2\n\n");
    assert_eq!(render_blocks(&Vec::new()), "");
}
