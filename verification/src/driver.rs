//! The module driver: from all configured types to the text of the module
//! that holds the flag types, and to the directives that wire the module
//! into its parent.

use crate::constants::{malformed_at, EmitError};
use crate::emitter::{fragment_text, generate_flags};
use crate::imports::{distinct_paths, has_path, uses_text, ImportModel, ImportSet};
use crate::model::{
    ConfiguredType, ConfiguredTypeModel, FlagTypeDescriptor, FlagTypeModel, Settings,
    SettingsModel, TypeKind, TypeKindModel,
};
use crate::text::{joined, lemma_joined_empty, lemma_joined_push};
use vstd::prelude::*;

verus! {

/// Why a module could not be produced: the member at position `member` of
/// the configured type at position `type_index` has a value that is no
/// literal.
#[derive(Clone, Copy, Debug, PartialEq, Eq)]
pub struct GenerateError {
    pub type_index: usize,
    pub member: usize,
}

/// The descriptor that a configured type is generated from. There is one
/// exactly when the type is marked for generation, resolves to a type of the
/// primary namespace, and that type is a flag type.
pub open spec fn flags_of(configured: ConfiguredTypeModel) -> Option<FlagTypeModel> {
    match configured.resolved {
        Some(resolved) => if configured.overrides.generate && resolved.primary_namespace {
            match resolved.kind {
                TypeKindModel::Flags(descriptor) => Some(descriptor),
                TypeKindModel::Other => None,
            }
        } else {
            None
        },
        None => None,
    }
}

/// Whether code is generated for a configured type.
pub open spec fn qualifies(configured: ConfiguredTypeModel) -> bool {
    flags_of(configured) is Some
}

/// The test that keeps the qualifying types.
pub open spec fn qualifying_test() -> spec_fn(ConfiguredTypeModel) -> bool {
    |configured: ConfiguredTypeModel| qualifies(configured)
}

/// The types that code is generated for, in input order.
pub open spec fn qualifying(types: Seq<ConfiguredTypeModel>) -> Seq<ConfiguredTypeModel> {
    types.filter(qualifying_test())
}

/// Whether some qualifying type has a registration function.
pub open spec fn any_registration(types: Seq<ConfiguredTypeModel>) -> bool {
    exists|i: int|
        0 <= i < types.len() && (match flags_of(#[trigger] types[i]) {
            Some(descriptor) => descriptor.registration is Some,
            None => false,
        })
}

/// An import without a version.
pub open spec fn plain_import(path: Seq<char>) -> ImportModel {
    ImportModel { path, version: None }
}

/// The imports that every module of flag types needs: the native
/// declarations and the base conversion traits.
pub open spec fn base_imports() -> Seq<ImportModel> {
    seq![plain_import("ffi"@), plain_import("glib::translate::*"@)]
}

/// The imports that the blocks of a registered type need: the runtime type
/// handle and its accessor trait, the dynamic value and its conversion
/// traits, and the native declarations of the object system.
pub open spec fn runtime_imports() -> Seq<ImportModel> {
    seq![
        plain_import("glib::Type"@),
        plain_import("glib::StaticType"@),
        plain_import("glib::value::Value"@),
        plain_import("glib::value::SetValue"@),
        plain_import("glib::value::FromValue"@),
        plain_import("glib::value::FromValueOptional"@),
        plain_import("gobject_ffi"@),
    ]
}

/// The imports of the module. The runtime imports are decided once for the
/// whole file: they are there as soon as one qualifying type has a
/// registration function, however many have one.
pub open spec fn shared_imports_of(types: Seq<ConfiguredTypeModel>) -> Seq<ImportModel> {
    if any_registration(types) {
        base_imports() + runtime_imports()
    } else {
        base_imports()
    }
}

/// The directives of one type: the guard of its version, where it has one,
/// then its re-export.
pub open spec fn type_directives(configured: ConfiguredTypeModel) -> Seq<Seq<char>>
    recommends
        qualifies(configured),
{
    let descriptor = flags_of(configured).unwrap();
    (match descriptor.version {
        Some(Some(line)) => seq![line],
        _ => Seq::empty(),
    }) + seq!["pub use self::flags::"@ + descriptor.name + ";"@]
}

/// The piece that each qualifying type adds to the directives.
pub open spec fn directive_part() -> spec_fn(ConfiguredTypeModel) -> Seq<Seq<char>> {
    |configured: ConfiguredTypeModel| type_directives(configured)
}

/// The directives for the parent module: the declaration of the submodule,
/// once and only if some type qualifies, then the directives of each
/// qualifying type in input order.
pub open spec fn directives_of(types: Seq<ConfiguredTypeModel>) -> Seq<Seq<char>> {
    let chosen = qualifying(types);
    (if chosen.len() > 0 {
        seq!["\nmod flags;"@]
    } else {
        Seq::empty()
    }) + joined(chosen, directive_part())
}

/// The piece that each qualifying type adds to the module: its fragment.
pub open spec fn fragment_part(safety_asserts: bool) -> spec_fn(ConfiguredTypeModel) -> Seq<char> {
    |configured: ConfiguredTypeModel|
        fragment_text(flags_of(configured).unwrap(), configured.overrides, safety_asserts)
}

/// The fragments of the qualifying types, in input order.
pub open spec fn fragments_text(types: Seq<ConfiguredTypeModel>, safety_asserts: bool) -> Seq<char> {
    joined(qualifying(types), fragment_part(safety_asserts))
}

/// The text of the module: the header, the imports, then, if some type
/// qualifies, a blank line and the fragment of each qualifying type in input
/// order.
pub open spec fn module_text(types: Seq<ConfiguredTypeModel>, settings: SettingsModel) -> Seq<char> {
    settings.header + uses_text(shared_imports_of(types)) + (if qualifying(types).len() > 0 {
        "\n"@
    } else {
        Seq::empty()
    }) + fragments_text(types, settings.generate_safety_asserts)
}

/// Whether the member at position `member` of the configured type at
/// position `i` is emitted and has a value that is no literal.
pub open spec fn member_malformed(types: Seq<ConfiguredTypeModel>, i: int, member: int) -> bool {
    &&& 0 <= i < types.len()
    &&& match flags_of(types[i]) {
        Some(descriptor) => malformed_at(descriptor.members, types[i].overrides.members, member),
        None => false,
    }
}

/// Every member that the pass emits has a literal for its value.
pub open spec fn pass_well_formed(types: Seq<ConfiguredTypeModel>) -> bool {
    forall|i: int, member: int| !member_malformed(types, i, member)
}

/// The error names the first member, of the first type in input order, that
/// the pass would emit and whose value is no literal.
pub open spec fn first_failure(types: Seq<ConfiguredTypeModel>, error: GenerateError) -> bool {
    &&& member_malformed(types, error.type_index as int, error.member as int)
    &&& forall|i: int, member: int|
        0 <= i < error.type_index ==> !member_malformed(types, i, member)
    &&& forall|member: int|
        0 <= member < error.member ==> !member_malformed(types, error.type_index as int, member)
}

/// The descriptor that a configured type is generated from, if it qualifies.
pub fn qualifying_flags(configured: &ConfiguredType) -> (found: Option<&FlagTypeDescriptor>)
    ensures
        match found {
            Some(descriptor) => flags_of(configured@) == Some(descriptor@),
            None => flags_of(configured@) is None,
        },
{
    if !configured.overrides.generate {
        return None;
    }
    match &configured.resolved {
        Some(resolved) => {
            if !resolved.primary_namespace {
                return None;
            }
            match &resolved.kind {
                TypeKind::Flags(descriptor) => Some(descriptor),
                TypeKind::Other => None,
            }
        },
        None => None,
    }
}

/// Whether some qualifying type has a registration function.
pub fn needs_runtime_imports(types: &Vec<ConfiguredType>) -> (needed: bool)
    ensures
        needed == any_registration(types.deep_view()),
{
    let mut i: usize = 0;
    while i < types.len()
        invariant
            i <= types.len(),
            forall|j: int|
                0 <= j < i ==> (match flags_of(#[trigger] types.deep_view()[j]) {
                    Some(descriptor) => descriptor.registration is None,
                    None => true,
                }),
        decreases types.len() - i,
    {
        assert(types.deep_view()[i as int] == types[i as int]@);
        match qualifying_flags(&types[i]) {
            Some(descriptor) => {
                if descriptor.registration.is_some() {
                    return true;
                }
            },
            None => {},
        }
        i = i + 1;
    }
    false
}

/// The paths of the base and of the runtime imports are nine different texts.
proof fn lemma_import_paths_differ()
    ensures
        "ffi"@.len() == 3,
        "glib::translate::*"@.len() == 18,
        "glib::Type"@.len() == 10,
        "glib::StaticType"@.len() == 16,
        "glib::value::Value"@.len() == 18,
        "glib::value::SetValue"@.len() == 21,
        "glib::value::FromValue"@.len() == 22,
        "glib::value::FromValueOptional"@.len() == 30,
        "gobject_ffi"@.len() == 11,
        "glib::translate::*"@[6] != "glib::value::Value"@[6],
{
    reveal_strlit("ffi");
    reveal_strlit("glib::translate::*");
    reveal_strlit("glib::Type");
    reveal_strlit("glib::StaticType");
    reveal_strlit("glib::value::Value");
    reveal_strlit("glib::value::SetValue");
    reveal_strlit("glib::value::FromValue");
    reveal_strlit("glib::value::FromValueOptional");
    reveal_strlit("gobject_ffi");
}

/// The imports of a module: the base imports are always there; each runtime
/// import is there exactly when some qualifying type has a registration
/// function; and no path is there twice, however many types have one.
pub proof fn lemma_shared_imports(types: Seq<ConfiguredTypeModel>)
    ensures
        distinct_paths(shared_imports_of(types)),
        forall|i: int|
            0 <= i < base_imports().len() ==> has_path(
                shared_imports_of(types),
                (#[trigger] base_imports()[i]).path,
            ),
        forall|i: int|
            0 <= i < runtime_imports().len() ==> (has_path(
                shared_imports_of(types),
                (#[trigger] runtime_imports()[i]).path,
            ) <==> any_registration(types)),
{
    lemma_import_paths_differ();
    let shared = shared_imports_of(types);
    let base = base_imports();
    let runtime = runtime_imports();
    assert forall|i: int| 0 <= i < base.len() implies has_path(shared, (#[trigger] base[i]).path) by {
        assert(shared[i] == base[i]);
    }
    assert forall|i: int| 0 <= i < runtime.len() implies (has_path(
        shared,
        (#[trigger] runtime[i]).path,
    ) <==> any_registration(types)) by {
        if any_registration(types) {
            assert(shared[i + 2] == runtime[i]);
        }
    }
}

/// Fragments and directives follow the configured types one by one, so both
/// come in input order and a type never changes what stands before it. A
/// type that does not qualify adds nothing. A qualifying type adds its
/// fragment at the end of the fragments and its directives at the end of the
/// directives, behind the declaration of the submodule if it is the first.
pub proof fn lemma_output_follows_types(
    types: Seq<ConfiguredTypeModel>,
    configured: ConfiguredTypeModel,
    safety_asserts: bool,
)
    ensures
        fragments_text(Seq::empty(), safety_asserts) == Seq::<char>::empty(),
        directives_of(Seq::empty()) == Seq::<Seq<char>>::empty(),
        !qualifies(configured) ==> fragments_text(types.push(configured), safety_asserts)
            == fragments_text(types, safety_asserts) && directives_of(types.push(configured))
            == directives_of(types),
        qualifies(configured) ==> fragments_text(types.push(configured), safety_asserts)
            == fragments_text(types, safety_asserts) + fragment_text(
            flags_of(configured).unwrap(),
            configured.overrides,
            safety_asserts,
        ),
        qualifies(configured) ==> directives_of(types.push(configured)) == directives_of(types)
            + (if qualifying(types).len() == 0 {
            seq!["\nmod flags;"@]
        } else {
            Seq::empty()
        }) + type_directives(configured),
{
    reveal(Seq::filter);
    lemma_joined_empty(fragment_part(safety_asserts));
    lemma_joined_empty(directive_part());
    types.lemma_filter_push(configured, qualifying_test());
    if qualifies(configured) {
        lemma_joined_push(qualifying(types), configured, fragment_part(safety_asserts));
        lemma_joined_push(qualifying(types), configured, directive_part());
    }
}

/// Collects the imports of the module.
pub fn shared_imports(types: &Vec<ConfiguredType>) -> (imports: ImportSet)
    ensures
        imports@ == shared_imports_of(types.deep_view()),
{
    proof {
        lemma_import_paths_differ();
    }
    let mut imports = ImportSet::new();
    imports.add("ffi", None);
    imports.add("glib::translate::*", None);
    if needs_runtime_imports(types) {
        imports.add("glib::Type", None);
        imports.add("glib::StaticType", None);
        imports.add("glib::value::Value", None);
        imports.add("glib::value::SetValue", None);
        imports.add("glib::value::FromValue", None);
        imports.add("glib::value::FromValueOptional", None);
        imports.add("gobject_ffi", None);
    }
    imports
}

/// Writes the directives of one qualifying type.
fn push_type_directives(
    directives: &mut Vec<String>,
    configured: &ConfiguredType,
    descriptor: &FlagTypeDescriptor,
)
    requires
        flags_of(configured@) == Some(descriptor@),
    ensures
        final(directives).deep_view() == old(directives).deep_view() + type_directives(
            configured@,
        ),
{
    match &descriptor.version {
        Some(version) => match &version.guard {
            Some(line) => {
                directives.push(line.clone());
            },
            None => {},
        },
        None => {},
    }
    let mut export = String::from_str("pub use self::flags::");
    export.append(descriptor.name.as_str());
    export.append(";");
    directives.push(export);
}

/// Generates the module of flag types.
///
/// The result is the text of the module. The directives that the parent
/// module needs are appended to `mod_rs`: the declaration of the submodule
/// before the first type, then for each type the guard of its version, where
/// it has one, and its re-export.
///
/// The pass is all or nothing. It fails exactly when a member that would be
/// emitted has a value that is no literal; the error names the first such
/// member of the first such type, and `mod_rs` is left as it was.
pub fn generate(types: &Vec<ConfiguredType>, settings: &Settings, mod_rs: &mut Vec<String>) -> (result:
    Result<String, GenerateError>)
    ensures
        match result {
            Ok(text) => {
                &&& pass_well_formed(types.deep_view())
                &&& text@ == module_text(types.deep_view(), settings@)
                &&& final(mod_rs).deep_view() == old(mod_rs).deep_view() + directives_of(
                    types.deep_view(),
                )
            },
            Err(error) => {
                &&& first_failure(types.deep_view(), error)
                &&& *final(mod_rs) == *old(mod_rs)
            },
        },
{
    let ghost all = types.deep_view();
    let safety_asserts = settings.generate_safety_asserts;
    let mut fragments = String::new();
    let mut directives: Vec<String> = Vec::new();
    let mut first = true;
    let mut i: usize = 0;
    proof {
        reveal(Seq::filter);
        lemma_joined_empty(fragment_part(safety_asserts));
        lemma_joined_empty(directive_part());
    }
    while i < types.len()
        invariant
            i <= types.len(),
            all == types.deep_view(),
            safety_asserts == settings@.generate_safety_asserts,
            *mod_rs == *old(mod_rs),
            forall|j: int, member: int| 0 <= j < i ==> !member_malformed(all, j, member),
            first == (qualifying(all.take(i as int)).len() == 0),
            fragments@ == fragments_text(all.take(i as int), safety_asserts),
            directives.deep_view() == directives_of(all.take(i as int)),
        decreases types.len() - i,
    {
        let configured = &types[i];
        let ghost chosen = qualifying(all.take(i as int));
        proof {
            assert(all.take(i + 1) =~= all.take(i as int).push(all[i as int]));
            all.take(i as int).lemma_filter_push(all[i as int], qualifying_test());
        }
        match qualifying_flags(configured) {
            Some(descriptor) => {
                match generate_flags(descriptor, &configured.overrides, safety_asserts) {
                    Ok(fragment) => {
                        if first {
                            directives.push(String::from_str("\nmod flags;"));
                            first = false;
                        }
                        push_type_directives(&mut directives, configured, descriptor);
                        fragments.append(fragment.as_str());
                        proof {
                            lemma_joined_push(chosen, configured@, fragment_part(safety_asserts));
                            lemma_joined_push(chosen, configured@, directive_part());
                        }
                    },
                    Err(EmitError::MalformedValue { member }) => {
                        return Err(GenerateError { type_index: i, member });
                    },
                }
            },
            None => {},
        }
        i = i + 1;
    }
    assert(all.take(i as int) =~= all);
    let imports = shared_imports(types);
    let uses = imports.render();
    let mut text = settings.header.clone();
    text.append(uses.as_str());
    if !first {
        text.append("\n");
    }
    text.append(fragments.as_str());
    mod_rs.append(&mut directives);
    Ok(text)
}

} // verus!
