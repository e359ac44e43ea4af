//! The data that one generation pass reads: flag type descriptors, the
//! overrides configured for them, and the pass settings. All of it is
//! read-only input.

use vstd::prelude::*;

verus! {

/// A version as generated code sees it.
///
/// The generator never looks at version numbers. What it needs of a version
/// is the guard line that a declaration carries on its account: the
/// condition that restricts the declaration to the version, where the
/// version is the one that introduced it, and the deprecation notice, where
/// it is the one that deprecated it. The line is taken as the project's
/// guard renderer wrote it for the place where the version is used: without
/// indentation for a version of a type or of an import, at the indentation
/// of a constant for a version of a member override. `guard` is `None` where
/// the renderer leaves declarations of this version unguarded.
#[derive(Clone, Debug, PartialEq, Eq)]
pub struct Version {
    pub guard: Option<String>,
}

/// The mathematical content of a [`Version`]: its guard line, if it has one.
pub type VersionModel = Option<Seq<char>>;

impl View for Version {
    type V = VersionModel;

    open spec fn view(&self) -> VersionModel {
        match self.guard {
            Some(line) => Some(line@),
            None => None,
        }
    }
}

impl DeepView for Version {
    type V = VersionModel;

    open spec fn deep_view(&self) -> VersionModel {
        self@
    }
}

/// One named bit constant of a flag type, as declared.
#[derive(Clone, Debug, PartialEq, Eq)]
pub struct MemberDescriptor {
    /// The name as declared; it is emitted in upper case.
    pub name: String,
    /// The value: a signed decimal literal.
    pub value: String,
}

/// The mathematical content of a [`MemberDescriptor`].
pub struct MemberModel {
    pub name: Seq<char>,
    pub value: Seq<char>,
}

impl View for MemberDescriptor {
    type V = MemberModel;

    open spec fn view(&self) -> MemberModel {
        MemberModel { name: self.name@, value: self.value@ }
    }
}

impl DeepView for MemberDescriptor {
    type V = MemberModel;

    open spec fn deep_view(&self) -> MemberModel {
        self@
    }
}

/// The complete description of one flag type.
#[derive(Clone, Debug, PartialEq, Eq)]
pub struct FlagTypeDescriptor {
    /// The name of the emitted type.
    pub name: String,
    /// The name of the native counterpart.
    pub native_name: String,
    /// The version that introduced the type.
    pub version: Option<Version>,
    /// The version that deprecated the type.
    pub deprecated_version: Option<Version>,
    /// The native function that registers the type with the runtime type
    /// system. Its presence makes the type usable in dynamic values.
    pub registration: Option<String>,
    /// The members; they are emitted in this order.
    pub members: Vec<MemberDescriptor>,
}

/// The mathematical content of a [`FlagTypeDescriptor`].
pub struct FlagTypeModel {
    pub name: Seq<char>,
    pub native_name: Seq<char>,
    pub version: Option<VersionModel>,
    pub deprecated_version: Option<VersionModel>,
    pub registration: Option<Seq<char>>,
    pub members: Seq<MemberModel>,
}

impl View for FlagTypeDescriptor {
    type V = FlagTypeModel;

    open spec fn view(&self) -> FlagTypeModel {
        FlagTypeModel {
            name: self.name@,
            native_name: self.native_name@,
            version: self.version.deep_view(),
            deprecated_version: self.deprecated_version.deep_view(),
            registration: self.registration.deep_view(),
            members: self.members.deep_view(),
        }
    }
}

impl DeepView for FlagTypeDescriptor {
    type V = FlagTypeModel;

    open spec fn deep_view(&self) -> FlagTypeModel {
        self@
    }
}

/// What the project configured for the members of one name.
#[derive(Clone, Debug, PartialEq, Eq)]
pub struct MemberOverride {
    /// The member name that this record applies to.
    pub name: String,
    /// Leaves the member out of the emitted type.
    pub ignore: bool,
    /// Marks the constant deprecated from this version on.
    pub deprecated_version: Option<Version>,
    /// Restricts the constant to this version and later.
    pub version: Option<Version>,
}

/// The mathematical content of a [`MemberOverride`].
pub struct MemberOverrideModel {
    pub name: Seq<char>,
    pub ignore: bool,
    pub deprecated_version: Option<VersionModel>,
    pub version: Option<VersionModel>,
}

impl View for MemberOverride {
    type V = MemberOverrideModel;

    open spec fn view(&self) -> MemberOverrideModel {
        MemberOverrideModel {
            name: self.name@,
            ignore: self.ignore,
            deprecated_version: self.deprecated_version.deep_view(),
            version: self.version.deep_view(),
        }
    }
}

impl DeepView for MemberOverride {
    type V = MemberOverrideModel;

    open spec fn deep_view(&self) -> MemberOverrideModel {
        self@
    }
}

/// What the project configured for one type.
#[derive(Clone, Debug, PartialEq, Eq)]
pub struct TypeOverride {
    /// Whether code is to be generated for the type at all.
    pub generate: bool,
    /// Whether the emitted type is marked as one whose values must be used.
    pub must_use: bool,
    /// The member overrides, in configuration order. Several may carry the
    /// same name.
    pub members: Vec<MemberOverride>,
}

/// The mathematical content of a [`TypeOverride`].
pub struct TypeOverrideModel {
    pub generate: bool,
    pub must_use: bool,
    pub members: Seq<MemberOverrideModel>,
}

impl View for TypeOverride {
    type V = TypeOverrideModel;

    open spec fn view(&self) -> TypeOverrideModel {
        TypeOverrideModel {
            generate: self.generate,
            must_use: self.must_use,
            members: self.members.deep_view(),
        }
    }
}

impl DeepView for TypeOverride {
    type V = TypeOverrideModel;

    open spec fn deep_view(&self) -> TypeOverrideModel {
        self@
    }
}

/// What a configured type resolves to in the type model.
#[derive(Clone, Debug, PartialEq, Eq)]
pub enum TypeKind {
    /// A flag type, with its descriptor.
    Flags(FlagTypeDescriptor),
    /// Any other kind of type.
    Other,
}

/// The mathematical content of a [`TypeKind`].
pub enum TypeKindModel {
    Flags(FlagTypeModel),
    Other,
}

impl View for TypeKind {
    type V = TypeKindModel;

    open spec fn view(&self) -> TypeKindModel {
        match self {
            TypeKind::Flags(descriptor) => TypeKindModel::Flags(descriptor@),
            TypeKind::Other => TypeKindModel::Other,
        }
    }
}

impl DeepView for TypeKind {
    type V = TypeKindModel;

    open spec fn deep_view(&self) -> TypeKindModel {
        self@
    }
}

/// A type of the type model, as far as a configured name resolved to one.
#[derive(Clone, Debug, PartialEq, Eq)]
pub struct ResolvedType {
    /// Whether the type belongs to the primary namespace, the one that code
    /// is generated for.
    pub primary_namespace: bool,
    pub kind: TypeKind,
}

/// The mathematical content of a [`ResolvedType`].
pub struct ResolvedTypeModel {
    pub primary_namespace: bool,
    pub kind: TypeKindModel,
}

impl View for ResolvedType {
    type V = ResolvedTypeModel;

    open spec fn view(&self) -> ResolvedTypeModel {
        ResolvedTypeModel { primary_namespace: self.primary_namespace, kind: self.kind@ }
    }
}

impl DeepView for ResolvedType {
    type V = ResolvedTypeModel;

    open spec fn deep_view(&self) -> ResolvedTypeModel {
        self@
    }
}

/// One configured type: its override record and the type it names.
#[derive(Clone, Debug, PartialEq, Eq)]
pub struct ConfiguredType {
    pub overrides: TypeOverride,
    /// `None` where the configured name resolved to no type.
    pub resolved: Option<ResolvedType>,
}

/// The mathematical content of a [`ConfiguredType`].
pub struct ConfiguredTypeModel {
    pub overrides: TypeOverrideModel,
    pub resolved: Option<ResolvedTypeModel>,
}

impl View for ConfiguredType {
    type V = ConfiguredTypeModel;

    open spec fn view(&self) -> ConfiguredTypeModel {
        ConfiguredTypeModel { overrides: self.overrides@, resolved: self.resolved.deep_view() }
    }
}

impl DeepView for ConfiguredType {
    type V = ConfiguredTypeModel;

    open spec fn deep_view(&self) -> ConfiguredTypeModel {
        self@
    }
}

/// The settings of one generation pass.
#[derive(Clone, Debug, PartialEq, Eq)]
pub struct Settings {
    /// The comment header that opens every generated file, complete with its
    /// line ends.
    pub header: String,
    /// Whether conversions from native values first run the
    /// initialization check of debug builds.
    pub generate_safety_asserts: bool,
}

/// The mathematical content of [`Settings`].
pub struct SettingsModel {
    pub header: Seq<char>,
    pub generate_safety_asserts: bool,
}

impl View for Settings {
    type V = SettingsModel;

    open spec fn view(&self) -> SettingsModel {
        SettingsModel {
            header: self.header@,
            generate_safety_asserts: self.generate_safety_asserts,
        }
    }
}

} // verus!
