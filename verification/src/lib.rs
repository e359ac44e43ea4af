//! Source generation for bitmask ("flags") types.
//!
//! A flag type is described by a [`model::FlagTypeDescriptor`]: its name, the
//! name of its native counterpart, its members and, optionally, the versions
//! that introduced and deprecated it and the function that registers it with
//! the runtime type system. The project's configuration adds a
//! [`model::TypeOverride`] to each type. From these the crate writes the
//! source of the type, of its constants and of the conversions between the
//! type, its native counterpart and dynamic values.
//!
//! [`driver::generate`] makes the text of a whole module from all configured
//! types; [`emitter::generate_flags`] makes the fragment of one type. Both are
//! functions of their arguments: nothing is read or written but what is
//! handed in and handed back.
//!
//! Every function states what it returns over the mathematical content of
//! its arguments, and the statements are proved. One call is taken on trust:
//! that of `str::to_uppercase`, in [`constants`].

pub mod blocks;
pub mod constants;
pub mod driver;
pub mod emitter;
pub mod guard;
pub mod imports;
pub mod literal;
pub mod model;
pub mod overrides;
pub mod text;
