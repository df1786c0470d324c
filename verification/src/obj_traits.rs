//! The traits the generated object model revolves around: access to the
//! inner data struct, custom construction with routed argument groups, and
//! post-construction initialization. Users of the generator implement them
//! for their own types.

use vstd::prelude::*;

verus! {

/// Implemented for every generated object type: it wraps an inner data
/// struct.
pub trait CxxQtType {
    /// The inner data type this object wraps.
    type Rust;

    /// An immutable reference to the inner data struct.
    fn rust(&self) -> &Self::Rust;

    /// A mutable reference to the inner data struct.
    fn rust_mut(&mut self) -> &mut Self::Rust;
}

/// Marker for objects that can stand in for the given base type.
pub trait Upcast<T> {

}

/// A custom constructor for a generated object: one declared argument tuple
/// is routed to the inner-data factory, the base-class constructor, and
/// the initialization step — each argument to exactly one of the three.
pub trait Constructor<Arguments>: CxxQtType {
    /// The arguments forwarded to the inner-data factory.
    type NewArguments;

    /// The arguments forwarded to the base-class constructor.
    type BaseArguments;

    /// The arguments used only by the initialization step.
    type InitializeArguments;

    /// Split the declared argument tuple into the three routed groups.
    fn route_arguments(arguments: Arguments) -> (
        Self::NewArguments,
        Self::BaseArguments,
        Self::InitializeArguments,
    );

    /// Construct the inner data struct.
    fn new(arguments: Self::NewArguments) -> Self::Rust;

    /// Run after the object's members are initialized; the body of the
    /// constructor.
    fn initialize(&mut self, arguments: Self::InitializeArguments);
}

/// A default-constructible object that only needs the initialization step.
pub trait Initialize: CxxQtType {
    /// Run after the object's members are initialized.
    fn initialize(&mut self);
}

} // verus!
