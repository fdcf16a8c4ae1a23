use vstd::prelude::*;

verus! {

/// A struct that the generated surface exposes.
pub trait ExposedStruct {}

/// A native value that turns into its exposed wrapper.
pub trait IntoWrapped {
    type Target;

    fn into_wrapped(self) -> (r: Self::Target);
}

/// How a field with accessors is stored, read and written across the boundary.
pub trait WrappedStructField {
    type Store;
    type Getter;
    type Setter;

    /// What a getter hands out for the stored value `s`.
    spec fn got(s: Self::Store) -> Self::Getter;

    /// What a setter stores for the value `s`.
    spec fn stored(s: Self::Setter) -> Self::Store;

    fn wrap_get(s: &mut Self::Store) -> (r: Self::Getter)
        ensures
            r == Self::got(*old(s)),
            *final(s) == *old(s),
    ;

    fn wrap_set(s: Self::Setter) -> (r: Self::Store)
        ensures
            r == Self::stored(s),
    ;
}

/// An integer field is stored, read and written as it is.
impl WrappedStructField for i8 {
    type Store = i8;
    type Getter = i8;
    type Setter = i8;

    open spec fn got(s: i8) -> i8 {
        s
    }

    open spec fn stored(s: i8) -> i8 {
        s
    }

    fn wrap_get(s: &mut i8) -> (r: i8) {
        *s
    }

    fn wrap_set(s: i8) -> (r: i8) {
        s
    }
}

impl WrappedStructField for u8 {
    type Store = u8;
    type Getter = u8;
    type Setter = u8;

    open spec fn got(s: u8) -> u8 {
        s
    }

    open spec fn stored(s: u8) -> u8 {
        s
    }

    fn wrap_get(s: &mut u8) -> (r: u8) {
        *s
    }

    fn wrap_set(s: u8) -> (r: u8) {
        s
    }
}

impl WrappedStructField for i16 {
    type Store = i16;
    type Getter = i16;
    type Setter = i16;

    open spec fn got(s: i16) -> i16 {
        s
    }

    open spec fn stored(s: i16) -> i16 {
        s
    }

    fn wrap_get(s: &mut i16) -> (r: i16) {
        *s
    }

    fn wrap_set(s: i16) -> (r: i16) {
        s
    }
}

impl WrappedStructField for u16 {
    type Store = u16;
    type Getter = u16;
    type Setter = u16;

    open spec fn got(s: u16) -> u16 {
        s
    }

    open spec fn stored(s: u16) -> u16 {
        s
    }

    fn wrap_get(s: &mut u16) -> (r: u16) {
        *s
    }

    fn wrap_set(s: u16) -> (r: u16) {
        s
    }
}

impl WrappedStructField for i32 {
    type Store = i32;
    type Getter = i32;
    type Setter = i32;

    open spec fn got(s: i32) -> i32 {
        s
    }

    open spec fn stored(s: i32) -> i32 {
        s
    }

    fn wrap_get(s: &mut i32) -> (r: i32) {
        *s
    }

    fn wrap_set(s: i32) -> (r: i32) {
        s
    }
}

impl WrappedStructField for u32 {
    type Store = u32;
    type Getter = u32;
    type Setter = u32;

    open spec fn got(s: u32) -> u32 {
        s
    }

    open spec fn stored(s: u32) -> u32 {
        s
    }

    fn wrap_get(s: &mut u32) -> (r: u32) {
        *s
    }

    fn wrap_set(s: u32) -> (r: u32) {
        s
    }
}

impl WrappedStructField for i64 {
    type Store = i64;
    type Getter = i64;
    type Setter = i64;

    open spec fn got(s: i64) -> i64 {
        s
    }

    open spec fn stored(s: i64) -> i64 {
        s
    }

    fn wrap_get(s: &mut i64) -> (r: i64) {
        *s
    }

    fn wrap_set(s: i64) -> (r: i64) {
        s
    }
}

impl WrappedStructField for u64 {
    type Store = u64;
    type Getter = u64;
    type Setter = u64;

    open spec fn got(s: u64) -> u64 {
        s
    }

    open spec fn stored(s: u64) -> u64 {
        s
    }

    fn wrap_get(s: &mut u64) -> (r: u64) {
        *s
    }

    fn wrap_set(s: u64) -> (r: u64) {
        s
    }
}

/// A container that lends its content to a closure.
pub trait AccessContainer {
    type Content;

    spec fn content(&self) -> Self::Content;
}

/// The platform form of an error, and of success.
pub trait IntoPlatformError {
    type TargetType;

    spec fn code(&self) -> Self::TargetType;

    spec fn ok_code() -> Self::TargetType;

    fn into_platform_error(self) -> (r: Self::TargetType)
        ensures
            r == self.code(),
    ;

    fn ok() -> (r: Self::TargetType)
        ensures
            r == Self::ok_code(),
    ;
}

/// The platform error of an optional value: nothing more than its absence.
#[derive(Debug)]
pub struct PlatformOption;

impl IntoPlatformError for PlatformOption {
    type TargetType = ();

    open spec fn code(&self) -> () {
        ()
    }

    open spec fn ok_code() -> () {
        ()
    }

    fn into_platform_error(self) -> (r: ()) {
    }

    fn ok() -> (r: ()) {
    }
}

impl<T> AccessContainer for Box<T> {
    type Content = T;

    open spec fn content(&self) -> T {
        **self
    }
}

/// Lends the content of a box to `f`.
pub fn access_box<T, R, F: Fn(&T) -> R>(b: &Box<T>, f: F) -> (r: R)
    requires
        f.requires((&**b,)),
    ensures
        f.ensures((&**b,), r),
{
    f(&**b)
}

} // verus!
