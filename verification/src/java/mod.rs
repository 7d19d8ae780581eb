//! The Java generator: the plan of a Java binding and its source text.

pub mod plan;
pub mod templates;

use vstd::prelude::*;

pub use plan::{
    JavaFunction, JavaModule, JavaParam, JavaParamKind, JavaRecord, JavaRecordField,
    JavaRecordShape, JavaReturnStrategy, JavaWireWriter,
};
pub use templates::{FunctionsTemplate, NativeTemplate, PreambleTemplate, RecordTemplate};

verus! {

/// Options of the Java generator.
#[derive(Debug, Clone)]
pub struct JavaOptions {
    pub library_name: Option<String>,
    pub min_java_version: JavaVersion,
}

impl Default for JavaOptions {
    fn default() -> (r: Self)
        ensures
            r.library_name is None,
            r.min_java_version.0 == 8,
    {
        JavaOptions { library_name: None, min_java_version: JavaVersion(8) }
    }
}

/// A Java language version, by its feature release number.
#[derive(Debug, Clone, Copy, PartialEq, Eq, Structural, PartialOrd, Ord)]
pub struct JavaVersion(pub u8);

impl Default for JavaVersion {
    fn default() -> (r: Self)
        ensures
            r.0 == 8,
    {
        JavaVersion(8)
    }
}

impl JavaVersion {
    /// Java 8.
    pub fn java_8() -> (r: Self)
        ensures
            r.0 == 8,
    {
        JavaVersion(8)
    }

    /// Java 11.
    pub fn java_11() -> (r: Self)
        ensures
            r.0 == 11,
    {
        JavaVersion(11)
    }

    /// Java 17.
    pub fn java_17() -> (r: Self)
        ensures
            r.0 == 17,
    {
        JavaVersion(17)
    }

    /// Java 21.
    pub fn java_21() -> (r: Self)
        ensures
            r.0 == 21,
    {
        JavaVersion(21)
    }

    /// Java 22.
    pub fn java_22() -> (r: Self)
        ensures
            r.0 == 22,
    {
        JavaVersion(22)
    }

    /// Java 23.
    pub fn java_23() -> (r: Self)
        ensures
            r.0 == 23,
    {
        JavaVersion(23)
    }

    /// Java 24.
    pub fn java_24() -> (r: Self)
        ensures
            r.0 == 24,
    {
        JavaVersion(24)
    }

    /// Whether the version has `record` classes (Java 16 on).
    pub fn supports_records(&self) -> (r: bool)
        ensures
            r == (self.0 >= 16),
    {
        self.0 >= 16
    }

    /// Whether the version has sealed types (Java 17 on).
    pub fn supports_sealed(&self) -> (r: bool)
        ensures
            r == (self.0 >= 17),
    {
        self.0 >= 17
    }
}

/// A version with sealed types also has records.
pub proof fn lemma_sealed_implies_records(v: JavaVersion)
    requires
        v.0 >= 17,
    ensures
        v.0 >= 16,
{
}

/// Language features only accumulate: a later version supports whatever an
/// earlier one does.
pub proof fn lemma_features_monotone(a: JavaVersion, b: JavaVersion)
    requires
        a.0 <= b.0,
    ensures
        a.0 >= 16 ==> b.0 >= 16,
        a.0 >= 17 ==> b.0 >= 17,
{
}

} // verus!
