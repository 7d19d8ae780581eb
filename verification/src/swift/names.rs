//! Swift spellings of Rust identifiers.

use vstd::prelude::*;
use crate::case::{lower_camel_case, to_lower_camel_case, to_upper_camel_case, upper_camel_case};
use crate::text::{concat3, text_is};

verus! {

/// Whether the word is reserved in Swift declarations and expressions.
pub open spec fn is_swift_keyword(s: Seq<char>) -> bool {
    s == "class"@ || s == "default"@ || s == "deinit"@ || s == "enum"@ || s == "extension"@ || s
        == "func"@ || s == "import"@ || s == "init"@ || s == "inout"@ || s == "let"@ || s
        == "operator"@ || s == "protocol"@ || s == "self"@ || s == "static"@ || s == "struct"@
        || s == "subscript"@ || s == "switch"@ || s == "case"@ || s == "repeat"@ || s == "return"@
        || s == "where"@ || s == "in"@ || s == "is"@ || s == "var"@ || s == "internal"@
}

/// The identifier, quoted in backticks when it is a keyword.
pub open spec fn swift_escaped(s: Seq<char>) -> Seq<char> {
    if is_swift_keyword(s) {
        "`"@ + s + "`"@
    } else {
        s
    }
}

/// The lowerCamelCase Swift identifier for a Rust member name.
pub open spec fn swift_member(s: Seq<char>) -> Seq<char> {
    swift_escaped(lower_camel_case(s))
}

/// Swift naming rules.
pub struct NamingConvention;

impl NamingConvention {
    /// The UpperCamelCase name of a type.
    pub fn class_name(name: &str) -> (r: String)
        ensures
            r@ == upper_camel_case(name@),
    {
        to_upper_camel_case(name)
    }

    /// The name of a function or method.
    pub fn method_name(name: &str) -> (r: String)
        ensures
            r@ == swift_member(name@),
    {
        let c = to_lower_camel_case(name);
        Self::escape_keyword(c.as_str())
    }

    /// The name of a parameter.
    pub fn param_name(name: &str) -> (r: String)
        ensures
            r@ == swift_member(name@),
    {
        let c = to_lower_camel_case(name);
        Self::escape_keyword(c.as_str())
    }

    /// The name of a property.
    pub fn property_name(name: &str) -> (r: String)
        ensures
            r@ == swift_member(name@),
    {
        let c = to_lower_camel_case(name);
        Self::escape_keyword(c.as_str())
    }

    /// The name of an enum case.
    pub fn enum_case_name(name: &str) -> (r: String)
        ensures
            r@ == swift_member(name@),
    {
        let c = to_lower_camel_case(name);
        Self::escape_keyword(c.as_str())
    }

    /// Whether the word is reserved in Swift.
    pub fn is_keyword(name: &str) -> (r: bool)
        ensures
            r == is_swift_keyword(name@),
    {
        let s = String::from_str(name);
        text_is(&s, "class") || text_is(&s, "default") || text_is(&s, "deinit") || text_is(&s, "enum")
            || text_is(&s, "extension") || text_is(&s, "func") || text_is(&s, "import") || text_is(
            &s,
            "init",
        ) || text_is(&s, "inout") || text_is(&s, "let") || text_is(&s, "operator") || text_is(
            &s,
            "protocol",
        ) || text_is(&s, "self") || text_is(&s, "static") || text_is(&s, "struct") || text_is(
            &s,
            "subscript",
        ) || text_is(&s, "switch") || text_is(&s, "case") || text_is(&s, "repeat") || text_is(
            &s,
            "return",
        ) || text_is(&s, "where") || text_is(&s, "in") || text_is(&s, "is") || text_is(&s, "var")
            || text_is(&s, "internal")
    }

    /// The identifier, quoted in backticks when it is a keyword.
    pub fn escape_keyword(name: &str) -> (r: String)
        ensures
            r@ == swift_escaped(name@),
    {
        if Self::is_keyword(name) {
            concat3("`", name, "`")
        } else {
            String::from_str(name)
        }
    }
}

} // verus!
