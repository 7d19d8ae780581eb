//! Kotlin spellings of Rust identifiers.

use vstd::prelude::*;
use crate::case::{
    lower_camel_case, shouty_snake_case, to_lower_camel_case, to_shouty_snake_case,
    to_upper_camel_case, upper_camel_case,
};
use crate::text::{concat3, text_is};

verus! {

/// Whether the word is reserved in Kotlin (the hard keywords, and `value`,
/// which would clash with the value-class modifier in generated code).
pub open spec fn is_kotlin_keyword(s: Seq<char>) -> bool {
    s == "as"@ || s == "break"@ || s == "class"@ || s == "continue"@ || s == "do"@ || s == "else"@
        || s == "false"@ || s == "for"@ || s == "fun"@ || s == "if"@ || s == "in"@ || s
        == "interface"@ || s == "is"@ || s == "null"@ || s == "object"@ || s == "package"@ || s
        == "return"@ || s == "super"@ || s == "this"@ || s == "throw"@ || s == "true"@ || s
        == "try"@ || s == "typealias"@ || s == "typeof"@ || s == "val"@ || s == "var"@ || s
        == "when"@ || s == "while"@ || s == "value"@
}

/// The identifier, quoted in backticks when it is a keyword.
pub open spec fn kotlin_escaped(s: Seq<char>) -> Seq<char> {
    if is_kotlin_keyword(s) {
        "`"@ + s + "`"@
    } else {
        s
    }
}

/// The lowerCamelCase Kotlin identifier for a Rust member name.
pub open spec fn kotlin_member(s: Seq<char>) -> Seq<char> {
    kotlin_escaped(lower_camel_case(s))
}

/// Kotlin naming rules.
pub struct NamingConvention;

impl NamingConvention {
    /// The UpperCamelCase name of a type.
    pub fn class_name(name: &str) -> (r: String)
        ensures
            r@ == upper_camel_case(name@),
    {
        to_upper_camel_case(name)
    }

    /// The name of a function or method.
    pub fn method_name(name: &str) -> (r: String)
        ensures
            r@ == kotlin_member(name@),
    {
        let c = to_lower_camel_case(name);
        Self::escape_keyword(c.as_str())
    }

    /// The name of a parameter.
    pub fn param_name(name: &str) -> (r: String)
        ensures
            r@ == kotlin_member(name@),
    {
        let c = to_lower_camel_case(name);
        Self::escape_keyword(c.as_str())
    }

    /// The name of a property.
    pub fn property_name(name: &str) -> (r: String)
        ensures
            r@ == kotlin_member(name@),
    {
        let c = to_lower_camel_case(name);
        Self::escape_keyword(c.as_str())
    }

    /// The name of an enum entry.
    pub fn enum_entry_name(name: &str) -> (r: String)
        ensures
            r@ == shouty_snake_case(name@),
    {
        to_shouty_snake_case(name)
    }

    /// Whether the word is reserved in Kotlin.
    pub fn is_keyword(name: &str) -> (r: bool)
        ensures
            r == is_kotlin_keyword(name@),
    {
        let s = String::from_str(name);
        text_is(&s, "as") || text_is(&s, "break") || text_is(&s, "class") || text_is(&s, "continue")
            || text_is(&s, "do") || text_is(&s, "else") || text_is(&s, "false") || text_is(&s, "for")
            || text_is(&s, "fun") || text_is(&s, "if") || text_is(&s, "in") || text_is(
            &s,
            "interface",
        ) || text_is(&s, "is") || text_is(&s, "null") || text_is(&s, "object") || text_is(
            &s,
            "package",
        ) || text_is(&s, "return") || text_is(&s, "super") || text_is(&s, "this") || text_is(
            &s,
            "throw",
        ) || text_is(&s, "true") || text_is(&s, "try") || text_is(&s, "typealias") || text_is(
            &s,
            "typeof",
        ) || text_is(&s, "val") || text_is(&s, "var") || text_is(&s, "when") || text_is(&s, "while")
            || text_is(&s, "value")
    }

    /// The identifier, quoted in backticks when it is a keyword.
    pub fn escape_keyword(name: &str) -> (r: String)
        ensures
            r@ == kotlin_escaped(name@),
    {
        if Self::is_keyword(name) {
            concat3("`", name, "`")
        } else {
            String::from_str(name)
        }
    }
}

} // verus!
