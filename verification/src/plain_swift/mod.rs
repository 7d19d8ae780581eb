//! A plain Swift generator: records as structs, enumerations, and classes
//! calling the C symbols directly, without the wire format.

pub mod templates;
pub mod classes;

use vstd::prelude::*;
use crate::model::{spec_is_c_style, Class, Enumeration, Module, Record};

pub use templates::{CStyleEnumTemplate, DataEnumTemplate, RecordTemplate};
pub use classes::ClassTemplate;

verus! {

/// The plain Swift generator.
pub struct Swift;

/// The text of an enumeration: a plain enumeration when no case carries
/// data, cases with associated values otherwise.
pub open spec fn enum_source(e: Enumeration) -> Seq<char> {
    if spec_is_c_style(e.variants@) {
        templates::c_style_source(e)
    } else {
        templates::data_enum_source(e)
    }
}

impl Swift {
    /// A record's struct.
    pub fn render_record(record: &Record) -> (r: String)
        ensures
            r@ == templates::record_source(*record),
    {
        let t = RecordTemplate::from_record(record);
        proof {
            templates::lemma_record_text(t, *record);
        }
        t.render()
    }

    /// An enumeration.
    pub fn render_enum(enumeration: &Enumeration) -> (r: String)
        requires
            enumeration.variants@.len() <= i64::MAX,
        ensures
            r@ == enum_source(*enumeration),
    {
        if enumeration.is_c_style() {
            let t = CStyleEnumTemplate::from_enum(enumeration);
            proof {
                templates::lemma_c_style_text(t, *enumeration);
            }
            t.render()
        } else {
            let t = DataEnumTemplate::from_enum(enumeration);
            proof {
                templates::lemma_data_enum_text(t, *enumeration);
            }
            t.render()
        }
    }

    /// A class.
    pub fn render_class(class: &Class, module: &Module) -> (r: String)
        ensures
            r@ == classes::class_source(*class),
    {
        let t = ClassTemplate::from_class(class, module);
        proof {
            classes::lemma_class_text(t, *class);
        }
        t.render()
    }
}

} // verus!
