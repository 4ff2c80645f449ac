//! `com.acme.wasm-demo`: two numeric nodes, `double` and `add`.
//!
//! The arithmetic is on floating-point numbers and lives with the host glue;
//! this module holds the block's description and the dispatch on kind ids.

use vstd::prelude::*;
use vstd::string::StringExecFns;

use crate::plugin::{DescribeResponse, KindDecl};
use crate::text::{concat3, text_eq};

verus! {

/// Kind id of the node that doubles a number.
pub const DOUBLE: &'static str = "com.acme.wasm-demo.double";

/// Kind id of the node that adds `a` and `b`.
pub const ADD: &'static str = "com.acme.wasm-demo.add";

/// The wasm demo block.
pub struct Demo;

/// The demo's node kinds.
pub enum DemoKind {
    Double,
    Add,
}

fn kind_decl(kind_id: &str, display_name: &str) -> (k: KindDecl)
    ensures
        k.kind_id@ == kind_id@,
        k.display_name matches Some(n) && n@ == display_name@,
        k.inputs@.len() == 1,
        k.inputs@[0]@ == "in"@,
        k.outputs@.len() == 1,
        k.outputs@[0]@ == "out"@,
{
    KindDecl {
        kind_id: String::from_str(kind_id),
        display_name: Some(String::from_str(display_name)),
        inputs: vec![String::from_str("in")],
        outputs: vec![String::from_str("out")],
    }
}

impl Demo {
    /// The block's two kinds, `double` then `add`, each with input `in` and
    /// output `out`.
    pub fn describe() -> (d: DescribeResponse)
        ensures
            d.extension_id@ == "com.acme.wasm-demo"@,
            d.version@ == "0.1.0"@,
            d.kinds@.len() == 2,
            d.kinds@[0].kind_id@ == DOUBLE@,
            d.kinds@[0].display_name matches Some(n) && n@ == "Double"@,
            d.kinds@[1].kind_id@ == ADD@,
            d.kinds@[1].display_name matches Some(n) && n@ == "Add"@,
            forall|i: int|
                0 <= i < 2 ==> {
                    &&& (#[trigger] d.kinds@[i]).inputs@.len() == 1
                    &&& d.kinds@[i].inputs@[0]@ == "in"@
                    &&& d.kinds@[i].outputs@.len() == 1
                    &&& d.kinds@[i].outputs@[0]@ == "out"@
                },
    {
        let double = kind_decl(DOUBLE, "Double");
        let add = kind_decl(ADD, "Add");
        DescribeResponse {
            extension_id: String::from_str("com.acme.wasm-demo"),
            version: String::from_str("0.1.0"),
            kinds: vec![double, add],
        }
    }

    /// Which node an envelope is for; any other kind id is refused with
    /// ``unknown kind_id `<id>` ``.
    pub fn kind_of(kind_id: &str) -> (r: Result<DemoKind, String>)
        ensures
            kind_id@ == DOUBLE@ ==> r matches Ok(DemoKind::Double),
            kind_id@ != DOUBLE@ && kind_id@ == ADD@ ==> r matches Ok(DemoKind::Add),
            kind_id@ != DOUBLE@ && kind_id@ != ADD@ ==> (r matches Err(e) && e@ == "unknown kind_id `"@
                + kind_id@ + "`"@),
    {
        if text_eq(kind_id, DOUBLE) {
            Ok(DemoKind::Double)
        } else if text_eq(kind_id, ADD) {
            Ok(DemoKind::Add)
        } else {
            Err(concat3("unknown kind_id `", kind_id, "`"))
        }
    }
}

} // verus!
