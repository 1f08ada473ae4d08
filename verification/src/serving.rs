//! What serving decides without touching the file system: the text that
//! stands in for a template that does not compile.

use vstd::prelude::*;
use vstd::string::StringExecFns;
use crate::text::{decimal, decimal_string};

verus! {

/// The text that reports a syntax error in a template: the line and the
/// column where they are known, then the cause.
pub open spec fn syntax_error_text(
    line_no: Option<usize>,
    column_no: Option<usize>,
    reason: Seq<char>,
) -> Seq<char> {
    "Template syntax error:"@ + (match line_no {
        Some(line) => " line no: "@ + decimal(line as nat),
        None => Seq::empty(),
    }) + (match column_no {
        Some(column) => " col no: "@ + decimal(column as nat),
        None => Seq::empty(),
    }) + " cause: "@ + reason
}

/// The text that is registered in place of a template with a syntax
/// error, so that the error shows where the template would.
pub fn template_error_message(line_no: Option<usize>, column_no: Option<usize>, reason: &str) -> (msg:
    String)
    ensures
        msg@ == syntax_error_text(line_no, column_no, reason@),
{
    let mut msg = "Template syntax error:".to_owned();
    match line_no {
        Some(line) => {
            msg.append(" line no: ");
            msg.append(decimal_string(line as u64).as_str());
        },
        None => {
            proof {
                assert(msg@ + Seq::<char>::empty() =~= msg@);
            }
        },
    }
    let ghost with_line = msg@;
    match column_no {
        Some(column) => {
            msg.append(" col no: ");
            msg.append(decimal_string(column as u64).as_str());
        },
        None => {
            proof {
                assert(with_line + Seq::<char>::empty() =~= with_line);
            }
        },
    }
    msg.append(" cause: ");
    msg.append(reason);
    msg
}

} // verus!
