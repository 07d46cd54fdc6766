use vstd::prelude::*;

use crate::error::StellaError;
use crate::text::{is_first_line, prefix_of};

verus! {

/// Reduces an external tool's error stream to its first line, the diagnostic
/// shown to the user. An empty stream has no diagnostic.
pub fn parse_error(error_msg: String) -> (r: Result<String, StellaError>)
    ensures
        error_msg@.len() == 0 <==> r == Err::<String, StellaError>(StellaError::EmptyDiagnostic),
        error_msg@.len() > 0 <==> r is Ok,
        r is Ok ==> is_first_line(error_msg@, r->Ok_0@),
{
    let s = error_msg.as_str();
    let n = s.unicode_len();
    if n == 0 {
        return Err(StellaError::EmptyDiagnostic);
    }
    let mut i: usize = 0;
    while i < n && s.get_char(i) != '\n'
        invariant
            n == s@.len(),
            0 <= i <= n,
            forall|j: int| 0 <= j < i ==> s@[j] != '\n',
        decreases n - i,
    {
        i = i + 1;
    }
    Ok(prefix_of(s, i))
}

} // verus!
