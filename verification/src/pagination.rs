//! Cursor-based pagination: an optional page size and an optional
//! directional marker, rendered into the query suffix of a paged endpoint.

use vstd::prelude::*;
use vstd::string::*;

use crate::chars::{char_of_digit, digit_char, push_char};

verus! {

/// Decimal digits of a non-negative number, most significant first.
pub open spec fn spec_dec(n: int) -> Seq<char>
    decreases n,
{
    if n < 10 {
        seq![digit_char(n)]
    } else {
        spec_dec(n / 10).push(digit_char(n % 10))
    }
}

/// Append the decimal form of `n` to `out`.
fn push_dec(out: &mut String, n: u64)
    ensures
        final(out)@ == old(out)@ + spec_dec(n as int),
    decreases n,
{
    if n < 10 {
        push_char(out, char_of_digit(n as u32));
        proof {
            assert(old(out)@.push(digit_char(n as int)) =~= old(out)@ + spec_dec(n as int));
        }
    } else {
        push_dec(out, n / 10);
        push_char(out, char_of_digit((n % 10) as u32));
        proof {
            assert((old(out)@ + spec_dec(n as int / 10)).push(digit_char(n as int % 10)) =~= old(
                out,
            )@ + spec_dec(n as int));
        }
    }
}

/// Directional marker: fetch the page after or before an opaque cursor
/// token. A single request can carry one direction, never both.
pub enum PageMark {
    After(String),
    Before(String),
}

/// Optional page size and optional directional marker, constructed per call
/// site and rendered into a query suffix.
pub struct PageCursor {
    pub limit: Option<u64>,
    pub mark: Option<PageMark>,
}

impl PageCursor {
    /// The rendered URL: the base, then `?limit=<n>` if a limit is set, then
    /// the direction marker with `?` or `&` according to what came before.
    pub open spec fn spec_render(self, base: Seq<char>) -> Seq<char> {
        let with_limit = match self.limit {
            Some(l) => base + "?limit="@ + spec_dec(l as int),
            None => base,
        };
        match self.mark {
            None => with_limit,
            Some(PageMark::After(t)) => with_limit + (if self.limit is Some {
                "&after="@
            } else {
                "?after="@
            }) + t@,
            Some(PageMark::Before(t)) => with_limit + (if self.limit is Some {
                "&before="@
            } else {
                "?before="@
            }) + t@,
        }
    }

    /// A cursor that requests the default page of results.
    pub fn new() -> (r: Self)
        ensures
            r.limit is None,
            r.mark is None,
    {
        PageCursor { limit: None, mark: None }
    }

    /// Render the query suffix onto a base URL.
    pub fn render(&self, base_url: &str) -> (r: String)
        ensures
            r@ == self.spec_render(base_url@),
    {
        let mut out = String::from_str(base_url);
        let has_limit = match &self.limit {
            Some(l) => {
                out.append("?limit=");
                push_dec(&mut out, *l);
                true
            },
            None => false,
        };
        match &self.mark {
            Some(PageMark::After(t)) => {
                if has_limit {
                    out.append("&after=");
                } else {
                    out.append("?after=");
                }
                out.append(t.as_str());
            },
            Some(PageMark::Before(t)) => {
                if has_limit {
                    out.append("&before=");
                } else {
                    out.append("?before=");
                }
                out.append(t.as_str());
            },
            None => {},
        }
        out
    }
}

} // verus!
