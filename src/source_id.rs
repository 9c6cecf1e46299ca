use vstd::prelude::*;
use vstd::string::StringSliceAdditionalSpecFns;
use vstd::utf8::{encode_utf8, is_ascii_chars, is_ascii_chars_encode_utf8};
use crate::text::{
    ascii_bytes, decimal_digits, digits_value, lemma_decimal_digits_read_back, parse_u32_from,
    parse_u32_spec, prefixed_decimal,
};
use crate::types::SCError;

verus! {

/// A capturable source named by kind and numeric id.
#[derive(Debug, Clone, Copy, PartialEq, Eq, Structural)]
pub enum SourceSelector {
    Display(u32),
    Window(u32),
}

/// The bytes of "display:".
pub open spec fn display_prefix() -> Seq<u8> {
    seq![100u8, 105u8, 115u8, 112u8, 108u8, 97u8, 121u8, 58u8]
}

/// The bytes of "window:".
pub open spec fn window_prefix() -> Seq<u8> {
    seq![119u8, 105u8, 110u8, 100u8, 111u8, 119u8, 58u8]
}

/// The source that an identifier of the form `display:<id>` or
/// `window:<id>` names; `None` for any other text.
pub open spec fn parse_source_spec(b: Seq<u8>) -> Option<SourceSelector> {
    if b.len() >= 8 && b.subrange(0, 8) == display_prefix() {
        match parse_u32_spec(b.subrange(8, b.len() as int)) {
            Some(n) => Some(SourceSelector::Display(n)),
            None => None,
        }
    } else if b.len() >= 7 && b.subrange(0, 7) == window_prefix() {
        match parse_u32_spec(b.subrange(7, b.len() as int)) {
            Some(n) => Some(SourceSelector::Window(n)),
            None => None,
        }
    } else {
        None
    }
}

/// The identifier text of a source.
pub open spec fn source_id_spec(sel: SourceSelector) -> Seq<char> {
    match sel {
        SourceSelector::Display(n) => "display:"@ + decimal_digits(n as nat),
        SourceSelector::Window(n) => "window:"@ + decimal_digits(n as nat),
    }
}

fn starts_with_display(b: &[u8]) -> (r: bool)
    ensures
        r == (b@.len() >= 8 && b@.subrange(0, 8) == display_prefix()),
{
    if b.len() < 8 {
        return false;
    }
    let r = b[0] == 100 && b[1] == 105 && b[2] == 115 && b[3] == 112 && b[4] == 108 && b[5]
        == 97 && b[6] == 121 && b[7] == 58;
    if r {
        assert(b@.subrange(0, 8) =~= display_prefix());
    } else {
        assert(b@.subrange(0, 8) != display_prefix()) by {
            let p = b@.subrange(0, 8);
            if p == display_prefix() {
                assert(p[0] == 100u8 && p[1] == 105u8 && p[2] == 115u8 && p[3] == 112u8);
                assert(p[4] == 108u8 && p[5] == 97u8 && p[6] == 121u8 && p[7] == 58u8);
            }
        }
    }
    r
}

fn starts_with_window(b: &[u8]) -> (r: bool)
    ensures
        r == (b@.len() >= 7 && b@.subrange(0, 7) == window_prefix()),
{
    if b.len() < 7 {
        return false;
    }
    let r = b[0] == 119 && b[1] == 105 && b[2] == 110 && b[3] == 100 && b[4] == 111 && b[5]
        == 119 && b[6] == 58;
    if r {
        assert(b@.subrange(0, 7) =~= window_prefix());
    } else {
        assert(b@.subrange(0, 7) != window_prefix()) by {
            let p = b@.subrange(0, 7);
            if p == window_prefix() {
                assert(p[0] == 119u8 && p[1] == 105u8 && p[2] == 110u8 && p[3] == 100u8);
                assert(p[4] == 111u8 && p[5] == 119u8 && p[6] == 58u8);
            }
        }
    }
    r
}

/// Reads a source identifier; any other form, or a non-numeric id, is a
/// configuration error.
pub fn parse_source_id(s: &str) -> (r: Result<SourceSelector, SCError>)
    ensures
        r is Ok <==> parse_source_spec(s.spec_bytes()) is Some,
        r matches Ok(sel) ==> parse_source_spec(s.spec_bytes()) == Some(sel),
        r matches Err(e) ==> e is InvalidConfiguration,
{
    let b = s.as_bytes();
    if starts_with_display(b) {
        match parse_u32_from(b, 8) {
            Some(n) => Ok(SourceSelector::Display(n)),
            None => Err(SCError::InvalidConfiguration),
        }
    } else if starts_with_window(b) {
        match parse_u32_from(b, 7) {
            Some(n) => Ok(SourceSelector::Window(n)),
            None => Err(SCError::InvalidConfiguration),
        }
    } else {
        Err(SCError::InvalidConfiguration)
    }
}

/// Writes the identifier of a source, `display:<id>` or `window:<id>`.
pub fn source_id(sel: SourceSelector) -> (r: String)
    ensures
        r@ == source_id_spec(sel),
{
    match sel {
        SourceSelector::Display(n) => prefixed_decimal("display:", n as u64),
        SourceSelector::Window(n) => prefixed_decimal("window:", n as u64),
    }
}

/// Writing a source's identifier and reading it back gives the same source.
pub proof fn lemma_source_id_round_trip(sel: SourceSelector, s: &str)
    requires
        s@ == source_id_spec(sel),
    ensures
        parse_source_spec(s.spec_bytes()) == Some(sel),
{
    reveal_strlit("display:");
    reveal_strlit("window:");
    let (prefix, n, k) = match sel {
        SourceSelector::Display(n) => ("display:"@, n, 8int),
        SourceSelector::Window(n) => ("window:"@, n, 7int),
    };
    let digits = decimal_digits(n as nat);
    lemma_decimal_digits_read_back(n as nat);
    assert(s@ =~= prefix + digits);
    assert(is_ascii_chars(s@)) by {
        assert forall|i: int| 0 <= i < s@.len() implies '\0' <= #[trigger] s@[i] <= '\u{7f}' by {
            if i >= k {
                assert(s@[i] == digits[i - k]);
            }
        }
    }
    is_ascii_chars_encode_utf8(s@);
    let b = s.spec_bytes();
    assert(b == encode_utf8(s@));
    assert(b.subrange(k, b.len() as int) =~= ascii_bytes(digits)) by {
        assert forall|i: int| 0 <= i < digits.len() implies #[trigger] b.subrange(
            k,
            b.len() as int,
        )[i] == ascii_bytes(digits)[i] by {
            assert(s@[k + i] == digits[i]);
        }
    }
    assert(digits_value(ascii_bytes(digits)) == n);
    match sel {
        SourceSelector::Display(_) => {
            assert(b.subrange(0, 8) =~= display_prefix());
        },
        SourceSelector::Window(_) => {
            assert(b.subrange(0, 7) =~= window_prefix());
            assert(!(b.len() >= 8 && b.subrange(0, 8) == display_prefix())) by {
                if b.len() >= 8 && b.subrange(0, 8) == display_prefix() {
                    assert(b.subrange(0, 8)[0] == b[0]);
                }
            }
        },
    }
}

} // verus!
