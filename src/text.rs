//! The textual form of a vector, `Vector3(x, y, z)`: framing three rendered
//! coordinates, and cutting a text back into its three coordinate fields.
use crate::ParseVector3Error;
use vstd::prelude::*;
use vstd::string::*;

verus! {

/// The characters that open the textual form: `Vector3(`.
pub open spec fn opening() -> Seq<char> {
    seq!['V', 'e', 'c', 't', 'o', 'r', '3', '(']
}

/// The separator that `format_fields` writes between two fields: `, `.
pub open spec fn separator() -> Seq<char> {
    seq![',', ' ']
}

/// The text `Vector3(x, y, z)` for the rendered coordinates `x`, `y`, `z`.
pub open spec fn framed_text(x: Seq<char>, y: Seq<char>, z: Seq<char>) -> Seq<char> {
    opening() + x + separator() + y + separator() + z + seq![')']
}

/// `s` is at least fourteen characters long, opens with `Vector3(` and ends
/// with `)`.
pub open spec fn is_framed(s: Seq<char>) -> bool {
    &&& s.len() >= 14
    &&& s.subrange(0, 8) == opening()
    &&& s.last() == ')'
}

/// What stands between the opening `Vector3(` and the closing `)`.
pub open spec fn inner_of(s: Seq<char>) -> Seq<char> {
    s.subrange(8, s.len() - 1)
}

/// No character of `s` is a comma.
pub open spec fn comma_free(s: Seq<char>) -> bool {
    forall|i: int| 0 <= i < s.len() ==> s[i] != ','
}

/// How many commas `s` holds.
pub open spec fn comma_count(s: Seq<char>) -> nat
    decreases s.len(),
{
    if s.len() == 0 {
        0
    } else {
        comma_count(s.drop_last()) + if s.last() == ',' {
            1nat
        } else {
            0nat
        }
    }
}

/// `s` is the fields `a`, `b` and `c`, none holding a comma, joined by commas.
pub open spec fn splits_into(s: Seq<char>, a: Seq<char>, b: Seq<char>, c: Seq<char>) -> bool {
    &&& comma_free(a)
    &&& comma_free(b)
    &&& comma_free(c)
    &&& s == a + seq![','] + b + seq![','] + c
}

/// Writes the textual form `Vector3(x, y, z)` of the rendered coordinates
/// `x`, `y` and `z`.
pub fn format_fields(x: &str, y: &str, z: &str) -> (r: String)
    ensures
        r@ == framed_text(x@, y@, z@),
{
    proof {
        reveal_strlit("Vector3(");
        reveal_strlit(", ");
        reveal_strlit(")");
    }
    let mut r = String::from_str("Vector3(");
    r.append(x);
    r.append(", ");
    r.append(y);
    r.append(", ");
    r.append(z);
    r.append(")");
    assert(r@ =~= framed_text(x@, y@, z@));
    r
}

/// Does `text` open with `Vector3(`?
fn has_opening(text: &str) -> (r: bool)
    requires
        text@.len() >= 8,
    ensures
        r == (text@.subrange(0, 8) == opening()),
{
    let r = text.get_char(0) == 'V' && text.get_char(1) == 'e' && text.get_char(2) == 'c'
        && text.get_char(3) == 't' && text.get_char(4) == 'o' && text.get_char(5) == 'r'
        && text.get_char(6) == '3' && text.get_char(7) == '(';
    proof {
        if r {
            assert(text@.subrange(0, 8) =~= opening());
        } else if text@.subrange(0, 8) == opening() {
            assert(text@.subrange(0, 8)[0] == 'V');
            assert(text@.subrange(0, 8)[1] == 'e');
            assert(text@.subrange(0, 8)[2] == 'c');
            assert(text@.subrange(0, 8)[3] == 't');
            assert(text@.subrange(0, 8)[4] == 'o');
            assert(text@.subrange(0, 8)[5] == 'r');
            assert(text@.subrange(0, 8)[6] == '3');
            assert(text@.subrange(0, 8)[7] == '(');
        }
    }
    r
}

/// Cuts a text of the form `Vector3(x, y, z)` into its three coordinate
/// fields, as they stand between the commas (blanks included).
///
/// The text must be framed (see [`is_framed`]) and hold exactly two commas
/// between its brackets; otherwise the result is `InvalidFormat`.
pub fn split_fields(text: &str) -> (r: Result<(String, String, String), ParseVector3Error>)
    ensures
        r is Ok <==> is_framed(text@) && comma_count(inner_of(text@)) == 2,
        r matches Ok(f) ==> splits_into(inner_of(text@), f.0@, f.1@, f.2@),
        r is Err ==> r == Err::<(String, String, String), _>(ParseVector3Error::InvalidFormat),
{
    let n = text.unicode_len();
    if n < 14 {
        return Err(ParseVector3Error::InvalidFormat);
    }
    if !has_opening(text) || text.get_char(n - 1) != ')' {
        return Err(ParseVector3Error::InvalidFormat);
    }
    let ghost s = text@;
    let mut count: usize = 0;
    let mut first: usize = 8;
    let mut second: usize = 8;
    let mut i: usize = 8;
    while i < n - 1
        invariant
            s == text@,
            n == s.len(),
            n >= 14,
            8 <= i <= n - 1,
            count == comma_count(s.subrange(8, i as int)),
            count <= i,
            count >= 1 ==> 8 <= first < i && s[first as int] == ',',
            count >= 2 ==> first < second < i && s[second as int] == ',',
            count <= 2 ==> forall|j: int|
                8 <= j < i && s[j] == ',' ==> (count >= 1 && j == first) || (count == 2 && j
                    == second),
        decreases n - 1 - i,
    {
        let c = text.get_char(i);
        assert(s.subrange(8, i + 1).drop_last() =~= s.subrange(8, i as int));
        if c == ',' {
            if count == 0 {
                first = i;
            } else if count == 1 {
                second = i;
            }
            count = count + 1;
        }
        i = i + 1;
    }
    assert(s.subrange(8, i as int) =~= inner_of(s));
    if count != 2 {
        return Err(ParseVector3Error::InvalidFormat);
    }
    let a = String::from_str(text.substring_char(8, first));
    let b = String::from_str(text.substring_char(first + 1, second));
    let c = String::from_str(text.substring_char(second + 1, n - 1));
    assert(inner_of(s) =~= a@ + seq![','] + b@ + seq![','] + c@);
    assert(comma_free(a@)) by {
        assert forall|k: int| 0 <= k < a@.len() implies a@[k] != ',' by {
            assert(a@[k] == s[8 + k]);
        }
    }
    assert(comma_free(b@)) by {
        assert forall|k: int| 0 <= k < b@.len() implies b@[k] != ',' by {
            assert(b@[k] == s[first + 1 + k]);
        }
    }
    assert(comma_free(c@)) by {
        assert forall|k: int| 0 <= k < c@.len() implies c@[k] != ',' by {
            assert(c@[k] == s[second + 1 + k]);
        }
    }
    Ok((a, b, c))
}

} // verus!
