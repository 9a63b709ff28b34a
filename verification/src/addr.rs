use vstd::prelude::*;

use crate::error::ContractError;

verus! {

/// A character the addressing scheme accepts: a lowercase ASCII letter or a
/// digit, the alphabet of bech32-style account identifiers.
pub open spec fn valid_addr_char(c: char) -> bool {
    ('a' <= c && c <= 'z') || ('0' <= c && c <= '9')
}

/// The longest identifier the addressing scheme accepts.
pub const MAX_ADDR_LEN: usize = 90;

/// A well-formed identity in the addressing scheme: nonempty, at most
/// [`MAX_ADDR_LEN`] characters, all of them lowercase ASCII letters or digits.
pub open spec fn valid_addr(s: Seq<char>) -> bool {
    &&& 1 <= s.len() <= MAX_ADDR_LEN
    &&& forall|i: int| 0 <= i < s.len() ==> valid_addr_char(#[trigger] s[i])
}

/// An account identity. A value of this type carries an arbitrary string;
/// only identities accepted by [`addr_validate`] are known to be well formed,
/// mirroring the convention that addresses arriving in messages were checked
/// upstream.
#[derive(Debug)]
pub struct Addr {
    text: String,
}

impl View for Addr {
    type V = Seq<char>;

    closed spec fn view(&self) -> Seq<char> {
        self.text@
    }
}

impl Clone for Addr {
    fn clone(&self) -> (r: Self)
        ensures
            r == *self,
    {
        Addr { text: self.text.clone() }
    }
}

impl PartialEq for Addr {
    fn eq(&self, other: &Self) -> (r: bool) {
        self.text == other.text
    }
}

impl vstd::std_specs::cmp::PartialEqSpecImpl for Addr {
    open spec fn obeys_eq_spec() -> bool {
        true
    }

    open spec fn eq_spec(&self, other: &Self) -> bool {
        self@ == other@
    }
}

impl Addr {
    /// The identity as a string slice.
    pub fn as_str(&self) -> (r: &str)
        ensures
            r@ == self@,
    {
        self.text.as_str()
    }

    /// The identity as an owned string.
    pub fn to_text(&self) -> (r: String)
        ensures
            r@ == self@,
    {
        self.text.clone()
    }
}

/// Checks a raw string against the addressing scheme and wraps it as an
/// identity; rejects every other string with `InvalidAddress`.
pub fn addr_validate(input: &str) -> (r: Result<Addr, ContractError>)
    ensures
        valid_addr(input@) ==> (r matches Ok(a) && a@ == input@),
        !valid_addr(input@) ==> r == Err::<Addr, ContractError>(ContractError::InvalidAddress),
{
    if !input.is_ascii() {
        proof {
            let s = input@;
            let i = choose|i: int| 0 <= i < s.len() && !('\0' <= #[trigger] s[i] <= '\u{7f}');
            if valid_addr(s) {
                assert(valid_addr_char(s[i]));
            }
        }
        return Err(ContractError::InvalidAddress);
    }
    let n = input.unicode_len();
    if n == 0 || n > MAX_ADDR_LEN {
        return Err(ContractError::InvalidAddress);
    }
    let mut i: usize = 0;
    while i < n
        invariant
            0 <= i <= n,
            n == input@.len(),
            input.is_ascii(),
            forall|j: int| 0 <= j < i ==> valid_addr_char(#[trigger] input@[j]),
        decreases n - i,
    {
        let b = input.get_ascii(i);
        let ok = (97 <= b && b <= 122) || (48 <= b && b <= 57);
        proof {
            assert('\0' <= input@[i as int] <= '\u{7f}');
            assert(ok == valid_addr_char(input@[i as int]));
        }
        if !ok {
            return Err(ContractError::InvalidAddress);
        }
        i += 1;
    }
    Ok(Addr { text: input.to_owned() })
}

} // verus!
