//! Validated DNS-style names.

use vstd::prelude::*;
use vstd::string::*;

verus! {

/// The settings of the resolver: the bounds, in seconds, within which the
/// lifetime of an answer is kept.
#[derive(Clone, Copy, Debug)]
pub struct Config {
    pub min_ttl: Option<u64>,
    pub max_ttl: Option<u64>,
}

/// A character that may stand in a name: an ASCII letter or digit, `-`, `_`,
/// or the label separator `.`.
pub open spec fn is_name_char(c: char) -> bool {
    ||| 'a' <= c <= 'z'
    ||| 'A' <= c <= 'Z'
    ||| '0' <= c <= '9'
    ||| c == '-'
    ||| c == '_'
    ||| c == '.'
}

/// The longest name that is accepted, in characters.
pub const MAX_NAME_LEN: usize = 253;

/// A well-formed name: between 1 and 253 name characters, with no empty
/// label before a separator (no leading `.`, no `..`).
pub open spec fn is_name(s: Seq<char>) -> bool {
    &&& 1 <= s.len() <= MAX_NAME_LEN
    &&& forall|i: int| 0 <= i < s.len() ==> is_name_char(#[trigger] s[i])
    &&& forall|i: int| 0 <= i < s.len() && #[trigger] s[i] == '.' ==> i > 0 && s[i - 1] != '.'
}

/// The error for text that is not a well-formed name.
#[derive(Clone, Copy, Debug, PartialEq, Eq)]
pub struct InvalidName;

/// A DNS-style name, well-formed by construction.
#[derive(Debug, PartialEq, Eq, Hash)]
pub struct Name {
    text: String,
}

impl View for Name {
    type V = Seq<char>;

    closed spec fn view(&self) -> Seq<char> {
        self.text@
    }
}

fn is_name_byte(b: u8) -> (r: bool)
    ensures
        r == (b < 128 && is_name_char(b as char)),
{
    (b >= 97 && b <= 122) || (b >= 65 && b <= 90) || (b >= 48 && b <= 57) || b == 45 || b == 95
        || b == 46
}

impl Name {
    #[verifier::type_invariant]
    spec fn inv(self) -> bool {
        is_name(self.text@)
    }

    /// Whether the name is well-formed. Every name that exists at run time is.
    pub open spec fn wf(&self) -> bool {
        is_name(self@)
    }

    /// Accepts `text` as a name exactly when it is well-formed, and keeps it
    /// as written.
    pub fn try_from_str(text: &str) -> (r: Result<Name, InvalidName>)
        ensures
            r is Ok <==> is_name(text@),
            r matches Ok(name) ==> name@ == text@ && name.wf(),
    {
        broadcast use is_ascii_spec_bytes;

        if !text.is_ascii() {
            proof {
                let i = choose|i: int|
                    0 <= i < text@.len() && !('\0' <= #[trigger] text@[i] <= '\u{7f}');
                assert(!is_name_char(text@[i]));
            }
            return Err(InvalidName);
        }
        let bytes = text.as_bytes();
        let n = bytes.len();
        assert(n == text@.len());
        if n == 0 || n > MAX_NAME_LEN {
            return Err(InvalidName);
        }
        let mut i: usize = 0;
        while i < n
            invariant
                n == bytes@.len(),
                n == text@.len(),
                0 <= i <= n,
                is_ascii(text),
                bytes@ == text.spec_bytes(),
                forall|k: int| 0 <= k < i ==> is_name_char(#[trigger] text@[k]),
                forall|k: int| 0 <= k < i && #[trigger] text@[k] == '.' ==> k > 0 && text@[k - 1] != '.',
            decreases n - i,
        {
            let b = bytes[i];
            assert(b == text@[i as int] as u8);
            assert(b as char == text@[i as int]);
            if !is_name_byte(b) {
                return Err(InvalidName);
            }
            if b == 46 {
                if i == 0 {
                    return Err(InvalidName);
                }
                let prev = bytes[i - 1];
                assert(prev == text@[i - 1] as u8);
                if prev == 46 {
                    assert(text@[i - 1] == '.');
                    return Err(InvalidName);
                }
            }
            i = i + 1;
        }
        Ok(Name { text: text.to_owned() })
    }

    /// The name as text.
    pub fn as_str(&self) -> (s: &str)
        ensures
            s@ == self@,
            is_name(s@),
    {
        proof {
            use_type_invariant(self);
        }
        self.text.as_str()
    }
}

impl Clone for Name {
    fn clone(&self) -> (r: Self)
        ensures
            r == *self,
    {
        proof {
            use_type_invariant(self);
        }
        Name { text: self.text.clone() }
    }
}

} // verus!
