use vstd::prelude::*;
use vstd::string::StringExecFns;

verus! {

/// Appends one character to `s` (std's `String::push`).
#[verifier::external_body]
pub(crate) fn push_char(s: &mut String, c: char)
    ensures
        final(s)@ == old(s)@.push(c),
{
    s.push(c)
}

/// The ASCII digit for `d < 10`.
pub open spec fn digit_char(d: nat) -> char {
    (('0' as nat) + d) as char
}

/// Decimal notation of a natural number, without leading zeros.
pub open spec fn decimal(n: nat) -> Seq<char>
    decreases n,
{
    if n < 10 {
        seq![digit_char(n)]
    } else {
        decimal(n / 10).push(digit_char(n % 10))
    }
}

/// Decimal notation of an integer, with a leading `-` when negative.
pub open spec fn signed_decimal(n: int) -> Seq<char> {
    if n < 0 {
        seq!['-'] + decimal((-n) as nat)
    } else {
        decimal(n as nat)
    }
}

/// The lowercase hexadecimal digit for `d < 16`.
pub open spec fn hex_digit(d: nat) -> char {
    if d < 10 {
        digit_char(d)
    } else {
        (('a' as nat) + (d - 10)) as char
    }
}

/// Lowercase hexadecimal notation of bytes: two digits per byte, high
/// nibble first.
pub open spec fn hex_lower(bytes: Seq<u8>) -> Seq<char>
    decreases bytes.len(),
{
    if bytes.len() == 0 {
        Seq::empty()
    } else {
        hex_lower(bytes.drop_last()) + seq![
            hex_digit((bytes.last() / 16) as nat),
            hex_digit((bytes.last() % 16) as nat),
        ]
    }
}

/// The character of a decimal digit.
pub(crate) fn digit(d: u8) -> (c: char)
    requires
        d < 10,
    ensures
        c == digit_char(d as nat),
{
    ((48u8 + d) as char)
}

/// The character of a lowercase hexadecimal digit.
pub(crate) fn hex_char(d: u8) -> (c: char)
    requires
        d < 16,
    ensures
        c == hex_digit(d as nat),
{
    if d < 10 {
        digit(d)
    } else {
        ((87u8 + d) as char)
    }
}

/// Decimal notation of `n`.
pub fn decimal_string(n: u128) -> (s: String)
    ensures
        s@ == decimal(n as nat),
    decreases n,
{
    if n < 10 {
        let mut s = String::new();
        push_char(&mut s, digit(n as u8));
        proof {
            assert(s@ =~= seq![digit_char(n as nat)]);
        }
        s
    } else {
        let mut s = decimal_string(n / 10);
        push_char(&mut s, digit((n % 10) as u8));
        s
    }
}

/// Decimal notation of a signed `n`.
pub fn signed_decimal_string(n: i64) -> (s: String)
    ensures
        s@ == signed_decimal(n as int),
{
    if n < 0 {
        let magnitude: u128 = (0i128 - (n as i128)) as u128;
        let digits = decimal_string(magnitude);
        let mut s = String::new();
        push_char(&mut s, '-');
        s.append(digits.as_str());
        proof {
            assert(s@ =~= seq!['-'] + decimal((-(n as int)) as nat));
        }
        s
    } else {
        decimal_string(n as u128)
    }
}

/// Lowercase hexadecimal notation of `bytes`.
pub fn hex_string(bytes: &[u8]) -> (s: String)
    ensures
        s@ == hex_lower(bytes@),
{
    let mut s = String::new();
    let mut i: usize = 0;
    while i < bytes.len()
        invariant
            i <= bytes.len(),
            s@ == hex_lower(bytes@.take(i as int)),
        decreases bytes.len() - i,
    {
        let b = bytes[i];
        push_char(&mut s, hex_char(b / 16));
        push_char(&mut s, hex_char(b % 16));
        proof {
            let t = bytes@.take(i as int + 1);
            assert(t.drop_last() =~= bytes@.take(i as int));
            assert(t.last() == b);
        }
        i = i + 1;
    }
    proof {
        assert(bytes@.take(bytes@.len() as int) =~= bytes@);
    }
    s
}

/// Messages joined by `": "`.
pub open spec fn joined(messages: Seq<Seq<char>>) -> Seq<char>
    decreases messages.len(),
{
    if messages.len() == 0 {
        Seq::empty()
    } else if messages.len() == 1 {
        messages[0]
    } else {
        joined(messages.drop_last()) + ": "@ + messages.last()
    }
}

/// An error together with its chain of causes, outermost first; shown as
/// the messages separated by `": "`, so that the root cause (DNS failure,
/// connection refused, timeout) is not hidden behind the outermost layer.
pub struct ErrorChain {
    messages: Vec<String>,
}

impl View for ErrorChain {
    type V = Seq<Seq<char>>;

    closed spec fn view(&self) -> Seq<Seq<char>> {
        self.messages@.map_values(|m: String| m@)
    }
}

impl ErrorChain {
    /// A chain holding only the outermost error's message.
    pub fn new(message: String) -> (chain: Self)
        ensures
            chain@ == seq![message@],
    {
        let mut messages = Vec::new();
        messages.push(message);
        let chain = ErrorChain { messages };
        proof {
            assert(chain@ =~= seq![message@]);
        }
        chain
    }

    /// The chain extended by the message of the next underlying cause.
    pub fn caused_by(self, message: String) -> (chain: Self)
        ensures
            chain@ == self@.push(message@),
    {
        let mut messages = self.messages;
        messages.push(message);
        let chain = ErrorChain { messages };
        proof {
            assert(chain@ =~= self@.push(message@));
        }
        chain
    }

    /// The messages separated by `": "`.
    pub fn to_string(&self) -> (s: String)
        ensures
            s@ == joined(self@),
    {
        let mut s = String::new();
        let mut i: usize = 0;
        while i < self.messages.len()
            invariant
                i <= self.messages.len(),
                s@ == joined(self@.take(i as int)),
            decreases self.messages.len() - i,
        {
            proof {
                let t = self@.take(i as int + 1);
                assert(t.drop_last() =~= self@.take(i as int));
                assert(t.last() == self.messages@[i as int]@);
                if i == 0 {
                    assert(self@.take(0) =~= Seq::<Seq<char>>::empty());
                }
            }
            if i > 0 {
                s.append(": ");
            }
            s.append(self.messages[i].as_str());
            proof {
                if i == 0 {
                    assert(s@ =~= self.messages@[0]@);
                }
            }
            i = i + 1;
        }
        proof {
            assert(self@.take(self@.len() as int) =~= self@);
        }
        s
    }
}

} // verus!
